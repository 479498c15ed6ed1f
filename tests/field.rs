use noise_art::{
    apply_collapse, blend_dimensions, collapse_for, grid_cell, octave_plan, BlendError, Collapse,
    ColorPolicy, GridCell, Kernel, Octave, Profile, BLUE_SEED, GREEN_SEED, HUE_SEED, RED_SEED,
    TONE_SEED, WEIGHT_UNIT, WHEEL_FREQ,
};

#[test]
fn grid_cell_inside_positive_cell() {
    assert_eq!(
        grid_cell(37, 70, 16),
        GridCell { left: 2, right: 3, top: 4, bottom: 5, offset_x: 5, offset_y: 6 }
    );
}

#[test]
fn grid_cell_truncates_negative_coordinates() {
    assert_eq!(
        grid_cell(-5, -17, 4),
        GridCell { left: -1, right: 0, top: -4, bottom: -3, offset_x: -1, offset_y: -1 }
    );
}

#[test]
fn grid_cell_on_aligned_column_and_row() {
    let c = grid_cell(96, 10, 32);
    assert_eq!((c.left, c.offset_x), (3, 0));
    let r = grid_cell(10, 128, 32);
    assert_eq!((r.top, r.offset_y), (4, 0));
}

#[test]
fn grid_cell_right_edge_wraps() {
    assert_eq!(grid_cell(i32::MAX, 0, 1).right, i32::MIN);
}

#[test]
fn origin_collapses_to_first_corner_for_every_octave() {
    for o in octave_plan(7) {
        assert_eq!(
            grid_cell(0, 0, o.freq),
            GridCell { left: 0, right: 1, top: 0, bottom: 1, offset_x: 0, offset_y: 0 }
        );
    }
}

#[test]
fn octave_plan_of_angular_profile() {
    let plan = octave_plan(Profile::angular().octave_exp);
    let expected = vec![
        Octave { level: 1, freq: 32, weight: 81 },
        Octave { level: 2, freq: 16, weight: 27 },
        Octave { level: 3, freq: 8, weight: 9 },
        Octave { level: 4, freq: 4, weight: 3 },
        Octave { level: 5, freq: 2, weight: 1 },
    ];
    assert_eq!(plan, expected);
}

#[test]
fn octave_plan_of_direct_profile() {
    let freqs: Vec<i32> = octave_plan(7).iter().map(|o| o.freq).collect();
    assert_eq!(freqs, vec![64, 32, 16, 8, 4]);
    assert_eq!(octave_plan(31)[0].freq, 1 << 30);
    assert_eq!(octave_plan(5)[4].freq, 1);
}

#[test]
fn octave_weights_sum_to_geometric_series() {
    let plan = octave_plan(6);
    let total: u32 = plan.iter().map(|o| o.weight).sum();
    assert_eq!(total, 121);
    let as_float: f64 = plan.iter().map(|o| o.weight as f64 / WEIGHT_UNIT as f64).sum();
    let series: f64 = (1..=5).map(|i| 3_f64.powi(-i)).sum();
    assert!((as_float - series).abs() < 1e-12);
}

#[test]
fn profiles_hold_their_constants() {
    let d = Profile::direct();
    assert_eq!((d.row_mul, d.seed_div, d.octave_exp), (1234567, 100000, 7));
    assert_eq!((d.kernel, d.policy), (Kernel::Linear, ColorPolicy::Direct));
    let a = Profile::angular();
    assert_eq!((a.row_mul, a.seed_div, a.octave_exp), (234567, 10000, 6));
    assert_eq!((a.kernel, a.policy), (Kernel::Cosine, ColorPolicy::Angular));
}

#[test]
fn channel_seeds() {
    assert_eq!((RED_SEED, GREEN_SEED, BLUE_SEED), (1, 2, 3));
    assert_eq!((HUE_SEED, TONE_SEED, WHEEL_FREQ), (7, 8, 100));
}

#[test]
fn collapse_thresholds_are_strict() {
    let decide = |n: f64| collapse_for(n > 0.7, n < 0.3);
    assert_eq!(decide(0.7), Collapse::Keep);
    assert_eq!(decide(0.3), Collapse::Keep);
    assert_eq!(decide(0.7000001), Collapse::ToGreen);
    assert_eq!(decide(0.2999999), Collapse::ToRed);
    assert_eq!(decide(0.5), Collapse::Keep);
}

#[test]
fn collapse_upper_test_comes_first() {
    assert_eq!(collapse_for(true, true), Collapse::ToGreen);
}

#[test]
fn apply_collapse_copies_one_channel() {
    let rgb = (0.9_f64, 0.4_f64, 0.1_f64);
    assert_eq!(apply_collapse(Collapse::ToGreen, rgb), (0.4, 0.4, 0.4));
    assert_eq!(apply_collapse(Collapse::ToRed, rgb), (0.9, 0.9, 0.9));
    assert_eq!(apply_collapse(Collapse::Keep, rgb), rgb);
}

#[test]
fn blend_requires_equal_dimensions() {
    assert_eq!(blend_dimensions((1920, 540), (1920, 540)), Ok((1920, 540)));
    assert_eq!(blend_dimensions((1920, 540), (1919, 540)), Err(BlendError::DimensionMismatch));
    assert_eq!(blend_dimensions((1920, 540), (1920, 541)), Err(BlendError::DimensionMismatch));
    assert_eq!(blend_dimensions((0, 0), (0, 0)), Ok((0, 0)));
}
