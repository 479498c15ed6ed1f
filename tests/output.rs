use noise_art::{archive_path, field_point, temp_path, GEN_HEIGHT, GEN_WIDTH};

#[test]
fn archive_path_embeds_stamp() {
    assert_eq!(
        archive_path("2024-12-08_17-48-20"),
        "archive/output_2024-12-08_17-48-20.png"
    );
    assert_eq!(archive_path(""), "archive/output_.png");
}

#[test]
fn temp_path_uses_its_stamp() {
    let (stamp, path) = temp_path();
    assert_eq!(stamp.len(), 19);
    assert_eq!(path, format!("archive/output_{}.png", stamp));
}

#[test]
fn field_point_doubles_pixel_coordinates() {
    assert_eq!(field_point(0, 0), (0, 0));
    assert_eq!(field_point(GEN_WIDTH - 1, GEN_HEIGHT - 1), (3838, 1078));
}
