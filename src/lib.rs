//! Integer core of a procedural noise-texture generator: the fixed-width hash
//! stage, the grid lookup of the bilinear sampler, the octave schedule, the
//! colour-collapse rule, the blend precondition and output naming.
mod arith;
mod blend;
mod color;
mod grid;
mod hash;
mod octave;
mod output;
mod profile;

pub use arith::{
    add_wrap, div_trunc, i32_wrap, iabs, mul_wrap, rem_trunc, sub_wrap, trunc_div, trunc_rem,
    wrapping_abs,
};
pub use blend::{blend_dimensions, BlendError};
pub use color::{apply_collapse, collapse_for, Collapse, HUE_SEED, TONE_SEED, WHEEL_FREQ};
pub use grid::{
    cell_of, grid_cell, lemma_aligned_column, lemma_aligned_row, lemma_origin_cell,
    GridCell,
};
pub use hash::{
    hash_result, hash_terms, irand, lemma_hash_deterministic, quotient_divisor, scramble, terms_of,
    HashError, HashTerms, ROW_MOD, SEED_MOD, SEED_MUL,
};
pub use octave::{
    lemma_octave_weights, octave_plan, plan_of, total_weight, Octave, BLUE_SEED, GREEN_SEED,
    OCTAVES, RED_SEED, WEIGHT_UNIT,
};
pub use output::{archive_path, archive_path_of, field_point, temp_path, GEN_HEIGHT, GEN_WIDTH};
pub use profile::{ColorPolicy, Kernel, Profile};
