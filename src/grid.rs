//! Grid lookup of the bilinear sampler: which four lattice points surround a
//! coordinate at a given frequency, and how far into the cell it lies.
use crate::arith::{
    add_wrap, div_trunc, i32_wrap, iabs, lemma_wrap_id, rem_trunc, trunc_div, trunc_rem,
};
use vstd::arithmetic::div_mod::lemma_div_multiples_vanish;
use vstd::prelude::*;

verus! {

/// The lattice cell of a coordinate. The sampler hashes the four corners
/// `(left|right, top|bottom)` and interpolates with weights
/// `offset_x / freq` and `offset_y / freq`.
#[derive(Clone, Copy, Debug, PartialEq, Eq, Structural)]
pub struct GridCell {
    pub left: i32,
    pub right: i32,
    pub top: i32,
    pub bottom: i32,
    pub offset_x: i32,
    pub offset_y: i32,
}

/// `x / freq`, `x / freq + 1`, `y / freq`, `y / freq + 1`, `x % freq`,
/// `y % freq`, with truncating division and wrapping increment.
pub open spec fn cell_of(x: int, y: int, freq: int) -> GridCell {
    let l = trunc_div(x, freq);
    let t = trunc_div(y, freq);
    GridCell {
        left: l as i32,
        right: i32_wrap(l + 1) as i32,
        top: t as i32,
        bottom: i32_wrap(t + 1) as i32,
        offset_x: trunc_rem(x, freq) as i32,
        offset_y: trunc_rem(y, freq) as i32,
    }
}

/// The cell that contains `(x, y)` on the lattice of spacing `freq`.
pub fn grid_cell(x: i32, y: i32, freq: i32) -> (r: GridCell)
    requires
        freq > 0,
    ensures
        r == cell_of(x as int, y as int, freq as int),
{
    let left = div_trunc(x, freq);
    let top = div_trunc(y, freq);
    GridCell {
        left,
        right: add_wrap(left, 1),
        top,
        bottom: add_wrap(top, 1),
        offset_x: rem_trunc(x, freq),
        offset_y: rem_trunc(y, freq),
    }
}

/// A lattice coordinate: `trunc_div(k * freq, freq) == k` with no remainder.
pub proof fn lemma_multiple_splits(k: int, freq: int)
    requires
        freq > 0,
    ensures
        trunc_div(k * freq, freq) == k,
        trunc_rem(k * freq, freq) == 0,
{
    if k >= 0 {
        assert(k * freq >= 0) by (nonlinear_arith)
            requires
                k >= 0,
                freq > 0,
        ;
        lemma_div_multiples_vanish(k, freq);
        assert(freq * k == k * freq) by (nonlinear_arith);
    } else {
        assert(k * freq < 0 && iabs(k * freq) == freq * (-k)) by (nonlinear_arith)
            requires
                k < 0,
                freq > 0,
        ;
        lemma_div_multiples_vanish(-k, freq);
    }
    assert(k * freq - freq * k == 0) by (nonlinear_arith);
}

/// Continuity at grid columns: at `x = k * freq` the horizontal offset is zero
/// and the cell's left edge is column `k`, so interpolating across the cell
/// yields exactly the hash of the left corners.
pub proof fn lemma_aligned_column(k: int, y: int, freq: int)
    requires
        freq > 0,
        i32::MIN <= k * freq <= i32::MAX,
        i32::MIN <= y <= i32::MAX,
    ensures
        cell_of(k * freq, y, freq).left == k,
        cell_of(k * freq, y, freq).offset_x == 0,
        cell_of(k * freq, y, freq).top == trunc_div(y, freq),
{
    lemma_multiple_splits(k, freq);
}

/// Continuity at grid rows: at `y = k * freq` the vertical offset is zero and
/// the cell's top edge is row `k`.
pub proof fn lemma_aligned_row(x: int, k: int, freq: int)
    requires
        freq > 0,
        i32::MIN <= x <= i32::MAX,
        i32::MIN <= k * freq <= i32::MAX,
    ensures
        cell_of(x, k * freq, freq).top == k,
        cell_of(x, k * freq, freq).offset_y == 0,
        cell_of(x, k * freq, freq).left == trunc_div(x, freq),
{
    lemma_multiple_splits(k, freq);
}

/// At the origin every frequency gives the cell whose first corner is
/// `(0, 0)` with zero offsets, so each octave's sample there is the hash of
/// lattice point `(0, 0)`.
pub proof fn lemma_origin_cell(freq: int)
    requires
        0 < freq <= i32::MAX,
    ensures
        cell_of(0, 0, freq) == (GridCell { left: 0, right: 1, top: 0, bottom: 1, offset_x: 0, offset_y: 0 }),
{
    lemma_multiple_splits(0, freq);
    lemma_wrap_id(1);
}

} // verus!
