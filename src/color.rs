//! Colour rules of the angular policy that do not depend on floating point:
//! which fields it samples, and the thresholded desaturation.
use vstd::prelude::*;

verus! {

/// Hash channel of the field that picks the colour-wheel angle.
pub const HUE_SEED: i32 = 7;

/// Hash channel of the field that decides desaturation.
pub const TONE_SEED: i32 = 8;

/// Grid spacing of both angular-policy fields.
pub const WHEEL_FREQ: i32 = 100;

/// Desaturation chosen for one pixel.
#[derive(Clone, Copy, Debug, PartialEq, Eq, Structural)]
pub enum Collapse {
    /// All three channels take the green value.
    ToGreen,
    /// All three channels take the red value.
    ToRed,
    /// The wheel colour is kept.
    Keep,
}

/// The desaturation rule. `above_high` says the tone sample is strictly above
/// the upper threshold, `below_low` that it is strictly below the lower one;
/// the upper test is made first.
pub fn collapse_for(above_high: bool, below_low: bool) -> (r: Collapse)
    ensures
        above_high ==> r == Collapse::ToGreen,
        !above_high && below_low ==> r == Collapse::ToRed,
        !above_high && !below_low ==> r == Collapse::Keep,
{
    if above_high {
        Collapse::ToGreen
    } else if below_low {
        Collapse::ToRed
    } else {
        Collapse::Keep
    }
}

/// Apply a desaturation to an `(r, g, b)` triple of any channel type.
pub fn apply_collapse<T: Copy>(c: Collapse, rgb: (T, T, T)) -> (r: (T, T, T))
    ensures
        c == Collapse::ToGreen ==> r == (rgb.1, rgb.1, rgb.1),
        c == Collapse::ToRed ==> r == (rgb.0, rgb.0, rgb.0),
        c == Collapse::Keep ==> r == rgb,
{
    let (red, green, blue) = rgb;
    match c {
        Collapse::ToGreen => (green, green, green),
        Collapse::ToRed => (red, red, red),
        Collapse::Keep => (red, green, blue),
    }
}

} // verus!
