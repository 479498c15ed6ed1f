//! The two pipeline profiles: the constants that distinguish the direct
//! colouring pipeline from the angular one.
use vstd::prelude::*;

verus! {

/// Two-point interpolation kernel used inside the bilinear sampler.
#[derive(Clone, Copy, Debug, PartialEq, Eq, Structural)]
pub enum Kernel {
    /// `a + (b - a) * t`
    Linear,
    /// `t` remapped through `(1 - cos(pi * t)) / 2` before the linear step.
    Cosine,
}

/// How noise samples become a colour.
#[derive(Clone, Copy, Debug, PartialEq, Eq, Structural)]
pub enum ColorPolicy {
    /// The three fractal channels are the red, green and blue channels.
    Direct,
    /// A colour-wheel angle with thresholded desaturation.
    Angular,
}

/// Named constants of one pipeline.
#[derive(Clone, Copy, Debug, PartialEq, Eq, Structural)]
pub struct Profile {
    /// Row multiplier of the hash (`z = (y * row_mul - seed') mod 30983`).
    pub row_mul: i32,
    /// Multiplier of the scrambled seed in the hash's integer quotient.
    pub seed_div: i32,
    /// Octave `i` (1 to 5) samples at frequency `2^(octave_exp - i)`.
    pub octave_exp: u32,
    pub kernel: Kernel,
    pub policy: ColorPolicy,
}

impl Profile {
    /// The octave schedule of this profile is representable: every frequency
    /// `2^(octave_exp - i)` for `i` in 1..=5 is a positive `i32`.
    pub open spec fn wf(&self) -> bool {
        5 <= self.octave_exp <= 31
    }

    /// Direct colouring: linear kernel, coarsest octave at `2^6`.
    pub fn direct() -> (r: Profile)
        ensures
            r.row_mul == 1234567,
            r.seed_div == 100000,
            r.octave_exp == 7,
            r.kernel == Kernel::Linear,
            r.policy == ColorPolicy::Direct,
            r.wf(),
    {
        Profile {
            row_mul: 1234567,
            seed_div: 100000,
            octave_exp: 7,
            kernel: Kernel::Linear,
            policy: ColorPolicy::Direct,
        }
    }

    /// Angular colouring: cosine kernel, coarsest octave at `2^5`.
    pub fn angular() -> (r: Profile)
        ensures
            r.row_mul == 234567,
            r.seed_div == 10000,
            r.octave_exp == 6,
            r.kernel == Kernel::Cosine,
            r.policy == ColorPolicy::Angular,
            r.wf(),
    {
        Profile {
            row_mul: 234567,
            seed_div: 10000,
            octave_exp: 6,
            kernel: Kernel::Cosine,
            policy: ColorPolicy::Angular,
        }
    }
}

} // verus!
