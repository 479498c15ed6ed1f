//! Precondition of the blend compositor.
use vstd::prelude::*;

verus! {

#[derive(Clone, Copy, Debug, PartialEq, Eq, Structural)]
pub enum BlendError {
    /// The two source images differ in width or height.
    DimensionMismatch,
}

/// The dimensions `(width, height)` of the blended image: those of the two
/// sources when they agree, and `DimensionMismatch` otherwise.
pub fn blend_dimensions(first: (u32, u32), second: (u32, u32)) -> (r: Result<(u32, u32), BlendError>)
    ensures
        first == second ==> r == Ok::<(u32, u32), BlendError>(first),
        first != second ==> r == Err::<(u32, u32), BlendError>(BlendError::DimensionMismatch),
{
    if first.0 == second.0 && first.1 == second.1 {
        Ok(first)
    } else {
        Err(BlendError::DimensionMismatch)
    }
}

} // verus!
