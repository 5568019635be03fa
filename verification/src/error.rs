//! The ways in which a canvas operation can be refused.

use vstd::prelude::*;

verus! {

/// Why an operation was refused. A refused operation changes nothing.
#[derive(Clone, Copy, Debug, PartialEq, Eq, Structural)]
pub enum CanvasError {
    /// A width or height that no canvas can have: zero, not a number, or
    /// larger than the view can hold at the current scale.
    InvalidDimension,
    /// A coordinate outside the extent of the pixel buffer.
    OutOfBounds,
}

} // verus!
