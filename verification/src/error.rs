//! The one way in which handing a buffer out again can fail.

use vstd::prelude::*;

verus! {

/// Why a buffer could not be handed out for the requested element type.
#[derive(Debug, Clone, Copy, PartialEq, Eq, Structural)]
pub enum PolyVecError {
    /// The element size the buffer was made for (`expected`) and the element
    /// size that was asked for (`detected`) are neither equal nor both
    /// multiples of the machine word.
    InvalidMemAlign { expected: usize, detected: usize },
}

impl PolyVecError {
    /// The text shown for this error.
    pub fn message(&self) -> (text: String)
        ensures
            text@ == "Invalid memory alignment"@,
    {
        String::from_str("Invalid memory alignment")
    }
}

} // verus!
