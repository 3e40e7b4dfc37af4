//! Recycling of a vector's heap buffer across element types.
//!
//! A [`PolyVec`] records the raw facts of a vector's buffer (where it starts,
//! how many elements it was sized for, how large one element is) and forgets
//! the element type. The buffer can later be handed out again as the parts of
//! an empty vector of another element type, with the capacity recomputed so
//! that the byte count never grows.

pub mod buffer;
pub mod error;
pub mod parts;
pub mod rule;

pub use buffer::PolyVec;
pub use error::PolyVecError;
pub use parts::VecParts;
