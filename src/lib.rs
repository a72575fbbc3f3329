//! A sequence container with a capacity fixed when it is made.
//!
//! `SliceVec` holds the logic of the container for any capacity; `ArrayVec`
//! fixes the capacity in its type. Both keep their live elements contiguous
//! at the front of their storage and never grow past the capacity.

mod array_vec;
mod drain;
mod into_iter;
pub mod laws;
mod slice_vec;

pub use array_vec::ArrayVec;
pub use drain::{after_drain, drain_end, drain_start, drained, Drain};
pub use into_iter::{ArrayVecIntoIter, SliceVecIntoIter};
pub use slice_vec::SliceVec;
