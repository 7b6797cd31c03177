//! A packed iteration engine: iterate over a contiguous scalar sequence while
//! grouping the elements into fixed-width vectors, with exact accounting of
//! how many scalars have been consumed and a deterministic, at-most-once
//! partial vector for the ragged tail.

pub mod vecs;
pub mod iters;
pub mod reduce;
pub mod collect;
