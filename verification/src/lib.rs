//! Loop unrolling by a factor fixed ahead of the run.
//!
//! The unroll engine invokes a caller-supplied action once for every index
//! in `0..n`, in ascending order, by recursion on the trip count. The
//! partial unroller drives a runtime count `k` through the engine in blocks
//! of a fixed factor `n`, pairing every index with its slot `i % n`, and
//! finishes the `k % n` remainder with an ordinary edge loop.
//!
//! The engine delivers exactly the call sequence of a statically expanded
//! unroll; the expansion into straight-line code is left to the compiler's
//! optimizer rather than guaranteed by construction.

pub mod action;
pub mod factor;
pub mod unroll;

pub use action::{Action, SlotAction};
pub use factor::Loop;
pub use unroll::{full_indices, full_unroll, partial_pairs, partial_unroll};
