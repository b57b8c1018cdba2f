use vstd::prelude::*;

pub mod batch;
pub mod epoch;
pub mod error;
pub mod loader;
pub mod sequence;

verus! {

/// The three dataset partitions a loader serves.
#[derive(Clone, Copy, PartialEq, Eq, Structural, Debug)]
pub enum Split {
    Train,
    Valid,
    Test,
}

} // verus!
