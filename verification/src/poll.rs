//! The outcome of polling.
use vstd::prelude::*;

verus! {

/// What one poll of a future came to.
#[derive(Debug, PartialEq, Eq)]
pub enum Poll<T> {
    /// The future has completed with this value.
    Ready(T),
    /// The future has not completed; its waker will be woken when it can make progress.
    Pending,
}

} // verus!
