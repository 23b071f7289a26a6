//! The answer of a non-blocking operation.

use vstd::prelude::*;

verus! {

/// What a non-blocking operation reports: its result, or that it cannot
/// make progress yet and the caller will be woken to try again.
#[derive(Debug, PartialEq, Eq)]
pub enum Attempt<T> {
    /// The operation completed with this result.
    Ready(T),
    /// The operation is not ready; the caller is parked.
    Pending,
}

} // verus!
