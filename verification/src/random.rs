//! The random source behind the `Cxkk` instruction.
use vstd::prelude::*;

verus! {

/// A byte drawn from the thread-local generator of the `rand` crate.
///
/// Calls `rand::random_range` on the inclusive range `lo..=hi`. That
/// function is documented to return a value of the given range and to
/// panic on an empty one, which the precondition rules out. Taken on
/// trust: the result lies within the bounds. Nothing is claimed of how the
/// results are distributed, and two calls may differ.
#[verifier::external_body]
pub(crate) fn random_in_range(lo: u8, hi: u8) -> (byte: u8)
    requires
        lo <= hi,
    ensures
        lo <= byte <= hi,
{
    rand::random_range(lo..=hi)
}

} // verus!
