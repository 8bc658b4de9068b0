//! Draws from the thread's random number generator.

use vstd::prelude::*;

verus! {

/// Draws any `u32` with `rand::random`. Nothing is known of the number drawn.
#[verifier::external_body]
pub(crate) fn random_word() -> (word: u32) {
    rand::random::<u32>()
}

/// Draws a number from `low` to `high`, both included, with
/// `rand::random_range` on the inclusive range; that function panics on an
/// empty range, which the precondition rules out, and otherwise returns a
/// value of the range.
#[verifier::external_body]
pub(crate) fn random_between(low: u32, high: u32) -> (drawn: u32)
    requires
        low <= high,
    ensures
        low <= drawn <= high,
{
    rand::random_range(low..=high)
}

} // verus!
