//! The one source of chance.

use vstd::prelude::*;
use rand::Rng;

verus! {

/// Draws a whole number between `low` and `high`, both included, with
/// `rand::Rng::gen_range` on the generator of `rand::thread_rng`.
///
/// Believed, not proved: the number drawn lies in the range asked for.
/// `gen_range` panics on an empty range, which `requires` keeps out.
#[verifier::external_body]
pub(crate) fn random_between(low: i32, high: i32) -> (r: i32)
    requires
        low <= high,
    ensures
        low <= r <= high,
{
    rand::thread_rng().gen_range(low..=high)
}

/// Draws yes or no with `rand::random`.
///
/// Nothing is claimed of the outcome.
#[verifier::external_body]
pub(crate) fn random_flag() -> (r: bool) {
    rand::random()
}

} // verus!
