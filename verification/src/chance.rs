//! The one source of chance: a uniformly drawn integer.

use rand::Rng;
use vstd::prelude::*;

verus! {

/// Calls `rand::Rng::gen_range` on `rand::thread_rng()` with the half-open
/// range `low..high`. Not verified: the contract is what `gen_range`
/// documents, a value of the range, and it says nothing of which one. The
/// range must not be empty, or `gen_range` panics. The thread's generator
/// itself panics if the operating system cannot seed it.
#[verifier::external_body]
pub(crate) fn random_in_range(low: i32, high: i32) -> (drawn: i32)
    requires
        low < high,
    ensures
        low <= drawn < high,
{
    rand::thread_rng().gen_range(low..high)
}

} // verus!
