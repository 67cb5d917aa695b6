//! Randomness for the spawn contract, behind one trusted wrapper.

use vstd::prelude::*;

use rand::Rng;

verus! {

/// Relies on `rand::Rng::gen_range` over the half-open range from zero
/// up to `n`: the result is drawn from that range, so it is strictly
/// below `n`. The call panics only on an empty range, which the
/// precondition excludes.
#[verifier::external_body]
pub(crate) fn rand_below(n: u64) -> (r: u64)
    requires
        n >= 1,
    ensures
        r < n,
{
    rand::thread_rng().gen_range(0..n)
}

} // verus!
