use rand::Rng;
use vstd::prelude::*;

verus! {

/// Relies on rand's `Rng::gen_range` over `rand::thread_rng()`: the value drawn
/// lies in `lo..=hi`, both ends included. `gen_range` panics on an empty range,
/// which `requires` rules out.
#[verifier::external_body]
pub(crate) fn roll(lo: i64, hi: i64) -> (r: i64)
    requires
        lo <= hi,
    ensures
        lo <= r <= hi,
{
    rand::thread_rng().gen_range(lo..=hi)
}

} // verus!
