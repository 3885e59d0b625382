use vstd::prelude::*;

verus! {

/// Draws a value with `rand::random` from the thread-local generator. Any
/// `u64` can come back, and two calls may differ: nothing is stated of the
/// result.
#[verifier::external_body]
pub(crate) fn random_seed() -> (r: u64) {
    rand::random::<u64>()
}

/// Draws a value in `lo..=hi` with `rand::random_range` from the
/// thread-local generator. That function panics on an empty range, so
/// `lo <= hi` is required; the result lies in the range, and which value
/// comes back is left to chance.
#[verifier::external_body]
pub(crate) fn random_in(lo: u64, hi: u64) -> (r: u64)
    requires
        lo <= hi,
    ensures
        lo <= r <= hi,
{
    rand::random_range(lo..=hi)
}

} // verus!
