use vstd::prelude::*;

verus! {

/// Calls `rand::random_range` with the range `low..=high`, drawing from the
/// thread-local generator. The contract claims only what the crate documents
/// of every draw: the value lies in the range (and the call does not panic,
/// since the range is not empty). Which value comes is chance, so nothing
/// more is stated, and two calls with the same range may differ.
#[verifier::external_body]
pub(crate) fn random_between(low: u64, high: u64) -> (r: u64)
    requires
        low <= high,
    ensures
        low <= r <= high,
{
    rand::random_range(low..=high)
}

} // verus!
