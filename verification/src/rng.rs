//! The one randomness source the spawn director draws from.

use vstd::prelude::*;

verus! {

/// Relies on fastrand::i32: a sample drawn from the inclusive range
/// `lo..=hi` lies in that range; the call panics on an empty range, so
/// one is never handed to it. Nothing further is assumed of the sample.
#[verifier::external_body]
pub(crate) fn random_in_range(lo: i32, hi: i32) -> (r: i32)
    requires
        lo <= hi,
    ensures
        lo <= r <= hi,
{
    fastrand::i32(lo..=hi)
}

} // verus!
