//! The one place the library touches a random number generator.

use vstd::prelude::*;

verus! {

/// Relies on rand::Rng::gen_range over rand::thread_rng: a uniform sample
/// from the half-open range `lo..hi`, which panics only on an empty range.
/// Nothing more is assumed of the outcome than its bounds.
#[verifier::external_body]
pub(crate) fn sample_range(lo: i32, hi: i32) -> (r: i32)
    requires
        lo < hi,
    ensures
        lo <= r < hi,
{
    rand::Rng::gen_range(&mut rand::thread_rng(), lo..hi)
}

} // verus!
