//! The one trusted boundary to the random number generator.

use vstd::prelude::*;
use rand::Rng;

verus! {

/// Relies on `rand::Rng::gen_range` on `rand::thread_rng()`: for an integer
/// range `lo..hi` it panics only when the range is empty, which the
/// precondition rules out, and otherwise returns a uniformly drawn value
/// inside the half-open range. Nothing more is assumed of the draw.
#[verifier::external_body]
pub(crate) fn random_in(lo: i64, hi: i64) -> (r: i64)
    requires
        lo < hi,
    ensures
        lo <= r < hi,
{
    rand::thread_rng().gen_range(lo..hi)
}

} // verus!
