//! The one randomness source of the simulation: a uniform draw from a
//! closed integer interval, used by the food spawner.

use rand::Rng;
use vstd::prelude::*;

verus! {

/// Relies on `rand::thread_rng` and `rand::Rng::gen_range` over the
/// inclusive range `lo..=hi`: the sample always lies within the range,
/// which must not be empty (`gen_range` panics on an empty range).
/// Nothing more is assumed of the draw; callers must hold for every value
/// it could take.
#[verifier::external_body]
pub(crate) fn random_in_range(lo: i32, hi: i32) -> (r: i32)
    requires
        lo <= hi,
    ensures
        lo <= r <= hi,
{
    rand::thread_rng().gen_range(lo..=hi)
}

} // verus!
