//! Random draws, taken from the `rand` crate through trusted wrappers.
//!
//! Nothing is assumed of a draw beyond its range: every caller is verified
//! for every value the wrapper may hand back.

use vstd::prelude::*;
use crate::fx::FX_ONE;

verus! {

/// Relies on `rand::Rng::gen_range` over `0..n`: a uniform draw below `n`.
#[verifier::external_body]
pub fn random_u64(n: u64) -> (r: u64)
    requires
        n > 0,
    ensures
        r < n,
{
    rand::Rng::gen_range(&mut rand::thread_rng(), 0..n)
}

/// Relies on `rand::Rng::gen_range` over `min..max`: a uniform draw in the range.
#[verifier::external_body]
pub fn random_int(min: i32, max: i32) -> (r: i32)
    requires
        min < max,
    ensures
        min <= r < max,
{
    rand::Rng::gen_range(&mut rand::thread_rng(), min..max)
}

/// Relies on `rand::Rng::gen_range` over `min..max`: a uniform fixed-point
/// draw in the range.
#[verifier::external_body]
pub fn random_range(min: i64, max: i64) -> (r: i64)
    requires
        min < max,
    ensures
        min <= r < max,
{
    rand::Rng::gen_range(&mut rand::thread_rng(), min..max)
}

/// A uniform draw in `[min, max)`, or `min` itself when the range is empty.
pub fn random_range_or_min(min: i64, max: i64) -> (r: i64)
    ensures
        min < max ==> min <= r < max,
        min >= max ==> r == min,
{
    if min < max {
        random_range(min, max)
    } else {
        min
    }
}

/// A uniform fixed-point draw in `[0, 1)`.
pub fn random_unit() -> (r: i64)
    ensures
        0 <= r < FX_ONE,
{
    random_range(0, FX_ONE)
}

} // verus!
