//! Random rolls, drawn from the thread-local generator of `rand`.
//!
//! Nothing can be promised of a random value beyond its range, so the
//! decisions that use one take it as an argument elsewhere in the crate.
use rand::Rng;
use vstd::prelude::*;

verus! {

/// Relies on `rand::Rng::gen_ratio` (with `rand::thread_rng`): `true` with
/// chance `num / den`; its documentation guarantees `true` when
/// `num == den` and `false` when `num == 0`, and it panics when
/// `den == 0` or `num > den`.
#[verifier::external_body]
pub(crate) fn roll_ratio(num: u32, den: u32) -> (r: bool)
    requires
        0 < den,
        num <= den,
    ensures
        num == 0 ==> !r,
        num == den ==> r,
{
    rand::thread_rng().gen_ratio(num, den)
}

/// Relies on `rand::Rng::gen_range` (with `rand::thread_rng`) over the
/// half-open range `lo..hi` of `i64`: the value lies in it; it panics on
/// an empty range.
#[verifier::external_body]
pub(crate) fn roll_range(lo: i64, hi: i64) -> (r: i64)
    requires
        lo < hi,
    ensures
        lo <= r < hi,
{
    rand::thread_rng().gen_range(lo..hi)
}

} // verus!
