use rand::Rng;
use vstd::prelude::*;

verus! {

/// Relies on rand's `Rng::gen_range` (rand 0.8, on the thread-local
/// generator): a value drawn from `low..high`; it panics on an empty range.
#[verifier::external_body]
pub(crate) fn random_in(low: i64, high: i64) -> (r: i64)
    requires
        low < high,
    ensures
        low <= r < high,
{
    rand::thread_rng().gen_range(low..high)
}

/// Relies on rand's `Rng::gen_ratio` (rand 0.8, on the thread-local
/// generator): `true` with probability `numerator / denominator`, always
/// `false` for a zero numerator and always `true` when both are equal; it
/// panics on a zero denominator or a numerator above it.
#[verifier::external_body]
pub(crate) fn chance(numerator: u32, denominator: u32) -> (r: bool)
    requires
        0 < denominator,
        numerator <= denominator,
    ensures
        numerator == 0 ==> !r,
        numerator == denominator ==> r,
{
    rand::thread_rng().gen_ratio(numerator, denominator)
}

} // verus!
