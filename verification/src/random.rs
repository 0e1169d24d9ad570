//! The random number generator, as far as the game rules use it.

use vstd::prelude::*;
use rand::rngs::ThreadRng;

verus! {

/// Declares `rand::rngs::ThreadRng` as a type whose inside is not looked
/// at.
#[verifier::external_type_specification]
#[verifier::external_body]
pub struct ExThreadRng(rand::rngs::ThreadRng);

/// Calls `rand::thread_rng`, which hands out the generator of the current
/// thread. Nothing is claimed of it.
#[verifier::external_body]
pub(crate) fn thread_rng() -> (rng: ThreadRng) {
    rand::thread_rng()
}

/// Calls `Rng::gen_ratio`, which returns `true` with a chance of
/// `numerator` in `denominator`. It panics when the denominator is zero or
/// less than the numerator. Of the answer only the two certain cases are
/// claimed: always `true` when the two are equal, never when the numerator
/// is zero.
#[verifier::external_body]
pub(crate) fn gen_ratio(rng: &mut ThreadRng, numerator: u32, denominator: u32) -> (hit: bool)
    requires
        denominator > 0,
        numerator <= denominator,
    ensures
        numerator == denominator ==> hit,
        numerator == 0 ==> !hit,
{
    rand::Rng::gen_ratio(rng, numerator, denominator)
}

/// Calls `Rng::gen_range` on the half-open range from `low` to `high`,
/// which returns a number of that range. It panics when the range is empty.
#[verifier::external_body]
pub(crate) fn gen_range(rng: &mut ThreadRng, low: i64, high: i64) -> (value: i64)
    requires
        low < high,
    ensures
        low <= value < high,
{
    rand::Rng::gen_range(rng, low..high)
}

} // verus!
