//! Random draws, taken from the thread-local generator of `rand`.

use rand::Rng;
use vstd::prelude::*;

verus! {

/// `Rng::gen_range` of `rand`, on `thread_rng()` and a half-open range of
/// `i64`: the value drawn lies in the range. An empty range makes it panic and
/// is left out.
#[verifier::external_body]
pub(crate) fn gen_range(low: i64, high: i64) -> (r: i64)
    requires
        low < high,
    ensures
        low <= r < high,
{
    rand::thread_rng().gen_range(low..high)
}

/// `Rng::gen_ratio` of `rand`, on `thread_rng()`: true with a chance of
/// `numerator` in `denominator`; always true where the two are equal, never
/// where the numerator is zero. A zero denominator or a numerator above it
/// makes it panic and is left out.
#[verifier::external_body]
pub(crate) fn gen_ratio(numerator: u32, denominator: u32) -> (r: bool)
    requires
        denominator > 0,
        numerator <= denominator,
    ensures
        numerator == denominator ==> r,
        numerator == 0 ==> !r,
{
    rand::thread_rng().gen_ratio(numerator, denominator)
}

} // verus!
