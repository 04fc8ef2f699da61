//! The random source that the models draw from.

use rand::rngs::StdRng;
use rand::Rng;
use vstd::prelude::*;

verus! {

#[verifier::external_type_specification]
#[verifier::external_body]
pub struct ExStdRng(StdRng);

/// Draws an integer with `rand::Rng::random_range` on the half-open range
/// `low..high`.
///
/// Trusted: the range must not be empty, since `random_range` panics on an
/// empty range, and the value drawn lies in the range. Nothing else is
/// claimed of it; two draws need not agree.
#[verifier::external_body]
pub(crate) fn draw_in_range(rng: &mut StdRng, low: i64, high: i64) -> (drawn: i64)
    requires
        low < high,
    ensures
        low <= drawn < high,
{
    rng.random_range(low..high)
}

} // verus!
