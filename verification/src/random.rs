//! Draws from the injected random number generator.

use rand::rngs::StdRng;
use rand::Rng;
use vstd::prelude::*;

verus! {

#[verifier::external_type_specification]
#[verifier::external_body]
pub struct ExStdRng(StdRng);

/// Calls `Rng::gen_range` of the `rand` crate on the half-open range `low..high`.
/// The call panics on an empty range, which the precondition leaves out; the value
/// it returns lies in the range, and nothing more is known of it.
#[verifier::external_body]
pub(crate) fn draw_between(rng: &mut StdRng, low: i64, high: i64) -> (r: i64)
    requires
        low < high,
    ensures
        low <= r < high,
{
    rng.gen_range(low..high)
}

/// Calls `Rng::gen` of the `rand` crate for a 32-bit identifier. Any value may
/// come back.
#[verifier::external_body]
pub(crate) fn draw_id(rng: &mut StdRng) -> u32 {
    rng.gen()
}

} // verus!
