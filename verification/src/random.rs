//! The source of randomness: one generator type, and one way to draw from
//! it.

use rand::rngs::StdRng;
use rand::Rng;
use vstd::prelude::*;

verus! {

/// The generator that the random draws of this crate are taken from.
#[verifier::external_type_specification]
#[verifier::external_body]
pub struct ExStdRng(rand::rngs::StdRng);

/// `Rng::gen_range` of a `StdRng` on a half-open range of `u128`. It panics on
/// an empty range, which the precondition leaves out, and otherwise returns a
/// member of the range. Which member is up to the generator, so nothing more
/// is claimed.
#[verifier::external_body]
pub(crate) fn draw_in_range(rng: &mut StdRng, low: u128, high: u128) -> (val: u128)
    requires
        low < high,
    ensures
        low <= val < high,
{
    rng.gen_range(low..high)
}

} // verus!
