//! The random source that grid generation draws from.

use rand::rngs::StdRng;
use rand::Rng;
use vstd::prelude::*;

verus! {

/// `rand::rngs::StdRng`, carried through verified code as an opaque value.
#[verifier::external_type_specification]
#[verifier::external_body]
pub struct ExStdRng(rand::rngs::StdRng);

/// Draws one value below `bound` from `rng`.
///
/// Trusted: this is `rand::Rng::gen_range` on the half-open range `0..bound`.
/// `gen_range` panics on an empty range, which `bound > 0` excludes, and hands
/// back a value of the range. Which value comes back depends on the state of
/// `rng`, of which nothing is claimed.
#[verifier::external_body]
pub(crate) fn draw_below(rng: &mut StdRng, bound: u32) -> (drawn: u32)
    requires
        bound > 0,
    ensures
        drawn < bound,
{
    rng.gen_range(0..bound)
}

} // verus!
