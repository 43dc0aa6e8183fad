//! Trusted boundary to the `rand` crate: the random draws the generators use.

use vstd::prelude::*;

use rand::Rng;
use rand::SeedableRng as _;

verus! {

#[verifier::external_type_specification]
#[verifier::external_body]
pub struct ExStdRng(rand::rngs::StdRng);

/// A uniformly random index below `bound`.
///
/// Relies on `rand::Rng::random_range`: for a non-empty integer range it
/// returns a value inside the range and panics only on an empty range.
#[verifier::external_body]
pub(crate) fn draw_below(rng: &mut rand::rngs::StdRng, bound: usize) -> (r: usize)
    requires
        bound > 0,
    ensures
        r < bound,
{
    rng.random_range(0..bound)
}

/// A fresh random source.
///
/// Relies on `rand::rngs::StdRng::from_os_rng`, which seeds a generator from
/// the operating system's entropy source.
#[verifier::external_body]
pub(crate) fn rng_from_entropy() -> rand::rngs::StdRng {
    rand::rngs::StdRng::from_os_rng()
}

} // verus!
