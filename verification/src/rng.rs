//! Trusted boundary around the pseudorandom source.
//!
//! The simulation draws from a seedable generator so that a round can be
//! reproduced by injecting the seed.  Only these two wrappers touch the
//! generator; everything built on top of them is verified for every value
//! the draws may take.

use vstd::prelude::*;
use rand::Rng;
use rand::SeedableRng;

verus! {

/// Declares rand's standard generator so its values can stand in fields
/// and signatures; Verus sees nothing inside such a value.
#[verifier::external_type_specification]
#[verifier::external_body]
pub struct ExStdRng(rand::rngs::StdRng);

/// Relies on rand::SeedableRng::seed_from_u64: derives a full generator
/// state from the given seed; total, never fails.
#[verifier::external_body]
pub fn seed_rng(seed: u64) -> rand::rngs::StdRng {
    rand::rngs::StdRng::seed_from_u64(seed)
}

/// Relies on rand::Rng::gen_range over the half-open range `low..high`:
/// returns a value uniformly drawn from that range, and panics only when
/// the range is empty, which the precondition excludes.
#[verifier::external_body]
pub(crate) fn gen_range_i64(rng: &mut rand::rngs::StdRng, low: i64, high: i64) -> (r: i64)
    requires
        low < high,
    ensures
        low <= r < high,
{
    rng.gen_range(low..high)
}

} // verus!
