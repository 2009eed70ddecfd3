//! Trusted boundary to the random number generator.
//!
//! The initial population is drawn from rand's standard generator,
//! seeded once at startup. Nothing is assumed of the drawn values: every
//! caller must hold for every possible draw.

use vstd::prelude::*;

verus! {

#[verifier::external_type_specification]
#[verifier::external_body]
pub struct ExStdRng(rand::rngs::StdRng);

/// Relies on rand's `StdRng::seed_from_u64` (`SeedableRng`): constructs a
/// generator from the given seed. Nothing is assumed of its stream.
#[verifier::external_body]
pub(crate) fn rng_from_seed(seed: u64) -> rand::rngs::StdRng {
    rand::SeedableRng::seed_from_u64(seed)
}

/// Relies on rand's `RngCore::next_u32` for `StdRng`: returns the next
/// 32-bit value of the generator's stream and advances the generator.
/// Nothing is assumed of the value.
#[verifier::external_body]
pub(crate) fn next_random_u32(rng: &mut rand::rngs::StdRng) -> u32 {
    rand::RngCore::next_u32(rng)
}

} // verus!
