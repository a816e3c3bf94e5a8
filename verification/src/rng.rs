//! The deterministic pseudo-random generator of the run context.
//!
//! The runtime never draws from the generator itself: it only replaces it
//! wholesale, seeding it from the current seed, so that a run's randomness
//! is a function of that seed. Sketches draw from the generator they find
//! in the context.

use vstd::prelude::*;

verus! {

#[verifier::external_type_specification]
#[verifier::external_body]
pub struct ExStdRng(rand::rngs::StdRng);

/// The abstract state of a standard generator: the sequence of draws it
/// stands ready to produce.
pub uninterp spec fn rng_stream(rng: rand::rngs::StdRng) -> Seq<u64>;

/// The abstract state that seeding a standard generator with the given seed
/// yields.
pub uninterp spec fn seed_stream(seed: u64) -> Seq<u64>;

/// Relies on rand::SeedableRng::seed_from_u64 for rand::rngs::StdRng: its
/// result is a function of the seed alone — the seed expansion and the
/// cipher setup behind it are pure computation.
#[verifier::external_body]
pub(crate) fn rng_from_seed(seed: u64) -> (r: rand::rngs::StdRng)
    ensures
        rng_stream(r) == seed_stream(seed),
{
    <rand::rngs::StdRng as rand::SeedableRng>::seed_from_u64(seed)
}

/// Relies on rand::random: draws a seed from the thread-local entropy
/// source. Nothing is promised of the value.
#[verifier::external_body]
pub(crate) fn random_seed() -> u64 {
    rand::random()
}

} // verus!
