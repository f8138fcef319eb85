//! The per-session seed source.
//!
//! A session owns one securely seeded generator.  Every roll derives a fresh
//! fast generator from it: the secure generator is asked for exactly the seed
//! bytes the fast generator needs, its state advancing on each derivation so
//! that no two derived generators start from the same seed.  A derived
//! generator is independently owned, needs no further synchronization, and
//! drives exactly one evaluation.

use rand::{Rng, SeedableRng};
use rand_chacha::ChaCha20Rng;
use rand_xoshiro::Xoshiro256PlusPlus;
use vstd::prelude::*;

verus! {

/// The secure seed generator of rand_chacha, used once per session.
#[verifier::external_type_specification]
#[verifier::external_body]
pub struct ExChaCha20Rng(ChaCha20Rng);

/// The fast per-roll generator of rand_xoshiro, built once per roll.
#[verifier::external_type_specification]
#[verifier::external_body]
pub struct ExXoshiro256PlusPlus(Xoshiro256PlusPlus);

/// Relies on rand's `SeedableRng::from_entropy` for `ChaCha20Rng`: builds a
/// generator seeded from operating-system entropy.  The state depends on that
/// entropy, so nothing is promised of it.
#[verifier::external_body]
fn chacha_from_entropy() -> ChaCha20Rng {
    ChaCha20Rng::from_entropy()
}

/// Relies on rand's `Rng::fill` for `ChaCha20Rng`: fills the 32-byte buffer
/// from the generator, advancing the generator's state.  The bytes depend on
/// that state, so nothing is promised of them.
#[verifier::external_body]
fn draw_seed_bytes(rng: &mut ChaCha20Rng) -> [u8; 32] {
    let mut seed: [u8; 32] = [0u8; 32];
    rng.fill(&mut seed);
    seed
}

/// Relies on rand_xoshiro's `SeedableRng::from_seed` for
/// `Xoshiro256PlusPlus`: builds the fast generator from the 32 seed bytes.
/// The generator's state is opaque here, so nothing is promised of it.
#[verifier::external_body]
fn xoshiro_from_seed(seed: [u8; 32]) -> Xoshiro256PlusPlus {
    Xoshiro256PlusPlus::from_seed(seed)
}

/// An evaluation session's seed source: one securely seeded generator from
/// which every roll's fast generator is derived, together with a count of the
/// derivations made so far.
pub struct Evaluator {
    rng: ChaCha20Rng,
    derivations: u64,
}

impl Evaluator {
    /// How many fast generators this session has derived.  Each derivation
    /// advances the secure generator's state exactly once.
    pub closed spec fn spec_derivations(&self) -> u64 {
        self.derivations
    }

    /// How many fast generators this session has derived.
    #[verifier::when_used_as_spec(spec_derivations)]
    pub fn derivations(&self) -> (r: u64)
        ensures
            r == self.spec_derivations(),
    {
        self.derivations
    }

    /// A fresh session, seeded from operating-system entropy, with no
    /// generators derived yet.
    pub fn new() -> (r: Evaluator)
        ensures
            r.spec_derivations() == 0,
    {
        Evaluator { rng: chacha_from_entropy(), derivations: 0 }
    }

    /// Derive a fresh fast generator for one roll.  Draws exactly the 32 seed
    /// bytes the fast generator needs, advancing the secure generator's state
    /// so that later derivations draw different bytes.
    pub fn seed(&mut self) -> (r: Xoshiro256PlusPlus)
        requires
            old(self).spec_derivations() < u64::MAX,
        ensures
            final(self).spec_derivations() == old(self).spec_derivations() + 1,
    {
        let bytes = draw_seed_bytes(&mut self.rng);
        self.derivations = self.derivations + 1;
        xoshiro_from_seed(bytes)
    }
}

} // verus!
