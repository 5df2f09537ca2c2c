//! The pseudorandom source feeding value generation.
//!
//! A [`RandomSource`] is a seeded deterministic generator: built twice from
//! the same seed it yields the same stream, which is what makes a failing
//! trial reproducible from its reported seed. The draws themselves come from
//! the `rand` crate and are trusted; every contract here states only what
//! holds of each possible outcome (a range), never which outcome comes.

use vstd::prelude::*;
use rand::RngExt;
use rand::SeedableRng;

verus! {

/// Relies on rand's `StdRng`: a seedable pseudorandom generator.
#[verifier::external_type_specification]
#[verifier::external_body]
pub struct ExStdRng(rand::rngs::StdRng);

/// A deterministic pseudorandom stream, seeded once and then drawn from.
pub struct RandomSource {
    rng: rand::rngs::StdRng,
}

impl RandomSource {
    /// Relies on `SeedableRng::seed_from_u64`: builds the generator from a
    /// 64-bit seed; the same seed always yields the same stream.
    #[verifier::external_body]
    pub fn from_seed(seed: u64) -> RandomSource {
        RandomSource { rng: rand::rngs::StdRng::seed_from_u64(seed) }
    }

    /// Relies on `RngExt::random_range` over `lo..=hi`: returns a value of
    /// the range, and panics only on an empty range, which the precondition
    /// rules out.
    #[verifier::external_body]
    pub fn below_usize(&mut self, bound: usize) -> (r: usize)
        ensures
            r <= bound,
    {
        self.rng.random_range(0..=bound)
    }

    /// Relies on `RngExt::random_range` over `lo..=hi` at `i64`: returns a
    /// value of the range, and panics only on an empty range, which the
    /// precondition rules out.
    #[verifier::external_body]
    pub fn range_i64(&mut self, lo: i64, hi: i64) -> (r: i64)
        requires
            lo <= hi,
        ensures
            lo <= r <= hi,
    {
        self.rng.random_range(lo..=hi)
    }

    /// Relies on `RngExt::random_range` over `lo..=hi` at `u64`: returns a
    /// value of the range, and panics only on an empty range, which the
    /// precondition rules out.
    #[verifier::external_body]
    pub fn range_u64(&mut self, lo: u64, hi: u64) -> (r: u64)
        requires
            lo <= hi,
        ensures
            lo <= r <= hi,
    {
        self.rng.random_range(lo..=hi)
    }

    /// Relies on `RngExt::random` at `u64`: some machine word, truncated to
    /// the platform width.
    #[verifier::external_body]
    pub fn any_usize(&mut self) -> usize {
        self.rng.random::<u64>() as usize
    }

    /// Relies on `RngExt::random` at `bool`: some coin flip.
    #[verifier::external_body]
    pub fn any_bool(&mut self) -> bool {
        self.rng.random()
    }

    /// Relies on `RngExt::random` at `char`: some Unicode scalar value.
    #[verifier::external_body]
    pub fn any_char(&mut self) -> char {
        self.rng.random()
    }
}

/// Relies on `rand::random` at `u64`: a fresh, non-reproducible seed drawn
/// from the thread-local generator.
#[verifier::external_body]
pub fn fresh_seed() -> u64 {
    rand::random()
}

} // verus!
