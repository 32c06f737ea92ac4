//! The random source every sampler draws from.
//!
//! A `Rng` owns one generator state, captured at construction from an explicit
//! seed, so that distinct samplers never share a stream and runs are
//! reproducible. The samplers only ever ask for one primitive: an independent
//! uniform draw from an integer range `[0, n)`.

use vstd::prelude::*;

verus! {

/// rand's standard generator `StdRng`, declared opaquely so that a `Rng`
/// can hold one; nothing about its state is assumed.
#[verifier::external_type_specification]
#[verifier::external_body]
pub struct ExStdRng(rand::rngs::StdRng);

/// An owned stream of uniform draws, deterministic in its seed.
pub struct Rng {
    inner: rand::rngs::StdRng,
}

impl Rng {
    /// Relies on rand's `SeedableRng::seed_from_u64` for `StdRng`: it builds a
    /// generator whose stream is a function of the seed alone.
    #[verifier::external_body]
    pub fn new(seed: u64) -> (r: Rng) {
        Rng { inner: <rand::rngs::StdRng as rand::SeedableRng>::seed_from_u64(seed) }
    }

    /// Relies on rand's `Rng::gen_range` over `0..n`: it returns a value
    /// uniformly distributed in `[0, n)`, and panics only on an empty range,
    /// which the precondition rules out.
    #[verifier::external_body]
    pub fn below(&mut self, n: u64) -> (r: u64)
        requires
            n >= 1,
        ensures
            r < n,
    {
        rand::Rng::gen_range(&mut self.inner, 0..n)
    }
}

} // verus!
