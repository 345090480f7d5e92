//! Deterministic xorshift pseudo-random source.
//!
//! Every random quantity of the simulation — spawn jitter, spawn velocity,
//! spawn radius, spawn lifetime, wind jitter — is drawn from this single
//! stream, so a run is bit-reproducible from the fixed seed.

use vstd::prelude::*;

verus! {

/// The seed every run starts from.
pub const SEED: u32 = 1234569;

/// One xorshift step: shift left 13, shift right 17, shift left 5,
/// each result XORed back into the 32-bit state.
pub open spec fn rng_next(s: u32) -> u32 {
    let a = s ^ (s << 13);
    let b = a ^ (a >> 17);
    b ^ (b << 5)
}

/// The generator state after `k` draws from state `s`.
pub open spec fn rng_skip(s: u32, k: nat) -> u32
    decreases k,
{
    if k == 0 {
        s
    } else {
        rng_next(rng_skip(s, (k - 1) as nat))
    }
}

/// Skipping `a + b` draws is skipping `a`, then `b`.
pub proof fn lemma_rng_skip_add(s: u32, a: nat, b: nat)
    ensures
        rng_skip(s, a + b) == rng_skip(rng_skip(s, a), b),
    decreases b,
{
    if b > 0 {
        lemma_rng_skip_add(s, a, (b - 1) as nat);
    }
}

/// The deterministic pseudo-random generator.
pub struct Rng {
    pub seed: u32,
}

impl Rng {
    /// A generator in its fixed starting state.
    pub fn new() -> (g: Rng)
        ensures
            g.seed == SEED,
    {
        Rng { seed: SEED }
    }

    /// Draws the next value: a pure function of the prior state.
    pub fn next(&mut self) -> (r: u32)
        ensures
            final(self).seed == rng_next(old(self).seed),
            r == rng_next(old(self).seed),
    {
        let mut s = self.seed;
        s = s ^ (s << 13u32);
        s = s ^ (s >> 17u32);
        s = s ^ (s << 5u32);
        self.seed = s;
        s
    }

    /// Draws the next value reduced modulo `m`.
    pub fn next_mod(&mut self, m: u32) -> (r: u32)
        requires
            m > 0,
        ensures
            final(self).seed == rng_next(old(self).seed),
            r == rng_next(old(self).seed) % m,
            r < m,
    {
        let v = self.next();
        v % m
    }
}

} // verus!
