//! A small deterministic pseudo-random source.
//!
//! The generator is a 64-bit linear congruential generator. Its whole state is
//! one `u64`, so two generators built from the same seed hand out the same
//! numbers for ever.

use vstd::prelude::*;

verus! {

/// Multiplier of the generator.
pub const RNG_MULTIPLIER: u64 = 6364136223846793005;

/// Increment of the generator.
pub const RNG_INCREMENT: u64 = 1442695040888963407;

/// The state that follows `state`.
pub open spec fn next_state(state: u64) -> u64 {
    ((state * RNG_MULTIPLIER + RNG_INCREMENT) % 0x1_0000_0000_0000_0000) as u64
}

/// The number that a generator hands out when it moves into `state`: the
/// upper half of the state, whose bits are the better mixed ones.
pub open spec fn output_of(state: u64) -> u64 {
    state / 0x1_0000_0000
}

/// Deterministic random source threaded through the passes.
#[derive(Debug, Clone, Copy, PartialEq, Eq, Structural)]
pub struct Rng {
    /// Current state.
    pub state: u64,
}

impl Rng {
    /// A generator that starts from the given seed.
    pub fn from_seed(seed: u64) -> (r: Self)
        ensures
            r.state == seed,
    {
        Rng { state: seed }
    }

    /// Advances the generator and returns the next number.
    pub fn next_u64(&mut self) -> (r: u64)
        ensures
            final(self).state == next_state(old(self).state),
            r == output_of(next_state(old(self).state)),
    {
        let product: u64 = self.state.wrapping_mul(RNG_MULTIPLIER);
        let state: u64 = product.wrapping_add(RNG_INCREMENT);
        proof {
            let a = old(self).state as int;
            let m = 0x1_0000_0000_0000_0000int;
            assert(product as int == (a * RNG_MULTIPLIER) % m);
            assert(state as int == (product + RNG_INCREMENT) % m);
            vstd::arithmetic::div_mod::lemma_add_mod_noop(
                a * RNG_MULTIPLIER,
                RNG_INCREMENT as int,
                m,
            );
            vstd::arithmetic::div_mod::lemma_small_mod(RNG_INCREMENT as nat, m as nat);
            vstd::arithmetic::div_mod::lemma_mod_twice(a * RNG_MULTIPLIER, m);
        }
        self.state = state;
        state / 0x1_0000_0000
    }

    /// Draws a number below `bound`.
    pub fn next_below(&mut self, bound: u64) -> (r: u64)
        requires
            bound > 0,
        ensures
            final(self).state == next_state(old(self).state),
            r == output_of(next_state(old(self).state)) % bound,
            r < bound,
    {
        let raw: u64 = self.next_u64();
        raw % bound
    }
}

} // verus!
