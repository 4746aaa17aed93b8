//! The SplitMix64 generator.

use vstd::prelude::*;
use crate::random::RandomImpl;
use crate::random::fill_u64;

verus! {

/// The increment of the state, the golden ratio scaled to 64 bits.
pub const GAMMA: u64 = 0x9e3779b97f4a7c15;

/// The value drawn from the state `x` that a step has just reached.
pub open spec fn spec_splitmix64_mix(x: u64) -> u64 {
    let x1 = (x ^ (x >> 30)).wrapping_mul(0xbf58476d1ce4e5b9);
    let x2 = (x1 ^ (x1 >> 27)).wrapping_mul(0x94d049bb133111eb);
    x2 ^ (x2 >> 31)
}

/// The SplitMix64 generator: a counter that a step advances by a fixed
/// increment, and whose value is scrambled for output.
pub struct SplitMix64 {
    /// The counter.
    pub seed: u64,
}

impl SplitMix64 {
    /// Construct a new `SplitMix64`. Every seed is a good one.
    pub fn new(seed: u64) -> (r: Self)
        ensures
            r.seed == seed,
    {
        Self { seed }
    }

    /// Advance the counter and return its scrambled value.
    pub fn get(&mut self) -> (r: u64)
        ensures
            final(self).seed == old(self).seed.wrapping_add(GAMMA),
            r == spec_splitmix64_mix(final(self).seed),
    {
        let mut x: u64 = self.seed.wrapping_add(0x9e3779b97f4a7c15);
        self.seed = x;
        x = (x ^ (x >> 30)).wrapping_mul(0xbf58476d1ce4e5b9);
        x = (x ^ (x >> 27)).wrapping_mul(0x94d049bb133111eb);
        x ^ (x >> 31)
    }
}

impl RandomImpl for SplitMix64 {
    open spec fn valid(&self) -> bool {
        true
    }

    open spec fn draw_u64(&self) -> (u64, Self) {
        let next = self.seed.wrapping_add(GAMMA);
        (spec_splitmix64_mix(next), SplitMix64 { seed: next })
    }

    open spec fn draw_u32(&self) -> (u32, Self) {
        (self.draw_u64().0 as u32, self.draw_u64().1)
    }

    open spec fn draw_bytes(&self, len: nat) -> (Seq<u8>, Self) {
        fill_u64(|s: Self| s.draw_u64(), *self, len)
    }

    fn random_u64(&mut self) -> (r: u64) {
        self.get()
    }

    fn random_u32(&mut self) -> (r: u32) {
        self.get() as u32
    }

    fn random_bytes(&mut self, dst: &mut [u8]) {
        self.bytes_from_u64(dst);
    }
}

} // verus!
