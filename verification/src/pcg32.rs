//! The PCG32 generator: a 64-bit linear congruential state with a permuted 32-bit output.

use vstd::prelude::*;
use crate::common::spec_u32_compose_u64;
use crate::common::u32_compose_u64;
use crate::random::RandomImpl;
use crate::random::fill_u32;

verus! {

/// The multiplier of the state.
pub const MULTIPLIER: u64 = 6364136223846793005;

/// The value drawn from the state `prev`: its high bits xored and shifted
/// down to 32 bits, then rotated right by the number in its highest five bits.
pub open spec fn spec_pcg32_output(prev: u64) -> u32 {
    let x = (((prev >> 18) ^ prev) >> 27) as u32;
    let rot = (prev >> 59) as u32;
    (x >> rot) | (x << (0u32.wrapping_sub(rot) & 31))
}

/// The state that follows `prev` on the stream `index`.
pub open spec fn spec_pcg32_advance(prev: u64, index: u64) -> u64 {
    prev.wrapping_mul(MULTIPLIER).wrapping_add(index)
}

/// The PCG32 generator.
pub struct Pcg32 {
    /// The state.
    pub state: u64,
    /// The increment, which selects the stream; odd after `new`.
    pub index: u64,
}

impl Clone for Pcg32 {
    fn clone(&self) -> (r: Self)
        ensures
            r == *self,
    {
        Self { state: self.state, index: self.index }
    }
}

impl Pcg32 {
    /// The value drawn from this state, and the state after the draw.
    pub open spec fn spec_get(&self) -> (u32, Self) {
        (
            spec_pcg32_output(self.state),
            Pcg32 { state: spec_pcg32_advance(self.state, self.index), index: self.index },
        )
    }

    /// The generator that `new` makes from a seed and a stream number.
    pub open spec fn spec_new(seed: u64, id: u64) -> Self {
        let index = (id << 1) | 1;
        let first = spec_pcg32_advance(0, index);
        Pcg32 { state: spec_pcg32_advance(first.wrapping_add(seed), index), index }
    }

    /// Construct a new `Pcg32` with the state and the increment as they are.
    pub fn new_raw(seed: u64, id: u64) -> (r: Self)
        ensures
            r.state == seed,
            r.index == id,
    {
        Self { state: seed, index: id }
    }

    /// Construct a new `Pcg32` from a seed and a stream number: the increment
    /// is made odd, and the seed is mixed in between two steps from zero.
    pub fn new(seed: u64, id: u64) -> (r: Self)
        ensures
            r == Self::spec_new(seed, id),
            r.index & 1 == 1,
    {
        let index: u64 = (id << 1) | 1;
        assert(((id << 1) | 1) & 1 == 1) by (bit_vector);
        let mut ret = Self::new_raw(0, index);
        ret.get();
        ret.state = ret.state.wrapping_add(seed);
        ret.get();
        ret
    }

    /// Return the permuted state, and make one step.
    pub fn get(&mut self) -> (r: u32)
        ensures
            r == old(self).spec_get().0,
            *final(self) == old(self).spec_get().1,
    {
        let prev: u64 = self.state;

        self.state = prev.wrapping_mul(6364136223846793005).wrapping_add(self.index);
        let x: u32 = (((prev >> 18) ^ prev) >> 27) as u32;
        let rot: u32 = (prev >> 59) as u32;
        let back: u32 = 0u32.wrapping_sub(rot) & 31;
        assert(((prev >> 59) as u32) < 32) by (bit_vector);
        assert(back < 32) by (bit_vector)
            requires
                back == 0u32.wrapping_sub(rot) & 31,
        ;

        (x >> rot) | (x << back)
    }
}

impl RandomImpl for Pcg32 {
    open spec fn valid(&self) -> bool {
        true
    }

    open spec fn draw_u32(&self) -> (u32, Self) {
        self.spec_get()
    }

    open spec fn draw_u64(&self) -> (u64, Self) {
        let (hi, s1) = self.draw_u32();
        let (lo, s2) = s1.draw_u32();
        (spec_u32_compose_u64(hi, lo), s2)
    }

    open spec fn draw_bytes(&self, len: nat) -> (Seq<u8>, Self) {
        fill_u32(|s: Self| s.draw_u32(), *self, len)
    }

    fn random_u64(&mut self) -> (r: u64) {
        let hi: u32 = self.get();
        let lo: u32 = self.get();
        u32_compose_u64(hi, lo)
    }

    fn random_u32(&mut self) -> (r: u32) {
        self.get()
    }

    fn random_bytes(&mut self, dst: &mut [u8]) {
        self.bytes_from_u32(dst);
    }
}

} // verus!
