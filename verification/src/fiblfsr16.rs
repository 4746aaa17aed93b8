//! A 16-bit Fibonacci linear-feedback shift register.

use vstd::prelude::*;
use crate::common::spec_u16_compose_u32;
use crate::common::spec_u16_or_1;
use crate::common::spec_u32_compose_u64;
use crate::common::u16_compose_u32;
use crate::common::u16_or_1;
use crate::common::u32_compose_u64;
use crate::random::RandomImpl;
use crate::random::fill_u32;
use crate::random::iterate;

verus! {

/// The bit fed back into the register: the xor of its bits 0, 2, 3 and 5.
pub open spec fn spec_feedback(lfsr: u16) -> u16 {
    (lfsr ^ (lfsr >> 2) ^ (lfsr >> 3) ^ (lfsr >> 5)) & 1
}

/// The register after one step: shifted right by one, with the feedback bit on top.
pub open spec fn spec_shift(lfsr: u16) -> u16 {
    (lfsr >> 1) | (spec_feedback(lfsr) << 15)
}

/// The step keeps zero at zero and everything else away from it.
pub proof fn lemma_shift_zero(lfsr: u16)
    ensures
        spec_shift(lfsr) == 0 <==> lfsr == 0,
{
    assert(spec_shift(lfsr) == 0 <==> lfsr == 0) by (bit_vector);
}

/// The 16-bit Fibonacci linear-feedback shift register.
pub struct FibLFSR16 {
    /// The bit that the last step fed back.
    pub bit: u16,
    /// The register, which is also the value last drawn.
    pub lfsr: u16,
}

impl Clone for FibLFSR16 {
    fn clone(&self) -> (r: Self)
        ensures
            r == *self,
    {
        Self { bit: self.bit, lfsr: self.lfsr }
    }
}

impl FibLFSR16 {
    /// The state from which only zeros are drawn.
    pub open spec fn degenerate(&self) -> bool {
        self.lfsr == 0
    }

    /// The value drawn from this state, and the state after the draw.
    pub open spec fn spec_get(&self) -> (u16, Self) {
        (spec_shift(self.lfsr), FibLFSR16 { bit: spec_feedback(self.lfsr), lfsr: spec_shift(self.lfsr) })
    }

    /// Construct a new `FibLFSR16` with the seed as it is. A seed of 0 makes
    /// a generator that only draws zeros.
    pub fn new_raw(seed: u16) -> (r: Self)
        ensures
            r.lfsr == seed,
            r.bit == 0,
    {
        Self { bit: 0, lfsr: seed }
    }

    /// Construct a new `FibLFSR16`, with a seed of 0 replaced by 1.
    pub fn new(seed: u16) -> (r: Self)
        ensures
            r.lfsr == spec_u16_or_1(seed),
            r.bit == 0,
            !r.degenerate(),
    {
        let seed: u16 = u16_or_1(seed);
        Self::new_raw(seed)
    }

    /// Make one step and return the register.
    pub fn get(&mut self) -> (r: u16)
        ensures
            r == old(self).spec_get().0,
            *final(self) == old(self).spec_get().1,
            r == 0 <==> old(self).degenerate(),
    {
        self.bit = ((self.lfsr) ^ (self.lfsr >> 2) ^ (self.lfsr >> 3) ^ (self.lfsr >> 5)) & 1;
        self.lfsr = (self.lfsr >> 1) | (self.bit << 15);
        proof {
            lemma_shift_zero(old(self).lfsr);
        }
        self.lfsr
    }

    /// A generator that does not start from zero never reaches it, and one
    /// that does never leaves it.
    pub proof fn law_degenerate_forever(s: Self, n: nat)
        ensures
            iterate(|g: Self| g.spec_get(), s, n).degenerate() == s.degenerate(),
        decreases n,
    {
        let step = |g: Self| g.spec_get();
        if n > 0 {
            Self::law_degenerate_forever(s, (n - 1) as nat);
            lemma_shift_zero(iterate(step, s, (n - 1) as nat).lfsr);
        }
    }
}

impl RandomImpl for FibLFSR16 {
    open spec fn valid(&self) -> bool {
        true
    }

    open spec fn draw_u32(&self) -> (u32, Self) {
        let (hi, s1) = self.spec_get();
        let (lo, s2) = s1.spec_get();
        (spec_u16_compose_u32(hi, lo), s2)
    }

    open spec fn draw_u64(&self) -> (u64, Self) {
        let (hi, s1) = self.draw_u32();
        let (lo, s2) = s1.draw_u32();
        (spec_u32_compose_u64(hi, lo), s2)
    }

    open spec fn draw_bytes(&self, len: nat) -> (Seq<u8>, Self) {
        fill_u32(|s: Self| s.draw_u32(), *self, len)
    }

    fn random_u64(&mut self) -> (r: u64) {
        let hi: u32 = self.random_u32();
        let lo: u32 = self.random_u32();
        u32_compose_u64(hi, lo)
    }

    fn random_u32(&mut self) -> (r: u32) {
        let hi: u16 = self.get();
        let lo: u16 = self.get();
        u16_compose_u32(hi, lo)
    }

    fn random_bytes(&mut self, dst: &mut [u8]) {
        self.bytes_from_u32(dst);
    }
}

} // verus!
