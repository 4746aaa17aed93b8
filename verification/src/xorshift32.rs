//! The 32-bit xorshift generator.

use vstd::prelude::*;
use crate::common::spec_u32_compose_u64;
use crate::common::spec_u32_or_1;
use crate::common::u32_compose_u64;
use crate::common::u32_or_1;
use crate::random::RandomImpl;
use crate::random::fill_u32;
use crate::random::iterate;

verus! {

/// One step: the state xored with itself shifted left by 13, right by 17 and left by 5.
pub open spec fn spec_xorshift32(x: u32) -> u32 {
    let x1 = x ^ (x << 13);
    let x2 = x1 ^ (x1 >> 17);
    x2 ^ (x2 << 5)
}

/// The step keeps zero at zero and everything else away from it.
pub proof fn lemma_xorshift32_zero(x: u32)
    ensures
        spec_xorshift32(x) == 0 <==> x == 0,
{
    assert(spec_xorshift32(x) == 0 <==> x == 0) by (bit_vector);
}

/// The 32-bit xorshift generator. Its period is `2^32 - 1`, over all states but zero.
pub struct XorShift32 {
    /// The state, which is also the value last drawn.
    pub seed: u32,
}

impl Clone for XorShift32 {
    fn clone(&self) -> (r: Self)
        ensures
            r == *self,
    {
        Self { seed: self.seed }
    }
}

impl XorShift32 {
    /// The state from which only zeros are drawn.
    pub open spec fn degenerate(&self) -> bool {
        self.seed == 0
    }

    /// Construct a new `XorShift32` with the seed as it is. A seed of 0 makes
    /// a generator that only draws zeros.
    pub fn new_raw(seed: u32) -> (r: Self)
        ensures
            r.seed == seed,
    {
        Self { seed }
    }

    /// Construct a new `XorShift32`, with a seed of 0 replaced by 1.
    pub fn new(seed: u32) -> (r: Self)
        ensures
            r.seed == spec_u32_or_1(seed),
            !r.degenerate(),
    {
        let seed: u32 = u32_or_1(seed);
        Self::new_raw(seed)
    }

    /// The state, to read and to change.
    pub fn seed(&mut self) -> (r: &mut u32)
        ensures
            *r == old(self).seed,
            final(self).seed == *final(r),
    {
        &mut self.seed
    }

    /// Make one step and return the new state.
    pub fn get(&mut self) -> (r: u32)
        ensures
            r == spec_xorshift32(old(self).seed),
            final(self).seed == r,
            r == 0 <==> old(self).degenerate(),
    {
        let mut x: u32 = self.seed;
        x ^= x << 13;
        x ^= x >> 17;
        x ^= x << 5;
        self.seed = x;
        proof {
            lemma_xorshift32_zero(old(self).seed);
        }
        x
    }

    /// Every draw of a generator that does not start from zero is nonzero,
    /// and every draw of one that does is zero.
    pub proof fn law_degenerate_forever(s: Self, n: nat)
        ensures
            iterate(|g: Self| g.draw_u32(), s, n).degenerate() == s.degenerate(),
            (s.degenerate() <==> iterate(|g: Self| g.draw_u32(), s, n).draw_u32().0 == 0),
        decreases n,
    {
        let step = |g: Self| g.draw_u32();
        if n > 0 {
            Self::law_degenerate_forever(s, (n - 1) as nat);
            lemma_xorshift32_zero(iterate(step, s, (n - 1) as nat).seed);
        }
        lemma_xorshift32_zero(iterate(step, s, n).seed);
    }
}

impl RandomImpl for XorShift32 {
    open spec fn valid(&self) -> bool {
        true
    }

    open spec fn draw_u32(&self) -> (u32, Self) {
        (spec_xorshift32(self.seed), XorShift32 { seed: spec_xorshift32(self.seed) })
    }

    open spec fn draw_u64(&self) -> (u64, Self) {
        let (hi, s1) = self.draw_u32();
        let (lo, s2) = s1.draw_u32();
        (spec_u32_compose_u64(hi, lo), s2)
    }

    open spec fn draw_bytes(&self, len: nat) -> (Seq<u8>, Self) {
        fill_u32(|s: Self| s.draw_u32(), *self, len)
    }

    fn random_u64(&mut self) -> (r: u64) {
        let hi: u32 = self.get();
        let lo: u32 = self.get();
        u32_compose_u64(hi, lo)
    }

    fn random_u32(&mut self) -> (r: u32) {
        self.get()
    }

    fn random_bytes(&mut self, dst: &mut [u8]) {
        self.bytes_from_u32(dst);
    }
}

} // verus!
