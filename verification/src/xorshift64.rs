//! The 64-bit xorshift generator.

use vstd::prelude::*;
use crate::common::spec_u64_or_1;
use crate::common::u64_or_1;
use crate::random::RandomImpl;
use crate::random::fill_u64;
use crate::random::iterate;

verus! {

/// One step: the state xored with itself shifted left by 13, right by 7 and left by 17.
pub open spec fn spec_xorshift64(x: u64) -> u64 {
    let x1 = x ^ (x << 13);
    let x2 = x1 ^ (x1 >> 7);
    x2 ^ (x2 << 17)
}

/// The step keeps zero at zero and everything else away from it.
pub proof fn lemma_xorshift64_zero(x: u64)
    ensures
        spec_xorshift64(x) == 0 <==> x == 0,
{
    assert(spec_xorshift64(x) == 0 <==> x == 0) by (bit_vector);
}

/// The 64-bit xorshift generator.
pub struct XorShift64 {
    /// The state, which is also the value last drawn.
    pub seed: u64,
}

impl Clone for XorShift64 {
    fn clone(&self) -> (r: Self)
        ensures
            r == *self,
    {
        Self { seed: self.seed }
    }
}

impl XorShift64 {
    /// The state from which only zeros are drawn.
    pub open spec fn degenerate(&self) -> bool {
        self.seed == 0
    }

    /// Construct a new `XorShift64` with the seed as it is. A seed of 0 makes
    /// a generator that only draws zeros.
    pub fn new_raw(seed: u64) -> (r: Self)
        ensures
            r.seed == seed,
    {
        Self { seed }
    }

    /// Construct a new `XorShift64`, with a seed of 0 replaced by 1.
    pub fn new(seed: u64) -> (r: Self)
        ensures
            r.seed == spec_u64_or_1(seed),
            !r.degenerate(),
    {
        let seed: u64 = u64_or_1(seed);
        Self::new_raw(seed)
    }

    /// Make one step and return the new state.
    pub fn get(&mut self) -> (r: u64)
        ensures
            r == spec_xorshift64(old(self).seed),
            final(self).seed == r,
            r == 0 <==> old(self).degenerate(),
    {
        let mut x: u64 = self.seed;
        x ^= x << 13;
        x ^= x >> 7;
        x ^= x << 17;
        self.seed = x;
        proof {
            lemma_xorshift64_zero(old(self).seed);
        }
        x
    }

    /// Every draw of a generator that does not start from zero is nonzero,
    /// and every draw of one that does is zero.
    pub proof fn law_degenerate_forever(s: Self, n: nat)
        ensures
            iterate(|g: Self| g.draw_u64(), s, n).degenerate() == s.degenerate(),
            (s.degenerate() <==> iterate(|g: Self| g.draw_u64(), s, n).draw_u64().0 == 0),
        decreases n,
    {
        let step = |g: Self| g.draw_u64();
        if n > 0 {
            Self::law_degenerate_forever(s, (n - 1) as nat);
            lemma_xorshift64_zero(iterate(step, s, (n - 1) as nat).seed);
        }
        lemma_xorshift64_zero(iterate(step, s, n).seed);
    }
}

impl RandomImpl for XorShift64 {
    open spec fn valid(&self) -> bool {
        true
    }

    open spec fn draw_u64(&self) -> (u64, Self) {
        (spec_xorshift64(self.seed), XorShift64 { seed: spec_xorshift64(self.seed) })
    }

    open spec fn draw_u32(&self) -> (u32, Self) {
        (self.draw_u64().0 as u32, self.draw_u64().1)
    }

    open spec fn draw_bytes(&self, len: nat) -> (Seq<u8>, Self) {
        fill_u64(|s: Self| s.draw_u64(), *self, len)
    }

    fn random_u64(&mut self) -> (r: u64) {
        self.get()
    }

    fn random_u32(&mut self) -> (r: u32) {
        self.get() as u32
    }

    fn random_bytes(&mut self, dst: &mut [u8]) {
        self.bytes_from_u64(dst);
    }
}

} // verus!
