//! The 128-bit xorshift+ generator, which yields 64-bit values.

use vstd::prelude::*;
use crate::common::spec_u64_or_1;
use crate::common::u64_or_1;
use crate::random::RandomImpl;
use crate::random::fill_u64;
use crate::random::iterate;

verus! {

/// The second word of the next state, from the two words `t` and `s` of this one.
pub open spec fn spec_xorshift128p_mix(t: u64, s: u64) -> u64 {
    let t1 = t ^ (t << 23);
    let t2 = t1 ^ (t1 >> 18);
    t2 ^ (s ^ (s >> 5))
}

/// Only the zero state is followed by the zero state.
pub proof fn lemma_xorshift128p_zero(t: u64, s: u64)
    ensures
        (s == 0 && spec_xorshift128p_mix(t, s) == 0) <==> (t == 0 && s == 0),
{
    assert((s == 0 && spec_xorshift128p_mix(t, s) == 0) <==> (t == 0 && s == 0)) by (bit_vector);
}

/// The 128-bit xorshift+ generator.
pub struct XorShift128p {
    /// The two words of state.
    pub seed: (u64, u64),
}

impl Clone for XorShift128p {
    fn clone(&self) -> (r: Self)
        ensures
            r == *self,
    {
        Self { seed: (self.seed.0, self.seed.1) }
    }
}

impl XorShift128p {
    /// The state from which only zeros are drawn.
    pub open spec fn degenerate(&self) -> bool {
        self.seed == (0u64, 0u64)
    }

    /// Construct a new `XorShift128p` with the seed as it is.
    pub fn new_raw(seed: [u64; 2]) -> (r: Self)
        ensures
            r.seed == (seed@[0], seed@[1]),
    {
        Self { seed: (seed[0], seed[1]) }
    }

    /// Construct a new `XorShift128p`, with each word of the seed that is 0 replaced by 1.
    pub fn new(seed: [u64; 2]) -> (r: Self)
        ensures
            r.seed == (spec_u64_or_1(seed@[0]), spec_u64_or_1(seed@[1])),
            !r.degenerate(),
    {
        let mut seed: [u64; 2] = seed;
        seed[0] = u64_or_1(seed[0]);
        seed[1] = u64_or_1(seed[1]);
        Self::new_raw(seed)
    }

    /// Make one step and return the wrapping sum of the two words of the new state.
    pub fn get(&mut self) -> (r: u64)
        ensures
            r == old(self).draw_u64().0,
            *final(self) == old(self).draw_u64().1,
            final(self).degenerate() == old(self).degenerate(),
    {
        let mut t: u64 = self.seed.0;
        let s: u64 = self.seed.1;
        self.seed.0 = s;
        t ^= t << 23;
        t ^= t >> 18;
        t ^= s ^ (s >> 5);
        self.seed.1 = t;
        proof {
            lemma_xorshift128p_zero(old(self).seed.0, old(self).seed.1);
        }
        t.wrapping_add(s)
    }

    /// A generator that does not start from the zero state never reaches it,
    /// and one that does never leaves it.
    pub proof fn law_degenerate_forever(s: Self, n: nat)
        ensures
            iterate(|g: Self| g.draw_u64(), s, n).degenerate() == s.degenerate(),
        decreases n,
    {
        let step = |g: Self| g.draw_u64();
        if n > 0 {
            Self::law_degenerate_forever(s, (n - 1) as nat);
            let p = iterate(step, s, (n - 1) as nat);
            lemma_xorshift128p_zero(p.seed.0, p.seed.1);
        }
    }
}

impl RandomImpl for XorShift128p {
    open spec fn valid(&self) -> bool {
        true
    }

    open spec fn draw_u64(&self) -> (u64, Self) {
        let t = spec_xorshift128p_mix(self.seed.0, self.seed.1);
        (t.wrapping_add(self.seed.1), XorShift128p { seed: (self.seed.1, t) })
    }

    open spec fn draw_u32(&self) -> (u32, Self) {
        (self.draw_u64().0 as u32, self.draw_u64().1)
    }

    open spec fn draw_bytes(&self, len: nat) -> (Seq<u8>, Self) {
        fill_u64(|s: Self| s.draw_u64(), *self, len)
    }

    fn random_u64(&mut self) -> (r: u64) {
        self.get()
    }

    fn random_u32(&mut self) -> (r: u32) {
        self.get() as u32
    }

    fn random_bytes(&mut self, dst: &mut [u8]) {
        self.bytes_from_u64(dst);
    }
}

} // verus!
