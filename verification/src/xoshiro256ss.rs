//! The xoshiro256** generator, which yields 64-bit values.

use vstd::prelude::*;
use crate::common::rotl64;
use crate::common::spec_rotl64;
use crate::common::spec_u64_or_1;
use crate::common::u64_or_1;
use crate::random::RandomImpl;
use crate::random::fill_u64;
use crate::random::iterate;

verus! {

/// The value drawn from a state whose second word is `s1`.
pub open spec fn spec_starstar(s1: u64) -> u64 {
    spec_rotl64(s1.wrapping_mul(5), 7).wrapping_mul(9)
}

/// The state that follows `s`.
pub open spec fn spec_xoshiro256(s: (u64, u64, u64, u64)) -> (u64, u64, u64, u64) {
    let t = s.1 << 17;
    let s2 = s.2 ^ s.0;
    let s3 = s.3 ^ s.1;
    let s1 = s.1 ^ s2;
    let s0 = s.0 ^ s3;
    (s0, s1, s2 ^ t, spec_rotl64(s3, 45))
}

/// Only the zero state is followed by the zero state.
pub proof fn lemma_xoshiro256_zero(a: u64, b: u64, c: u64, d: u64)
    ensures
        spec_xoshiro256((a, b, c, d)) == (0u64, 0u64, 0u64, 0u64) <==> (a == 0 && b == 0 && c == 0
            && d == 0),
{
    let n = spec_xoshiro256((a, b, c, d));
    let n0: u64 = n.0;
    let n1: u64 = n.1;
    let n2: u64 = n.2;
    let n3: u64 = n.3;
    assert((n0 == 0 && n1 == 0 && n2 == 0 && n3 == 0) <==> (a == 0 && b == 0 && c == 0 && d == 0))
        by (bit_vector)
        requires
            n0 == a ^ (d ^ b),
            n1 == b ^ (c ^ a),
            n2 == (c ^ a) ^ (b << 17),
            n3 == ((d ^ b) << 45 | (d ^ b) >> 19),
    ;
}

/// The xoshiro256** generator.
pub struct XorShift256ss {
    /// The four words of state.
    pub seed: (u64, u64, u64, u64),
}

impl Clone for XorShift256ss {
    fn clone(&self) -> (r: Self)
        ensures
            r == *self,
    {
        Self { seed: (self.seed.0, self.seed.1, self.seed.2, self.seed.3) }
    }
}

impl XorShift256ss {
    /// The state that the generator never leaves: all words zero.
    pub open spec fn degenerate(&self) -> bool {
        self.seed == (0u64, 0u64, 0u64, 0u64)
    }

    /// Construct a new `XorShift256ss` with the seed as it is.
    pub fn new_raw(seed: [u64; 4]) -> (r: Self)
        ensures
            r.seed == (seed@[0], seed@[1], seed@[2], seed@[3]),
    {
        Self { seed: (seed[0], seed[1], seed[2], seed[3]) }
    }

    /// Construct a new `XorShift256ss`, with each word of the seed that is 0 replaced by 1.
    pub fn new(seed: [u64; 4]) -> (r: Self)
        ensures
            r.seed == (
                spec_u64_or_1(seed@[0]),
                spec_u64_or_1(seed@[1]),
                spec_u64_or_1(seed@[2]),
                spec_u64_or_1(seed@[3]),
            ),
            !r.degenerate(),
    {
        let mut seed: [u64; 4] = seed;
        seed[0] = u64_or_1(seed[0]);
        seed[1] = u64_or_1(seed[1]);
        seed[2] = u64_or_1(seed[2]);
        seed[3] = u64_or_1(seed[3]);
        Self::new_raw(seed)
    }

    /// Return the scrambled second word of the state, and make one step.
    pub fn get(&mut self) -> (r: u64)
        ensures
            r == spec_starstar(old(self).seed.1),
            final(self).seed == spec_xoshiro256(old(self).seed),
            final(self).degenerate() == old(self).degenerate(),
    {
        let result: u64 = rotl64(self.seed.1.wrapping_mul(5), 7).wrapping_mul(9);
        let t: u64 = self.seed.1 << 17;

        self.seed.2 ^= self.seed.0;
        self.seed.3 ^= self.seed.1;
        self.seed.1 ^= self.seed.2;
        self.seed.0 ^= self.seed.3;

        self.seed.2 ^= t;
        self.seed.3 = rotl64(self.seed.3, 45);

        proof {
            lemma_xoshiro256_zero(
                old(self).seed.0,
                old(self).seed.1,
                old(self).seed.2,
                old(self).seed.3,
            );
        }
        result
    }

    /// A generator that does not start from the zero state never reaches it,
    /// and one that does never leaves it.
    pub proof fn law_degenerate_forever(s: Self, n: nat)
        ensures
            iterate(|g: Self| g.draw_u64(), s, n).degenerate() == s.degenerate(),
        decreases n,
    {
        let step = |g: Self| g.draw_u64();
        if n > 0 {
            Self::law_degenerate_forever(s, (n - 1) as nat);
            let p = iterate(step, s, (n - 1) as nat);
            lemma_xoshiro256_zero(p.seed.0, p.seed.1, p.seed.2, p.seed.3);
        }
    }
}

impl RandomImpl for XorShift256ss {
    open spec fn valid(&self) -> bool {
        true
    }

    open spec fn draw_u64(&self) -> (u64, Self) {
        (spec_starstar(self.seed.1), XorShift256ss { seed: spec_xoshiro256(self.seed) })
    }

    open spec fn draw_u32(&self) -> (u32, Self) {
        (self.draw_u64().0 as u32, self.draw_u64().1)
    }

    open spec fn draw_bytes(&self, len: nat) -> (Seq<u8>, Self) {
        fill_u64(|s: Self| s.draw_u64(), *self, len)
    }

    fn random_u64(&mut self) -> (r: u64) {
        self.get()
    }

    fn random_u32(&mut self) -> (r: u32) {
        self.get() as u32
    }

    fn random_bytes(&mut self, dst: &mut [u8]) {
        self.bytes_from_u64(dst);
    }
}

} // verus!
