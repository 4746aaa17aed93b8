//! The Mersenne Twister (MT19937), as a generator of 32-bit words.

use vstd::prelude::*;
use crate::common::lemma_spec_array;
use crate::common::spec_array;
use crate::common::spec_u32_compose_u64;
use crate::common::u32_compose_u64;
use crate::random::RandomImpl;
use crate::random::fill_u32;

verus! {

/// The number of words of state.
pub const STATE_N: usize = 624;

/// The lag of the recurrence.
pub const STATE_M: usize = 397;

/// The constant that a twisted word is xored with where its low bit is set.
pub const MATRIX_A: u32 = 0x9908b0df;

/// The first mask of the tempering.
pub const MASK_B: u32 = 0x9d2c5680;

/// The second mask of the tempering.
pub const MASK_C: u32 = 0xefc60000;

/// The highest bit of a word.
pub const UPPER_MASK: u32 = 0x80000000;

/// All bits of a word but the highest.
pub const LOWER_MASK: u32 = 0x7fffffff;

/// Word `i` of the state that `seed` initialises: the seed itself, then each
/// word from the one before.
pub open spec fn spec_init_word(seed: u32, i: nat) -> u32
    decreases i,
{
    if i == 0 {
        seed
    } else {
        let prev = spec_init_word(seed, (i - 1) as nat);
        1812433253u32.wrapping_mul(prev ^ (prev >> 30)).wrapping_add(i as u32)
    }
}

/// The state that `seed` initialises.
pub open spec fn spec_init(seed: u32) -> Seq<u32> {
    Seq::new(STATE_N as nat, |i: int| spec_init_word(seed, i as nat))
}

/// One word of the recurrence: the high bit of `upper` and the low bits of
/// `lower`, shifted down and conditionally xored with the constant, xored with `far`.
pub open spec fn spec_twist_word(upper: u32, lower: u32, far: u32) -> u32 {
    let x = (upper & UPPER_MASK) | (lower & LOWER_MASK);
    far ^ (x >> 1) ^ (if x & 1 == 1 {
        MATRIX_A
    } else {
        0
    })
}

/// Word `k` of the state that follows `s`. The words are regenerated in
/// order, so a word past the lag takes a word that is already new.
pub open spec fn spec_twisted(s: Seq<u32>, k: nat) -> u32
    decreases k,
{
    if k < STATE_N - STATE_M {
        spec_twist_word(s[k as int], s[k as int + 1], s[k as int + STATE_M as int])
    } else if k < STATE_N - 1 {
        spec_twist_word(
            s[k as int],
            s[k as int + 1],
            spec_twisted(s, (k + STATE_M - STATE_N) as nat),
        )
    } else {
        spec_twist_word(
            s[STATE_N - 1],
            spec_twisted(s, 0),
            spec_twisted(s, (STATE_M - 1) as nat),
        )
    }
}

/// The state that follows `s`: all 624 words regenerated.
pub open spec fn spec_twist(s: Seq<u32>) -> Seq<u32> {
    Seq::new(STATE_N as nat, |k: int| spec_twisted(s, k as nat))
}

/// The tempering of a word of state into a word of output.
pub open spec fn spec_temper(value: u32) -> u32 {
    let v1 = value ^ (value >> 11);
    let v2 = v1 ^ ((v1 << 7) & MASK_B);
    let v3 = v2 ^ ((v2 << 15) & MASK_C);
    v3 ^ (v3 >> 18)
}

/// The Mersenne Twister with a state of 624 words.
pub struct MTwister {
    /// The words of state.
    pub buf: [u32; 624],
    /// The next word to temper and hand out; 624 or more where none is left.
    pub index: usize,
}

impl Clone for MTwister {
    fn clone(&self) -> (r: Self)
        ensures
            r == *self,
    {
        Self { buf: self.buf, index: self.index }
    }
}

/// One word of the recurrence.
fn twist_word(upper: u32, lower: u32, far: u32) -> (r: u32)
    ensures
        r == spec_twist_word(upper, lower, far),
{
    let x: u32 = (upper & UPPER_MASK) | (lower & LOWER_MASK);
    assert(x & 1 == 0 || x & 1 == 1) by (bit_vector);
    far ^ (x >> 1) ^ ((x & 1) * MATRIX_A)
}

impl MTwister {
    /// The generator after `run`: the state regenerated, no word handed out.
    pub open spec fn spec_run(&self) -> Self {
        MTwister { buf: spec_array(spec_twist(self.buf@)), index: 0 }
    }

    /// Whether no word of the current state is left.
    pub open spec fn consumed(&self) -> bool {
        self.index >= STATE_N
    }

    /// Construct a new `MTwister` from a seed. Its first draw regenerates the state.
    pub fn new(seed: u32) -> (r: Self)
        ensures
            r.buf@ == spec_init(seed),
            r.index == STATE_N,
    {
        let mut buf: [u32; 624] = [0u32; 624];
        buf[0] = seed;
        let mut i: usize = 1;
        while i < 624
            invariant
                1 <= i <= 624,
                forall|j: int| 0 <= j < i ==> buf@[j] == spec_init_word(seed, j as nat),
            decreases 624 - i,
        {
            buf[i] = 1812433253u32.wrapping_mul(buf[i - 1] ^ (buf[i - 1] >> 30)).wrapping_add(
                i as u32,
            );
            i += 1;
        }
        assert(buf@ =~= spec_init(seed));
        Self { buf, index: STATE_N }
    }

    /// Regenerate the state, whether or not its words were handed out.
    pub fn run(&mut self)
        ensures
            *final(self) == old(self).spec_run(),
            final(self).buf@ == spec_twist(old(self).buf@),
            final(self).index == 0,
    {
        let mut kk: usize = 0;

        while kk < STATE_N - STATE_M
            invariant
                kk <= STATE_N - STATE_M,
                forall|j: int| 0 <= j < kk ==> self.buf@[j] == spec_twisted(old(self).buf@, j as nat),
                forall|j: int| kk <= j < STATE_N ==> self.buf@[j] == old(self).buf@[j],
            decreases STATE_N - kk,
        {
            self.buf[kk] = twist_word(self.buf[kk], self.buf[kk + 1], self.buf[kk + STATE_M]);
            kk += 1;
        }

        while kk < STATE_N - 1
            invariant
                STATE_N - STATE_M <= kk <= STATE_N - 1,
                forall|j: int| 0 <= j < kk ==> self.buf@[j] == spec_twisted(old(self).buf@, j as nat),
                forall|j: int| kk <= j < STATE_N ==> self.buf@[j] == old(self).buf@[j],
            decreases STATE_N - kk,
        {
            self.buf[kk] = twist_word(
                self.buf[kk],
                self.buf[kk + 1],
                self.buf[kk + STATE_M - STATE_N],
            );
            kk += 1;
        }

        self.buf[STATE_N - 1] = twist_word(
            self.buf[STATE_N - 1],
            self.buf[0],
            self.buf[STATE_M - 1],
        );

        self.index = 0;
        proof {
            assert(self.buf@ =~= spec_twist(old(self).buf@));
            lemma_spec_array(self.buf);
        }
    }

    /// Temper a word of state into a word of output.
    fn temper(value: u32) -> (r: u32)
        ensures
            r == spec_temper(value),
    {
        let mut value: u32 = value;
        value ^= value >> 11;
        value ^= (value << 7) & MASK_B;
        value ^= (value << 15) & MASK_C;
        value ^= value >> 18;
        value
    }

    /// The next word, tempered, or `None` where the state is consumed.
    /// A call to `run` regenerates it.
    pub fn get_checked(&mut self) -> (r: Option<u32>)
        ensures
            old(self).consumed() ==> r.is_none() && *final(self) == *old(self),
            !old(self).consumed() ==> r == Some(spec_temper(old(self).buf@[old(self).index as int]))
                && final(self).buf == old(self).buf && final(self).index == old(self).index + 1,
    {
        if self.index >= STATE_N {
            None
        } else {
            let ret: u32 = self.buf[self.index];
            self.index += 1;
            Some(Self::temper(ret))
        }
    }

    /// The next word, tempered. Where the state is consumed, `run` regenerates it first.
    pub fn get(&mut self) -> (r: u32)
        ensures
            r == old(self).draw_u32().0,
            *final(self) == old(self).draw_u32().1,
            !old(self).consumed() ==> r == spec_temper(old(self).buf@[old(self).index as int]),
            !old(self).consumed() ==> final(self).buf == old(self).buf,
            !old(self).consumed() ==> final(self).index == old(self).index + 1,
            old(self).consumed() ==> r == spec_temper(spec_twist(old(self).buf@)[0]),
            old(self).consumed() ==> final(self).buf@ == spec_twist(old(self).buf@),
            old(self).consumed() ==> final(self).index == 1,
    {
        if self.index >= STATE_N {
            self.run();
        }
        let ret: u32 = self.buf[self.index];
        self.index += 1;
        Self::temper(ret)
    }
}

impl RandomImpl for MTwister {
    open spec fn valid(&self) -> bool {
        true
    }

    open spec fn draw_u32(&self) -> (u32, Self) {
        let s = if self.consumed() {
            self.spec_run()
        } else {
            *self
        };
        (spec_temper(s.buf@[s.index as int]), MTwister { buf: s.buf, index: (s.index + 1) as usize })
    }

    open spec fn draw_u64(&self) -> (u64, Self) {
        let (hi, s1) = self.draw_u32();
        let (lo, s2) = s1.draw_u32();
        (spec_u32_compose_u64(hi, lo), s2)
    }

    open spec fn draw_bytes(&self, len: nat) -> (Seq<u8>, Self) {
        fill_u32(|s: Self| s.draw_u32(), *self, len)
    }

    fn random_u64(&mut self) -> (r: u64) {
        let hi: u32 = self.get();
        let lo: u32 = self.get();
        u32_compose_u64(hi, lo)
    }

    fn random_u32(&mut self) -> (r: u32) {
        self.get()
    }

    fn random_bytes(&mut self, dst: &mut [u8]) {
        self.bytes_from_u32(dst);
    }
}

} // verus!
