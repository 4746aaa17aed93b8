//! An 8-bit lagged Fibonacci generator: two additions with carry over four bytes of state.

use vstd::prelude::*;
use crate::common::spec_u16_compose_u32;
use crate::common::spec_u32_compose_u64;
use crate::common::spec_u8_compose_u16;
use crate::common::spec_u8_or_1;
use crate::common::u16_compose_u32;
use crate::common::u32_compose_u64;
use crate::common::u8_compose_u16;
use crate::common::u8_or_1;
use crate::random::RandomImpl;
use crate::random::iterate;
use crate::random::values;

verus! {

/// `x` rotated left by one bit through the carry: the carry comes in as the
/// lowest bit, and the highest bit goes out as the new carry.
pub open spec fn spec_rol(x: u8, c: bool) -> (u8, bool) {
    (((2 * x + (if c { 1int } else { 0int })) % 256) as u8, x >= 128)
}

/// `x` plus `y` plus the carry, modulo 256, and whether the sum passed 255.
pub open spec fn spec_adc(x: u8, y: u8, c: bool) -> (u8, bool) {
    let sum = x + y + (if c { 1int } else { 0int });
    ((sum % 256) as u8, sum > 255)
}

/// One step on the four bytes of state and the carry.
///
/// The first byte is rotated left through the carry; the rotated byte goes to
/// the third place, and its sum with the old third byte to the first. The
/// old second byte goes to the fourth place, and its sum with the old fourth
/// byte to the second. The carry runs through the three operations in turn.
pub open spec fn spec_dornd(rand: (u8, u8, u8, u8), carry: bool) -> ((u8, u8, u8, u8), bool) {
    let (x, c1) = spec_rol(rand.0, carry);
    let (a, c2) = spec_adc(x, rand.2, c1);
    let (b, c3) = spec_adc(rand.1, rand.3, c2);
    ((a, b, x, rand.1), c3)
}

/// Rotate `x` left by one bit through the carry.
fn rol(x: u8, c: bool) -> (r: (u8, bool))
    ensures
        r == spec_rol(x, c),
{
    let carry: bool = (0x80 & x) >> 7 != 0;
    let low: u8 = if c { 1 } else { 0 };
    assert(((0x80u8 & x) >> 7 != 0) == (x >= 128)) by (bit_vector);
    assert(low <= 1 ==> (x << 1 | low) == (2 * x + low) % 256) by (bit_vector);
    (x << 1 | low, carry)
}

/// Add with carry.
fn adc(x: u8, y: u8, c: bool) -> (r: (u8, bool))
    ensures
        r == spec_adc(x, y, c),
{
    let a: u8 = x.wrapping_add(y);
    let a_over: bool = a < x;
    let b: u8 = a.wrapping_add(if c { 1 } else { 0 });
    let b_over: bool = b < a;
    (b, a_over || b_over)
}

/// One step of the generator on its four bytes of state and its carry.
pub fn dornd(rand: &mut (u8, u8, u8, u8), carry: &mut bool)
    ensures
        (*final(rand), *final(carry)) == spec_dornd(*old(rand), *old(carry)),
{
    let c: bool = *carry;

    let a: u8 = rand.0;
    let (a, c) = rol(a, c);
    let x: u8 = a;
    let (a, c) = adc(a, rand.2, c);
    rand.0 = a;
    rand.2 = x;

    let a: u8 = rand.1;
    let x: u8 = a;
    let (a, c) = adc(a, rand.3, c);
    rand.1 = a;
    rand.3 = x;

    *carry = c;
}

/// The 8-bit lagged Fibonacci generator.
pub struct FibLFG8 {
    /// The four bytes of state.
    pub rand: (u8, u8, u8, u8),
    /// The carry that the last step left.
    pub carry: bool,
}

impl Clone for FibLFG8 {
    fn clone(&self) -> (r: Self)
        ensures
            r == *self,
    {
        Self { rand: (self.rand.0, self.rand.1, self.rand.2, self.rand.3), carry: self.carry }
    }
}

impl FibLFG8 {
    /// The one state that the generator never leaves: all bytes zero and no carry.
    pub open spec fn degenerate(&self) -> bool {
        self.rand == (0u8, 0u8, 0u8, 0u8) && !self.carry
    }

    /// The byte drawn from this state, and the state after the draw.
    pub open spec fn spec_get(&self) -> (u8, Self) {
        let (rand, carry) = spec_dornd(self.rand, self.carry);
        (rand.1, FibLFG8 { rand, carry })
    }

    /// Construct a new `FibLFG8` from its four bytes and its carry as they are.
    pub fn new_raw(f0: u8, f1: u8, m0: u8, m1: u8, carry: bool) -> (r: Self)
        ensures
            r.rand == (f1, m1, f0, m0),
            r.carry == carry,
    {
        Self { rand: (f1, m1, f0, m0), carry }
    }

    /// Construct a new `FibLFG8` from the four bytes of `seed`, most
    /// significant first, each zero byte replaced by 1, and no carry.
    pub fn new(seed: u32) -> (r: Self)
        ensures
            r.rand == (
                spec_u8_or_1((seed >> 24) as u8),
                spec_u8_or_1((seed >> 16) as u8),
                spec_u8_or_1((seed >> 8) as u8),
                spec_u8_or_1(seed as u8),
            ),
            !r.carry,
            !r.degenerate(),
    {
        let f1: u8 = (seed >> 24) as u8;
        let m1: u8 = (seed >> 16) as u8;
        let f0: u8 = (seed >> 8) as u8;
        let m0: u8 = seed as u8;

        let f0: u8 = u8_or_1(f0);
        let f1: u8 = u8_or_1(f1);
        let m0: u8 = u8_or_1(m0);
        let m1: u8 = u8_or_1(m1);

        Self::new_raw(f0, f1, m0, m1, false)
    }

    /// The four bytes of state, to read and to change.
    pub fn rand(&mut self) -> (r: &mut (u8, u8, u8, u8))
        ensures
            *r == old(self).rand,
            final(self).rand == *final(r),
            final(self).carry == old(self).carry,
    {
        &mut self.rand
    }

    /// The carry, to read and to change.
    pub fn carry(&mut self) -> (r: &mut bool)
        ensures
            *r == old(self).carry,
            final(self).carry == *final(r),
            final(self).rand == old(self).rand,
    {
        &mut self.carry
    }

    /// The third byte of state, to read and to change.
    pub fn f0(&mut self) -> (r: &mut u8)
        ensures
            *r == old(self).rand.2,
            final(self).rand == (old(self).rand.0, old(self).rand.1, *final(r), old(self).rand.3),
            final(self).carry == old(self).carry,
    {
        &mut self.rand.2
    }

    /// The first byte of state, to read and to change.
    pub fn f1(&mut self) -> (r: &mut u8)
        ensures
            *r == old(self).rand.0,
            final(self).rand == (*final(r), old(self).rand.1, old(self).rand.2, old(self).rand.3),
            final(self).carry == old(self).carry,
    {
        &mut self.rand.0
    }

    /// The fourth byte of state, to read and to change.
    pub fn m0(&mut self) -> (r: &mut u8)
        ensures
            *r == old(self).rand.3,
            final(self).rand == (old(self).rand.0, old(self).rand.1, old(self).rand.2, *final(r)),
            final(self).carry == old(self).carry,
    {
        &mut self.rand.3
    }

    /// The second byte of state, to read and to change.
    pub fn m1(&mut self) -> (r: &mut u8)
        ensures
            *r == old(self).rand.1,
            final(self).rand == (old(self).rand.0, *final(r), old(self).rand.2, old(self).rand.3),
            final(self).carry == old(self).carry,
    {
        &mut self.rand.1
    }

    /// The value that the draw before the last one returned.
    pub fn get_last(&self) -> (r: u8)
        ensures
            r == self.rand.3,
    {
        self.rand.3
    }

    /// Make one step and return the second byte of the new state.
    pub fn get(&mut self) -> (r: u8)
        ensures
            r == old(self).spec_get().0,
            *final(self) == old(self).spec_get().1,
            final(self).degenerate() == old(self).degenerate(),
            final(self).rand.3 == old(self).rand.1,
    {
        dornd(&mut self.rand, &mut self.carry);
        self.rand.1
    }

    /// A generator that is not in the all-zero state never reaches it, and
    /// one that is in it never leaves it.
    pub proof fn law_degenerate_forever(s: Self, n: nat)
        ensures
            iterate(|g: Self| g.spec_get(), s, n).degenerate() == s.degenerate(),
        decreases n,
    {
        if n > 0 {
            Self::law_degenerate_forever(s, (n - 1) as nat);
        }
    }

    /// After a draw, `get_last` gives what the draw before it returned.
    pub proof fn law_get_last(s: Self)
        ensures
            s.spec_get().1.spec_get().1.rand.3 == s.spec_get().0,
    {
    }
}

impl RandomImpl for FibLFG8 {
    open spec fn valid(&self) -> bool {
        true
    }

    open spec fn draw_u32(&self) -> (u32, Self) {
        let (b0, s1) = self.spec_get();
        let (b1, s2) = s1.spec_get();
        let (b2, s3) = s2.spec_get();
        let (b3, s4) = s3.spec_get();
        (spec_u16_compose_u32(spec_u8_compose_u16(b0, b1), spec_u8_compose_u16(b2, b3)), s4)
    }

    open spec fn draw_u64(&self) -> (u64, Self) {
        let (hi, s1) = self.draw_u32();
        let (lo, s2) = s1.draw_u32();
        (spec_u32_compose_u64(hi, lo), s2)
    }

    open spec fn draw_bytes(&self, len: nat) -> (Seq<u8>, Self) {
        (values(|g: Self| g.spec_get(), *self, len), iterate(|g: Self| g.spec_get(), *self, len))
    }

    fn random_u64(&mut self) -> (r: u64) {
        let hi: u32 = self.random_u32();
        let lo: u32 = self.random_u32();
        u32_compose_u64(hi, lo)
    }

    fn random_u32(&mut self) -> (r: u32) {
        let b0: u8 = self.get();
        let b1: u8 = self.get();
        let b2: u8 = self.get();
        let b3: u8 = self.get();
        u16_compose_u32(u8_compose_u16(b0, b1), u8_compose_u16(b2, b3))
    }

    fn random_bytes(&mut self, dst: &mut [u8]) {
        let ghost step = |g: Self| g.spec_get();
        let len: usize = dst.len();
        let mut i: usize = 0;
        while i < len
            invariant
                i <= len,
                dst@.len() == len,
                step == |g: Self| g.spec_get(),
                *self == iterate(step, *old(self), i as nat),
                forall|j: int| 0 <= j < i ==> dst@[j] == values(step, *old(self), len as nat)[j],
            decreases len - i,
        {
            dst[i] = self.get();
            i += 1;
        }
        assert(dst@ =~= values(step, *old(self), len as nat));
    }
}

} // verus!
