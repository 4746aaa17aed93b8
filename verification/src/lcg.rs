//! Linear congruential generators.
//!
//! A step takes the state `seed` to `(seed * A + C) % M`. The product and the
//! sum are formed in full, whatever the width of the state: nothing of them
//! is lost before the remainder is taken. With a well chosen multiplier
//! `A`, increment `C` and modulus `M` the values are of fair quality; they
//! are never unpredictable.

use vstd::prelude::*;
use vstd::arithmetic::div_mod::lemma_add_mod_noop;
use vstd::arithmetic::div_mod::lemma_add_mod_noop_right;
use vstd::arithmetic::div_mod::lemma_fundamental_div_mod_converse;
use vstd::arithmetic::div_mod::lemma_mul_mod_noop_left;
use vstd::arithmetic::div_mod::lemma_small_mod;
use crate::common::spec_u16_compose_u32;
use crate::common::spec_u32_compose_u64;
use crate::common::spec_u32_from_le_bytes;
use crate::common::spec_u64_from_le_bytes;
use crate::common::u16_compose_u32;
use crate::common::u32_compose_u64;
use crate::random::RandomImpl;
use crate::random::fill_u32;
use crate::random::fill_u64;
use crate::random::iterate;
use crate::random::values;

verus! {

/// The state that follows `seed`: the product with `a`, plus `c`, modulo `m`.
pub open spec fn spec_lcg(seed: int, a: int, c: int, m: int) -> int {
    (seed * a + c) % m
}

/// The sum of `x` and `y` modulo `m`, for `x` and `y` below `m`.
fn add_mod(x: u128, y: u128, m: u128) -> (r: u128)
    requires
        x < m,
        y < m,
    ensures
        r == (x + y) % (m as int),
        r < m,
{
    if x >= m - y {
        proof {
            lemma_fundamental_div_mod_converse(x + y, m as int, 1, x + y - m);
        }
        x - (m - y)
    } else {
        proof {
            lemma_small_mod((x + y) as nat, m as nat);
        }
        x + y
    }
}

/// The product of `a` and `b` modulo `m`, by doubling and adding: no
/// intermediate value leaves 128 bits.
fn mul_mod(a: u128, b: u128, m: u128) -> (r: u128)
    requires
        m > 0,
    ensures
        r == (a * b) % (m as int),
        r < m,
{
    let mut acc: u128 = 0;
    let mut x: u128 = a % m;
    let mut n: u128 = b;
    proof {
        lemma_mul_mod_noop_left(a as int, b as int, m as int);
    }
    while n > 0
        invariant
            m > 0,
            acc < m,
            x < m,
            (acc + x * n) % (m as int) == (a * b) % (m as int),
        decreases n,
    {
        let ghost acc0 = acc;
        let ghost x0 = x;
        let ghost n0 = n;
        if n % 2 == 1 {
            acc = add_mod(acc, x, m);
        }
        x = add_mod(x, x, m);
        n = n / 2;
        proof {
            let d: int = if n0 % 2 == 1 { 1 } else { 0 };
            let sum: int = acc0 + d * x0;
            let twice: int = 2 * x0;
            assert(acc == sum % (m as int)) by {
                if d == 0 {
                    lemma_small_mod(acc0 as nat, m as nat);
                }
            }
            assert(acc0 + x0 * n0 == sum + twice * n) by (nonlinear_arith)
                requires
                    n0 == 2 * n + d,
                    sum == acc0 + d * x0,
                    twice == 2 * x0,
            ;
            // the new terms are the old ones, each reduced modulo m
            lemma_mul_mod_noop_left(twice, n as int, m as int);
            lemma_add_mod_noop(sum, twice * n, m as int);
            lemma_add_mod_noop(sum, x * n, m as int);
            lemma_small_mod(acc as nat, m as nat);
            lemma_add_mod_noop_right(acc as int, x * n, m as int);
        }
    }
    proof {
        assert(x * n == 0) by (nonlinear_arith)
            requires
                n == 0,
        ;
        lemma_small_mod(acc as nat, m as nat);
    }
    acc
}

/// An 8-bit linear congruential generator with multiplier `A`, increment `C` and
/// modulus `M`, which must not be 0.
pub struct Lcg8<const A: u8, const C: u8, const M: u8> {
    /// The state, which is also the value last drawn.
    pub seed: u8,
}

impl<const A: u8, const C: u8, const M: u8> Lcg8<A, C, M> {
    /// The value drawn from this state, and the state after the draw.
    pub open spec fn spec_get(&self) -> (u8, Self) {
        let next = spec_lcg(self.seed as int, A as int, C as int, M as int) as u8;
        (next, Lcg8 { seed: next })
    }

    /// Construct a new generator with the seed as it is.
    pub fn new(seed: u8) -> (r: Self)
        ensures
            r.seed == seed,
    {
        Self { seed }
    }

    /// The state, to read and to change.
    pub fn seed(&mut self) -> (r: &mut u8)
        ensures
            *r == old(self).seed,
            final(self).seed == *final(r),
    {
        &mut self.seed
    }

    /// Make one step and return the new state.
    pub fn get(&mut self) -> (r: u8)
        requires
            M != 0,
        ensures
            r == (old(self).seed * A + C) % (M as int),
            final(self).seed == r,
            r < M,
            r == old(self).spec_get().0,
            *final(self) == old(self).spec_get().1,
    {
        let seed: u16 = self.seed as u16;
        let a: u16 = A as u16;
        let c: u16 = C as u16;
        let m: u16 = M as u16;
        assert(seed * a + c <= u16::MAX) by (nonlinear_arith)
            requires
                seed <= u8::MAX,
                a <= u8::MAX,
                c <= u8::MAX,
        ;
        let next: u16 = (seed * a + c) % m;
        self.seed = next as u8;
        self.seed
    }
}

impl<const A: u8, const C: u8, const M: u8> RandomImpl for Lcg8<A, C, M> {
    open spec fn valid(&self) -> bool {
        M != 0
    }

    open spec fn draw_bytes(&self, len: nat) -> (Seq<u8>, Self) {
        (values(|g: Self| g.spec_get(), *self, len), iterate(|g: Self| g.spec_get(), *self, len))
    }

    open spec fn draw_u32(&self) -> (u32, Self) {
        (spec_u32_from_le_bytes(self.draw_bytes(4).0), self.draw_bytes(4).1)
    }

    open spec fn draw_u64(&self) -> (u64, Self) {
        (spec_u64_from_le_bytes(self.draw_bytes(8).0), self.draw_bytes(8).1)
    }

    fn random_u64(&mut self) -> (r: u64) {
        self.u64_from_bytes()
    }

    fn random_u32(&mut self) -> (r: u32) {
        self.u32_from_bytes()
    }

    fn random_bytes(&mut self, dst: &mut [u8]) {
        let ghost step = |g: Self| g.spec_get();
        let len: usize = dst.len();
        let mut i: usize = 0;
        while i < len
            invariant
                i <= len,
                M != 0,
                dst@.len() == len,
                step == |g: Self| g.spec_get(),
                *self == iterate(step, *old(self), i as nat),
                forall|j: int| 0 <= j < i ==> dst@[j] == values(step, *old(self), len as nat)[j],
            decreases len - i,
        {
            dst[i] = self.get();
            i += 1;
        }
        assert(dst@ =~= values(step, *old(self), len as nat));
    }
}

/// A 16-bit linear congruential generator with multiplier `A`, increment `C` and
/// modulus `M`, which must not be 0.
pub struct Lcg16<const A: u16, const C: u16, const M: u16> {
    /// The state, which is also the value last drawn.
    pub seed: u16,
}

impl<const A: u16, const C: u16, const M: u16> Lcg16<A, C, M> {
    /// The value drawn from this state, and the state after the draw.
    pub open spec fn spec_get(&self) -> (u16, Self) {
        let next = spec_lcg(self.seed as int, A as int, C as int, M as int) as u16;
        (next, Lcg16 { seed: next })
    }

    /// Construct a new generator with the seed as it is.
    pub fn new(seed: u16) -> (r: Self)
        ensures
            r.seed == seed,
    {
        Self { seed }
    }

    /// The state, to read and to change.
    pub fn seed(&mut self) -> (r: &mut u16)
        ensures
            *r == old(self).seed,
            final(self).seed == *final(r),
    {
        &mut self.seed
    }

    /// Make one step and return the new state.
    pub fn get(&mut self) -> (r: u16)
        requires
            M != 0,
        ensures
            r == (old(self).seed * A + C) % (M as int),
            final(self).seed == r,
            r < M,
            r == old(self).spec_get().0,
            *final(self) == old(self).spec_get().1,
    {
        let seed: u32 = self.seed as u32;
        let a: u32 = A as u32;
        let c: u32 = C as u32;
        let m: u32 = M as u32;
        assert(seed * a + c <= u32::MAX) by (nonlinear_arith)
            requires
                seed <= u16::MAX,
                a <= u16::MAX,
                c <= u16::MAX,
        ;
        let next: u32 = (seed * a + c) % m;
        self.seed = next as u16;
        self.seed
    }
}

impl<const A: u16, const C: u16, const M: u16> RandomImpl for Lcg16<A, C, M> {
    open spec fn valid(&self) -> bool {
        M != 0
    }

    open spec fn draw_u32(&self) -> (u32, Self) {
        let (hi, s1) = self.spec_get();
        let (lo, s2) = s1.spec_get();
        (spec_u16_compose_u32(hi, lo), s2)
    }

    open spec fn draw_u64(&self) -> (u64, Self) {
        let (hi, s1) = self.draw_u32();
        let (lo, s2) = s1.draw_u32();
        (spec_u32_compose_u64(hi, lo), s2)
    }

    open spec fn draw_bytes(&self, len: nat) -> (Seq<u8>, Self) {
        fill_u32(|s: Self| s.draw_u32(), *self, len)
    }

    fn random_u64(&mut self) -> (r: u64) {
        let hi: u32 = self.random_u32();
        let lo: u32 = self.random_u32();
        u32_compose_u64(hi, lo)
    }

    fn random_u32(&mut self) -> (r: u32) {
        let hi: u16 = self.get();
        let lo: u16 = self.get();
        u16_compose_u32(hi, lo)
    }

    fn random_bytes(&mut self, dst: &mut [u8]) {
        self.bytes_from_u32(dst);
    }
}

/// A 32-bit linear congruential generator with multiplier `A`, increment `C` and
/// modulus `M`, which must not be 0.
pub struct Lcg32<const A: u32, const C: u32, const M: u32> {
    /// The state, which is also the value last drawn.
    pub seed: u32,
}

impl<const A: u32, const C: u32, const M: u32> Lcg32<A, C, M> {
    /// The value drawn from this state, and the state after the draw.
    pub open spec fn spec_get(&self) -> (u32, Self) {
        let next = spec_lcg(self.seed as int, A as int, C as int, M as int) as u32;
        (next, Lcg32 { seed: next })
    }

    /// Construct a new generator with the seed as it is.
    pub fn new(seed: u32) -> (r: Self)
        ensures
            r.seed == seed,
    {
        Self { seed }
    }

    /// The state, to read and to change.
    pub fn seed(&mut self) -> (r: &mut u32)
        ensures
            *r == old(self).seed,
            final(self).seed == *final(r),
    {
        &mut self.seed
    }

    /// Make one step and return the new state.
    pub fn get(&mut self) -> (r: u32)
        requires
            M != 0,
        ensures
            r == (old(self).seed * A + C) % (M as int),
            final(self).seed == r,
            r < M,
            r == old(self).spec_get().0,
            *final(self) == old(self).spec_get().1,
    {
        let seed: u64 = self.seed as u64;
        let a: u64 = A as u64;
        let c: u64 = C as u64;
        let m: u64 = M as u64;
        assert(seed * a + c <= u64::MAX) by (nonlinear_arith)
            requires
                seed <= u32::MAX,
                a <= u32::MAX,
                c <= u32::MAX,
        ;
        let next: u64 = (seed * a + c) % m;
        self.seed = next as u32;
        self.seed
    }
}

impl<const A: u32, const C: u32, const M: u32> RandomImpl for Lcg32<A, C, M> {
    open spec fn valid(&self) -> bool {
        M != 0
    }

    open spec fn draw_u32(&self) -> (u32, Self) {
        self.spec_get()
    }

    open spec fn draw_u64(&self) -> (u64, Self) {
        let (hi, s1) = self.draw_u32();
        let (lo, s2) = s1.draw_u32();
        (spec_u32_compose_u64(hi, lo), s2)
    }

    open spec fn draw_bytes(&self, len: nat) -> (Seq<u8>, Self) {
        fill_u32(|s: Self| s.draw_u32(), *self, len)
    }

    fn random_u64(&mut self) -> (r: u64) {
        let hi: u32 = self.random_u32();
        let lo: u32 = self.random_u32();
        u32_compose_u64(hi, lo)
    }

    fn random_u32(&mut self) -> (r: u32) {
        self.get()
    }

    fn random_bytes(&mut self, dst: &mut [u8]) {
        self.bytes_from_u32(dst);
    }
}

/// A 64-bit linear congruential generator with multiplier `A`, increment `C` and
/// modulus `M`, which must not be 0.
pub struct Lcg64<const A: u64, const C: u64, const M: u64> {
    /// The state, which is also the value last drawn.
    pub seed: u64,
}

impl<const A: u64, const C: u64, const M: u64> Lcg64<A, C, M> {
    /// The value drawn from this state, and the state after the draw.
    pub open spec fn spec_get(&self) -> (u64, Self) {
        let next = spec_lcg(self.seed as int, A as int, C as int, M as int) as u64;
        (next, Lcg64 { seed: next })
    }

    /// Construct a new generator with the seed as it is.
    pub fn new(seed: u64) -> (r: Self)
        ensures
            r.seed == seed,
    {
        Self { seed }
    }

    /// The state, to read and to change.
    pub fn seed(&mut self) -> (r: &mut u64)
        ensures
            *r == old(self).seed,
            final(self).seed == *final(r),
    {
        &mut self.seed
    }

    /// Make one step and return the new state.
    pub fn get(&mut self) -> (r: u64)
        requires
            M != 0,
        ensures
            r == (old(self).seed * A + C) % (M as int),
            final(self).seed == r,
            r < M,
            r == old(self).spec_get().0,
            *final(self) == old(self).spec_get().1,
    {
        let seed: u128 = self.seed as u128;
        let a: u128 = A as u128;
        let c: u128 = C as u128;
        let m: u128 = M as u128;
        assert(seed * a + c <= u128::MAX) by (nonlinear_arith)
            requires
                seed <= u64::MAX,
                a <= u64::MAX,
                c <= u64::MAX,
        ;
        let next: u128 = (seed * a + c) % m;
        self.seed = next as u64;
        self.seed
    }
}

impl<const A: u64, const C: u64, const M: u64> RandomImpl for Lcg64<A, C, M> {
    open spec fn valid(&self) -> bool {
        M != 0
    }

    open spec fn draw_u64(&self) -> (u64, Self) {
        self.spec_get()
    }

    open spec fn draw_u32(&self) -> (u32, Self) {
        (self.spec_get().0 as u32, self.spec_get().1)
    }

    open spec fn draw_bytes(&self, len: nat) -> (Seq<u8>, Self) {
        fill_u64(|s: Self| s.draw_u64(), *self, len)
    }

    fn random_u64(&mut self) -> (r: u64) {
        self.get()
    }

    fn random_u32(&mut self) -> (r: u32) {
        self.get() as u32
    }

    fn random_bytes(&mut self, dst: &mut [u8]) {
        self.bytes_from_u64(dst);
    }
}

/// A 128-bit linear congruential generator with multiplier `A`, increment `C` and
/// modulus `M`, which must not be 0.
pub struct Lcg128<const A: u128, const C: u128, const M: u128> {
    /// The state, which is also the value last drawn.
    pub seed: u128,
}

impl<const A: u128, const C: u128, const M: u128> Lcg128<A, C, M> {
    /// The value drawn from this state, and the state after the draw.
    pub open spec fn spec_get(&self) -> (u128, Self) {
        let next = spec_lcg(self.seed as int, A as int, C as int, M as int) as u128;
        (next, Lcg128 { seed: next })
    }

    /// Construct a new generator with the seed as it is.
    pub fn new(seed: u128) -> (r: Self)
        ensures
            r.seed == seed,
    {
        Self { seed }
    }

    /// Make one step and return the new state.
    pub fn get(&mut self) -> (r: u128)
        requires
            M != 0,
        ensures
            r == (old(self).seed * A + C) % (M as int),
            final(self).seed == r,
            r < M,
            r == old(self).spec_get().0,
            *final(self) == old(self).spec_get().1,
    {
        let product: u128 = mul_mod(self.seed, A, M);
        let next: u128 = add_mod(product, C % M, M);
        proof {
            lemma_add_mod_noop(old(self).seed * A, C as int, M as int);
        }
        self.seed = next;
        self.seed
    }
}

impl<const A: u128, const C: u128, const M: u128> RandomImpl for Lcg128<A, C, M> {
    open spec fn valid(&self) -> bool {
        M != 0
    }

    open spec fn draw_u64(&self) -> (u64, Self) {
        (self.spec_get().0 as u64, self.spec_get().1)
    }

    open spec fn draw_u32(&self) -> (u32, Self) {
        (self.spec_get().0 as u32, self.spec_get().1)
    }

    open spec fn draw_bytes(&self, len: nat) -> (Seq<u8>, Self) {
        fill_u64(|s: Self| s.draw_u64(), *self, len)
    }

    fn random_u64(&mut self) -> (r: u64) {
        self.get() as u64
    }

    fn random_u32(&mut self) -> (r: u32) {
        self.get() as u32
    }

    fn random_bytes(&mut self, dst: &mut [u8]) {
        self.bytes_from_u64(dst);
    }
}

/// The 8-bit generator of L'Ecuyer's tables.
pub type Lecuyer8 = Lcg8<55, 0, 251>;

/// The 16-bit generator of L'Ecuyer's tables.
pub type Lecuyer16 = Lcg16<17364, 0, 65521>;

/// The minimal standard generator of 1988. From a seed of 1 it draws 16807,
/// 282475249, 1622650073.
pub type MINSTD88 = Lcg64<16807, 0, 2147483647>;

/// The minimal standard generator with the later multiplier. From a seed of
/// 1 it draws 48271, 182605794, 1291394886.
pub type MINSTD = Lcg64<48271, 0, 2147483647>;

/// The generator of Fishman and Moore.
pub type Fishman = Lcg32<950706376, 0, 2147483647>;

/// The generator RANF. From a seed of 1 it draws 44485709377909,
/// 232253848878969, 94800993741645.
pub type RANF = Lcg64<44485709377909, 0, 0x1000000000000>;

/// The generator RANDU, whose constants are notoriously poor. From a seed of
/// 1 it draws 65539, 393225, 1769499.
pub type RANDU = Lcg32<65539, 0, 0x80000000>;

/// The generator of Visual Basic 6.
pub type VisualBasic6 = Lcg32<0x43fd43fd, 0xc39ec3, 0xffffff>;

} // verus!
