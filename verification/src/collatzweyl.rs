//! Collatz-Weyl generators: a Collatz-like multiplication mixed with a Weyl sequence.
//!
//! The first 48 values of the 64-bit generator, and the first 96 of the
//! 128-bit ones, are of low quality and are best skipped.

use vstd::prelude::*;
use crate::random::RandomImpl;
use crate::random::fill_u64;

verus! {

/// The Collatz-Weyl generator with 64 bits of state in each word.
pub struct CollatzWeyl64 {
    /// The multiplied word.
    pub x: u64,
    /// The sum of the words that `x` has held.
    pub a: u64,
    /// The Weyl sequence: the multiples of `s`.
    pub weyl: u64,
    /// The increment of the Weyl sequence, which should be odd.
    pub s: u64,
}

impl CollatzWeyl64 {
    /// The state in which the generator stays and draws only zeros.
    pub open spec fn degenerate(&self) -> bool {
        self.x == 0 && self.a == 0 && self.weyl == 0 && self.s == 0
    }

    /// The value drawn from this state, and the state after the draw.
    pub open spec fn spec_get(&self) -> (u64, Self) {
        let a = self.a.wrapping_add(self.x);
        let weyl = self.weyl.wrapping_add(self.s);
        let x = (self.x >> 1).wrapping_mul(a | 1) ^ weyl;
        ((a >> 48) ^ x, CollatzWeyl64 { x, a, weyl, s: self.s })
    }

    /// Construct a new generator from a state and an increment as they are.
    pub fn new_raw(state: u64, seed: u64) -> (r: Self)
        ensures
            r.x == state,
            r.a == 0,
            r.weyl == 0,
            r.s == seed,
    {
        Self { a: 0, weyl: 0, x: state, s: seed }
    }

    /// Construct a new generator from a seed, which is made odd, and a state of 0.
    pub fn new_one(seed: u64) -> (r: Self)
        ensures
            r.x == 0,
            r.a == 0,
            r.weyl == 0,
            r.s == seed | 1,
            !r.degenerate(),
    {
        assert(seed | 1 != 0) by (bit_vector);
        Self::new_raw(0, seed | 1)
    }

    /// Construct a new generator from a state and a seed, which is made odd.
    pub fn new_two(state: u64, seed: u64) -> (r: Self)
        ensures
            r.x == state,
            r.a == 0,
            r.weyl == 0,
            r.s == seed | 1,
            !r.degenerate(),
    {
        assert(seed | 1 != 0) by (bit_vector);
        Self::new_raw(state, seed | 1)
    }

    /// Make one step and return the new `x` xored with the high bits of `a`.
    pub fn get(&mut self) -> (r: u64)
        ensures
            r == old(self).spec_get().0,
            *final(self) == old(self).spec_get().1,
            final(self).s == old(self).s,
            old(self).s != 0 ==> !final(self).degenerate(),
    {
        self.a = self.a.wrapping_add(self.x);
        self.weyl = self.weyl.wrapping_add(self.s);
        self.x = (self.x >> 1).wrapping_mul(self.a | 1) ^ self.weyl;
        (self.a >> 48) ^ self.x
    }
}

impl RandomImpl for CollatzWeyl64 {
    open spec fn valid(&self) -> bool {
        true
    }

    open spec fn draw_u64(&self) -> (u64, Self) {
        (self.spec_get().0, self.spec_get().1)
    }

    open spec fn draw_u32(&self) -> (u32, Self) {
        (self.spec_get().0 as u32, self.spec_get().1)
    }

    open spec fn draw_bytes(&self, len: nat) -> (Seq<u8>, Self) {
        fill_u64(|s: Self| s.draw_u64(), *self, len)
    }

    fn random_u64(&mut self) -> (r: u64) {
        self.get()
    }

    fn random_u32(&mut self) -> (r: u32) {
        self.get() as u32
    }

    fn random_bytes(&mut self, dst: &mut [u8]) {
        self.bytes_from_u64(dst);
    }
}

/// The Collatz-Weyl generator with a multiplied word of 128 bits and a sum, a
/// Weyl sequence and an increment of 64 bits.
pub struct CollatzWeyl128_64 {
    /// The multiplied word.
    pub x: u128,
    /// The sum of the words that `x` has held.
    pub a: u64,
    /// The Weyl sequence: the multiples of `s`.
    pub weyl: u64,
    /// The increment of the Weyl sequence, which should be odd.
    pub s: u64,
}

impl CollatzWeyl128_64 {
    /// The state in which the generator stays and draws only zeros.
    pub open spec fn degenerate(&self) -> bool {
        self.x == 0 && self.a == 0 && self.weyl == 0 && self.s == 0
    }

    /// The value drawn from this state, and the state after the draw.
    pub open spec fn spec_get(&self) -> (u128, Self) {
        let a = (self.a as u128).wrapping_add(self.x) as u64;
        let weyl = self.weyl.wrapping_add(self.s);
        let x = (self.x | 1).wrapping_mul((a >> 1) as u128) ^ weyl as u128;
        ((a >> 48) as u128 ^ x, CollatzWeyl128_64 { x, a, weyl, s: self.s })
    }

    /// Construct a new generator from a state and an increment as they are.
    pub fn new_raw(state: u128, seed: u64) -> (r: Self)
        ensures
            r.x == state,
            r.a == 0,
            r.weyl == 0,
            r.s == seed,
    {
        Self { a: 0, weyl: 0, x: state, s: seed }
    }

    /// Construct a new generator from a seed, which is made odd, and a state of 0.
    pub fn new_one(seed: u64) -> (r: Self)
        ensures
            r.x == 0,
            r.a == 0,
            r.weyl == 0,
            r.s == seed | 1,
            !r.degenerate(),
    {
        assert(seed | 1 != 0) by (bit_vector);
        Self::new_raw(0, seed | 1)
    }

    /// Construct a new generator from a state and a seed, which is made odd.
    pub fn new_two(state: u128, seed: u64) -> (r: Self)
        ensures
            r.x == state,
            r.a == 0,
            r.weyl == 0,
            r.s == seed | 1,
            !r.degenerate(),
    {
        assert(seed | 1 != 0) by (bit_vector);
        Self::new_raw(state, seed | 1)
    }

    /// Make one step and return the new `x` xored with the high bits of `a`.
    pub fn get(&mut self) -> (r: u128)
        ensures
            r == old(self).spec_get().0,
            *final(self) == old(self).spec_get().1,
            final(self).s == old(self).s,
            old(self).s != 0 ==> !final(self).degenerate(),
    {
        self.a = (self.a as u128).wrapping_add(self.x) as u64;
        self.weyl = self.weyl.wrapping_add(self.s);
        self.x = (self.x | 1).wrapping_mul((self.a >> 1) as u128) ^ self.weyl as u128;
        (self.a >> 48) as u128 ^ self.x
    }
}

impl RandomImpl for CollatzWeyl128_64 {
    open spec fn valid(&self) -> bool {
        true
    }

    open spec fn draw_u64(&self) -> (u64, Self) {
        (self.spec_get().0 as u64, self.spec_get().1)
    }

    open spec fn draw_u32(&self) -> (u32, Self) {
        (self.spec_get().0 as u32, self.spec_get().1)
    }

    open spec fn draw_bytes(&self, len: nat) -> (Seq<u8>, Self) {
        fill_u64(|s: Self| s.draw_u64(), *self, len)
    }

    fn random_u64(&mut self) -> (r: u64) {
        self.get() as u64
    }

    fn random_u32(&mut self) -> (r: u32) {
        self.get() as u32
    }

    fn random_bytes(&mut self, dst: &mut [u8]) {
        self.bytes_from_u64(dst);
    }
}

/// The Collatz-Weyl generator with 128 bits of state in each word.
pub struct CollatzWeyl128 {
    /// The multiplied word.
    pub x: u128,
    /// The sum of the words that `x` has held.
    pub a: u128,
    /// The Weyl sequence: the multiples of `s`.
    pub weyl: u128,
    /// The increment of the Weyl sequence, which should be odd.
    pub s: u128,
}

impl CollatzWeyl128 {
    /// The state in which the generator stays and draws only zeros.
    pub open spec fn degenerate(&self) -> bool {
        self.x == 0 && self.a == 0 && self.weyl == 0 && self.s == 0
    }

    /// The value drawn from this state, and the state after the draw.
    pub open spec fn spec_get(&self) -> (u128, Self) {
        let a = self.a.wrapping_add(self.x);
        let weyl = self.weyl.wrapping_add(self.s);
        let x = (self.x >> 1).wrapping_mul(a | 1) ^ weyl;
        ((a >> 96) ^ x, CollatzWeyl128 { x, a, weyl, s: self.s })
    }

    /// Construct a new generator from a state and an increment as they are.
    pub fn new_raw(state: u128, seed: u128) -> (r: Self)
        ensures
            r.x == state,
            r.a == 0,
            r.weyl == 0,
            r.s == seed,
    {
        Self { a: 0, weyl: 0, x: state, s: seed }
    }

    /// Construct a new generator from a seed, which is made odd, and a state of 0.
    pub fn new_one(seed: u128) -> (r: Self)
        ensures
            r.x == 0,
            r.a == 0,
            r.weyl == 0,
            r.s == seed | 1,
            !r.degenerate(),
    {
        assert(seed | 1 != 0) by (bit_vector);
        Self::new_raw(0, seed | 1)
    }

    /// Construct a new generator from a state and a seed, which is made odd.
    pub fn new_two(state: u128, seed: u128) -> (r: Self)
        ensures
            r.x == state,
            r.a == 0,
            r.weyl == 0,
            r.s == seed | 1,
            !r.degenerate(),
    {
        assert(seed | 1 != 0) by (bit_vector);
        Self::new_raw(state, seed | 1)
    }

    /// Make one step and return the new `x` xored with the high bits of `a`.
    pub fn get(&mut self) -> (r: u128)
        ensures
            r == old(self).spec_get().0,
            *final(self) == old(self).spec_get().1,
            final(self).s == old(self).s,
            old(self).s != 0 ==> !final(self).degenerate(),
    {
        self.a = self.a.wrapping_add(self.x);
        self.weyl = self.weyl.wrapping_add(self.s);
        self.x = (self.x >> 1).wrapping_mul(self.a | 1) ^ self.weyl;
        (self.a >> 96) ^ self.x
    }
}

impl RandomImpl for CollatzWeyl128 {
    open spec fn valid(&self) -> bool {
        true
    }

    open spec fn draw_u64(&self) -> (u64, Self) {
        (self.spec_get().0 as u64, self.spec_get().1)
    }

    open spec fn draw_u32(&self) -> (u32, Self) {
        (self.spec_get().0 as u32, self.spec_get().1)
    }

    open spec fn draw_bytes(&self, len: nat) -> (Seq<u8>, Self) {
        fill_u64(|s: Self| s.draw_u64(), *self, len)
    }

    fn random_u64(&mut self) -> (r: u64) {
        self.get() as u64
    }

    fn random_u32(&mut self) -> (r: u32) {
        self.get() as u32
    }

    fn random_bytes(&mut self, dst: &mut [u8]) {
        self.bytes_from_u64(dst);
    }
}

} // verus!
