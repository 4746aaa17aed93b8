//! The generation interface: the three draws that an algorithm implements, and
//! everything that is derived from them.

use vstd::prelude::*;
use vstd::std_specs::maybe_uninit::MaybeUninitAdditionalSpecFns;
use core::mem::MaybeUninit;
use crate::buffer::Buffer8;
use crate::buffer::Buffer;
use crate::common::lemma_spec_array;
use crate::common::spec_array;
use crate::common::spec_u32_from_le_bytes;
use crate::common::spec_u32_le_bytes;
use crate::common::spec_u32_normalize_bits;
use crate::common::spec_u64_compose_u128;
use crate::common::spec_u64_from_le_bytes;
use crate::common::spec_u64_le_bytes;
use crate::common::spec_u64_normalize_bits;
use crate::common::u32_le_bytes;
use crate::common::u32_normalize_bits;
use crate::common::u64_compose_u128;
use crate::common::u64_le_bytes;
use crate::common::u64_normalize_bits;
use crate::crush::Accumulator;
use crate::crush::Crush;
use crate::iter::Iter;
use crate::private::Seal;

verus! {

/// The state `s` after `n` steps, where a step maps a state to a value and the next state.
pub open spec fn iterate<S, V>(step: spec_fn(S) -> (V, S), s: S, n: nat) -> S
    decreases n,
{
    if n == 0 {
        s
    } else {
        step(iterate(step, s, (n - 1) as nat)).1
    }
}

/// The values of the first `n` steps from `s`, in order.
pub open spec fn values<S, V>(step: spec_fn(S) -> (V, S), s: S, n: nat) -> Seq<V> {
    Seq::new(n, |i: int| step(iterate(step, s, i as nat)).0)
}

/// A fill of `len` bytes from 32-bit steps: each step gives four bytes, least
/// significant first, and the last step only as many as remain. With the bytes
/// comes the state after as many steps as the fill takes.
pub open spec fn fill_u32<S>(step: spec_fn(S) -> (u32, S), s: S, len: nat) -> (Seq<u8>, S) {
    (
        Seq::new(len, |i: int| spec_u32_le_bytes(step(iterate(step, s, (i / 4) as nat)).0)[i % 4]),
        iterate(step, s, (len + 3) / 4),
    )
}

/// A fill of `len` bytes from 64-bit steps: each step gives eight bytes, least
/// significant first, and the last step only as many as remain. With the bytes
/// comes the state after as many steps as the fill takes.
pub open spec fn fill_u64<S>(step: spec_fn(S) -> (u64, S), s: S, len: nat) -> (Seq<u8>, S) {
    (
        Seq::new(len, |i: int| spec_u64_le_bytes(step(iterate(step, s, (i / 8) as nat)).0)[i % 8]),
        iterate(step, s, (len + 7) / 8),
    )
}

/// What an algorithm implements: a 64-bit draw, a 32-bit draw and a fill of bytes.
///
/// Each draw is a function of the generator's state: the specification
/// functions give, for a state, the value drawn and the state left behind.
/// The executable methods return that value and leave that state. An
/// implementation defines the specification functions; where it does not,
/// they stand for values that nothing is known of.
///
/// An algorithm that draws words natively can fill bytes with
/// `bytes_from_u32` or `bytes_from_u64`; one that draws bytes natively can
/// make words with `u32_from_bytes` and `u64_from_bytes`.
pub trait RandomImpl: Sized {
    /// Whether the generator can draw from this state.
    open spec fn valid(&self) -> bool {
        arbitrary()
    }

    /// The next 64-bit value, and the state after drawing it.
    open spec fn draw_u64(&self) -> (u64, Self) {
        arbitrary()
    }

    /// The next 32-bit value, and the state after drawing it.
    open spec fn draw_u32(&self) -> (u32, Self) {
        arbitrary()
    }

    /// The bytes that fill a buffer of `len` bytes, and the state after filling it.
    open spec fn draw_bytes(&self, len: nat) -> (Seq<u8>, Self) {
        arbitrary()
    }

    /// Returns a new `u64`.
    fn random_u64(&mut self) -> (r: u64)
        requires
            old(self).valid(),
        ensures
            final(self).valid(),
            r == old(self).draw_u64().0,
            *final(self) == old(self).draw_u64().1,
    ;

    /// Returns a new `u32`.
    fn random_u32(&mut self) -> (r: u32)
        requires
            old(self).valid(),
        ensures
            final(self).valid(),
            r == old(self).draw_u32().0,
            *final(self) == old(self).draw_u32().1,
    ;

    /// Fills a buffer with new values.
    fn random_bytes(&mut self, dst: &mut [u8])
        requires
            old(self).valid(),
        ensures
            final(self).valid(),
            final(dst)@.len() == old(dst)@.len(),
            final(dst)@ == old(self).draw_bytes(old(dst)@.len()).0,
            *final(self) == old(self).draw_bytes(old(dst)@.len()).1,
    ;

    /// Fill a buffer with values from `random_u32`, in little-endian order.
    ///
    /// One value is drawn for every four bytes, and one more for a rest of one to
    /// three bytes, of which the low-order bytes are written and the others dropped.
    fn bytes_from_u32(&mut self, dst: &mut [u8])
        requires
            old(self).valid(),
        ensures
            final(self).valid(),
            final(dst)@.len() == old(dst)@.len(),
            final(dst)@ == fill_u32(|s: Self| s.draw_u32(), *old(self), old(dst)@.len()).0,
            *final(self) == fill_u32(|s: Self| s.draw_u32(), *old(self), old(dst)@.len()).1,
    {
        let ghost step = |s: Self| s.draw_u32();
        let ghost goal = fill_u32(step, *old(self), old(dst)@.len()).0;
        let len: usize = dst.len();
        let chunks: usize = len / 4;
        let mut c: usize = 0;
        while c < chunks
            invariant
                c <= chunks,
                chunks == len / 4,
                dst@.len() == len,
                self.valid(),
                step == |s: Self| s.draw_u32(),
                goal == fill_u32(step, *old(self), len as nat).0,
                *self == iterate(step, *old(self), c as nat),
                forall|i: int| 0 <= i < 4 * c ==> dst@[i] == goal[i],
            decreases chunks - c,
        {
            let word: [u8; 4] = u32_le_bytes(self.random_u32());
            let base: usize = 4 * c;
            dst[base] = word[0];
            dst[base + 1] = word[1];
            dst[base + 2] = word[2];
            dst[base + 3] = word[3];
            c += 1;
        }
        let rest: usize = len % 4;
        if rest == 0 {
            assert(dst@ =~= goal);
            return ;
        }
        let last: [u8; 4] = u32_le_bytes(self.random_u32());
        let base: usize = 4 * chunks;
        let mut k: usize = 0;
        while k < rest
            invariant
                k <= rest,
                rest == len % 4,
                base == 4 * chunks,
                chunks == len / 4,
                dst@.len() == len,
                goal == fill_u32(step, *old(self), len as nat).0,
                last@ == spec_u32_le_bytes(step(iterate(step, *old(self), chunks as nat)).0),
                forall|i: int| 0 <= i < base + k ==> dst@[i] == goal[i],
            decreases rest - k,
        {
            dst[base + k] = last[k];
            k += 1;
        }
        assert(dst@ =~= goal);
    }

    /// Fill a buffer with values from `random_u64`, in little-endian order.
    ///
    /// One value is drawn for every eight bytes, and one more for a rest of one to
    /// seven bytes, of which the low-order bytes are written and the others dropped.
    fn bytes_from_u64(&mut self, dst: &mut [u8])
        requires
            old(self).valid(),
        ensures
            final(self).valid(),
            final(dst)@.len() == old(dst)@.len(),
            final(dst)@ == fill_u64(|s: Self| s.draw_u64(), *old(self), old(dst)@.len()).0,
            *final(self) == fill_u64(|s: Self| s.draw_u64(), *old(self), old(dst)@.len()).1,
    {
        let ghost step = |s: Self| s.draw_u64();
        let ghost goal = fill_u64(step, *old(self), old(dst)@.len()).0;
        let len: usize = dst.len();
        let chunks: usize = len / 8;
        let mut c: usize = 0;
        while c < chunks
            invariant
                c <= chunks,
                chunks == len / 8,
                dst@.len() == len,
                self.valid(),
                step == |s: Self| s.draw_u64(),
                goal == fill_u64(step, *old(self), len as nat).0,
                *self == iterate(step, *old(self), c as nat),
                forall|i: int| 0 <= i < 8 * c ==> dst@[i] == goal[i],
            decreases chunks - c,
        {
            let word: [u8; 8] = u64_le_bytes(self.random_u64());
            let base: usize = 8 * c;
            let mut k: usize = 0;
            while k < 8
                invariant
                    k <= 8,
                    c < chunks,
                    base == 8 * c,
                    chunks == len / 8,
                    dst@.len() == len,
                    goal == fill_u64(step, *old(self), len as nat).0,
                    word@ == spec_u64_le_bytes(step(iterate(step, *old(self), c as nat)).0),
                    forall|i: int| 0 <= i < base + k ==> dst@[i] == goal[i],
                decreases 8 - k,
            {
                dst[base + k] = word[k];
                k += 1;
            }
            c += 1;
        }
        let rest: usize = len % 8;
        if rest == 0 {
            assert(dst@ =~= goal);
            return ;
        }
        let last: [u8; 8] = u64_le_bytes(self.random_u64());
        let base: usize = 8 * chunks;
        let mut k: usize = 0;
        while k < rest
            invariant
                k <= rest,
                rest == len % 8,
                base == 8 * chunks,
                chunks == len / 8,
                dst@.len() == len,
                goal == fill_u64(step, *old(self), len as nat).0,
                last@ == spec_u64_le_bytes(step(iterate(step, *old(self), chunks as nat)).0),
                forall|i: int| 0 <= i < base + k ==> dst@[i] == goal[i],
            decreases rest - k,
        {
            dst[base + k] = last[k];
            k += 1;
        }
        assert(dst@ =~= goal);
    }

    /// Construct a `u64` from eight bytes of `random_bytes`, in little-endian order.
    fn u64_from_bytes(&mut self) -> (r: u64)
        requires
            old(self).valid(),
        ensures
            final(self).valid(),
            r == spec_u64_from_le_bytes(old(self).draw_bytes(8).0),
            *final(self) == old(self).draw_bytes(8).1,
    {
        let mut bytes: [u8; 8] = [0u8; 8];
        self.random_bytes(&mut bytes);
        (bytes[0] as u64) | (bytes[1] as u64) << 8 | (bytes[2] as u64) << 16 | (bytes[3] as u64)
            << 24 | (bytes[4] as u64) << 32 | (bytes[5] as u64) << 40 | (bytes[6] as u64) << 48 | (
        bytes[7] as u64) << 56
    }

    /// Construct a `u32` from four bytes of `random_bytes`, in little-endian order.
    fn u32_from_bytes(&mut self) -> (r: u32)
        requires
            old(self).valid(),
        ensures
            final(self).valid(),
            r == spec_u32_from_le_bytes(old(self).draw_bytes(4).0),
            *final(self) == old(self).draw_bytes(4).1,
    {
        let mut bytes: [u8; 4] = [0u8; 4];
        self.random_bytes(&mut bytes);
        (bytes[0] as u32) | (bytes[1] as u32) << 8 | (bytes[2] as u32) << 16 | (bytes[3] as u32)
            << 24
    }
}

/// The state of `r` after `n` 32-bit draws.
pub open spec fn after_u32<R: RandomImpl>(r: R, n: nat) -> R {
    iterate(|s: R| s.draw_u32(), r, n)
}

/// The state of `r` after `n` 64-bit draws.
pub open spec fn after_u64<R: RandomImpl>(r: R, n: nat) -> R {
    iterate(|s: R| s.draw_u64(), r, n)
}

/// The values of the next `n` 32-bit draws of `r`, in the order drawn.
pub open spec fn values_u32<R: RandomImpl>(r: R, n: nat) -> Seq<u32> {
    values(|s: R| s.draw_u32(), r, n)
}

/// The values of the next `n` 64-bit draws of `r`, in the order drawn.
pub open spec fn values_u64<R: RandomImpl>(r: R, n: nat) -> Seq<u64> {
    values(|s: R| s.draw_u64(), r, n)
}

/// After `m` draws and `n` more, a generator stands where `m + n` draws leave it.
pub proof fn lemma_after_u32_add<R: RandomImpl>(r: R, m: nat, n: nat)
    ensures
        after_u32(after_u32(r, m), n) == after_u32(r, m + n),
    decreases n,
{
    if n > 0 {
        lemma_after_u32_add(r, m, (n - 1) as nat);
    }
}

/// After `m` draws and `n` more, a generator stands where `m + n` draws leave it.
pub proof fn lemma_after_u64_add<R: RandomImpl>(r: R, m: nat, n: nat)
    ensures
        after_u64(after_u64(r, m), n) == after_u64(r, m + n),
    decreases n,
{
    if n > 0 {
        lemma_after_u64_add(r, m, (n - 1) as nat);
    }
}

/// The next `m` values and the `n` after them are the next `m + n` values.
pub proof fn lemma_values_u64_add<R: RandomImpl>(r: R, m: nat, n: nat)
    ensures
        values_u64(r, m) + values_u64(after_u64(r, m), n) == values_u64(r, m + n),
{
    let both = values_u64(r, m + n);
    let joined = values_u64(r, m) + values_u64(after_u64(r, m), n);
    assert forall|i: int| 0 <= i < m + n implies joined[i] == both[i] by {
        if i >= m {
            lemma_after_u64_add(r, m, (i - m) as nat);
        }
    }
    assert(joined =~= both);
}

/// A 128-bit draw: two 64-bit draws, the first being the high half.
pub open spec fn draw_u128<R: RandomImpl>(r: R) -> (u128, R) {
    let (hi, r1) = r.draw_u64();
    let (lo, r2) = r1.draw_u64();
    (spec_u64_compose_u128(hi, lo), r2)
}

/// A 16-bit draw: the low 16 bits of a 32-bit draw.
pub open spec fn draw_u16<R: RandomImpl>(r: R) -> (u16, R) {
    (r.draw_u32().0 as u16, r.draw_u32().1)
}

/// An 8-bit draw: the low 8 bits of a 32-bit draw.
pub open spec fn draw_u8<R: RandomImpl>(r: R) -> (u8, R) {
    (r.draw_u32().0 as u8, r.draw_u32().1)
}

/// A boolean draw: whether a 32-bit draw is odd.
pub open spec fn draw_bool<R: RandomImpl>(r: R) -> (bool, R) {
    (r.draw_u32().0 & 1 == 1, r.draw_u32().1)
}

/// The values that a type takes from a generator, `n` of them one after the
/// other, and the state after the last.
pub open spec fn drawn_seq<T: FromRandom<R>, R: RandomImpl>(r: R, n: nat) -> (Seq<T>, R)
    decreases n,
{
    if n == 0 {
        (Seq::empty(), r)
    } else {
        let (s, r1) = drawn_seq::<T, R>(r, (n - 1) as nat);
        let (v, r2) = T::drawn(r1);
        (s.push(v), r2)
    }
}

/// Randomized constructor: a type that can be made from the draws of a
/// generator of the type `R`.
///
/// It is implemented, for every generator, for the integers, `bool`, the
/// unit type, arrays and tuples of up to eight fields.
pub trait FromRandom<R: RandomImpl>: Sized {
    /// The value that is made from the generator `r`, and the state of `r` after it.
    open spec fn drawn(r: R) -> (Self, R) {
        arbitrary()
    }

    /// Make a value from the draws of `random`.
    fn from_random(random: &mut R) -> (v: Self)
        requires
            old(random).valid(),
        ensures
            final(random).valid(),
            v == Self::drawn(*old(random)).0,
            *final(random) == Self::drawn(*old(random)).1,
    ;
}

/// Two 64-bit draws, the first being the high half.
impl<R: RandomImpl> FromRandom<R> for u128 {
    open spec fn drawn(r: R) -> (Self, R) {
        draw_u128(r)
    }

    fn from_random(random: &mut R) -> (v: Self) {
        let hi: u64 = random.random_u64();
        let lo: u64 = random.random_u64();
        u64_compose_u128(hi, lo)
    }
}

/// The bit pattern of a `u128`, read as signed.
impl<R: RandomImpl> FromRandom<R> for i128 {
    open spec fn drawn(r: R) -> (Self, R) {
        (draw_u128(r).0 as i128, draw_u128(r).1)
    }

    fn from_random(random: &mut R) -> (v: Self) {
        let hi: u64 = random.random_u64();
        let lo: u64 = random.random_u64();
        u64_compose_u128(hi, lo) as i128
    }
}

/// One 64-bit draw.
impl<R: RandomImpl> FromRandom<R> for u64 {
    open spec fn drawn(r: R) -> (Self, R) {
        r.draw_u64()
    }

    fn from_random(random: &mut R) -> (v: Self) {
        random.random_u64()
    }
}

/// The bit pattern of a `u64`, read as signed.
impl<R: RandomImpl> FromRandom<R> for i64 {
    open spec fn drawn(r: R) -> (Self, R) {
        (r.draw_u64().0 as i64, r.draw_u64().1)
    }

    fn from_random(random: &mut R) -> (v: Self) {
        random.random_u64() as i64
    }
}

/// One 32-bit draw.
impl<R: RandomImpl> FromRandom<R> for u32 {
    open spec fn drawn(r: R) -> (Self, R) {
        r.draw_u32()
    }

    fn from_random(random: &mut R) -> (v: Self) {
        random.random_u32()
    }
}

/// The bit pattern of a `u32`, read as signed.
impl<R: RandomImpl> FromRandom<R> for i32 {
    open spec fn drawn(r: R) -> (Self, R) {
        (r.draw_u32().0 as i32, r.draw_u32().1)
    }

    fn from_random(random: &mut R) -> (v: Self) {
        random.random_u32() as i32
    }
}

/// The low 16 bits of a 32-bit draw.
impl<R: RandomImpl> FromRandom<R> for u16 {
    open spec fn drawn(r: R) -> (Self, R) {
        draw_u16(r)
    }

    fn from_random(random: &mut R) -> (v: Self) {
        random.random_u32() as u16
    }
}

/// The bit pattern of a `u16`, read as signed.
impl<R: RandomImpl> FromRandom<R> for i16 {
    open spec fn drawn(r: R) -> (Self, R) {
        (draw_u16(r).0 as i16, draw_u16(r).1)
    }

    fn from_random(random: &mut R) -> (v: Self) {
        random.random_u32() as u16 as i16
    }
}

/// The low 8 bits of a 32-bit draw.
impl<R: RandomImpl> FromRandom<R> for u8 {
    open spec fn drawn(r: R) -> (Self, R) {
        draw_u8(r)
    }

    fn from_random(random: &mut R) -> (v: Self) {
        random.random_u32() as u8
    }
}

/// The bit pattern of a `u8`, read as signed.
impl<R: RandomImpl> FromRandom<R> for i8 {
    open spec fn drawn(r: R) -> (Self, R) {
        (draw_u8(r).0 as i8, draw_u8(r).1)
    }

    fn from_random(random: &mut R) -> (v: Self) {
        random.random_u32() as u8 as i8
    }
}

/// Whether a 32-bit draw is odd.
impl<R: RandomImpl> FromRandom<R> for bool {
    open spec fn drawn(r: R) -> (Self, R) {
        draw_bool(r)
    }

    fn from_random(random: &mut R) -> (v: Self) {
        random.random_u32() & 1 == 1
    }
}

/// The unit type takes no draw.
impl<R: RandomImpl> FromRandom<R> for () {
    open spec fn drawn(r: R) -> (Self, R) {
        ((), r)
    }

    fn from_random(random: &mut R) -> (v: Self) {
        ()
    }
}

/// `<[T; N]>::try_from` of std, on a vector of `N` elements: the array that
/// holds the vector's elements in their order.
#[verifier::external_body]
fn array_from_vec<T, const N: usize>(v: Vec<T>) -> (a: [T; N])
    requires
        v@.len() == N,
    ensures
        a@ == v@,
{
    <[T; N]>::try_from(v).ok().unwrap()
}

/// An array takes its elements one after the other, in the order of their index.
impl<R: RandomImpl, T: FromRandom<R>, const N: usize> FromRandom<R> for [T; N] {
    open spec fn drawn(r: R) -> (Self, R) {
        (spec_array(drawn_seq::<T, R>(r, N as nat).0), drawn_seq::<T, R>(r, N as nat).1)
    }

    fn from_random(random: &mut R) -> (v: Self) {
        let mut items: Vec<T> = Vec::new();
        let mut i: usize = 0;
        while i < N
            invariant
                i <= N,
                random.valid(),
                items@.len() == i,
                items@ == drawn_seq::<T, R>(*old(random), i as nat).0,
                *random == drawn_seq::<T, R>(*old(random), i as nat).1,
            decreases N - i,
        {
            let item: T = T::from_random(random);
            items.push(item);
            i += 1;
        }
        let v: [T; N] = array_from_vec(items);
        proof {
            lemma_spec_array(v);
        }
        v
    }
}

/// A tuple of one field takes that field.
impl<R: RandomImpl, A: FromRandom<R>> FromRandom<R> for (A,) {
    open spec fn drawn(r: R) -> (Self, R) {
        let (a, r1) = A::drawn(r);
        ((a,), r1)
    }

    fn from_random(random: &mut R) -> (v: Self) {
        let a: A = A::from_random(random);
        (a,)
    }
}

/// A tuple takes its fields one after the other, the first field first.
impl<R: RandomImpl, A: FromRandom<R>, B: FromRandom<R>> FromRandom<R> for (A, B) {
    open spec fn drawn(r: R) -> (Self, R) {
        let (a, r1) = A::drawn(r);
        let (b, r2) = B::drawn(r1);
        ((a, b), r2)
    }

    fn from_random(random: &mut R) -> (v: Self) {
        let a: A = A::from_random(random);
        let b: B = B::from_random(random);
        (a, b)
    }
}

/// A tuple takes its fields one after the other, the first field first.
impl<
    R: RandomImpl,
    A: FromRandom<R>,
    B: FromRandom<R>,
    C: FromRandom<R>,
> FromRandom<R> for (A, B, C) {
    open spec fn drawn(r: R) -> (Self, R) {
        let (a, r1) = A::drawn(r);
        let (b, r2) = B::drawn(r1);
        let (c, r3) = C::drawn(r2);
        ((a, b, c), r3)
    }

    fn from_random(random: &mut R) -> (v: Self) {
        let a: A = A::from_random(random);
        let b: B = B::from_random(random);
        let c: C = C::from_random(random);
        (a, b, c)
    }
}

/// A tuple takes its fields one after the other, the first field first.
impl<
    R: RandomImpl,
    A: FromRandom<R>,
    B: FromRandom<R>,
    C: FromRandom<R>,
    D: FromRandom<R>,
> FromRandom<R> for (A, B, C, D) {
    open spec fn drawn(r: R) -> (Self, R) {
        let (a, r1) = A::drawn(r);
        let (b, r2) = B::drawn(r1);
        let (c, r3) = C::drawn(r2);
        let (d, r4) = D::drawn(r3);
        ((a, b, c, d), r4)
    }

    fn from_random(random: &mut R) -> (v: Self) {
        let a: A = A::from_random(random);
        let b: B = B::from_random(random);
        let c: C = C::from_random(random);
        let d: D = D::from_random(random);
        (a, b, c, d)
    }
}

/// A tuple takes its fields one after the other, the first field first.
impl<
    R: RandomImpl,
    A: FromRandom<R>,
    B: FromRandom<R>,
    C: FromRandom<R>,
    D: FromRandom<R>,
    E: FromRandom<R>,
> FromRandom<R> for (A, B, C, D, E) {
    open spec fn drawn(r: R) -> (Self, R) {
        let (a, r1) = A::drawn(r);
        let (b, r2) = B::drawn(r1);
        let (c, r3) = C::drawn(r2);
        let (d, r4) = D::drawn(r3);
        let (e, r5) = E::drawn(r4);
        ((a, b, c, d, e), r5)
    }

    fn from_random(random: &mut R) -> (v: Self) {
        let a: A = A::from_random(random);
        let b: B = B::from_random(random);
        let c: C = C::from_random(random);
        let d: D = D::from_random(random);
        let e: E = E::from_random(random);
        (a, b, c, d, e)
    }
}

/// A tuple takes its fields one after the other, the first field first.
impl<
    R: RandomImpl,
    A: FromRandom<R>,
    B: FromRandom<R>,
    C: FromRandom<R>,
    D: FromRandom<R>,
    E: FromRandom<R>,
    F: FromRandom<R>,
> FromRandom<R> for (A, B, C, D, E, F) {
    open spec fn drawn(r: R) -> (Self, R) {
        let (a, r1) = A::drawn(r);
        let (b, r2) = B::drawn(r1);
        let (c, r3) = C::drawn(r2);
        let (d, r4) = D::drawn(r3);
        let (e, r5) = E::drawn(r4);
        let (f, r6) = F::drawn(r5);
        ((a, b, c, d, e, f), r6)
    }

    fn from_random(random: &mut R) -> (v: Self) {
        let a: A = A::from_random(random);
        let b: B = B::from_random(random);
        let c: C = C::from_random(random);
        let d: D = D::from_random(random);
        let e: E = E::from_random(random);
        let f: F = F::from_random(random);
        (a, b, c, d, e, f)
    }
}

/// A tuple takes its fields one after the other, the first field first.
impl<
    R: RandomImpl,
    A: FromRandom<R>,
    B: FromRandom<R>,
    C: FromRandom<R>,
    D: FromRandom<R>,
    E: FromRandom<R>,
    F: FromRandom<R>,
    G: FromRandom<R>,
> FromRandom<R> for (A, B, C, D, E, F, G) {
    open spec fn drawn(r: R) -> (Self, R) {
        let (a, r1) = A::drawn(r);
        let (b, r2) = B::drawn(r1);
        let (c, r3) = C::drawn(r2);
        let (d, r4) = D::drawn(r3);
        let (e, r5) = E::drawn(r4);
        let (f, r6) = F::drawn(r5);
        let (g, r7) = G::drawn(r6);
        ((a, b, c, d, e, f, g), r7)
    }

    fn from_random(random: &mut R) -> (v: Self) {
        let a: A = A::from_random(random);
        let b: B = B::from_random(random);
        let c: C = C::from_random(random);
        let d: D = D::from_random(random);
        let e: E = E::from_random(random);
        let f: F = F::from_random(random);
        let g: G = G::from_random(random);
        (a, b, c, d, e, f, g)
    }
}

/// A tuple takes its fields one after the other, the first field first.
impl<
    R: RandomImpl,
    A: FromRandom<R>,
    B: FromRandom<R>,
    C: FromRandom<R>,
    D: FromRandom<R>,
    E: FromRandom<R>,
    F: FromRandom<R>,
    G: FromRandom<R>,
    H: FromRandom<R>,
> FromRandom<R> for (A, B, C, D, E, F, G, H) {
    open spec fn drawn(r: R) -> (Self, R) {
        let (a, r1) = A::drawn(r);
        let (b, r2) = B::drawn(r1);
        let (c, r3) = C::drawn(r2);
        let (d, r4) = D::drawn(r3);
        let (e, r5) = E::drawn(r4);
        let (f, r6) = F::drawn(r5);
        let (g, r7) = G::drawn(r6);
        let (h, r8) = H::drawn(r7);
        ((a, b, c, d, e, f, g, h), r8)
    }

    fn from_random(random: &mut R) -> (v: Self) {
        let a: A = A::from_random(random);
        let b: B = B::from_random(random);
        let c: C = C::from_random(random);
        let d: D = D::from_random(random);
        let e: E = E::from_random(random);
        let f: F = F::from_random(random);
        let g: G = G::from_random(random);
        let h: H = H::from_random(random);
        (a, b, c, d, e, f, g, h)
    }
}

/// The threshold of rejection for values below `range` and a bound: the
/// remainder that is left where `range` is cut into spans of `bound`. Draws
/// below it are rejected, so that as many accepted draws fall on each residue.
pub open spec fn threshold(range: int, bound: int) -> int {
    (range - bound) % bound
}

/// The threshold of rejection for `u128` values and `bound`: `2^128` modulo
/// `bound`, computed within 128 bits as the remainder of `-bound`.
pub fn threshold_u128(bound: u128) -> (r: u128)
    requires
        bound > 0,
    ensures
        r == threshold(0x1_0000_0000_0000_0000_0000_0000_0000_0000int, bound as int),
        r == 0x1_0000_0000_0000_0000_0000_0000_0000_0000int % (bound as int),
        r < bound,
{
    proof {
        law_no_modulo_bias(0x1_0000_0000_0000_0000_0000_0000_0000_0000int, bound as int);
    }
    0u128.wrapping_sub(bound) % bound
}

/// The threshold of rejection for `u64` values and `bound`: `2^64` modulo
/// `bound`, computed within 64 bits as the remainder of `-bound`.
pub fn threshold_u64(bound: u64) -> (r: u64)
    requires
        bound > 0,
    ensures
        r == threshold(0x1_0000_0000_0000_0000int, bound as int),
        r == 0x1_0000_0000_0000_0000int % (bound as int),
        r < bound,
{
    proof {
        law_no_modulo_bias(0x1_0000_0000_0000_0000int, bound as int);
    }
    0u64.wrapping_sub(bound) % bound
}

/// The threshold of rejection for `u32` values and `bound`: `2^32` modulo
/// `bound`, computed within 32 bits as the remainder of `-bound`.
pub fn threshold_u32(bound: u32) -> (r: u32)
    requires
        bound > 0,
    ensures
        r == threshold(0x1_0000_0000, bound as int),
        r == 0x1_0000_0000int % (bound as int),
        r < bound,
{
    proof {
        law_no_modulo_bias(0x1_0000_0000, bound as int);
    }
    0u32.wrapping_sub(bound) % bound
}

/// The threshold of rejection for `u16` values and `bound`: `2^16` modulo
/// `bound`, computed within 16 bits as the remainder of `-bound`.
pub fn threshold_u16(bound: u16) -> (r: u16)
    requires
        bound > 0,
    ensures
        r == threshold(0x1_0000, bound as int),
        r == 0x1_0000int % (bound as int),
        r < bound,
{
    proof {
        law_no_modulo_bias(0x1_0000, bound as int);
    }
    0u16.wrapping_sub(bound) % bound
}

/// The threshold of rejection for `u8` values and `bound`: `2^8` modulo
/// `bound`, computed within 8 bits as the remainder of `-bound`.
pub fn threshold_u8(bound: u8) -> (r: u8)
    requires
        bound > 0,
    ensures
        r == threshold(0x100, bound as int),
        r == 0x100int % (bound as int),
        r < bound,
{
    proof {
        law_no_modulo_bias(0x100, bound as int);
    }
    0u8.wrapping_sub(bound) % bound
}

/// Whether draw number `n` of `u128` values, counted from 0, is accepted for `bound`.
pub open spec fn accepted_u128<R: RandomImpl>(r: R, bound: u128, n: nat) -> bool {
    draw_u128(after_u64(r, 2 * n)).0 >= threshold(0x1_0000_0000_0000_0000_0000_0000_0000_0000int, bound as int)
}

/// Whether draw number `n` of `u128` values is the first that is accepted for `bound`.
pub open spec fn first_accepted_u128<R: RandomImpl>(r: R, bound: u128, n: nat) -> bool {
    accepted_u128(r, bound, n) && forall|m: nat| m < n ==> !accepted_u128(r, bound, m)
}

/// Whether draw number `n` of `u64` values, counted from 0, is accepted for `bound`.
pub open spec fn accepted_u64<R: RandomImpl>(r: R, bound: u64, n: nat) -> bool {
    after_u64(r, n).draw_u64().0 >= threshold(0x1_0000_0000_0000_0000int, bound as int)
}

/// Whether draw number `n` of `u64` values is the first that is accepted for `bound`.
pub open spec fn first_accepted_u64<R: RandomImpl>(r: R, bound: u64, n: nat) -> bool {
    accepted_u64(r, bound, n) && forall|m: nat| m < n ==> !accepted_u64(r, bound, m)
}

/// Whether draw number `n` of `u32` values, counted from 0, is accepted for `bound`.
pub open spec fn accepted_u32<R: RandomImpl>(r: R, bound: u32, n: nat) -> bool {
    after_u32(r, n).draw_u32().0 >= threshold(0x1_0000_0000, bound as int)
}

/// Whether draw number `n` of `u32` values is the first that is accepted for `bound`.
pub open spec fn first_accepted_u32<R: RandomImpl>(r: R, bound: u32, n: nat) -> bool {
    accepted_u32(r, bound, n) && forall|m: nat| m < n ==> !accepted_u32(r, bound, m)
}

/// Whether draw number `n` of `u16` values, counted from 0, is accepted for `bound`.
pub open spec fn accepted_u16<R: RandomImpl>(r: R, bound: u16, n: nat) -> bool {
    draw_u16(after_u32(r, n)).0 >= threshold(0x1_0000, bound as int)
}

/// Whether draw number `n` of `u16` values is the first that is accepted for `bound`.
pub open spec fn first_accepted_u16<R: RandomImpl>(r: R, bound: u16, n: nat) -> bool {
    accepted_u16(r, bound, n) && forall|m: nat| m < n ==> !accepted_u16(r, bound, m)
}

/// Whether draw number `n` of `u8` values, counted from 0, is accepted for `bound`.
pub open spec fn accepted_u8<R: RandomImpl>(r: R, bound: u8, n: nat) -> bool {
    draw_u8(after_u32(r, n)).0 >= threshold(0x100, bound as int)
}

/// Whether draw number `n` of `u8` values is the first that is accepted for `bound`.
pub open spec fn first_accepted_u8<R: RandomImpl>(r: R, bound: u8, n: nat) -> bool {
    accepted_u8(r, bound, n) && forall|m: nat| m < n ==> !accepted_u8(r, bound, m)
}

/// Everything that is derived from the three draws of a generator. Every
/// generator has it, and no type can implement it otherwise.
pub trait Random: RandomImpl {
    /// Keeps the right to implement `Random` with this crate.
    fn __random_sealed(seal: Seal);

    /// Returns a new random value of the type `T`.
    fn random<T: FromRandom<Self>>(&mut self) -> (v: T)
        requires
            old(self).valid(),
        ensures
            final(self).valid(),
            v == T::drawn(*old(self)).0,
            *final(self) == T::drawn(*old(self)).1,
    {
        T::from_random(self)
    }

    /// Returns the bits of a new 64-bit float in `[1, 2)`: the low 52 bits of
    /// a 64-bit draw under the exponent of 1. That float less 1 is a random
    /// float in `[0, 1)`.
    fn random_f64_bits(&mut self) -> (r: u64)
        requires
            old(self).valid(),
        ensures
            final(self).valid(),
            r == spec_u64_normalize_bits(old(self).draw_u64().0),
            *final(self) == old(self).draw_u64().1,
    {
        u64_normalize_bits(self.random_u64())
    }

    /// Returns the bits of a new 32-bit float in `[1, 2)`: the low 23 bits of
    /// a 32-bit draw under the exponent of 1. That float less 1 is a random
    /// float in `[0, 1)`.
    fn random_f32_bits(&mut self) -> (r: u32)
        requires
            old(self).valid(),
        ensures
            final(self).valid(),
            r == spec_u32_normalize_bits(old(self).draw_u32().0),
            *final(self) == old(self).draw_u32().1,
    {
        u32_normalize_bits(self.random_u32())
    }

    /// Returns a new `u128`: two 64-bit draws, the first being the high half.
    fn random_u128(&mut self) -> (r: u128)
        requires
            old(self).valid(),
        ensures
            final(self).valid(),
            r == draw_u128(*old(self)).0,
            *final(self) == draw_u128(*old(self)).1,
    {
        let hi: u64 = self.random_u64();
        let lo: u64 = self.random_u64();
        u64_compose_u128(hi, lo)
    }

    /// Returns a new `u16`: the low 16 bits of a 32-bit draw.
    fn random_u16(&mut self) -> (r: u16)
        requires
            old(self).valid(),
        ensures
            final(self).valid(),
            r == draw_u16(*old(self)).0,
            *final(self) == draw_u16(*old(self)).1,
    {
        self.random_u32() as u16
    }

    /// Returns a new `u8`: the low 8 bits of a 32-bit draw.
    fn random_u8(&mut self) -> (r: u8)
        requires
            old(self).valid(),
        ensures
            final(self).valid(),
            r == draw_u8(*old(self)).0,
            *final(self) == draw_u8(*old(self)).1,
    {
        self.random_u32() as u8
    }

    /// Returns a new `bool`: whether a 32-bit draw is odd.
    fn random_bool(&mut self) -> (r: bool)
        requires
            old(self).valid(),
        ensures
            final(self).valid(),
            r == draw_bool(*old(self)).0,
            *final(self) == draw_bool(*old(self)).1,
    {
        self.random_u32() & 1 == 1
    }

    /// Fill a buffer with random values of the type `T`, one for each slot, in the order of the slots.
    fn random_fill<T: FromRandom<Self>>(&mut self, dst: &mut [T])
        requires
            old(self).valid(),
        ensures
            final(self).valid(),
            final(dst)@ == drawn_seq::<T, Self>(*old(self), old(dst)@.len()).0,
            *final(self) == drawn_seq::<T, Self>(*old(self), old(dst)@.len()).1,
    {
        let len: usize = dst.len();
        let mut i: usize = 0;
        while i < len
            invariant
                i <= len,
                dst@.len() == len,
                self.valid(),
                dst@.take(i as int) == drawn_seq::<T, Self>(*old(self), i as nat).0,
                *self == drawn_seq::<T, Self>(*old(self), i as nat).1,
            decreases len - i,
        {
            let item: T = T::from_random(self);
            dst[i] = item;
            i += 1;
            assert(dst@.take(i as int) =~= dst@.take(i - 1).push(item));
        }
        assert(dst@.take(len as int) =~= dst@);
    }

    /// Returns a new `u128` below `bound`, every value as likely as any other.
    ///
    /// Values are drawn until one is at or above the threshold, and its
    /// remainder by `bound` is returned. The generator must draw such a value
    /// at some time: otherwise there is no end to the drawing.
    fn random_u128_bound(&mut self, bound: u128) -> (r: u128)
        requires
            old(self).valid(),
            bound > 0,
            exists|n: nat| accepted_u128(*old(self), bound, n),
        ensures
            final(self).valid(),
            r < bound,
            exists|n: nat|
                #![trigger first_accepted_u128(*old(self), bound, n)]
                first_accepted_u128(*old(self), bound, n) && r == draw_u128(after_u64(*old(self), 2 * n)).0 % bound
                    && *final(self) == draw_u128(after_u64(*old(self), 2 * n)).1,
    {
        let threshold: u128 = threshold_u128(bound);
        let ghost limit: nat = choose|n: nat| accepted_u128(*old(self), bound, n);
        let ghost mut count: nat = 0;
        loop
            invariant
                self.valid(),
                bound > 0,
                threshold == crate::random::threshold(0x1_0000_0000_0000_0000_0000_0000_0000_0000int, bound as int),
                *self == after_u64(*old(self), 2 * count),
                count <= limit,
                accepted_u128(*old(self), bound, limit),
                forall|m: nat| m < count ==> !accepted_u128(*old(self), bound, m),
            decreases limit - count,
        {
            let ghost before = *self;
            let x: u128 = self.random_u128();
            if x >= threshold {
                assert(first_accepted_u128(*old(self), bound, count));
                return x % bound;
            }
            proof {
                assert(after_u64(*old(self), 2 * count + 1) == before.draw_u64().1);
                assert(after_u64(*old(self), 2 * count + 2) == *self);
                count = count + 1;
            }
        }
    }

    /// Returns a new `u64` below `bound`, every value as likely as any other.
    ///
    /// Values are drawn until one is at or above the threshold, and its
    /// remainder by `bound` is returned. The generator must draw such a value
    /// at some time: otherwise there is no end to the drawing.
    fn random_u64_bound(&mut self, bound: u64) -> (r: u64)
        requires
            old(self).valid(),
            bound > 0,
            exists|n: nat| accepted_u64(*old(self), bound, n),
        ensures
            final(self).valid(),
            r < bound,
            exists|n: nat|
                #![trigger first_accepted_u64(*old(self), bound, n)]
                first_accepted_u64(*old(self), bound, n) && r == after_u64(*old(self), n).draw_u64().0 % bound
                    && *final(self) == after_u64(*old(self), n).draw_u64().1,
    {
        let threshold: u64 = threshold_u64(bound);
        let ghost limit: nat = choose|n: nat| accepted_u64(*old(self), bound, n);
        let ghost mut count: nat = 0;
        loop
            invariant
                self.valid(),
                bound > 0,
                threshold == crate::random::threshold(0x1_0000_0000_0000_0000int, bound as int),
                *self == after_u64(*old(self), count),
                count <= limit,
                accepted_u64(*old(self), bound, limit),
                forall|m: nat| m < count ==> !accepted_u64(*old(self), bound, m),
            decreases limit - count,
        {
            let x: u64 = self.random_u64();
            if x >= threshold {
                assert(first_accepted_u64(*old(self), bound, count));
                return x % bound;
            }
            proof {
                count = count + 1;
            }
        }
    }

    /// Returns a new `u32` below `bound`, every value as likely as any other.
    ///
    /// Values are drawn until one is at or above the threshold, and its
    /// remainder by `bound` is returned. The generator must draw such a value
    /// at some time: otherwise there is no end to the drawing.
    fn random_u32_bound(&mut self, bound: u32) -> (r: u32)
        requires
            old(self).valid(),
            bound > 0,
            exists|n: nat| accepted_u32(*old(self), bound, n),
        ensures
            final(self).valid(),
            r < bound,
            exists|n: nat|
                #![trigger first_accepted_u32(*old(self), bound, n)]
                first_accepted_u32(*old(self), bound, n) && r == after_u32(*old(self), n).draw_u32().0 % bound
                    && *final(self) == after_u32(*old(self), n).draw_u32().1,
    {
        let threshold: u32 = threshold_u32(bound);
        let ghost limit: nat = choose|n: nat| accepted_u32(*old(self), bound, n);
        let ghost mut count: nat = 0;
        loop
            invariant
                self.valid(),
                bound > 0,
                threshold == crate::random::threshold(0x1_0000_0000, bound as int),
                *self == after_u32(*old(self), count),
                count <= limit,
                accepted_u32(*old(self), bound, limit),
                forall|m: nat| m < count ==> !accepted_u32(*old(self), bound, m),
            decreases limit - count,
        {
            let x: u32 = self.random_u32();
            if x >= threshold {
                assert(first_accepted_u32(*old(self), bound, count));
                return x % bound;
            }
            proof {
                count = count + 1;
            }
        }
    }

    /// Returns a new `u16` below `bound`, every value as likely as any other.
    ///
    /// Values are drawn until one is at or above the threshold, and its
    /// remainder by `bound` is returned. The generator must draw such a value
    /// at some time: otherwise there is no end to the drawing.
    fn random_u16_bound(&mut self, bound: u16) -> (r: u16)
        requires
            old(self).valid(),
            bound > 0,
            exists|n: nat| accepted_u16(*old(self), bound, n),
        ensures
            final(self).valid(),
            r < bound,
            exists|n: nat|
                #![trigger first_accepted_u16(*old(self), bound, n)]
                first_accepted_u16(*old(self), bound, n) && r == draw_u16(after_u32(*old(self), n)).0 % bound
                    && *final(self) == draw_u16(after_u32(*old(self), n)).1,
    {
        let threshold: u16 = threshold_u16(bound);
        let ghost limit: nat = choose|n: nat| accepted_u16(*old(self), bound, n);
        let ghost mut count: nat = 0;
        loop
            invariant
                self.valid(),
                bound > 0,
                threshold == crate::random::threshold(0x1_0000, bound as int),
                *self == after_u32(*old(self), count),
                count <= limit,
                accepted_u16(*old(self), bound, limit),
                forall|m: nat| m < count ==> !accepted_u16(*old(self), bound, m),
            decreases limit - count,
        {
            let x: u16 = self.random_u16();
            if x >= threshold {
                assert(first_accepted_u16(*old(self), bound, count));
                return x % bound;
            }
            proof {
                count = count + 1;
            }
        }
    }

    /// Returns a new `u8` below `bound`, every value as likely as any other.
    ///
    /// Values are drawn until one is at or above the threshold, and its
    /// remainder by `bound` is returned. The generator must draw such a value
    /// at some time: otherwise there is no end to the drawing.
    fn random_u8_bound(&mut self, bound: u8) -> (r: u8)
        requires
            old(self).valid(),
            bound > 0,
            exists|n: nat| accepted_u8(*old(self), bound, n),
        ensures
            final(self).valid(),
            r < bound,
            exists|n: nat|
                #![trigger first_accepted_u8(*old(self), bound, n)]
                first_accepted_u8(*old(self), bound, n) && r == draw_u8(after_u32(*old(self), n)).0 % bound
                    && *final(self) == draw_u8(after_u32(*old(self), n)).1,
    {
        let threshold: u8 = threshold_u8(bound);
        let ghost limit: nat = choose|n: nat| accepted_u8(*old(self), bound, n);
        let ghost mut count: nat = 0;
        loop
            invariant
                self.valid(),
                bound > 0,
                threshold == crate::random::threshold(0x100, bound as int),
                *self == after_u32(*old(self), count),
                count <= limit,
                accepted_u8(*old(self), bound, limit),
                forall|m: nat| m < count ==> !accepted_u8(*old(self), bound, m),
            decreases limit - count,
        {
            let x: u8 = self.random_u8();
            if x >= threshold {
                assert(first_accepted_u8(*old(self), bound, count));
                return x % bound;
            }
            proof {
                count = count + 1;
            }
        }
    }

    /// Fill a buffer that need not hold values yet with random values of the
    /// type `T`, one for each slot, in the order of the slots. Afterwards
    /// every slot holds one.
    fn random_fill_uninit<T: FromRandom<Self>>(&mut self, dst: &mut [MaybeUninit<T>])
        requires
            old(self).valid(),
        ensures
            final(self).valid(),
            final(dst)@.len() == old(dst)@.len(),
            forall|i: int|
                #![trigger final(dst)@[i]]
                0 <= i < old(dst)@.len() ==> final(dst)@[i].as_option() == Some(
                    drawn_seq::<T, Self>(*old(self), old(dst)@.len()).0[i],
                ),
            *final(self) == drawn_seq::<T, Self>(*old(self), old(dst)@.len()).1,
    {
        let len: usize = dst.len();
        let mut i: usize = 0;
        while i < len
            invariant
                i <= len,
                dst@.len() == len,
                self.valid(),
                drawn_seq::<T, Self>(*old(self), i as nat).0.len() == i,
                forall|j: int|
                    #![trigger dst@[j]]
                    0 <= j < i ==> dst@[j].as_option() == Some(
                        drawn_seq::<T, Self>(*old(self), i as nat).0[j],
                    ),
                *self == drawn_seq::<T, Self>(*old(self), i as nat).1,
            decreases len - i,
        {
            let item: T = T::from_random(self);
            dst[i] = MaybeUninit::new(item);
            i += 1;
        }
    }

    /// Consume the generator and wrap it in an `Iter` that hands out values of the type `T`.
    fn random_into_iter<T: FromRandom<Self>>(self) -> (r: Iter<T, Self>)
        ensures
            r.inner == self,
    {
        Iter::new(self)
    }

    /// Consume the generator and wrap it in a `Buffer` of `N` values of the type `T`.
    fn random_into_buffer<T: FromRandom<Self>, const N: usize>(self) -> (r: Buffer<T, N, Self>)
        ensures
            r.inner == self,
            r.index == N,
            r.filled(),
    {
        Buffer::new(self)
    }

    /// Consume the generator and wrap it in a `Buffer8` of `N` bytes.
    fn random_into_buffer8<const N: usize>(self) -> (r: Buffer8<N, Self>)
        ensures
            r.inner == self,
            r.index == N,
    {
        Buffer8::new(self)
    }

    /// Consume the generator and wrap it in a `Crush` that writes `N` draws
    /// into `hasher` for every value.
    fn random_into_crush<const N: usize, H: Accumulator>(self, hasher: H) -> (r: Crush<N, Self, H>)
        ensures
            r.inner == self,
            r.hash == hasher,
    {
        Crush::new(self, hasher)
    }
}

impl<T: RandomImpl> Random for T {
    fn __random_sealed(seal: Seal) {
    }
}

/// As many draws are accepted for each residue of `bound`: the accepted draws
/// are those from the threshold up, and their number is a multiple of `bound`.
pub proof fn law_no_modulo_bias(range: int, bound: int)
    requires
        0 < bound < range,
    ensures
        0 <= threshold(range, bound) < bound,
        (range - threshold(range, bound)) % bound == 0,
        threshold(range, bound) == range % bound,
{
    vstd::arithmetic::div_mod::lemma_fundamental_div_mod(range - bound, bound);
    let q = (range - bound) / bound;
    let t = threshold(range, bound);
    assert(range - t == bound * (q + 1)) by (nonlinear_arith)
        requires
            range - bound == bound * q + t,
    ;
    vstd::arithmetic::div_mod::lemma_mod_multiples_basic(q + 1, bound);
    assert((bound * (q + 1)) % bound == 0) by {
        assert(bound * (q + 1) == (q + 1) * bound) by (nonlinear_arith);
    }
    vstd::arithmetic::div_mod::lemma_fundamental_div_mod_converse(range, bound, q + 1, t);
}

/// One request to a generator.
pub enum Request {
    /// A 32-bit draw.
    U32,
    /// A 64-bit draw.
    U64,
    /// A fill of so many bytes.
    Bytes(usize),
}

/// The bytes that answer one request, a value with its least significant
/// byte first, and the state after it.
pub open spec fn answer<R: RandomImpl>(r: R, request: Request) -> (Seq<u8>, R) {
    match request {
        Request::U32 => (spec_u32_le_bytes(r.draw_u32().0), r.draw_u32().1),
        Request::U64 => (spec_u64_le_bytes(r.draw_u64().0), r.draw_u64().1),
        Request::Bytes(len) => r.draw_bytes(len as nat),
    }
}

/// The bytes that answer a sequence of requests, in one row, and the state after the last.
pub open spec fn answers<R: RandomImpl>(r: R, requests: Seq<Request>) -> (Seq<u8>, R)
    decreases requests.len(),
{
    if requests.len() == 0 {
        (Seq::empty(), r)
    } else {
        let (before, r1) = answers(r, requests.drop_last());
        let (last, r2) = answer(r1, requests.last());
        (before + last, r2)
    }
}

/// Two generators in the same state answer the same requests with the same
/// bytes, and are in the same state afterwards. A constructor makes the state
/// from the seed alone, so the same seed gives the same stream.
pub proof fn law_same_state_same_stream<R: RandomImpl>(a: R, b: R, requests: Seq<Request>)
    requires
        a == b,
    ensures
        answers(a, requests) == answers(b, requests),
{
}

} // verus!
