//! Helpers for composing integers out of narrower ones and for replacing a
//! zero seed, meant for implementing generators.

use vstd::prelude::*;
use crate::random::RandomImpl;
use crate::random::after_u32;
use crate::random::after_u64;
use crate::random::fill_u32;
use crate::random::fill_u64;

verus! {

/// The 16-bit value whose high byte is `x` and whose low byte is `y`.
pub open spec fn spec_u8_compose_u16(x: u8, y: u8) -> u16 {
    (x as u16) << 8 | (y as u16)
}

/// The 32-bit value whose high half is `x` and whose low half is `y`.
pub open spec fn spec_u16_compose_u32(x: u16, y: u16) -> u32 {
    (x as u32) << 16 | (y as u32)
}

/// The 64-bit value whose high half is `x` and whose low half is `y`.
pub open spec fn spec_u32_compose_u64(x: u32, y: u32) -> u64 {
    (x as u64) << 32 | (y as u64)
}

/// The 128-bit value whose high half is `x` and whose low half is `y`.
pub open spec fn spec_u64_compose_u128(x: u64, y: u64) -> u128 {
    (x as u128) << 64 | (y as u128)
}

/// Construct a `u128` from two `u64`, the first being the high half.
pub fn u64_compose_u128(x: u64, y: u64) -> (r: u128)
    ensures
        r == spec_u64_compose_u128(x, y),
        r == x * 0x1_0000_0000_0000_0000 + y,
{
    assert(((x as u128) << 64 | (y as u128)) == (x as u128) * 0x1_0000_0000_0000_0000 + (y as u128))
        by (bit_vector);
    (x as u128) << 64 | y as u128
}

/// Construct a `u64` from two `u32`, the first being the high half.
pub fn u32_compose_u64(x: u32, y: u32) -> (r: u64)
    ensures
        r == spec_u32_compose_u64(x, y),
        r == x * 0x1_0000_0000 + y,
{
    assert(((x as u64) << 32 | (y as u64)) == (x as u64) * 0x1_0000_0000 + (y as u64))
        by (bit_vector);
    (x as u64) << 32 | y as u64
}

/// Construct a `u32` from two `u16`, the first being the high half.
pub fn u16_compose_u32(x: u16, y: u16) -> (r: u32)
    ensures
        r == spec_u16_compose_u32(x, y),
        r == x * 0x1_0000 + y,
{
    assert(((x as u32) << 16 | (y as u32)) == (x as u32) * 0x1_0000 + (y as u32)) by (bit_vector);
    (x as u32) << 16 | y as u32
}

/// Construct a `u16` from two `u8`, the first being the high byte.
pub fn u8_compose_u16(x: u8, y: u8) -> (r: u16)
    ensures
        r == spec_u8_compose_u16(x, y),
        r == x * 0x100 + y,
{
    assert(((x as u16) << 8 | (y as u16)) == (x as u16) * 0x100 + (y as u16)) by (bit_vector);
    (x as u16) << 8 | y as u16
}

/// `x`, or 1 where `x` is zero.
pub open spec fn spec_u64_or_1(x: u64) -> u64 {
    if x == 0 { 1 } else { x }
}

/// `x`, or 1 where `x` is zero.
pub open spec fn spec_u32_or_1(x: u32) -> u32 {
    if x == 0 { 1 } else { x }
}

/// `x`, or 1 where `x` is zero.
pub open spec fn spec_u16_or_1(x: u16) -> u16 {
    if x == 0 { 1 } else { x }
}

/// `x`, or 1 where `x` is zero.
pub open spec fn spec_u8_or_1(x: u8) -> u8 {
    if x == 0 { 1 } else { x }
}

/// Replace a zero seed by 1 and keep any other.
pub fn u64_or_1(x: u64) -> (r: u64)
    ensures
        r == spec_u64_or_1(x),
        r != 0,
{
    if x == 0 { 1 } else { x }
}

/// Replace a zero seed by 1 and keep any other.
pub fn u32_or_1(x: u32) -> (r: u32)
    ensures
        r == spec_u32_or_1(x),
        r != 0,
{
    if x == 0 { 1 } else { x }
}

/// Replace a zero seed by 1 and keep any other.
pub fn u16_or_1(x: u16) -> (r: u16)
    ensures
        r == spec_u16_or_1(x),
        r != 0,
{
    if x == 0 { 1 } else { x }
}

/// Replace a zero seed by 1 and keep any other.
pub fn u8_or_1(x: u8) -> (r: u8)
    ensures
        r == spec_u8_or_1(x),
        r != 0,
{
    if x == 0 { 1 } else { x }
}

/// The four bytes of `x`, least significant first.
pub open spec fn spec_u32_le_bytes(x: u32) -> Seq<u8> {
    seq![x as u8, (x >> 8) as u8, (x >> 16) as u8, (x >> 24) as u8]
}

/// The eight bytes of `x`, least significant first.
pub open spec fn spec_u64_le_bytes(x: u64) -> Seq<u8> {
    seq![
        x as u8,
        (x >> 8) as u8,
        (x >> 16) as u8,
        (x >> 24) as u8,
        (x >> 32) as u8,
        (x >> 40) as u8,
        (x >> 48) as u8,
        (x >> 56) as u8,
    ]
}

/// The value whose bytes, least significant first, are the first four of `b`.
pub open spec fn spec_u32_from_le_bytes(b: Seq<u8>) -> u32 {
    (b[0] as u32) | (b[1] as u32) << 8 | (b[2] as u32) << 16 | (b[3] as u32) << 24
}

/// The value whose bytes, least significant first, are the first eight of `b`.
pub open spec fn spec_u64_from_le_bytes(b: Seq<u8>) -> u64 {
    (b[0] as u64) | (b[1] as u64) << 8 | (b[2] as u64) << 16 | (b[3] as u64) << 24 | (b[4] as u64)
        << 32 | (b[5] as u64) << 40 | (b[6] as u64) << 48 | (b[7] as u64) << 56
}

/// The bytes of `x` in little-endian order.
pub fn u32_le_bytes(x: u32) -> (b: [u8; 4])
    ensures
        b@ == spec_u32_le_bytes(x),
{
    let b: [u8; 4] = [x as u8, (x >> 8) as u8, (x >> 16) as u8, (x >> 24) as u8];
    assert(b@ =~= spec_u32_le_bytes(x));
    b
}

/// The bytes of `x` in little-endian order.
pub fn u64_le_bytes(x: u64) -> (b: [u8; 8])
    ensures
        b@ == spec_u64_le_bytes(x),
{
    let b: [u8; 8] = [
        x as u8,
        (x >> 8) as u8,
        (x >> 16) as u8,
        (x >> 24) as u8,
        (x >> 32) as u8,
        (x >> 40) as u8,
        (x >> 48) as u8,
        (x >> 56) as u8,
    ];
    assert(b@ =~= spec_u64_le_bytes(x));
    b
}

/// Fill a buffer with values from `random_u32`, in little-endian order.
///
/// One value is drawn for every four bytes, and one more for a rest of one to
/// three bytes, of which the low-order bytes are written and the others dropped.
pub fn bytes_from_u32<R: RandomImpl>(random: &mut R, dst: &mut [u8])
    requires
        old(random).valid(),
    ensures
        final(random).valid(),
        final(dst)@.len() == old(dst)@.len(),
        final(dst)@ == fill_u32(|s: R| s.draw_u32(), *old(random), old(dst)@.len()).0,
        *final(random) == after_u32(*old(random), (old(dst)@.len() + 3) / 4),
{
    random.bytes_from_u32(dst);
}

/// Fill a buffer with values from `random_u64`, in little-endian order.
///
/// One value is drawn for every eight bytes, and one more for a rest of one to
/// seven bytes, of which the low-order bytes are written and the others dropped.
pub fn bytes_from_u64<R: RandomImpl>(random: &mut R, dst: &mut [u8])
    requires
        old(random).valid(),
    ensures
        final(random).valid(),
        final(dst)@.len() == old(dst)@.len(),
        final(dst)@ == fill_u64(|s: R| s.draw_u64(), *old(random), old(dst)@.len()).0,
        *final(random) == after_u64(*old(random), (old(dst)@.len() + 7) / 8),
{
    random.bytes_from_u64(dst);
}

/// Construct a `u64` from eight bytes of `random_bytes`, in little-endian order.
pub fn u64_from_bytes<R: RandomImpl>(random: &mut R) -> (r: u64)
    requires
        old(random).valid(),
    ensures
        final(random).valid(),
        r == spec_u64_from_le_bytes(old(random).draw_bytes(8).0),
        *final(random) == old(random).draw_bytes(8).1,
{
    random.u64_from_bytes()
}

/// Construct a `u32` from four bytes of `random_bytes`, in little-endian order.
pub fn u32_from_bytes<R: RandomImpl>(random: &mut R) -> (r: u32)
    requires
        old(random).valid(),
    ensures
        final(random).valid(),
        r == spec_u32_from_le_bytes(old(random).draw_bytes(4).0),
        *final(random) == old(random).draw_bytes(4).1,
{
    random.u32_from_bytes()
}

/// The array whose elements are those of `s`, for a sequence of length `N`.
pub open spec fn spec_array<T, const N: usize>(s: Seq<T>) -> [T; N] {
    choose|a: [T; N]| a@ == s
}

/// An array is the array of its own elements.
pub proof fn lemma_spec_array<T, const N: usize>(a: [T; N])
    ensures
        spec_array::<T, N>(a@) == a,
{
    let b = spec_array::<T, N>(a@);
    assert(b@ == a@);
    assert(b =~= a);
}

/// The array `a` with the elements of `s` from `from` on written over its own.
pub open spec fn seq_to_array<T, const N: usize>(a: [T; N], s: Seq<T>, from: nat) -> [T; N]
    decreases N - from,
{
    if from >= N {
        a
    } else {
        seq_to_array::<T, N>(
            vstd::array::spec_array_update(a, from as int, s[from as int]),
            s,
            from + 1,
        )
    }
}

/// Writing `s` over `a` from `from` on keeps what lies before `from` and
/// leaves the elements of `s` behind it.
pub proof fn lemma_seq_to_array<T, const N: usize>(a: [T; N], s: Seq<T>, from: nat)
    requires
        s.len() == N,
    ensures
        forall|i: int| 0 <= i < from && i < N ==> seq_to_array::<T, N>(a, s, from)@[i] == a@[i],
        forall|i: int| from <= i < N ==> seq_to_array::<T, N>(a, s, from)@[i] == s[i],
    decreases N - from,
{
    let r = seq_to_array::<T, N>(a, s, from);
    if from < N {
        let b = vstd::array::spec_array_update(a, from as int, s[from as int]);
        vstd::array::axiom_spec_array_update(a, from as int, s[from as int]);
        lemma_seq_to_array::<T, N>(b, s, from + 1);
        assert(r == seq_to_array::<T, N>(b, s, from + 1));
        assert(b@ == a@.update(from as int, s[from as int]));
        assert forall|i: int| 0 <= i < from && i < N implies r@[i] == a@[i] by {
            assert(r@[i] == b@[i]);
        }
        assert forall|i: int| from <= i < N implies r@[i] == s[i] by {
            if i == from {
                assert(r@[i] == b@[i]);
            }
        }
    } else {
        assert(r == a);
    }
}

/// There is an array for every sequence of `N` elements: the array of a
/// sequence holds the sequence.
pub proof fn lemma_array_of_seq<T, const N: usize>(s: Seq<T>)
    requires
        s.len() == N,
    ensures
        spec_array::<T, N>(s)@ == s,
{
    let a = arbitrary::<[T; N]>();
    let b = seq_to_array::<T, N>(a, s, 0);
    lemma_seq_to_array::<T, N>(a, s, 0);
    assert(b@ =~= s);
}

/// `x` rotated left by `n` bits. The bits that leave at the top come back
/// at the bottom; a rotation by the width or a multiple of it changes nothing.
pub open spec fn spec_rotl32(x: u32, n: u32) -> u32 {
    let k = n % 32;
    if k == 0 {
        x
    } else {
        x << k | x >> ((32 - k) as u32)
    }
}

/// `x` rotated left by `n` bits. The bits that leave at the top come back
/// at the bottom; a rotation by the width or a multiple of it changes nothing.
pub open spec fn spec_rotl64(x: u64, n: u32) -> u64 {
    let k = n % 64;
    if k == 0 {
        x
    } else {
        x << k | x >> ((64 - k) as u32)
    }
}

/// Rotate `x` left by `n` bits.
pub fn rotl32(x: u32, n: u32) -> (r: u32)
    ensures
        r == spec_rotl32(x, n),
{
    let k: u32 = n % 32;
    if k == 0 {
        x
    } else {
        let m: u32 = 32 - k;
        x << k | x >> m
    }
}

/// Rotate `x` left by `n` bits.
pub fn rotl64(x: u64, n: u32) -> (r: u64)
    ensures
        r == spec_rotl64(x, n),
{
    let k: u32 = n % 64;
    if k == 0 {
        x
    } else {
        let m: u32 = 64 - k;
        x << k | x >> m
    }
}

/// The bit pattern of the 64-bit float that lies in `[1, 2)` and has the low
/// 52 bits of `x` as its mantissa: those bits under the exponent of 1.
pub open spec fn spec_u64_normalize_bits(x: u64) -> u64 {
    (x & 0x000f_ffff_ffff_ffff) | 0x3ff0_0000_0000_0000
}

/// The bit pattern of the 32-bit float that lies in `[1, 2)` and has the low
/// 23 bits of `x` as its mantissa: those bits under the exponent of 1.
pub open spec fn spec_u32_normalize_bits(x: u32) -> u32 {
    (x & 0x007f_ffff) | 0x3f80_0000
}

/// The bits of a 64-bit float in `[1, 2)` made from `x`. The float less 1 is
/// spread evenly over `[0, 1)`, in steps of `2^-52`.
pub fn u64_normalize_bits(x: u64) -> (r: u64)
    ensures
        r == spec_u64_normalize_bits(x),
        r == 0x3ff0_0000_0000_0000 + x % 0x0010_0000_0000_0000,
{
    assert(((x & 0x000f_ffff_ffff_ffff) | 0x3ff0_0000_0000_0000) == 0x3ff0_0000_0000_0000 + x
        % 0x0010_0000_0000_0000) by (bit_vector);
    let x: u64 = x & 0x000f_ffff_ffff_ffff;
    x | 0x3ff0_0000_0000_0000
}

/// The bits of a 32-bit float in `[1, 2)` made from `x`. The float less 1 is
/// spread evenly over `[0, 1)`, in steps of `2^-23`.
pub fn u32_normalize_bits(x: u32) -> (r: u32)
    ensures
        r == spec_u32_normalize_bits(x),
        r == 0x3f80_0000 + x % 0x0080_0000,
{
    assert(((x & 0x007f_ffff) | 0x3f80_0000) == 0x3f80_0000 + x % 0x0080_0000) by (bit_vector);
    let x: u32 = x & 0x007f_ffff;
    x | 0x3f80_0000
}

} // verus!
