use prrng::common::bytes_from_u32;
use prrng::common::bytes_from_u64;
use prrng::common::rotl32;
use prrng::common::rotl64;
use prrng::common::u16_compose_u32;
use prrng::common::u16_or_1;
use prrng::common::u32_compose_u64;
use prrng::common::u32_from_bytes;
use prrng::common::u32_le_bytes;
use prrng::common::u32_normalize_bits;
use prrng::common::u32_or_1;
use prrng::common::u64_compose_u128;
use prrng::common::u64_from_bytes;
use prrng::common::u64_le_bytes;
use prrng::common::u64_normalize_bits;
use prrng::common::u64_or_1;
use prrng::common::u8_compose_u16;
use prrng::common::u8_or_1;
use prrng::random::FromRandom;
use prrng::random::Random;
use prrng::random::RandomImpl;
use prrng::random::threshold_u128;
use prrng::random::threshold_u16;
use prrng::random::threshold_u32;
use prrng::random::threshold_u64;
use prrng::random::threshold_u8;
use prrng::xorshift32::XorShift32;
use prrng::xorshift64::XorShift64;

/// Draws the words of a list, one after the other: a 64-bit draw gives the
/// word, a 32-bit draw its low half. It counts its draws.
struct Script {
    words: Vec<u64>,
    at: usize,
}

impl Script {
    fn new(words: &[u64]) -> Self {
        Script { words: words.to_vec(), at: 0 }
    }
}

impl RandomImpl for Script {
    fn random_u64(&mut self) -> u64 {
        let w = self.words[self.at];
        self.at += 1;
        w
    }

    fn random_u32(&mut self) -> u32 {
        self.random_u64() as u32
    }

    fn random_bytes(&mut self, dst: &mut [u8]) {
        self.bytes_from_u32(dst);
    }
}

#[test]
fn compose_puts_the_first_half_high() {
    assert_eq!(
        u64_compose_u128(0xf0f0f0f0f0f0f0f0, 0x7070707070707070),
        0xf0f0f0f0f0f0f0f07070707070707070
    );
    assert_eq!(u32_compose_u64(0xf0f0f0f0, 0x70707070), 0xf0f0f0f070707070);
    assert_eq!(u16_compose_u32(0x1234, 0x5678), 0x12345678);
    assert_eq!(u8_compose_u16(0x12, 0x34), 0x1234);
    assert_eq!(u8_compose_u16(0xff, 0xff), 0xffff);
    assert_eq!(u64_compose_u128(u64::MAX, u64::MAX), u128::MAX);
    assert_eq!(u32_compose_u64(0, 1), 1);
    assert_eq!(u32_compose_u64(1, 0), 1 << 32);
}

#[test]
fn or_1_replaces_only_zero() {
    assert_eq!(u64_or_1(0), 1);
    assert_eq!(u64_or_1(2), 2);
    assert_eq!(u64_or_1(u64::MAX), u64::MAX);
    assert_eq!(u32_or_1(0), 1);
    assert_eq!(u32_or_1(7), 7);
    assert_eq!(u16_or_1(0), 1);
    assert_eq!(u16_or_1(0x8000), 0x8000);
    assert_eq!(u8_or_1(0), 1);
    assert_eq!(u8_or_1(255), 255);
}

#[test]
fn le_bytes_and_rotations() {
    assert_eq!(u32_le_bytes(0x04030201), [1, 2, 3, 4]);
    assert_eq!(u64_le_bytes(0x0807060504030201), [1, 2, 3, 4, 5, 6, 7, 8]);
    assert_eq!(u32_le_bytes(0x04030201), 0x04030201u32.to_le_bytes());
    assert_eq!(rotl32(0x80000001, 1), 3);
    assert_eq!(rotl32(0x12345678, 8), 0x12345678u32.rotate_left(8));
    assert_eq!(rotl32(0x12345678, 31), 0x12345678u32.rotate_left(31));
    assert_eq!(rotl32(0x12345678, 0), 0x12345678);
    assert_eq!(rotl32(0x12345678, 32), 0x12345678);
    assert_eq!(rotl32(0x12345678, 36), 0x12345678u32.rotate_left(36));
    assert_eq!(rotl32(0x12345678, 36), 0x23456781);
    assert_eq!(rotl64(0x123456789abcdef0, 0), 0x123456789abcdef0);
    assert_eq!(rotl64(0x123456789abcdef0, 64), 0x123456789abcdef0);
    assert_eq!(rotl64(0x123456789abcdef0, 68), 0x23456789abcdef01);
    assert_eq!(rotl64(0x8000000000000001, 1), 3);
    assert_eq!(rotl64(0x123456789abcdef0, 45), 0x123456789abcdef0u64.rotate_left(45));
}

#[test]
fn bytes_from_u64_cuts_the_last_word() {
    let mut rng = XorShift64::new(1);
    let mut buf = [0u8; 12];
    bytes_from_u64(&mut rng, &mut buf);
    assert_eq!(
        buf,
        [0x41, 0x20, 0x82, 0x40, 0x00, 0x00, 0x00, 0x00, 0x41, 0x14, 0x01, 0x0c]
    );
    // the rest of the second value is dropped: the third comes next
    assert_eq!(rng.get(), 11177516664432764457);
}

#[test]
fn bytes_from_u32_cuts_the_last_word() {
    let mut rng = XorShift32::new(1);
    let mut buf = [0u8; 6];
    bytes_from_u32(&mut rng, &mut buf);
    assert_eq!(buf, [0x21, 0x20, 0x04, 0x00, 0x01, 0x06]);
    assert_eq!(rng.get(), 2647435461);
}

#[test]
fn bytes_of_whole_words_and_of_nothing() {
    let mut rng = Script::new(&[0x04030201, 0x08070605, 0x0c0b0a09]);
    let mut none: [u8; 0] = [];
    rng.random_bytes(&mut none);
    assert_eq!(rng.at, 0);
    let mut eight = [0u8; 8];
    rng.random_bytes(&mut eight);
    assert_eq!(eight, [1, 2, 3, 4, 5, 6, 7, 8]);
    assert_eq!(rng.at, 2);
    let mut one = [0u8; 1];
    rng.bytes_from_u64(&mut one);
    assert_eq!(one, [9]);
    assert_eq!(rng.at, 3);
}

#[test]
fn bytes_from_u64_counts_its_draws() {
    for len in 0..40usize {
        let words: Vec<u64> = (0..8u64).map(|i| 0x0807060504030201 + (i << 56 >> 56)).collect();
        let mut rng = Script::new(&words);
        let mut dst = vec![0xaau8; len];
        rng.bytes_from_u64(&mut dst);
        assert_eq!(rng.at, (len + 7) / 8);
        for (i, b) in dst.iter().enumerate() {
            assert_eq!(*b, words[i / 8].to_le_bytes()[i % 8]);
        }
    }
}

#[test]
fn bytes_from_u32_counts_its_draws() {
    for len in 0..24usize {
        let words: Vec<u64> = (0..8u64).map(|i| 0x11223344 * (i + 1)).collect();
        let mut rng = Script::new(&words);
        let mut dst = vec![0xaau8; len];
        rng.bytes_from_u32(&mut dst);
        assert_eq!(rng.at, (len + 3) / 4);
        for (i, b) in dst.iter().enumerate() {
            assert_eq!(*b, (words[i / 4] as u32).to_le_bytes()[i % 4]);
        }
    }
}

struct Bytes(u8);

impl RandomImpl for Bytes {
    fn random_u64(&mut self) -> u64 {
        self.u64_from_bytes()
    }

    fn random_u32(&mut self) -> u32 {
        self.u32_from_bytes()
    }

    fn random_bytes(&mut self, dst: &mut [u8]) {
        for b in dst {
            self.0 = self.0.wrapping_add(1);
            *b = self.0;
        }
    }
}

#[test]
fn words_from_bytes_are_little_endian() {
    let mut rng = Bytes(0);
    assert_eq!(u32_from_bytes(&mut rng), 0x04030201);
    assert_eq!(u64_from_bytes(&mut rng), 0x0c0b0a0908070605);
    assert_eq!(rng.random_u32(), 0x100f0e0d);
    assert_eq!(rng.random_u64(), 0x1817161514131211);
}

#[test]
fn widening_takes_the_high_half_first() {
    let mut rng = Script::new(&[0x1111111111111111, 0x2222222222222222]);
    assert_eq!(rng.random_u128(), 0x11111111111111112222222222222222);
    assert_eq!(rng.at, 2);
}

#[test]
fn narrowing_takes_the_low_bits_of_one_draw() {
    let mut rng = Script::new(&[0xaabbccdd11223344, 0xaabbccdd11223344, 3, 2, 0xfffffffe]);
    assert_eq!(rng.random_u16(), 0x3344);
    assert_eq!(rng.at, 1);
    assert_eq!(rng.random_u8(), 0x44);
    assert_eq!(rng.at, 2);
    assert!(rng.random_bool());
    assert!(!rng.random_bool());
    assert!(!rng.random_bool());
    assert_eq!(rng.at, 5);
}

#[test]
fn float_bits_take_the_mantissa_under_the_exponent_of_one() {
    assert_eq!(u64_normalize_bits(0), 0x3ff0000000000000);
    assert_eq!(u64_normalize_bits(u64::MAX), 0x3fffffffffffffff);
    assert_eq!(u64_normalize_bits(0xfff0000000000001), 0x3ff0000000000001);
    assert_eq!(u32_normalize_bits(0), 0x3f800000);
    assert_eq!(u32_normalize_bits(u32::MAX), 0x3fffffff);
    assert_eq!(u32_normalize_bits(0xff800001), 0x3f800001);
    let mut rng = Script::new(&[u64::MAX, 1 << 51, 1 << 22]);
    assert_eq!(rng.random_f64_bits(), 0x3fffffffffffffff);
    assert_eq!(f64::from_bits(rng.random_f64_bits()) - 1.0, 0.5);
    assert_eq!(f32::from_bits(rng.random_f32_bits()) - 1.0, 0.5);
}

#[test]
fn normalized_floats_lie_in_the_unit_interval() {
    assert_eq!(f64::from_bits(u64_normalize_bits(u64::MAX)) - 1.0, 1.0 - f64::EPSILON);
    assert_eq!(f64::from_bits(u64_normalize_bits(0)) - 1.0, 0.0);
    assert_eq!(f32::from_bits(u32_normalize_bits(u32::MAX)) - 1.0, 1.0 - f32::EPSILON);
    assert_eq!(f32::from_bits(u32_normalize_bits(0)) - 1.0, 0.0);
}

#[test]
fn typed_construction_of_integers() {
    let mut rng = Script::new(&[
        0xffffffffffffffff,
        0xffffffffffffffff,
        0x8000000000000000,
        0x80000000,
        0x8000,
        0x80,
        0x1ff,
        0x1,
        0x7,
        0x9,
        0x2,
    ]);
    let a: i128 = rng.random();
    assert_eq!(a, -1);
    assert_eq!(rng.random::<i64>(), i64::MIN);
    assert_eq!(rng.random::<i32>(), i32::MIN);
    assert_eq!(rng.random::<i16>(), i16::MIN);
    assert_eq!(rng.random::<i8>(), i8::MIN);
    assert_eq!(rng.random::<u8>(), 0xff);
    assert!(rng.random::<bool>());
    assert_eq!(rng.random::<u64>(), 7);
    assert_eq!(rng.random::<u32>(), 9);
    assert_eq!(rng.random::<u16>(), 2);
    assert_eq!(rng.at, 11);
    let unit: () = rng.random();
    assert_eq!(unit, ());
    assert_eq!(rng.at, 11);
}

#[test]
fn typed_construction_of_u128() {
    let mut rng = Script::new(&[1, 2]);
    assert_eq!(rng.random::<u128>(), (1u128 << 64) | 2);
}

#[test]
fn arrays_and_tuples_are_made_in_order() {
    let mut rng = Script::new(&[1, 2, 3, 4, 5, 6, 7, 8, 9, 10, 11, 12, 13, 14, 15, 16, 17]);
    let a: [u8; 3] = rng.random();
    assert_eq!(a, [1, 2, 3]);
    let (b, c): (u32, u16) = rng.random();
    assert_eq!((b, c), (4, 5));
    let (d,): (u64,) = rng.random();
    assert_eq!(d, 6);
    let e: (u8, u8, u8) = rng.random();
    assert_eq!(e, (7, 8, 9));
    let f: (u8, u16, u32, u64, i8, i16, i32, i64) = rng.random();
    assert_eq!(f, (10, 11, 12, 13, 14, 15, 16, 17));
    assert_eq!(rng.at, 17);
    let none: [u64; 0] = rng.random();
    assert_eq!(none.len(), 0);
    assert_eq!(rng.at, 17);
}

#[test]
fn tuples_of_four_to_seven_and_nested_shapes() {
    let mut rng = Script::new(&[1, 2, 3, 4, 5, 6, 7, 8, 9, 10, 11, 12, 13, 14, 15, 16, 17, 18, 19, 20, 21, 22, 23, 24, 25, 26]);
    let a: (u8, u8, u8, u8) = rng.random();
    assert_eq!(a, (1, 2, 3, 4));
    let b: (u8, u8, u8, u8, u8) = rng.random();
    assert_eq!(b, (5, 6, 7, 8, 9));
    let c: (u8, u8, u8, u8, u8, u8) = rng.random();
    assert_eq!(c, (10, 11, 12, 13, 14, 15));
    let d: (u8, u8, u8, u8, u8, u8, u8) = rng.random();
    assert_eq!(d, (16, 17, 18, 19, 20, 21, 22));
    let e: ([u8; 2], (u16, ()), bool) = rng.random();
    assert_eq!(e, ([23, 24], (25, ()), false));
}

#[test]
fn from_random_is_what_random_calls() {
    let mut a = XorShift64::new(9);
    let mut b = XorShift64::new(9);
    let x: (i16, u64) = a.random();
    let y = <(i16, u64) as FromRandom<XorShift64>>::from_random(&mut b);
    assert_eq!(x, y);
    assert_eq!(a.get(), b.get());
}

#[test]
fn fill_makes_a_value_for_every_slot_in_order() {
    let mut rng = Script::new(&[1, 2, 3, 4, 5, 6]);
    let mut dst = [0u16; 4];
    rng.random_fill(&mut dst);
    assert_eq!(dst, [1, 2, 3, 4]);
    let mut pairs = [(0u8, 0u8); 1];
    rng.random_fill(&mut pairs);
    assert_eq!(pairs, [(5, 6)]);
    let mut none: [u64; 0] = [];
    rng.random_fill(&mut none);
    assert_eq!(rng.at, 6);
}

#[test]
fn fill_uninit_draws_once_for_every_slot() {
    let mut rng = Script::new(&[1, 2, 3]);
    let mut dst = [core::mem::MaybeUninit::<u32>::uninit(); 3];
    rng.random_fill_uninit(&mut dst);
    assert_eq!(rng.at, 3);
    let mut none: [core::mem::MaybeUninit<u64>; 0] = [];
    rng.random_fill_uninit(&mut none);
    assert_eq!(rng.at, 3);
}

#[test]
fn bound_rejects_below_the_threshold() {
    // for a bound of 3 over 8 bits the threshold is 256 % 3 = 1: only 0 is rejected
    let mut rng = Script::new(&[0, 0x100, 0x200, 5, 7]);
    assert_eq!(rng.random_u8_bound(3), 2);
    assert_eq!(rng.at, 4);
    assert_eq!(rng.random_u8_bound(3), 1);
    assert_eq!(rng.at, 5);
}

#[test]
fn bound_thresholds_by_width() {
    // 2^16 % 7 = 2: 0 and 1 are rejected, 2 is the first accepted
    let mut a = Script::new(&[1, 0, 2, 9]);
    assert_eq!(a.random_u16_bound(7), 2);
    assert_eq!(a.random_u16_bound(7), 2);
    // 2^32 % 10 = 6
    let mut b = Script::new(&[5, 6, 4, 0xffffffff]);
    assert_eq!(b.random_u32_bound(10), 6);
    assert_eq!(b.random_u32_bound(10), 5);
    // 2^64 % 10 = 6
    let mut c = Script::new(&[5, 16, 0, u64::MAX]);
    assert_eq!(c.random_u64_bound(10), 6);
    assert_eq!(c.random_u64_bound(10), 5);
    // 2^128 % 10 = 6: the draw (0, 5) is rejected, (0, 17) accepted
    let mut d = Script::new(&[0, 5, 0, 17, 1, 0]);
    assert_eq!(d.random_u128_bound(10), 7);
    assert_eq!(d.random_u128_bound(10), ((1u128 << 64) % 10));
    assert_eq!(d.at, 6);
}

#[test]
fn bound_of_a_power_of_two_rejects_nothing() {
    let mut rng = Script::new(&[0, 1, 255, 256, 0, 0xffff, 0, u64::MAX]);
    assert_eq!(rng.random_u8_bound(1), 0);
    assert_eq!(rng.random_u8_bound(2), 1);
    assert_eq!(rng.random_u8_bound(128), 127);
    assert_eq!(rng.random_u16_bound(256), 0);
    assert_eq!(rng.random_u32_bound(1 << 31), 0);
    assert_eq!(rng.random_u32_bound(1 << 16), 0xffff);
    assert_eq!(rng.random_u64_bound(1 << 63), 0);
    assert_eq!(rng.random_u64_bound(1 << 63), (1 << 63) - 1);
    assert_eq!(rng.at, 8);
}

#[test]
fn bound_near_powers_of_two() {
    // 256 % 129 = 127: draws below 127 are rejected
    let mut a = Script::new(&[126, 127, 128, 255]);
    assert_eq!(a.random_u8_bound(129), 127);
    assert_eq!(a.random_u8_bound(129), 128);
    assert_eq!(a.random_u8_bound(129), 126);
    // 256 % 127 = 2
    let mut b = Script::new(&[1, 2, 0, 128]);
    assert_eq!(b.random_u8_bound(127), 2);
    assert_eq!(b.random_u8_bound(127), 1);
    // 256 % 255 = 1
    let mut c = Script::new(&[0, 255]);
    assert_eq!(c.random_u8_bound(255), 0);
    // 2^32 % (2^31 + 1) = 2^31 - 1
    let mut d = Script::new(&[0x7ffffffe, 0x7fffffff, 0xffffffff]);
    assert_eq!(d.random_u32_bound(0x80000001), 0x7fffffff);
    assert_eq!(d.random_u32_bound(0x80000001), 0x7ffffffe);
    // the largest bound accepts every draw but one
    let mut e = Script::new(&[0, u64::MAX - 1, 5]);
    assert_eq!(e.random_u64_bound(u64::MAX), u64::MAX - 1);
    assert_eq!(e.random_u64_bound(u64::MAX), 5);
}

#[test]
fn bound_has_no_modulo_bias_over_all_bytes() {
    for bound in [3u8, 5, 6, 7, 10, 100, 129, 200, 255] {
        let words: Vec<u64> = (0..256u64).collect();
        let mut rng = Script::new(&words);
        let threshold = (256 % bound as usize) as u64;
        let accepted = 256 - threshold as usize;
        let mut counts = vec![0usize; bound as usize];
        for _ in 0..accepted {
            let v = rng.random_u8_bound(bound);
            assert!(v < bound);
            counts[v as usize] += 1;
        }
        assert_eq!(rng.at, 256);
        for c in counts {
            assert_eq!(c, accepted / bound as usize);
        }
    }
}

#[test]
fn bound_is_uniform_over_a_large_sample() {
    let mut rng = XorShift64::new(0x9e3779b97f4a7c15);
    let bound = 6u32;
    let n = 60000usize;
    let mut counts = [0usize; 6];
    for _ in 0..n {
        let v = rng.random_u32_bound(bound);
        assert!(v < bound);
        counts[v as usize] += 1;
    }
    let expected = n as f64 / bound as f64;
    let mut chi = 0.0f64;
    for c in counts {
        let d = c as f64 - expected;
        chi += d * d / expected;
    }
    // five degrees of freedom: 30 is passed once in a hundred thousand samples
    assert!(chi < 30.0);
}

#[test]
fn bound_stays_below_the_bound() {
    let mut rng = XorShift64::new(42);
    for bound in [1u64, 2, 3, 1000, (1 << 63) + 1, u64::MAX] {
        for _ in 0..100 {
            assert!(rng.random_u64_bound(bound) < bound);
        }
    }
    for bound in [1u128, 3, u128::MAX, (1 << 127) + 1] {
        for _ in 0..100 {
            assert!(rng.random_u128_bound(bound) < bound);
        }
    }
    for bound in [1u16, 3, 1000, u16::MAX] {
        for _ in 0..100 {
            assert!(rng.random_u16_bound(bound) < bound);
        }
    }
}

#[test]
fn threshold_is_the_range_modulo_the_bound() {
    assert_eq!(threshold_u8(1), 0);
    assert_eq!(threshold_u8(3), 1);
    assert_eq!(threshold_u8(6), 4);
    assert_eq!(threshold_u8(127), 2);
    assert_eq!(threshold_u8(128), 0);
    assert_eq!(threshold_u8(129), 127);
    assert_eq!(threshold_u8(255), 1);
    assert_eq!(threshold_u16(7), 2);
    assert_eq!(threshold_u16(0x8001), 0x7fff);
    assert_eq!(threshold_u16(u16::MAX), 1);
    assert_eq!(threshold_u32(10), 6);
    assert_eq!(threshold_u32(0x80000000), 0);
    assert_eq!(threshold_u32(0x80000001), 0x7fffffff);
    assert_eq!(threshold_u32(0x7fffffff), 2);
    assert_eq!(threshold_u64(10), 6);
    assert_eq!(threshold_u64(u64::MAX), 1);
    assert_eq!(threshold_u64((1 << 63) + 1), (1 << 63) - 1);
    assert_eq!(threshold_u128(10), 6);
    assert_eq!(threshold_u128(u128::MAX), 1);
    assert_eq!(threshold_u128(1 << 127), 0);
    for bound in 1..=255u8 {
        assert_eq!(threshold_u8(bound) as u32, 256 % bound as u32);
        assert_eq!((256 - threshold_u8(bound) as u32) % bound as u32, 0);
    }
}
