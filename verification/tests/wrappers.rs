use prrng::buffer::Buffer;
use prrng::buffer::Buffer32;
use prrng::buffer::Buffer64;
use prrng::buffer::Buffer8;
use prrng::crush::Accumulator;
use prrng::crush::Crush;
use prrng::iter::Iter;
use prrng::random::FromRandom;
use prrng::random::Random;
use prrng::random::RandomImpl;
use prrng::xorshift32::XorShift32;
use prrng::xorshift64::XorShift64;

/// Draws 1, 2, 3 and so on, and counts its draws.
#[derive(Clone)]
struct Count(u64);

impl RandomImpl for Count {
    fn random_u64(&mut self) -> u64 {
        self.0 += 1;
        self.0
    }

    fn random_u32(&mut self) -> u32 {
        self.random_u64() as u32
    }

    fn random_bytes(&mut self, dst: &mut [u8]) {
        for b in dst {
            *b = self.random_u64() as u8;
        }
    }
}

#[test]
fn test_miri() {
    // avoid a scary warning
    #[allow(dead_code)]
    #[derive(Clone)]
    struct Wrap(std::boxed::Box<u64>);

    impl<R: RandomImpl> FromRandom<R> for Wrap {
        fn from_random(random: &mut R) -> Self {
            Wrap(std::boxed::Box::new(random.random()))
        }
    }

    let mut rng = XorShift64::new(1).random_into_buffer::<Wrap, 4>();

    rng.get(); // refill
    rng.get();

    let mut rng2 = rng.clone();

    let a = rng2.get();
    let b = rng2.get();

    drop(rng2);

    assert_eq!(rng.get().0, a.0);
    assert_eq!(rng.get().0, b.0);
    rng.get(); // refill
}

#[test]
fn buffer_get_checked_never_refills() {
    let mut rng = XorShift64::new(1).random_into_buffer::<u64, 4>();

    assert!(matches!(rng.get_checked(), None));

    rng.run();

    assert!(matches!(rng.get_checked(), Some(_)));
    assert!(matches!(rng.get_checked(), Some(_)));
    assert!(matches!(rng.get_checked(), Some(_)));
    assert!(matches!(rng.get_checked(), Some(_)));
    assert!(matches!(rng.get_checked(), None));
    assert!(matches!(rng.get_checked(), None));
}

#[test]
fn buffer_get_refills_when_consumed() {
    let mut rng = XorShift64::new(1).random_into_buffer::<u64, 4>();

    assert!(rng.consumed());

    rng.get(); // run called here

    assert!(!rng.consumed());

    rng.get();
    rng.get();
    rng.get();

    assert!(rng.consumed());

    rng.get(); // run called here again

    assert!(!rng.consumed());
}

#[test]
fn buffer_hands_out_the_batch_in_order_and_refills_once() {
    let mut buffer: Buffer<u64, 4, Count> = Buffer::new(Count(0));
    assert!(buffer.consumed());
    assert_eq!(buffer.inner.0, 0);
    buffer.run();
    assert_eq!(buffer.inner.0, 4);
    for expected in 1..=4u64 {
        assert!(!buffer.consumed());
        assert_eq!(buffer.get(), expected);
        assert_eq!(buffer.inner.0, 4);
    }
    assert!(buffer.consumed());
    assert_eq!(buffer.get(), 5);
    assert_eq!(buffer.inner.0, 8);
    assert!(!buffer.consumed());
    assert_eq!(buffer.get_checked(), Some(6));
    assert_eq!(buffer.get(), 7);
    assert_eq!(buffer.get(), 8);
    assert_eq!(buffer.get_checked(), None);
    assert_eq!(buffer.inner.0, 8);
    assert_eq!(buffer.unwrap().0, 8);
}

#[test]
fn buffer_run_drops_what_was_not_handed_out() {
    let mut buffer: Buffer<u32, 3, Count> = Buffer::new(Count(0));
    assert_eq!(buffer.get(), 1);
    buffer.run();
    assert_eq!(buffer.get(), 4);
    assert_eq!(buffer.get(), 5);
    assert_eq!(buffer.get(), 6);
    assert_eq!(buffer.get(), 7);
}

#[test]
fn buffer_of_one_refills_every_time() {
    let mut buffer: Buffer<u8, 1, Count> = Buffer::new(Count(0));
    for expected in 1..=5u8 {
        assert!(buffer.consumed());
        assert_eq!(buffer.get(), expected);
    }
    assert_eq!(buffer.inner.0, 5);
}

#[test]
fn buffer_of_tuples_takes_the_fields_in_order() {
    let mut buffer: Buffer<(u8, u16), 2, Count> = Buffer::new(Count(0));
    assert_eq!(buffer.get(), (1, 2));
    assert_eq!(buffer.inner.0, 4);
    assert_eq!(buffer.get(), (3, 4));
    assert_eq!(buffer.get(), (5, 6));
}

#[test]
fn buffer_of_words_is_a_generator() {
    let mut a: Buffer<u64, 2, Count> = Buffer::new(Count(0));
    assert_eq!(a.random_u64(), 1);
    assert_eq!(a.random_u32(), 2);
    let mut dst = [0u8; 9];
    a.random_bytes(&mut dst);
    assert_eq!(dst, [3, 0, 0, 0, 0, 0, 0, 0, 4]);
    let mut b: Buffer<u32, 2, Count> = Buffer::new(Count(0));
    assert_eq!(b.random_u32(), 1);
    assert_eq!(b.random_u64(), (2 << 32) | 3);
    let mut dst = [0u8; 5];
    b.random_bytes(&mut dst);
    assert_eq!(dst, [4, 0, 0, 0, 5]);
    assert_eq!(b.random_u16(), 6);
}

#[test]
fn buffer32_hands_out_the_batch_in_order_and_refills_once() {
    let mut buffer: Buffer32<4, Count> = Buffer32::new(Count(0));
    assert_eq!(buffer.get_checked(), None);
    assert_eq!(buffer.inner.0, 0);
    for round in 0..3u32 {
        for k in 1..=4u32 {
            assert_eq!(buffer.get(), round * 4 + k);
            assert_eq!(buffer.inner.0, (round as u64 + 1) * 4);
        }
        assert_eq!(buffer.index, 4);
    }
    assert_eq!(buffer.get_checked(), None);
    buffer.run();
    assert_eq!(buffer.get_checked(), Some(13));
    buffer.run();
    assert_eq!(buffer.get_checked(), Some(17));
    assert_eq!(buffer.random_u64(), (18 << 32) | 19);
    assert_eq!(buffer.random_u32(), 20);
    assert_eq!(buffer.random_u32(), 21);
    assert_eq!(buffer.unwrap().0, 24);
}

#[test]
fn buffer64_hands_out_the_batch_in_order_and_refills_once() {
    let mut buffer: Buffer64<3, Count> = Buffer64::new(Count(0));
    assert_eq!(buffer.get_checked(), None);
    for round in 0..3u64 {
        for k in 1..=3u64 {
            assert_eq!(buffer.get(), round * 3 + k);
            assert_eq!(buffer.inner.0, (round + 1) * 3);
        }
    }
    assert_eq!(buffer.get_checked(), None);
    buffer.run();
    assert_eq!(buffer.get_checked(), Some(10));
    assert_eq!(buffer.random_u64(), 11);
    assert_eq!(buffer.random_u32(), 12);
    let mut dst = [0u8; 3];
    buffer.random_bytes(&mut dst);
    assert_eq!(dst, [13, 0, 0]);
    assert_eq!(buffer.inner.0, 15);
}

#[test]
fn buffer8_hands_out_the_bytes_in_order_and_refills_once() {
    let mut buffer: Buffer8<4, Count> = Count(0).random_into_buffer8::<4>();
    assert_eq!(buffer.get_checked(), None);
    for round in 0..3u8 {
        for k in 1..=4u8 {
            assert_eq!(buffer.get(), round * 4 + k);
            assert_eq!(buffer.inner.0, (round as u64 + 1) * 4);
        }
    }
    assert_eq!(buffer.get_checked(), None);
    buffer.run();
    assert_eq!(buffer.get_checked(), Some(13));
    assert_eq!(buffer.random_u32(), 0x11100f0e);
    assert_eq!(buffer.random_u64(), 0x1918171615141312);
    let mut dst = [0u8; 2];
    buffer.random_bytes(&mut dst);
    assert_eq!(dst, [0x1a, 0x1b]);
    assert_eq!(buffer.unwrap().0, 28);
}

#[test]
fn buffer8_takes_its_bytes_from_random_bytes() {
    let mut buffer: Buffer8<6, XorShift32> = Buffer8::new(XorShift32::new(1));
    let got = [buffer.get(), buffer.get(), buffer.get(), buffer.get(), buffer.get(), buffer.get()];
    assert_eq!(got, [0x21, 0x20, 0x04, 0x00, 0x01, 0x06]);
    // the second word was cut: the refill starts with the third
    assert_eq!(buffer.get(), 2647435461u32 as u8);
}

/// Remembers what was written into it; its digest is the number of writes
/// in the high half and the last value written in the low half.
#[derive(Clone)]
struct Recorder {
    written: Vec<u64>,
}

impl Accumulator for Recorder {
    fn write_u64(&mut self, value: u64) {
        self.written.push(value);
    }

    fn finish(&self) -> u64 {
        ((self.written.len() as u64) << 32) | (self.written.last().copied().unwrap_or(0) & 0xffffffff)
    }
}

#[test]
fn crush_writes_n_draws_for_every_value() {
    let mut crush: Crush<4, Count, Recorder> = Crush::new(Count(0), Recorder { written: Vec::new() });
    assert_eq!(crush.get(), (4 << 32) | 4);
    assert_eq!(crush.inner.0, 4);
    assert_eq!(crush.hash.written, vec![1, 2, 3, 4]);
    assert_eq!(crush.get(), (8 << 32) | 8);
    assert_eq!(crush.inner.0, 8);
    assert_eq!(crush.hash.written, vec![1, 2, 3, 4, 5, 6, 7, 8]);
    assert_eq!(crush.random_u64(), (12 << 32) | 12);
    assert_eq!(crush.random_u32(), 16);
    assert_eq!(crush.hash.written.len(), 16);
    let (inner, hash) = crush.unwrap();
    assert_eq!(inner.0, 16);
    assert_eq!(hash.written.len(), 16);
}

#[test]
fn crush_of_no_draws_only_reads_the_digest() {
    let mut crush = Count(0).random_into_crush::<0, Recorder>(Recorder { written: vec![7] });
    assert_eq!(crush.get(), (1 << 32) | 7);
    assert_eq!(crush.get(), (1 << 32) | 7);
    assert_eq!(crush.inner.0, 0);
}

#[test]
fn crush_bytes_come_from_whole_values() {
    let mut crush: Crush<2, Count, Recorder> = Crush::new(Count(0), Recorder { written: Vec::new() });
    let mut dst = [0u8; 9];
    crush.random_bytes(&mut dst);
    assert_eq!(dst, [2, 0, 0, 0, 2, 0, 0, 0, 4]);
    assert_eq!(crush.inner.0, 4);
}

/// Adds what is written, as a hash would mix it.
struct Sum(u64);

impl Accumulator for Sum {
    fn write_u64(&mut self, value: u64) {
        self.0 = self.0.wrapping_mul(31).wrapping_add(value);
    }

    fn finish(&self) -> u64 {
        self.0
    }
}

#[test]
fn crush_is_never_reset() {
    let mut crush: Crush<2, Count, Sum> = Crush::new(Count(0), Sum(0));
    let first = crush.get();
    assert_eq!(first, 1 * 31 + 2);
    let second = crush.get();
    assert_eq!(second, (first * 31 + 3) * 31 + 4);
}

#[test]
fn iter_hands_out_values_without_end() {
    let mut iter: Iter<(u8, u8), Count> = Iter::new(Count(0));
    assert_eq!(iter.next(), Some((1, 2)));
    assert_eq!(iter.next(), Some((3, 4)));
    assert_eq!(iter.random_u64(), 5);
    assert_eq!(iter.random_u32(), 6);
    let mut dst = [0u8; 2];
    iter.random_bytes(&mut dst);
    assert_eq!(dst, [7, 8]);
    assert_eq!(iter.next(), Some((9, 10)));
    assert_eq!(iter.unwrap().0, 10);
}

#[test]
fn iter_of_unit_draws_nothing() {
    let mut iter = XorShift32::new(1).random_into_iter::<()>();
    assert_eq!(iter.next(), Some(()));
    assert_eq!(iter.next(), Some(()));
    let mut copy = iter.clone();
    assert_eq!(copy.random_u32(), 270369);
    assert_eq!(iter.unwrap().get(), 270369);
}

#[test]
fn wrappers_stack() {
    let inner = XorShift64::new(1).random_into_buffer::<u64, 4>();
    let mut outer: Buffer8<3, Buffer<u64, 4, XorShift64>> = Buffer8::new(inner);
    assert_eq!(outer.get(), 0x41);
    assert_eq!(outer.get(), 0x20);
    assert_eq!(outer.get(), 0x82);
    // the rest of the first value was dropped
    assert_eq!(outer.get(), 0x41);
    assert_eq!(outer.get(), 0x14);
}

#[test]
fn buffer8_clone_continues_the_same_batch() {
    let mut buffer: Buffer8<4, Count> = Buffer8::new(Count(0));
    assert_eq!(buffer.get(), 1);
    let mut copy = buffer.clone();
    assert_eq!(copy.index, 1);
    assert_eq!(copy.get(), 2);
    assert_eq!(buffer.get(), 2);
    assert_eq!(copy.get(), 3);
    assert_eq!(copy.get(), 4);
    assert_eq!(copy.get(), 5);
    assert_eq!(buffer.inner.0, 4);
    assert_eq!(copy.inner.0, 8);
}

#[test]
fn crush_clone_keeps_what_was_written() {
    let mut crush: Crush<2, Count, Recorder> = Crush::new(Count(0), Recorder { written: Vec::new() });
    crush.get();
    let mut copy = crush.clone();
    assert_eq!(copy.hash.written, vec![1, 2]);
    assert_eq!(copy.get(), crush.get());
    assert_eq!(copy.hash.written, vec![1, 2, 3, 4]);
}
