use prrng::chacha::ChaCha;
use prrng::collatzweyl::CollatzWeyl128;
use prrng::collatzweyl::CollatzWeyl128_64;
use prrng::collatzweyl::CollatzWeyl64;
use prrng::fiblfg8::dornd;
use prrng::fiblfg8::FibLFG8;
use prrng::fiblfsr16::FibLFSR16;
use prrng::lcg::Fishman;
use prrng::lcg::Lcg128;
use prrng::lcg::Lcg16;
use prrng::lcg::Lcg32;
use prrng::lcg::Lcg64;
use prrng::lcg::Lcg8;
use prrng::lcg::Lecuyer16;
use prrng::lcg::Lecuyer8;
use prrng::lcg::VisualBasic6;
use prrng::lcg::MINSTD;
use prrng::lcg::MINSTD88;
use prrng::lcg::RANDU;
use prrng::lcg::RANF;
use prrng::mtwister::MTwister;
use prrng::pcg32::Pcg32;
use prrng::random::Random;
use prrng::random::RandomImpl;
use prrng::splitmix64::SplitMix64;
use prrng::wichhill::WichHill;
use prrng::xorshift128p::XorShift128p;
use prrng::xorshift32::XorShift32;
use prrng::xorshift64::XorShift64;
use prrng::xoshiro256ss::XorShift256ss;

#[test]
fn test_basic() {
    let mut rng = FibLFG8::new(0x0212c845);

    assert_eq!(rng.get(), 87);
    assert_eq!(rng.get(), 105);
    assert_eq!(rng.get_last(), 87);
    assert_eq!(rng.get(), 192);
    assert_eq!(rng.get_last(), 105);
    assert_eq!(rng.get(), 41);
    assert_eq!(rng.get(), 234);
}

#[test]
fn fiblfg8_new_raw_orders_the_bytes() {
    let mut rng = FibLFG8::new_raw(0xc8, 0x02, 0x45, 0x12, false);
    assert_eq!(*rng.rand(), (0x02, 0x12, 0xc8, 0x45));
    assert_eq!(*rng.f0(), 0xc8);
    assert_eq!(*rng.f1(), 0x02);
    assert_eq!(*rng.m0(), 0x45);
    assert_eq!(*rng.m1(), 0x12);
    assert!(!*rng.carry());
    assert_eq!(rng.get(), 87);
    assert_eq!(rng.get(), 105);
}

#[test]
fn fiblfg8_accessors_change_the_state() {
    let mut rng = FibLFG8::new(0x01010101);
    *rng.f1() = 0x02;
    *rng.m1() = 0x12;
    *rng.f0() = 0xc8;
    *rng.m0() = 0x45;
    *rng.carry() = false;
    assert_eq!(rng.get(), 87);
    *rng.rand() = (0x02, 0x12, 0xc8, 0x45);
    *rng.carry() = false;
    assert_eq!(rng.get(), 87);
}

#[test]
fn dornd_steps_with_carry() {
    let mut rand = (0x80u8, 0xffu8, 0xffu8, 0x01u8);
    let mut carry = true;
    dornd(&mut rand, &mut carry);
    // rol(0x80, carry) = (0x01, carry); 0x01 + 0xff + 1 = 0x101; 0xff + 0x01 + 1 = 0x101
    assert_eq!(rand, (0x01, 0x01, 0x01, 0xff));
    assert!(carry);

    let mut zero = (0u8, 0u8, 0u8, 0u8);
    let mut none = false;
    dornd(&mut zero, &mut none);
    assert_eq!(zero, (0, 0, 0, 0));
    assert!(!none);
}

#[test]
fn fiblfg8_words_take_the_first_byte_highest() {
    let mut bytes = FibLFG8::new(0);
    let mut words = FibLFG8::new(0);
    // from the seed 0, made (1, 1, 1, 1), the bytes are 2, 3, 5, 8, 13, 21, 34, 56
    assert_eq!(words.random_u32(), 0x02030508);
    assert_eq!(words.random_u32(), 0x0d152238);
    let mut dst = [0u8; 5];
    bytes.random_bytes(&mut dst);
    assert_eq!(dst, [2, 3, 5, 8, 13]);
    assert_eq!(FibLFG8::new(0).random_u64(), 0x020305080d152238);
}

#[test]
fn minstd88_reference_values() {
    let mut rng = MINSTD88::new(1);
    assert_eq!(rng.get(), 16807);
    assert_eq!(rng.get(), 282475249);
    assert_eq!(rng.get(), 1622650073);
}

#[test]
fn minstd_reference_values() {
    let mut rng = MINSTD::new(1);
    assert_eq!(rng.get(), 48271);
    assert_eq!(rng.get(), 182605794);
    assert_eq!(rng.get(), 1291394886);
}

#[test]
fn ranf_reference_values() {
    let mut rng = RANF::new(1);
    assert_eq!(rng.get(), 44485709377909);
    assert_eq!(rng.get(), 232253848878969);
    assert_eq!(rng.get(), 94800993741645);
    assert_eq!(rng.get(), 243522309605169);
    assert_eq!(rng.get(), 20783065360997);
}

#[test]
fn randu_reference_values() {
    let mut rng = RANDU::new(1);
    let expected: [u32; 10] = [
        65539, 393225, 1769499, 7077969, 26542323, 95552217, 334432395, 1146624417, 1722371299,
        14608041,
    ];
    for e in expected {
        assert_eq!(rng.get(), e);
    }
}

#[test]
fn lcg32_minstd_reference_values() {
    let mut rng = Lcg32::<16807, 0, 2147483647>::new(1);
    assert_eq!(rng.get(), 16807);
    assert_eq!(rng.get(), 282475249);
    assert_eq!(rng.get(), 1622650073);
    assert_eq!(rng.get(), 984943658);
    assert_eq!(rng.get(), 1144108930);
}

#[test]
fn lcg_products_are_formed_in_full() {
    let mut a = Lecuyer8::new(1);
    assert_eq!([a.get(), a.get(), a.get(), a.get()], [55, 13, 213, 169]);
    let mut b = Lecuyer16::new(1);
    assert_eq!([b.get(), b.get(), b.get(), b.get()], [17364, 46375, 2410, 44842]);
    let mut c = VisualBasic6::new(0x50000);
    assert_eq!([c.get(), c.get(), c.get()], [561433, 3146418, 9769658]);
    let mut d = Fishman::new(1);
    assert_eq!([d.get(), d.get(), d.get()], [950706376, 129027171, 1728259899]);
    let mut e = Lcg128::<0xdeadbeefdeadbeefdeadbeef, 12345, 0x7fffffffffffffffffffffffffffffff>::new(1);
    assert_eq!(e.get(), 68915718021581205938132348712);
    assert_eq!(e.get(), 10555116496250435802842607528283250976);
    assert_eq!(e.get(), 57232530811887884173224497839342929792);
}

#[test]
fn lcg_largest_constants_lose_nothing() {
    let mut a = Lcg8::<255, 255, 254>::new(255);
    assert_eq!([a.get(), a.get()], [2, 3]);
    let mut b = Lcg8::<255, 255, 251>::new(200);
    assert_eq!([b.get(), b.get(), b.get()], [51, 208, 83]);
    let mut c = Lcg16::<65535, 65535, 65521>::new(65535);
    assert_eq!([c.get(), c.get()], [210, 2954]);
    let mut d = Lcg32::<0xffffffff, 0xffffffff, 0xfffffffb>::new(0xffffffff);
    assert_eq!([d.get(), d.get()], [20, 84]);
    let mut e = Lcg64::<0xffffffffffffffff, 0xffffffffffffffff, 0xffffffffffffffc5>::new(u64::MAX);
    assert_eq!([e.get(), e.get()], [3422, 198534]);
    let mut f = Lcg128::<
        0xffffffffffffffffffffffffffffffff,
        0xffffffffffffffffffffffffffffffff,
        0xffffffffffffffffffffffffffffff61,
    >::new((1 << 127) - 2);
    assert_eq!([f.get(), f.get(), f.get()], [12403, 1959832, 309653614]);
    let mut g = Lcg128::<3, 5, 1>::new(7);
    assert_eq!(g.get(), 0);
}

#[test]
fn lcg_seed_can_be_read_and_set() {
    let mut rng = Lcg32::<65539, 0, 0x80000000>::new(7);
    assert_eq!(*rng.seed(), 7);
    *rng.seed() = 1;
    assert_eq!(rng.get(), 65539);
    assert_eq!(*rng.seed(), 65539);
}

#[test]
fn lcg8_words_are_little_endian_bytes() {
    let mut rng = Lcg8::<55, 0, 251>::new(1);
    // bytes 55, 13, 213, 169, 8, 189
    assert_eq!(rng.random_u32(), 0xa9d50d37);
    let mut dst = [0u8; 2];
    rng.random_bytes(&mut dst);
    assert_eq!(dst, [8, 189]);
    let mut wide = Lcg8::<55, 0, 251>::new(1);
    assert_eq!(wide.random_u64() & 0xffff_ffff_ffff, 0xbd08a9d50d37);
}

#[test]
fn lcg16_and_lcg32_words_take_the_first_draw_highest() {
    let mut a = Lecuyer16::new(1);
    assert_eq!(a.random_u32(), (17364 << 16) | 46375);
    let mut b = RANDU::new(1);
    assert_eq!(b.random_u64(), (65539u64 << 32) | 393225);
    let mut c = MINSTD88::new(1);
    assert_eq!(c.random_u64(), 16807);
    assert_eq!(c.random_u32(), 282475249);
}

#[test]
fn xorshift32_reference_values() {
    let mut rng = XorShift32::new(1);
    assert_eq!(rng.get(), 270369);
    assert_eq!(rng.get(), 67634689);
    assert_eq!(rng.get(), 2647435461);
    assert_eq!(rng.get(), 307599695);
}

#[test]
fn xorshift32_seed_can_be_read_and_set() {
    let mut rng = XorShift32::new(5);
    assert_eq!(*rng.seed(), 5);
    *rng.seed() = 1;
    assert_eq!(rng.get(), 270369);
    assert_eq!(*rng.seed(), 270369);
}

#[test]
fn xorshift64_reference_values() {
    let mut rng = XorShift64::new(0);
    assert_eq!(rng.get(), 1082269761);
    assert_eq!(rng.get(), 1152992998833853505);
    assert_eq!(rng.get(), 11177516664432764457);
    assert_eq!(rng.get(), 17678023832001937445);
}

#[test]
fn xorshift128p_reference_values() {
    let mut rng = XorShift128p::new([10, 20]);
    assert_eq!(rng.get(), 83886450);
    assert_eq!(rng.get(), 338167070);
    assert_eq!(rng.get(), 703687785278400);
    assert_eq!(rng.get(), 2111062671688522);
}

#[test]
fn xoshiro256ss_reference_values() {
    let mut rng = XorShift256ss::new([1, 2, 3, 4]);
    assert_eq!(rng.get(), 11520);
    assert_eq!(rng.get(), 0);
    assert_eq!(rng.get(), 1509978240);
    assert_eq!(rng.get(), 1215971899390074240);
}

#[test]
fn splitmix64_reference_values() {
    let mut rng = SplitMix64::new(0);
    assert_eq!(rng.get(), 16294208416658607535);
    assert_eq!(rng.get(), 7960286522194355700);
    assert_eq!(rng.get(), 487617019471545679);
    let mut one = SplitMix64::new(1);
    assert_eq!(one.random_u64(), 10451216379200822465);
    assert_eq!(one.random_u32(), 13757245211066428519u64 as u32);
}

#[test]
fn pcg32_reference_values() {
    let mut rng = Pcg32::new(42, 54);
    let expected: [u32; 6] = [0xa15c02b7, 0x7b47f409, 0xba1d3330, 0x83d2f293, 0xbfa4784b, 0xcbed606e];
    for e in expected {
        assert_eq!(rng.get(), e);
    }
    let mut wide = Pcg32::new(42, 54);
    assert_eq!(wide.random_u64(), 0xa15c02b77b47f409);
}

#[test]
fn pcg32_new_raw_takes_state_and_increment_as_they_are() {
    let mut stuck = Pcg32::new_raw(0, 0);
    assert_eq!(stuck.get(), 0);
    assert_eq!(stuck.get(), 0);
    let mut made = Pcg32::new(0, 1);
    let mut raw = Pcg32::new_raw(0, 3);
    raw.get();
    raw.get();
    assert_eq!(raw.get(), made.get());
}

#[test]
fn mtwister_reference_values() {
    let mut rng = MTwister::new(5489);
    assert_eq!(rng.get(), 3499211612);
    assert_eq!(rng.get(), 581869302);
    assert_eq!(rng.get(), 3890346734);
    assert_eq!(rng.get(), 3586334585);
    assert_eq!(rng.get(), 545404204);
}

#[test]
fn mtwister_regenerates_after_624_values() {
    let mut rng = MTwister::new(0);
    assert_eq!(rng.get_checked(), None);
    rng.run();
    assert_eq!(rng.get_checked(), Some(2357136044));
    assert_eq!(rng.get(), 2546248239);
    assert_eq!(rng.get(), 3071714933);
    let mut last = 0;
    for _ in 3..624 {
        last = rng.get_checked().unwrap();
    }
    assert_eq!(last, 3791854820);
    assert_eq!(rng.get_checked(), None);
    assert_eq!(rng.get(), 341544762);
}

#[test]
fn fiblfsr16_reference_values() {
    let mut rng = FibLFSR16::new_raw(0xace1);
    assert_eq!(rng.get(), 0x5670);
    assert_eq!(rng.get(), 0xab38);
    assert_eq!(rng.get(), 0x559c);
    assert_eq!(rng.get(), 0x2ace);
    let mut words = FibLFSR16::new(0xace1);
    assert_eq!(words.random_u32(), 0x5670ab38);
    let mut wide = FibLFSR16::new(0xace1);
    assert_eq!(wide.random_u64(), 0x5670ab38559c2ace);
}

#[test]
fn collatzweyl_reference_values() {
    let mut a = CollatzWeyl64::new_two(5, 10);
    assert_eq!([a.get(), a.get(), a.get(), a.get()], [1, 22, 286, 45017]);
    let mut b = CollatzWeyl128_64::new_two(5, 10);
    assert_eq!([b.get(), b.get(), b.get(), b.get()], [1, 21, 304, 50361]);
    let mut c = CollatzWeyl128::new_two((1 << 100) + 3, 7);
    assert_eq!(c.get(), 3169126500570573503741758013460);
    assert_eq!(c.get(), 19965496953594613073573075484728);
    assert_eq!(c.get(), 69879239337581145757505764196641);
}

#[test]
fn collatzweyl_seeds_are_made_odd() {
    let mut even = CollatzWeyl64::new_one(0);
    let mut odd = CollatzWeyl64::new_raw(0, 1);
    assert_eq!([even.get(), even.get(), even.get(), even.get()], [1, 2, 0, 4]);
    assert_eq!([odd.get(), odd.get(), odd.get(), odd.get()], [1, 2, 0, 4]);
    let mut wide = CollatzWeyl128_64::new_one(0);
    assert_eq!([wide.get(), wide.get(), wide.get(), wide.get()], [1, 2, 0, 5]);
    let mut widest = CollatzWeyl128::new_one(10);
    let mut same = CollatzWeyl128::new_two(0, 11);
    assert_eq!(widest.get(), same.get());
    assert_eq!(widest.random_u64(), same.random_u64());
    assert_eq!(widest.random_u32(), same.random_u32());
}

#[test]
fn collatzweyl_raw_zero_stays_zero() {
    let mut a = CollatzWeyl64::new_raw(0, 0);
    let mut b = CollatzWeyl128_64::new_raw(0, 0);
    let mut c = CollatzWeyl128::new_raw(0, 0);
    for _ in 0..8 {
        assert_eq!(a.get(), 0);
        assert_eq!(b.get(), 0);
        assert_eq!(c.get(), 0);
    }
}

#[test]
fn wichhill_steps() {
    let mut rng = WichHill::new([10, 20, 30]);
    assert_eq!(rng.step(), (1710, 3440, 5100));
    assert_eq!(rng.step(), (19989, 15847, 17956));
    assert_eq!(rng.step(), (27991, 28361, 20220));
}

#[test]
fn wichhill_value_is_the_fraction_of_the_sum() {
    let mut rng = WichHill::new([10, 20, 30]);
    let expected = [0.33818773630473775f64, 0.7754188755966642, 0.5273524613909046];
    for e in expected {
        let (a, b, c) = rng.step();
        let x = a as f64 / 30269.0 + b as f64 / 30307.0 + c as f64 / 30323.0;
        assert_eq!(x % 1.0, e);
    }
}

#[test]
fn wichhill_zero_seeds() {
    let mut raw = WichHill::new_raw([0, 0, 0]);
    assert_eq!(raw.step(), (0, 0, 0));
    assert_eq!(raw.step(), (0, 0, 0));
    let mut made = WichHill::new([0, 0, 0]);
    assert_eq!(made.step(), (171, 172, 170));
    assert_eq!(made.step(), (29241, 29584, 28900));
    let mut mixed = WichHill::new([0, 7, 0]);
    assert_eq!(mixed.step(), (171, 1204, 170));
}

#[test]
fn zero_seed_is_replaced_by_the_validating_constructor() {
    let mut a = XorShift32::new(0);
    let mut a1 = XorShift32::new(1);
    let mut b = XorShift64::new(0);
    let mut c = XorShift128p::new([0, 0]);
    let mut d = XorShift256ss::new([0, 0, 0, 0]);
    let mut e = FibLFSR16::new(0);
    let mut f = FibLFG8::new(0);
    for _ in 0..64 {
        let x = a.get();
        assert_eq!(x, a1.get());
        assert_ne!(x, 0);
        assert_ne!(b.get(), 0);
        assert_ne!(e.get(), 0);
    }
    assert_eq!([c.get(), c.get()], [8388641, 8650784]);
    assert_eq!([d.get(), d.get(), d.get()], [5760, 5760, 754974720]);
    assert_eq!([f.get(), f.get(), f.get(), f.get()], [2, 3, 5, 8]);
}

#[test]
fn fiblfsr16_zero_seed_first_values() {
    let mut rng = FibLFSR16::new(0);
    assert_eq!([rng.get(), rng.get(), rng.get(), rng.get()], [32768, 16384, 8192, 4096]);
}

#[test]
fn raw_zero_seed_draws_zeros_forever() {
    let mut a = XorShift32::new_raw(0);
    let mut b = XorShift64::new_raw(0);
    let mut c = XorShift128p::new_raw([0, 0]);
    let mut d = XorShift256ss::new_raw([0, 0, 0, 0]);
    let mut e = FibLFSR16::new_raw(0);
    let mut f = FibLFG8::new_raw(0, 0, 0, 0, false);
    for _ in 0..32 {
        assert_eq!(a.get(), 0);
        assert_eq!(b.get(), 0);
        assert_eq!(c.get(), 0);
        assert_eq!(d.get(), 0);
        assert_eq!(e.get(), 0);
        assert_eq!(f.get(), 0);
    }
}

#[test]
fn one_zero_word_is_replaced_alone() {
    let mut a = XorShift128p::new([0, 20]);
    let mut b = XorShift128p::new_raw([1, 20]);
    assert_eq!(a.get(), b.get());
    let mut c = XorShift256ss::new([1, 0, 3, 0]);
    let mut d = XorShift256ss::new_raw([1, 1, 3, 1]);
    assert_eq!(c.get(), d.get());
    assert_eq!(c.get(), d.get());
    let mut e = FibLFG8::new(0x00120045);
    let mut f = FibLFG8::new_raw(1, 1, 0x45, 0x12, false);
    assert_eq!(e.get(), f.get());
    assert_eq!(e.get(), f.get());
}

fn mixed_draws<R: RandomImpl>(rng: &mut R) -> Vec<u8> {
    let mut out: Vec<u8> = Vec::new();
    out.extend_from_slice(&rng.random_u32().to_le_bytes());
    out.extend_from_slice(&rng.random_u64().to_le_bytes());
    let mut buf = [0u8; 13];
    rng.random_bytes(&mut buf);
    out.extend_from_slice(&buf);
    out.extend_from_slice(&rng.random_u128().to_le_bytes());
    out.push(rng.random_u8());
    out.extend_from_slice(&rng.random_u16().to_le_bytes());
    out.push(rng.random_bool() as u8);
    out.extend_from_slice(&rng.random_u32().to_le_bytes());
    out
}

#[test]
fn same_seed_same_stream() {
    assert_eq!(mixed_draws(&mut XorShift32::new(77)), mixed_draws(&mut XorShift32::new(77)));
    assert_eq!(mixed_draws(&mut XorShift64::new(77)), mixed_draws(&mut XorShift64::new(77)));
    assert_eq!(
        mixed_draws(&mut XorShift128p::new([7, 8])),
        mixed_draws(&mut XorShift128p::new([7, 8]))
    );
    assert_eq!(
        mixed_draws(&mut XorShift256ss::new([7, 8, 9, 10])),
        mixed_draws(&mut XorShift256ss::new([7, 8, 9, 10]))
    );
    assert_eq!(mixed_draws(&mut SplitMix64::new(77)), mixed_draws(&mut SplitMix64::new(77)));
    assert_eq!(mixed_draws(&mut Pcg32::new(77, 3)), mixed_draws(&mut Pcg32::new(77, 3)));
    assert_eq!(mixed_draws(&mut MTwister::new(77)), mixed_draws(&mut MTwister::new(77)));
    assert_eq!(mixed_draws(&mut FibLFSR16::new(77)), mixed_draws(&mut FibLFSR16::new(77)));
    assert_eq!(mixed_draws(&mut FibLFG8::new(77)), mixed_draws(&mut FibLFG8::new(77)));
    assert_eq!(mixed_draws(&mut MINSTD::new(77)), mixed_draws(&mut MINSTD::new(77)));
    assert_eq!(mixed_draws(&mut Lecuyer8::new(77)), mixed_draws(&mut Lecuyer8::new(77)));
    assert_eq!(
        mixed_draws(&mut CollatzWeyl64::new_two(1, 77)),
        mixed_draws(&mut CollatzWeyl64::new_two(1, 77))
    );
    assert_eq!(
        mixed_draws(&mut CollatzWeyl128::new_two(1, 77)),
        mixed_draws(&mut CollatzWeyl128::new_two(1, 77))
    );
    assert_ne!(mixed_draws(&mut XorShift64::new(77)), mixed_draws(&mut XorShift64::new(78)));
}

#[test]
fn clone_continues_the_same_stream() {
    let mut a = XorShift256ss::new([1, 2, 3, 4]);
    a.get();
    let mut b = a.clone();
    assert_eq!(a.get(), b.get());
    assert_eq!(a.get(), b.get());
    let mut c = FibLFG8::new(0x0212c845);
    c.get();
    let mut d = c.clone();
    assert_eq!(c.get(), d.get());
    let mut e = MTwister::new(1);
    e.get();
    let mut f = e.clone();
    assert_eq!(e.get(), f.get());
    let mut g = WichHill::new([1, 2, 3]);
    g.step();
    let mut h = g.clone();
    assert_eq!(g.step(), h.step());
    let mut i = XorShift128p::new([1, 2]);
    i.get();
    let mut j = i.clone();
    assert_eq!(i.get(), j.get());
}

#[test]
fn wichhill_seed_that_is_a_modulus_is_stuck() {
    let mut rng = WichHill::new([30269, 1, 1]);
    assert_eq!(rng.step(), (0, 172, 170));
    assert_eq!(rng.step(), (0, 29584, 28900));
}

#[test]
fn clone_of_every_algorithm_is_in_the_same_state() {
    let mut a = ChaCha::new([1, 2, 3, 4, 5, 6, 7, 8], [9, 10, 11], 7);
    a.get();
    let mut b = a.clone();
    assert_eq!(a.inner(), b.inner());
    for _ in 0..20 {
        assert_eq!(a.get(), b.get());
    }
    let mut c = Pcg32::new(42, 54);
    c.get();
    let mut d = c.clone();
    assert_eq!(c.get(), d.get());
    let mut e = FibLFSR16::new(0xace1);
    e.get();
    let mut f = e.clone();
    assert_eq!(e.get(), f.get());
    let mut g = XorShift32::new(1);
    g.get();
    let mut h = g.clone();
    assert_eq!(g.get(), h.get());
    let mut i = XorShift64::new(1);
    i.get();
    let mut j = i.clone();
    assert_eq!(i.get(), j.get());
}
