use prrng::chacha::ChaCha;
use prrng::random::Random;
use prrng::random::RandomImpl;
use prrng::splitmix64::SplitMix64;

const ZERO_12: [u32; 16] = [
    0x6a9af49b, 0x53f95507, 0x12ce1f81, 0xd583265f, 0xbbc32904, 0x1474e049, 0xa589007e, 0x5f15ae2e,
    0x79f86405, 0xc0e37ad2, 0x3428e82c, 0x798cfaac, 0x2c9f623a, 0x1969dea0, 0x2fe80b61, 0xbe261341,
];

fn hex(bytes: &[u8]) -> String {
    let mut s = String::new();
    for b in bytes {
        s.push_str(&format!("{:02x}", b));
    }
    s
}

#[test]
fn chacha12_zero_key_reference_block() {
    let mut rng = ChaCha::new([0; 8], [0; 3], 0);
    rng.run();
    assert_eq!(rng.inner(), ZERO_12);
    assert_eq!(
        hex(&rng.inner_bytes()),
        "9bf49a6a0755f953811fce125f2683d50429c3bb49e074147e0089a52eae155f\
         0564f879d27ae3c02ce82834acfa8c793a629f2ca0de6919610be82f411326be"
    );
}

#[test]
fn chacha20_and_chacha8_zero_key_reference_blocks() {
    let mut twenty = ChaCha::<20>::new_n([0; 8], [0; 3], 0);
    twenty.run();
    assert_eq!(
        hex(&twenty.inner_bytes()),
        "76b8e0ada0f13d90405d6ae55386bd28bdd219b8a08ded1aa836efcc8b770dc7\
         da41597c5157488d7724e03fb8d84a376a43b8f41518a11cc387b669b2ee6586"
    );
    let mut eight = ChaCha::<8>::new_n([0; 8], [0; 3], 0);
    eight.run();
    assert_eq!(
        hex(&eight.inner_bytes()),
        "3e00ef2f895f40d67f5bb8e81f09a5a12c840ec3ce9a7f3b181be188ef711a1e\
         984ce172b9216f419f445367456d5619314a42a3da86b001387bfdb80e0cfe42"
    );
}

#[test]
fn chacha_matrix_layout() {
    let rng = ChaCha::<12>::new_n([1, 2, 3, 4, 5, 6, 7, 8], [9, 10, 11], 7);
    assert_eq!(
        rng.inner(),
        [0x61707865, 0x3320646e, 0x79622d32, 0x6b206574, 1, 2, 3, 4, 5, 6, 7, 8, 7, 9, 10, 11]
    );
    assert_eq!(&rng.inner_bytes()[..16], b"expand 32-byte k");
    let raw = ChaCha::<12>::new_raw(rng.inner());
    assert_eq!(raw.inner(), rng.inner());
}

#[test]
fn chacha12_with_key_nonce_and_block() {
    let mut rng = ChaCha::new([1, 2, 3, 4, 5, 6, 7, 8], [9, 10, 11], 7);
    rng.run();
    assert_eq!(
        rng.inner(),
        [
            0x4d397fca, 0xfc313f12, 0x245bcb13, 0xd1c7b1c6, 0x1e9e93bf, 0x0c59b28b, 0x994c998f,
            0x94f7fbbd, 0x327a028b, 0x5181e9a6, 0x02c773ff, 0x62669187, 0x7dec91f5, 0xbeb657ff,
            0xd57756fe, 0xfdb18aa0,
        ]
    );
}

#[test]
fn chacha_hands_out_the_block_word_by_word() {
    let mut rng = ChaCha::new([0; 8], [0; 3], 0);
    assert_eq!(rng.get_checked(), None);
    for word in ZERO_12 {
        assert_eq!(rng.get(), word);
    }
    assert_eq!(rng.get_checked(), None);
    // the next block is made from the last one
    assert_eq!(rng.get(), 0x4d6671cf);
    assert_eq!(rng.get_checked(), Some(0x75b44629));
}

#[test]
fn chacha_run_starts_the_block_anew() {
    let mut rng = ChaCha::new([0; 8], [0; 3], 0);
    rng.run();
    assert_eq!(rng.get_checked(), Some(ZERO_12[0]));
    assert_eq!(rng.get_checked(), Some(ZERO_12[1]));
    rng.run();
    assert_eq!(rng.get_checked(), Some(0x4d6671cf));
}

#[test]
fn chacha_words_widen_high_half_first() {
    let mut rng = ChaCha::new([0; 8], [0; 3], 0);
    assert_eq!(rng.random_u64(), 0x6a9af49b53f95507);
    assert_eq!(rng.random_u32(), 0x12ce1f81);
    let mut dst = [0u8; 5];
    rng.random_bytes(&mut dst);
    assert_eq!(dst, [0x5f, 0x26, 0x83, 0xd5, 0x04]);
    assert_eq!(rng.random_u32(), 0x1474e049);
}

#[test]
fn chacha_odd_round_count_rounds_down() {
    let mut odd = ChaCha::<13>::new_n([0; 8], [0; 3], 0);
    odd.run();
    assert_eq!(odd.inner(), ZERO_12);
    let mut none = ChaCha::<0>::new_n([0; 8], [0; 3], 0);
    none.run();
    assert_eq!(none.inner()[0], 0x61707865u32.wrapping_mul(2));
    assert_eq!(none.inner()[4], 0);
}

fn encrypt_block(key: [u32; 8], nonce: [u32; 3], block: u32, bytes: &mut [u8]) {
    // new ChaCha12 instance for every block
    let mut rng = ChaCha::new(key, nonce, block);

    // run 12 rounds
    rng.run();

    // xor every byte
    for (i, o) in bytes.iter_mut().zip(rng.inner_bytes().iter()) {
        *i ^= *o;
    }
}

#[test]
fn chacha_encrypting_twice_gives_the_message_back() {
    let mut source = SplitMix64::new(1);

    let key: [u32; 8] = source.random();
    let nonce: [u32; 3] = source.random();

    let plain = b"meow meow meow meow meow meow meow meow meow meow meow meow meow meow meow".to_vec();
    let mut message = plain.clone();

    for (block, bytes) in message.chunks_mut(64).enumerate() {
        encrypt_block(key, nonce, block as u32, bytes);
    }

    assert_ne!(message, plain);

    for (block, bytes) in message.chunks_mut(64).enumerate() {
        encrypt_block(key, nonce, block as u32, bytes);
    }

    assert_eq!(message, plain);
}

#[test]
fn chacha_zero_key_encrypts_zeros_to_the_key_stream() {
    let mut message = [0u8; 64];
    encrypt_block([0; 8], [0; 3], 0, &mut message);
    assert_eq!(&message[..8], &[0x9b, 0xf4, 0x9a, 0x6a, 0x07, 0x55, 0xf9, 0x53]);
    encrypt_block([0; 8], [0; 3], 0, &mut message);
    assert_eq!(message, [0u8; 64]);
}
