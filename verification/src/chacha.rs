//! The ChaCha stream core, as a generator of 32-bit words.

use vstd::prelude::*;
use crate::common::lemma_spec_array;
use crate::common::rotl32;
use crate::common::spec_array;
use crate::common::spec_rotl32;
use crate::common::spec_u32_compose_u64;
use crate::common::spec_u32_le_bytes;
use crate::common::u32_compose_u64;
use crate::common::u32_le_bytes;
use crate::random::RandomImpl;
use crate::random::fill_u32;

verus! {

/// One quarter round on four words: four steps of add, xor and rotate.
pub open spec fn spec_quarter(a: u32, b: u32, c: u32, d: u32) -> (u32, u32, u32, u32) {
    let a1 = a.wrapping_add(b);
    let d1 = spec_rotl32(d ^ a1, 16);
    let c1 = c.wrapping_add(d1);
    let b1 = spec_rotl32(b ^ c1, 12);
    let a2 = a1.wrapping_add(b1);
    let d2 = spec_rotl32(d1 ^ a2, 8);
    let c2 = c1.wrapping_add(d2);
    let b2 = spec_rotl32(b1 ^ c2, 7);
    (a2, b2, c2, d2)
}

/// The matrix `s` after a quarter round on the words at `a`, `b`, `c` and `d`.
pub open spec fn spec_quarter_at(s: Seq<u32>, a: int, b: int, c: int, d: int) -> Seq<u32> {
    let q = spec_quarter(s[a], s[b], s[c], s[d]);
    s.update(a, q.0).update(b, q.1).update(c, q.2).update(d, q.3)
}

/// The matrix `s` after a double round: the four columns, then the four diagonals.
pub open spec fn spec_double_round(s: Seq<u32>) -> Seq<u32> {
    let s = spec_quarter_at(s, 0, 4, 8, 12);
    let s = spec_quarter_at(s, 1, 5, 9, 13);
    let s = spec_quarter_at(s, 2, 6, 10, 14);
    let s = spec_quarter_at(s, 3, 7, 11, 15);
    let s = spec_quarter_at(s, 0, 5, 10, 15);
    let s = spec_quarter_at(s, 1, 6, 11, 12);
    let s = spec_quarter_at(s, 2, 7, 8, 13);
    spec_quarter_at(s, 3, 4, 9, 14)
}

/// The matrix `s` after `n` double rounds.
pub open spec fn spec_double_rounds(s: Seq<u32>, n: nat) -> Seq<u32>
    decreases n,
{
    if n == 0 {
        s
    } else {
        spec_double_round(spec_double_rounds(s, (n - 1) as nat))
    }
}

/// The output block of `rounds` rounds on the matrix `s`: `s` plus the mixed
/// matrix, word by word and wrapping. An odd `rounds` counts as one less.
pub open spec fn spec_block(s: Seq<u32>, rounds: u8) -> Seq<u32> {
    Seq::new(16, |i: int| s[i].wrapping_add(spec_double_rounds(s, (rounds / 2) as nat)[i]))
}

/// The initial matrix: the constant row, the key, the block counter, the nonce.
pub open spec fn spec_initial(key: Seq<u32>, nonce: Seq<u32>, block: u32) -> Seq<u32> {
    seq![
        0x61707865u32,
        0x3320646eu32,
        0x79622d32u32,
        0x6b206574u32,
        key[0],
        key[1],
        key[2],
        key[3],
        key[4],
        key[5],
        key[6],
        key[7],
        block,
        nonce[0],
        nonce[1],
        nonce[2],
    ]
}

/// The 64 bytes of the matrix `s`: each word's bytes, least significant first.
pub open spec fn spec_matrix_bytes(s: Seq<u32>) -> Seq<u8> {
    Seq::new(64, |i: int| spec_u32_le_bytes(s[i / 4])[i % 4])
}

/// ChaCha with `N` rounds.
///
/// The state is a matrix of 16 words: a constant row, eight words of key, a
/// block counter and three words of nonce. `run` replaces it by its output
/// block, whose words `get` then hands out one by one.
pub struct ChaCha<const N: u8> {
    /// The matrix, and after a `run` the output block.
    pub seed: [u32; 16],
    /// How many words of the block were handed out; 16 or more where none is left.
    pub serialized: u8,
}

impl<const N: u8> Clone for ChaCha<N> {
    fn clone(&self) -> (r: Self)
        ensures
            r == *self,
    {
        Self { seed: self.seed, serialized: self.serialized }
    }
}

/// One quarter round on the words of `x` at `a`, `b`, `c` and `d`.
fn quarter_round(x: &mut [u32; 16], a: usize, b: usize, c: usize, d: usize)
    requires
        a < 16,
        b < 16,
        c < 16,
        d < 16,
    ensures
        final(x)@ == spec_quarter_at(old(x)@, a as int, b as int, c as int, d as int),
{
    let mut xa: u32 = x[a];
    let mut xb: u32 = x[b];
    let mut xc: u32 = x[c];
    let mut xd: u32 = x[d];

    xa = xa.wrapping_add(xb);
    xd ^= xa;
    xd = rotl32(xd, 16);

    xc = xc.wrapping_add(xd);
    xb ^= xc;
    xb = rotl32(xb, 12);

    xa = xa.wrapping_add(xb);
    xd ^= xa;
    xd = rotl32(xd, 8);

    xc = xc.wrapping_add(xd);
    xb ^= xc;
    xb = rotl32(xb, 7);

    x[a] = xa;
    x[b] = xb;
    x[c] = xc;
    x[d] = xd;
}

impl ChaCha<12> {
    /// Construct a new `ChaCha` with 12 rounds from a key, a nonce and a block counter.
    pub fn new(key: [u32; 8], nonce: [u32; 3], block: u32) -> (r: Self)
        ensures
            r.seed@ == spec_initial(key@, nonce@, block),
            r.serialized == 16,
    {
        Self::new_n(key, nonce, block)
    }
}

impl<const N: u8> ChaCha<N> {
    /// The generator after `run`: the matrix replaced by its output block, no word handed out.
    pub open spec fn spec_run(&self) -> Self {
        ChaCha { seed: spec_array(spec_block(self.seed@, N)), serialized: 0 }
    }

    /// Whether no word of the current block is left.
    pub open spec fn consumed(&self) -> bool {
        self.serialized >= 16
    }

    /// Construct a new `ChaCha` from the 16 words of the matrix as they are.
    pub fn new_raw(seed: [u32; 16]) -> (r: Self)
        ensures
            r.seed == seed,
            r.serialized == 16,
    {
        Self { seed, serialized: 16 }
    }

    /// Construct a new `ChaCha` from a key, a nonce and a block counter.
    pub fn new_n(key: [u32; 8], nonce: [u32; 3], block: u32) -> (r: Self)
        ensures
            r.seed@ == spec_initial(key@, nonce@, block),
            r.serialized == 16,
    {
        let r = Self::new_raw(
            [
                0x61707865,
                0x3320646e,
                0x79622d32,
                0x6b206574,
                key[0],
                key[1],
                key[2],
                key[3],
                key[4],
                key[5],
                key[6],
                key[7],
                block,
                nonce[0],
                nonce[1],
                nonce[2],
            ],
        );
        assert(r.seed@ =~= spec_initial(key@, nonce@, block));
        r
    }

    /// The internal state, which after a call to `run` is the output block.
    pub fn inner(&self) -> (r: [u32; 16])
        ensures
            r == self.seed,
    {
        self.seed
    }

    /// The internal state as bytes, each word in little-endian order.
    pub fn inner_bytes(&self) -> (r: [u8; 64])
        ensures
            r@ == spec_matrix_bytes(self.seed@),
    {
        let mut ret: [u8; 64] = [0u8; 64];
        let mut i: usize = 0;
        while i < 16
            invariant
                i <= 16,
                forall|j: int| 0 <= j < 4 * i ==> ret@[j] == spec_matrix_bytes(self.seed@)[j],
            decreases 16 - i,
        {
            let word: [u8; 4] = u32_le_bytes(self.seed[i]);
            let base: usize = 4 * i;
            ret[base] = word[0];
            ret[base + 1] = word[1];
            ret[base + 2] = word[2];
            ret[base + 3] = word[3];
            i += 1;
        }
        assert(ret@ =~= spec_matrix_bytes(self.seed@));
        ret
    }

    /// Complete `N` rounds of the algorithm: the state becomes the output block.
    pub fn run(&mut self)
        ensures
            *final(self) == old(self).spec_run(),
            final(self).seed@ == spec_block(old(self).seed@, N),
            final(self).serialized == 0,
    {
        let mut x: [u32; 16] = self.seed;
        let half: u8 = N / 2;
        let mut n: u8 = 0;
        while n < half
            invariant
                n <= half,
                x@ == spec_double_rounds(self.seed@, n as nat),
            decreases half - n,
        {
            quarter_round(&mut x, 0, 4, 8, 12);
            quarter_round(&mut x, 1, 5, 9, 13);
            quarter_round(&mut x, 2, 6, 10, 14);
            quarter_round(&mut x, 3, 7, 11, 15);

            quarter_round(&mut x, 0, 5, 10, 15);
            quarter_round(&mut x, 1, 6, 11, 12);
            quarter_round(&mut x, 2, 7, 8, 13);
            quarter_round(&mut x, 3, 4, 9, 14);
            n += 1;
        }

        let mut i: usize = 0;
        while i < 16
            invariant
                i <= 16,
                x@ == spec_double_rounds(old(self).seed@, (N / 2) as nat),
                self.serialized == old(self).serialized,
                forall|j: int| 0 <= j < i ==> self.seed@[j] == spec_block(old(self).seed@, N)[j],
                forall|j: int| i <= j < 16 ==> self.seed@[j] == old(self).seed@[j],
            decreases 16 - i,
        {
            self.seed[i] = self.seed[i].wrapping_add(x[i]);
            i += 1;
        }

        self.serialized = 0;
        proof {
            assert(self.seed@ =~= spec_block(old(self).seed@, N));
            lemma_spec_array(self.seed);
        }
    }

    /// The next word of the block, or `None` where the block is consumed.
    /// A call to `run` makes a new block.
    pub fn get_checked(&mut self) -> (r: Option<u32>)
        ensures
            old(self).consumed() ==> r.is_none() && *final(self) == *old(self),
            !old(self).consumed() ==> r == Some(old(self).seed@[old(self).serialized as int])
                && final(self).seed == old(self).seed && final(self).serialized == old(
                self,
            ).serialized + 1,
    {
        if self.serialized >= 16 {
            None
        } else {
            let ret: u32 = self.seed[self.serialized as usize];
            self.serialized += 1;
            Some(ret)
        }
    }

    /// The next word of the block. Where the block is consumed, `run` makes a new one first.
    pub fn get(&mut self) -> (r: u32)
        ensures
            r == old(self).draw_u32().0,
            *final(self) == old(self).draw_u32().1,
            !old(self).consumed() ==> r == old(self).seed@[old(self).serialized as int],
            !old(self).consumed() ==> final(self).seed == old(self).seed,
            !old(self).consumed() ==> final(self).serialized == old(self).serialized + 1,
            old(self).consumed() ==> r == spec_block(old(self).seed@, N)[0],
            old(self).consumed() ==> final(self).seed@ == spec_block(old(self).seed@, N),
            old(self).consumed() ==> final(self).serialized == 1,
    {
        if self.serialized >= 16 {
            self.run();
        }
        let ret: u32 = self.seed[self.serialized as usize];
        self.serialized += 1;
        ret
    }
}

impl<const N: u8> RandomImpl for ChaCha<N> {
    open spec fn valid(&self) -> bool {
        true
    }

    open spec fn draw_u32(&self) -> (u32, Self) {
        let s = if self.consumed() {
            self.spec_run()
        } else {
            *self
        };
        (s.seed@[s.serialized as int], ChaCha { seed: s.seed, serialized: (s.serialized + 1) as u8 })
    }

    open spec fn draw_u64(&self) -> (u64, Self) {
        let (hi, s1) = self.draw_u32();
        let (lo, s2) = s1.draw_u32();
        (spec_u32_compose_u64(hi, lo), s2)
    }

    open spec fn draw_bytes(&self, len: nat) -> (Seq<u8>, Self) {
        fill_u32(|s: Self| s.draw_u32(), *self, len)
    }

    fn random_u64(&mut self) -> (r: u64) {
        let hi: u32 = self.get();
        let lo: u32 = self.get();
        u32_compose_u64(hi, lo)
    }

    fn random_u32(&mut self) -> (r: u32) {
        self.get()
    }

    fn random_bytes(&mut self, dst: &mut [u8]) {
        self.bytes_from_u32(dst);
    }
}

/// The message with each byte xored with the byte of the key stream at its
/// place: the message encrypted, or the encrypted message decrypted.
pub open spec fn spec_xor_stream(message: Seq<u8>, stream: Seq<u8>) -> Seq<u8> {
    Seq::new(message.len(), |i: int| message[i] ^ stream[i])
}

/// Encrypting twice with the same key stream gives the message back.
pub proof fn law_xor_twice(message: Seq<u8>, stream: Seq<u8>)
    ensures
        spec_xor_stream(spec_xor_stream(message, stream), stream) == message,
{
    let once = spec_xor_stream(message, stream);
    let twice = spec_xor_stream(once, stream);
    assert forall|i: int| 0 <= i < message.len() implies twice[i] == message[i] by {
        let m = message[i];
        let k = stream[i];
        assert((m ^ k) ^ k == m) by (bit_vector);
    }
    assert(twice =~= message);
}

} // verus!
