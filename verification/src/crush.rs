//! A wrapper that folds the draws of a generator through a hash accumulator.
//!
//! Many algorithms are not cryptographically secure: from what they have
//! drawn, what they will draw can be computed. `Crush` does not help with
//! this. It may make a weak generator look better; it is no replacement for
//! a secure one.

use vstd::prelude::*;
use crate::random::RandomImpl;
use crate::random::after_u64;
use crate::random::fill_u64;
use crate::random::iterate;
use crate::random::lemma_after_u64_add;
use crate::random::lemma_values_u64_add;
use crate::random::values_u64;

verus! {

/// A hash accumulator: values are written into it, and its digest can be
/// read at any time.
///
/// The state is a function of the state before and the value written, and
/// the digest a function of the state. Reading the digest changes nothing.
pub trait Accumulator: Sized {
    /// The state after `value` is written into this one.
    open spec fn absorb(&self, value: u64) -> Self {
        arbitrary()
    }

    /// The digest of this state.
    open spec fn digest(&self) -> u64 {
        arbitrary()
    }

    /// Write a value into the accumulator.
    fn write_u64(&mut self, value: u64)
        ensures
            *final(self) == old(self).absorb(value),
    ;

    /// The digest of all that was written so far.
    fn finish(&self) -> (r: u64)
        ensures
            r == self.digest(),
    ;
}

/// The state of `h` after the values of `written` are written into it, first to last.
pub open spec fn absorb_all<H: Accumulator>(h: H, written: Seq<u64>) -> H
    decreases written.len(),
{
    if written.len() == 0 {
        h
    } else {
        absorb_all(h, written.drop_last()).absorb(written.last())
    }
}

/// Writing one run of values and then another is writing the two in a row.
pub proof fn lemma_absorb_all_add<H: Accumulator>(h: H, a: Seq<u64>, b: Seq<u64>)
    ensures
        absorb_all(absorb_all(h, a), b) == absorb_all(h, a + b),
    decreases b.len(),
{
    if b.len() == 0 {
        assert(a + b =~= a);
    } else {
        lemma_absorb_all_add(h, a, b.drop_last());
        assert((a + b).drop_last() =~= a + b.drop_last());
        assert((a + b).last() == b.last());
    }
}

/// A generator whose value is the digest of an accumulator into which `N`
/// draws of the inner generator are written for every value.
///
/// The accumulator is never reset: a value depends on all the draws that
/// were written before it, not only on its own `N`.
pub struct Crush<const N: usize, R: RandomImpl, H: Accumulator> {
    /// The generator whose draws are written into the accumulator.
    pub inner: R,
    /// The accumulator.
    pub hash: H,
}

impl<const N: usize, R: RandomImpl + Clone, H: Accumulator + Clone> Clone for Crush<N, R, H> {
    /// A `Crush` around a clone of the inner generator, with a clone of the accumulator.
    fn clone(&self) -> (r: Self)
        ensures
            cloned(self.inner, r.inner),
            cloned(self.hash, r.hash),
    {
        Self { inner: self.inner.clone(), hash: self.hash.clone() }
    }
}

impl<const N: usize, R: RandomImpl, H: Accumulator> Crush<N, R, H> {
    /// The value that `get` returns from this state, and the state after it:
    /// the next `N` 64-bit draws of the inner generator are written into the
    /// accumulator, in the order drawn, and the value is its digest.
    pub open spec fn spec_get(&self) -> (u64, Self) {
        let hash = absorb_all(self.hash, values_u64(self.inner, N as nat));
        (hash.digest(), Crush { inner: after_u64(self.inner, N as nat), hash })
    }

    /// Construct a new `Crush` from a generator and an accumulator.
    pub fn new(inner: R, hasher: H) -> (r: Self)
        ensures
            r.inner == inner,
            r.hash == hasher,
    {
        Self { inner, hash: hasher }
    }

    /// Consume the wrapper and return the inner generator and the accumulator.
    pub fn unwrap(self) -> (r: (R, H))
        ensures
            r.0 == self.inner,
            r.1 == self.hash,
    {
        (self.inner, self.hash)
    }

    /// Write `N` draws into the accumulator and return its digest.
    pub fn get(&mut self) -> (r: u64)
        requires
            old(self).inner.valid(),
        ensures
            r == old(self).spec_get().0,
            *final(self) == old(self).spec_get().1,
            final(self).inner.valid(),
            final(self).inner == after_u64(old(self).inner, N as nat),
            final(self).hash == absorb_all(old(self).hash, values_u64(old(self).inner, N as nat)),
            values_u64(old(self).inner, N as nat).len() == N,
            r == final(self).hash.digest(),
    {
        let mut i: usize = 0;
        while i < N
            invariant
                i <= N,
                self.inner.valid(),
                self.inner == after_u64(old(self).inner, i as nat),
                self.hash == absorb_all(old(self).hash, values_u64(old(self).inner, i as nat)),
            decreases N - i,
        {
            let value: u64 = self.inner.random_u64();
            self.hash.write_u64(value);
            proof {
                let more = values_u64(old(self).inner, (i + 1) as nat);
                assert(more.drop_last() =~= values_u64(old(self).inner, i as nat));
            }
            i += 1;
        }
        self.hash.finish()
    }

    /// The accumulator is a ratchet: after `k` values, every draw of the inner
    /// generator so far, `N` for each value, is written into it, in the order
    /// drawn, on top of what it held before.
    pub proof fn law_whole_history(c: Self, k: nat)
        ensures
            iterate(|s: Self| s.spec_get(), c, k).inner == after_u64(c.inner, k * (N as nat)),
            iterate(|s: Self| s.spec_get(), c, k).hash == absorb_all(
                c.hash,
                values_u64(c.inner, k * (N as nat)),
            ),
            values_u64(c.inner, k * (N as nat)).len() == k * N,
        decreases k,
    {
        if k == 0 {
            assert(0 * (N as nat) == 0) by (nonlinear_arith);
        } else {
            Self::law_whole_history(c, (k - 1) as nat);
            let done: nat = ((k - 1) as nat) * (N as nat);
            assert(done + (N as nat) == k * (N as nat)) by (nonlinear_arith)
                requires
                    k > 0,
                    done == ((k - 1) as nat) * (N as nat),
            ;
            lemma_after_u64_add(c.inner, done, N as nat);
            lemma_values_u64_add(c.inner, done, N as nat);
            lemma_absorb_all_add(
                c.hash,
                values_u64(c.inner, done),
                values_u64(after_u64(c.inner, done), N as nat),
            );
        }
    }
}

impl<const N: usize, R: RandomImpl, H: Accumulator> RandomImpl for Crush<N, R, H> {
    open spec fn valid(&self) -> bool {
        self.inner.valid()
    }

    open spec fn draw_u64(&self) -> (u64, Self) {
        self.spec_get()
    }

    open spec fn draw_u32(&self) -> (u32, Self) {
        (self.spec_get().0 as u32, self.spec_get().1)
    }

    open spec fn draw_bytes(&self, len: nat) -> (Seq<u8>, Self) {
        fill_u64(|s: Self| s.draw_u64(), *self, len)
    }

    fn random_u64(&mut self) -> (r: u64) {
        self.get()
    }

    fn random_u32(&mut self) -> (r: u32) {
        self.get() as u32
    }

    fn random_bytes(&mut self, dst: &mut [u8]) {
        self.bytes_from_u64(dst);
    }
}

} // verus!
