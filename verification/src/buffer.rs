//! Wrappers that cache the draws of a generator.
//!
//! Some algorithms are slow. A buffer draws a batch of values in advance and
//! hands them out one by one; when all are handed out, the next request
//! draws a new batch. The batch lies in an array inside the buffer, so a
//! large buffer is best kept on the heap.

use vstd::prelude::*;
use crate::common::lemma_array_of_seq;
use crate::common::lemma_spec_array;
use crate::common::spec_array;
use crate::common::spec_u32_compose_u64;
use crate::common::spec_u32_from_le_bytes;
use crate::common::spec_u64_from_le_bytes;
use crate::common::u32_compose_u64;
use crate::random::FromRandom;
use crate::random::RandomImpl;
use crate::random::after_u32;
use crate::random::after_u64;
use crate::random::drawn_seq;
use crate::random::fill_u32;
use crate::random::fill_u64;
use crate::random::iterate;
use crate::random::lemma_after_u32_add;
use crate::random::lemma_after_u64_add;
use crate::random::values;
use crate::random::values_u32;
use crate::random::values_u64;

verus! {

/// The `n` bytes that a fill of `n` bytes takes from the generator `r`.
pub open spec fn batch_bytes<R: RandomImpl>(r: R, n: nat) -> Seq<u8> {
    Seq::new(n, |i: int| r.draw_bytes(n).0[i])
}

/// No value, whatever the index: what an empty slot holds.
fn no_value<T>(i: usize) -> (r: Option<T>)
    ensures
        r.is_none(),
{
    None
}

/// `core::array::from_fn` of std, with a function that gives `None` for
/// every index: an array of `N` slots that all hold `None`.
#[verifier::external_body]
fn empty_slots<T, const N: usize>() -> (a: [Option<T>; N])
    ensures
        forall|i: int| 0 <= i < N ==> a@[i].is_none(),
{
    core::array::from_fn(no_value::<T>)
}

/// The sequence `s` with every value in a filled slot.
pub open spec fn filled_slots<T>(s: Seq<T>) -> Seq<Option<T>> {
    Seq::new(s.len(), |i: int| Some(s[i]))
}

/// The values of `drawn_seq` are as many as were asked for.
pub proof fn lemma_drawn_seq_len<T: FromRandom<R>, R: RandomImpl>(r: R, n: nat)
    ensures
        drawn_seq::<T, R>(r, n).0.len() == n,
    decreases n,
{
    if n > 0 {
        lemma_drawn_seq_len::<T, R>(r, (n - 1) as nat);
    }
}

/// After `m` values and `n` more, a generator stands where `m + n` values leave it.
pub proof fn lemma_drawn_seq_add<T: FromRandom<R>, R: RandomImpl>(r: R, m: nat, n: nat)
    ensures
        drawn_seq::<T, R>(drawn_seq::<T, R>(r, m).1, n).1 == drawn_seq::<T, R>(r, m + n).1,
    decreases n,
{
    if n > 0 {
        lemma_drawn_seq_add::<T, R>(r, m, (n - 1) as nat);
    }
}

/// Value number `i` of `drawn_seq` is the one made from the state that the
/// `i` values before it leave.
pub proof fn lemma_drawn_seq_index<T: FromRandom<R>, R: RandomImpl>(r: R, n: nat, i: nat)
    requires
        i < n,
    ensures
        drawn_seq::<T, R>(r, n).0[i as int] == T::drawn(drawn_seq::<T, R>(r, i).1).0,
    decreases n,
{
    lemma_drawn_seq_len::<T, R>(r, (n - 1) as nat);
    if i < n - 1 {
        lemma_drawn_seq_index::<T, R>(r, (n - 1) as nat, i);
    }
}

/// A buffer of `N` values of the type `T`, which must be more than none.
///
/// Each slot is filled or empty. The slots before `index` are handed out
/// and empty, those from `index` on are filled and still to come; with
/// `index` at `N` or beyond, the buffer is consumed.
///
/// Such a buffer is itself a generator where `T` is `u32` or `u64`.
pub struct Buffer<T: FromRandom<R>, const N: usize, R: RandomImpl> {
    /// The generator that fills the buffer.
    pub inner: R,
    /// The batch of values.
    pub buf: [Option<T>; N],
    /// The slot of the next value to hand out.
    pub index: usize,
}

impl<T: FromRandom<R> + Clone, const N: usize, R: RandomImpl + Clone> Clone for Buffer<T, N, R> {
    /// A buffer around a clone of the inner generator, at the same slot,
    /// with a clone of every value that is still to come. The slots that are
    /// handed out are empty in the clone.
    fn clone(&self) -> (r: Self)
        ensures
            r.index == self.index,
            cloned(self.inner, r.inner),
            forall|i: int| 0 <= i < N && i < self.index ==> r.buf@[i].is_none(),
            forall|i: int|
                self.index <= i < N ==> (self.buf@[i].is_some() <==> r.buf@[i].is_some()),
            forall|i: int|
                self.index <= i < N && self.buf@[i].is_some() ==> cloned(
                    self.buf@[i].unwrap(),
                    r.buf@[i].unwrap(),
                ),
            self.filled() ==> r.filled(),
    {
        let mut buf: [Option<T>; N] = empty_slots();
        let mut i: usize = self.index;
        while i < N
            invariant
                self.index <= i,
                forall|j: int| 0 <= j < N && (j < self.index || i <= j) ==> buf@[j].is_none(),
                forall|j: int|
                    self.index <= j < i && j < N ==> (self.buf@[j].is_some() <==> buf@[j].is_some()),
                forall|j: int|
                    self.index <= j < i && j < N && self.buf@[j].is_some() ==> cloned(
                        self.buf@[j].unwrap(),
                        buf@[j].unwrap(),
                    ),
            decreases N - i,
        {
            buf[i] = self.buf[i].clone();
            i += 1;
        }
        Self { inner: self.inner.clone(), buf, index: self.index }
    }
}

impl<T: FromRandom<R>, const N: usize, R: RandomImpl> Buffer<T, N, R> {
    /// Whether every slot from `index` on is filled.
    pub open spec fn filled(&self) -> bool {
        forall|i: int| self.index <= i < N ==> self.buf@[i].is_some()
    }

    /// The buffer after `run`: its batch is the next `N` values that `T`
    /// takes from the inner generator, in the order taken, and none of it is
    /// handed out.
    pub open spec fn spec_run(&self) -> Self {
        Buffer {
            inner: drawn_seq::<T, R>(self.inner, N as nat).1,
            buf: spec_array(filled_slots(drawn_seq::<T, R>(self.inner, N as nat).0)),
            index: 0,
        }
    }

    /// The value that `get` returns from this buffer, and the buffer after it:
    /// a consumed buffer is refilled first, then the value at `index` is
    /// taken out of its slot.
    pub open spec fn spec_get(&self) -> (T, Self) {
        let s = if self.index >= N {
            self.spec_run()
        } else {
            *self
        };
        (
            s.buf@[s.index as int].unwrap(),
            Buffer {
                inner: s.inner,
                buf: spec_array(s.buf@.update(s.index as int, None)),
                index: (s.index + 1) as usize,
            },
        )
    }

    /// Construct a new buffer around a generator. It starts consumed: nothing
    /// is drawn before the first request.
    pub fn new(inner: R) -> (r: Self)
        ensures
            r.inner == inner,
            r.index == N,
            r.filled(),
            forall|i: int| 0 <= i < N ==> r.buf@[i].is_none(),
    {
        Self { inner, buf: empty_slots(), index: N }
    }

    /// Consume the buffer and return the inner generator. Values that were
    /// drawn and not handed out are lost.
    pub fn unwrap(self) -> (r: R)
        ensures
            r == self.inner,
    {
        self.inner
    }

    /// Whether the buffer is consumed: every value of the batch is handed out.
    pub fn consumed(&self) -> (r: bool)
        ensures
            r == (self.index >= N),
    {
        self.index >= N
    }

    /// Refill the buffer, whether or not it was consumed: every slot gets a
    /// new value, and the values that were not handed out are lost.
    pub fn run(&mut self)
        requires
            old(self).inner.valid(),
        ensures
            *final(self) == old(self).spec_run(),
            final(self).buf@ == filled_slots(drawn_seq::<T, R>(old(self).inner, N as nat).0),
            final(self).inner == drawn_seq::<T, R>(old(self).inner, N as nat).1,
            final(self).inner.valid(),
            final(self).index == 0,
            final(self).filled(),
    {
        let mut i: usize = 0;
        while i < N
            invariant
                i <= N,
                self.inner.valid(),
                self.index == old(self).index,
                self.inner == drawn_seq::<T, R>(old(self).inner, i as nat).1,
                drawn_seq::<T, R>(old(self).inner, i as nat).0.len() == i,
                forall|j: int|
                    0 <= j < i ==> self.buf@[j] == Some(
                        drawn_seq::<T, R>(old(self).inner, i as nat).0[j],
                    ),
            decreases N - i,
        {
            let item: T = T::from_random(&mut self.inner);
            self.buf[i] = Some(item);
            i += 1;
        }
        self.index = 0;
        proof {
            assert(self.buf@ =~= filled_slots(drawn_seq::<T, R>(old(self).inner, N as nat).0));
            lemma_spec_array(self.buf);
        }
    }

    /// The next value of the batch, or `None` where the buffer is consumed.
    /// Nothing is drawn.
    pub fn get_checked(&mut self) -> (r: Option<T>)
        ensures
            old(self).index >= N ==> r.is_none() && *final(self) == *old(self),
            old(self).index < N ==> r == old(self).buf@[old(self).index as int],
            old(self).index < N ==> final(self).inner == old(self).inner,
            old(self).index < N ==> final(self).buf@ == old(self).buf@.update(
                old(self).index as int,
                None,
            ),
            old(self).index < N ==> final(self).index == old(self).index + 1,
            old(self).filled() ==> final(self).filled(),
            old(self).filled() && old(self).index < N ==> r.is_some(),
    {
        if self.index >= N {
            None
        } else {
            let ret: Option<T> = self.buf[self.index].take();
            self.index += 1;
            ret
        }
    }

    /// The next value of the batch. Where the buffer is consumed, it is
    /// refilled first.
    pub fn get(&mut self) -> (r: T)
        requires
            N > 0,
            old(self).inner.valid(),
            old(self).filled(),
        ensures
            r == old(self).spec_get().0,
            *final(self) == old(self).spec_get().1,
            final(self).inner.valid(),
            final(self).filled(),
            old(self).index < N ==> final(self).inner == old(self).inner,
            old(self).index < N ==> Some(r) == old(self).buf@[old(self).index as int],
            old(self).index < N ==> final(self).index == old(self).index + 1,
            old(self).index >= N ==> final(self).inner == drawn_seq::<T, R>(
                old(self).inner,
                N as nat,
            ).1,
            old(self).index >= N ==> r == drawn_seq::<T, R>(old(self).inner, N as nat).0[0],
            old(self).index >= N ==> final(self).index == 1,
    {
        if self.index >= N {
            self.run();
        }
        let ghost before = *self;
        let ret: Option<T> = self.buf[self.index].take();
        self.index += 1;
        proof {
            assert(self.buf@ =~= before.buf@.update(before.index as int, None));
            lemma_spec_array(self.buf);
        }
        ret.unwrap()
    }

    /// The batch of a refill is the next `N` values that `T` takes from the
    /// inner generator, each in a filled slot.
    pub proof fn lemma_run_batch(b: Self)
        ensures
            b.spec_run().buf@ == filled_slots(drawn_seq::<T, R>(b.inner, N as nat).0),
            b.spec_run().filled(),
    {
        lemma_drawn_seq_len::<T, R>(b.inner, N as nat);
        lemma_array_of_seq::<Option<T>, N>(filled_slots(drawn_seq::<T, R>(b.inner, N as nat).0));
    }

    /// After a refill, the next `N` requests hand out the batch in its
    /// order, each value once, and draw nothing: after `k` of them the buffer
    /// stands at slot `k`, the slots from there on are as the refill left
    /// them, and the next request hands out the value of slot `k`.
    pub proof fn law_batch_in_order(b: Self, k: nat)
        requires
            k <= N,
        ensures
            iterate(|s: Self| s.spec_get(), b.spec_run(), k).index == k,
            iterate(|s: Self| s.spec_get(), b.spec_run(), k).inner == b.spec_run().inner,
            forall|i: int|
                #![trigger drawn_seq::<T, R>(b.inner, N as nat).0[i]]
                k <= i < N ==> iterate(|s: Self| s.spec_get(), b.spec_run(), k).buf@[i] == Some(
                    drawn_seq::<T, R>(b.inner, N as nat).0[i],
                ),
            k < N ==> iterate(|s: Self| s.spec_get(), b.spec_run(), k).spec_get().0 == drawn_seq::<
                T,
                R,
            >(b.inner, N as nat).0[k as int],
        decreases k,
    {
        Self::lemma_run_batch(b);
        lemma_drawn_seq_len::<T, R>(b.inner, N as nat);
        if k > 0 {
            Self::law_batch_in_order(b, (k - 1) as nat);
            let prev = iterate(|s: Self| s.spec_get(), b.spec_run(), (k - 1) as nat);
            lemma_array_of_seq::<Option<T>, N>(prev.buf@.update(prev.index as int, None));
        }
    }

    /// Once the batch is handed out, the next request refills the buffer
    /// exactly once: it hands out the first value of a new batch and stands
    /// at slot 1, with the rest of the batch still to come.
    pub proof fn law_refill_when_consumed(b: Self)
        requires
            N > 0,
            b.index >= N,
        ensures
            b.spec_get().0 == drawn_seq::<T, R>(b.inner, N as nat).0[0],
            b.spec_get().1.inner == drawn_seq::<T, R>(b.inner, N as nat).1,
            b.spec_get().1.index == 1,
            forall|i: int|
                #![trigger drawn_seq::<T, R>(b.inner, N as nat).0[i]]
                1 <= i < N ==> b.spec_get().1.buf@[i] == Some(
                    drawn_seq::<T, R>(b.inner, N as nat).0[i],
                ),
    {
        Self::lemma_run_batch(b);
        lemma_drawn_seq_len::<T, R>(b.inner, N as nat);
        lemma_array_of_seq::<Option<T>, N>(b.spec_run().buf@.update(0, None));
    }

    /// Where a buffer that started consumed stands after `k` requests, one at
    /// least: its slots from `index` on hold the values of the batch that
    /// follows the first `base` values of the inner generator, it stands at
    /// the slot `k - base`, and the inner generator has made `base + N` values.
    pub proof fn lemma_stream_state(b: Self, k: nat) -> (base: nat)
        requires
            N > 0,
            b.index >= N,
            k > 0,
        ensures
            base + iterate(|s: Self| s.spec_get(), b, k).index == k,
            1 <= iterate(|s: Self| s.spec_get(), b, k).index <= N,
            iterate(|s: Self| s.spec_get(), b, k).inner == drawn_seq::<T, R>(
                b.inner,
                base + (N as nat),
            ).1,
            forall|i: int|
                #![trigger drawn_seq::<T, R>(drawn_seq::<T, R>(b.inner, base).1, N as nat).0[i]]
                iterate(|s: Self| s.spec_get(), b, k).index <= i < N ==> iterate(
                    |s: Self| s.spec_get(),
                    b,
                    k,
                ).buf@[i] == Some(
                    drawn_seq::<T, R>(drawn_seq::<T, R>(b.inner, base).1, N as nat).0[i],
                ),
        decreases k,
    {
        let step = |s: Self| s.spec_get();
        if k == 1 {
            assert(iterate(step, b, 0) == b);
            Self::lemma_run_batch(b);
            lemma_drawn_seq_len::<T, R>(b.inner, N as nat);
            lemma_array_of_seq::<Option<T>, N>(b.spec_run().buf@.update(0, None));
            0
        } else {
            let before = Self::lemma_stream_state(b, (k - 1) as nat);
            let p = iterate(step, b, (k - 1) as nat);
            if p.index >= N {
                Self::lemma_run_batch(p);
                lemma_drawn_seq_len::<T, R>(p.inner, N as nat);
                lemma_array_of_seq::<Option<T>, N>(p.spec_run().buf@.update(0, None));
                lemma_drawn_seq_add::<T, R>(b.inner, before + (N as nat), N as nat);
                before + (N as nat)
            } else {
                lemma_array_of_seq::<Option<T>, N>(p.buf@.update(p.index as int, None));
                before
            }
        }
    }

    /// A buffer changes nothing in the stream: the requests of a buffer that
    /// starts consumed return the values that `T` takes from the inner
    /// generator, in their order, none skipped and none twice. Request number
    /// `k`, counted from 0, returns the value made after `k` others.
    pub proof fn law_stream_in_order(b: Self, k: nat)
        requires
            N > 0,
            b.index >= N,
        ensures
            iterate(|s: Self| s.spec_get(), b, k).spec_get().0 == T::drawn(
                drawn_seq::<T, R>(b.inner, k).1,
            ).0,
    {
        let step = |s: Self| s.spec_get();
        if k == 0 {
            Self::lemma_run_batch(b);
            lemma_drawn_seq_len::<T, R>(b.inner, N as nat);
            lemma_drawn_seq_index::<T, R>(b.inner, N as nat, 0);
        } else {
            let base = Self::lemma_stream_state(b, k);
            let s = iterate(step, b, k);
            if s.index >= N {
                Self::lemma_run_batch(s);
                lemma_drawn_seq_len::<T, R>(s.inner, N as nat);
                lemma_drawn_seq_index::<T, R>(s.inner, N as nat, 0);
            } else {
                let start = drawn_seq::<T, R>(b.inner, base).1;
                lemma_drawn_seq_index::<T, R>(start, N as nat, s.index as nat);
                lemma_drawn_seq_add::<T, R>(b.inner, base, s.index as nat);
            }
        }
    }
}

impl<const N: usize, R: RandomImpl> RandomImpl for Buffer<u64, N, R> {
    open spec fn valid(&self) -> bool {
        N > 0 && self.inner.valid() && self.filled()
    }

    open spec fn draw_u64(&self) -> (u64, Self) {
        self.spec_get()
    }

    open spec fn draw_u32(&self) -> (u32, Self) {
        (self.spec_get().0 as u32, self.spec_get().1)
    }

    open spec fn draw_bytes(&self, len: nat) -> (Seq<u8>, Self) {
        fill_u64(|s: Self| s.draw_u64(), *self, len)
    }

    fn random_u64(&mut self) -> (r: u64) {
        self.get()
    }

    fn random_u32(&mut self) -> (r: u32) {
        self.get() as u32
    }

    fn random_bytes(&mut self, dst: &mut [u8]) {
        self.bytes_from_u64(dst);
    }
}

impl<const N: usize, R: RandomImpl> RandomImpl for Buffer<u32, N, R> {
    open spec fn valid(&self) -> bool {
        N > 0 && self.inner.valid() && self.filled()
    }

    open spec fn draw_u32(&self) -> (u32, Self) {
        self.spec_get()
    }

    open spec fn draw_u64(&self) -> (u64, Self) {
        let (hi, s1) = self.spec_get();
        let (lo, s2) = s1.spec_get();
        (spec_u32_compose_u64(hi, lo), s2)
    }

    open spec fn draw_bytes(&self, len: nat) -> (Seq<u8>, Self) {
        fill_u32(|s: Self| s.draw_u32(), *self, len)
    }

    fn random_u64(&mut self) -> (r: u64) {
        let hi: u32 = self.get();
        let lo: u32 = self.get();
        u32_compose_u64(hi, lo)
    }

    fn random_u32(&mut self) -> (r: u32) {
        self.get()
    }

    fn random_bytes(&mut self, dst: &mut [u8]) {
        self.bytes_from_u32(dst);
    }
}

/// A buffer of `N` values of `u32`, which must be more than none.
///
/// The slots before `index` are handed out, those from `index` on are still
/// to come; with `index` at `N` or beyond, the buffer is consumed.
pub struct Buffer32<const N: usize, R: RandomImpl> {
    /// The generator that fills the buffer.
    pub inner: R,
    /// The batch of values.
    pub buf: [u32; N],
    /// The slot of the next value to hand out.
    pub index: usize,
}

impl<const N: usize, R: RandomImpl> Buffer32<N, R> {
    /// Whether every value of the batch is handed out.
    pub open spec fn consumed(&self) -> bool {
        self.index >= N
    }

    /// The buffer after `run`: its batch is the next `N` draws of the inner generator, in the order drawn,
    /// and none of it is handed out.
    pub open spec fn spec_run(&self) -> Self {
        Buffer32 {
            inner: after_u32(self.inner, N as nat),
            buf: spec_array(values_u32(self.inner, N as nat)),
            index: 0,
        }
    }

    /// The value that `get` returns from this buffer, and the buffer after it:
    /// a consumed buffer is refilled first, then the value at `index` is
    /// handed out.
    pub open spec fn spec_get(&self) -> (u32, Self) {
        let s = if self.consumed() {
            self.spec_run()
        } else {
            *self
        };
        (s.buf@[s.index as int], Buffer32 { inner: s.inner, buf: s.buf, index: (s.index + 1) as usize })
    }

    /// Construct a new buffer around a generator. It starts consumed: nothing
    /// is drawn before the first request.
    pub fn new(inner: R) -> (r: Self)
        ensures
            r.inner == inner,
            r.index == N,
            r.consumed(),
    {
        Self { inner, buf: [0; N], index: N }
    }

    /// Consume the buffer and return the inner generator. Values that were
    /// drawn and not handed out are lost.
    pub fn unwrap(self) -> (r: R)
        ensures
            r == self.inner,
    {
        self.inner
    }

    /// Refill the buffer, whether or not it was consumed: every slot gets a
    /// new value, and the values that were not handed out are lost.
    pub fn run(&mut self)
        requires
            old(self).inner.valid(),
        ensures
            *final(self) == old(self).spec_run(),
            final(self).buf@ == values_u32(old(self).inner, N as nat),
            final(self).inner == after_u32(old(self).inner, N as nat),
            final(self).inner.valid(),
            final(self).index == 0,
    {
        let mut i: usize = 0;
        while i < N
            invariant
                i <= N,
                self.inner.valid(),
                self.index == old(self).index,
                self.inner == after_u32(old(self).inner, i as nat),
                forall|j: int| 0 <= j < i ==> self.buf@[j] == values_u32(old(self).inner, N as nat)[j],
            decreases N - i,
        {
            self.buf[i] = self.inner.random_u32();
            i += 1;
        }
        self.index = 0;
        proof {
            assert(self.buf@ =~= values_u32(old(self).inner, N as nat));
            lemma_spec_array(self.buf);
        }
    }

    /// The next value of the batch, or `None` where the buffer is consumed.
    /// Nothing is drawn.
    pub fn get_checked(&mut self) -> (r: Option<u32>)
        ensures
            old(self).consumed() ==> r.is_none() && *final(self) == *old(self),
            !old(self).consumed() ==> r == Some(old(self).buf@[old(self).index as int])
                && final(self).inner == old(self).inner && final(self).buf == old(self).buf
                && final(self).index == old(self).index + 1,
    {
        if self.index >= N {
            None
        } else {
            let ret: u32 = self.buf[self.index];
            self.index += 1;
            Some(ret)
        }
    }

    /// The next value of the batch. Where the buffer is consumed, it is
    /// refilled first.
    pub fn get(&mut self) -> (r: u32)
        requires
            N > 0,
            old(self).inner.valid(),
        ensures
            r == old(self).spec_get().0,
            *final(self) == old(self).spec_get().1,
            final(self).inner.valid(),
            !old(self).consumed() ==> final(self).inner == old(self).inner,
            !old(self).consumed() ==> r == old(self).buf@[old(self).index as int],
            !old(self).consumed() ==> final(self).index == old(self).index + 1,
            old(self).consumed() ==> final(self).inner == after_u32(old(self).inner, N as nat),
            old(self).consumed() ==> r == values_u32(old(self).inner, N as nat)[0],
            old(self).consumed() ==> final(self).buf@ == values_u32(old(self).inner, N as nat),
            old(self).consumed() ==> final(self).index == 1,
    {
        if self.index >= N {
            self.run();
        }
        let ret: u32 = self.buf[self.index];
        self.index += 1;
        ret
    }

    /// The batch of a refill is the next `N` draws of the inner generator, in the order drawn.
    pub proof fn lemma_run_batch(b: Self)
        ensures
            b.spec_run().buf@ == values_u32(b.inner, N as nat),
    {
        lemma_array_of_seq::<u32, N>(values_u32(b.inner, N as nat));
    }

    /// After a refill, the next `N` requests hand out the batch in its
    /// order, each value once, and draw nothing: after `k` of them the buffer
    /// stands at slot `k`, and the next hands out the value of that slot.
    pub proof fn law_batch_in_order(b: Self, k: nat)
        requires
            k <= N,
        ensures
            iterate(|s: Self| s.spec_get(), b.spec_run(), k).index == k,
            iterate(|s: Self| s.spec_get(), b.spec_run(), k).inner == b.spec_run().inner,
            iterate(|s: Self| s.spec_get(), b.spec_run(), k).buf == b.spec_run().buf,
            k < N ==> iterate(|s: Self| s.spec_get(), b.spec_run(), k).spec_get().0
                == values_u32(b.inner, N as nat)[k as int],
            k == N ==> iterate(|s: Self| s.spec_get(), b.spec_run(), k).consumed(),
        decreases k,
    {
        if k > 0 {
            Self::law_batch_in_order(b, (k - 1) as nat);
        }
        Self::lemma_run_batch(b);
    }

    /// Once the batch is handed out, the next request refills the buffer
    /// exactly once: it hands out the first value of a new batch and stands
    /// at slot 1, with the rest of the batch still to come.
    pub proof fn law_refill_when_consumed(b: Self)
        requires
            N > 0,
            b.consumed(),
        ensures
            b.spec_get().0 == values_u32(b.inner, N as nat)[0],
            b.spec_get().1.inner == after_u32(b.inner, N as nat),
            b.spec_get().1.buf@ == values_u32(b.inner, N as nat),
            b.spec_get().1.index == 1,
    {
        Self::lemma_run_batch(b);
    }

    /// Where a buffer that started consumed stands after `k` requests, one at
    /// least: its batch holds the `N` draws of the inner generator that follow
    /// the first `base`, it stands at the slot `k - base`, and the inner
    /// generator has made `base + N` draws.
    pub proof fn lemma_stream_state(b: Self, k: nat) -> (base: nat)
        requires
            N > 0,
            b.consumed(),
            k > 0,
        ensures
            base + iterate(|s: Self| s.spec_get(), b, k).index == k,
            1 <= iterate(|s: Self| s.spec_get(), b, k).index <= N,
            iterate(|s: Self| s.spec_get(), b, k).inner == after_u32(b.inner, base + (N as nat)),
            iterate(|s: Self| s.spec_get(), b, k).buf@ == values_u32(
                after_u32(b.inner, base),
                N as nat,
            ),
        decreases k,
    {
        let step = |s: Self| s.spec_get();
        if k == 1 {
            Self::lemma_run_batch(b);
            assert(iterate(step, b, 0) == b);
            0
        } else {
            let before = Self::lemma_stream_state(b, (k - 1) as nat);
            let p = iterate(step, b, (k - 1) as nat);
            if p.index >= N {
                Self::lemma_run_batch(p);
                lemma_after_u32_add(b.inner, before + (N as nat), N as nat);
                before + (N as nat)
            } else {
                before
            }
        }
    }

    /// A buffer changes nothing in the stream: the requests of a buffer that
    /// starts consumed return the draws of the inner generator in their
    /// order, none skipped and none twice. Request number `k`, counted from
    /// 0, returns draw number `k`.
    pub proof fn law_stream_in_order(b: Self, k: nat)
        requires
            N > 0,
            b.consumed(),
        ensures
            iterate(|s: Self| s.spec_get(), b, k).spec_get().0 == after_u32(b.inner, k).draw_u32().0,
    {
        let step = |s: Self| s.spec_get();
        if k == 0 {
            Self::lemma_run_batch(b);
        } else {
            let base = Self::lemma_stream_state(b, k);
            let s = iterate(step, b, k);
            if s.index >= N {
                Self::lemma_run_batch(s);
            } else {
                lemma_after_u32_add(b.inner, base, s.index as nat);
            }
        }
    }
}

impl<const N: usize, R: RandomImpl> RandomImpl for Buffer32<N, R> {
    open spec fn valid(&self) -> bool {
        N > 0 && self.inner.valid()
    }

    open spec fn draw_u32(&self) -> (u32, Self) {
        self.spec_get()
    }

    open spec fn draw_u64(&self) -> (u64, Self) {
        let (hi, s1) = self.spec_get();
        let (lo, s2) = s1.spec_get();
        (spec_u32_compose_u64(hi, lo), s2)
    }

    open spec fn draw_bytes(&self, len: nat) -> (Seq<u8>, Self) {
        fill_u32(|s: Self| s.draw_u32(), *self, len)
    }

    fn random_u64(&mut self) -> (r: u64) {
        let hi: u32 = self.get();
        let lo: u32 = self.get();
        u32_compose_u64(hi, lo)
    }

    fn random_u32(&mut self) -> (r: u32) {
        self.get()
    }

    fn random_bytes(&mut self, dst: &mut [u8]) {
        self.bytes_from_u32(dst);
    }
}

/// A buffer of `N` values of `u64`, which must be more than none.
///
/// The slots before `index` are handed out, those from `index` on are still
/// to come; with `index` at `N` or beyond, the buffer is consumed.
pub struct Buffer64<const N: usize, R: RandomImpl> {
    /// The generator that fills the buffer.
    pub inner: R,
    /// The batch of values.
    pub buf: [u64; N],
    /// The slot of the next value to hand out.
    pub index: usize,
}

impl<const N: usize, R: RandomImpl> Buffer64<N, R> {
    /// Whether every value of the batch is handed out.
    pub open spec fn consumed(&self) -> bool {
        self.index >= N
    }

    /// The buffer after `run`: its batch is the next `N` draws of the inner generator, in the order drawn,
    /// and none of it is handed out.
    pub open spec fn spec_run(&self) -> Self {
        Buffer64 {
            inner: after_u64(self.inner, N as nat),
            buf: spec_array(values_u64(self.inner, N as nat)),
            index: 0,
        }
    }

    /// The value that `get` returns from this buffer, and the buffer after it:
    /// a consumed buffer is refilled first, then the value at `index` is
    /// handed out.
    pub open spec fn spec_get(&self) -> (u64, Self) {
        let s = if self.consumed() {
            self.spec_run()
        } else {
            *self
        };
        (s.buf@[s.index as int], Buffer64 { inner: s.inner, buf: s.buf, index: (s.index + 1) as usize })
    }

    /// Construct a new buffer around a generator. It starts consumed: nothing
    /// is drawn before the first request.
    pub fn new(inner: R) -> (r: Self)
        ensures
            r.inner == inner,
            r.index == N,
            r.consumed(),
    {
        Self { inner, buf: [0; N], index: N }
    }

    /// Refill the buffer, whether or not it was consumed: every slot gets a
    /// new value, and the values that were not handed out are lost.
    pub fn run(&mut self)
        requires
            old(self).inner.valid(),
        ensures
            *final(self) == old(self).spec_run(),
            final(self).buf@ == values_u64(old(self).inner, N as nat),
            final(self).inner == after_u64(old(self).inner, N as nat),
            final(self).inner.valid(),
            final(self).index == 0,
    {
        let mut i: usize = 0;
        while i < N
            invariant
                i <= N,
                self.inner.valid(),
                self.index == old(self).index,
                self.inner == after_u64(old(self).inner, i as nat),
                forall|j: int| 0 <= j < i ==> self.buf@[j] == values_u64(old(self).inner, N as nat)[j],
            decreases N - i,
        {
            self.buf[i] = self.inner.random_u64();
            i += 1;
        }
        self.index = 0;
        proof {
            assert(self.buf@ =~= values_u64(old(self).inner, N as nat));
            lemma_spec_array(self.buf);
        }
    }

    /// The next value of the batch, or `None` where the buffer is consumed.
    /// Nothing is drawn.
    pub fn get_checked(&mut self) -> (r: Option<u64>)
        ensures
            old(self).consumed() ==> r.is_none() && *final(self) == *old(self),
            !old(self).consumed() ==> r == Some(old(self).buf@[old(self).index as int])
                && final(self).inner == old(self).inner && final(self).buf == old(self).buf
                && final(self).index == old(self).index + 1,
    {
        if self.index >= N {
            None
        } else {
            let ret: u64 = self.buf[self.index];
            self.index += 1;
            Some(ret)
        }
    }

    /// The next value of the batch. Where the buffer is consumed, it is
    /// refilled first.
    pub fn get(&mut self) -> (r: u64)
        requires
            N > 0,
            old(self).inner.valid(),
        ensures
            r == old(self).spec_get().0,
            *final(self) == old(self).spec_get().1,
            final(self).inner.valid(),
            !old(self).consumed() ==> final(self).inner == old(self).inner,
            !old(self).consumed() ==> r == old(self).buf@[old(self).index as int],
            !old(self).consumed() ==> final(self).index == old(self).index + 1,
            old(self).consumed() ==> final(self).inner == after_u64(old(self).inner, N as nat),
            old(self).consumed() ==> r == values_u64(old(self).inner, N as nat)[0],
            old(self).consumed() ==> final(self).buf@ == values_u64(old(self).inner, N as nat),
            old(self).consumed() ==> final(self).index == 1,
    {
        if self.index >= N {
            self.run();
        }
        let ret: u64 = self.buf[self.index];
        self.index += 1;
        ret
    }

    /// The batch of a refill is the next `N` draws of the inner generator, in the order drawn.
    pub proof fn lemma_run_batch(b: Self)
        ensures
            b.spec_run().buf@ == values_u64(b.inner, N as nat),
    {
        lemma_array_of_seq::<u64, N>(values_u64(b.inner, N as nat));
    }

    /// After a refill, the next `N` requests hand out the batch in its
    /// order, each value once, and draw nothing: after `k` of them the buffer
    /// stands at slot `k`, and the next hands out the value of that slot.
    pub proof fn law_batch_in_order(b: Self, k: nat)
        requires
            k <= N,
        ensures
            iterate(|s: Self| s.spec_get(), b.spec_run(), k).index == k,
            iterate(|s: Self| s.spec_get(), b.spec_run(), k).inner == b.spec_run().inner,
            iterate(|s: Self| s.spec_get(), b.spec_run(), k).buf == b.spec_run().buf,
            k < N ==> iterate(|s: Self| s.spec_get(), b.spec_run(), k).spec_get().0
                == values_u64(b.inner, N as nat)[k as int],
            k == N ==> iterate(|s: Self| s.spec_get(), b.spec_run(), k).consumed(),
        decreases k,
    {
        if k > 0 {
            Self::law_batch_in_order(b, (k - 1) as nat);
        }
        Self::lemma_run_batch(b);
    }

    /// Once the batch is handed out, the next request refills the buffer
    /// exactly once: it hands out the first value of a new batch and stands
    /// at slot 1, with the rest of the batch still to come.
    pub proof fn law_refill_when_consumed(b: Self)
        requires
            N > 0,
            b.consumed(),
        ensures
            b.spec_get().0 == values_u64(b.inner, N as nat)[0],
            b.spec_get().1.inner == after_u64(b.inner, N as nat),
            b.spec_get().1.buf@ == values_u64(b.inner, N as nat),
            b.spec_get().1.index == 1,
    {
        Self::lemma_run_batch(b);
    }

    /// Where a buffer that started consumed stands after `k` requests, one at
    /// least: its batch holds the `N` draws of the inner generator that follow
    /// the first `base`, it stands at the slot `k - base`, and the inner
    /// generator has made `base + N` draws.
    pub proof fn lemma_stream_state(b: Self, k: nat) -> (base: nat)
        requires
            N > 0,
            b.consumed(),
            k > 0,
        ensures
            base + iterate(|s: Self| s.spec_get(), b, k).index == k,
            1 <= iterate(|s: Self| s.spec_get(), b, k).index <= N,
            iterate(|s: Self| s.spec_get(), b, k).inner == after_u64(b.inner, base + (N as nat)),
            iterate(|s: Self| s.spec_get(), b, k).buf@ == values_u64(
                after_u64(b.inner, base),
                N as nat,
            ),
        decreases k,
    {
        let step = |s: Self| s.spec_get();
        if k == 1 {
            Self::lemma_run_batch(b);
            assert(iterate(step, b, 0) == b);
            0
        } else {
            let before = Self::lemma_stream_state(b, (k - 1) as nat);
            let p = iterate(step, b, (k - 1) as nat);
            if p.index >= N {
                Self::lemma_run_batch(p);
                lemma_after_u64_add(b.inner, before + (N as nat), N as nat);
                before + (N as nat)
            } else {
                before
            }
        }
    }

    /// A buffer changes nothing in the stream: the requests of a buffer that
    /// starts consumed return the draws of the inner generator in their
    /// order, none skipped and none twice. Request number `k`, counted from
    /// 0, returns draw number `k`.
    pub proof fn law_stream_in_order(b: Self, k: nat)
        requires
            N > 0,
            b.consumed(),
        ensures
            iterate(|s: Self| s.spec_get(), b, k).spec_get().0 == after_u64(b.inner, k).draw_u64().0,
    {
        let step = |s: Self| s.spec_get();
        if k == 0 {
            Self::lemma_run_batch(b);
        } else {
            let base = Self::lemma_stream_state(b, k);
            let s = iterate(step, b, k);
            if s.index >= N {
                Self::lemma_run_batch(s);
            } else {
                lemma_after_u64_add(b.inner, base, s.index as nat);
            }
        }
    }
}

impl<const N: usize, R: RandomImpl> RandomImpl for Buffer64<N, R> {
    open spec fn valid(&self) -> bool {
        N > 0 && self.inner.valid()
    }

    open spec fn draw_u64(&self) -> (u64, Self) {
        self.spec_get()
    }

    open spec fn draw_u32(&self) -> (u32, Self) {
        (self.spec_get().0 as u32, self.spec_get().1)
    }

    open spec fn draw_bytes(&self, len: nat) -> (Seq<u8>, Self) {
        fill_u64(|s: Self| s.draw_u64(), *self, len)
    }

    fn random_u64(&mut self) -> (r: u64) {
        self.get()
    }

    fn random_u32(&mut self) -> (r: u32) {
        self.get() as u32
    }

    fn random_bytes(&mut self, dst: &mut [u8]) {
        self.bytes_from_u64(dst);
    }
}

/// A buffer of `N` values of `u8`, which must be more than none.
///
/// The slots before `index` are handed out, those from `index` on are still
/// to come; with `index` at `N` or beyond, the buffer is consumed.
pub struct Buffer8<const N: usize, R: RandomImpl> {
    /// The generator that fills the buffer.
    pub inner: R,
    /// The batch of values.
    pub buf: [u8; N],
    /// The slot of the next value to hand out.
    pub index: usize,
}

impl<const N: usize, R: RandomImpl + Clone> Clone for Buffer8<N, R> {
    /// A buffer around a clone of the inner generator, with the same batch
    /// at the same slot.
    fn clone(&self) -> (r: Self)
        ensures
            cloned(self.inner, r.inner),
            r.buf == self.buf,
            r.index == self.index,
    {
        Self { inner: self.inner.clone(), buf: self.buf, index: self.index }
    }
}

impl<const N: usize, R: RandomImpl> Buffer8<N, R> {
    /// Whether every value of the batch is handed out.
    pub open spec fn consumed(&self) -> bool {
        self.index >= N
    }

    /// The buffer after `run`: its batch is the next `N` bytes that the inner generator fills,
    /// and none of it is handed out.
    pub open spec fn spec_run(&self) -> Self {
        Buffer8 {
            inner: self.inner.draw_bytes(N as nat).1,
            buf: spec_array(batch_bytes(self.inner, N as nat)),
            index: 0,
        }
    }

    /// The value that `get` returns from this buffer, and the buffer after it:
    /// a consumed buffer is refilled first, then the value at `index` is
    /// handed out.
    pub open spec fn spec_get(&self) -> (u8, Self) {
        let s = if self.consumed() {
            self.spec_run()
        } else {
            *self
        };
        (s.buf@[s.index as int], Buffer8 { inner: s.inner, buf: s.buf, index: (s.index + 1) as usize })
    }

    /// Construct a new buffer around a generator. It starts consumed: nothing
    /// is drawn before the first request.
    pub fn new(inner: R) -> (r: Self)
        ensures
            r.inner == inner,
            r.index == N,
            r.consumed(),
    {
        Self { inner, buf: [0; N], index: N }
    }

    /// Consume the buffer and return the inner generator. Values that were
    /// drawn and not handed out are lost.
    pub fn unwrap(self) -> (r: R)
        ensures
            r == self.inner,
    {
        self.inner
    }

    /// Refill the buffer, whether or not it was consumed: every slot gets a
    /// new value, and the values that were not handed out are lost.
    pub fn run(&mut self)
        requires
            old(self).inner.valid(),
        ensures
            *final(self) == old(self).spec_run(),
            final(self).buf@ == batch_bytes(old(self).inner, N as nat),
            final(self).inner == old(self).inner.draw_bytes(N as nat).1,
            final(self).inner.valid(),
            final(self).index == 0,
    {
        self.inner.random_bytes(&mut self.buf);
        self.index = 0;
        proof {
            assert(self.buf@ =~= batch_bytes(old(self).inner, N as nat));
            lemma_spec_array(self.buf);
        }
    }

    /// The next value of the batch, or `None` where the buffer is consumed.
    /// Nothing is drawn.
    pub fn get_checked(&mut self) -> (r: Option<u8>)
        ensures
            old(self).consumed() ==> r.is_none() && *final(self) == *old(self),
            !old(self).consumed() ==> r == Some(old(self).buf@[old(self).index as int])
                && final(self).inner == old(self).inner && final(self).buf == old(self).buf
                && final(self).index == old(self).index + 1,
    {
        if self.index >= N {
            None
        } else {
            let ret: u8 = self.buf[self.index];
            self.index += 1;
            Some(ret)
        }
    }

    /// The next value of the batch. Where the buffer is consumed, it is
    /// refilled first.
    pub fn get(&mut self) -> (r: u8)
        requires
            N > 0,
            old(self).inner.valid(),
        ensures
            r == old(self).spec_get().0,
            *final(self) == old(self).spec_get().1,
            final(self).inner.valid(),
            !old(self).consumed() ==> final(self).inner == old(self).inner,
            !old(self).consumed() ==> r == old(self).buf@[old(self).index as int],
            !old(self).consumed() ==> final(self).index == old(self).index + 1,
            old(self).consumed() ==> final(self).inner == old(self).inner.draw_bytes(N as nat).1,
            old(self).consumed() ==> r == batch_bytes(old(self).inner, N as nat)[0],
            old(self).consumed() ==> final(self).buf@ == batch_bytes(old(self).inner, N as nat),
            old(self).consumed() ==> final(self).index == 1,
    {
        if self.index >= N {
            self.run();
        }
        let ret: u8 = self.buf[self.index];
        self.index += 1;
        ret
    }

    /// The batch of a refill is the next `N` bytes that the inner generator fills.
    pub proof fn lemma_run_batch(b: Self)
        ensures
            b.spec_run().buf@ == batch_bytes(b.inner, N as nat),
    {
        lemma_array_of_seq::<u8, N>(batch_bytes(b.inner, N as nat));
    }

    /// After a refill, the next `N` requests hand out the batch in its
    /// order, each value once, and draw nothing: after `k` of them the buffer
    /// stands at slot `k`, and the next hands out the value of that slot.
    pub proof fn law_batch_in_order(b: Self, k: nat)
        requires
            k <= N,
        ensures
            iterate(|s: Self| s.spec_get(), b.spec_run(), k).index == k,
            iterate(|s: Self| s.spec_get(), b.spec_run(), k).inner == b.spec_run().inner,
            iterate(|s: Self| s.spec_get(), b.spec_run(), k).buf == b.spec_run().buf,
            k < N ==> iterate(|s: Self| s.spec_get(), b.spec_run(), k).spec_get().0
                == batch_bytes(b.inner, N as nat)[k as int],
            k == N ==> iterate(|s: Self| s.spec_get(), b.spec_run(), k).consumed(),
        decreases k,
    {
        if k > 0 {
            Self::law_batch_in_order(b, (k - 1) as nat);
        }
        Self::lemma_run_batch(b);
    }

    /// Once the batch is handed out, the next request refills the buffer
    /// exactly once: it hands out the first value of a new batch and stands
    /// at slot 1, with the rest of the batch still to come.
    pub proof fn law_refill_when_consumed(b: Self)
        requires
            N > 0,
            b.consumed(),
        ensures
            b.spec_get().0 == batch_bytes(b.inner, N as nat)[0],
            b.spec_get().1.inner == b.inner.draw_bytes(N as nat).1,
            b.spec_get().1.buf@ == batch_bytes(b.inner, N as nat),
            b.spec_get().1.index == 1,
    {
        Self::lemma_run_batch(b);
    }

    /// Where a buffer that started consumed stands after `q * N + i` requests,
    /// with `i` from 1 to `N`: its batch is fill number `q` of the inner
    /// generator, counted from 0, it stands at the slot `i`, and the inner
    /// generator has made `q + 1` fills of `N` bytes.
    pub proof fn lemma_stream_state(b: Self, q: nat, i: nat)
        requires
            N > 0,
            b.consumed(),
            1 <= i <= N,
        ensures
            iterate(|s: Self| s.spec_get(), b, q * (N as nat) + i).index == i,
            iterate(|s: Self| s.spec_get(), b, q * (N as nat) + i).inner == iterate(
                |g: R| g.draw_bytes(N as nat),
                b.inner,
                q + 1,
            ),
            iterate(|s: Self| s.spec_get(), b, q * (N as nat) + i).buf@ == batch_bytes(
                iterate(|g: R| g.draw_bytes(N as nat), b.inner, q),
                N as nat,
            ),
        decreases q, i,
    {
        let step = |s: Self| s.spec_get();
        let fill = |g: R| g.draw_bytes(N as nat);
        let k: nat = q * (N as nat) + i;
        assert(q * (N as nat) >= 0) by (nonlinear_arith)
            requires
                q >= 0,
                N >= 0,
        ;
        if i > 1 {
            Self::lemma_stream_state(b, q, (i - 1) as nat);
            assert((k - 1) as nat == q * (N as nat) + ((i - 1) as nat));
        } else if q > 0 {
            Self::lemma_stream_state(b, (q - 1) as nat, N as nat);
            assert((k - 1) as nat == ((q - 1) as nat) * (N as nat) + (N as nat)) by (nonlinear_arith)
                requires
                    q > 0,
                    i == 1,
                    k == q * (N as nat) + i,
            ;
            let p = iterate(step, b, (k - 1) as nat);
            Self::lemma_run_batch(p);
        } else {
            assert(k == 1) by (nonlinear_arith)
                requires
                    q == 0,
                    i == 1,
                    k == q * (N as nat) + i,
            ;
            assert(iterate(step, b, 0) == b);
            assert(iterate(fill, b.inner, 0) == b.inner);
            Self::lemma_run_batch(b);
        }
    }

    /// A buffer changes nothing in the stream: the requests of a buffer that
    /// starts consumed return the bytes of the fills of `N` bytes that the
    /// inner generator makes, fill after fill and byte after byte, none
    /// skipped and none twice. Request number `q * N + i`, counted from 0 and
    /// with `i` below `N`, returns byte `i` of fill number `q`.
    pub proof fn law_stream_in_order(b: Self, q: nat, i: nat)
        requires
            N > 0,
            b.consumed(),
            i < N,
        ensures
            iterate(|s: Self| s.spec_get(), b, q * (N as nat) + i).spec_get().0 == batch_bytes(
                iterate(|g: R| g.draw_bytes(N as nat), b.inner, q),
                N as nat,
            )[i as int],
    {
        let step = |s: Self| s.spec_get();
        let fill = |g: R| g.draw_bytes(N as nat);
        let k: nat = q * (N as nat) + i;
        if i > 0 {
            Self::lemma_stream_state(b, q, i);
        } else if q > 0 {
            Self::lemma_stream_state(b, (q - 1) as nat, N as nat);
            assert(k == ((q - 1) as nat) * (N as nat) + (N as nat)) by (nonlinear_arith)
                requires
                    q > 0,
                    i == 0,
                    k == q * (N as nat) + i,
            ;
            Self::lemma_run_batch(iterate(step, b, k));
        } else {
            assert(k == 0) by (nonlinear_arith)
                requires
                    q == 0,
                    i == 0,
                    k == q * (N as nat) + i,
            ;
            assert(iterate(fill, b.inner, 0) == b.inner);
            Self::lemma_run_batch(b);
        }
    }
}

impl<const N: usize, R: RandomImpl> RandomImpl for Buffer8<N, R> {
    open spec fn valid(&self) -> bool {
        N > 0 && self.inner.valid()
    }

    open spec fn draw_bytes(&self, len: nat) -> (Seq<u8>, Self) {
        (values(|s: Self| s.spec_get(), *self, len), iterate(|s: Self| s.spec_get(), *self, len))
    }

    open spec fn draw_u32(&self) -> (u32, Self) {
        (spec_u32_from_le_bytes(self.draw_bytes(4).0), self.draw_bytes(4).1)
    }

    open spec fn draw_u64(&self) -> (u64, Self) {
        (spec_u64_from_le_bytes(self.draw_bytes(8).0), self.draw_bytes(8).1)
    }

    fn random_u64(&mut self) -> (r: u64) {
        self.u64_from_bytes()
    }

    fn random_u32(&mut self) -> (r: u32) {
        self.u32_from_bytes()
    }

    fn random_bytes(&mut self, dst: &mut [u8]) {
        let ghost step = |s: Self| s.spec_get();
        let len: usize = dst.len();
        let mut i: usize = 0;
        while i < len
            invariant
                i <= len,
                N > 0,
                self.inner.valid(),
                dst@.len() == len,
                step == |s: Self| s.spec_get(),
                *self == iterate(step, *old(self), i as nat),
                forall|j: int| 0 <= j < i ==> dst@[j] == values(step, *old(self), len as nat)[j],
            decreases len - i,
        {
            dst[i] = self.get();
            i += 1;
        }
        assert(dst@ =~= values(step, *old(self), len as nat));
    }
}

} // verus!
