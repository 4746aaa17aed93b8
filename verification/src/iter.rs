//! A wrapper that hands out values of one type from a generator, without end.

use vstd::prelude::*;
use crate::random::FromRandom;
use crate::random::RandomImpl;

verus! {

/// A source of values of the type `T`, each made from the draws of the inner generator.
///
/// It is a generator too: its draws are those of the inner generator.
pub struct Iter<T: FromRandom<R>, R: RandomImpl> {
    /// The generator that the values are made from.
    pub inner: R,
    /// Stands for the type of the values.
    pub _marker: core::marker::PhantomData<T>,
}

impl<T: FromRandom<R>, R: RandomImpl + Clone> Clone for Iter<T, R> {
    /// A source of the same type of values around a clone of the inner generator.
    fn clone(&self) -> (r: Self)
        ensures
            cloned(self.inner, r.inner),
    {
        Self { inner: self.inner.clone(), _marker: core::marker::PhantomData }
    }
}

impl<T: FromRandom<R>, R: RandomImpl> Iter<T, R> {
    /// Construct a new `Iter` from a generator.
    pub fn new(inner: R) -> (r: Self)
        ensures
            r.inner == inner,
    {
        Self { inner, _marker: core::marker::PhantomData }
    }

    /// Consume the wrapper and return the inner generator.
    pub fn unwrap(self) -> (r: R)
        ensures
            r == self.inner,
    {
        self.inner
    }

    /// The next value. There always is one.
    pub fn next(&mut self) -> (r: Option<T>)
        requires
            old(self).inner.valid(),
        ensures
            r == Some(T::drawn(old(self).inner).0),
            final(self).inner == T::drawn(old(self).inner).1,
            final(self).inner.valid(),
    {
        Some(T::from_random(&mut self.inner))
    }
}

impl<T: FromRandom<R>, R: RandomImpl> RandomImpl for Iter<T, R> {
    open spec fn valid(&self) -> bool {
        self.inner.valid()
    }

    open spec fn draw_u64(&self) -> (u64, Self) {
        (
            self.inner.draw_u64().0,
            Iter { inner: self.inner.draw_u64().1, _marker: core::marker::PhantomData },
        )
    }

    open spec fn draw_u32(&self) -> (u32, Self) {
        (
            self.inner.draw_u32().0,
            Iter { inner: self.inner.draw_u32().1, _marker: core::marker::PhantomData },
        )
    }

    open spec fn draw_bytes(&self, len: nat) -> (Seq<u8>, Self) {
        (
            self.inner.draw_bytes(len).0,
            Iter { inner: self.inner.draw_bytes(len).1, _marker: core::marker::PhantomData },
        )
    }

    fn random_u64(&mut self) -> (r: u64) {
        self.inner.random_u64()
    }

    fn random_u32(&mut self) -> (r: u32) {
        self.inner.random_u32()
    }

    fn random_bytes(&mut self, dst: &mut [u8]) {
        self.inner.random_bytes(dst);
    }
}

} // verus!
