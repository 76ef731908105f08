//! Track the count of active instances of a type.
//!
//! The count is kept by a [`Counter`]. It is raised when a [`Counted`] value is
//! made and lowered again when the value is taken out of it.

use vstd::prelude::*;

verus! {

/// Defines how a count is reported.
pub trait Counter {
    /// What one call of [`incr`](Counter::incr) with `n` does to the counter:
    /// it holds of the counter before the call and the counter after it. A
    /// counter that says nothing here promises nothing.
    open spec fn incremented(&self, n: i64, after: &Self) -> bool {
        true
    }

    /// Changes the count by `n`.
    fn incr(&mut self, n: i64)
        ensures
            old(self).incremented(n, final(self)),
    ;
}

/// Binds a counter to a value.
///
/// The count is raised by one when the value is bound, and lowered by one when
/// the value is taken out again with [`into_inner`](Counted::into_inner).
pub struct Counted<C, T> where C: Counter {
    counter: C,
    inner: T,
}

impl<C, T> Counted<C, T> where C: Counter {
    /// The counter.
    pub closed spec fn counter_spec(&self) -> &C {
        &self.counter
    }

    /// The value that is counted.
    pub closed spec fn inner_spec(&self) -> &T {
        &self.inner
    }

    /// Binds `counter` to `t` and raises the count by one.
    pub fn new(t: T, counter: C) -> (s: Self)
        ensures
            *s.inner_spec() == t,
            counter.incremented(1i64, s.counter_spec()),
    {
        let mut s = Self { counter, inner: t };
        s.counter.incr(1);
        s
    }

    /// The counter.
    pub fn counter(&self) -> (c: &C)
        ensures
            c == self.counter_spec(),
    {
        &self.counter
    }

    /// The counter, to change it. The value stays as it is.
    pub fn counter_mut(&mut self) -> (c: &mut C)
        ensures
            *c == *old(self).counter_spec(),
            *final(self).counter_spec() == *final(c),
            *final(self).inner_spec() == *old(self).inner_spec(),
    {
        &mut self.counter
    }

    /// Takes the value out and lowers the count by one.
    pub fn into_inner(self) -> (t: T)
        ensures
            t == *self.inner_spec(),
            exists|after: C| #[trigger] self.counter_spec().incremented(-1i64, &after),
    {
        let Counted { mut counter, inner } = self;
        counter.incr(-1);
        assert(self.counter_spec().incremented(-1i64, &counter));
        inner
    }

    /// Puts `t` in the place of the value and hands the old value back. The
    /// count stays as it is.
    pub fn replace(&mut self, t: T) -> (previous: T)
        ensures
            previous == *old(self).inner_spec(),
            *final(self).inner_spec() == t,
            *final(self).counter_spec() == *old(self).counter_spec(),
    {
        let mut other = t;
        std::mem::swap(&mut self.inner, &mut other);
        other
    }
}

impl<C> Counted<C, ()> where C: Counter {
    /// A guard without content around `counter`: the count is raised by one.
    pub fn counted_guard(counter: C) -> (guard: Self)
        ensures
            counter.incremented(1i64, guard.counter_spec()),
    {
        Counted::new((), counter)
    }

    /// A guard without content around a counter in its default state.
    pub fn guard() -> (guard: Self) where C: Default
        ensures
            exists|counter: C|
                call_ensures(C::default, (), counter) && #[trigger] counter.incremented(
                    1i64,
                    guard.counter_spec(),
                ),
    {
        Counted::new((), C::default())
    }
}

/// Lets the holder use a `Counted` as it would use the value.
impl<C, T> std::ops::Deref for Counted<C, T> where C: Counter {
    type Target = T;

    fn deref(&self) -> (t: &T)
        ensures
            t == self.inner_spec(),
    {
        &self.inner
    }
}

impl<C: Counter, T> AsRef<T> for Counted<C, T> {
    fn as_ref(&self) -> (t: &T)
        ensures
            t == self.inner_spec(),
    {
        &self.inner
    }
}

impl<C: Counter, T> AsMut<T> for Counted<C, T> {
    fn as_mut(&mut self) -> (t: &mut T)
        ensures
            *t == *old(self).inner_spec(),
            *final(self).inner_spec() == *final(t),
            *final(self).counter_spec() == *old(self).counter_spec(),
    {
        &mut self.inner
    }
}

} // verus!
