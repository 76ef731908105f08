//! A guard that holds a closure to be run once, when the work it guards is over.
//!
//! The closure is run by [`DropGuard::run`], at most once, unless the guard was
//! cancelled before.

use vstd::prelude::*;

verus! {

/// A guard around a closure that is to be run once.
///
/// The closure runs when [`run`](DropGuard::run) is called for the first time,
/// unless [`cancel`](DropGuard::cancel) came first.
pub struct DropGuard<F: FnOnce()> {
    f: Option<F>,
}

impl<F: FnOnce()> DropGuard<F> {
    #[verifier::type_invariant]
    spec fn callable(self) -> bool {
        self.f is Some ==> call_requires(self.f->0, ())
    }

    /// The closure that the guard still holds, if any.
    pub closed spec fn pending(&self) -> Option<F> {
        self.f
    }

    /// A guard that will run `f`.
    pub fn new(f: F) -> (guard: Self)
        requires
            call_requires(f, ()),
        ensures
            guard.pending() == Some(f),
    {
        DropGuard { f: Some(f) }
    }

    /// Gives the closure up without running it.
    pub fn cancel(&mut self)
        ensures
            final(self).pending() is None,
    {
        self.f = None;
    }

    /// Whether the guard still holds its closure.
    pub fn is_active(&self) -> (active: bool)
        ensures
            active == self.pending() is Some,
    {
        self.f.is_some()
    }

    /// Runs the closure if the guard still holds it. After that the guard holds
    /// none, so the closure runs once at most.
    pub fn run(&mut self)
        ensures
            final(self).pending() is None,
            old(self).pending() is Some ==> call_ensures(old(self).pending()->0, (), ()),
    {
        let mut taken = DropGuard { f: None };
        std::mem::swap(self, &mut taken);
        proof {
            use_type_invariant(&taken);
        }
        if let Some(f) = taken.f {
            f();
        }
    }
}

} // verus!
