//! Scope guards: a value paired with the cleanup that is owed to it. The
//! cleanup is called once, on the value as it is when the guard is finished.

use vstd::prelude::*;

pub mod deferred;
pub mod laws;

pub use deferred::defer;

verus! {

/// Whether `f` may be called on every value of `T`, whatever state that value
/// is in.
pub open spec fn always_callable<T, F: FnMut(&mut T)>(f: F) -> bool {
    forall|r: &mut T| #[trigger] call_requires(f, (r,))
}

/// A value together with the cleanup that is owed to it.
///
/// The guard owns both. While it lives, the value is reached through the
/// guard, for reading and for writing. `finish` ends it: the cleanup is
/// called once on the value as it is then. Nothing else calls the cleanup,
/// and there is no way to take it off the guard.
///
/// A guard does not finish itself. Its owner hands it to `finish` on every
/// way out of the scope that the guard stands for; a destructor of the
/// owner is the place for that call.
///
/// A panic in the cleanup is not caught: it leaves through `finish`. Where
/// `finish` was called from a destructor while another panic was unwinding,
/// the second panic aborts the process.
#[must_use]
pub struct Guard<T, F> where F: FnMut(&mut T) {
    dropfn: F,
    value: T,
}

impl<T, F> Guard<T, F> where F: FnMut(&mut T) {
    /// The value that the guard holds at this moment.
    pub closed spec fn value(&self) -> T {
        self.value
    }

    /// The closure that `finish` will call.
    pub closed spec fn cleanup(&self) -> F {
        self.dropfn
    }

    /// A guard is well formed when its cleanup can be called on whatever the
    /// guard may come to hold. `guard` establishes this and write access
    /// keeps it, so `finish` can rely on it.
    pub open spec fn wf(&self) -> bool {
        always_callable(self.cleanup())
    }

    /// Ends the guard: calls the cleanup on the held value, once, and hands
    /// back what that call left.
    ///
    /// The call starts from the value held now, not from the value the guard
    /// was made with. The guard is used up, so the cleanup cannot be called
    /// a second time through it.
    pub fn finish(self) -> (out: T)
        requires
            self.wf(),
        ensures
            exists|r: &mut T|
                *r == self.value() && *final(r) == out
                    && #[trigger] call_ensures(self.cleanup(), (r,), ()),
    {
        let Guard { mut dropfn, mut value } = self;
        dropfn(&mut value);
        value
    }
}

/// Makes a guard that owns `v` and will call `dropfn` on it when finished.
///
/// Nothing is run yet: the guard holds `v` as it was given, and `dropfn`
/// waits for `finish`. Because the holder of the guard may store any value
/// in it before then, `dropfn` has to accept every value.
pub fn guard<T, F>(v: T, dropfn: F) -> (g: Guard<T, F>) where F: FnMut(&mut T)
    requires
        always_callable(dropfn),
    ensures
        g.value() == v,
        g.cleanup() == dropfn,
        g.wf(),
{
    Guard { value: v, dropfn: dropfn }
}

impl<T, F> core::ops::Deref for Guard<T, F> where F: FnMut(&mut T) {
    type Target = T;

    /// Read access to the held value.
    fn deref(&self) -> (r: &T)
        ensures
            *r == self.value(),
    {
        &self.value
    }
}

impl<T, F> core::ops::DerefMut for Guard<T, F> where F: FnMut(&mut T) {
    /// Write access to the held value. Whatever the borrow leaves in place is
    /// what the guard holds from then on; the cleanup is not touched.
    fn deref_mut(&mut self) -> (r: &mut T)
        ensures
            *r == old(self).value(),
            final(self).value() == *final(r),
            final(self).cleanup() == old(self).cleanup(),
            final(self).wf() == old(self).wf(),
    {
        &mut self.value
    }
}

} // verus!
