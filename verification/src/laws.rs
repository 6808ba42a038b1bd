//! What the contracts of `guard`, `deref_mut` and `finish` give when the
//! calls are made one after the other. Each hypothesis is the contract of
//! one call, taken as it stands.

use crate::{guard, Guard};
use core::ops::DerefMut;
use vstd::prelude::*;

verus! {

/// A guard made from `v` and `f` and finished without having been written
/// to gives back a value that one call of `f`, started on `v`, can leave.
///
/// `made` is what `guard(v, f)` returned and `out` what `made.finish()`
/// returned.
pub proof fn lemma_untouched_guard_cleans_initial_value<T, F: FnMut(&mut T)>(
    v: T,
    f: F,
    made: Guard<T, F>,
    out: T,
)
    requires
        call_ensures(guard::<T, F>, (v, f), made),
        call_ensures(Guard::<T, F>::finish, (made,), out),
    ensures
        exists|r: &mut T| *r == v && *final(r) == out && #[trigger] call_ensures(f, (r,), ()),
{
}

/// The cleanup sees what was last written, not what the guard held before:
/// if a borrow taken with `deref_mut` left `w` in the guard, the one call
/// that `finish` makes starts on `w`, with the cleanup that the guard had
/// before the write.
///
/// `before` is the guard when `deref_mut` is called, `written` the guard
/// when that borrow has ended, and `out` what `written.finish()` returned.
pub proof fn lemma_cleanup_sees_last_write<T, F: FnMut(&mut T)>(
    before: Guard<T, F>,
    w: T,
    written: Guard<T, F>,
    out: T,
)
    requires
        exists|g: &mut Guard<T, F>, r: &mut T|
            *g == before && *final(g) == written && *final(r) == w
                && #[trigger] call_ensures(Guard::<T, F>::deref_mut, (g,), r),
        call_ensures(Guard::<T, F>::finish, (written,), out),
    ensures
        exists|c: &mut T|
            *c == w && *final(c) == out && #[trigger] call_ensures(before.cleanup(), (c,), ()),
{
}

/// A guard that `guard` made can be finished after any write: `deref_mut`
/// leaves it well formed, which is all that `finish` asks.
///
/// `made` is what `guard(v, f)` returned, and `written` the guard when a
/// borrow taken from `made` with `deref_mut` has ended.
pub proof fn lemma_written_guard_can_be_finished<T, F: FnMut(&mut T)>(
    v: T,
    f: F,
    made: Guard<T, F>,
    written: Guard<T, F>,
)
    requires
        call_ensures(guard::<T, F>, (v, f), made),
        exists|g: &mut Guard<T, F>, r: &mut T|
            *g == made && *final(g) == written
                && #[trigger] call_ensures(Guard::<T, F>::deref_mut, (g,), r),
    ensures
        call_requires(Guard::<T, F>::finish, (written,)),
        written.cleanup() == f,
{
}

} // verus!
