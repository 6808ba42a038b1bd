//! Deferred actions: a guard with nothing to protect, made only to run an
//! action when it is finished.

use crate::{guard, Guard};
use vstd::prelude::*;

verus! {

/// Returns a guard over the unit value whose cleanup calls `action`.
///
/// Nothing is run yet. The action runs when the guard is finished; whoever
/// holds several of them in one scope finishes them last made first.
///
/// The action is called through a shared borrow. One that has to change
/// what it captures does so through a cell, or is written as a cleanup for
/// `guard` over `()`.
#[must_use]
pub fn defer<A: Fn()>(action: A) -> (g: Guard<(), impl FnMut(&mut ())>)
    requires
        call_requires(action, ()),
    ensures
        g.value() == (),
        g.wf(),
        forall|r: &mut ()| #[trigger]
            call_ensures(g.cleanup(), (r,), ()) ==> call_ensures(action, (), ()),
{
    guard((), move |_unit: &mut ()|
        ensures
            call_ensures(action, (), ()),
        { action() })
}

} // verus!
