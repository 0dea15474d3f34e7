//! Utilities related to destructors and drop.

use vstd::prelude::*;

use crate::call::call0;

verus! {

/// A callback that is to be run once, when something ends. Returned by [`defer`].
///
/// `Defer` has no destructor of its own, since a destructor must not unwind and nothing is known of
/// the callback. Whoever holds one calls [`Defer::run`] where the callback is due.
#[must_use]
pub struct Defer<F: FnOnce()>(Option<F>);

impl<F: FnOnce()> Defer<F> {
    /// The callback, as long as it has not been run.
    pub closed spec fn callback(&self) -> Option<F> {
        self.0
    }

    /// Runs the callback if that has not happened yet.
    pub fn run(&mut self)
        requires
            old(self).callback() matches Some(cb) ==> call_requires(cb, ()),
        ensures
            final(self).callback() is None,
            old(self).callback() matches Some(cb) ==> call_ensures(cb, (), ()),
    {
        if let Some(cb) = self.0.take() {
            call0(cb)
        }
    }
}

/// Returns a value that runs `cb` when its time has come.
pub fn defer<F: FnOnce()>(cb: F) -> (deferred: Defer<F>)
    ensures
        deferred.callback() == Some(cb),
{
    Defer(Some(cb))
}

/// A deferred callback is run once: the first run calls the very callback that was deferred, and leaves
/// nothing for a second one.
pub proof fn callback_is_run_once<F: FnOnce()>(
    cb: F,
    deferred: Defer<F>,
    first: &mut Defer<F>,
    second: &mut Defer<F>,
)
    requires
        call_ensures(defer::<F>, (cb,), deferred),
        *first == deferred,
        call_ensures(Defer::<F>::run, (first,), ()),
        *second == *final(first),
        call_ensures(Defer::<F>::run, (second,), ()),
    ensures
        call_ensures(cb, (), ()),
        old(second).callback() is None,
        final(second).callback() is None,
{
}

} // verus!
