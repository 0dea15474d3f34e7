//! Run-to-completion background threads.

use vstd::prelude::*;

use crate::call::call1;
use crate::unwind::{exits_with, propagate};

verus! {

/// A simple run-to-completion background thread.
///
/// Created with the freestanding [`background`] function.
///
/// This is an owned thread that runs a closure to completion and returns the result back to the
/// owning thread when it calls [`Background::join`].
///
/// `H` is the handle by which the thread can be joined. Whoever owns a [`Background`] either calls
/// [`Background::join`], or calls [`Background::release`] before letting go of it. Both join the
/// thread and hand out the payload of its panic if it panicked.
pub struct Background<H> {
    handle: Option<H>,
}

impl<H> Background<H> {
    /// The handle of the thread, as long as it has not been joined.
    pub closed spec fn handle(&self) -> Option<H> {
        self.handle
    }

    /// Blocks on the background thread and returns its result.
    ///
    /// If the thread has panicked, the payload of the panic is returned as an error, to be
    /// propagated to the owner.
    ///
    /// `join` joins a thread.
    pub fn join<R, P, J: FnOnce(H) -> Result<R, P>>(self, join: J) -> (result: Result<R, P>)
        requires
            self.handle() matches Some(handle) && call_requires(join, (handle,)),
        ensures
            call_ensures(join, (self.handle()->0,), result),
    {
        let handle = self.handle.unwrap();
        call1(join, handle)
    }

    /// Joins the thread if that has not happened yet, and returns the payload of a panic that has
    /// to be propagated to the owner.
    ///
    /// `join` joins a thread, and `panicking` tells whether the calling thread is panicking.
    pub fn release<R, P, J: FnOnce(H) -> Result<R, P>, Q: FnOnce() -> bool>(
        &mut self,
        join: J,
        panicking: Q,
    ) -> (payload: Option<P>)
        requires
            old(self).handle() matches Some(handle) ==> call_requires(join, (handle,)),
            call_requires(panicking, ()),
        ensures
            final(self).handle() is None,
            exits_with(old(self).handle(), join, panicking, payload),
    {
        match self.handle.take() {
            None => None,
            Some(handle) => {
                let joined = call1(join, handle);
                propagate(joined.err(), panicking)
            },
        }
    }
}

/// Spawns a run-to-completion [`Background`] thread.
///
/// `spawn` starts a thread that runs a closure.
pub fn background<R, F: FnOnce() -> R, H, S: FnOnce(F) -> H>(f: F, spawn: S) -> (thread: Background<
    H,
>)
    requires
        call_requires(spawn, (f,)),
    ensures
        thread.handle() matches Some(handle) && call_ensures(spawn, (f,), handle),
{
    Background { handle: Some(call1(spawn, f)) }
}

/// Releasing a thread that has not been joined joins it. The payload of its panic is propagated
/// exactly if it panicked and its owner is not panicking, and what it returned is discarded.
pub proof fn release_joins_and_propagates<
    H,
    R,
    P,
    J: FnOnce(H) -> Result<R, P>,
    Q: FnOnce() -> bool,
>(thread: &mut Background<H>, handle: H, join: J, panicking: Q, payload: Option<P>)
    requires
        thread.handle() == Some(handle),
        call_ensures(Background::<H>::release::<R, P, J, Q>, (thread, join, panicking), payload),
    ensures
        final(thread).handle() is None,
        exists|joined: Result<R, P>| #[trigger]
            call_ensures(join, (handle,), joined) && match joined {
                Ok(_) => payload is None,
                Err(panic) => {
                    ||| payload == Some(panic) && call_ensures(panicking, (), false)
                    ||| payload is None && call_ensures(panicking, (), true)
                },
            },
{
}

/// A thread is joined once, and so its panic is propagated at most once: a second release finds
/// nothing to join and propagates nothing.
pub proof fn panic_is_propagated_once<
    H,
    R,
    P,
    J: FnOnce(H) -> Result<R, P>,
    Q: FnOnce() -> bool,
>(
    first: &mut Background<H>,
    join: J,
    panicking: Q,
    payload: Option<P>,
    second: &mut Background<H>,
    rejoin: J,
    still_panicking: Q,
    repeated: Option<P>,
)
    requires
        call_ensures(Background::<H>::release::<R, P, J, Q>, (first, join, panicking), payload),
        *second == *final(first),
        call_ensures(
            Background::<H>::release::<R, P, J, Q>,
            (second, rejoin, still_panicking),
            repeated,
        ),
    ensures
        repeated is None,
{
}

/// Joining a background thread joins the very thread that was started for the function, and gives what
/// joining it gives.
pub proof fn thread_that_was_started_is_joined<
    R,
    P,
    F: FnOnce() -> R,
    H,
    S: FnOnce(F) -> H,
    J: FnOnce(H) -> Result<R, P>,
>(f: F, spawn: S, thread: Background<H>, join: J, result: Result<R, P>)
    requires
        call_ensures(background::<R, F, H, S>, (f, spawn), thread),
        call_ensures(Background::<H>::join::<R, P, J>, (thread, join), result),
    ensures
        exists|handle: H| #[trigger]
            call_ensures(spawn, (f,), handle) && call_ensures(join, (handle,), result),
{
}

} // verus!
