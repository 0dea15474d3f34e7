//! How the panic of a background operation reaches its owner.
//!
//! Joining a background thread gives an error with the payload of the panic if the thread has
//! panicked. That payload is handed on to whoever interacts with the operation, unless the
//! interacting thread is itself panicking: a second panic would tear down the whole process.

use vstd::prelude::*;

use crate::call::call0;

verus! {

/// Whether `payload` is what is left to be propagated of a panic with the payload `failure`, by a
/// thread that asks `panicking` whether it is itself panicking. It only asks if there is a panic.
pub open spec fn propagates<P, Q: FnOnce() -> bool>(
    failure: Option<P>,
    panicking: Q,
    payload: Option<P>,
) -> bool {
    match failure {
        None => payload is None,
        Some(panic) => {
            ||| payload == Some(panic) && call_ensures(panicking, (), false)
            ||| payload is None && call_ensures(panicking, (), true)
        },
    }
}

/// Whether `payload` is what is left to be propagated once the thread behind `handle` has been
/// joined. If it has been joined before, there is nothing.
pub open spec fn exits_with<H, R, P, J: FnOnce(H) -> Result<R, P>, Q: FnOnce() -> bool>(
    handle: Option<H>,
    join: J,
    panicking: Q,
    payload: Option<P>,
) -> bool {
    match handle {
        None => payload is None,
        Some(handle) => exists|joined: Result<R, P>| #[trigger]
            call_ensures(join, (handle,), joined) && propagates(joined.err(), panicking, payload),
    }
}

/// Decides which payload the calling thread has to go on unwinding with.
pub fn propagate<P, Q: FnOnce() -> bool>(failure: Option<P>, panicking: Q) -> (payload: Option<P>)
    requires
        call_requires(panicking, ()),
    ensures
        propagates(failure, panicking, payload),
{
    match failure {
        None => None,
        Some(panic) => if call0(panicking) {
            None
        } else {
            Some(panic)
        },
    }
}

/// A thread that is not panicking propagates every panic it finds, and one that is panicking
/// propagates none.
pub proof fn panic_is_propagated_unless_panicking<P, Q: FnOnce() -> bool>(
    failure: Option<P>,
    panicking: Q,
    payload: Option<P>,
)
    requires
        propagates(failure, panicking, payload),
    ensures
        !call_ensures(panicking, (), true) ==> payload == failure,
        !call_ensures(panicking, (), false) ==> payload is None,
{
}

/// Propagating a panic hands out its payload if the calling thread is not panicking, and nothing if
/// it is. Where there is no panic, there is nothing to propagate.
pub proof fn payload_is_handed_out_iff_calm<P, Q: FnOnce() -> bool>(
    failure: Option<P>,
    panicking: Q,
    payload: Option<P>,
)
    requires
        call_ensures(propagate::<P, Q>, (failure, panicking), payload),
    ensures
        failure is None ==> payload is None,
        payload is Some ==> payload == failure && call_ensures(panicking, (), false),
        failure is Some && payload is None ==> call_ensures(panicking, (), true),
{
}

} // verus!
