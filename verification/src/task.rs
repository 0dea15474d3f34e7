//! The wakers of asynchronous tasks.

use std::task::{Context, Poll, Waker};

use vstd::prelude::*;

use crate::call::{call1, call2};

verus! {

/// The standard library's handle for waking a task.
#[verifier::external_type_specification]
#[verifier::external_body]
pub struct ExWaker(Waker);

/// The standard library's context of an asynchronous task.
#[verifier::external_type_specification]
#[verifier::external_body]
pub struct ExContext<'a>(Context<'a>);

/// The standard library's answer of a task that may not be done yet.
#[verifier::external_type_specification]
#[verifier::reject_recursive_types(T)]
pub struct ExPoll<T>(Poll<T>);

/// [`Context::waker`]: the waker of the task that is being polled.
pub assume_specification<'a, 'b>[ Context::<'a>::waker ](context: &'b Context<'a>) -> &'a Waker;

/// [`Waker::clone`]: another handle for waking the same task.
pub assume_specification[ <Waker as Clone>::clone ](waker: &Waker) -> Waker;

/// [`Waker::wake`]: wakes the task.
pub assume_specification[ Waker::wake ](waker: Waker);

/// Whether the task of `waker` has been woken by means of `waker`.
pub open spec fn was_woken(waker: Waker) -> bool {
    call_ensures(Waker::wake, (waker,), ())
}

/// Whether the task of `waker` has been woken after those of all `earlier` wakers.
pub closed spec fn was_woken_after(waker: Waker, earlier: Seq<Waker>) -> bool {
    call_ensures(wake_after, (waker, Ghost(earlier)), ())
}

/// Whether the tasks of all `wakers` have been woken, in their order.
pub open spec fn all_woken(wakers: Seq<Waker>) -> bool {
    forall|i: int|
        0 <= i < wakers.len() ==> was_woken(#[trigger] wakers[i]) && was_woken_after(
            wakers[i],
            wakers.take(i),
        )
}

/// Wakes the task of `waker`, after those of all `earlier` wakers have been woken.
fn wake_after(waker: Waker, earlier: Ghost<Seq<Waker>>)
    requires
        forall|i: int| 0 <= i < earlier@.len() ==> was_woken(#[trigger] earlier@[i]),
    ensures
        was_woken(waker),
{
    call1(Waker::wake, waker)
}

/// Wakes the tasks of all `wakers`, in their order.
pub fn wake_all(wakers: Vec<Waker>)
    ensures
        all_woken(wakers@),
{
    let ghost all = wakers@;
    for waker in iter: wakers
        invariant
            iter.seq() == all,
            forall|i: int|
                0 <= i < iter.index() ==> was_woken(#[trigger] all[i]) && was_woken_after(
                    all[i],
                    all.take(i),
                ),
    {
        call2(wake_after, waker, Ghost(all.take(iter.index())));
    }
}

/// Adds another handle for waking the task of `waker` to `wakers`.
pub fn register(wakers: &mut Vec<Waker>, waker: &Waker)
    ensures
        exists|handle: Waker| #[trigger]
            call_ensures(Waker::clone, (waker,), handle) && final(wakers)@ == old(wakers)@.push(
                handle,
            ),
{
    let handle = call1(Waker::clone, waker);
    wakers.push(handle);
}

/// Gives all `wakers` away and leaves none behind.
pub(crate) fn take_all(wakers: &mut Vec<Waker>) -> (taken: Vec<Waker>)
    ensures
        taken == *old(wakers),
        final(wakers)@ == Seq::<Waker>::empty(),
{
    let mut taken: Vec<Waker> = Vec::new();
    std::mem::swap(wakers, &mut taken);
    taken
}

/// Whether `future` is the one that `maker` has made of `source`.
#[verifier::inline]
pub open spec fn comes_from<S, R, M: FnOnce(S) -> R>(maker: M, source: S, future: R) -> bool {
    call_ensures(maker, (source,), future)
}

/// Waking tasks wakes each of them, and none before those that registered earlier.
pub proof fn every_task_is_woken(wakers: Vec<Waker>)
    requires
        call_ensures(wake_all, (wakers,), ()),
    ensures
        forall|i: int|
            0 <= i < wakers@.len() ==> {
                &&& call_ensures(Waker::wake, (#[trigger] wakers@[i],), ())
                &&& was_woken_after(wakers@[i], wakers@.take(i))
            },
{
}

/// Registering a task keeps those that have registered before, in their order, and adds a handle for
/// waking that task behind them.
pub proof fn registration_keeps_who_registered_before(wakers: &mut Vec<Waker>, waker: &Waker)
    requires
        call_ensures(register, (wakers, waker), ()),
    ensures
        final(wakers)@.len() == old(wakers)@.len() + 1,
        forall|i: int|
            0 <= i < old(wakers)@.len() ==> #[trigger] final(wakers)@[i] == old(wakers)@[i],
        call_ensures(Waker::clone, (waker,), final(wakers)@.last()),
{
}

} // verus!
