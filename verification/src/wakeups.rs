//! Waiting again and again for something to happen.

use vstd::prelude::*;

use crate::call::call1;
use crate::sync::{Condvar, Mutex, MutexGuard};

verus! {

/// How many more times a thread is prepared to be woken up before it finds what it is waiting for.
///
/// There is no way to use this up but to wait. It starts out so large that no thread ever does.
pub struct Wakeups {
    left: u64,
}

/// Whether a thread has been woken up more often than a machine integer can count.
pub closed spec fn have_run_out() -> bool {
    exists|wakeups: Wakeups| #[trigger] call_ensures(Wakeups::run_out, (&wakeups,), ())
}

impl Wakeups {
    /// How many times are left.
    pub closed spec fn left(&self) -> nat {
        self.left as nat
    }

    /// All of them are left.
    pub fn new() -> (wakeups: Self)
        ensures
            wakeups.left() == u64::MAX,
    {
        Wakeups { left: u64::MAX }
    }

    /// Whether none is left.
    pub fn are_used_up(&self) -> (used_up: bool)
        ensures
            used_up == (self.left() == 0),
            used_up ==> have_run_out(),
    {
        if self.left == 0 {
            call1(Wakeups::run_out, self);
            true
        } else {
            false
        }
    }

    /// Leaves evidence that none is left.
    fn run_out(&self)
        requires
            self.left() == 0,
    {
    }

    /// Waits as [`Condvar::wait`] does, and takes note of it.
    pub fn wait<'a, T>(&mut self, condvar: &Condvar, guard: MutexGuard<'a, T>) -> (woken: MutexGuard<
        'a,
        T,
    >)
        requires
            old(self).left() > 0,
        ensures
            final(self).left() == old(self).left() - 1,
            forall|mutex: &Mutex<T>| #[trigger] mutex.locks_to(guard) ==> mutex.locks_to(woken),
            condvar.waits_to(guard, woken),
    {
        self.left = self.left - 1;
        condvar.wait(guard)
    }
}

/// A thread does not give up waiting before it has been woken up as often as a machine integer can
/// count: wakeups that are used up have been used for that many waits, one by one.
pub proof fn wakeups_last_for_as_many_waits_as_can_be_counted<'a, T>(
    first: Wakeups,
    steps: Seq<&mut Wakeups>,
    condvars: Seq<&Condvar>,
    guards: Seq<MutexGuard<'a, T>>,
    woken: Seq<MutexGuard<'a, T>>,
    last: Wakeups,
    used_up: bool,
)
    requires
        call_ensures(Wakeups::new, (), first),
        condvars.len() == steps.len(),
        guards.len() == steps.len(),
        woken.len() == steps.len(),
        forall|i: int|
            0 <= i < steps.len() ==> call_ensures(
                Wakeups::wait::<T>,
                (#[trigger] steps[i], condvars[i], guards[i]),
                woken[i],
            ),
        steps.len() > 0 ==> *steps[0] == first,
        forall|i: int, j: int|
            0 <= i && j == i + 1 && j < steps.len() ==> *(#[trigger] steps[j]) == *final(
                #[trigger] steps[i]
            ),
        last == if steps.len() == 0 {
            first
        } else {
            *final(steps[steps.len() - 1])
        },
        call_ensures(Wakeups::are_used_up, (&last,), used_up),
    ensures
        steps.len() <= u64::MAX,
        used_up <==> steps.len() == u64::MAX,
{
    if steps.len() > 0 {
        waits_use_wakeups_one_by_one(first, steps, condvars, guards, woken, steps.len() - 1);
    }
}

proof fn waits_use_wakeups_one_by_one<'a, T>(
    first: Wakeups,
    steps: Seq<&mut Wakeups>,
    condvars: Seq<&Condvar>,
    guards: Seq<MutexGuard<'a, T>>,
    woken: Seq<MutexGuard<'a, T>>,
    i: int,
)
    requires
        call_ensures(Wakeups::new, (), first),
        forall|i: int|
            0 <= i < steps.len() ==> call_ensures(
                Wakeups::wait::<T>,
                (#[trigger] steps[i], condvars[i], guards[i]),
                woken[i],
            ),
        *steps[0] == first,
        forall|i: int, j: int|
            0 <= i && j == i + 1 && j < steps.len() ==> *(#[trigger] steps[j]) == *final(
                #[trigger] steps[i]
            ),
        0 <= i < steps.len(),
    ensures
        final(steps[i]).left() == u64::MAX - (i + 1),
    decreases i,
{
    if i > 0 {
        waits_use_wakeups_one_by_one(first, steps, condvars, guards, woken, i - 1);
        assert(*steps[i] == *final(steps[i - 1]));
    }
}

} // verus!
