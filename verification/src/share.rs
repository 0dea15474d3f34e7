//! State that several owners share, with a record of what each of them does to it.

use std::ops::Deref;
use std::sync::Arc;

use vstd::prelude::*;

use crate::call::call1;
use crate::sync::{Condvar, Mutex};
use crate::wakeups::have_run_out;

verus! {

/// What the owners share: the state behind its lock, the condition variable of those who wait for it
/// to change, and something that needs no lock.
#[verifier::reject_recursive_types(S)]
#[verifier::reject_recursive_types(X)]
struct Common<S, X> {
    state: Mutex<S>,
    condvar: Condvar,
    extra: X,
}

/// A state that has a host and guests. The host may do anything to it, and the guests may do no more
/// than is said here.
pub trait Hosted: Sized {
    /// Whether a guest who finds this state may leave `after` behind.
    spec fn may_become(self, after: Self) -> bool;
}

/// A state that may have any number of guests.
pub trait Hospitable: Hosted {

}

/// Whether `after` can come of `before` by what guests do.
pub open spec fn comes_of_guests<S: Hosted>(before: S, after: S) -> bool {
    exists|states: Seq<S>| #[trigger] are_left_by_guests(states, before, after)
}

/// Whether `states` leads from `before` to `after` by what guests do, each finding what the one before
/// it has left behind.
pub open spec fn are_left_by_guests<S: Hosted>(states: Seq<S>, before: S, after: S) -> bool {
    &&& states.len() > 0
    &&& states[0] == before
    &&& states.last() == after
    &&& forall|i: int, j: int|
        0 <= i && j == i + 1 && j < states.len() ==> #[trigger] states[i].may_become(
            #[trigger] states[j],
        )
}

/// One owner's share of a state: that of the host (`HOST`), or that of a guest.
///
/// There is no way to the state but through the methods of this type. So [`Share::visits`] is what
/// this owner has done to the state, and [`Share::notices`] is when it has notified the others, no
/// more and no less. What the other owners do to the state between two visits is not known, except
/// that there is only one host, and that guests only do what [`Hosted::may_become`] says.
#[verifier::reject_recursive_types(S)]
#[verifier::reject_recursive_types(X)]
pub struct Share<S, X, const HOST: bool> {
    common: Arc<Common<S, X>>,
    origin: Ghost<S>,
    visits: Ghost<Seq<(S, S)>>,
    notices: Ghost<Seq<nat>>,
}

/// What is left of a share once its owner has let go of it: the record of what the owner has done, to
/// which nothing is added any more.
#[verifier::reject_recursive_types(S)]
#[verifier::reject_recursive_types(X)]
pub struct Past<S, X> {
    identity: Ghost<(Mutex<S>, Condvar, X)>,
    visits: Ghost<Seq<(S, S)>>,
    notices: Ghost<Seq<nat>>,
}

impl<S, X> Past<S, X> {
    /// What tells the state that was shared from others.
    pub closed spec fn identity(&self) -> (Mutex<S>, Condvar, X) {
        self.identity@
    }

    /// All that the owner has done to the state, the first thing first: what it found, and what it left
    /// behind.
    pub closed spec fn visits(&self) -> Seq<(S, S)> {
        self.visits@
    }

    /// When the owner has notified those who wait, the first time first: how many visits it had made.
    pub closed spec fn notices(&self) -> Seq<nat> {
        self.notices@
    }
}

/// [`Arc::strong_count`]: how many owners there are at the moment.
#[verifier::external_body]
fn owners<S, X>(common: &Arc<Common<S, X>>) -> usize {
    Arc::strong_count(common)
}

impl<S, X, const HOST: bool> Share<S, X, HOST> {
    /// What tells one shared state from another: its lock, its condition variable, and what is shared
    /// without a lock.
    pub closed spec fn identity(&self) -> (Mutex<S>, Condvar, X) {
        (self.common.state, self.common.condvar, self.common.extra)
    }

    /// Whether this and `other` are shares of the same state.
    pub open spec fn is_shared_with<const OTHER: bool>(&self, other: &Share<S, X, OTHER>) -> bool {
        self.identity() == other.identity() && self.origin() == other.origin()
    }

    /// The state that was there before any owner visited it.
    pub closed spec fn origin(&self) -> S {
        self.origin@
    }

    /// Whether the state was made to start as `state`.
    pub closed spec fn started_as(&self, state: S) -> bool {
        self.common.state.made_from(state)
    }

    /// What the owners share without a lock.
    pub closed spec fn extra(&self) -> X {
        self.common.extra
    }

    /// Whether this owner may find the state to be `state` when it looks.
    pub closed spec fn may_find(&self, state: S) -> bool {
        self.common.state.may_hold(state)
    }

    /// Owners of the same state have the same extra data beside it.
    pub proof fn is_extra_shared<const OTHER: bool>(&self, other: &Share<S, X, OTHER>)
        requires
            self.is_shared_with(other),
        ensures
            self.extra() == other.extra(),
    {
    }

    /// Whether there may be `count` owners.
    pub closed spec fn may_count(&self, count: usize) -> bool {
        call_ensures(owners::<S, X>, (&self.common,), count)
    }

    /// What this owner has done to the state so far, the first thing first: what it found, and what it
    /// left behind.
    pub closed spec fn visits(&self) -> Seq<(S, S)> {
        self.visits@
    }

    /// When this owner has notified those who wait, the first time first: how many visits it had made.
    pub closed spec fn notices(&self) -> Seq<nat> {
        self.notices@
    }

    /// Whether this owner has neither visited the state nor notified anyone yet.
    pub open spec fn is_fresh(&self) -> bool {
        self.visits().len() == 0 && self.notices().len() == 0
    }

    /// Whether one of the threads that wait for the state to change, if there are any, has been
    /// notified.
    pub open spec fn has_notified_one(&self) -> bool {
        self.identity().1.has_notified_one()
    }

    /// Whether all threads that wait for the state to change have been notified.
    pub open spec fn has_notified_all(&self) -> bool {
        self.identity().1.has_notified_all()
    }

    /// Owners who share the state find the same state.
    pub proof fn owners_find_the_same<const OTHER: bool>(
        &self,
        other: &Share<S, X, OTHER>,
        state: S,
    )
        requires
            self.is_shared_with(other),
        ensures
            self.may_find(state) == other.may_find(state),
            self.started_as(state) == other.started_as(state),
            self.extra() == other.extra(),
    {
    }

    /// Borrows what the owners share without a lock.
    pub(crate) fn extra_ref(&self) -> (extra: &X)
        ensures
            *extra == self.extra(),
        opens_invariants none
        no_unwind
    {
        &self.common.extra
    }

    /// Counts the owners.
    pub(crate) fn count(&self) -> (count: usize)
        ensures
            self.may_count(count),
    {
        call1(owners::<S, X>, &self.common)
    }

    /// Looks at the state with `f`, and leaves it alone.
    pub(crate) fn look<R, F: FnOnce(&S) -> R>(&self, f: F) -> (r: R)
        requires
            forall|state: &S| #[trigger] call_requires(f, (state,)),
        ensures
            exists|state: S| #[trigger] self.may_find(state) && call_ensures(f, (&state,), r),
    {
        let guard = self.common.state.lock();
        let state = guard.deref();
        assert(self.may_find(*state));
        call1(f, state)
    }

    /// Notifies one of the threads that wait for the state to change, if there are any.
    pub(crate) fn notify_one(&mut self)
        ensures
            final(self).is_shared_with(old(self)),
            final(self).visits() == old(self).visits(),
            final(self).notices() == old(self).notices().push(old(self).visits().len()),
            final(self).has_notified_one(),
    {
        self.common.condvar.notify_one();
        self.notices = Ghost(self.notices@.push(self.visits@.len()));
    }

    /// Notifies all threads that wait for the state to change.
    pub(crate) fn notify_all(&mut self)
        ensures
            final(self).is_shared_with(old(self)),
            final(self).visits() == old(self).visits(),
            final(self).notices() == old(self).notices().push(old(self).visits().len()),
            final(self).has_notified_all(),
    {
        self.common.condvar.notify_all();
        self.notices = Ghost(self.notices@.push(self.visits@.len()));
    }
}

impl<S, X> Share<S, X, true> {
    /// The share of the host.
    pub(crate) fn new(state: S, extra: X) -> (share: Self)
        ensures
            share.started_as(state),
            share.origin() == state,
            share.extra() == extra,
            share.is_fresh(),
    {
        let ghost origin = state;
        Share {
            common: Arc::new(
                Common { state: Mutex::new(state), condvar: Condvar::new(), extra },
            ),
            origin: Ghost(origin),
            visits: Ghost(Seq::empty()),
            notices: Ghost(Seq::empty()),
        }
    }

    /// The shares of a host and of its only guest.
    pub(crate) fn pair(state: S, extra: X) -> (pair: (Self, Share<S, X, false>))
        ensures
            pair.0.started_as(state),
            pair.0.origin() == state,
            pair.0.extra() == extra,
            pair.0.is_fresh(),
            pair.1.is_shared_with(&pair.0),
            pair.1.started_as(state),
            pair.1.is_fresh(),
    {
        let host = Share::new(state, extra);
        let guest = Share {
            common: host.common.clone(),
            origin: Ghost(host.origin@),
            visits: Ghost(Seq::empty()),
            notices: Ghost(Seq::empty()),
        };
        (host, guest)
    }

    /// Lets go of the share.
    pub(crate) fn leave(self) -> (past: Past<S, X>)
        ensures
            past.identity() == self.identity(),
            past.visits() == self.visits(),
            past.notices() == self.notices(),
    {
        let ghost identity = self.identity();
        Past {
            identity: Ghost(identity),
            visits: Ghost(self.visits@),
            notices: Ghost(self.notices@),
        }
    }

    /// Locks the state and lets `f` work on it.
    pub(crate) fn visit<R, F: FnOnce(&mut S) -> R>(&mut self, f: F) -> (r: R)
        requires
            forall|place: &mut S| #[trigger] call_requires(f, (place,)),
        ensures
            final(self).is_shared_with(old(self)),
            final(self).notices() == old(self).notices(),
            exists|place: &mut S|
                {
                    &&& old(self).may_find(*place)
                    &&& #[trigger] call_ensures(f, (place,), r)
                    &&& final(self).visits() == old(self).visits().push((*place, *final(place)))
                },
    {
        let mut guard = self.common.state.lock();
        let ghost before = *guard.value();
        assert(self.may_find(before));
        let r = call1(f, guard.place());
        self.visits = Ghost(self.visits@.push((before, *guard.value())));
        r
    }
}

impl<S: Hosted, X> Share<S, X, false> {
    /// Locks the state and lets `f`, which does no more than a guest may, work on it.
    pub(crate) fn visit<R, F: FnOnce(&mut S) -> R>(&mut self, f: F) -> (r: R)
        requires
            forall|place: &mut S| #[trigger] call_requires(f, (place,)),
            forall|place: &mut S, r: R| #[trigger]
                call_ensures(f, (place,), r) ==> (*place).may_become(*final(place)),
        ensures
            final(self).is_shared_with(old(self)),
            final(self).notices() == old(self).notices(),
            exists|place: &mut S|
                {
                    &&& old(self).may_find(*place)
                    &&& #[trigger] call_ensures(f, (place,), r)
                    &&& final(self).visits() == old(self).visits().push((*place, *final(place)))
                },
    {
        let mut guard = self.common.state.lock();
        let ghost before = *guard.value();
        assert(self.may_find(before));
        let r = call1(f, guard.place());
        self.visits = Ghost(self.visits@.push((before, *guard.value())));
        r
    }

    /// Locks the state, waits until `wait`, which only looks at the state, no longer holds of it, and
    /// lets `f`, which does no more than a guest may, work on it.
    pub(crate) fn visit_after_waiting<W: FnMut(&mut S) -> bool, R, F: FnOnce(&mut S) -> R>(
        &mut self,
        wait: W,
        f: F,
    ) -> (r: R)
        requires
            forall|place: &mut S| #[trigger] call_requires(wait, (place,)),
            forall|place: &mut S, held: bool| #[trigger]
                call_ensures(wait, (place,), held) ==> *final(place) == *place,
            forall|place: &mut S| #[trigger] call_requires(f, (place,)),
            forall|place: &mut S, r: R| #[trigger]
                call_ensures(f, (place,), r) ==> (*place).may_become(*final(place)),
        ensures
            final(self).is_shared_with(old(self)),
            final(self).notices() == old(self).notices(),
            exists|asked: &mut S, held: bool, place: &mut S|
                {
                    &&& #[trigger] call_ensures(wait, (asked,), held)
                    &&& held ==> have_run_out()
                    &&& *place == *asked
                    &&& old(self).may_find(*place)
                    &&& #[trigger] call_ensures(f, (place,), r)
                    &&& final(self).visits() == old(self).visits().push((*place, *final(place)))
                },
    {
        let guard = self.common.state.lock();
        let mut guard = self.common.condvar.wait_while(guard, wait);
        let ghost before = *guard.value();
        assert(self.may_find(before));
        let r = call1(f, guard.place());
        self.visits = Ghost(self.visits@.push((before, *guard.value())));
        r
    }
}

impl<S: Hospitable, X, const HOST: bool> Share<S, X, HOST> {
    /// The share of another guest.
    pub(crate) fn share(&self) -> (share: Share<S, X, false>)
        ensures
            share.is_shared_with(self),
            share.extra() == self.extra(),
            forall|state: S| #[trigger] self.started_as(state) ==> share.started_as(state),
            share.is_fresh(),
    {
        Share {
            common: self.common.clone(),
            origin: Ghost(self.origin@),
            visits: Ghost(Seq::empty()),
            notices: Ghost(Seq::empty()),
        }
    }
}

} // verus!
