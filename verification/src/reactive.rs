//! Primitives for reactive programming.
//!
//! [`Value`] encapsulates some value and adds the ability to listen for changes of that value. It
//! supports both blocking and asynchronous listeners.
//!
//! # Analogues
//!
//! A [`Value`] and its associated [`Reader`]s are comparable to a *broadcast channel*, since any
//! change to the [`Value`] will notify *every* [`Reader`]. However, there is an important
//! difference: changes to the [`Value`] are generally *coalesced*, meaning that [`Reader`]s are not
//! guaranteed to see intermediate values if the value is changed again before the [`Reader`] has
//! time to witness the old value.
//!
//! # How it works
//!
//! All that is shared is a [`ValueState`]: the value itself and how often it has been written.
//! Every [`Reader`] remembers how far it has got in a [`ReadPosition`] of its own. What there is to
//! decide is decided by the methods of [`ValueState`], which say exactly what they do. [`Value`] and
//! [`Reader`] call them on the state that they find behind the lock.

use std::future::Future;
use std::ops::{Deref, DerefMut};
use std::sync::atomic::{AtomicUsize, Ordering};
use std::task::{Context, Poll, Waker};

use vstd::future::FutureAdditionalSpecFns;
use vstd::prelude::*;

use crate::call::{call0, call1, call2, call3};
use crate::future;
use crate::share::{are_left_by_guests, comes_of_guests, Hosted, Hospitable, Past, Share};
use crate::task::{all_woken, comes_from, register, take_all, wake_all};
use crate::wakeups::have_run_out;

verus! {

/// An error value returned by [`Reader`] when the underlying [`Value`] is gone.
#[derive(Debug, Clone, Copy, PartialEq, Eq, Structural)]
pub struct Disconnected;

/// A mutable reference that tracks whether the pointee has been modified.
///
/// This implements [`Deref`] and [`DerefMut`] to allow access to the inner value. If the [`Mut`] is
/// mutably dereferenced, the contained value will be marked as changed. The value can be manually
/// marked or unmarked as changed by calling [`Mut::set_changed`].
pub struct Mut<'a, T> {
    t: &'a mut T,
    changed: &'a mut bool,
}

impl<'a, T> Mut<'a, T> {
    /// The pointee.
    pub closed spec fn pointee(self) -> &'a mut T {
        self.t
    }

    /// Whether the pointee is to be considered changed.
    pub closed spec fn mark(self) -> &'a mut bool {
        self.changed
    }

    /// Once a reference has been used for the last time, the pointee and its mark are final.
    pub broadcast proof fn is_final_once_resolved(self)
        requires
            #[trigger] has_resolved(self),
        ensures
            *final(self.pointee()) == *self.pointee(),
            *final(self.mark()) == *self.mark(),
    {
    }

    fn new(t: &'a mut T, changed: &'a mut bool) -> (m: Self)
        ensures
            *m.pointee() == *old(t),
            *m.mark() == *old(changed),
            *final(m.pointee()) == *final(t),
            *final(m.mark()) == *final(changed),
    {
        Mut { t, changed }
    }

    /// Narrows the reference down to a part of the pointee, without considering it changed.
    fn map<U, F: FnOnce(&'a mut T) -> &'a mut U>(self, f: F) -> (m: Mut<'a, U>)
        requires
            forall|t: &'a mut T| *t == *self.pointee() ==> #[trigger] call_requires(f, (t,)),
        ensures
            exists|t: &'a mut T, u: &'a mut U|
                {
                    &&& *t == *old(self.pointee())
                    &&& *final(t) == *final(self.pointee())
                    &&& #[trigger] call_ensures(f, (t,), u)
                    &&& *u == *m.pointee()
                    &&& *final(u) == *final(m.pointee())
                },
            *m.mark() == *old(self.mark()),
            *final(m.mark()) == *final(self.mark()),
    {
        let u = f(self.t);
        Mut { t: u, changed: self.changed }
    }

    /// Sets whether the value should be considered to have changed.
    ///
    /// This method can be used to override the automatic change tracking. It should be used
    /// sparingly, since incorrectly marking a value as *unchanged* when it *did* change can result
    /// in incorrect and surprising behavior (or lack of behavior).
    pub fn set_changed(&mut self, changed: bool)
        ensures
            *final(self).mark() == changed,
            *final(self).pointee() == *old(self).pointee(),
            *final(final(self).pointee()) == *final(old(self).pointee()),
            *final(final(self).mark()) == *final(old(self).mark()),
    {
        *self.changed = changed;
    }
}

impl<'a, T> Deref for Mut<'a, T> {
    type Target = T;

    fn deref(&self) -> (t: &Self::Target)
        ensures
            *t == *old(self.pointee()),
    {
        self.t
    }
}

impl<'a, T> DerefMut for Mut<'a, T> {
    fn deref_mut(&mut self) -> (t: &mut Self::Target)
        ensures
            *t == *old(self).pointee(),
            *final(self).pointee() == *final(t),
            *final(self).mark(),
            *final(final(self).pointee()) == *final(old(self).pointee()),
            *final(final(self).mark()) == *final(old(self).mark()),
    {
        *self.changed = true;
        self.t
    }
}

/// How far a [`Reader`] has got in following its [`Value`].
#[derive(Debug, Clone, Copy, PartialEq, Eq, Structural)]
pub struct ReadPosition {
    /// The generation of the value that the reader has seen last.
    pub read_gen: u64,
    /// Whether the reader has reported that the [`Value`] is gone.
    pub read_disconnected: bool,
}

/// What a [`Value`] and its [`Reader`]s share.
pub struct ValueState<T> {
    /// The actual value.
    pub value: T,
    /// How often the value has been written. It tells a reader whether there is something new. The
    /// count wraps around, so that it is a machine integer's worth of writes that a reader has to
    /// miss in order to be mistaken.
    pub generation: u64,
    /// Whether the [`Value`] is gone.
    pub disconnected: bool,
    /// The tasks that wait for a change.
    pub wakers: Vec<Waker>,
}

/// The generation that follows `generation`.
pub open spec fn next_generation(generation: u64) -> u64 {
    if generation == u64::MAX {
        0
    } else {
        (generation + 1) as u64
    }
}

impl ReadPosition {
    /// Whether there is a value in `state` that a reader at this position has not seen.
    pub open spec fn has_news<T>(self, state: ValueState<T>) -> bool {
        state.generation != self.read_gen
    }

    /// Whether a reader at this position still has something to notice in `state`: an unseen value,
    /// or that the [`Value`] is gone.
    pub open spec fn has_changed<T>(self, state: ValueState<T>) -> bool {
        self.has_news(state) || state.disconnected != self.read_disconnected
    }

    /// Whether a reader of `state` can be at this position: no reader has reported the end of a
    /// [`Value`] that is not gone.
    pub open spec fn is_valid<T>(self, state: ValueState<T>) -> bool {
        self.read_disconnected ==> state.disconnected
    }

    /// Where a reader is once it has accessed `state` from this position. A reader notices the end
    /// of the [`Value`] only after it has seen the last value.
    pub open spec fn after<T>(self, state: ValueState<T>) -> ReadPosition {
        ReadPosition {
            read_gen: state.generation,
            read_disconnected: self.read_disconnected || (!self.has_news(state)
                && state.disconnected),
        }
    }
}

impl<T> ValueState<T> {
    /// The state in which a [`Value`] starts.
    pub fn new(value: T) -> (state: Self)
        ensures
            state.value == value,
            state.generation == 0,
            !state.disconnected,
            state.wakers@ == Seq::<Waker>::empty(),
    {
        ValueState { value, generation: 0, disconnected: false, wakers: Vec::new() }
    }

    /// Where a new reader starts: it has seen what there is.
    pub fn start(&self) -> (position: ReadPosition)
        ensures
            position == (ReadPosition { read_gen: self.generation, read_disconnected: false }),
    {
        // we exist, therefore we cannot not exist anymore
        ReadPosition { read_gen: self.generation, read_disconnected: false }
    }

    /// Lets `with` work on the state. If it marks the state as changed, then what it left behind
    /// becomes the next generation, and all waiting tasks are woken.
    fn mutate<R, F: FnOnce(Mut<'_, ValueState<T>>) -> R>(&mut self, with: F) -> (result: (R, bool))
        requires
            forall|m: Mut<'_, ValueState<T>>|
                *m.pointee() == *old(self) && !*m.mark() ==> #[trigger] call_requires(with, (m,)),
        ensures
            exists|m: Mut<'_, ValueState<T>>|
                {
                    &&& #[trigger] call_ensures(with, (m,), result.0)
                    &&& *m.pointee() == *old(self)
                    &&& !*m.mark()
                    &&& result.1 == *final(m.mark())
                    &&& final(self).value == final(m.pointee()).value
                    &&& final(self).disconnected == final(m.pointee()).disconnected
                    &&& if result.1 {
                        &&& final(self).generation == next_generation(final(m.pointee()).generation)
                        &&& final(self).wakers@ == Seq::<Waker>::empty()
                        &&& all_woken(final(m.pointee()).wakers@)
                    } else {
                        *final(self) == *final(m.pointee())
                    }
                },
    {
        let mut changed = false;
        let m = Mut::new(&mut *self, &mut changed);
        let r = with(m);
        if changed {
            self.generation = self.generation.wrapping_add(1);
            wake_all(take_all(&mut self.wakers));
        }
        let result = (r, changed);
        assert(call_ensures(with, (m,), result.0));
        result
    }

    /// Replaces the value and wakes all waiting tasks. Returns the previous value.
    pub fn set(&mut self, new: T) -> (previous: T)
        ensures
            previous == old(self).value,
            final(self).value == new,
            final(self).generation == next_generation(old(self).generation),
            final(self).disconnected == old(self).disconnected,
            final(self).wakers@ == Seq::<Waker>::empty(),
            all_woken(old(self).wakers@),
    {
        let (previous, _changed) = self.mutate(
            |m: Mut<'_, ValueState<T>>| -> (previous: T)
                ensures
                    previous == old(m.pointee()).value,
                    *final(m.pointee()) == (ValueState { value: new, ..*old(m.pointee()) }),
                    *final(m.mark())
                {
                    let mut m = m;
                    let mut value = new;
                    std::mem::swap(&mut m.deref_mut().value, &mut value);
                    value
                },
        );
        previous
    }

    /// Modifies the value using `with`, and wakes all waiting tasks if that changed it. Returns
    /// whether it did.
    pub fn modify<F: FnOnce(Mut<'_, T>)>(&mut self, with: F) -> (changed: bool)
        requires
            forall|m: Mut<'_, T>|
                *m.pointee() == old(self).value && !*m.mark() ==> #[trigger] call_requires(
                    with,
                    (m,),
                ),
        ensures
            final(self).disconnected == old(self).disconnected,
            exists|m: Mut<'_, T>|
                {
                    &&& #[trigger] call_ensures(with, (m,), ())
                    &&& *m.pointee() == old(self).value
                    &&& !*m.mark()
                    &&& changed == *final(m.mark())
                    &&& final(self).value == *final(m.pointee())
                    &&& if changed {
                        &&& final(self).generation == next_generation(old(self).generation)
                        &&& final(self).wakers@ == Seq::<Waker>::empty()
                        &&& all_woken(old(self).wakers@)
                    } else {
                        &&& final(self).generation == old(self).generation
                        &&& final(self).wakers == old(self).wakers
                    }
                },
    {
        let ghost before = *self;
        let (_, changed) = self.mutate(
            |m: Mut<'_, ValueState<T>>| -> (done: ())
                requires
                    *m.pointee() == before && !*m.mark(),
                ensures
                    exists|v: Mut<'_, T>|
                        {
                            &&& #[trigger] call_ensures(with, (v,), ())
                            &&& *v.pointee() == before.value
                            &&& !*v.mark()
                            &&& *final(m.mark()) == *final(v.mark())
                            &&& *final(m.pointee()) == (ValueState {
                                value: *final(v.pointee()),
                                ..before
                            })
                        }
                {
                    with(
                        m.map(
                            |state: &mut ValueState<T>| -> (value: &mut T)
                                ensures
                                    *value == old(state).value,
                                    *final(state) == (ValueState {
                                        value: *final(value),
                                        ..*old(state)
                                    })
                                { &mut state.value },
                        ),
                    )
                },
        );
        changed
    }

    /// Marks the [`Value`] as gone and wakes all waiting tasks.
    pub fn disconnect(&mut self)
        ensures
            final(self).disconnected,
            final(self).value == old(self).value,
            final(self).generation == old(self).generation,
            final(self).wakers@ == Seq::<Waker>::empty(),
            all_woken(old(self).wakers@),
    {
        self.disconnected = true;
        wake_all(take_all(&mut self.wakers));
    }

    /// Whether a reader at `position` still has something to notice.
    pub fn is_changed(&self, position: &ReadPosition) -> (changed: bool)
        ensures
            changed == position.has_changed(*self),
    {
        self.generation != position.read_gen || self.disconnected != position.read_disconnected
    }

    /// Whether there is nothing for a reader at `position` to do but to wait for a change.
    pub fn must_wait(&self, position: &ReadPosition) -> (wait: bool)
        ensures
            wait == (!position.has_news(*self) && !self.disconnected),
    {
        self.generation == position.read_gen && !self.disconnected
    }

    /// Accesses the value, seen or not.
    pub fn read(&self, position: &mut ReadPosition) -> (value: Result<&T, Disconnected>)
        ensures
            *final(position) == old(position).after(*self),
            value == if old(position).has_news(*self) || !self.disconnected {
                Ok(&self.value)
            } else {
                Err(Disconnected)
            },
    {
        if self.generation != position.read_gen {
            position.read_gen = self.generation;
            return Ok(&self.value);
        }
        if self.disconnected {
            position.read_disconnected = true;
            return Err(Disconnected);
        }
        Ok(&self.value)
    }

    /// Accesses the value only if it is unseen.
    pub fn read_news(&self, position: &mut ReadPosition) -> (news: Result<&T, Disconnected>)
        ensures
            *final(position) == old(position).after(*self),
            news == if old(position).has_news(*self) {
                Ok(&self.value)
            } else {
                Err(Disconnected)
            },
    {
        if self.generation != position.read_gen {
            position.read_gen = self.generation;
            return Ok(&self.value);
        }
        if self.disconnected {
            position.read_disconnected = true;
        }
        Err(Disconnected)
    }
}

impl<T: Clone> ValueState<T> {
    /// Fetches the value if it is unseen, and registers a task to be woken by the next change if
    /// there is nothing to do but to wait.
    pub fn poll(&mut self, position: &mut ReadPosition, waker: &Waker) -> (polled: Poll<
        Result<T, Disconnected>,
    >)
        ensures
            *final(position) == old(position).after(*old(self)),
            if old(position).has_news(*old(self)) || old(self).disconnected {
                &&& *final(self) == *old(self)
                &&& polled matches Poll::Ready(outcome) && match outcome {
                    Ok(value) => old(position).has_news(*old(self)) && call_ensures(
                        T::clone,
                        (&old(self).value,),
                        value,
                    ),
                    Err(Disconnected) => !old(position).has_news(*old(self)),
                }
            } else {
                &&& polled is Pending
                &&& final(self).value == old(self).value
                &&& final(self).generation == old(self).generation
                &&& final(self).disconnected == old(self).disconnected
                &&& exists|handle: Waker| #[trigger]
                    call_ensures(Waker::clone, (waker,), handle)
                        && final(self).wakers@ == old(self).wakers@.push(handle)
            },
    {
        if self.must_wait(position) {
            register(&mut self.wakers, waker);
            return Poll::Pending;
        }
        match self.read_news(position) {
            Ok(value) => Poll::Ready(Ok(call1(T::clone, value))),
            Err(error) => Poll::Ready(Err(error)),
        }
    }
}

impl<T> Hosted for ValueState<T> {
    /// Readers may register tasks, and nothing else.
    open spec fn may_become(self, after: Self) -> bool {
        &&& after.value == self.value
        &&& after.generation == self.generation
        &&& after.disconnected == self.disconnected
        &&& self.wakers@.is_prefix_of(after.wakers@)
    }
}

impl<T> Hospitable for ValueState<T> {

}

impl<T> Share<ValueState<T>, AtomicUsize, true> {
    /// Marks the [`Value`] as gone, wakes all waiting tasks, notifies all waiting threads, and lets
    /// go of the state.
    pub fn disconnect(self) -> (past: Past<ValueState<T>, AtomicUsize>)
        ensures
            past.identity() == self.identity(),
            exists|place: &mut ValueState<T>|
                {
                    &&& self.may_find(*place)
                    &&& #[trigger] call_ensures(ValueState::<T>::disconnect, (place,), ())
                    &&& past.visits() == self.visits().push((*place, *final(place)))
                },
            past.notices() == self.notices().push(past.visits().len()),
            self.has_notified_all(),
    {
        let mut share = self;
        share.visit(ValueState::<T>::disconnect);
        share.notify_all();
        share.leave()
    }
}

/// [`AtomicUsize::fetch_sub`] for destructors: subtracts `amount` and gives what was there before,
/// which depends on the other threads. It wraps around rather than unwinding.
#[verifier::external_body]
fn subtract_in_drop(count: &AtomicUsize, amount: usize, order: Ordering) -> (before: usize)
    ensures
        call_ensures(AtomicUsize::fetch_sub, (count, amount, order), before),
    opens_invariants none
    no_unwind
{
    count.fetch_sub(amount, order)
}

/// A reactive value.
///
/// [`Value`] allows synchronous and asynchronous code to exchange a value of type `T` and notify
/// each other of changes of that data (via condition variables and [`Waker`]s, respectively).
///
/// Whoever owns a [`Value`] calls [`Value::disconnect`] to let go of it. That is what tells the
/// [`Reader`]s that it is gone.
#[verifier::reject_recursive_types(T)]
pub struct Value<T> {
    /// The state, and the number of readers.
    share: Share<ValueState<T>, AtomicUsize, true>,
}

/// A read-only handle to a reactive [`Value`].
///
/// [`Reader`] allows fetching the current value, checking whether the value has changed, and also
/// allows waiting for changes to the underlying value (either synchronously or asynchronously).
///
/// A [`Reader`] can be obtained from a [`Value`] by calling [`Value::reader`], or by cloning an
/// existing [`Reader`]. Many [`Reader`]s can listen for changes of the same [`Value`].
#[verifier::reject_recursive_types(T)]
pub struct Reader<T> {
    /// The state, and the number of readers.
    share: Share<ValueState<T>, AtomicUsize, false>,
    position: ReadPosition,
}

impl<T> Value<T> {
    /// What this value shares with its readers.
    pub closed spec fn share(&self) -> Share<ValueState<T>, AtomicUsize, true> {
        self.share
    }

    /// Whether the number of readers of this value was made to start at `count`.
    pub open spec fn counts_from(&self, count: usize) -> bool {
        call_ensures(AtomicUsize::new, (count,), self.share().extra())
    }

    /// Whether this value may find itself observed by `count` readers when it looks.
    pub closed spec fn may_count(&self, count: usize) -> bool {
        call_ensures(AtomicUsize::load, (&self.share.extra(), Ordering::Relaxed), count)
    }

    /// Creates a reactive [`Value`] with an initial underlying value.
    pub fn new(value: T) -> (this: Self)
        ensures
            exists|state: ValueState<T>|
                {
                    &&& #[trigger] this.share().started_as(state)
                    &&& state.value == value
                    &&& state.generation == 0
                    &&& !state.disconnected
                    &&& state.wakers@ == Seq::<Waker>::empty()
                },
            this.counts_from(0),
            this.share().is_fresh(),
    {
        let state = ValueState::new(value);
        let this = Value { share: Share::new(state, call1(AtomicUsize::new, 0)) };
        assert(this.share().started_as(state));
        this
    }

    /// Creates a [`Reader`] that will be notified of all future changes to the [`Value`].
    ///
    /// Any number of [`Reader`]s can be associated with the same [`Value`]. The current number of
    /// [`Reader`]s can be obtained via [`Value::reader_count`].
    pub fn reader(&self) -> (reader: Reader<T>)
        ensures
            reader.reads(self),
            reader.is_counted(),
            reader.share().is_fresh(),
            exists|state: ValueState<T>| #[trigger]
                self.share().may_find(state) && reader.position() == (ReadPosition {
                    read_gen: state.generation,
                    read_disconnected: false,
                }),
    {
        let _count = call3(
            AtomicUsize::fetch_add,
            self.share.extra_ref(),
            1,
            Ordering::Relaxed,
        );
        assert(self.share() == self.share);
        let position = self.share.look(
            |state: &ValueState<T>| -> (position: ReadPosition)
                ensures
                    position == (ReadPosition {
                        read_gen: state.generation,
                        read_disconnected: false,
                    })
                { state.start() },
        );
        Reader { share: self.share.share(), position }
    }

    /// Returns the current number of [`Reader`]s that are observing this [`Value`] instance.
    pub fn reader_count(&self) -> (count: usize)
        ensures
            self.may_count(count),
    {
        call2(AtomicUsize::load, self.share.extra_ref(), Ordering::Relaxed)
    }

    /// Returns a [`bool`] indicating whether this [`Value`] is observed by at least 1 [`Reader`]
    /// and can be usefully updated.
    ///
    /// Modifying a [`Value`] which is not being observed is often an undesirable waste of
    /// resources, since no [`Reader`] is there to consume the updated value.
    ///
    /// Note that there is currently no mechanism to be notified when a [`Reader`] for a specific
    /// [`Value`] is created, so an external mechanism to "reactivate" the owner of the [`Value`]
    /// must be used.
    pub fn has_readers(&self) -> (observed: bool)
        ensures
            exists|count: usize| #[trigger] self.may_count(count) && observed == (count != 0),
    {
        self.reader_count() != 0
    }

    /// Changes the underlying value and notifies all associated [`Reader`]s of the change.
    ///
    /// Returns the previous value.
    pub fn set(&mut self, new: T) -> (previous: T)
        ensures
            final(self).share().is_shared_with(&old(self).share()),
            exists|place: &mut ValueState<T>|
                {
                    &&& old(self).share().may_find(*place)
                    &&& #[trigger] call_ensures(ValueState::<T>::set, (place, new), previous)
                    &&& final(self).share().visits() == old(self).share().visits().push(
                        (*place, *final(place)),
                    )
                },
            final(self).share().notices() == old(self).share().notices().push(
                final(self).share().visits().len(),
            ),
            final(self).share().has_notified_all(),
    {
        let previous = self.share.visit(
            |state: &mut ValueState<T>| -> (previous: T)
                ensures
                    exists|place: &mut ValueState<T>|
                        {
                            &&& *place == *old(state)
                            &&& *final(place) == *final(state)
                            &&& #[trigger] call_ensures(
                                ValueState::<T>::set,
                                (place, new),
                                previous,
                            )
                        }
                { call2(ValueState::<T>::set, state, new) },
        );
        self.share.notify_all();
        previous
    }

    /// Modifies the underlying value using a caller-provided closure, and notifies all [`Reader`]s
    /// if the value is changed.
    ///
    /// The closure should complete quickly, since it blocks access to the contained value.
    ///
    /// The [`Reader`]s associated with this [`Value`] are only notified if the closure mutably
    /// dereferences the [`Mut`] reference. To unconditionally notify all [`Reader`]s, the closure
    /// should *always* assign a new value to the [`Mut`] (or use [`Value::set`] instead). The
    /// [`Mut`] type also allows customizing change detection to avoid unnecessary [`Reader`]
    /// wakeups.
    pub fn modify<F: FnOnce(Mut<'_, T>)>(&mut self, with: F)
        requires
            forall|m: Mut<'_, T>| !*m.mark() ==> #[trigger] call_requires(with, (m,)),
        ensures
            final(self).share().is_shared_with(&old(self).share()),
            exists|place: &mut ValueState<T>, changed: bool|
                {
                    &&& old(self).share().may_find(*place)
                    &&& #[trigger] call_ensures(
                        ValueState::<T>::modify::<F>,
                        (place, with),
                        changed,
                    )
                    &&& final(self).share().visits() == old(self).share().visits().push(
                        (*place, *final(place)),
                    )
                    &&& if changed {
                        &&& final(self).share().notices() == old(self).share().notices().push(
                            final(self).share().visits().len(),
                        )
                        &&& final(self).share().has_notified_all()
                    } else {
                        final(self).share().notices() == old(self).share().notices()
                    }
                },
    {
        let changed = self.share.visit(
            |state: &mut ValueState<T>| -> (changed: bool)
                ensures
                    exists|place: &mut ValueState<T>|
                        {
                            &&& *place == *old(state)
                            &&& *final(place) == *final(state)
                            &&& #[trigger] call_ensures(
                                ValueState::<T>::modify::<F>,
                                (place, with),
                                changed,
                            )
                        }
                { call2(ValueState::<T>::modify::<F>, state, with) },
        );
        if changed {
            self.share.notify_all();
        }
    }

    /// Lets go of the value: marks it as gone, and wakes every waiting [`Reader`] so that it can tell
    /// its owner.
    ///
    /// Whoever owns a [`Value`] calls this in the end. A destructor could not do it, since it would
    /// have to wake tasks, and the code behind a waker may panic.
    pub fn disconnect(self)
        ensures
            exists|past: Past<ValueState<T>, AtomicUsize>| #[trigger]
                call_ensures(
                    Share::<ValueState<T>, AtomicUsize, true>::disconnect,
                    (self.share(),),
                    past,
                ),
    {
        let _past = call1(Share::<ValueState<T>, AtomicUsize, true>::disconnect, self.share);
        assert(call_ensures(
            Share::<ValueState<T>, AtomicUsize, true>::disconnect,
            (self.share(),),
            _past,
        ));
    }
}

impl<T: Default> Default for Value<T> {
    fn default() -> (this: Self)
        ensures
            exists|state: ValueState<T>|
                {
                    &&& #[trigger] this.share().started_as(state)
                    &&& call_ensures(T::default, (), state.value)
                    &&& state.generation == 0
                    &&& !state.disconnected
                    &&& state.wakers@ == Seq::<Waker>::empty()
                },
            this.counts_from(0),
            this.share().is_fresh(),
    {
        Value::new(call0(T::default))
    }
}

impl<T> Reader<T> {
    /// How far this reader has got.
    pub closed spec fn position(&self) -> ReadPosition {
        self.position
    }

    /// Whether one has been added to the number of readers of the value.
    pub closed spec fn is_counted(&self) -> bool {
        exists|before: usize| #[trigger]
            call_ensures(
                AtomicUsize::fetch_add,
                (&self.share.extra(), 1, Ordering::Relaxed),
                before,
            )
    }

    /// Whether one has been subtracted from the number of readers of the value.
    pub closed spec fn is_discounted(&self) -> bool {
        exists|before: usize| #[trigger]
            call_ensures(
                AtomicUsize::fetch_sub,
                (&self.share.extra(), 1, Ordering::Relaxed),
                before,
            )
    }

    /// What this reader shares with its value and the other readers.
    pub closed spec fn share(&self) -> Share<ValueState<T>, AtomicUsize, false> {
        self.share
    }

    /// Whether this is a reader of `value`.
    pub open spec fn reads(&self, value: &Value<T>) -> bool {
        self.share().is_shared_with(&value.share())
    }

    /// Whether this and `other` read the same value.
    pub open spec fn reads_same_as(&self, other: &Reader<T>) -> bool {
        self.share().is_shared_with(&other.share())
    }

    /// Whether `after` is this reader once it has had one look at `state`.
    pub open spec fn moves_on(&self, state: ValueState<T>, after: &Reader<T>) -> bool {
        &&& self.share().may_find(state)
        &&& after.reads_same_as(self)
        &&& after.share().visits() == self.share().visits().push((state, state))
        &&& after.share().notices() == self.share().notices()
        &&& after.position() == self.position().after(state)
    }

    /// Calls a closure with a reference to the contained value.
    ///
    /// The closure should complete quickly, since it blocks access to the contained value.
    ///
    /// This method is available for any type `T`. If `T` implements [`Clone`], consider using
    /// [`Reader::get`] instead, which will clone the value.
    pub fn with<R, F: FnOnce(&T) -> R>(&mut self, f: F) -> (result: Result<R, Disconnected>)
        requires
            forall|value: &T| #[trigger] call_requires(f, (value,)),
        ensures
            exists|state: ValueState<T>|
                {
                    &&& #[trigger] old(self).moves_on(state, final(self))
                    &&& match result {
                        Ok(r) => (old(self).position().has_news(state) || !state.disconnected)
                            && call_ensures(f, (&state.value,), r),
                        Err(Disconnected) => !old(self).position().has_news(state)
                            && state.disconnected,
                    }
                },
    {
        let position: ReadPosition = self.position;
        let (result, moved) = self.share.visit(
            |state: &mut ValueState<T>| -> (out: (Result<R, Disconnected>, ReadPosition))
                ensures
                    *final(state) == *old(state),
                    out.1 == position.after(*old(state)),
                    match out.0 {
                        Ok(r) => (position.has_news(*old(state)) || !old(state).disconnected)
                            && call_ensures(f, (&old(state).value,), r),
                        Err(Disconnected) => !position.has_news(*old(state))
                            && old(state).disconnected,
                    }
                {
                    let mut moved: ReadPosition = position;
                    let result = match state.read(&mut moved) {
                        Ok(value) => Ok(f(value)),
                        Err(error) => Err(error),
                    };
                    (result, moved)
                },
        );
        self.position = moved;
        proof {
            let (state, _) = self.share().visits().last();
            assert(old(self).moves_on(state, self));
        }
        result
    }

    /// Returns a [`bool`] indicating whether changes to the [`Value`] have been made that this
    /// [`Reader`] hasn't seen yet.
    ///
    /// The act of letting go of the [`Value`] is also treated as a "change" and will make this method
    /// return `true` until any [`Reader`] method is called that accesses the value (which will now
    /// return `Err(Disconnected)`).
    ///
    /// This method is the recommended way to perform polling on a [`Reader`] (for example, to check
    /// for new data on every iteration of a continuous rendering loop).
    pub fn is_changed(&self) -> (changed: bool)
        ensures
            exists|state: ValueState<T>| #[trigger]
                self.share().may_find(state) && changed == self.position().has_changed(state),
    {
        assert(self.share() == self.share);
        let position: ReadPosition = self.position;
        self.share.look(
            |state: &ValueState<T>| -> (changed: bool)
                ensures
                    changed == position.has_changed(*state)
                { state.is_changed(&position) },
        )
    }

    /// Returns a [`bool`] indicating whether the underlying [`Value`] is gone.
    ///
    /// If this returns `true`, then once the last value has been seen, all methods that access the
    /// underlying value will fail with a [`Disconnected`] error.
    pub fn is_disconnected(&self) -> (disconnected: bool)
        ensures
            exists|state: ValueState<T>| #[trigger]
                self.share().may_find(state) && disconnected == state.disconnected,
    {
        assert(self.share() == self.share);
        self.share.look(
            |state: &ValueState<T>| -> (disconnected: bool)
                ensures
                    disconnected == state.disconnected
                { state.disconnected },
        )
    }
}

impl<T: Clone> Reader<T> {
    /// Retrieves the current value.
    ///
    /// If the associated [`Value`] is gone and its last value has been seen, a
    /// [`Disconnected`] error is returned instead.
    pub fn get(&mut self) -> (result: Result<T, Disconnected>)
        ensures
            exists|state: ValueState<T>|
                {
                    &&& #[trigger] old(self).moves_on(state, final(self))
                    &&& match result {
                        Ok(value) => (old(self).position().has_news(state) || !state.disconnected)
                            && call_ensures(T::clone, (&state.value,), value),
                        Err(Disconnected) => !old(self).position().has_news(state)
                            && state.disconnected,
                    }
                },
    {
        self.with(T::clone)
    }

    /// Blocks the calling thread until the underlying value changes, and returns the new value.
    ///
    /// If the [`Value`] is gone, or is let go of while blocking, this will return a
    /// [`Disconnected`] error instead, once the last value has been seen.
    ///
    /// The wait only ends with nothing new if the thread has been woken up more often than a machine
    /// integer can count.
    pub fn block(&mut self) -> (result: Result<T, Disconnected>)
        ensures
            exists|state: ValueState<T>|
                {
                    &&& #[trigger] old(self).moves_on(state, final(self))
                    &&& match result {
                        Ok(value) => old(self).position().has_news(state) && call_ensures(
                            T::clone,
                            (&state.value,),
                            value,
                        ),
                        Err(Disconnected) => !old(self).position().has_news(state) && (
                        state.disconnected || have_run_out()),
                    }
                },
    {
        let position: ReadPosition = self.position;
        let (result, moved) = self.share.visit_after_waiting(
            |state: &mut ValueState<T>| -> (wait: bool)
                ensures
                    wait == (!position.has_news(*old(state)) && !old(state).disconnected),
                    *final(state) == *old(state)
                { state.must_wait(&position) },
            |state: &mut ValueState<T>| -> (out: (Result<T, Disconnected>, ReadPosition))
                ensures
                    *final(state) == *old(state),
                    out.1 == position.after(*old(state)),
                    match out.0 {
                        Ok(value) => position.has_news(*old(state)) && call_ensures(
                            T::clone,
                            (&old(state).value,),
                            value,
                        ),
                        Err(Disconnected) => !position.has_news(*old(state)),
                    }
                {
                    let mut moved: ReadPosition = position;
                    let result = match state.read_news(&mut moved) {
                        Ok(value) => Ok(call1(T::clone, value)),
                        Err(error) => Err(error),
                    };
                    (result, moved)
                },
        );
        self.position = moved;
        proof {
            let (state, _) = self.share().visits().last();
            assert(old(self).moves_on(state, self));
        }
        result
    }

    /// Fetches the value if it is unseen, and otherwise arranges for the task of `context` to be
    /// woken by the next change.
    pub fn poll(&mut self, context: &mut Context<'_>) -> (polled: Poll<Result<T, Disconnected>>)
        ensures
            *final(context) == *old(context),
            final(self).reads_same_as(old(self)),
            final(self).share().notices() == old(self).share().notices(),
            exists|place: &mut ValueState<T>, position: &mut ReadPosition, waker: &Waker|
                {
                    &&& old(self).share().may_find(*place)
                    &&& *position == old(self).position()
                    &&& *final(position) == final(self).position()
                    &&& call_ensures(Context::waker, (&*old(context),), waker)
                    &&& #[trigger] call_ensures(
                        ValueState::<T>::poll,
                        (place, position, waker),
                        polled,
                    )
                    &&& final(self).share().visits() == old(self).share().visits().push(
                        (*place, *final(place)),
                    )
                },
    {
        let waker = call1(Context::waker, &*context);
        let position: ReadPosition = self.position;
        let (polled, moved) = self.share.visit(
            |state: &mut ValueState<T>| -> (out: (Poll<Result<T, Disconnected>>, ReadPosition))
                ensures
                    exists|place: &mut ValueState<T>, moving: &mut ReadPosition|
                        {
                            &&& *place == *old(state)
                            &&& *final(place) == *final(state)
                            &&& *moving == position
                            &&& *final(moving) == out.1
                            &&& #[trigger] call_ensures(
                                ValueState::<T>::poll,
                                (place, moving, waker),
                                out.0,
                            )
                        }
                {
                    let mut moved: ReadPosition = position;
                    let polled = call3(ValueState::<T>::poll, state, &mut moved, waker);
                    let out = (polled, moved);
                    assert(out.0 == polled);
                    out
                },
        );
        self.position = moved;
        polled
    }

    /// Asynchronously waits for the [`Value`] to change, and returns the new value.
    ///
    /// If the [`Value`] is gone, or is let go of while waiting, this will return a
    /// [`Disconnected`] error instead, once the last value has been seen.
    ///
    /// The future is polled by calling [`Reader::poll`]. Once it has been awaited, its output is what
    /// that method has given last, and the reader is as that call has left it. The calls before it were
    /// pending, and left the reader where it was (see [`pending_poll_moves_no_reader`]).
    pub fn wait(&mut self) -> (future: impl Future<Output = Result<T, Disconnected>> + '_)
        ensures
            exists|reader: &mut Reader<T>|
                {
                    &&& *reader == *old(self)
                    &&& *final(reader) == *final(self)
                    &&& #[trigger] comes_from(future::of_reader::<T>, reader, future)
                },
            future.awaited() ==> exists|reader: &mut Reader<T>, context: &mut Context<'_>|
                {
                    &&& reader.reads_same_as(old(self))
                    &&& reader.position() == old(self).position()
                    &&& *final(reader) == *final(self)
                    &&& #[trigger] call_ensures(
                        Reader::<T>::poll,
                        (reader, context),
                        Poll::Ready(future@),
                    )
                },
    {
        call1(future::of_reader::<T>, self)
    }

    /// Just like a channel, a [`Reader`] can be iterated over, yielding the changes made to the
    /// underlying [`Value`].
    ///
    /// The iterator stops when the [`Value`] is let go of and the [`Reader`] becomes disconnected.
    pub fn into_iter(self) -> (iter: IntoIter<T>)
        ensures
            iter.reader() == self,
    {
        IntoIter { reader: self }
    }
}

impl<T> Clone for Reader<T> {
    fn clone(&self) -> (clone: Self)
        ensures
            clone.reads_same_as(self),
            clone.is_counted(),
            clone.position() == self.position(),
            clone.share().is_fresh(),
    {
        let _count = call3(
            AtomicUsize::fetch_add,
            self.share.extra_ref(),
            1,
            Ordering::Relaxed,
        );
        Reader { share: self.share.share(), position: self.position }
    }
}

impl<T> Drop for Reader<T> {
    fn drop(&mut self)
        ensures
            *final(self) == *old(self),
            old(self).is_discounted(),
        opens_invariants none
        no_unwind
    {
        let _before = subtract_in_drop(self.share.extra_ref(), 1, Ordering::Relaxed);
    }
}

/// A blocking iterator over the values visible to a [`Reader`].
///
/// Every call to [`IntoIter::next`] will block until the underlying [`Value`] is changed.
#[verifier::reject_recursive_types(T)]
pub struct IntoIter<T: Clone> {
    reader: Reader<T>,
}

impl<T: Clone> IntoIter<T> {
    /// The reader whose values this yields.
    pub closed spec fn reader(&self) -> Reader<T> {
        self.reader
    }

    /// Blocks until the underlying [`Value`] is changed, and yields it. Yields [`None`] once the
    /// [`Value`] is gone and its last value has been yielded.
    pub fn next(&mut self) -> (item: Option<T>)
        ensures
            exists|state: ValueState<T>|
                {
                    &&& #[trigger] old(self).reader().moves_on(state, &final(self).reader())
                    &&& match item {
                        Some(value) => old(self).reader().position().has_news(state)
                            && call_ensures(T::clone, (&state.value,), value),
                        None => !old(self).reader().position().has_news(state) && (
                        state.disconnected || have_run_out()),
                    }
                },
    {
        assert(old(self).reader() == self.reader);
        let result = self.reader.block();
        assert(self.reader() == self.reader);
        match result {
            Ok(value) => Some(value),
            Err(Disconnected) => None,
        }
    }
}

/// A value and all its readers share one state: whatever state one of them may find, the others may
/// find as well. A clone of a reader reads the same value, and has the same changes to notice.
pub proof fn readers_share_the_state_of_the_value<T>(
    value: Value<T>,
    reader: Reader<T>,
    clone: Reader<T>,
    state: ValueState<T>,
)
    requires
        reader.reads(&value),
        call_ensures(Reader::<T>::clone, (&reader,), clone),
    ensures
        value.share().may_find(state) == reader.share().may_find(state),
        clone.reads(&value),
        clone.share().may_find(state) == reader.share().may_find(state),
        clone.position().has_changed(state) == reader.position().has_changed(state),
{
    reader.share().owners_find_the_same(&value.share(), state);
    clone.share().owners_find_the_same(&reader.share(), state);
}

/// A poll that is still pending leaves the reader where it was, so that no change is lost if it is
/// never polled again.
pub proof fn pending_poll_moves_no_reader<T: Clone>(
    reader: &mut Reader<T>,
    context: &mut Context<'_>,
    polled: Poll<Result<T, Disconnected>>,
)
    requires
        call_ensures(Reader::<T>::poll, (reader, context), polled),
        polled is Pending,
    ensures
        final(reader).reads_same_as(old(reader)),
        final(reader).position() == old(reader).position(),
{
}

/// A reader gets a clone of what the value was set to, once, if it finds the state as the value has
/// left it and has not missed as many writes as there are generations. It can get it by any way of
/// reading.
pub proof fn reader_gets_what_was_set<T: Clone>(
    value: &mut Value<T>,
    new: T,
    previous: T,
    getting: &mut Reader<T>,
    got: Result<T, Disconnected>,
    blocking: &mut Reader<T>,
    waited: Result<T, Disconnected>,
)
    requires
        call_ensures(Value::<T>::set, (value, new), previous),
        getting.reads(value),
        call_ensures(Reader::<T>::get, (getting,), got),
        final(getting).share().visits().last().0 == final(value).share().visits().last().1,
        getting.position().has_news(final(value).share().visits().last().1),
        *blocking == *getting,
        call_ensures(Reader::<T>::block, (blocking,), waited),
        final(blocking).share().visits().last().0 == final(value).share().visits().last().1,
    ensures
        got matches Ok(clone) && call_ensures(T::clone, (&new,), clone),
        waited matches Ok(clone) && call_ensures(T::clone, (&new,), clone),
        !final(getting).position().has_news(final(value).share().visits().last().1),
        final(blocking).position() == final(getting).position(),
        final(value).share().notices().last() == final(value).share().visits().len(),
{
}

/// A new reader has nothing to notice until something happens.
pub proof fn new_reader_sees_no_change<T>(state: ValueState<T>, position: ReadPosition)
    requires
        !state.disconnected,
        call_ensures(ValueState::<T>::start, (&state,), position),
    ensures
        !position.has_changed(state),
{
}

/// A write notifies every reader, however far it has got: each of them has the new value to notice,
/// and one access makes it seen.
pub proof fn write_reaches_every_reader<T>(
    before: &mut ValueState<T>,
    new: T,
    previous: T,
    position: &mut ReadPosition,
    read: Result<&T, Disconnected>,
)
    requires
        position.read_gen != next_generation(before.generation),
        call_ensures(ValueState::<T>::set, (before, new), previous),
        call_ensures(ValueState::<T>::read, (&*final(before), position), read),
    ensures
        old(position).has_changed(*final(before)),
        read == Ok::<&T, Disconnected>(&new),
        !final(position).has_news(*final(before)),
        !old(before).disconnected && !old(position).read_disconnected
            ==> !final(position).has_changed(*final(before)),
{
}

/// Writes are coalesced: a reader that looks only after several of them sees the last one, and only
/// that one.
pub proof fn writes_are_coalesced<T>(
    before: &mut ValueState<T>,
    skipped: T,
    between: &mut ValueState<T>,
    last: T,
    results: (T, T),
    position: &mut ReadPosition,
    read: Result<&T, Disconnected>,
)
    requires
        position.read_gen != next_generation(next_generation(before.generation)),
        call_ensures(ValueState::<T>::set, (before, skipped), results.0),
        *between == *final(before),
        call_ensures(ValueState::<T>::set, (between, last), results.1),
        call_ensures(ValueState::<T>::read_news, (&*final(between), position), read),
    ensures
        results.1 == skipped,
        read == Ok::<&T, Disconnected>(&last),
        !final(position).has_news(*final(between)),
{
}

/// A reader that has not seen the last value yet is given it even after the [`Value`] is gone. Only
/// after that it is told that the [`Value`] is gone, and from then on it has nothing to notice.
pub proof fn last_value_precedes_disconnection<T>(
    before: &mut ValueState<T>,
    last: T,
    previous: T,
    written: &mut ValueState<T>,
    first: &mut ReadPosition,
    read: Result<&T, Disconnected>,
    second: &mut ReadPosition,
    reread: Result<&T, Disconnected>,
)
    requires
        first.read_gen != next_generation(before.generation),
        !first.read_disconnected,
        call_ensures(ValueState::<T>::set, (before, last), previous),
        *written == *final(before),
        call_ensures(ValueState::<T>::disconnect, (written,), ()),
        call_ensures(ValueState::<T>::read_news, (&*final(written), first), read),
        *second == *final(first),
        call_ensures(ValueState::<T>::read_news, (&*final(written), second), reread),
    ensures
        read == Ok::<&T, Disconnected>(&last),
        final(first).has_changed(*final(written)),
        reread == Err::<&T, Disconnected>(Disconnected),
        !final(second).has_changed(*final(written)),
{
}

/// The end of the [`Value`] is itself a change to a reader that has seen everything, until the
/// reader accesses the value, which fails from then on.
pub proof fn disconnection_is_noticed_once<T>(
    before: &mut ValueState<T>,
    first: &mut ReadPosition,
    read: Result<&T, Disconnected>,
    second: &mut ReadPosition,
    reread: Result<&T, Disconnected>,
)
    requires
        !first.has_news(*before),
        !first.read_disconnected,
        call_ensures(ValueState::<T>::disconnect, (before,), ()),
        call_ensures(ValueState::<T>::read, (&*final(before), first), read),
        *second == *final(first),
        call_ensures(ValueState::<T>::read, (&*final(before), second), reread),
    ensures
        old(first).has_changed(*final(before)),
        read == Err::<&T, Disconnected>(Disconnected),
        !final(first).has_changed(*final(before)),
        reread == read,
        !final(second).has_changed(*final(before)),
{
}

/// A [`Value`] that is gone stays gone: no operation on its state brings it back.
pub proof fn gone_value_stays_gone<T: Clone, F: FnOnce(Mut<'_, T>)>(
    gone: ValueState<T>,
    writing: &mut ValueState<T>,
    new: T,
    previous: T,
    modifying: &mut ValueState<T>,
    with: F,
    changed: bool,
    ending: &mut ValueState<T>,
    polling: &mut ValueState<T>,
    position: &mut ReadPosition,
    waker: &Waker,
    polled: Poll<Result<T, Disconnected>>,
)
    requires
        gone.disconnected,
        *writing == gone,
        call_ensures(ValueState::<T>::set, (writing, new), previous),
        *modifying == gone,
        call_ensures(ValueState::<T>::modify::<F>, (modifying, with), changed),
        *ending == gone,
        call_ensures(ValueState::<T>::disconnect, (ending,), ()),
        *polling == gone,
        call_ensures(ValueState::<T>::poll, (polling, position, waker), polled),
    ensures
        final(writing).disconnected,
        final(modifying).disconnected,
        final(ending).disconnected,
        *final(polling) == gone,
{
}

/// Once a [`Value`] is gone and a reader has nothing unseen left, every access fails, by whatever
/// way it is made, and leaves the reader where the next access fails as well. There is nothing to
/// wait for any more.
pub proof fn gone_value_gives_nothing_more<T: Clone>(
    gone: &mut ValueState<T>,
    reading: &mut ReadPosition,
    read: Result<&T, Disconnected>,
    awaiting: &mut ReadPosition,
    news: Result<&T, Disconnected>,
    polling: &mut ReadPosition,
    waker: &Waker,
    polled: Poll<Result<T, Disconnected>>,
    wait: bool,
)
    requires
        gone.disconnected,
        !reading.has_news(*gone),
        *awaiting == *reading,
        *polling == *reading,
        call_ensures(ValueState::<T>::must_wait, (&*old(gone), &*old(reading)), wait),
        call_ensures(ValueState::<T>::read, (&*old(gone), reading), read),
        call_ensures(ValueState::<T>::read_news, (&*old(gone), awaiting), news),
        call_ensures(ValueState::<T>::poll, (gone, polling, waker), polled),
    ensures
        !wait,
        read == Err::<&T, Disconnected>(Disconnected),
        news == Err::<&T, Disconnected>(Disconnected),
        polled matches Poll::Ready(Err(_)),
        *final(gone) == *old(gone),
        *final(awaiting) == *final(reading),
        *final(polling) == *final(reading),
        !final(reading).has_news(*final(gone)),
        !final(reading).has_changed(*final(gone)),
{
}

/// No reader ever reports the end of a [`Value`] that is not gone: a new reader has not, and neither
/// what is done to the value nor what the reader does makes it so.
pub proof fn positions_stay_valid<T: Clone, F: FnOnce(Mut<'_, T>)>(
    state: ValueState<T>,
    start: ReadPosition,
    position: ReadPosition,
    writing: &mut ValueState<T>,
    new: T,
    previous: T,
    modifying: &mut ValueState<T>,
    with: F,
    changed: bool,
    ending: &mut ValueState<T>,
    reading: &mut ReadPosition,
    read: Result<&T, Disconnected>,
    awaiting: &mut ReadPosition,
    news: Result<&T, Disconnected>,
    polled_state: &mut ValueState<T>,
    polling: &mut ReadPosition,
    waker: &Waker,
    polled: Poll<Result<T, Disconnected>>,
)
    requires
        call_ensures(ValueState::<T>::start, (&state,), start),
        position.is_valid(state),
        *writing == state,
        call_ensures(ValueState::<T>::set, (writing, new), previous),
        *modifying == state,
        call_ensures(ValueState::<T>::modify::<F>, (modifying, with), changed),
        *ending == state,
        call_ensures(ValueState::<T>::disconnect, (ending,), ()),
        *reading == position,
        call_ensures(ValueState::<T>::read, (&state, reading), read),
        *awaiting == position,
        call_ensures(ValueState::<T>::read_news, (&state, awaiting), news),
        *polled_state == state,
        *polling == position,
        call_ensures(ValueState::<T>::poll, (polled_state, polling, waker), polled),
    ensures
        start.is_valid(state),
        position.is_valid(*final(writing)),
        position.is_valid(*final(modifying)),
        position.is_valid(*final(ending)),
        final(reading).is_valid(state),
        final(awaiting).is_valid(state),
        final(polling).is_valid(*final(polled_state)),
{
}

/// After an access to a live value, and after one that has reported the end, a reader has nothing to
/// notice, by whatever way the access was made. Asking whether it has is no access: two questions in
/// a row get the same answer.
pub proof fn access_leaves_nothing_to_notice<T: Clone>(
    state: &mut ValueState<T>,
    reading: &mut ReadPosition,
    read: Result<&T, Disconnected>,
    first: bool,
    second: bool,
    awaiting: &mut ReadPosition,
    news: Result<&T, Disconnected>,
    polling: &mut ReadPosition,
    waker: &Waker,
    polled: Poll<Result<T, Disconnected>>,
)
    requires
        reading.is_valid(*state),
        call_ensures(ValueState::<T>::read, (&*old(state), reading), read),
        call_ensures(ValueState::<T>::is_changed, (&*old(state), &*final(reading)), first),
        call_ensures(ValueState::<T>::is_changed, (&*old(state), &*final(reading)), second),
        awaiting.is_valid(*state),
        call_ensures(ValueState::<T>::read_news, (&*old(state), awaiting), news),
        polling.is_valid(*state),
        call_ensures(ValueState::<T>::poll, (state, polling, waker), polled),
    ensures
        !old(state).disconnected || read is Err ==> !first,
        first == second,
        !old(state).disconnected || news is Err ==> !final(awaiting).has_changed(*old(state)),
        ({
            ||| !old(state).disconnected
            ||| polled matches Poll::Ready(Err(_))
        }) ==> !final(polling).has_changed(*final(state)),
{
}

/// Something that happens to a value, or that one of its readers does.
pub enum Event<T, F> {
    /// The value is set to `new`.
    Write { new: T, previous: T },
    /// The value is modified by `with`, which may mark it as changed.
    Modify { with: F, changed: bool },
    /// The [`Value`] is let go of.
    Disconnect,
    /// The reader accesses the value, and gets `ok` or an error.
    Read { ok: bool },
}

/// How many times a reader has been notified of a write since it last accessed the value.
pub open spec fn unseen_writes<T, F>(events: Seq<Event<T, F>>) -> nat
    decreases events.len(),
{
    if events.len() == 0 {
        0
    } else {
        let before = unseen_writes(events.drop_last());
        match events.last() {
            Event::Write { .. } => before + 1,
            Event::Modify { changed, .. } => if changed {
                before + 1
            } else {
                before
            },
            Event::Disconnect => before,
            Event::Read { .. } => 0,
        }
    }
}

/// Whether the [`Value`] has been let go of.
pub open spec fn has_ended<T, F>(events: Seq<Event<T, F>>) -> bool
    decreases events.len(),
{
    events.len() > 0 && (events.last() is Disconnect || has_ended(events.drop_last()))
}

/// Whether an access has failed.
pub open spec fn has_reported_end<T, F>(events: Seq<Event<T, F>>) -> bool
    decreases events.len(),
{
    events.len() > 0 && (events.last() == Event::<T, F>::Read { ok: false } || has_reported_end(
        events.drop_last(),
    ))
}

/// Whether a reader has at no time missed as many writes as there are generations.
pub open spec fn keeps_up<T, F>(events: Seq<Event<T, F>>) -> bool
    decreases events.len(),
{
    events.len() > 0 ==> unseen_writes(events) <= u64::MAX && keeps_up(events.drop_last())
}

/// Whether `generation` is the one that follows after `count` writes since `read_gen`.
pub open spec fn is_ahead_by(generation: u64, read_gen: u64, count: nat) -> bool {
    &&& count <= u64::MAX
    &&& generation == read_gen + count || generation + u64::MAX + 1 == read_gen + count
}

/// Whatever has happened since a reader was made, it is told of a change exactly if it has been
/// notified of a write since it last accessed the value, or if the [`Value`] is gone and no access has
/// failed yet. An access fails exactly if the [`Value`] is gone and there is no such write.
pub proof fn change_is_told_until_it_is_read<T, F: FnOnce(Mut<'_, T>)>(
    states: Seq<&mut ValueState<T>>,
    positions: Seq<&mut ReadPosition>,
    reads: Seq<Result<&T, Disconnected>>,
    events: Seq<Event<T, F>>,
)
    requires
        events.len() > 0,
        states.len() == events.len(),
        positions.len() == events.len(),
        reads.len() == events.len(),
        !states[0].disconnected,
        call_ensures(ValueState::<T>::start, (&*states[0],), *positions[0]),
        forall|i: int|
            0 <= i < events.len() ==> match #[trigger] events[i] {
                Event::Write { new, previous } => {
                    &&& call_ensures(ValueState::<T>::set, (states[i], new), previous)
                    &&& *final(positions[i]) == *positions[i]
                },
                Event::Modify { with, changed } => {
                    &&& call_ensures(ValueState::<T>::modify::<F>, (states[i], with), changed)
                    &&& *final(positions[i]) == *positions[i]
                },
                Event::Disconnect => {
                    &&& call_ensures(ValueState::<T>::disconnect, (states[i],), ())
                    &&& *final(positions[i]) == *positions[i]
                },
                Event::Read { ok } => {
                    &&& call_ensures(
                        ValueState::<T>::read,
                        (&*states[i], positions[i]),
                        reads[i],
                    )
                    &&& ok == (reads[i] is Ok)
                    &&& *final(states[i]) == *states[i]
                },
            },
        forall|i: int, j: int|
            0 <= i && j == i + 1 && j < events.len() ==> {
                &&& *(#[trigger] states[j]) == *final(#[trigger] states[i])
                &&& *positions[j] == *final(positions[i])
            },
        keeps_up(events),
    ensures
        final(positions.last()).has_changed(*final(states.last())) == (unseen_writes(events) > 0 || (
        has_ended(events) && !has_reported_end(events))),
        is_ahead_by(
            final(states.last()).generation,
            final(positions.last()).read_gen,
            unseen_writes(events),
        ),
        final(states.last()).disconnected == has_ended(events),
        final(positions.last()).read_disconnected == has_reported_end(events),
        has_reported_end(events) ==> has_ended(events),
        events.last() is Read ==> (events.last()->ok == (unseen_writes(events.drop_last()) > 0
            || !has_ended(events.drop_last()))),
    decreases events.len(),
{
    let n = events.len() - 1;
    assert(events[n] == events.last());
    let earlier = events.drop_last();
    if n > 0 {
        change_is_told_until_it_is_read(
            states.drop_last(),
            positions.drop_last(),
            reads.drop_last(),
            earlier,
        );
        assert(states.drop_last().last() == states[n - 1]);
        assert(positions.drop_last().last() == positions[n - 1]);
        assert(*states[n] == *final(states[n - 1]));
    }
    assert(is_ahead_by(states[n].generation, positions[n].read_gen, unseen_writes(earlier)));
    assert(states[n].disconnected == has_ended(earlier));
    assert(positions[n].read_disconnected == has_reported_end(earlier));
}

/// A modification that does not mark the value as changed goes unnoticed by every reader, and one
/// that does is noticed by every reader.
pub proof fn modification_is_noticed_iff_marked<T, F: FnOnce(Mut<'_, T>)>(
    before: &mut ValueState<T>,
    with: F,
    changed: bool,
    position: ReadPosition,
)
    requires
        position.read_gen != next_generation(before.generation),
        call_ensures(ValueState::<T>::modify::<F>, (before, with), changed),
    ensures
        changed ==> position.has_news(*final(before)),
        !changed ==> position.has_news(*final(before)) == position.has_news(*old(before)),
        !changed ==> position.has_changed(*final(before)) == position.has_changed(*old(before)),
{
}

/// A task that polls when there is nothing new is woken by the next write, along with every task
/// that was waiting before it; and when it polls again, it gets a clone of what was written.
pub proof fn write_ends_every_wait<T: Clone>(
    idle: &mut ValueState<T>,
    position: &mut ReadPosition,
    waker: &Waker,
    polled: Poll<Result<T, Disconnected>>,
    awaited: &mut ValueState<T>,
    new: T,
    previous: T,
    written: &mut ValueState<T>,
    later: &mut ReadPosition,
    repolled: Poll<Result<T, Disconnected>>,
)
    requires
        !position.has_news(*idle),
        !idle.disconnected,
        call_ensures(ValueState::<T>::poll, (idle, position, waker), polled),
        *awaited == *final(idle),
        call_ensures(ValueState::<T>::set, (awaited, new), previous),
        *written == *final(awaited),
        *later == *final(position),
        call_ensures(ValueState::<T>::poll, (written, later, waker), repolled),
    ensures
        polled is Pending,
        exists|handle: Waker| #[trigger]
            call_ensures(Waker::clone, (waker,), handle)
                && old(awaited).wakers@ == old(idle).wakers@.push(handle),
        all_woken(old(awaited).wakers@),
        final(awaited).wakers@ == Seq::<Waker>::empty(),
        repolled matches Poll::Ready(Ok(value)) && call_ensures(T::clone, (&new,), value),
{
}

/// Whatever the readers do to the state, they only register tasks: they neither change the value, nor
/// forget a task that waits.
pub proof fn readers_only_register<T>(before: ValueState<T>, after: ValueState<T>)
    requires
        comes_of_guests(before, after),
    ensures
        after.value == before.value,
        after.generation == before.generation,
        after.disconnected == before.disconnected,
        before.wakers@.len() <= after.wakers@.len(),
        forall|i: int|
            0 <= i < before.wakers@.len() ==> #[trigger] after.wakers@[i] == before.wakers@[i],
{
    let states = choose|states: Seq<ValueState<T>>| #[trigger]
        are_left_by_guests(states, before, after);
    readers_only_register_one_by_one(states, before, after);
}

proof fn readers_only_register_one_by_one<T>(
    states: Seq<ValueState<T>>,
    before: ValueState<T>,
    after: ValueState<T>,
)
    requires
        are_left_by_guests(states, before, after),
    ensures
        before.may_become(after),
    decreases states.len(),
{
    if states.len() > 1 {
        let earlier = states.drop_last();
        let n = states.len() - 1;
        assert(earlier.last() == states[n - 1]);
        assert(are_left_by_guests(earlier, before, states[n - 1]));
        readers_only_register_one_by_one(earlier, before, states[n - 1]);
        assert(states[n - 1].may_become(states[n]));
    }
}

/// Setting a value looks at the state once. It replaces the value and hands out the previous one, makes
/// the generation the next one, wakes every task that waits, and then notifies all waiting threads.
pub proof fn setting_replaces_and_wakes<T>(value: &mut Value<T>, new: T, previous: T)
    requires
        call_ensures(Value::<T>::set, (value, new), previous),
    ensures
        ({
            let visits = final(value).share().visits();
            let (found, left) = visits.last();
            &&& final(value).share().identity() == old(value).share().identity()
            &&& old(value).share().may_find(found)
            &&& visits.len() == old(value).share().visits().len() + 1
            &&& visits.drop_last() == old(value).share().visits()
            &&& previous == found.value
            &&& left.value == new
            &&& left.generation != found.generation
            &&& left.generation == found.generation + 1 || found.generation == u64::MAX
            &&& left.disconnected == found.disconnected
            &&& left.wakers@.len() == 0
            &&& forall|i: int|
                0 <= i < found.wakers@.len() ==> call_ensures(
                    Waker::wake,
                    (#[trigger] found.wakers@[i],),
                    (),
                )
            &&& final(value).share().notices() == old(value).share().notices().push(visits.len())
            &&& call_ensures(
                std::sync::Condvar::notify_all,
                (old(value).share().identity().1.std_condvar(),),
                (),
            )
        }),
{
    assert(final(value).share().visits().drop_last() == old(value).share().visits());
}

/// Modifying a value looks at the state once. If the closure leaves the value marked as changed, the
/// generation changes, every task that waits is woken, and then all waiting threads are notified. If it
/// does not, nobody is woken or notified, and the generation stays.
pub proof fn modifying_wakes_iff_marked<T, F: FnOnce(Mut<'_, T>)>(value: &mut Value<T>, with: F)
    requires
        call_ensures(Value::<T>::modify::<F>, (value, with), ()),
    ensures
        exists|m: Mut<'_, T>|
            {
                let visits = final(value).share().visits();
                let (found, left) = visits.last();
                &&& #[trigger] call_ensures(with, (m,), ())
                &&& final(value).share().identity() == old(value).share().identity()
                &&& old(value).share().may_find(found)
                &&& visits.len() == old(value).share().visits().len() + 1
                &&& visits.drop_last() == old(value).share().visits()
                &&& *m.pointee() == found.value
                &&& !*m.mark()
                &&& left.value == *final(m.pointee())
                &&& left.disconnected == found.disconnected
                &&& if *final(m.mark()) {
                    &&& left.generation != found.generation
                    &&& left.generation == found.generation + 1 || found.generation == u64::MAX
                    &&& left.wakers@.len() == 0
                    &&& forall|i: int|
                        0 <= i < found.wakers@.len() ==> call_ensures(
                            Waker::wake,
                            (#[trigger] found.wakers@[i],),
                            (),
                        )
                    &&& final(value).share().notices() == old(value).share().notices().push(
                        visits.len(),
                    )
                    &&& call_ensures(
                        std::sync::Condvar::notify_all,
                        (old(value).share().identity().1.std_condvar(),),
                        (),
                    )
                } else {
                    &&& left.generation == found.generation
                    &&& left.wakers == found.wakers
                    &&& final(value).share().notices() == old(value).share().notices()
                }
            },
{
    assert(final(value).share().visits().drop_last() == old(value).share().visits());
}

/// Letting go of a value looks at the state once. It marks the value as gone and keeps it, wakes every
/// task that waits, and then notifies all waiting threads.
pub proof fn disconnecting_marks_and_wakes<T>(value: Value<T>)
    requires
        call_ensures(Value::<T>::disconnect, (value,), ()),
    ensures
        exists|past: Past<ValueState<T>, AtomicUsize>|
            {
                let (found, left) = past.visits().last();
                &&& #[trigger] call_ensures(
                    Share::<ValueState<T>, AtomicUsize, true>::disconnect,
                    (value.share(),),
                    past,
                )
                &&& past.identity() == value.share().identity()
                &&& value.share().may_find(found)
                &&& past.visits().len() == value.share().visits().len() + 1
                &&& left.disconnected
                &&& left.value == found.value
                &&& left.generation == found.generation
                &&& forall|i: int|
                    0 <= i < found.wakers@.len() ==> call_ensures(
                        Waker::wake,
                        (#[trigger] found.wakers@[i],),
                        (),
                    )
                &&& past.notices() == value.share().notices().push(past.visits().len())
                &&& call_ensures(
                    std::sync::Condvar::notify_all,
                    (value.share().identity().1.std_condvar(),),
                    (),
                )
            },
{
}

/// A task whose poll is pending is woken by the next write, whatever other readers have done to the
/// state in between.
pub proof fn pending_task_is_woken_by_the_next_write<T: Clone>(
    reader: &mut Reader<T>,
    context: &mut Context<'_>,
    value: &mut Value<T>,
    new: T,
    previous: T,
)
    requires
        call_ensures(Reader::<T>::poll, (reader, context), Poll::Pending),
        call_ensures(Value::<T>::set, (value, new), previous),
        comes_of_guests(
            final(reader).share().visits().last().1,
            final(value).share().visits().last().0,
        ),
    ensures
        exists|waker: &Waker, handle: Waker|
            {
                &&& call_ensures(Context::waker, (&*old(context),), waker)
                &&& #[trigger] call_ensures(Waker::clone, (waker,), handle)
                &&& call_ensures(Waker::wake, (handle,), ())
            },
{
    let registered = final(reader).share().visits().last().1;
    let found = final(value).share().visits().last().0;
    readers_only_register(registered, found);
    setting_replaces_and_wakes(value, new, previous);
    let n = registered.wakers@.len() - 1;
    assert(found.wakers@[n] == registered.wakers@[n]);
}

/// Every access of a reader looks at the state once, and leaves the state alone. After it, the
/// reader has seen the generation that it found. An access that gives a value leaves open whether
/// the reader has reported the end, and one that fails because the value is gone is what reports
/// it. An access fails exactly if the value is gone and its generation had been seen before.
pub proof fn access_reports_the_end_only_by_failing<T: Clone, R, F: FnOnce(&T) -> R>(
    showing: &mut Reader<T>,
    f: F,
    shown: Result<R, Disconnected>,
    getting: &mut Reader<T>,
    got: Result<T, Disconnected>,
)
    requires
        call_ensures(Reader::<T>::with::<R, F>, (showing, f), shown),
        call_ensures(Reader::<T>::get, (getting,), got),
    ensures
        ({
            let (found, left) = final(showing).share().visits().last();
            let before = old(showing).position();
            let after = final(showing).position();
            &&& final(showing).share().identity() == old(showing).share().identity()
            &&& final(showing).share().visits().len() == old(showing).share().visits().len() + 1
            &&& old(showing).share().may_find(found)
            &&& left == found
            &&& after.read_gen == found.generation
            &&& shown is Ok ==> after.read_disconnected == before.read_disconnected
            &&& shown is Err ==> after.read_disconnected
            &&& shown is Err <==> found.disconnected && before.read_gen == found.generation
            &&& shown matches Ok(r) ==> call_ensures(f, (&found.value,), r)
        }),
        ({
            let (found, left) = final(getting).share().visits().last();
            let before = old(getting).position();
            let after = final(getting).position();
            &&& final(getting).share().identity() == old(getting).share().identity()
            &&& final(getting).share().visits().len() == old(getting).share().visits().len() + 1
            &&& old(getting).share().may_find(found)
            &&& left == found
            &&& after.read_gen == found.generation
            &&& got is Ok ==> after.read_disconnected == before.read_disconnected
            &&& got is Err ==> after.read_disconnected
            &&& got is Err <==> found.disconnected && before.read_gen == found.generation
            &&& got matches Ok(clone) ==> call_ensures(T::clone, (&found.value,), clone)
        }),
{
}

/// A reader that blocks looks at the state once, and not before there is an unseen generation or
/// the value is gone. It gives the unseen value if there is one, which leaves open whether it has
/// reported the end, and otherwise reports the end. An iterator yields what its reader gives.
pub proof fn blocking_gives_the_unseen_value_or_reports_the_end<T: Clone>(
    blocking: &mut Reader<T>,
    waited: Result<T, Disconnected>,
    iterating: &mut IntoIter<T>,
    item: Option<T>,
)
    requires
        call_ensures(Reader::<T>::block, (blocking,), waited),
        call_ensures(IntoIter::<T>::next, (iterating,), item),
        !have_run_out(),
    ensures
        ({
            let (found, left) = final(blocking).share().visits().last();
            let before = old(blocking).position();
            let after = final(blocking).position();
            &&& final(blocking).share().identity() == old(blocking).share().identity()
            &&& final(blocking).share().visits().len() == old(blocking).share().visits().len() + 1
            &&& old(blocking).share().may_find(found)
            &&& left == found
            &&& after.read_gen == found.generation
            &&& waited is Ok ==> after.read_disconnected == before.read_disconnected
            &&& waited is Err ==> after.read_disconnected && found.disconnected
            &&& waited is Ok <==> before.read_gen != found.generation
            &&& waited matches Ok(clone) ==> call_ensures(T::clone, (&found.value,), clone)
        }),
        ({
            let (found, left) = final(iterating).reader().share().visits().last();
            let before = old(iterating).reader().position();
            let after = final(iterating).reader().position();
            &&& final(iterating).reader().share().visits().len() == old(
                iterating
            ).reader().share().visits().len() + 1
            &&& final(iterating).reader().share().identity() == old(iterating).reader().share().identity()
            &&& old(iterating).reader().share().may_find(found)
            &&& left == found
            &&& after.read_gen == found.generation
            &&& item is Some ==> after.read_disconnected == before.read_disconnected
            &&& item is None ==> after.read_disconnected && found.disconnected
            &&& item is Some <==> before.read_gen != found.generation
            &&& item matches Some(clone) ==> call_ensures(T::clone, (&found.value,), clone)
        }),
{
}

/// Polling a reader looks at the state once. It is pending exactly if the value is live and its
/// generation has been seen; then a handle for waking the task is added, and the reader stays where it
/// was. Otherwise it gives what blocking would give.
pub proof fn polling_gives_the_unseen_value_or_reports_the_end<T: Clone>(
    reader: &mut Reader<T>,
    context: &mut Context<'_>,
    polled: Poll<Result<T, Disconnected>>,
)
    requires
        call_ensures(Reader::<T>::poll, (reader, context), polled),
    ensures
        ({
            let (found, left) = final(reader).share().visits().last();
            let before = old(reader).position();
            let after = final(reader).position();
            &&& final(reader).share().identity() == old(reader).share().identity()
            &&& final(reader).share().visits().len() == old(reader).share().visits().len() + 1
            &&& old(reader).share().may_find(found)
            &&& after.read_gen == found.generation
            &&& left.value == found.value
            &&& left.generation == found.generation
            &&& left.disconnected == found.disconnected
            &&& polled is Pending <==> before.read_gen == found.generation && !found.disconnected
            &&& match polled {
                Poll::Pending => {
                    &&& after == before
                    &&& left.wakers@.len() == found.wakers@.len() + 1
                    &&& forall|i: int|
                        0 <= i < found.wakers@.len() ==> #[trigger] left.wakers@[i]
                            == found.wakers@[i]
                    &&& exists|waker: &Waker| #[trigger]
                        call_ensures(Context::waker, (&*old(context),), waker) && call_ensures(
                            Waker::clone,
                            (waker,),
                            left.wakers@.last(),
                        )
                },
                Poll::Ready(Ok(clone)) => {
                    &&& before.read_gen != found.generation
                    &&& after.read_disconnected == before.read_disconnected
                    &&& left.wakers == found.wakers
                    &&& call_ensures(T::clone, (&found.value,), clone)
                },
                Poll::Ready(Err(_)) => {
                    &&& before.read_gen == found.generation
                    &&& after.read_disconnected
                    &&& left.wakers == found.wakers
                },
            }
        }),
{
}

/// A reader is told of a change exactly if the generation that it finds differs from the one that
/// it has seen, or if the value is gone and the reader has not reported that.
pub proof fn change_is_what_has_not_been_seen_or_reported<T>(
    reader: Reader<T>,
    changed: bool,
    gone: bool,
)
    requires
        call_ensures(Reader::<T>::is_changed, (&reader,), changed),
        call_ensures(Reader::<T>::is_disconnected, (&reader,), gone),
    ensures
        exists|found: ValueState<T>| #[trigger]
            reader.share().may_find(found) && changed == (found.generation
                != reader.position().read_gen || found.disconnected
                != reader.position().read_disconnected),
        exists|found: ValueState<T>| #[trigger]
            reader.share().may_find(found) && gone == found.disconnected,
{
}

/// A new reader has seen the generation that it finds, has not reported the end, and is counted.
pub proof fn new_reader_has_seen_what_there_is<T>(value: Value<T>, reader: Reader<T>)
    requires
        call_ensures(Value::<T>::reader, (&value,), reader),
    ensures
        reader.share().identity() == value.share().identity(),
        !reader.position().read_disconnected,
        exists|found: ValueState<T>| #[trigger]
            value.share().may_find(found) && reader.position().read_gen == found.generation,
        exists|before: usize| #[trigger]
            call_ensures(
                AtomicUsize::fetch_add,
                (&value.share().extra(), 1, Ordering::Relaxed),
                before,
            ),
{
    reader.share().owners_find_the_same(&value.share(), value.share().origin());
}

/// Over any number of accesses, a reader has reported the end exactly if one of them has failed, and it
/// has seen the generation that the last of them found. So a reader that got the last value of a value
/// that is gone still has the end to notice, until an access of that reader fails.
pub proof fn reader_has_the_end_to_notice_until_an_access_fails<T: Clone>(
    readers: Seq<&mut Reader<T>>,
    blocks: Seq<bool>,
    results: Seq<Result<T, Disconnected>>,
)
    requires
        readers.len() > 0,
        blocks.len() == readers.len(),
        results.len() == readers.len(),
        !have_run_out(),
        forall|i: int|
            0 <= i < readers.len() ==> if blocks[i] {
                call_ensures(Reader::<T>::block, (#[trigger] readers[i],), results[i])
            } else {
                call_ensures(Reader::<T>::get, (readers[i],), results[i])
            },
        forall|i: int, j: int|
            0 <= i && j == i + 1 && j < readers.len() ==> *(#[trigger] readers[j]) == *final(
                #[trigger] readers[i]
            ),
    ensures
        final(readers.last()).position().read_disconnected == (
        readers[0].position().read_disconnected || exists|i: int|
            0 <= i < results.len() && #[trigger] results[i] is Err),
        final(readers.last()).position().read_gen == final(
            readers.last()
        ).share().visits().last().0.generation,
    decreases readers.len(),
{
    let n = readers.len() - 1;
    let last = readers[n];
    assert(if blocks[n] {
        call_ensures(Reader::<T>::block, (last,), results[n])
    } else {
        call_ensures(Reader::<T>::get, (last,), results[n])
    });
    if n > 0 {
        let earlier = readers.drop_last();
        let before = results.drop_last();
        reader_has_the_end_to_notice_until_an_access_fails(earlier, blocks.drop_last(), before);
        assert(earlier.last() == readers[n - 1]);
        assert(*last == *final(readers[n - 1]));
        if exists|i: int| 0 <= i < before.len() && #[trigger] before[i] is Err {
            let i = choose|i: int| 0 <= i < before.len() && #[trigger] before[i] is Err;
            assert(results[i] is Err);
        }
        if exists|i: int| 0 <= i < n && #[trigger] results[i] is Err {
            let i = choose|i: int| 0 <= i < n && #[trigger] results[i] is Err;
            assert(before[i] is Err);
        }
    }
    assert(results[n] is Err || results[n] is Ok);
}

/// Dereferencing a reference mutably marks the pointee as changed, whatever is written to it, and
/// what is written is what the pointee becomes. Marking it by hand touches nothing but the mark.
pub proof fn dereferencing_mutably_marks_as_changed<'a, T>(
    written: &mut Mut<'a, T>,
    place: &mut T,
    marked: &mut Mut<'a, T>,
    changed: bool,
)
    requires
        call_ensures(<Mut<'a, T> as DerefMut>::deref_mut, (written,), place),
        call_ensures(Mut::<'a, T>::set_changed, (marked, changed), ()),
    ensures
        *old(place) == *old(written).pointee(),
        *final(written).pointee() == *final(place),
        *final(written).mark(),
        *final(marked).mark() == changed,
        *final(marked).pointee() == *old(marked).pointee(),
{
}

/// A value counts its readers from zero. A new reader adds one to the count, a copy of a reader
/// adds one to the same count and starts where the other one is, and a reader that has been
/// discounted has subtracted one from it. Looking at the count tells what is in it, and a value is
/// observed exactly if that is not zero.
pub proof fn readers_are_counted_one_by_one<T>(
    initial: T,
    value: Value<T>,
    reader: Reader<T>,
    clone: Reader<T>,
    count: usize,
    observed: bool,
)
    requires
        call_ensures(Value::<T>::new, (initial,), value),
        call_ensures(Value::<T>::reader, (&value,), reader),
        call_ensures(Reader::<T>::clone, (&reader,), clone),
        clone.is_discounted(),
        call_ensures(Value::<T>::reader_count, (&value,), count),
        call_ensures(Value::<T>::has_readers, (&value,), observed),
    ensures
        call_ensures(AtomicUsize::new, (0,), value.share().extra()),
        reader.share().extra() == value.share().extra(),
        clone.share().extra() == value.share().extra(),
        clone.position() == reader.position(),
        exists|before: usize| #[trigger]
            call_ensures(
                AtomicUsize::fetch_add,
                (&reader.share().extra(), 1, Ordering::Relaxed),
                before,
            ),
        exists|before: usize| #[trigger]
            call_ensures(
                AtomicUsize::fetch_add,
                (&clone.share().extra(), 1, Ordering::Relaxed),
                before,
            ),
        exists|before: usize| #[trigger]
            call_ensures(
                AtomicUsize::fetch_sub,
                (&clone.share().extra(), 1, Ordering::Relaxed),
                before,
            ),
        call_ensures(AtomicUsize::load, (&value.share().extra(), Ordering::Relaxed), count),
        exists|found: usize|
            {
                &&& #[trigger] call_ensures(
                    AtomicUsize::load,
                    (&value.share().extra(), Ordering::Relaxed),
                    found,
                )
                &&& observed <==> found > 0
            },
{
    reader.share().is_extra_shared(&value.share());
    clone.share().is_extra_shared(&reader.share());
}

} // verus!
