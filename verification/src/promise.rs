//! Promises: slots that one side fills and the other side waits for.

use std::future::Future;
use std::task::{Context, Poll, Waker};

use vstd::future::FutureAdditionalSpecFns;
use vstd::prelude::*;

use crate::call::{call1, call2};
use crate::future;
use crate::share::{are_left_by_guests, comes_of_guests, Hosted, Past, Share};
use crate::task::{all_woken, comes_from, register, take_all, wake_all};
use crate::wakeups::have_run_out;

verus! {

/// An error returned by [`PromiseHandle::block`] indicating that the connected [`Promise`] object
/// was dropped without being fulfilled.
#[derive(Debug, PartialEq, Eq)]
pub struct PromiseDropped {
    _priv: (),
}

impl PromiseDropped {
    /// The one value of this type.
    pub closed spec fn spec_new() -> Self {
        PromiseDropped { _priv: () }
    }
}

impl Clone for PromiseDropped {
    fn clone(&self) -> (copy: Self)
        ensures
            copy == *self,
    {
        PromiseDropped { _priv: () }
    }
}

/// What a [`Promise`] and its [`PromiseHandle`] share.
pub enum PromiseState<T> {
    /// The promise is still open. The tasks that wait for it are woken by its fulfillment.
    Empty(Vec<Waker>),
    /// The promise was fulfilled with this value, which the handle has not fetched yet.
    Fulfilled(T),
    /// The promise was dropped unfulfilled, or its value has been fetched.
    Dropped,
}

impl<T> PromiseState<T> {
    /// What waiting for a promise in this state comes to.
    pub open spec fn outcome(self) -> Result<T, PromiseDropped> {
        match self {
            PromiseState::Fulfilled(value) => Ok(value),
            _ => Err(PromiseDropped::spec_new()),
        }
    }

    /// The state after the handle has fetched what there was.
    pub open spec fn fetched(self) -> PromiseState<T> {
        match self {
            PromiseState::Fulfilled(_) => PromiseState::Dropped,
            other => other,
        }
    }

    /// The state after the promise has been given up. That only makes a difference to an open one.
    pub open spec fn abandoned(self) -> PromiseState<T> {
        match self {
            PromiseState::Empty(_) => PromiseState::Dropped,
            other => other,
        }
    }

    /// Whether the promise is open and no task waits for it.
    pub open spec fn is_unawaited(self) -> bool {
        self matches PromiseState::Empty(wakers) && wakers@ == Seq::<Waker>::empty()
    }

    /// An open promise that no task waits for.
    pub fn new() -> (state: Self)
        ensures
            state.is_unawaited(),
    {
        PromiseState::Empty(Vec::new())
    }

    /// Whether the promise is still open.
    pub fn is_pending(&self) -> (pending: bool)
        ensures
            pending == (self is Empty),
    {
        match self {
            PromiseState::Empty(_) => true,
            _ => false,
        }
    }

    /// Whether there is a value that the handle has not fetched yet.
    pub fn is_fulfilled(&self) -> (fulfilled: bool)
        ensures
            fulfilled == (self is Fulfilled),
    {
        match self {
            PromiseState::Fulfilled(_) => true,
            _ => false,
        }
    }

    /// Stores the promised value and hands out the tasks to wake. A promise that is no longer open
    /// stays as it is.
    pub fn fulfill(&mut self, value: T) -> (wakers: Vec<Waker>)
        ensures
            match *old(self) {
                PromiseState::Empty(waiting) => {
                    &&& wakers == waiting
                    &&& *final(self) == PromiseState::Fulfilled(value)
                },
                closed => {
                    &&& wakers@ == Seq::<Waker>::empty()
                    &&& *final(self) == closed
                },
            },
    {
        let wakers = match self {
            PromiseState::Empty(wakers) => take_all(wakers),
            _ => {
                return Vec::new();
            },
        };
        *self = PromiseState::Fulfilled(value);
        wakers
    }

    /// Gives the promise up, if it is still open. The waiting tasks are forgotten, and not woken.
    pub fn abandon(&mut self)
        ensures
            *final(self) == old(self).abandoned(),
    {
        match self {
            PromiseState::Empty(_) => {},
            _ => {
                return ;
            },
        }
        *self = PromiseState::Dropped;
    }

    /// Fetches the value if there is one.
    pub fn fetch(&mut self) -> (outcome: Result<T, PromiseDropped>)
        ensures
            outcome == old(self).outcome(),
            *final(self) == old(self).fetched(),
    {
        match self {
            PromiseState::Fulfilled(_) => {},
            _ => {
                return Err(PromiseDropped { _priv: () });
            },
        }
        let mut state = PromiseState::Dropped;
        std::mem::swap(self, &mut state);
        match state {
            PromiseState::Fulfilled(value) => Ok(value),
            _ => Err(PromiseDropped { _priv: () }),
        }
    }

    /// Fetches the value, or registers a task to be woken once there is one.
    pub fn poll(&mut self, waker: &Waker) -> (polled: Poll<Result<T, PromiseDropped>>)
        ensures
            match *old(self) {
                PromiseState::Empty(before) => {
                    &&& polled is Pending
                    &&& *final(self) matches PromiseState::Empty(after)
                    &&& exists|registered: Waker| #[trigger]
                        call_ensures(Waker::clone, (waker,), registered) && after@ == before@.push(
                            registered,
                        )
                },
                resolved => {
                    &&& polled == Poll::Ready(resolved.outcome())
                    &&& *final(self) == resolved.fetched()
                },
            },
    {
        match self {
            PromiseState::Empty(wakers) => {
                register(wakers, waker);
                return Poll::Pending;
            },
            _ => {},
        }
        Poll::Ready(self.fetch())
    }
}

/// Whether a thread that finds the promise in `state` has to wait.
fn must_wait<T>(state: &mut PromiseState<T>) -> (wait: bool)
    ensures
        wait == (*old(state) is Empty),
        *final(state) == *old(state),
{
    state.is_pending()
}

impl<T> Hosted for PromiseState<T> {
    /// The handle may register tasks while the promise is open, and take the value once there is one.
    open spec fn may_become(self, after: Self) -> bool {
        match self {
            PromiseState::Empty(before) => after matches PromiseState::Empty(wakers)
                && before@.is_prefix_of(wakers@),
            _ => after == self || after is Dropped,
        }
    }
}

impl<T> Share<PromiseState<T>, (), true> {
    /// Fulfills the promise with a value, wakes the waiting tasks, notifies the waiting thread, and
    /// lets go of the slot.
    pub fn fulfill(self, value: T) -> (past: Past<PromiseState<T>, ()>)
        ensures
            past.identity() == self.identity(),
            exists|place: &mut PromiseState<T>, wakers: Vec<Waker>|
                {
                    &&& self.may_find(*place)
                    &&& #[trigger] call_ensures(
                        PromiseState::<T>::fulfill,
                        (place, value),
                        wakers,
                    )
                    &&& all_woken(wakers@)
                    &&& past.visits() == self.visits().push((*place, *final(place)))
                },
            past.notices() == self.notices().push(past.visits().len()),
            self.has_notified_one(),
    {
        let mut slot = self;
        slot.visit(
            |state: &mut PromiseState<T>| -> (done: ())
                ensures
                    exists|place: &mut PromiseState<T>, wakers: Vec<Waker>|
                        {
                            &&& *place == *old(state)
                            &&& *final(place) == *final(state)
                            &&& #[trigger] call_ensures(
                                PromiseState::<T>::fulfill,
                                (place, value),
                                wakers,
                            )
                            &&& all_woken(wakers@)
                        }
                {
                    let wakers = call2(PromiseState::<T>::fulfill, state, value);
                    wake_all(wakers);
                },
        );
        slot.notify_one();
        slot.leave()
    }

    /// Gives the promise up, notifies the waiting thread, and lets go of the slot.
    pub fn abandon(self) -> (past: Past<PromiseState<T>, ()>)
        ensures
            past.identity() == self.identity(),
            exists|place: &mut PromiseState<T>|
                {
                    &&& self.may_find(*place)
                    &&& #[trigger] call_ensures(PromiseState::<T>::abandon, (place,), ())
                    &&& past.visits() == self.visits().push((*place, *final(place)))
                },
            past.notices() == self.notices().push(past.visits().len()),
            self.has_notified_one(),
    {
        let mut slot = self;
        slot.visit(PromiseState::<T>::abandon);
        slot.notify_one();
        slot.leave()
    }
}

impl<T> Share<PromiseState<T>, (), false> {
    /// Waits until the promise is no longer open, and fetches the value if there is one.
    pub fn fetch(&mut self) -> (outcome: Result<T, PromiseDropped>)
        ensures
            final(self).is_shared_with(old(self)),
            exists|place: &mut PromiseState<T>|
                {
                    &&& old(self).may_find(*place)
                    &&& *place is Empty ==> have_run_out()
                    &&& #[trigger] call_ensures(PromiseState::<T>::fetch, (place,), outcome)
                    &&& final(self).visits() == old(self).visits().push((*place, *final(place)))
                },
            final(self).notices() == old(self).notices(),
    {
        self.visit_after_waiting(must_wait::<T>, PromiseState::<T>::fetch)
    }

    /// Fetches the value if the promise is no longer open, and otherwise registers a task to be woken
    /// once it is fulfilled.
    pub fn poll(&mut self, waker: &Waker) -> (polled: Poll<Result<T, PromiseDropped>>)
        ensures
            final(self).is_shared_with(old(self)),
            exists|place: &mut PromiseState<T>|
                {
                    &&& old(self).may_find(*place)
                    &&& #[trigger] call_ensures(PromiseState::<T>::poll, (place, waker), polled)
                    &&& final(self).visits() == old(self).visits().push((*place, *final(place)))
                },
            final(self).notices() == old(self).notices(),
    {
        self.visit(
            |state: &mut PromiseState<T>| -> (polled: Poll<Result<T, PromiseDropped>>)
                ensures
                    exists|place: &mut PromiseState<T>|
                        {
                            &&& *place == *old(state)
                            &&& *final(place) == *final(state)
                            &&& #[trigger] call_ensures(
                                PromiseState::<T>::poll,
                                (place, waker),
                                polled,
                            )
                        }
                { call2(PromiseState::<T>::poll, state, waker) },
        )
    }
}

/// Creates a connected pair of [`Promise`] and [`PromiseHandle`].
pub fn promise<T>() -> (pair: (Promise<T>, PromiseHandle<T>))
    ensures
        pair.0.is_connected_to(pair.1),
        pair.0.slot().is_fresh(),
        pair.1.slot().is_fresh(),
        exists|state: PromiseState<T>| #[trigger]
            pair.1.slot().started_as(state) && state.is_unawaited(),
        pair.0.slot().origin().is_unawaited(),
{
    let state = PromiseState::new();
    let (slot, guest) = Share::pair(state, ());
    let handle = PromiseHandle { slot: guest };
    assert(handle.slot().started_as(state));
    (Promise { slot }, handle)
}

/// An empty slot that can be filled with a `T`, fulfilling the promise.
///
/// Fulfilling a [`Promise`] lets the connected [`PromiseHandle`] retrieve the value. A connected
/// pair of [`Promise`] and [`PromiseHandle`] can be created by calling [`promise`].
///
/// Whoever owns a [`Promise`] either calls [`Promise::fulfill`], or calls [`Promise::abandon`] to let
/// go of it.
#[verifier::reject_recursive_types(T)]
pub struct Promise<T> {
    slot: Share<PromiseState<T>, (), true>,
}

impl<T> Promise<T> {
    /// The slot that is to be filled.
    pub closed spec fn slot(&self) -> Share<PromiseState<T>, (), true> {
        self.slot
    }

    /// Whether `handle` waits for this promise.
    pub open spec fn is_connected_to(self, handle: PromiseHandle<T>) -> bool {
        handle.slot().is_shared_with(&self.slot())
    }

    /// Fulfills the promise with a value, consuming it.
    ///
    /// If a thread is currently waiting at [`PromiseHandle::block`], it will be woken up.
    ///
    /// This method does not block or fail. If the connected [`PromiseHandle`] was dropped, `value`
    /// will be dropped and nothing happens. The calling thread is expected to exit when it attempts
    /// to obtain a new [`Promise`] to fulfill.
    pub fn fulfill(self, value: T)
        ensures
            exists|past: Past<PromiseState<T>, ()>| #[trigger]
                call_ensures(
                    Share::<PromiseState<T>, (), true>::fulfill,
                    (self.slot(), value),
                    past,
                ),
    {
        let _past = call2(Share::<PromiseState<T>, (), true>::fulfill, self.slot, value);
        assert(call_ensures(
            Share::<PromiseState<T>, (), true>::fulfill,
            (self.slot(), value),
            _past,
        ));
    }

    /// Gives the promise up unfulfilled, consuming it.
    ///
    /// If a thread is currently waiting at [`PromiseHandle::block`], it will be woken up.
    ///
    /// Whoever owns a [`Promise`] either fulfills it or calls this. A destructor could not do it,
    /// since it would have to lock, and locking may panic.
    pub fn abandon(self)
        ensures
            exists|past: Past<PromiseState<T>, ()>| #[trigger]
                call_ensures(Share::<PromiseState<T>, (), true>::abandon, (self.slot(),), past),
    {
        let _past = call1(Share::<PromiseState<T>, (), true>::abandon, self.slot);
        assert(call_ensures(Share::<PromiseState<T>, (), true>::abandon, (self.slot(),), _past));
    }
}

/// A handle connected to a [`Promise`] that will eventually resolve to a value of type `T`.
///
/// A connected pair of [`Promise`] and [`PromiseHandle`] can be created by calling [`promise`].
#[verifier::reject_recursive_types(T)]
pub struct PromiseHandle<T> {
    slot: Share<PromiseState<T>, (), false>,
}

/// Whether a promise whose slot has `owners` owners is still held by someone who can fulfill it.
///
/// There is one [`Promise`] and one [`PromiseHandle`], and each of them is one owner.
pub fn promise_is_held(owners: usize) -> (held: bool)
    ensures
        held == (owners == 2),
{
    owners == 2
}

impl<T> PromiseHandle<T> {
    /// The slot that will be filled.
    pub closed spec fn slot(&self) -> Share<PromiseState<T>, (), false> {
        self.slot
    }

    /// Blocks the calling thread until the connected [`Promise`] is fulfilled.
    ///
    /// If the [`Promise`] is dropped without being fulfilled, a [`PromiseDropped`] error is
    /// returned instead. This typically means one of two things:
    ///
    /// - The thread holding the promise has deliberately decided not to fulfill it (for
    ///   example, because it has skipped processing an item).
    /// - The thread holding the promise has panicked.
    ///
    /// Usually, the correct way to handle this is to just skip the item expected from the
    /// [`Promise`]. If the thread has panicked, and it's a worker thread, then the next attempt to
    /// send a message to it will propagate the panic to the owning thread, and tear down the
    /// process as usual.
    ///
    /// The wait only ends with the promise still open if the thread has been woken up more often than a
    /// machine integer can count.
    pub fn block(self) -> (outcome: Result<T, PromiseDropped>)
        ensures
            exists|slot: &mut Share<PromiseState<T>, (), false>|
                {
                    &&& *slot == self.slot()
                    &&& #[trigger] call_ensures(
                        Share::<PromiseState<T>, (), false>::fetch,
                        (slot,),
                        outcome,
                    )
                },
    {
        let mut slot = self.slot;
        call1(Share::<PromiseState<T>, (), false>::fetch, &mut slot)
    }

    /// Fetches the value if the promise has been resolved, and otherwise arranges for the task of
    /// `context` to be woken once it is fulfilled.
    pub fn poll(&mut self, context: &mut Context<'_>) -> (polled: Poll<Result<T, PromiseDropped>>)
        ensures
            *final(context) == *old(context),
            exists|slot: &mut Share<PromiseState<T>, (), false>, waker: &Waker|
                {
                    &&& *slot == old(self).slot()
                    &&& *final(slot) == final(self).slot()
                    &&& call_ensures(Context::waker, (&*old(context),), waker)
                    &&& #[trigger] call_ensures(
                        Share::<PromiseState<T>, (), false>::poll,
                        (slot, waker),
                        polled,
                    )
                },
    {
        let waker = call1(Context::waker, &*context);
        call2(Share::<PromiseState<T>, (), false>::poll, &mut self.slot, waker)
    }

    /// Asynchronously waits for the connected [`Promise`] to be fulfilled.
    ///
    /// # Cancellation
    ///
    /// This method is cancellation-safe, but it takes `self` by value, so the value of the
    /// [`Promise`] will be lost when the resulting [`Future`] is cancelled.
    ///
    /// A task that is already waiting when the [`Promise`] is given up is not woken by that. It finds
    /// out when it is polled for another reason.
    ///
    /// The future is polled by calling [`PromiseHandle::poll`]. Once it has been awaited, its output
    /// is what that method has given last.
    pub fn wait(self) -> (future: impl Future<Output = Result<T, PromiseDropped>>)
        ensures
            comes_from(future::of_promise::<T>, self, future),
            future.awaited() ==> exists|handle: &mut PromiseHandle<T>, context: &mut Context<'_>|
                {
                    &&& handle.slot().is_shared_with(&self.slot())
                    &&& #[trigger] call_ensures(
                        PromiseHandle::<T>::poll,
                        (handle, context),
                        Poll::Ready(future@),
                    )
                },
    {
        call1(future::of_promise::<T>, self)
    }

    /// Looks whether the connected [`Promise`] has been fulfilled, so that its value is there.
    pub fn is_fulfilled(&self) -> (fulfilled: bool)
        ensures
            exists|state: PromiseState<T>| #[trigger]
                self.slot().may_find(state) && fulfilled == (state is Fulfilled),
    {
        assert(self.slot() == self.slot);
        let fulfilled = self.slot.look(
            |state: &PromiseState<T>| -> (fulfilled: bool)
                ensures
                    fulfilled == (*state is Fulfilled)
                { state.is_fulfilled() },
        );
        fulfilled
    }

    /// Tests whether a call to [`PromiseHandle::block`] will block or return immediately.
    ///
    /// If this returns `false`, the connected [`Promise`] has been resolved and calling
    /// [`PromiseHandle::block`] on `self` will return immediately, without blocking.
    pub fn will_block(&self) -> (block: bool)
        ensures
            exists|count: usize| #[trigger] self.slot().may_count(count) && block == (count == 2),
    {
        let count: usize = self.slot.count();
        assert(self.slot().may_count(count));
        promise_is_held(count)
    }
}

/// A promise and the handle that is connected to it share one slot: whatever state one of them may
/// find, the other one may find as well.
pub proof fn connected_pair_shares_a_slot<T>(
    promise: Promise<T>,
    handle: PromiseHandle<T>,
    state: PromiseState<T>,
)
    requires
        promise.is_connected_to(handle),
    ensures
        promise.slot().may_find(state) == handle.slot().may_find(state),
{
    handle.slot().owners_find_the_same(&promise.slot(), state);
}

/// A thread that waits for a promise gets the very value that the promise is fulfilled with: if the
/// slot was open, and the thread finds the slot as the promise has left it, then waiting gives that
/// value, and leaves nothing behind for anyone else.
pub proof fn handle_gets_what_the_promise_is_fulfilled_with<T>(
    promise: Promise<T>,
    handle: PromiseHandle<T>,
    value: T,
    filled: Past<PromiseState<T>, ()>,
    fetched: &mut Share<PromiseState<T>, (), false>,
    outcome: Result<T, PromiseDropped>,
)
    requires
        promise.is_connected_to(handle),
        call_ensures(
            Share::<PromiseState<T>, (), true>::fulfill,
            (promise.slot(), value),
            filled,
        ),
        *fetched == handle.slot(),
        call_ensures(Share::<PromiseState<T>, (), false>::fetch, (fetched,), outcome),
        filled.visits().last().0 is Empty,
        final(fetched).visits().last().0 == filled.visits().last().1,
    ensures
        outcome == Ok::<T, PromiseDropped>(value),
        final(fetched).visits().last().1 is Dropped,
        final(fetched).identity() == filled.identity(),
        filled.notices().last() == filled.visits().len(),
{
}

/// A thread that waits for a promise gets an error if the promise is given up: if the slot was
/// open, and the thread finds the slot as the promise has left it, then waiting gives
/// [`PromiseDropped`].
pub proof fn handle_is_told_that_the_promise_is_given_up<T>(
    promise: Promise<T>,
    handle: PromiseHandle<T>,
    left: Past<PromiseState<T>, ()>,
    fetched: &mut Share<PromiseState<T>, (), false>,
    outcome: Result<T, PromiseDropped>,
)
    requires
        promise.is_connected_to(handle),
        call_ensures(Share::<PromiseState<T>, (), true>::abandon, (promise.slot(),), left),
        *fetched == handle.slot(),
        call_ensures(Share::<PromiseState<T>, (), false>::fetch, (fetched,), outcome),
        left.visits().last().0 is Empty,
        final(fetched).visits().last().0 == left.visits().last().1,
    ensures
        outcome == Err::<T, PromiseDropped>(PromiseDropped::spec_new()),
        final(fetched).identity() == left.identity(),
        left.notices().last() == left.visits().len(),
{
}

/// A promise that is fulfilled with a value yields that value to the first who asks for it, and an
/// error to everyone after that.
pub proof fn fulfilled_promise_yields_its_value_once<T>(
    open: &mut PromiseState<T>,
    value: T,
    wakers: Vec<Waker>,
    first: &mut PromiseState<T>,
    outcome: Result<T, PromiseDropped>,
    second: &mut PromiseState<T>,
    repeated: Result<T, PromiseDropped>,
)
    requires
        *open is Empty,
        call_ensures(PromiseState::<T>::fulfill, (open, value), wakers),
        *first == *final(open),
        call_ensures(PromiseState::<T>::fetch, (first,), outcome),
        *second == *final(first),
        call_ensures(PromiseState::<T>::fetch, (second,), repeated),
    ensures
        outcome == Ok::<T, PromiseDropped>(value),
        repeated is Err,
{
}

/// A promise that is given up yields an error, however often it is asked.
pub proof fn abandoned_promise_yields_an_error<T>(
    open: &mut PromiseState<T>,
    first: &mut PromiseState<T>,
    outcome: Result<T, PromiseDropped>,
    second: &mut PromiseState<T>,
    repeated: Result<T, PromiseDropped>,
)
    requires
        *open is Empty,
        call_ensures(PromiseState::<T>::abandon, (open,), ()),
        *first == *final(open),
        call_ensures(PromiseState::<T>::fetch, (first,), outcome),
        *second == *final(first),
        call_ensures(PromiseState::<T>::fetch, (second,), repeated),
    ensures
        outcome == Err::<T, PromiseDropped>(PromiseDropped::spec_new()),
        repeated == outcome,
{
}

/// Giving a slot up after it has been fulfilled does not lose the value.
pub proof fn fulfilled_value_survives_abandonment<T>(
    open: &mut PromiseState<T>,
    value: T,
    wakers: Vec<Waker>,
    fulfilled: &mut PromiseState<T>,
    slot: &mut PromiseState<T>,
    outcome: Result<T, PromiseDropped>,
)
    requires
        *open is Empty,
        call_ensures(PromiseState::<T>::fulfill, (open, value), wakers),
        *fulfilled == *final(open),
        call_ensures(PromiseState::<T>::abandon, (fulfilled,), ()),
        *slot == *final(fulfilled),
        call_ensures(PromiseState::<T>::fetch, (slot,), outcome),
    ensures
        outcome == Ok::<T, PromiseDropped>(value),
{
}

/// A task that polls an open promise is among those that its fulfillment wakes, along with every
/// task that was waiting before it; and when it polls again, it gets the value.
pub proof fn fulfillment_wakes_whoever_polled<T>(
    open: &mut PromiseState<T>,
    waker: &Waker,
    polled: Poll<Result<T, PromiseDropped>>,
    awaited: &mut PromiseState<T>,
    value: T,
    woken: Vec<Waker>,
    fulfilled: &mut PromiseState<T>,
    repolled: Poll<Result<T, PromiseDropped>>,
)
    requires
        *open is Empty,
        call_ensures(PromiseState::<T>::poll, (open, waker), polled),
        *awaited == *final(open),
        call_ensures(PromiseState::<T>::fulfill, (awaited, value), woken),
        *fulfilled == *final(awaited),
        call_ensures(PromiseState::<T>::poll, (fulfilled, waker), repolled),
    ensures
        polled is Pending,
        exists|handle: Waker| #[trigger]
            call_ensures(Waker::clone, (waker,), handle) && woken@ == old(open)->Empty_0@.push(
                handle,
            ),
        repolled == Poll::Ready(Ok::<T, PromiseDropped>(value)),
{
}

/// Whatever the handle does to the slot, it never closes it and never forgets a task that waits, and it
/// never puts a value into it or brings one back.
pub proof fn handle_leaves_an_open_slot_open<T>(before: PromiseState<T>, after: PromiseState<T>)
    requires
        comes_of_guests(before, after),
    ensures
        before matches PromiseState::Empty(waiting) ==> after matches PromiseState::Empty(wakers) && {
            &&& waiting@.len() <= wakers@.len()
            &&& forall|i: int| 0 <= i < waiting@.len() ==> #[trigger] wakers@[i] == waiting@[i]
        },
        before matches PromiseState::Fulfilled(value) ==> after == PromiseState::Fulfilled(value)
            || after is Dropped,
        before is Dropped ==> after is Dropped,
{
    let states = choose|states: Seq<PromiseState<T>>| #[trigger]
        are_left_by_guests(states, before, after);
    handle_leaves_slots_open(states, before, after);
}

proof fn handle_leaves_slots_open<T>(
    states: Seq<PromiseState<T>>,
    before: PromiseState<T>,
    after: PromiseState<T>,
)
    requires
        are_left_by_guests(states, before, after),
    ensures
        before.may_become(after),
    decreases states.len(),
{
    if states.len() > 1 {
        let earlier = states.drop_last();
        let n = states.len() - 1;
        assert(earlier.last() == states[n - 1]);
        assert(are_left_by_guests(earlier, before, states[n - 1]));
        handle_leaves_slots_open(earlier, before, states[n - 1]);
        assert(states[n - 1].may_become(states[n]));
    }
}

/// A promise starts out open, with no task waiting for it, and shares its slot with its handle.
pub proof fn new_promise_is_open<T>(promise: Promise<T>, handle: PromiseHandle<T>)
    requires
        call_ensures(self::promise::<T>, (), (promise, handle)),
    ensures
        promise.slot().origin() matches PromiseState::Empty(wakers) && wakers@.len() == 0,
        promise.slot().visits().len() == 0,
        promise.slot().notices().len() == 0,
        handle.slot().visits().len() == 0,
        handle.slot().identity() == promise.slot().identity(),
        handle.slot().origin() == promise.slot().origin(),
{
}

/// Fulfilling a promise that has been neither fulfilled nor given up looks at the slot once. It
/// finds the slot open, since the handle, who is the only other one to get at it, leaves an open
/// slot open. It leaves the value in the slot, wakes every task that waits for it, and then
/// notifies the waiting thread.
pub proof fn fulfillment_fills_the_open_slot<T>(promise: Promise<T>, value: T)
    requires
        promise.slot().origin() is Empty,
        call_ensures(Promise::<T>::fulfill, (promise, value), ()),
    ensures
        exists|past: Past<PromiseState<T>, ()>|
            {
                let (found, left) = past.visits().last();
                &&& #[trigger] call_ensures(
                    Share::<PromiseState<T>, (), true>::fulfill,
                    (promise.slot(), value),
                    past,
                )
                &&& past.identity() == promise.slot().identity()
                &&& past.visits().len() == promise.slot().visits().len() + 1
                &&& past.visits().drop_last() == promise.slot().visits()
                &&& promise.slot().may_find(found)
                &&& comes_of_guests(promise.slot().origin(), found) ==> found is Empty
                &&& found matches PromiseState::Empty(wakers) ==> {
                    &&& left == PromiseState::Fulfilled(value)
                    &&& forall|i: int|
                        0 <= i < wakers@.len() ==> call_ensures(
                            Waker::wake,
                            (#[trigger] wakers@[i],),
                            (),
                        )
                }
                &&& past.notices() == promise.slot().notices().push(past.visits().len())
                &&& call_ensures(
                    std::sync::Condvar::notify_one,
                    (promise.slot().identity().1.std_condvar(),),
                    (),
                )
            },
{
    let past = choose|past: Past<PromiseState<T>, ()>| #[trigger]
        call_ensures(
            Share::<PromiseState<T>, (), true>::fulfill,
            (promise.slot(), value),
            past,
        );
    assert(past.visits().drop_last() == promise.slot().visits());
    if comes_of_guests(promise.slot().origin(), past.visits().last().0) {
        handle_leaves_an_open_slot_open(promise.slot().origin(), past.visits().last().0);
    }
}

/// Giving a promise up that has been neither fulfilled nor given up looks at the slot once. It
/// finds the slot open, leaves it empty for ever, and then notifies the waiting thread.
pub proof fn abandonment_closes_the_open_slot<T>(promise: Promise<T>)
    requires
        promise.slot().origin() is Empty,
        call_ensures(Promise::<T>::abandon, (promise,), ()),
    ensures
        exists|past: Past<PromiseState<T>, ()>|
            {
                let (found, left) = past.visits().last();
                &&& #[trigger] call_ensures(
                    Share::<PromiseState<T>, (), true>::abandon,
                    (promise.slot(),),
                    past,
                )
                &&& past.identity() == promise.slot().identity()
                &&& past.visits().len() == promise.slot().visits().len() + 1
                &&& past.visits().drop_last() == promise.slot().visits()
                &&& promise.slot().may_find(found)
                &&& comes_of_guests(promise.slot().origin(), found) ==> found is Empty
                &&& found is Empty ==> left is Dropped
                &&& past.notices() == promise.slot().notices().push(past.visits().len())
                &&& call_ensures(
                    std::sync::Condvar::notify_one,
                    (promise.slot().identity().1.std_condvar(),),
                    (),
                )
            },
{
    let past = choose|past: Past<PromiseState<T>, ()>| #[trigger]
        call_ensures(Share::<PromiseState<T>, (), true>::abandon, (promise.slot(),), past);
    assert(past.visits().drop_last() == promise.slot().visits());
    if comes_of_guests(promise.slot().origin(), past.visits().last().0) {
        handle_leaves_an_open_slot_open(promise.slot().origin(), past.visits().last().0);
    }
}

/// Blocking looks at the slot once, and not before the promise is closed. It gives the value if and
/// only if there is one, and takes it away; otherwise it gives an error.
pub proof fn blocking_takes_what_is_in_the_slot<T>(
    handle: PromiseHandle<T>,
    outcome: Result<T, PromiseDropped>,
)
    requires
        call_ensures(PromiseHandle::<T>::block, (handle,), outcome),
    ensures
        exists|slot: &mut Share<PromiseState<T>, (), false>|
            {
                let visits = final(slot).visits();
                let (found, left) = visits.last();
                &&& *slot == handle.slot()
                &&& #[trigger] call_ensures(
                    Share::<PromiseState<T>, (), false>::fetch,
                    (slot,),
                    outcome,
                )
                &&& handle.slot().may_find(found)
                &&& visits.len() == handle.slot().visits().len() + 1
                &&& found is Empty ==> have_run_out()
                &&& match outcome {
                    Ok(value) => found == PromiseState::Fulfilled(value) && left is Dropped,
                    Err(_) => found !is Fulfilled && left == found,
                }
            },
{
}

/// Polling looks at the slot once. As long as the promise is open, it is pending, and a handle for
/// waking the task is added to the slot. Otherwise it gives what blocking would give.
pub proof fn polling_takes_what_is_in_the_slot<T>(
    handle: &mut PromiseHandle<T>,
    context: &mut Context<'_>,
    polled: Poll<Result<T, PromiseDropped>>,
)
    requires
        call_ensures(PromiseHandle::<T>::poll, (handle, context), polled),
    ensures
        ({
            let visits = final(handle).slot().visits();
            let (found, left) = visits.last();
            &&& final(handle).slot().identity() == old(handle).slot().identity()
            &&& old(handle).slot().may_find(found)
            &&& visits.len() == old(handle).slot().visits().len() + 1
            &&& match found {
                PromiseState::Empty(waiting) => polled is Pending && {
                    &&& left matches PromiseState::Empty(wakers) && {
                        &&& wakers@.len() == waiting@.len() + 1
                        &&& forall|i: int|
                            0 <= i < waiting@.len() ==> #[trigger] wakers@[i] == waiting@[i]
                        &&& exists|waker: &Waker| #[trigger]
                            call_ensures(Context::waker, (&*old(context),), waker) && call_ensures(
                                Waker::clone,
                                (waker,),
                                wakers@.last(),
                            )
                    }
                },
                PromiseState::Fulfilled(value) => {
                    &&& polled == Poll::Ready(Ok::<T, PromiseDropped>(value))
                    &&& left is Dropped
                },
                PromiseState::Dropped => (polled matches Poll::Ready(Err(_))) && left is Dropped,
            }
        }),
{
}

/// A handle is told that blocking would wait exactly if a promise is there beside it: the slot has
/// two owners, and no more and no fewer. Looking whether a promise is fulfilled tells whether a
/// value is there.
pub proof fn handle_waits_iff_a_promise_is_held<T>(
    handle: PromiseHandle<T>,
    block: bool,
    fulfilled: bool,
)
    requires
        call_ensures(PromiseHandle::<T>::will_block, (&handle,), block),
        call_ensures(PromiseHandle::<T>::is_fulfilled, (&handle,), fulfilled),
    ensures
        exists|count: usize|
            {
                &&& #[trigger] handle.slot().may_count(count)
                &&& block <==> 1 < count < 3
            },
        exists|state: PromiseState<T>|
            {
                &&& #[trigger] handle.slot().may_find(state)
                &&& fulfilled <==> !(state is Empty || state is Dropped)
            },
{
}

} // verus!
