//! A mirror of [`std::sync`] without lock poisoning.
//!
//! The [`std::sync::Mutex`] and [`std::sync::RwLock`] types "poison" themselves when the thread that
//! holds the lock panics: from then on locking them gives an error, which callers usually unwrap,
//! and so panic in their turn. The structured concurrency primitives of this library already hand a
//! panic to the owner of the operation that panicked. Lock poisoning is redundant beside that, and
//! it can hide the first panic behind the ones that it causes.
//!
//! The locks in this module therefore hand out their guard whether or not the lock is poisoned. The
//! whole rule is [`ignore_poison`] (and [`ignore_poison_try`], for the operations that do not
//! block); everything else is the standard library's.
//!
//! One trace of poisoning is left: the standard library ends a wait for a condition early when it
//! finds the mutex poisoned. [`Condvar::wait_while`] goes on waiting then, but
//! [`Condvar::wait_timeout_while`] returns with the condition possibly still unmet. A caller who has to
//! rule that out checks the condition again, and waits again if need be.
//!
//! What a lock holds is decided by whichever thread had it last, so no contract here says which
//! value a guard will show. They say where the guard comes from: it is one that the standard
//! library's function gives for this very lock, with a poison error taken off
//! (see [`unpoisoned`]).

use std::ops::{Deref, DerefMut};
use std::sync::LockResult;
use std::time::Duration;

use vstd::prelude::*;

use crate::call::{call0, call1, call2, call3, call4};
use crate::wakeups::{have_run_out, Wakeups};

pub use std::sync::WaitTimeoutResult;

verus! {

/// The standard library's mutex.
#[verifier::external_type_specification]
#[verifier::external_body]
#[verifier::reject_recursive_types(T)]
pub struct ExMutex<T: ?Sized>(std::sync::Mutex<T>);

/// The standard library's mutex guard.
#[verifier::external_type_specification]
#[verifier::external_body]
#[verifier::reject_recursive_types(T)]
pub struct ExMutexGuard<'a, T: ?Sized + 'a>(std::sync::MutexGuard<'a, T>);

/// The standard library's condition variable.
#[verifier::external_type_specification]
#[verifier::external_body]
pub struct ExCondvar(std::sync::Condvar);

/// The standard library's answer to whether a wait ran into its time limit.
#[verifier::external_type_specification]
#[verifier::external_body]
pub struct ExWaitTimeoutResult(std::sync::WaitTimeoutResult);

/// The standard library's reader-writer lock.
#[verifier::external_type_specification]
#[verifier::external_body]
#[verifier::reject_recursive_types(T)]
pub struct ExRwLock<T: ?Sized>(std::sync::RwLock<T>);

/// The standard library's guard of a shared lock.
#[verifier::external_type_specification]
#[verifier::external_body]
#[verifier::reject_recursive_types(T)]
pub struct ExRwLockReadGuard<'a, T: ?Sized>(std::sync::RwLockReadGuard<'a, T>);

/// The standard library's guard of an exclusive lock.
#[verifier::external_type_specification]
#[verifier::external_body]
#[verifier::reject_recursive_types(T)]
pub struct ExRwLockWriteGuard<'a, T: ?Sized + 'a>(std::sync::RwLockWriteGuard<'a, T>);

/// The standard library's error for a poisoned lock, which carries the guard all the same.
#[verifier::external_type_specification]
#[verifier::external_body]
#[verifier::reject_recursive_types(T)]
pub struct ExPoisonError<T>(std::sync::PoisonError<T>);

/// The standard library's error for an attempt to lock: the lock is poisoned, or it is taken.
#[verifier::external_type_specification]
#[verifier::reject_recursive_types(T)]
pub struct ExTryLockError<T>(std::sync::TryLockError<T>);

/// The place that dereferencing `guard` leads to.
pub open spec fn target<'b, G: Deref>(guard: &'b G) -> &'b G::Target {
    choose|place: &'b G::Target| call_ensures(<G as Deref>::deref, (guard,), place)
}

/// Whether `guard` is what `result` carries, poisoned or not.
pub open spec fn unpoisoned<G>(result: LockResult<G>, guard: G) -> bool {
    match result {
        Ok(free) => guard == free,
        Err(poison) => poison_carries(poison, guard),
    }
}

/// Whether `guard` is what the error `poison` carries: what
/// [`std::sync::PoisonError::into_inner`] gives for it.
pub open spec fn poison_carries<G>(poison: std::sync::PoisonError<G>, guard: G) -> bool {
    call_ensures(std::sync::PoisonError::<G>::into_inner, (poison,), guard)
}

/// Whether `outcome` is what an attempt to lock that gave `result` comes to once poisoning is
/// ignored: the guard, or [`TryLockError`] exactly where the attempt would have had to block.
pub open spec fn unpoisoned_try<G>(
    result: std::sync::TryLockResult<G>,
    outcome: TryLockResult<G>,
) -> bool {
    match result {
        Ok(free) => outcome == Ok::<G, TryLockError>(free),
        Err(std::sync::TryLockError::Poisoned(poison)) => outcome matches Ok(guard)
            && poison_carries(poison, guard),
        Err(std::sync::TryLockError::WouldBlock) => outcome == Err::<G, TryLockError>(
            TryLockError,
        ),
    }
}

/// [`std::sync::PoisonError::into_inner`]: takes the guard out of the error.
pub assume_specification<T>[ std::sync::PoisonError::<T>::into_inner ](
    poison: std::sync::PoisonError<T>,
) -> T;

/// Hands out what `result` carries, whether or not the lock was poisoned.
pub fn ignore_poison<G>(result: LockResult<G>) -> (guard: G)
    ensures
        unpoisoned(result, guard),
{
    match result {
        Ok(guard) => guard,
        Err(poison) => call1(std::sync::PoisonError::<G>::into_inner, poison),
    }
}

/// Hands out what `result` carries, whether or not the lock was poisoned, and fails only where the
/// lock could not be taken without blocking.
pub fn ignore_poison_try<G>(result: std::sync::TryLockResult<G>) -> (outcome: TryLockResult<G>)
    ensures
        unpoisoned_try(result, outcome),
{
    match result {
        Ok(guard) => Ok(guard),
        Err(std::sync::TryLockError::Poisoned(poison)) => Ok(
            call1(std::sync::PoisonError::<G>::into_inner, poison),
        ),
        Err(std::sync::TryLockError::WouldBlock) => Err(TryLockError),
    }
}

/// What an attempt to lock without blocking gives.
pub type TryLockResult<Guard> = Result<Guard, TryLockError>;

/// The error of an attempt to lock that would have had to block.
#[derive(Debug, PartialEq, Eq, Clone, Copy, Structural)]
pub struct TryLockError;

impl TryLockError {
    /// The text of this error.
    pub fn message(&self) -> (text: &'static str)
        ensures
            text@ == "`try_lock` failed because the operation would block"@,
    {
        "`try_lock` failed because the operation would block"
    }
}

/// [`std::sync::Mutex::new`]: makes an unlocked mutex that holds `t`. What it holds later is
/// decided by those who lock it, so nothing is claimed of the contents.
pub assume_specification<T>[ std::sync::Mutex::<T>::new ](t: T) -> std::sync::Mutex<T>;

/// [`std::sync::Mutex::lock`]: blocks until the mutex can be taken. Which value the guard then
/// shows is not claimed. The documentation lets a call panic when the calling thread already holds
/// the mutex.
pub assume_specification<T: ?Sized>[ std::sync::Mutex::<T>::lock ](
    mutex: &std::sync::Mutex<T>,
) -> LockResult<std::sync::MutexGuard<'_, T>>;

/// [`std::sync::Mutex::try_lock`]: takes the mutex if that is possible at once. Whether it is
/// depends on the other threads.
pub assume_specification<T: ?Sized>[ std::sync::Mutex::<T>::try_lock ](
    mutex: &std::sync::Mutex<T>,
) -> std::sync::TryLockResult<std::sync::MutexGuard<'_, T>>;

/// [`std::sync::Mutex::get_mut`]: borrows the contents through an exclusive borrow of the mutex.
pub assume_specification<T: ?Sized>[ std::sync::Mutex::<T>::get_mut ](
    mutex: &mut std::sync::Mutex<T>,
) -> LockResult<&mut T>;

/// [`std::sync::Mutex::into_inner`]: gives the contents back. Which value that is was decided by
/// the last thread to hold the lock.
#[verifier::external_body]
fn mutex_into_inner<T>(mutex: std::sync::Mutex<T>) -> LockResult<T> {
    mutex.into_inner()
}

/// Whether [`std::sync::Mutex::lock`] may give `result` for `mutex`.
pub open spec fn lock_gives<T: ?Sized>(
    mutex: &std::sync::Mutex<T>,
    result: LockResult<std::sync::MutexGuard<'_, T>>,
) -> bool {
    call_ensures(std::sync::Mutex::<T>::lock, (mutex,), result)
}

/// Whether `guard` may come from locking `mutex`, poisoned or not.
pub open spec fn guards<T: ?Sized>(
    mutex: &std::sync::Mutex<T>,
    guard: std::sync::MutexGuard<'_, T>,
) -> bool {
    exists|result: LockResult<std::sync::MutexGuard<'_, T>>| #[trigger]
        lock_gives(mutex, result) && unpoisoned(result, guard)
}

/// Whether `guard` may come from locking `mutex` and finding it poisoned.
pub open spec fn guards_poisoned<T: ?Sized>(
    mutex: &std::sync::Mutex<T>,
    guard: std::sync::MutexGuard<'_, T>,
) -> bool {
    exists|poison: std::sync::PoisonError<std::sync::MutexGuard<'_, T>>|
        #![trigger poison_carries(poison, guard)]
        lock_gives(mutex, Err(poison)) && poison_carries(poison, guard)
}

/// Whether `result` may come from locking the mutex of `guard` again.
pub open spec fn relocks<T: ?Sized>(
    guard: std::sync::MutexGuard<'_, T>,
    result: LockResult<std::sync::MutexGuard<'_, T>>,
) -> bool {
    forall|mutex: &std::sync::Mutex<T>| #[trigger]
        guards(mutex, guard) ==> lock_gives(mutex, result)
}

/// Whether `after` is a guard of every mutex that `before` is a guard of.
pub open spec fn still_guards<T: ?Sized>(
    before: std::sync::MutexGuard<'_, T>,
    after: std::sync::MutexGuard<'_, T>,
) -> bool {
    forall|mutex: &std::sync::Mutex<T>| #[trigger] guards(mutex, before) ==> guards(mutex, after)
}

/// Whether the guard in `result` is one of the mutex of `guard`, and an error means that the mutex
/// has been locked again and found poisoned.
pub open spec fn keeps_mutex<T: ?Sized>(
    guard: std::sync::MutexGuard<'_, T>,
    result: LockResult<(std::sync::MutexGuard<'_, T>, WaitTimeoutResult)>,
) -> bool {
    forall|
        mutex: &std::sync::Mutex<T>,
        woken: std::sync::MutexGuard<'_, T>,
        timeout: WaitTimeoutResult,
    |
        guards(mutex, guard) && #[trigger] unpoisoned(result, (woken, timeout)) ==> {
            &&& #[trigger] guards(mutex, woken)
            &&& result is Err ==> guards_poisoned(mutex, woken)
        }
}

/// A mutual exclusion lock that is never poisoned.
#[derive(Debug)]
#[verifier::reject_recursive_types(T)]
pub struct Mutex<T: ?Sized> {
    inner: std::sync::Mutex<T>,
}

impl<T: ?Sized> Mutex<T> {
    /// The standard library's mutex that does the locking.
    pub closed spec fn std_mutex(&self) -> &std::sync::Mutex<T> {
        &self.inner
    }

    /// Whether `guard` may come from locking this mutex: it is what
    /// [`std::sync::Mutex::lock`] gives for it, poisoned or not.
    pub open spec fn locks_to(&self, guard: MutexGuard<'_, T>) -> bool {
        guards(self.std_mutex(), guard.std_guard())
    }

    /// Whether `outcome` may come from trying to lock this mutex: it is what
    /// [`std::sync::Mutex::try_lock`] comes to once poisoning is ignored.
    pub open spec fn tries_to(&self, outcome: TryLockResult<MutexGuard<'_, T>>) -> bool {
        exists|result: std::sync::TryLockResult<std::sync::MutexGuard<'_, T>>| #[trigger]
            call_ensures(std::sync::Mutex::<T>::try_lock, (self.std_mutex(),), result)
                && unpoisoned_try(
                result,
                match outcome {
                    Ok(guard) => Ok(guard.std_guard()),
                    Err(error) => Err(error),
                },
            )
    }
}

impl<T> Mutex<T> {
    /// Whether this mutex may come from [`Mutex::new`] with `t`.
    pub open spec fn made_from(&self, t: T) -> bool {
        call_ensures(std::sync::Mutex::<T>::new, (t,), *self.std_mutex())
    }

    /// Whether locking this mutex may find `value` in it.
    pub open spec fn may_hold(&self, value: T) -> bool {
        exists|guard: MutexGuard<'_, T>| #[trigger] self.locks_to(guard) && *guard.value() == value
    }

    /// Whether locking this mutex may find `value` in it and find it poisoned: a thread has panicked
    /// while it held the lock.
    pub open spec fn may_hold_poisoned(&self, value: T) -> bool {
        exists|guard: MutexGuard<'_, T>|
            #![trigger guard.std_guard()]
            guards_poisoned(self.std_mutex(), guard.std_guard()) && *guard.value() == value
    }

    /// Whether unwrapping this mutex may give `t`: it is what [`std::sync::Mutex::into_inner`]
    /// gives for it, poisoned or not.
    pub closed spec fn opens_to(self, t: T) -> bool {
        exists|result: LockResult<T>| #[trigger]
            call_ensures(mutex_into_inner::<T>, (self.inner,), result) && unpoisoned(result, t)
    }

    /// Creates an unlocked mutex that holds `t`.
    pub fn new(t: T) -> (mutex: Mutex<T>)
        ensures
            mutex.made_from(t),
    {
        Self { inner: call1(std::sync::Mutex::<T>::new, t) }
    }
}

impl<T: ?Sized> Mutex<T> {
    /// Blocks until the mutex can be locked, and locks it.
    ///
    /// The guard is handed out even if a thread has panicked while it held the lock.
    pub fn lock(&self) -> (guard: MutexGuard<'_, T>)
        ensures
            self.locks_to(guard),
    {
        let result = call1(std::sync::Mutex::<T>::lock, &self.inner);
        assert(lock_gives(self.std_mutex(), result));
        MutexGuard { inner: ignore_poison(result) }
    }
    /// Locks the mutex if that is possible without blocking.
    pub fn try_lock(&self) -> (outcome: TryLockResult<MutexGuard<'_, T>>)
        ensures
            self.tries_to(outcome),
    {
        let result = call1(std::sync::Mutex::<T>::try_lock, &self.inner);
        assert(call_ensures(std::sync::Mutex::<T>::try_lock, (self.std_mutex(),), result));
        match ignore_poison_try(result) {
            Ok(inner) => Ok(MutexGuard { inner }),
            Err(error) => Err(error),
        }
    }

    /// Consumes the mutex and returns what it holds.
    pub fn into_inner(self) -> (t: T) where T: Sized
        ensures
            self.opens_to(t),
    {
        ignore_poison(call1(mutex_into_inner::<T>, self.inner))
    }

    /// Borrows what the mutex holds. No locking is needed, since the mutex is borrowed exclusively.
    pub fn get_mut(&mut self) -> (t: &mut T)
        ensures
            exists|mutex: &mut std::sync::Mutex<T>, result: LockResult<&mut T>, place: &mut T|
                {
                    &&& &*mutex == old(self).std_mutex()
                    &&& &*final(mutex) == final(self).std_mutex()
                    &&& #[trigger] call_ensures(std::sync::Mutex::<T>::get_mut, (mutex,), result)
                    &&& #[trigger] unpoisoned(result, place)
                    &&& &*place == &*t
                    &&& &*final(place) == &*final(t)
                },
    {
        ignore_poison(call1(std::sync::Mutex::<T>::get_mut, &mut self.inner))
    }
}

/// Exclusive access to what a [`Mutex`] holds. Dropping the guard unlocks the mutex.
#[derive(Debug)]
#[verifier::reject_recursive_types(T)]
pub struct MutexGuard<'a, T: ?Sized + 'a> {
    inner: std::sync::MutexGuard<'a, T>,
}

impl<'a, T: ?Sized + 'a> MutexGuard<'a, T> {
    /// The standard library's guard.
    pub closed spec fn std_guard(self) -> std::sync::MutexGuard<'a, T> {
        self.inner
    }

    /// What the mutex holds while this guard has it.
    pub open spec fn value(&self) -> &T {
        target(&self.std_guard())
    }
}

impl<'a, T: 'a> MutexGuard<'a, T> {
    /// Borrows what the mutex holds.
    pub(crate) fn place(&mut self) -> (place: &mut T)
        ensures
            *place == *old(self).value(),
            *final(self).value() == *final(place),
            forall|mutex: &Mutex<T>| #[trigger]
                mutex.locks_to(*old(self)) ==> mutex.locks_to(*final(self)),
    {
        mutex_guard_mut(&mut self.inner)
    }
}

/// Reads through [`std::sync::MutexGuard`] (its `Deref`): the reference shows what the mutex holds.
#[verifier::external_body]
fn mutex_guard_ref<'a, 'b, T: ?Sized>(guard: &'b std::sync::MutexGuard<'a, T>) -> (place: &'b T)
    ensures
        place == target(guard),
{
    guard.deref()
}

/// Writes through [`std::sync::MutexGuard`] (its `DerefMut`): the reference starts at what the
/// mutex holds, and the guard ends up showing whatever was last written to the reference. It
/// remains a guard of the same mutex.
#[verifier::external_body]
fn mutex_guard_mut<'a, 'b, T: ?Sized>(guard: &'b mut std::sync::MutexGuard<'a, T>) -> (place:
    &'b mut T)
    ensures
        &*place == target(&*old(guard)),
        target(&*final(guard)) == &*final(place),
        still_guards(*old(guard), *final(guard)),
{
    guard.deref_mut()
}

impl<'a, T: ?Sized + 'a> Deref for MutexGuard<'a, T> {
    type Target = T;

    fn deref(&self) -> (place: &Self::Target)
        ensures
            place == self.value(),
    {
        mutex_guard_ref(&self.inner)
    }
}

impl<'a, T: ?Sized + 'a> DerefMut for MutexGuard<'a, T> {
    fn deref_mut(&mut self) -> (place: &mut Self::Target)
        ensures
            &*place == old(self).value(),
            final(self).value() == &*final(place),
            forall|mutex: &Mutex<T>| #[trigger]
                mutex.locks_to(*old(self)) ==> mutex.locks_to(*final(self)),
    {
        mutex_guard_mut(&mut self.inner)
    }
}

impl<T> From<T> for Mutex<T> {
    fn from(value: T) -> (mutex: Self)
        ensures
            mutex.made_from(value),
    {
        Mutex::new(value)
    }
}

/// The conversion is no function of the value alone: two mutexes made from one value are two locks.
impl<T> vstd::std_specs::convert::FromSpecImpl<T> for Mutex<T> {
    open spec fn obeys_from_spec() -> bool {
        false
    }

    open spec fn from_spec(value: T) -> Self {
        arbitrary()
    }
}

impl<T: Default> Default for Mutex<T> {
    fn default() -> (mutex: Self)
        ensures
            exists|value: T| #[trigger] call_ensures(T::default, (), value) && mutex.made_from(value),
    {
        Mutex::new(call0(T::default))
    }
}

/// [`std::sync::Condvar::new`]: makes a condition variable that nobody waits on.
pub assume_specification[ std::sync::Condvar::new ]() -> std::sync::Condvar;

/// [`std::sync::Condvar::wait`]: unlocks the mutex, blocks until a notification or a spurious
/// wakeup, and locks the same mutex again. What the guard shows afterwards is not claimed. The
/// documentation lets a call panic when the condition variable has been used with another mutex.
pub assume_specification<'a, T>[ std::sync::Condvar::wait::<T> ](
    condvar: &std::sync::Condvar,
    guard: std::sync::MutexGuard<'a, T>,
) -> (result: LockResult<std::sync::MutexGuard<'a, T>>)
    ensures
        relocks(guard, result),
;

/// [`std::sync::Condvar::wait_timeout`]: as [`std::sync::Condvar::wait`], for no longer than `dur`. The
/// documentation lets a call panic as it does there.
pub assume_specification<'a, T>[ std::sync::Condvar::wait_timeout::<T> ](
    condvar: &std::sync::Condvar,
    guard: std::sync::MutexGuard<'a, T>,
    dur: Duration,
) -> (result: LockResult<(std::sync::MutexGuard<'a, T>, WaitTimeoutResult)>)
    ensures
        keeps_mutex(guard, result),
;

/// [`WaitTimeoutResult::timed_out`]: whether the wait is known to have run into its time limit.
pub assume_specification[ WaitTimeoutResult::timed_out ](result: &WaitTimeoutResult) -> bool;

/// Whether [`WaitTimeoutResult::timed_out`] gives nothing but `timed_out` for `result`.
pub open spec fn tells(result: WaitTimeoutResult, timed_out: bool) -> bool {
    forall|answer: bool| #[trigger]
        call_ensures(WaitTimeoutResult::timed_out, (&result,), answer) ==> answer == timed_out
}

/// Asks `result` whether the wait ran into its time limit.
pub fn has_timed_out(result: &WaitTimeoutResult) -> (timed_out: bool)
    ensures
        call_ensures(WaitTimeoutResult::timed_out, (result,), timed_out),
        forall|told: bool| #[trigger] tells(*result, told) ==> timed_out == told,
{
    call1(WaitTimeoutResult::timed_out, result)
}

/// [`std::sync::Condvar::wait_timeout_while`]: blocks until `condition` turns false, for no longer
/// than `dur`, and calls it only on what the mutex holds while the mutex is locked. The guard that
/// comes back is of the same mutex. Unless the mutex was found poisoned after a wait, the guard
/// shows what the last call of `condition` left behind, and the wait is said to have timed out
/// exactly if that call gave true. The documentation lets a call panic as
/// [`std::sync::Condvar::wait`] does.
pub assume_specification<'a, T, F>[ std::sync::Condvar::wait_timeout_while::<T, F> ](
    condvar: &std::sync::Condvar,
    guard: std::sync::MutexGuard<'a, T>,
    dur: Duration,
    condition: F,
) -> (result: LockResult<(std::sync::MutexGuard<'a, T>, WaitTimeoutResult)>) where
    F: FnMut(&mut T) -> bool,

    requires
        forall|place: &mut T| #[trigger] call_requires(condition, (place,)),
    ensures
        keeps_mutex(guard, result),
        result matches Ok((woken, timeout)) ==> exists|place: &mut T, held: bool|
            {
                &&& #[trigger] call_ensures(condition, (place,), held)
                &&& *final(place) == *target(&woken)
                &&& tells(timeout, held)
            },
;

/// [`std::sync::Condvar::notify_one`]: wakes one of the waiting threads, if there are any.
pub assume_specification[ std::sync::Condvar::notify_one ](condvar: &std::sync::Condvar);

/// [`std::sync::Condvar::notify_all`]: wakes every waiting thread.
pub assume_specification[ std::sync::Condvar::notify_all ](condvar: &std::sync::Condvar);

/// The guard that a wait with a time limit ends with is of the same mutex, which has been found
/// poisoned if the wait ended with an error.
proof fn woken_in_time_by_same_mutex<'a, T>(
    guard: MutexGuard<'a, T>,
    result: LockResult<(std::sync::MutexGuard<'a, T>, WaitTimeoutResult)>,
    woken: MutexGuard<'a, T>,
    timeout: WaitTimeoutResult,
)
    requires
        keeps_mutex(guard.std_guard(), result),
        unpoisoned(result, (woken.std_guard(), timeout)),
    ensures
        forall|mutex: &Mutex<T>| #[trigger]
            mutex.locks_to(guard) ==> {
                &&& mutex.locks_to(woken)
                &&& result is Err ==> mutex.may_hold_poisoned(*woken.value())
            },
{
    assert forall|mutex: &Mutex<T>| #[trigger] mutex.locks_to(guard) implies {
        &&& mutex.locks_to(woken)
        &&& result is Err ==> mutex.may_hold_poisoned(*woken.value())
    } by {
        assert(guards(mutex.std_mutex(), woken.std_guard()));
    }
}

/// A condition variable for [`Mutex`].
#[derive(Debug)]
pub struct Condvar {
    inner: std::sync::Condvar,
}

impl Condvar {
    /// The standard library's condition variable that does the waiting.
    pub closed spec fn std_condvar(&self) -> &std::sync::Condvar {
        &self.inner
    }

    /// Whether waiting with `guard` may end with `woken`: it is what [`std::sync::Condvar::wait`]
    /// gives, poisoned or not.
    pub open spec fn waits_to<'a, T>(&self, guard: MutexGuard<'a, T>, woken: MutexGuard<'a, T>) -> bool {
        exists|result: LockResult<std::sync::MutexGuard<'a, T>>| #[trigger]
            call_ensures(
                std::sync::Condvar::wait::<T>,
                (self.std_condvar(), guard.std_guard()),
                result,
            ) && unpoisoned(result, woken.std_guard())
    }

    /// Creates a condition variable that nobody waits on.
    pub fn new() -> (condvar: Condvar)
        ensures
            call_ensures(std::sync::Condvar::new, (), *condvar.std_condvar()),
    {
        Self { inner: call0(std::sync::Condvar::new) }
    }

    /// Unlocks the mutex, blocks until this condition variable is notified, and locks the mutex
    /// again. The wait may also end without a notification.
    pub fn wait<'a, T>(&self, guard: MutexGuard<'a, T>) -> (woken: MutexGuard<'a, T>)
        ensures
            forall|mutex: &Mutex<T>| #[trigger] mutex.locks_to(guard) ==> mutex.locks_to(woken),
            self.waits_to(guard, woken),
    {
        let result = call2(std::sync::Condvar::wait::<T>, &self.inner, guard.inner);
        assert(call_ensures(
            std::sync::Condvar::wait::<T>,
            (self.std_condvar(), guard.std_guard()),
            result,
        ));
        let woken = MutexGuard { inner: ignore_poison(result) };
        assert forall|mutex: &Mutex<T>| #[trigger] mutex.locks_to(guard) implies mutex.locks_to(
            woken,
        ) by {
            assert(guards(mutex.std_mutex(), guard.inner));
            assert(lock_gives(mutex.std_mutex(), result));
        }
        woken
    }

    /// Blocks until `condition` no longer holds of what the mutex holds.
    ///
    /// It makes no difference whether a thread has panicked while it held the mutex. The wait only
    /// ends with the condition still holding if the thread has been woken up more often than a machine
    /// integer can count.
    pub fn wait_while<'a, T, F>(&self, guard: MutexGuard<'a, T>, condition: F) -> (woken: MutexGuard<
        'a,
        T,
    >) where F: FnMut(&mut T) -> bool
        requires
            forall|place: &mut T| #[trigger] call_requires(condition, (place,)),
        ensures
            forall|mutex: &Mutex<T>| #[trigger] mutex.locks_to(guard) ==> mutex.locks_to(woken),
            exists|place: &mut T, held: bool|
                {
                    &&& #[trigger] call_ensures(condition, (place,), held)
                    &&& forall|mutex: &Mutex<T>| #[trigger]
                        mutex.locks_to(guard) ==> mutex.may_hold(*place)
                    &&& *final(place) == *woken.value()
                    &&& held ==> have_run_out()
                },
    {
        let mut current = guard;
        let mut ask = condition;
        let mut wakeups = Wakeups::new();
        loop
            invariant
                ask == condition,
                forall|place: &mut T| #[trigger] call_requires(condition, (place,)),
                forall|mutex: &Mutex<T>| #[trigger]
                    mutex.locks_to(guard) ==> mutex.locks_to(current),
            decreases wakeups.left(),
        {
            let ghost looking = current;
            let held = ask(current.place());
            assert forall|mutex: &Mutex<T>| #[trigger] mutex.locks_to(guard) implies {
                &&& mutex.may_hold(*looking.value())
                &&& mutex.locks_to(current)
            } by {
                assert(mutex.locks_to(looking));
            }
            if !held || wakeups.are_used_up() {
                return current;
            }
            let ghost waiting = current;
            current = wakeups.wait(self, current);
            assert forall|mutex: &Mutex<T>| #[trigger]
                mutex.locks_to(guard) implies mutex.locks_to(current) by {
                assert(mutex.locks_to(waiting));
            }
        }
    }

    /// Like [`Condvar::wait`], but waits no longer than `dur`.
    pub fn wait_timeout<'a, T>(&self, guard: MutexGuard<'a, T>, dur: Duration) -> (woken: (
        MutexGuard<'a, T>,
        WaitTimeoutResult,
    ))
        ensures
            forall|mutex: &Mutex<T>| #[trigger] mutex.locks_to(guard) ==> mutex.locks_to(woken.0),
            exists|result: LockResult<(std::sync::MutexGuard<'a, T>, WaitTimeoutResult)>| #[trigger]
                call_ensures(
                    std::sync::Condvar::wait_timeout::<T>,
                    (self.std_condvar(), guard.std_guard(), dur),
                    result,
                ) && unpoisoned(result, (woken.0.std_guard(), woken.1)),
    {
        let result = call3(std::sync::Condvar::wait_timeout::<T>, &self.inner, guard.inner, dur);
        assert(call_ensures(
            std::sync::Condvar::wait_timeout::<T>,
            (self.std_condvar(), guard.std_guard(), dur),
            result,
        ));
        let (inner, timeout) = ignore_poison(result);
        let woken = MutexGuard { inner };
        proof {
            woken_in_time_by_same_mutex(guard, result, woken, timeout);
        }
        (woken, timeout)
    }

    /// Like [`Condvar::wait_while`], but waits no longer than `dur`. Unless a thread has panicked
    /// while it held the mutex, the wait has timed out exactly if the condition still holds.
    pub fn wait_timeout_while<'a, T, F>(
        &self,
        guard: MutexGuard<'a, T>,
        dur: Duration,
        condition: F,
    ) -> (woken: (MutexGuard<'a, T>, WaitTimeoutResult)) where F: FnMut(&mut T) -> bool
        requires
            forall|place: &mut T| #[trigger] call_requires(condition, (place,)),
        ensures
            forall|mutex: &Mutex<T>| #[trigger]
                mutex.locks_to(guard) ==> {
                    &&& mutex.locks_to(woken.0)
                    &&& mutex.may_hold_poisoned(*woken.0.value()) || exists|
                        place: &mut T,
                        held: bool,
                    |
                        {
                            &&& #[trigger] call_ensures(condition, (place,), held)
                            &&& *final(place) == *woken.0.value()
                            &&& tells(woken.1, held)
                        }
                },
            exists|result: LockResult<(std::sync::MutexGuard<'a, T>, WaitTimeoutResult)>| #[trigger]
                call_ensures(
                    std::sync::Condvar::wait_timeout_while::<T, F>,
                    (self.std_condvar(), guard.std_guard(), dur, condition),
                    result,
                ) && unpoisoned(result, (woken.0.std_guard(), woken.1)),
    {
        let result = call4(
            std::sync::Condvar::wait_timeout_while::<T, F>,
            &self.inner,
            guard.inner,
            dur,
            condition,
        );
        assert(call_ensures(
            std::sync::Condvar::wait_timeout_while::<T, F>,
            (self.std_condvar(), guard.std_guard(), dur, condition),
            result,
        ));
        let (inner, timeout) = ignore_poison(result);
        let woken = MutexGuard { inner };
        proof {
            woken_in_time_by_same_mutex(guard, result, woken, timeout);
        }
        (woken, timeout)
    }

    /// Whether one of the threads that wait on this condition variable, if there are any, has been
    /// woken by [`std::sync::Condvar::notify_one`].
    pub open spec fn has_notified_one(&self) -> bool {
        call_ensures(std::sync::Condvar::notify_one, (self.std_condvar(),), ())
    }

    /// Whether all threads that wait on this condition variable have been woken by
    /// [`std::sync::Condvar::notify_all`].
    pub open spec fn has_notified_all(&self) -> bool {
        call_ensures(std::sync::Condvar::notify_all, (self.std_condvar(),), ())
    }

    /// Wakes one of the threads that wait on this condition variable, if there are any.
    pub fn notify_one(&self)
        ensures
            self.has_notified_one(),
    {
        call1(std::sync::Condvar::notify_one, &self.inner)
    }

    /// Wakes all threads that wait on this condition variable.
    pub fn notify_all(&self)
        ensures
            self.has_notified_all(),
    {
        call1(std::sync::Condvar::notify_all, &self.inner)
    }
}

impl Default for Condvar {
    fn default() -> (condvar: Self)
        ensures
            call_ensures(std::sync::Condvar::new, (), *condvar.std_condvar()),
    {
        Condvar::new()
    }
}

/// [`std::sync::RwLock::new`]: makes an unlocked lock that holds `t`.
pub assume_specification<T>[ std::sync::RwLock::<T>::new ](t: T) -> std::sync::RwLock<T>;

/// [`std::sync::RwLock::read`]: blocks until the lock can be shared. Which value the guard then
/// shows is not claimed. The documentation lets a call panic when the calling thread already holds the
/// lock.
pub assume_specification<T: ?Sized>[ std::sync::RwLock::<T>::read ](
    lock: &std::sync::RwLock<T>,
) -> LockResult<std::sync::RwLockReadGuard<'_, T>>;

/// [`std::sync::RwLock::try_read`]: shares the lock if that is possible at once. Whether it is
/// depends on the other threads.
pub assume_specification<T: ?Sized>[ std::sync::RwLock::<T>::try_read ](
    lock: &std::sync::RwLock<T>,
) -> std::sync::TryLockResult<std::sync::RwLockReadGuard<'_, T>>;

/// [`std::sync::RwLock::write`]: blocks until the lock can be taken exclusively. Which value the
/// guard then shows is not claimed. The documentation lets a call panic when the calling thread already
/// holds the lock.
pub assume_specification<T: ?Sized>[ std::sync::RwLock::<T>::write ](
    lock: &std::sync::RwLock<T>,
) -> LockResult<std::sync::RwLockWriteGuard<'_, T>>;

/// [`std::sync::RwLock::try_write`]: takes the lock exclusively if that is possible at once.
/// Whether it is depends on the other threads.
pub assume_specification<T: ?Sized>[ std::sync::RwLock::<T>::try_write ](
    lock: &std::sync::RwLock<T>,
) -> std::sync::TryLockResult<std::sync::RwLockWriteGuard<'_, T>>;

/// [`std::sync::RwLock::get_mut`]: borrows the contents through an exclusive borrow of the lock.
pub assume_specification<T: ?Sized>[ std::sync::RwLock::<T>::get_mut ](
    lock: &mut std::sync::RwLock<T>,
) -> LockResult<&mut T>;

/// [`std::sync::RwLock::into_inner`]: gives the contents back. Which value that is was decided by
/// the last thread to hold the lock exclusively.
#[verifier::external_body]
fn rwlock_into_inner<T>(lock: std::sync::RwLock<T>) -> LockResult<T> {
    lock.into_inner()
}

/// Whether `guard` may come from taking `lock` exclusively, poisoned or not.
pub open spec fn guards_exclusively<T: ?Sized>(
    lock: &std::sync::RwLock<T>,
    guard: std::sync::RwLockWriteGuard<'_, T>,
) -> bool {
    exists|result: LockResult<std::sync::RwLockWriteGuard<'_, T>>| #[trigger]
        call_ensures(std::sync::RwLock::<T>::write, (lock,), result) && unpoisoned(result, guard)
}

/// Whether `after` is an exclusive guard of every lock that `before` is an exclusive guard of.
pub open spec fn still_guards_exclusively<T: ?Sized>(
    before: std::sync::RwLockWriteGuard<'_, T>,
    after: std::sync::RwLockWriteGuard<'_, T>,
) -> bool {
    forall|lock: &std::sync::RwLock<T>| #[trigger]
        guards_exclusively(lock, before) ==> guards_exclusively(lock, after)
}

/// A reader-writer lock that is never poisoned.
#[derive(Debug)]
#[verifier::reject_recursive_types(T)]
pub struct RwLock<T: ?Sized> {
    inner: std::sync::RwLock<T>,
}

impl<T: ?Sized> RwLock<T> {
    /// The standard library's lock that does the locking.
    pub closed spec fn std_rwlock(&self) -> &std::sync::RwLock<T> {
        &self.inner
    }

    /// Whether `guard` may come from taking this lock exclusively: it is what
    /// [`std::sync::RwLock::write`] gives for it, poisoned or not.
    pub open spec fn locks_to(&self, guard: RwLockWriteGuard<'_, T>) -> bool {
        guards_exclusively(self.std_rwlock(), guard.std_guard())
    }
}

impl<T> RwLock<T> {
    /// Whether this lock may come from [`RwLock::new`] with `t`.
    pub open spec fn made_from(&self, t: T) -> bool {
        call_ensures(std::sync::RwLock::<T>::new, (t,), *self.std_rwlock())
    }

    /// Whether unwrapping this lock may give `t`: it is what [`std::sync::RwLock::into_inner`]
    /// gives for it, poisoned or not.
    pub closed spec fn opens_to(self, t: T) -> bool {
        exists|result: LockResult<T>| #[trigger]
            call_ensures(rwlock_into_inner::<T>, (self.inner,), result) && unpoisoned(result, t)
    }

    /// Creates an unlocked lock that holds `t`.
    pub fn new(t: T) -> (lock: RwLock<T>)
        ensures
            lock.made_from(t),
    {
        Self { inner: call1(std::sync::RwLock::<T>::new, t) }
    }
}

impl<T: ?Sized> RwLock<T> {
    /// Blocks until the lock can be shared with other readers, and shares it.
    pub fn read(&self) -> (guard: RwLockReadGuard<'_, T>)
        ensures
            exists|result: LockResult<std::sync::RwLockReadGuard<'_, T>>| #[trigger]
                call_ensures(std::sync::RwLock::<T>::read, (self.std_rwlock(),), result)
                    && unpoisoned(result, guard.std_guard()),
    {
        let result = call1(std::sync::RwLock::<T>::read, &self.inner);
        assert(call_ensures(std::sync::RwLock::<T>::read, (self.std_rwlock(),), result));
        RwLockReadGuard { inner: ignore_poison(result) }
    }

    /// Shares the lock with other readers if that is possible without blocking.
    pub fn try_read(&self) -> (outcome: TryLockResult<RwLockReadGuard<'_, T>>)
        ensures
            exists|result: std::sync::TryLockResult<std::sync::RwLockReadGuard<'_, T>>| #[trigger]
                call_ensures(std::sync::RwLock::<T>::try_read, (self.std_rwlock(),), result)
                    && unpoisoned_try(
                    result,
                    match outcome {
                        Ok(guard) => Ok(guard.std_guard()),
                        Err(error) => Err(error),
                    },
                ),
    {
        let result = call1(std::sync::RwLock::<T>::try_read, &self.inner);
        assert(call_ensures(std::sync::RwLock::<T>::try_read, (self.std_rwlock(),), result));
        match ignore_poison_try(result) {
            Ok(inner) => Ok(RwLockReadGuard { inner }),
            Err(error) => Err(error),
        }
    }

    /// Blocks until the lock can be taken exclusively, and takes it.
    pub fn write(&self) -> (guard: RwLockWriteGuard<'_, T>)
        ensures
            self.locks_to(guard),
    {
        let result = call1(std::sync::RwLock::<T>::write, &self.inner);
        assert(call_ensures(std::sync::RwLock::<T>::write, (self.std_rwlock(),), result));
        RwLockWriteGuard { inner: ignore_poison(result) }
    }

    /// Takes the lock exclusively if that is possible without blocking.
    pub fn try_write(&self) -> (outcome: TryLockResult<RwLockWriteGuard<'_, T>>)
        ensures
            exists|result: std::sync::TryLockResult<std::sync::RwLockWriteGuard<'_, T>>| #[trigger]
                call_ensures(std::sync::RwLock::<T>::try_write, (self.std_rwlock(),), result)
                    && unpoisoned_try(
                    result,
                    match outcome {
                        Ok(guard) => Ok(guard.std_guard()),
                        Err(error) => Err(error),
                    },
                ),
    {
        let result = call1(std::sync::RwLock::<T>::try_write, &self.inner);
        assert(call_ensures(std::sync::RwLock::<T>::try_write, (self.std_rwlock(),), result));
        match ignore_poison_try(result) {
            Ok(inner) => Ok(RwLockWriteGuard { inner }),
            Err(error) => Err(error),
        }
    }

    /// Consumes the lock and returns what it holds.
    pub fn into_inner(self) -> (t: T) where T: Sized
        ensures
            self.opens_to(t),
    {
        ignore_poison(call1(rwlock_into_inner::<T>, self.inner))
    }

    /// Borrows what the lock holds. No locking is needed, since the lock is borrowed exclusively.
    pub fn get_mut(&mut self) -> (t: &mut T)
        ensures
            exists|lock: &mut std::sync::RwLock<T>, result: LockResult<&mut T>, place: &mut T|
                {
                    &&& &*lock == old(self).std_rwlock()
                    &&& &*final(lock) == final(self).std_rwlock()
                    &&& #[trigger] call_ensures(std::sync::RwLock::<T>::get_mut, (lock,), result)
                    &&& #[trigger] unpoisoned(result, place)
                    &&& &*place == &*t
                    &&& &*final(place) == &*final(t)
                },
    {
        ignore_poison(call1(std::sync::RwLock::<T>::get_mut, &mut self.inner))
    }
}

impl<T> From<T> for RwLock<T> {
    fn from(value: T) -> (lock: Self)
        ensures
            lock.made_from(value),
    {
        RwLock::new(value)
    }
}

/// The conversion is no function of the value alone: two locks made from one value are two locks.
impl<T> vstd::std_specs::convert::FromSpecImpl<T> for RwLock<T> {
    open spec fn obeys_from_spec() -> bool {
        false
    }

    open spec fn from_spec(value: T) -> Self {
        arbitrary()
    }
}

impl<T: Default> Default for RwLock<T> {
    fn default() -> (lock: Self)
        ensures
            exists|value: T| #[trigger] call_ensures(T::default, (), value) && lock.made_from(value),
    {
        RwLock::new(call0(T::default))
    }
}

/// Shared access to what a [`RwLock`] holds. Dropping the guard gives the share back.
#[derive(Debug)]
#[verifier::reject_recursive_types(T)]
pub struct RwLockReadGuard<'a, T: ?Sized> {
    inner: std::sync::RwLockReadGuard<'a, T>,
}

impl<'a, T: ?Sized> RwLockReadGuard<'a, T> {
    /// The standard library's guard.
    pub closed spec fn std_guard(self) -> std::sync::RwLockReadGuard<'a, T> {
        self.inner
    }

    /// What the lock holds while this guard shares it.
    pub open spec fn value(&self) -> &T {
        target(&self.std_guard())
    }
}

/// Reads through [`std::sync::RwLockReadGuard`] (its `Deref`): the reference shows what the lock
/// holds.
#[verifier::external_body]
fn read_guard_ref<'a, 'b, T: ?Sized>(guard: &'b std::sync::RwLockReadGuard<'a, T>) -> (place:
    &'b T)
    ensures
        place == target(guard),
{
    guard.deref()
}

impl<'a, T: ?Sized> Deref for RwLockReadGuard<'a, T> {
    type Target = T;

    fn deref(&self) -> (place: &Self::Target)
        ensures
            place == self.value(),
    {
        read_guard_ref(&self.inner)
    }
}

/// Exclusive access to what a [`RwLock`] holds. Dropping the guard unlocks the lock.
#[derive(Debug)]
#[verifier::reject_recursive_types(T)]
pub struct RwLockWriteGuard<'a, T: ?Sized + 'a> {
    inner: std::sync::RwLockWriteGuard<'a, T>,
}

impl<'a, T: ?Sized + 'a> RwLockWriteGuard<'a, T> {
    /// The standard library's guard.
    pub closed spec fn std_guard(self) -> std::sync::RwLockWriteGuard<'a, T> {
        self.inner
    }

    /// What the lock holds while this guard has it.
    pub open spec fn value(&self) -> &T {
        target(&self.std_guard())
    }
}

/// Reads through [`std::sync::RwLockWriteGuard`] (its `Deref`): the reference shows what the lock
/// holds.
#[verifier::external_body]
fn write_guard_ref<'a, 'b, T: ?Sized>(guard: &'b std::sync::RwLockWriteGuard<'a, T>) -> (place:
    &'b T)
    ensures
        place == target(guard),
{
    guard.deref()
}

/// Writes through [`std::sync::RwLockWriteGuard`] (its `DerefMut`): the reference starts at what
/// the lock holds, and the guard ends up showing whatever was last written to the reference. It
/// remains a guard of the same lock.
#[verifier::external_body]
fn write_guard_mut<'a, 'b, T: ?Sized>(guard: &'b mut std::sync::RwLockWriteGuard<'a, T>) -> (place:
    &'b mut T)
    ensures
        &*place == target(&*old(guard)),
        target(&*final(guard)) == &*final(place),
        still_guards_exclusively(*old(guard), *final(guard)),
{
    guard.deref_mut()
}

impl<'a, T: ?Sized + 'a> Deref for RwLockWriteGuard<'a, T> {
    type Target = T;

    fn deref(&self) -> (place: &Self::Target)
        ensures
            place == self.value(),
    {
        write_guard_ref(&self.inner)
    }
}

impl<'a, T: ?Sized + 'a> DerefMut for RwLockWriteGuard<'a, T> {
    fn deref_mut(&mut self) -> (place: &mut Self::Target)
        ensures
            &*place == old(self).value(),
            final(self).value() == &*final(place),
            forall|lock: &RwLock<T>| #[trigger]
                lock.locks_to(*old(self)) ==> lock.locks_to(*final(self)),
    {
        write_guard_mut(&mut self.inner)
    }
}

/// A lock is handed out whether or not it is poisoned: taking one without poison changes nothing, and
/// from a poisoned one the guard is taken out of the error.
pub proof fn poison_is_ignored<G>(result: LockResult<G>, guard: G)
    requires
        call_ensures(ignore_poison::<G>, (result,), guard),
    ensures
        result matches Ok(free) ==> guard == free,
        result matches Err(poison) ==> call_ensures(
            std::sync::PoisonError::<G>::into_inner,
            (poison,),
            guard,
        ),
{
}

/// An attempt to lock fails exactly where it would have had to block. It succeeds with the guard
/// otherwise, whether or not the lock is poisoned.
pub proof fn attempt_fails_iff_it_would_block<G>(
    result: std::sync::TryLockResult<G>,
    outcome: TryLockResult<G>,
)
    requires
        call_ensures(ignore_poison_try::<G>, (result,), outcome),
    ensures
        outcome is Err <==> (result matches Err(std::sync::TryLockError::WouldBlock)),
        result matches Ok(free) ==> outcome == Ok::<G, TryLockError>(free),
        result matches Err(std::sync::TryLockError::Poisoned(poison)) ==> call_ensures(
            std::sync::PoisonError::<G>::into_inner,
            (poison,),
            outcome->Ok_0,
        ),
{
}

/// Locking a mutex gives the guard of that very mutex, poisoned or not.
pub proof fn mutex_is_locked_poisoned_or_not<T: ?Sized>(
    lock: &Mutex<T>,
    guard: MutexGuard<'_, T>,
)
    requires
        call_ensures(Mutex::<T>::lock, (lock,), guard),
    ensures
        exists|result: LockResult<std::sync::MutexGuard<'_, T>>|
            {
                &&& #[trigger] call_ensures(
                    std::sync::Mutex::<T>::lock,
                    (lock.std_mutex(),),
                    result,
                )
                &&& result matches Ok(free) ==> guard.std_guard() == free
                &&& result matches Err(poison) ==> call_ensures(
                    std::sync::PoisonError::<std::sync::MutexGuard<'_, T>>::into_inner,
                    (poison,),
                    guard.std_guard(),
                )
            },
{
    let result = choose|result: LockResult<std::sync::MutexGuard<'_, T>>| #[trigger]
        lock_gives(lock.std_mutex(), result) && unpoisoned(result, guard.std_guard());
    assert(call_ensures(std::sync::Mutex::<T>::lock, (lock.std_mutex(),), result));
}

/// An attempt to lock a mutex fails exactly where the mutex is taken.
pub proof fn mutex_is_taken_unless_that_blocks<T: ?Sized>(
    lock: &Mutex<T>,
    outcome: TryLockResult<MutexGuard<'_, T>>,
)
    requires
        call_ensures(Mutex::<T>::try_lock, (lock,), outcome),
    ensures
        exists|result: std::sync::TryLockResult<std::sync::MutexGuard<'_, T>>|
            {
                &&& #[trigger] call_ensures(
                    std::sync::Mutex::<T>::try_lock,
                    (lock.std_mutex(),),
                    result,
                )
                &&& outcome is Err <==> (result matches Err(std::sync::TryLockError::WouldBlock))
                &&& result matches Ok(free) ==> outcome->Ok_0.std_guard() == free
                &&& result matches Err(std::sync::TryLockError::Poisoned(poison)) ==> call_ensures(
                    std::sync::PoisonError::<std::sync::MutexGuard<'_, T>>::into_inner,
                    (poison,),
                    outcome->Ok_0.std_guard(),
                )
            },
{
}

/// Sharing a lock gives a guard of that very lock, poisoned or not.
pub proof fn rwlock_is_shared_poisoned_or_not<T: ?Sized>(
    lock: &RwLock<T>,
    guard: RwLockReadGuard<'_, T>,
)
    requires
        call_ensures(RwLock::<T>::read, (lock,), guard),
    ensures
        exists|result: LockResult<std::sync::RwLockReadGuard<'_, T>>|
            {
                &&& #[trigger] call_ensures(
                    std::sync::RwLock::<T>::read,
                    (lock.std_rwlock(),),
                    result,
                )
                &&& result matches Ok(free) ==> guard.std_guard() == free
                &&& result matches Err(poison) ==> call_ensures(
                    std::sync::PoisonError::<std::sync::RwLockReadGuard<'_, T>>::into_inner,
                    (poison,),
                    guard.std_guard(),
                )
            },
{
}

/// An attempt to share a lock fails exactly where that would block.
pub proof fn rwlock_is_shared_unless_that_blocks<T: ?Sized>(
    lock: &RwLock<T>,
    outcome: TryLockResult<RwLockReadGuard<'_, T>>,
)
    requires
        call_ensures(RwLock::<T>::try_read, (lock,), outcome),
    ensures
        exists|result: std::sync::TryLockResult<std::sync::RwLockReadGuard<'_, T>>|
            {
                &&& #[trigger] call_ensures(
                    std::sync::RwLock::<T>::try_read,
                    (lock.std_rwlock(),),
                    result,
                )
                &&& outcome is Err <==> (result matches Err(std::sync::TryLockError::WouldBlock))
                &&& result matches Ok(free) ==> outcome->Ok_0.std_guard() == free
                &&& result matches Err(std::sync::TryLockError::Poisoned(poison)) ==> call_ensures(
                    std::sync::PoisonError::<std::sync::RwLockReadGuard<'_, T>>::into_inner,
                    (poison,),
                    outcome->Ok_0.std_guard(),
                )
            },
{
}

/// Taking a lock exclusively gives the guard of that very lock, poisoned or not.
pub proof fn rwlock_is_taken_poisoned_or_not<T: ?Sized>(
    lock: &RwLock<T>,
    guard: RwLockWriteGuard<'_, T>,
)
    requires
        call_ensures(RwLock::<T>::write, (lock,), guard),
    ensures
        exists|result: LockResult<std::sync::RwLockWriteGuard<'_, T>>|
            {
                &&& #[trigger] call_ensures(
                    std::sync::RwLock::<T>::write,
                    (lock.std_rwlock(),),
                    result,
                )
                &&& result matches Ok(free) ==> guard.std_guard() == free
                &&& result matches Err(poison) ==> call_ensures(
                    std::sync::PoisonError::<std::sync::RwLockWriteGuard<'_, T>>::into_inner,
                    (poison,),
                    guard.std_guard(),
                )
            },
{
}

/// An attempt to take a lock exclusively fails exactly where that would block.
pub proof fn rwlock_is_taken_unless_that_blocks<T: ?Sized>(
    lock: &RwLock<T>,
    outcome: TryLockResult<RwLockWriteGuard<'_, T>>,
)
    requires
        call_ensures(RwLock::<T>::try_write, (lock,), outcome),
    ensures
        exists|result: std::sync::TryLockResult<std::sync::RwLockWriteGuard<'_, T>>|
            {
                &&& #[trigger] call_ensures(
                    std::sync::RwLock::<T>::try_write,
                    (lock.std_rwlock(),),
                    result,
                )
                &&& outcome is Err <==> (result matches Err(std::sync::TryLockError::WouldBlock))
                &&& result matches Ok(free) ==> outcome->Ok_0.std_guard() == free
                &&& result matches Err(std::sync::TryLockError::Poisoned(poison)) ==> call_ensures(
                    std::sync::PoisonError::<std::sync::RwLockWriteGuard<'_, T>>::into_inner,
                    (poison,),
                    outcome->Ok_0.std_guard(),
                )
            },
{
}

/// Waiting ends with the guard that the standard library gives for this very condition variable and
/// this very guard, poisoned or not, and a wait with a time limit is handed that very limit.
pub proof fn wait_ends_poisoned_or_not<'a, T>(
    condvar: &Condvar,
    guard: MutexGuard<'a, T>,
    woken: MutexGuard<'a, T>,
    dur: Duration,
    woken_in_time: (MutexGuard<'a, T>, WaitTimeoutResult),
)
    requires
        call_ensures(Condvar::wait::<T>, (condvar, guard), woken),
        call_ensures(Condvar::wait_timeout::<T>, (condvar, guard, dur), woken_in_time),
    ensures
        exists|result: LockResult<std::sync::MutexGuard<'a, T>>|
            {
                &&& #[trigger] call_ensures(
                    std::sync::Condvar::wait::<T>,
                    (condvar.std_condvar(), guard.std_guard()),
                    result,
                )
                &&& result matches Ok(free) ==> woken.std_guard() == free
                &&& result matches Err(poison) ==> call_ensures(
                    std::sync::PoisonError::<std::sync::MutexGuard<'a, T>>::into_inner,
                    (poison,),
                    woken.std_guard(),
                )
            },
        exists|result: LockResult<(std::sync::MutexGuard<'a, T>, WaitTimeoutResult)>|
            {
                &&& #[trigger] call_ensures(
                    std::sync::Condvar::wait_timeout::<T>,
                    (condvar.std_condvar(), guard.std_guard(), dur),
                    result,
                )
                &&& result matches Ok(free) ==> (woken_in_time.0.std_guard(), woken_in_time.1) == free
                &&& result matches Err(poison) ==> call_ensures(
                    std::sync::PoisonError::<
                        (std::sync::MutexGuard<'a, T>, WaitTimeoutResult),
                    >::into_inner,
                    (poison,),
                    (woken_in_time.0.std_guard(), woken_in_time.1),
                )
            },
{
}

} // verus!
