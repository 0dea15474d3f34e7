//! Isochronous data processing on thread pools.
//!
//! This module provides the [`IsochronousProcessor`], a thread pool that performs processing jobs
//! while ensuring that the wall-clock pacing of output messages matches that of the input messages.
//!
//! The primary use cases that [`IsochronousProcessor`] was built for was for image processing on
//! video streams.
//!
//! Times are nanoseconds since some fixed point that the owner chooses. Reading the clock, sleeping,
//! and starting and joining threads is up to the functions that the owner passes in. Which job comes
//! next, and how long its result has to be held back, is up to the [`Schedule`].

use std::collections::VecDeque;

use crossbeam_channel::{bounded, Receiver, RecvError, SendError, Sender, TrySendError};
use vstd::prelude::*;

use crate::call::{call0, call1, call2, call3, call4, call5};
use crate::channel::has_hung_up;
use crate::promise::{promise, Promise, PromiseDropped, PromiseHandle, PromiseState};
use crate::worker::{
    all_joined, decimal, set_is_spawned, spawns_all, Unsent, WorkerSet, WorkerSetBuilder,
    WorkerSetLoop, WorkerSetTask,
};

verus! {

/// A job that has been submitted, and whose result has not been yielded yet.
pub struct Job<T> {
    /// By which the result of the job can be fetched.
    pub handle: T,
    /// When was the value of the job submitted to the processor?
    pub submitted: u64,
}

/// A value that was yielded to the owner.
#[derive(Debug, Clone, Copy, PartialEq, Eq, Structural)]
pub struct Yield {
    /// When was the value yielded?
    pub at: u64,
    /// When was the value that it was computed from submitted?
    pub submitted: u64,
}

/// What a [`Schedule`] has to keep track of.
pub struct Progress<T> {
    /// The jobs in progress, the oldest one first.
    pub jobs: Seq<Job<T>>,
    /// The last value that was yielded.
    pub last_yield: Option<Yield>,
}

impl<T> Progress<T> {
    /// Nothing has been submitted, and nothing has been yielded.
    pub open spec fn idle() -> Progress<T> {
        Progress { jobs: Seq::empty(), last_yield: None }
    }

    /// How things stand after a job was submitted at the time `now`.
    pub open spec fn submitted(self, handle: T, now: u64) -> Progress<T> {
        Progress { jobs: self.jobs.push(Job { handle, submitted: now }), ..self }
    }

    /// How things stand after the oldest job was taken.
    pub open spec fn taken(self) -> Progress<T> {
        Progress { jobs: self.jobs.drop_first(), ..self }
    }

    /// How things stand after the result of a job was yielded at the time `at`.
    pub open spec fn yielded(self, submitted: u64, at: u64) -> Progress<T> {
        Progress { last_yield: Some(Yield { at, submitted }), ..self }
    }
}

/// The time between the submissions of two values, which has to pass between their results. It is
/// nothing if the clock has gone backwards.
pub open spec fn pace(earlier: u64, later: u64) -> u64 {
    if earlier <= later {
        (later - earlier) as u64
    } else {
        0
    }
}

/// How long the result of a value that was submitted at `submitted` has to be held back at the time
/// `now`, if `last` was the value yielded before it.
pub open spec fn delay(last: Yield, submitted: u64, now: u64) -> u128 {
    let due = last.at + pace(last.submitted, submitted);
    if now < due {
        (due - now) as u128
    } else {
        0
    }
}

/// The jobs in progress, and when to yield their results.
///
/// A value is held back until as much time has passed since the last yielded value as had passed
/// between their submissions. That takes into account the jobs in between that never yielded a value,
/// because they have panicked.
pub struct Schedule<T> {
    in_progress: VecDeque<Job<T>>,
    last_yield: Option<Yield>,
}

impl<T> View for Schedule<T> {
    type V = Progress<T>;

    closed spec fn view(&self) -> Progress<T> {
        Progress { jobs: self.in_progress@, last_yield: self.last_yield }
    }
}

impl<T> Schedule<T> {
    /// No job has been submitted, and no value has been yielded.
    pub fn new() -> (schedule: Self)
        ensures
            schedule@ == Progress::<T>::idle(),
    {
        Schedule { in_progress: VecDeque::new(), last_yield: None }
    }

    /// Takes note of a job that was submitted at the time `now`.
    pub fn submitted(&mut self, handle: T, now: u64)
        ensures
            final(self)@ == old(self)@.submitted(handle, now),
    {
        self.in_progress.push_back(Job { handle, submitted: now });
    }

    /// The oldest job in progress.
    pub fn oldest(&self) -> (handle: Option<&T>)
        ensures
            match handle {
                None => self@.jobs.len() == 0,
                Some(handle) => self@.jobs.len() > 0 && *handle == self@.jobs[0].handle,
            },
    {
        if self.in_progress.len() == 0 {
            None
        } else {
            Some(&self.in_progress[0].handle)
        }
    }

    /// Takes the oldest job in progress.
    pub fn take(&mut self) -> (job: Option<Job<T>>)
        ensures
            match job {
                None => old(self)@.jobs.len() == 0 && final(self)@ == old(self)@,
                Some(job) => old(self)@.jobs.len() > 0 && job == old(self)@.jobs[0]
                    && final(self)@ == old(self)@.taken(),
            },
    {
        self.in_progress.pop_front()
    }

    /// How long to hold back the result of a job that was submitted at `submitted`, at the time `now`.
    /// There is nothing to wait for if it is the first value that is yielded.
    pub fn delay(&self, submitted: u64, now: u64) -> (wait: Option<u128>)
        ensures
            wait == match self@.last_yield {
                Some(last) => Some(delay(last, submitted, now)),
                None => None,
            },
    {
        match self.last_yield {
            Some(last) => {
                let pace: u64 = submitted.saturating_sub(last.submitted);
                let due: u128 = last.at as u128 + pace as u128;
                Some(due.saturating_sub(now as u128))
            },
            None => None,
        }
    }

    /// Takes note that the result of a job that was submitted at `submitted` was yielded at the time
    /// `at`.
    pub fn yielded(&mut self, submitted: u64, at: u64)
        ensures
            final(self)@ == old(self)@.yielded(submitted, at),
    {
        self.last_yield = Some(Yield { at, submitted });
    }
}

/// Processes messages on a thread pool, while retaining order and pacing in the stream of results.
///
/// This can be used for real-time (in the "synchronized with wall-clock time" meaning of the word,
/// not "kills people when it goes wrong") multi-threaded data processing (for when a single thread
/// has insufficient throughput to match requirements).
#[verifier::reject_recursive_types(I)]
#[verifier::reject_recursive_types(O)]
pub struct IsochronousProcessor<I, O, H> {
    workers: WorkerSet<(I, Promise<O>), H>,
    schedule: Schedule<PromiseHandle<O>>,
}

impl IsochronousProcessor<(), (), ()> {
    /// Returns a builder that can be used to configure and spawn an [`IsochronousProcessor`].
    pub fn builder() -> (builder: IsochronousProcessorBuilder)
        ensures
            builder.spec_name() is None,
    {
        IsochronousProcessorBuilder { name: None }
    }
}

impl<I, O, H> IsochronousProcessor<I, O, H> {
    /// The threads that process the values.
    pub closed spec fn workers(&self) -> WorkerSet<(I, Promise<O>), H> {
        self.workers
    }

    /// The jobs in progress, and when values were submitted and yielded.
    pub closed spec fn progress(&self) -> Progress<PromiseHandle<O>> {
        self.schedule@
    }

    /// Whether the threads are still there to process values.
    pub fn is_open(&self) -> (open: bool)
        ensures
            open == (self.workers().sender() is Some),
    {
        self.workers.is_open()
    }

    /// Closes the channel to the threads and joins them, and returns the payload of a panic that
    /// has to be propagated.
    ///
    /// This has to happen before an [`IsochronousProcessor`] is let go of. `join` joins a thread,
    /// and may rely on the channel having been closed. `panicking` tells whether the calling thread
    /// is panicking.
    pub fn close<P, J: Fn(H) -> Result<(), P>, Q: FnOnce() -> bool>(
        &mut self,
        join: J,
        panicking: Q,
    ) -> (payload: Option<P>)
        requires
            has_hung_up(old(self).workers().sender()) ==> forall|handle: H| #[trigger]
                call_requires(join, (handle,)),
            call_requires(panicking, ()),
        ensures
            final(self).progress() == old(self).progress(),
            has_hung_up(old(self).workers().sender()),
            final(self).workers().sender() is None,
            old(self).workers().gives_up(&final(self).workers(), join, panicking, payload),
    {
        self.workers.close(join, panicking)
    }

    /// Submits a value to be processed, and returns a processed result if one is available.
    ///
    /// This will block until a thread is available to process the value.
    ///
    /// If no processed value is available, no further blocking occurs and [`None`] is returned.
    ///
    /// If a value *is* available, this method may block, so that two subsequent values are always
    /// returned with at least as much time between them as the inputs from which they were
    /// computed.
    ///
    /// Note that `exchange` can potentially yield the processed result of the `value` submitted in
    /// the *same call*, if the processing is simple enough.
    ///
    /// `clock` and `rest` are as in [`Self::block`], and `join` and `panicking` are as in
    /// [`Self::submit`].
    pub fn exchange<
        P,
        C: Fn() -> u64,
        S: FnOnce(u64, u128) -> u64,
        J: Fn(H) -> Result<(), P>,
        Q: FnOnce() -> bool,
    >(&mut self, value: I, clock: C, rest: S, join: J, panicking: Q) -> (result: Result<
        Option<O>,
        Option<P>,
    >)
        requires
            old(self).workers().sender() is Some,
            call_requires(clock, ()),
            forall|now: u64, wait: u128| #[trigger] call_requires(rest, (now, wait)),
            has_hung_up(old(self).workers().sender()) ==> forall|handle: H| #[trigger]
                call_requires(join, (handle,)),
            forall|promise: Promise<O>, error: SendError<(I, Promise<O>)>, handle: H|
                #[trigger] call_ensures(
                    Sender::<(I, Promise<O>)>::send,
                    (&old(self).workers().sender()->0, (value, promise)),
                    Err(error),
                ) ==> #[trigger] call_requires(join, (handle,)),
            call_requires(panicking, ()),
        ensures
            exists|this: &mut Self, now: u64, submitted: Result<(), Option<P>>|
                {
                    &&& *this == *old(self)
                    &&& call_ensures(clock, (), now)
                    &&& #[trigger] call_ensures(
                        Self::submit::<P, J, Q>,
                        (this, value, now, join, panicking),
                        submitted,
                    )
                    &&& match submitted {
                        Err(payload) => {
                            &&& result == Err::<Option<O>, Option<P>>(payload)
                            &&& *final(self) == *final(this)
                        },
                        Ok(()) => exists|busy: bool|
                            {
                                &&& #[trigger] call_ensures(
                                    PromiseHandle::<O>::will_block,
                                    (&final(this).progress().jobs[0].handle,),
                                    busy,
                                )
                                &&& result matches Ok(output)
                                &&& if busy {
                                    output is None && *final(self) == *final(this)
                                } else {
                                    &&& final(self).workers() == final(this).workers()
                                    &&& final(this).releases(
                                        final(this).progress().jobs[0],
                                        clock,
                                        rest,
                                        final(self),
                                        output,
                                    )
                                }
                            },
                    }
                },
    {
        let now: u64 = call0(&clock);
        let submitted = call5(Self::submit::<P, J, Q>, &mut *self, value, now, join, panicking);
        match submitted {
            Err(payload) => {
                return Err(payload);
            },
            Ok(()) => {},
        }
        // Now check if the oldest job is finished, and yield it if so.
        if self.is_oldest_busy() {
            // Not done yet.
            return Ok(None);
        }
        Ok(self.block(clock, rest))
    }

    /// Submits a new value for processing, blocking until a thread is available to accept it.
    ///
    /// [`Self::block`] can then be used to retrieve the results of the processing operation.
    ///
    /// Note that calling `submit` without also calling [`Self::block`] (or another method that
    /// retrieves the results of the processing) approximately the same number of times will queue
    /// up jobs indefinitely and leak memory. [`Self::exchange`] may be used as a convenience
    /// wrapper that always attempts to retrieve a processed value.
    ///
    /// `now` is the time at which this is called. If the threads have exited, this fails as
    /// [`WorkerSet::send`] does.
    pub fn submit<P, J: Fn(H) -> Result<(), P>, Q: FnOnce() -> bool>(
        &mut self,
        value: I,
        now: u64,
        join: J,
        panicking: Q,
    ) -> (result: Result<(), Option<P>>)
        requires
            old(self).workers().sender() is Some,
            has_hung_up(old(self).workers().sender()) ==> forall|handle: H| #[trigger]
                call_requires(join, (handle,)),
            forall|promise: Promise<O>, error: SendError<(I, Promise<O>)>, handle: H|
                #[trigger] call_ensures(
                    Sender::<(I, Promise<O>)>::send,
                    (&old(self).workers().sender()->0, (value, promise)),
                    Err(error),
                ) ==> #[trigger] call_requires(join, (handle,)),
            call_requires(panicking, ()),
        ensures
            exists|
                workers: &mut WorkerSet<(I, Promise<O>), H>,
                pair: (Promise<O>, PromiseHandle<O>),
            |
                {
                    &&& *workers == old(self).workers()
                    &&& *final(workers) == final(self).workers()
                    &&& #[trigger] call_ensures(promise::<O>, (), pair)
                    &&& #[trigger] call_ensures(
                        WorkerSet::<(I, Promise<O>), H>::send::<P, J, Q>,
                        (workers, (value, pair.0), join, panicking),
                        result,
                    )
                    &&& final(self).progress() == if result is Ok {
                        old(self).progress().submitted(pair.1, now)
                    } else {
                        old(self).progress()
                    }
                },
    {
        let (promise, handle) = call0(promise::<O>);
        let sent = call4(
            WorkerSet::<(I, Promise<O>), H>::send::<P, J, Q>,
            &mut self.workers,
            (value, promise),
            join,
            panicking,
        );
        if sent.is_ok() {
            self.schedule.submitted(handle, now);
        }
        sent
    }

    /// Tries to submit a new value for processing, returning an error when that would block.
    ///
    /// Also see [`Self::block`].
    ///
    /// `now` is the time at which this is called. If the threads have exited, this fails as
    /// [`WorkerSet::try_send`] does.
    pub fn try_submit<P, J: Fn(H) -> Result<(), P>, Q: FnOnce() -> bool>(
        &mut self,
        value: I,
        now: u64,
        join: J,
        panicking: Q,
    ) -> (result: Result<(), Unsent<I, P>>)
        requires
            old(self).workers().sender() is Some,
            has_hung_up(old(self).workers().sender()) ==> forall|handle: H| #[trigger]
                call_requires(join, (handle,)),
            forall|promise: Promise<O>, back: (I, Promise<O>), handle: H|
                #[trigger] call_ensures(
                    Sender::<(I, Promise<O>)>::try_send,
                    (&old(self).workers().sender()->0, (value, promise)),
                    Err(TrySendError::Disconnected(back)),
                ) ==> #[trigger] call_requires(join, (handle,)),
            call_requires(panicking, ()),
        ensures
            result matches Err(Unsent::Busy(back)) ==> back == value,
            exists|
                workers: &mut WorkerSet<(I, Promise<O>), H>,
                pair: (Promise<O>, PromiseHandle<O>),
                sent: Result<(), Unsent<(I, Promise<O>), P>>,
            |
                {
                    &&& *workers == old(self).workers()
                    &&& *final(workers) == final(self).workers()
                    &&& #[trigger] call_ensures(promise::<O>, (), pair)
                    &&& #[trigger] call_ensures(
                        WorkerSet::<(I, Promise<O>), H>::try_send::<P, J, Q>,
                        (workers, (value, pair.0), join, panicking),
                        sent,
                    )
                    &&& match sent {
                        Ok(()) => result is Ok,
                        Err(Unsent::Busy(_)) => result matches Err(Unsent::Busy(_)),
                        Err(Unsent::Exited(payload)) => result == Err::<(), Unsent<I, P>>(
                            Unsent::Exited(payload),
                        ),
                    }
                    &&& final(self).progress() == if result is Ok {
                        old(self).progress().submitted(pair.1, now)
                    } else {
                        old(self).progress()
                    }
                },
    {
        let (promise, handle) = call0(promise::<O>);
        let sent = call4(
            WorkerSet::<(I, Promise<O>), H>::try_send::<P, J, Q>,
            &mut self.workers,
            (value, promise),
            join,
            panicking,
        );
        match sent {
            Ok(()) => {
                self.schedule.submitted(handle, now);
                Ok(())
            },
            Err(Unsent::Busy((back, _))) => Err(Unsent::Busy(back)),
            Err(Unsent::Exited(payload)) => Err(Unsent::Exited(payload)),
        }
    }

    /// Blocks until the oldest submitted value has been processed, and returns it.
    ///
    /// Returns [`None`] if no processing jobs remain, or when the user-provided processing closure
    /// has panicked.
    ///
    /// `clock` tells the time. `rest` is told the time and how many nanoseconds to sleep from then
    /// on, and tells the time afterwards.
    pub fn block<C: Fn() -> u64, S: FnOnce(u64, u128) -> u64>(&mut self, clock: C, rest: S) -> (result:
        Option<O>)
        requires
            call_requires(clock, ()),
            forall|now: u64, wait: u128| #[trigger] call_requires(rest, (now, wait)),
        ensures
            final(self).workers() == old(self).workers(),
            if old(self).progress().jobs.len() == 0 {
                &&& result is None
                &&& final(self).progress() == old(self).progress()
            } else {
                old(self).releases(old(self).progress().jobs[0], clock, rest, final(self), result)
            },
    {
        let job = match self.schedule.take() {
            None => {
                return None;
            },
            Some(job) => job,
        };
        let ghost taken = job;
        let Job { handle, submitted } = job;
        // This is only an error when a thread has panicked. In that case the next attempt to submit
        // a value will propagate the panic.
        let outcome = call1(PromiseHandle::<O>::block, handle);
        assert(call_ensures(PromiseHandle::<O>::block, (taken.handle,), outcome));
        match outcome {
            Err(_) => None,
            Ok(output) => {
                // Hold the value back until its intended release time, based on the time we yielded
                // the last value and the input message pacing.
                let now: u64 = call3(
                    time_after::<O, C>,
                    &clock,
                    Ghost(taken.handle),
                    Ghost(outcome),
                );
                let woken: u64 = match self.schedule.delay(submitted, now) {
                    Some(wait) => call2(rest, now, wait),
                    None => now,
                };
                self.schedule.yielded(submitted, woken);
                Some(output)
            },
        }
    }

    /// Whether `after` and `result` may come from releasing the result of `job`, the oldest one.
    pub open spec fn releases<C: Fn() -> u64, S: FnOnce(u64, u128) -> u64>(
        &self,
        job: Job<PromiseHandle<O>>,
        clock: C,
        rest: S,
        after: &Self,
        result: Option<O>,
    ) -> bool {
        let taken = self.progress().taken();
        exists|outcome: Result<O, PromiseDropped>|
            {
                &&& #[trigger] call_ensures(PromiseHandle::<O>::block, (job.handle,), outcome)
                &&& match outcome {
                    Err(_) => result is None && after.progress() == taken,
                    Ok(output) => result == Some(output) && exists|now: u64, woken: u64|
                        {
                            &&& #[trigger] call_ensures(clock, (), now)
                            &&& was_read_after(clock, job.handle, outcome, now)
                            &&& after.progress() == #[trigger] taken.yielded(job.submitted, woken)
                            &&& match taken.last_yield {
                                Some(last) => call_ensures(
                                    rest,
                                    (now, delay(last, job.submitted, now)),
                                    woken,
                                ),
                                None => woken == now,
                            }
                        },
                }
            }
    }

    /// Returns whether a processed output value is available.
    ///
    /// If this returns `true`, a call to [`Self::block`] will not wait for any background
    /// processing, but it may block to match the pacing of the input submissions.
    pub fn is_output_available(&self) -> (available: bool)
        ensures
            if self.progress().jobs.len() == 0 {
                !available
            } else {
                exists|state: PromiseState<O>| #[trigger]
                    self.progress().jobs[0].handle.slot().may_find(state) && available == (
                    state is Fulfilled)
            },
    {
        match self.schedule.oldest() {
            Some(handle) => handle.is_fulfilled(),
            None => false,
        }
    }

    /// Whether the oldest job is still being processed. There has to be one.
    fn is_oldest_busy(&self) -> (busy: bool)
        requires
            self.progress().jobs.len() > 0,
        ensures
            call_ensures(
                PromiseHandle::<O>::will_block,
                (&self.progress().jobs[0].handle,),
                busy,
            ),
    {
        match self.schedule.oldest() {
            Some(handle) => call1(PromiseHandle::<O>::will_block, handle),
            None => true,
        }
    }
}

/// Tells the time by `clock`, after blocking on `handle` has given `outcome`.
fn time_after<O, C: Fn() -> u64>(
    clock: &C,
    handle: Ghost<PromiseHandle<O>>,
    outcome: Ghost<Result<O, PromiseDropped>>,
) -> (now: u64)
    requires
        call_ensures(PromiseHandle::<O>::block, (handle@,), outcome@),
        call_requires(*clock, ()),
    ensures
        call_ensures(*clock, (), now),
{
    call0(clock)
}

/// Whether `now` is what `clock` has told after blocking on `handle` had given `outcome`.
pub closed spec fn was_read_after<O, C: Fn() -> u64>(
    clock: C,
    handle: PromiseHandle<O>,
    outcome: Result<O, PromiseDropped>,
    now: u64,
) -> bool {
    call_ensures(time_after::<O, C>, (&clock, Ghost(handle), Ghost(outcome)), now)
}

/// A builder object that can be used to configure and spawn a [`IsochronousProcessor`].
pub struct IsochronousProcessorBuilder {
    name: Option<String>,
}

impl IsochronousProcessorBuilder {
    /// The base name that the threads will have.
    pub closed spec fn spec_name(&self) -> Option<String> {
        self.name
    }

    /// Sets the base name of the [`IsochronousProcessor`] threads.
    ///
    /// Each thread spawned will be named according to this base name and its index.
    pub fn name<N: Into<String>>(self, name: N) -> (builder: Self)
        ensures
            builder.spec_name() matches Some(text) && call_ensures(
                <N as Into<String>>::into,
                (name,),
                text,
            ),
    {
        Self { name: Some(call1(<N as Into<String>>::into, name)) }
    }

    /// Spawns a [`IsochronousProcessor`] that uses `handler` to process incoming messages.
    ///
    /// Like [`WorkerSetBuilder::spawn`], this method requires `handler` to implement [`Fn`] (not
    /// just [`FnMut`]), because it is shared across all threads, and may execute several times at
    /// once.
    ///
    /// `spawn` starts a thread with the given name, which runs the task to completion. Each step of
    /// the task is [`WorkerSetLoop::process`].
    pub fn spawn<I, O, F, H, E, S>(self, count: usize, handler: F, spawn: S) -> (result: Result<
        IsochronousProcessor<I, O, H>,
        E,
    >) where
        F: Fn(I) -> O,
        S: Fn(Option<String>, WorkerSetTask<(I, Promise<O>), F>) -> Result<H, E>,

        requires
            count > 0,
            forall|name: Option<String>, task: WorkerSetTask<(I, Promise<O>), F>| #[trigger]
                call_requires(spawn, (name, task)),
        ensures
            match result {
                Ok(processor) => {
                    &&& spawns_all(
                        spawn,
                        self.spec_name(),
                        count,
                        handler,
                        Ok(processor.workers()),
                    )
                    &&& processor.progress() == Progress::<PromiseHandle<O>>::idle()
                    &&& processor.workers().sender() matches Some(sender) && exists|
                        receiver: Receiver<(I, Promise<O>)>,
                    | #[trigger]
                        call_ensures(bounded::<(I, Promise<O>)>, (0,), (sender, receiver))
                },
                Err(error) => spawns_all(spawn, self.spec_name(), count, handler, Err(error)),
            },
    {
        let builder = WorkerSetBuilder::with_name(self.name);
        match builder.spawn_tasks(count, handler, spawn) {
            Ok(workers) => Ok(IsochronousProcessor { workers, schedule: Schedule::new() }),
            Err(error) => Err(error),
        }
    }
}

impl<I, O, F> WorkerSetLoop<(I, Promise<O>), F> {
    /// Waits for a value and processes it. Fulfills the promise that came with it, or gives it up if
    /// processing the value panicked. Returns whether there was a value, or else the loop is done; or
    /// the payload of the panic.
    ///
    /// `attempt` calls the function that processes values, and catches a panic.
    pub fn process<P, C: FnOnce(&F, I) -> Result<O, P>>(&mut self, attempt: C) -> (more: Result<
        bool,
        P,
    >)
        requires
            forall|value: I| #[trigger] call_requires(attempt, (&*old(self).handler(), value)),
        ensures
            final(self).receiver() == old(self).receiver(),
            final(self).handler() == old(self).handler(),
            exists|received: Result<(I, Promise<O>), RecvError>|
                {
                    &&& #[trigger] call_ensures(
                        Receiver::<(I, Promise<O>)>::recv,
                        (&old(self).receiver(),),
                        received,
                    )
                    &&& final(self).received() == old(self).received().push(received)
                    &&& match received {
                        Err(_) => {
                            &&& more == Ok::<bool, P>(false)
                            &&& final(self).handled() == old(self).handled()
                        },
                        Ok((value, promise)) => {
                            &&& final(self).handled() == old(self).handled().push((value, promise))
                            &&& exists|outcome: Result<O, P>|
                                {
                                    &&& #[trigger] call_ensures(
                                        attempt,
                                        (&*old(self).handler(), value),
                                        outcome,
                                    )
                                    &&& match outcome {
                                        Ok(output) => {
                                            &&& more == Ok::<bool, P>(true)
                                            &&& call_ensures(
                                                Promise::<O>::fulfill,
                                                (promise, output),
                                                (),
                                            )
                                        },
                                        Err(payload) => {
                                            &&& more == Err::<bool, P>(payload)
                                            &&& call_ensures(Promise::<O>::abandon, (promise,), ())
                                        },
                                    }
                                }
                        },
                    }
                },
    {
        match self.receive() {
            Ok(message) => {
                assert(call_requires(attempt, (&*self.handler(), message.0)));
                let (outcome, promise) = self.attempt(attempt, message);
                match outcome {
                    Ok(output) => {
                        call2(Promise::<O>::fulfill, promise, output);
                        Ok(true)
                    },
                    Err(payload) => {
                        call1(Promise::<O>::abandon, promise);
                        Err(payload)
                    },
                }
            },
            Err(_) => Ok(false),
        }
    }
}

/// Each thread of a processor handles every value that it receives, once, in the order in which it
/// receives them, and nothing else, whether or not processing one of them panics: that holds of a new
/// thread, and processing keeps it so. A thread is done exactly when there was nothing to receive.
pub proof fn processor_handles_what_it_receives<I, O, F, P, C: FnOnce(&F, I) -> Result<O, P>>(
    steps: Seq<&mut WorkerSetLoop<(I, Promise<O>), F>>,
    attempts: Seq<C>,
    more: Seq<Result<bool, P>>,
)
    requires
        steps.len() > 0,
        attempts.len() == steps.len(),
        more.len() == steps.len(),
        steps[0].is_new(),
        forall|i: int|
            0 <= i < steps.len() ==> call_ensures(
                WorkerSetLoop::<(I, Promise<O>), F>::process::<P, C>,
                (#[trigger] steps[i], attempts[i]),
                more[i],
            ),
        forall|i: int, j: int|
            0 <= i && j == i + 1 && j < steps.len() ==> *(#[trigger] steps[j]) == *final(
                #[trigger] steps[i]
            ),
    ensures
        final(steps.last()).is_caught_up(),
        final(steps.last()).received().len() == steps.len(),
        forall|i: int|
            0 <= i < steps.len() ==> (#[trigger] more[i] == Ok::<bool, P>(false)) == (final(
                steps.last()
            ).received()[i] is Err),
        final(steps.last()).receiver() == steps[0].receiver(),
        final(steps.last()).handler() == steps[0].handler(),
    decreases steps.len(),
{
    let n = steps.len() - 1;
    let last = steps[n];
    assert(call_ensures(
        WorkerSetLoop::<(I, Promise<O>), F>::process::<P, C>,
        (last, attempts[n]),
        more[n],
    ));
    if n > 0 {
        let before = steps.drop_last();
        processor_handles_what_it_receives(before, attempts.drop_last(), more.drop_last());
        assert(before.last() == steps[n - 1]);
        assert(*last == *final(before.last()));
        assert forall|i: int| 0 <= i < n implies (#[trigger] more[i] == Ok::<bool, P>(false)) == (
        (*last).received()[i] is Err) by {
            assert(more.drop_last()[i] == more[i]);
        }
    } else {
        assert((*last).handled() =~= Seq::<(I, Promise<O>)>::empty());
    }
    process_stays_caught_up(last, attempts[n], more[n]);
    assert forall|i: int|
        0 <= i < steps.len() implies (#[trigger] more[i] == Ok::<bool, P>(false)) == (final(
        last
    ).received()[i] is Err) by {
        if i < n {
            assert(final(last).received().drop_last()[i] == final(last).received()[i]);
        }
    }
}

/// Processing handles the value that it receives, and no other.
proof fn process_stays_caught_up<I, O, F, P, C: FnOnce(&F, I) -> Result<O, P>>(
    task: &mut WorkerSetLoop<(I, Promise<O>), F>,
    attempt: C,
    more: Result<bool, P>,
)
    requires
        call_ensures(WorkerSetLoop::<(I, Promise<O>), F>::process::<P, C>, (task, attempt), more),
        task.is_caught_up(),
    ensures
        final(task).is_caught_up(),
        final(task).receiver() == old(task).receiver(),
        final(task).handler() == old(task).handler(),
        final(task).received().drop_last() == old(task).received(),
        final(task).received().len() == old(task).received().len() + 1,
        (more == Ok::<bool, P>(false)) == (final(task).received().last() is Err),
{
    assert(final(task).received().drop_last() == old(task).received());
}

/// How things stand after several jobs were submitted one after the other, each at its own time.
pub open spec fn all_submitted<T>(progress: Progress<T>, submissions: Seq<(T, u64)>) -> Progress<T>
    decreases submissions.len(),
{
    if submissions.len() == 0 {
        progress
    } else {
        let (handle, now) = submissions.last();
        all_submitted(progress, submissions.drop_last()).submitted(handle, now)
    }
}

/// How things stand after the oldest job was taken `count` times.
pub open spec fn taken_often<T>(progress: Progress<T>, count: nat) -> Progress<T>
    decreases count,
{
    if count == 0 {
        progress
    } else {
        taken_often(progress, (count - 1) as nat).taken()
    }
}

/// Results come out in the order in which their values went in: of several jobs that were submitted
/// to an idle schedule, the one that comes out next is the one that has been waiting the longest.
pub proof fn order_is_retained<T>(progress: Progress<T>, submissions: Seq<(T, u64)>, count: nat)
    requires
        progress.jobs.len() == 0,
        count < submissions.len(),
    ensures
        taken_often(all_submitted(progress, submissions), count).jobs.len() == submissions.len()
            - count,
        taken_often(all_submitted(progress, submissions), count).jobs[0].handle
            == submissions[count as int].0,
{
    submissions_queue_up(progress, submissions);
    taking_drops_from_the_front(all_submitted(progress, submissions), count);
}

proof fn submissions_queue_up<T>(progress: Progress<T>, submissions: Seq<(T, u64)>)
    requires
        progress.jobs.len() == 0,
    ensures
        all_submitted(progress, submissions).jobs.len() == submissions.len(),
        forall|i: int|
            0 <= i < submissions.len() ==> (#[trigger] all_submitted(
                progress,
                submissions,
            ).jobs[i]).handle == submissions[i].0,
    decreases submissions.len(),
{
    if submissions.len() > 0 {
        submissions_queue_up(progress, submissions.drop_last());
    }
}

proof fn taking_drops_from_the_front<T>(progress: Progress<T>, count: nat)
    requires
        count <= progress.jobs.len(),
    ensures
        taken_often(progress, count).jobs == progress.jobs.skip(count as int),
    decreases count,
{
    if count > 0 {
        taking_drops_from_the_front(progress, (count - 1) as nat);
    }
}

/// Submitting a value does not disturb the jobs that are already in progress: it makes no difference
/// whether the oldest of them is taken before or after the submission.
pub proof fn submission_leaves_older_jobs_alone<T>(progress: Progress<T>, handle: T, now: u64)
    requires
        progress.jobs.len() > 0,
    ensures
        progress.submitted(handle, now).jobs[0] == progress.jobs[0],
        progress.submitted(handle, now).taken() == progress.taken().submitted(handle, now),
{
    assert(progress.submitted(handle, now).taken().jobs =~= progress.taken().submitted(
        handle,
        now,
    ).jobs);
}

/// Two subsequent values are yielded with at least as much time between them as the inputs from
/// which they were computed, whatever became of the jobs in between, provided that resting takes as
/// long as it is asked to.
pub proof fn outputs_keep_the_pace_of_inputs<
    I,
    O,
    H,
    C: Fn() -> u64,
    S: FnOnce(u64, u128) -> u64,
>(
    processor: &mut IsochronousProcessor<I, O, H>,
    last: Yield,
    clock: C,
    rest: S,
    output: O,
)
    requires
        processor.progress().jobs.len() > 0,
        processor.progress().last_yield == Some(last),
        forall|now: u64, wait: u128, woken: u64| #[trigger]
            call_ensures(rest, (now, wait), woken) ==> now + wait <= woken,
        call_ensures(
            IsochronousProcessor::<I, O, H>::block::<C, S>,
            (processor, clock, rest),
            Some(output),
        ),
    ensures
        final(processor).progress().last_yield matches Some(next) && {
            &&& next.submitted == old(processor).progress().jobs[0].submitted
            &&& next.at - last.at >= next.submitted - last.submitted
        },
{
}

/// The same holds of a value that is yielded by an exchange: between it and the value that was
/// yielded before it there is at least as much time as between their inputs. It is the value of the
/// oldest job, which is the one that has just been submitted if there was no other.
pub proof fn exchanges_keep_the_pace_of_inputs<
    I,
    O,
    H,
    P,
    C: Fn() -> u64,
    S: FnOnce(u64, u128) -> u64,
    J: Fn(H) -> Result<(), P>,
    Q: FnOnce() -> bool,
>(
    processor: &mut IsochronousProcessor<I, O, H>,
    value: I,
    last: Yield,
    clock: C,
    rest: S,
    join: J,
    panicking: Q,
    output: O,
)
    requires
        processor.progress().last_yield == Some(last),
        forall|now: u64, wait: u128, woken: u64| #[trigger]
            call_ensures(rest, (now, wait), woken) ==> now + wait <= woken,
        call_ensures(
            IsochronousProcessor::<I, O, H>::exchange::<P, C, S, J, Q>,
            (processor, value, clock, rest, join, panicking),
            Ok::<Option<O>, Option<P>>(Some(output)),
        ),
    ensures
        final(processor).progress().last_yield matches Some(next) && {
            &&& if old(processor).progress().jobs.len() > 0 {
                next.submitted == old(processor).progress().jobs[0].submitted
            } else {
                call_ensures(clock, (), next.submitted)
            }
            &&& next.at - last.at >= next.submitted - last.submitted
        },
{
}

/// What is remembered of the last value stays until the next value is yielded: neither submitting
/// values nor jobs that have panicked change it.
pub proof fn last_yield_is_the_last_value<
    I,
    O,
    H,
    C: Fn() -> u64,
    S: FnOnce(u64, u128) -> u64,
>(
    progress: Progress<PromiseHandle<O>>,
    handle: PromiseHandle<O>,
    now: u64,
    processor: &mut IsochronousProcessor<I, O, H>,
    clock: C,
    rest: S,
)
    requires
        call_ensures(
            IsochronousProcessor::<I, O, H>::block::<C, S>,
            (processor, clock, rest),
            None::<O>,
        ),
    ensures
        progress.submitted(handle, now).last_yield == progress.last_yield,
        final(processor).progress().last_yield == old(processor).progress().last_yield,
{
}

/// What is remembered of a value is when it really came out: a time that the clock has told after
/// the value was there, or, if the value had to be held back, the time that resting from then on
/// has ended at. It is held back no longer than until it is due.
pub proof fn value_is_remembered_as_yielded_when_it_came_out<
    I,
    O,
    H,
    C: Fn() -> u64,
    S: FnOnce(u64, u128) -> u64,
>(processor: &mut IsochronousProcessor<I, O, H>, clock: C, rest: S, output: O)
    requires
        processor.progress().jobs.len() > 0,
        call_ensures(
            IsochronousProcessor::<I, O, H>::block::<C, S>,
            (processor, clock, rest),
            Some(output),
        ),
    ensures
        final(processor).progress().last_yield matches Some(next) && {
            let job = old(processor).progress().jobs[0];
            &&& next.submitted == job.submitted
            &&& match old(processor).progress().last_yield {
                None => {
                    &&& call_ensures(clock, (), next.at)
                    &&& was_read_after(clock, job.handle, Ok::<O, PromiseDropped>(output), next.at)
                },
                Some(last) => exists|now: u64, wait: u128|
                    {
                        &&& #[trigger] call_ensures(rest, (now, wait), next.at)
                        &&& call_ensures(clock, (), now)
                        &&& was_read_after(clock, job.handle, Ok::<O, PromiseDropped>(output), now)
                        &&& wait > 0 ==> {
                            ||| now + wait == last.at + (job.submitted - last.submitted)
                            ||| now + wait == last.at && job.submitted < last.submitted
                        }
                        &&& now + wait >= last.at + (job.submitted - last.submitted)
                        &&& now + wait >= last.at
                    },
            }
        },
{
    let taken = processor.progress().taken();
    let job = processor.progress().jobs[0];
    if let Some(last) = processor.progress().last_yield {
        let (now, woken) = choose|now: u64, woken: u64|
            {
                &&& #[trigger] call_ensures(clock, (), now)
                &&& was_read_after(clock, job.handle, Ok::<O, PromiseDropped>(output), now)
                &&& final(processor).progress() == #[trigger] taken.yielded(job.submitted, woken)
                &&& call_ensures(rest, (now, delay(last, job.submitted, now)), woken)
            };
        let wait = delay(last, job.submitted, now);
        let next = final(processor).progress().last_yield->0;
        assert(call_ensures(rest, (now, wait), next.at));
    }
}

/// The same holds of a value that is yielded by an exchange, whether it is the result of an older
/// job or of the value that was submitted by the exchange itself.
pub proof fn exchanged_value_is_remembered_as_yielded_when_it_came_out<
    I,
    O,
    H,
    P,
    C: Fn() -> u64,
    S: FnOnce(u64, u128) -> u64,
    J: Fn(H) -> Result<(), P>,
    Q: FnOnce() -> bool,
>(
    processor: &mut IsochronousProcessor<I, O, H>,
    value: I,
    clock: C,
    rest: S,
    join: J,
    panicking: Q,
    output: O,
)
    requires
        call_ensures(
            IsochronousProcessor::<I, O, H>::exchange::<P, C, S, J, Q>,
            (processor, value, clock, rest, join, panicking),
            Ok::<Option<O>, Option<P>>(Some(output)),
        ),
    ensures
        final(processor).progress().last_yield is Some,
        ({
            let next = final(processor).progress().last_yield->0;
            exists|handle: PromiseHandle<O>, now: u64|
                {
                    &&& old(processor).progress().jobs.len() > 0 ==> {
                        &&& handle == old(processor).progress().jobs[0].handle
                        &&& next.submitted == old(processor).progress().jobs[0].submitted
                    }
                    &&& old(processor).progress().jobs.len() == 0 ==> call_ensures(
                        clock,
                        (),
                        next.submitted,
                    )
                    &&& call_ensures(clock, (), now)
                    &&& #[trigger] was_read_after(
                        clock,
                        handle,
                        Ok::<O, PromiseDropped>(output),
                        now,
                    )
                    &&& match old(processor).progress().last_yield {
                        None => next.at == now,
                        Some(last) => exists|wait: u128|
                            {
                                &&& #[trigger] call_ensures(rest, (now, wait), next.at)
                                &&& wait > 0 ==> {
                                    ||| now + wait == last.at + (next.submitted - last.submitted)
                                    ||| now + wait == last.at && next.submitted < last.submitted
                                }
                                &&& now + wait >= last.at + (next.submitted - last.submitted)
                                &&& now + wait >= last.at
                            },
                    }
                }
        }),
{
    let (this, at, submitted) = choose|
        this: &mut IsochronousProcessor<I, O, H>,
        at: u64,
        submitted: Result<(), Option<P>>,
    |
        {
            &&& *this == *processor
            &&& call_ensures(clock, (), at)
            &&& #[trigger] call_ensures(
                IsochronousProcessor::<I, O, H>::submit::<P, J, Q>,
                (this, value, at, join, panicking),
                submitted,
            )
            &&& submitted is Ok
            &&& final(this).releases(
                final(this).progress().jobs[0],
                clock,
                rest,
                final(processor),
                Some(output),
            )
        };
    let job = final(this).progress().jobs[0];
    let now = release_is_remembered(*final(this), job, clock, rest, *final(processor), output);
    assert(was_read_after(clock, job.handle, Ok::<O, PromiseDropped>(output), now));
    if let Some(last) = processor.progress().last_yield {
        let wait = delay(last, job.submitted, now);
        assert(call_ensures(
            rest,
            (now, wait),
            final(processor).progress().last_yield->0.at,
        ));
    }
}

/// What [`IsochronousProcessor::releases`] says of the value that is remembered.
proof fn release_is_remembered<I, O, H, C: Fn() -> u64, S: FnOnce(u64, u128) -> u64>(
    before: IsochronousProcessor<I, O, H>,
    job: Job<PromiseHandle<O>>,
    clock: C,
    rest: S,
    after: IsochronousProcessor<I, O, H>,
    output: O,
) -> (now: u64)
    requires
        before.releases(job, clock, rest, &after, Some(output)),
    ensures
        call_ensures(clock, (), now),
        was_read_after(clock, job.handle, Ok::<O, PromiseDropped>(output), now),
        after.progress().last_yield matches Some(next) && {
            &&& next.submitted == job.submitted
            &&& match before.progress().last_yield {
                None => next.at == now,
                Some(last) => call_ensures(rest, (now, delay(last, job.submitted, now)), next.at),
            }
        },
{
    let taken = before.progress().taken();
    let (now, woken) = choose|now: u64, woken: u64|
        {
            &&& #[trigger] call_ensures(clock, (), now)
            &&& was_read_after(clock, job.handle, Ok::<O, PromiseDropped>(output), now)
            &&& after.progress() == #[trigger] taken.yielded(job.submitted, woken)
            &&& match taken.last_yield {
                Some(last) => call_ensures(rest, (now, delay(last, job.submitted, now)), woken),
                None => woken == now,
            }
        };
    now
}

/// Two values that are yielded one right after the other by an idle processor come out at times
/// that are told by the clock and by resting, and these are at least as far apart as the times at
/// which their inputs were submitted.
pub proof fn first_two_values_keep_the_pace_of_their_inputs<
    I,
    O,
    H,
    C: Fn() -> u64,
    S: FnOnce(u64, u128) -> u64,
>(
    first: &mut IsochronousProcessor<I, O, H>,
    clock: C,
    rest: S,
    output: O,
    second: &mut IsochronousProcessor<I, O, H>,
    later: S,
    next: O,
)
    requires
        first.progress().jobs.len() > 1,
        first.progress().last_yield is None,
        call_ensures(
            IsochronousProcessor::<I, O, H>::block::<C, S>,
            (first, clock, rest),
            Some(output),
        ),
        *second == *final(first),
        forall|now: u64, wait: u128, woken: u64| #[trigger]
            call_ensures(later, (now, wait), woken) ==> now + wait <= woken,
        call_ensures(
            IsochronousProcessor::<I, O, H>::block::<C, S>,
            (second, clock, later),
            Some(next),
        ),
    ensures
        exists|came: u64, followed: u64, now: u64, wait: u128|
            {
                &&& #[trigger] call_ensures(clock, (), came)
                &&& #[trigger] call_ensures(later, (now, wait), followed)
                &&& followed - came >= old(first).progress().jobs[1].submitted - old(
                    first
                ).progress().jobs[0].submitted
            },
{
    value_is_remembered_as_yielded_when_it_came_out(first, clock, rest, output);
    block_takes_the_oldest_job(first, clock, rest, Some(output));
    value_is_remembered_as_yielded_when_it_came_out(second, clock, later, next);
}

/// Blocking takes the oldest job and no other, and gives its result: nothing if there is no job, or if
/// the job has panicked, in which case no value is remembered as yielded.
pub proof fn block_takes_the_oldest_job<
    I,
    O,
    H,
    C: Fn() -> u64,
    S: FnOnce(u64, u128) -> u64,
>(processor: &mut IsochronousProcessor<I, O, H>, clock: C, rest: S, result: Option<O>)
    requires
        call_ensures(
            IsochronousProcessor::<I, O, H>::block::<C, S>,
            (processor, clock, rest),
            result,
        ),
    ensures
        ({
            let before = old(processor).progress();
            let after = final(processor).progress();
            &&& before.jobs.len() == 0 ==> result is None && after.jobs.len() == 0
                && after.last_yield == before.last_yield
            &&& before.jobs.len() > 0 ==> {
                &&& after.jobs.len() == before.jobs.len() - 1
                &&& forall|i: int|
                    0 <= i < after.jobs.len() ==> #[trigger] after.jobs[i] == before.jobs[i + 1]
                &&& exists|outcome: Result<O, PromiseDropped>| #[trigger]
                    call_ensures(PromiseHandle::<O>::block, (before.jobs[0].handle,), outcome)
                        && match outcome {
                        Ok(output) => result == Some(output),
                        Err(_) => result is None && after.last_yield == before.last_yield,
                    }
            }
        }),
{
}

/// A value that is submitted becomes the youngest job: it is sent to the threads along with a new
/// promise, and the handle of that promise is kept with the time of the submission. The older jobs
/// stay as they are. If the value cannot be sent, no job is added.
pub proof fn submission_adds_the_youngest_job<
    I,
    O,
    H,
    P,
    J: Fn(H) -> Result<(), P>,
    Q: FnOnce() -> bool,
>(
    submitting: &mut IsochronousProcessor<I, O, H>,
    trying: &mut IsochronousProcessor<I, O, H>,
    value: I,
    now: u64,
    join: J,
    panicking: Q,
    submitted: Result<(), Option<P>>,
    tried: Result<(), Unsent<I, P>>,
)
    requires
        call_ensures(
            IsochronousProcessor::<I, O, H>::submit::<P, J, Q>,
            (submitting, value, now, join, panicking),
            submitted,
        ),
        call_ensures(
            IsochronousProcessor::<I, O, H>::try_submit::<P, J, Q>,
            (trying, value, now, join, panicking),
            tried,
        ),
    ensures
        exists|
            workers: &mut WorkerSet<(I, Promise<O>), H>,
            pair: (Promise<O>, PromiseHandle<O>),
        |
            {
                let before = old(submitting).progress();
                let after = final(submitting).progress();
                &&& *workers == old(submitting).workers()
                &&& *final(workers) == final(submitting).workers()
                &&& #[trigger] call_ensures(promise::<O>, (), pair)
                &&& #[trigger] call_ensures(
                    WorkerSet::<(I, Promise<O>), H>::send::<P, J, Q>,
                    (workers, (value, pair.0), join, panicking),
                    submitted,
                )
                &&& after.last_yield == before.last_yield
                &&& submitted is Err ==> after.jobs == before.jobs
                &&& submitted is Ok ==> {
                    &&& after.jobs.len() == before.jobs.len() + 1
                    &&& after.jobs.last().handle == pair.1
                    &&& after.jobs.last().submitted == now
                    &&& forall|i: int|
                        0 <= i < before.jobs.len() ==> #[trigger] after.jobs[i] == before.jobs[i]
                }
            },
        exists|
            workers: &mut WorkerSet<(I, Promise<O>), H>,
            pair: (Promise<O>, PromiseHandle<O>),
            sent: Result<(), Unsent<(I, Promise<O>), P>>,
        |
            {
                let before = old(trying).progress();
                let after = final(trying).progress();
                &&& *workers == old(trying).workers()
                &&& *final(workers) == final(trying).workers()
                &&& #[trigger] call_ensures(promise::<O>, (), pair)
                &&& #[trigger] call_ensures(
                    WorkerSet::<(I, Promise<O>), H>::try_send::<P, J, Q>,
                    (workers, (value, pair.0), join, panicking),
                    sent,
                )
                &&& tried is Ok == sent is Ok
                &&& (tried matches Err(Unsent::Busy(_))) == (sent matches Err(Unsent::Busy(_)))
                &&& tried matches Err(Unsent::Busy(back)) ==> back == value
                &&& tried matches Err(Unsent::Exited(payload)) ==> sent matches Err(
                    Unsent::Exited(propagated),
                ) && propagated == payload
                &&& after.last_yield == before.last_yield
                &&& tried is Err ==> after.jobs == before.jobs
                &&& tried is Ok ==> {
                    &&& after.jobs.len() == before.jobs.len() + 1
                    &&& after.jobs.last().handle == pair.1
                    &&& after.jobs.last().submitted == now
                    &&& forall|i: int|
                        0 <= i < before.jobs.len() ==> #[trigger] after.jobs[i] == before.jobs[i]
                }
            },
{
}

/// The threads of a processor take values directly from whoever submits them: whatever their
/// number, no value is taken off the owner's hands that no thread has received. All of them are at
/// the other end of the same channel, with the same handler, and each has its own name. A new
/// processor has no job in progress, and has yielded nothing.
pub proof fn processor_hands_values_over_directly<
    I,
    O,
    F: Fn(I) -> O,
    H,
    E,
    S: Fn(Option<String>, WorkerSetTask<(I, Promise<O>), F>) -> Result<H, E>,
>(
    builder: IsochronousProcessorBuilder,
    count: usize,
    handler: F,
    spawn: S,
    processor: IsochronousProcessor<I, O, H>,
    i: int,
)
    requires
        call_ensures(
            IsochronousProcessorBuilder::spawn::<I, O, F, H, E, S>,
            (builder, count, handler, spawn),
            Ok::<IsochronousProcessor<I, O, H>, E>(processor),
        ),
        0 <= i < count,
    ensures
        processor.workers().handles().len() == count,
        processor.workers().sender() is Some,
        exists|
            receiver: Receiver<(I, Promise<O>)>,
            name: Option<String>,
            task: WorkerSetTask<(I, Promise<O>), F>,
        |
            {
                &&& #[trigger] call_ensures(
                    bounded::<(I, Promise<O>)>,
                    (0,),
                    (processor.workers().sender()->0, receiver),
                )
                &&& #[trigger] call_ensures(
                    spawn,
                    (name, task),
                    Ok::<H, E>(processor.workers().handles()[i]),
                )
                &&& call_ensures(
                    <Receiver<(I, Promise<O>)> as Clone>::clone,
                    (&receiver,),
                    task.messages().receiver(),
                )
                &&& *task.messages().handler() == handler
                &&& task.messages().received().len() == 0
                &&& task.messages().handled().len() == 0
                &&& task.panic_flag() == processor.workers().panic_flag()
                &&& !task.is_flagged()
                &&& match builder.spec_name() {
                    None => name is None,
                    Some(base) => name matches Some(name) && name@ == base@ + seq!['-'] + decimal(
                        i as nat,
                    ),
                }
            },
        processor.progress().jobs.len() == 0,
        processor.progress().last_yield is None,
{
    set_is_spawned(
        spawn,
        builder.spec_name(),
        count,
        handler,
        processor.workers(),
        i,
    );
}

/// An exchange submits the value at the time that the clock tells, and fails if that fails. If the
/// oldest job is still being processed then, nothing is yielded, and the job stays in progress.
/// Otherwise it is taken, and its result is what is yielded.
pub proof fn exchange_yields_unless_the_oldest_job_is_busy<
    I,
    O,
    H,
    P,
    C: Fn() -> u64,
    S: FnOnce(u64, u128) -> u64,
    J: Fn(H) -> Result<(), P>,
    Q: FnOnce() -> bool,
>(
    exchanging: &mut IsochronousProcessor<I, O, H>,
    value: I,
    clock: C,
    rest: S,
    join: J,
    panicking: Q,
    result: Result<Option<O>, Option<P>>,
)
    requires
        call_ensures(
            IsochronousProcessor::<I, O, H>::exchange::<P, C, S, J, Q>,
            (exchanging, value, clock, rest, join, panicking),
            result,
        ),
    ensures
        result matches Err(payload) ==> exists|this: &mut IsochronousProcessor<I, O, H>, now: u64|
            {
                &&& *this == *old(exchanging)
                &&& *final(this) == *final(exchanging)
                &&& call_ensures(clock, (), now)
                &&& #[trigger] call_ensures(
                    IsochronousProcessor::<I, O, H>::submit::<P, J, Q>,
                    (this, value, now, join, panicking),
                    Err::<(), Option<P>>(payload),
                )
            },
        result matches Ok(yielded) ==> exists|
            this: &mut IsochronousProcessor<I, O, H>,
            now: u64,
            submitted: Result<(), Option<P>>,
            busy: bool,
        |
            {
                let between = final(this).progress();
                let after = final(exchanging).progress();
                &&& *this == *old(exchanging)
                &&& final(this).workers() == final(exchanging).workers()
                &&& call_ensures(clock, (), now)
                &&& #[trigger] call_ensures(
                    IsochronousProcessor::<I, O, H>::submit::<P, J, Q>,
                    (this, value, now, join, panicking),
                    submitted,
                )
                &&& submitted is Ok
                &&& #[trigger] call_ensures(
                    PromiseHandle::<O>::will_block,
                    (&final(this).progress().jobs[0].handle,),
                    busy,
                )
                &&& busy ==> yielded is None && after.jobs == between.jobs && after.last_yield
                    == between.last_yield
                &&& !busy ==> {
                    &&& after.jobs.len() == between.jobs.len() - 1
                    &&& forall|i: int|
                        0 <= i < after.jobs.len() ==> #[trigger] after.jobs[i] == between.jobs[i
                            + 1]
                    &&& exists|outcome: Result<O, PromiseDropped>| #[trigger]
                        call_ensures(
                            PromiseHandle::<O>::block,
                            (between.jobs[0].handle,),
                            outcome,
                        ) && match outcome {
                            Ok(output) => yielded == Some(output) && after.last_yield is Some,
                            Err(_) => yielded is None && after.last_yield == between.last_yield,
                        }
                }
            },
{
}

/// An output is available exactly if there is a job, and the slot of the oldest one holds its result.
/// Closing a processor closes its threads' channel and joins them, and leaves the jobs as they are.
pub proof fn output_is_available_iff_the_oldest_job_is_done<
    I,
    O,
    H,
    P,
    J: Fn(H) -> Result<(), P>,
    Q: FnOnce() -> bool,
>(
    processor: IsochronousProcessor<I, O, H>,
    available: bool,
    closing: &mut IsochronousProcessor<I, O, H>,
    join: J,
    panicking: Q,
    payload: Option<P>,
)
    requires
        call_ensures(
            IsochronousProcessor::<I, O, H>::is_output_available,
            (&processor,),
            available,
        ),
        call_ensures(
            IsochronousProcessor::<I, O, H>::close::<P, J, Q>,
            (closing, join, panicking),
            payload,
        ),
    ensures
        available ==> processor.progress().jobs.len() > 0,
        processor.progress().jobs.len() > 0 ==> exists|state: PromiseState<O>|
            {
                &&& #[trigger] processor.progress().jobs[0].handle.slot().may_find(state)
                &&& available <==> !(state is Empty || state is Dropped)
            },
        final(closing).progress() == old(closing).progress(),
        has_hung_up(old(closing).workers().sender()),
        final(closing).workers().sender() is None,
        final(closing).workers().handles().len() == 0,
        exists|joined: Seq<Result<(), P>>|
            {
                &&& #[trigger] joined.len() == old(closing).workers().handles().len()
                &&& forall|i: int|
                    0 <= i < joined.len() ==> call_ensures(
                        join,
                        (old(closing).workers().handles()[i],),
                        #[trigger] joined[i],
                    )
            },
{
    let joined = choose|joined: Seq<Result<(), P>>| #[trigger]
        all_joined(old(closing).workers().handles(), join, joined);
    assert(joined.len() == old(closing).workers().handles().len());
}

/// A thread of a processor receives once for every value. It calls the handler for the value that
/// it receives, and fulfills the promise that came along with the output, or gives it up exactly if
/// the handler has panicked; then the payload of the panic is handed out.
pub proof fn promise_is_fulfilled_unless_the_handler_panics<
    I,
    O,
    F,
    P,
    C: FnOnce(&F, I) -> Result<O, P>,
>(task: &mut WorkerSetLoop<(I, Promise<O>), F>, attempt: C, more: Result<bool, P>)
    requires
        call_ensures(WorkerSetLoop::<(I, Promise<O>), F>::process::<P, C>, (task, attempt), more),
    ensures
        final(task).received().len() == old(task).received().len() + 1,
        final(task).received().drop_last() == old(task).received(),
        call_ensures(
            Receiver::<(I, Promise<O>)>::recv,
            (&old(task).receiver(),),
            final(task).received().last(),
        ),
        final(task).received().last() is Err ==> more == Ok::<bool, P>(false),
        final(task).received().last() matches Ok(message) ==> exists|outcome: Result<O, P>|
            {
                &&& #[trigger] call_ensures(
                    attempt,
                    (&*old(task).handler(), message.0),
                    outcome,
                )
                &&& outcome matches Ok(output) ==> {
                    &&& more == Ok::<bool, P>(true)
                    &&& call_ensures(Promise::<O>::fulfill, (message.1, output), ())
                }
                &&& outcome matches Err(payload) ==> {
                    &&& more == Err::<bool, P>(payload)
                    &&& call_ensures(Promise::<O>::abandon, (message.1,), ())
                }
            },
{
    assert(final(task).received().drop_last() == old(task).received());
}

} // verus!
