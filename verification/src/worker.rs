//! Worker threads that process messages.
//!
//! A worker is two halves of a channel. The owner holds a [`Worker`] (or a [`WorkerSet`]) with the
//! sending half, and the thread runs a [`WorkerTask`] (or a [`WorkerSetTask`]) with the receiving
//! half. Starting and joining threads, and finding out whether a thread is panicking, is up to the
//! functions that the owner passes in. `H` is the handle by which a thread can be joined, and `P` is
//! the payload of a panic.
//!
//! Nothing here panics. Where the panic of a worker thread has to be propagated, its payload is
//! returned for the caller to go on unwinding with.

use crossbeam_channel::{bounded, Receiver, RecvError, SendError, Sender, TrySendError};
use std::sync::atomic::{AtomicBool, Ordering};
use std::sync::Arc;
use vstd::prelude::*;
use vstd::string::StringExecFns;

use crate::call::{call1, call2};
use crate::channel::{close, fits, has_hung_up, messages, Inbox};
use crate::flag::{Flag, RAISER, WATCHER};
use crate::handler::Handler;
use crate::unwind::{exits_with, propagate, propagates};

verus! {

/// A builder object that can be used to configure and spawn a [`Worker`].
pub struct WorkerBuilder {
    name: Option<String>,
    capacity: usize,
}

impl WorkerBuilder {
    /// The name that the thread will have.
    pub closed spec fn spec_name(&self) -> Option<String> {
        self.name
    }

    /// The capacity that the channel will have.
    pub closed spec fn spec_capacity(&self) -> usize {
        self.capacity
    }

    /// Sets the name of the [`Worker`] thread.
    pub fn name<N: Into<String>>(self, name: N) -> (builder: Self)
        ensures
            builder.spec_name() matches Some(text) && call_ensures(
                <N as Into<String>>::into,
                (name,),
                text,
            ),
            builder.spec_capacity() == self.spec_capacity(),
    {
        Self { name: Some(call1(<N as Into<String>>::into, name)), ..self }
    }

    /// Sets the channel capacity of the [`Worker`].
    ///
    /// By default, a capacity of 0 is used, which means that [`Worker::send`] will block until the
    /// worker has finished processing any preceding message.
    ///
    /// When a pipeline of [`Worker`]s is used, the capacity of later [`Worker`]s may be increased
    /// to allow the processing of multiple input messages at once.
    pub fn capacity(self, capacity: usize) -> (builder: Self)
        ensures
            builder.spec_capacity() == capacity,
            builder.spec_name() == self.spec_name(),
    {
        Self { capacity, ..self }
    }

    /// Spawns a [`Worker`] thread that uses `handler` to process incoming messages.
    ///
    /// `spawn` starts a thread with the given name, which runs the task to completion.
    pub fn spawn<I, F, H, E, S>(self, handler: F, spawn: S) -> (result: Result<Worker<I, H>, E>) where
        F: FnMut(I),
        S: FnOnce(Option<String>, WorkerTask<I, F>) -> Result<H, E>,

        requires
            fits::<I>(self.spec_capacity()),
            forall|task: WorkerTask<I, F>| #[trigger]
                call_requires(spawn, (self.spec_name(), task)),
        ensures
            exists|task: WorkerTask<I, F>, spawned: Result<H, E>|
                {
                    &&& #[trigger] call_ensures(spawn, (self.spec_name(), task), spawned)
                    &&& task.handler() == handler
                    &&& task.is_new()
                    &&& match spawned {
                        Ok(handle) => result matches Ok(worker) && {
                            &&& worker.handle() == Some(handle)
                            &&& worker.sender() matches Some(sender) && call_ensures(
                                bounded::<I>,
                                (self.spec_capacity(),),
                                (sender, task.receiver()),
                            )
                        },
                        Err(error) => result == Err::<Worker<I, H>, E>(error),
                    }
                },
    {
        let (sender, receiver) = call1(bounded::<I>, self.capacity);
        let task = WorkerTask { inbox: Inbox::new(receiver), handler: Handler::new(handler) };
        let spawned = call2(spawn, self.name, task);
        assert(call_ensures(spawn, (self.spec_name(), task), spawned));
        match spawned {
            Ok(handle) => Ok(Worker { sender: Some(sender), handle: Some(handle) }),
            Err(error) => Err(error),
        }
    }
}

impl Clone for WorkerBuilder {
    fn clone(&self) -> (builder: Self)
        ensures
            builder.spec_capacity() == self.spec_capacity(),
            match self.spec_name() {
                None => builder.spec_name() is None,
                Some(text) => builder.spec_name() matches Some(copy) && copy@ == text@,
            },
    {
        let name = match &self.name {
            None => None,
            Some(text) => Some(text.clone()),
        };
        WorkerBuilder { name, capacity: self.capacity }
    }
}

/// What a worker thread does: receive messages and handle them, until nobody is left to send any.
#[verifier::reject_recursive_types(I)]
pub struct WorkerTask<I, F> {
    inbox: Inbox<I>,
    handler: Handler<I, F>,
}

impl<I, F> WorkerTask<I, F> {
    /// Where the messages come from.
    pub closed spec fn receiver(&self) -> Receiver<I> {
        self.inbox.receiver()
    }

    /// What handles the messages.
    pub closed spec fn handler(&self) -> F {
        self.handler.function()
    }

    /// What has been received so far.
    pub closed spec fn received(&self) -> Seq<Result<I, RecvError>> {
        self.inbox.received()
    }

    /// The messages that have been handled so far.
    pub closed spec fn handled(&self) -> Seq<I> {
        self.handler.handled()
    }

    /// Whether nothing has been received and nothing has been handled yet.
    pub open spec fn is_new(&self) -> bool {
        self.received().len() == 0 && self.handled().len() == 0
    }

    /// Whether the messages that have been received are those that have been handled, each of them
    /// once, in the order in which they were received.
    pub open spec fn is_caught_up(&self) -> bool {
        self.handled() == messages(self.received())
    }
}

impl<I, F: FnMut(I)> WorkerTask<I, F> {
    /// Waits for a message and handles it. Returns whether there was one, or else the task is done.
    pub fn step(&mut self) -> (more: bool)
        requires
            forall|message: I| #[trigger] call_requires(old(self).handler(), (message,)),
        ensures
            final(self).receiver() == old(self).receiver(),
            final(self).handler() == old(self).handler(),
            exists|received: Result<I, RecvError>|
                {
                    &&& #[trigger] call_ensures(
                        Receiver::<I>::recv,
                        (&old(self).receiver(),),
                        received,
                    )
                    &&& more == (received is Ok)
                    &&& final(self).received() == old(self).received().push(received)
                    &&& match received {
                        Ok(message) => {
                            &&& call_ensures(old(self).handler(), (message,), ())
                            &&& final(self).handled() == old(self).handled().push(message)
                        },
                        Err(_) => final(self).handled() == old(self).handled(),
                    }
                },
    {
        let received = self.inbox.receive();
        assert(call_ensures(Receiver::<I>::recv, (&old(self).receiver(),), received));
        match received {
            Ok(message) => {
                assert(call_requires(old(self).handler(), (message,)));
                self.handler.handle(message);
                true
            },
            Err(_) => false,
        }
    }
}

/// A handle to a worker thread that processes messages of type `I`.
#[verifier::reject_recursive_types(I)]
pub struct Worker<I, H> {
    sender: Option<Sender<I>>,
    handle: Option<H>,
}

impl<I, H> Worker<I, H> {
    /// The sending end of the worker's channel, unless it has been closed.
    pub closed spec fn sender(&self) -> Option<Sender<I>> {
        self.sender
    }

    /// The handle of the worker's thread, unless it has been joined.
    pub closed spec fn handle(&self) -> Option<H> {
        self.handle
    }

    /// Joins the thread if that has not happened yet, and returns the payload of a panic that has
    /// to be propagated.
    fn wait_for_exit<P, J: FnOnce(H) -> Result<(), P>, Q: FnOnce() -> bool>(
        &mut self,
        join: J,
        panicking: Q,
    ) -> (payload: Option<P>)
        requires
            old(self).handle() matches Some(handle) ==> call_requires(join, (handle,)),
            call_requires(panicking, ()),
        ensures
            final(self).sender() == old(self).sender(),
            final(self).handle() is None,
            exits_with(old(self).handle(), join, panicking, payload),
    {
        match self.handle.take() {
            None => None,
            Some(handle) => {
                let joined = call1(join, handle);
                propagate(joined.err(), panicking)
            },
        }
    }

    /// Closes the channel, which makes the thread exit once it has handled what was sent to it.
    /// Joins the thread if that has not happened yet, and returns the payload of a panic that has to
    /// be propagated.
    ///
    /// This has to happen before a [`Worker`] is let go of. `join` joins a thread, and may rely on
    /// the channel having been closed. `panicking` tells whether the calling thread is panicking.
    pub fn close<P, J: FnOnce(H) -> Result<(), P>, Q: FnOnce() -> bool>(
        &mut self,
        join: J,
        panicking: Q,
    ) -> (payload: Option<P>)
        requires
            old(self).handle() matches Some(handle) ==> (has_hung_up(old(self).sender())
                ==> call_requires(join, (handle,))),
            call_requires(panicking, ()),
        ensures
            has_hung_up(old(self).sender()),
            final(self).sender() is None,
            final(self).handle() is None,
            exits_with(old(self).handle(), join, panicking, payload),
    {
        // Close the channel to signal the thread to exit.
        close(self.sender.take());
        self.wait_for_exit(join, panicking)
    }

    /// Sends a message to the worker thread.
    ///
    /// If the worker's channel capacity is exhausted, this will block until the worker is available
    /// to accept the message.
    ///
    /// If the thread has exited, which it only does before its channel is closed if it has panicked,
    /// it is joined, and the payload that has to be propagated is returned as an error. `None`
    /// means that there is none: the thread has been joined before, or it is the calling thread
    /// itself that is panicking.
    pub fn send<P, J: FnOnce(H) -> Result<(), P>, Q: FnOnce() -> bool>(
        &mut self,
        msg: I,
        join: J,
        panicking: Q,
    ) -> (result: Result<(), Option<P>>)
        requires
            old(self).sender() is Some,
            old(self).handle() matches Some(handle) ==> forall|error: SendError<I>| #[trigger]
                call_ensures(Sender::<I>::send, (&old(self).sender()->0, msg), Err(error))
                    ==> call_requires(join, (handle,)),
            call_requires(panicking, ()),
        ensures
            final(self).sender() == old(self).sender(),
            exists|sent: Result<(), SendError<I>>|
                {
                    &&& #[trigger] call_ensures(
                        Sender::<I>::send,
                        (&old(self).sender()->0, msg),
                        sent,
                    )
                    &&& match sent {
                        Ok(()) => result is Ok && *final(self) == *old(self),
                        Err(_) => result matches Err(payload) && final(self).handle() is None
                            && exits_with(old(self).handle(), join, panicking, payload),
                    }
                },
    {
        let sent = match &self.sender {
            Some(sender) => call2(Sender::<I>::send, sender, msg),
            None => Ok(()),
        };
        assert(call_ensures(Sender::<I>::send, (&self.sender()->0, msg), sent));
        match sent {
            Ok(()) => Ok(()),
            Err(_) => {
                // The thread has panicked.
                Err(self.wait_for_exit(join, panicking))
            },
        }
    }
}

impl Worker<(), ()> {
    /// Returns a builder that can be used to configure and spawn a [`Worker`].
    pub fn builder() -> (builder: WorkerBuilder)
        ensures
            builder.spec_name() is None,
            builder.spec_capacity() == 0,
    {
        WorkerBuilder { name: None, capacity: 0 }
    }
}

/// The payload of the last panic among the threads that ended with `joined`.
pub open spec fn last_failure<P>(joined: Seq<Result<(), P>>) -> Option<P>
    decreases joined.len(),
{
    if joined.len() == 0 {
        None
    } else {
        match joined.last() {
            Err(payload) => Some(payload),
            Ok(()) => last_failure(joined.drop_last()),
        }
    }
}

/// Whether `joined` is how the threads behind `handles` ended, one by one.
pub open spec fn all_joined<H, P, J: Fn(H) -> Result<(), P>>(
    handles: Seq<H>,
    join: J,
    joined: Seq<Result<(), P>>,
) -> bool {
    &&& joined.len() == handles.len()
    &&& forall|i: int|
        0 <= i < handles.len() ==> call_ensures(join, (handles[i],), #[trigger] joined[i])
}

/// Whether `payload` is what there is to propagate once all threads behind `handles` have been
/// joined, whether or not others before them have panicked. If several of them have, it is the
/// panic of the last one.
pub open spec fn all_exit_with<H, P, J: Fn(H) -> Result<(), P>, Q: FnOnce() -> bool>(
    handles: Seq<H>,
    join: J,
    panicking: Q,
    payload: Option<P>,
) -> bool {
    exists|joined: Seq<Result<(), P>>| #[trigger]
        all_joined(handles, join, joined) && propagates(last_failure(joined), panicking, payload)
}

/// An owned set of [`Worker`] threads that all process the same type of message.
///
/// This can be used to spread identical computations across several threads, when a single thread
/// does not provide enough throughput for the application.
///
/// When [`WorkerSet::send`] is called, or the [`WorkerSet`] is closed, panics from the worker
/// threads are handed out to be propagated to the owning thread. If more than one worker thread has
/// panicked, the panic payload of one of the panicked threads will be propagated.
#[verifier::reject_recursive_types(I)]
pub struct WorkerSet<I, H> {
    sender: Option<Sender<I>>,
    handles: Vec<H>,
    /// Raised when any thread panics.
    panic_flag: Flag<WATCHER>,
}

impl<I, H> WorkerSet<I, H> {
    /// The sending end of the channel of all workers, unless it has been closed.
    pub closed spec fn sender(&self) -> Option<Sender<I>> {
        self.sender
    }

    /// The handles of the worker threads that have not been joined, in the order of their index.
    pub closed spec fn handles(&self) -> Seq<H> {
        self.handles@
    }

    /// What the worker threads raise when they panic.
    pub closed spec fn panic_flag(&self) -> Arc<AtomicBool> {
        self.panic_flag.shared()
    }

    /// Whether a look at the flag may find that a worker thread has panicked, or that none has.
    pub closed spec fn may_have_panicked(&self, panicked: bool) -> bool {
        self.panic_flag.may_be(panicked)
    }

    /// Whether `after` is this set with all its threads joined, and `payload` is what is left to be
    /// propagated.
    pub open spec fn gives_up<P, J: Fn(H) -> Result<(), P>, Q: FnOnce() -> bool>(
        &self,
        after: &Self,
        join: J,
        panicking: Q,
        payload: Option<P>,
    ) -> bool {
        &&& after.handles() == Seq::<H>::empty()
        &&& after.panic_flag() == self.panic_flag()
        &&& all_exit_with(self.handles(), join, panicking, payload)
    }

    /// Joins all threads that have not been joined yet, and returns the payload of a panic that has
    /// to be propagated.
    fn wait_for_exit<P, J: Fn(H) -> Result<(), P>, Q: FnOnce() -> bool>(
        &mut self,
        join: J,
        panicking: Q,
    ) -> (payload: Option<P>)
        requires
            forall|handle: H| #[trigger] call_requires(join, (handle,)),
            call_requires(panicking, ()),
        ensures
            final(self).sender() == old(self).sender(),
            old(self).gives_up(final(self), join, panicking, payload),
    {
        let mut handles: Vec<H> = Vec::new();
        std::mem::swap(&mut self.handles, &mut handles);
        let ghost all = handles@;
        let mut failure: Option<P> = None;
        let ghost mut joined: Seq<Result<(), P>> = Seq::empty();
        for handle in iter: handles
            invariant
                iter.seq() == all,
                joined.len() == iter.index(),
                forall|i: int|
                    0 <= i < iter.index() ==> call_ensures(join, (all[i],), #[trigger] joined[i]),
                failure == last_failure(joined),
                forall|handle: H| #[trigger] call_requires(join, (handle,)),
        {
            let outcome = call1(&join, handle);
            proof {
                let ghost before = joined;
                joined = joined.push(outcome);
                assert(joined.drop_last() == before);
            }
            if let Err(payload) = outcome {
                failure = Some(payload);
            }
        }
        assert(all_joined(all, join, joined));
        propagate(failure, panicking)
    }

    /// Whether the channel is open, so that messages can be sent.
    pub fn is_open(&self) -> (open: bool)
        ensures
            open == (self.sender() is Some),
    {
        self.sender.is_some()
    }

    /// Closes the channel, which makes the threads exit once they have handled what was sent to
    /// them. Joins all threads that have not been joined yet, and returns the payload of a panic
    /// that has to be propagated.
    ///
    /// This has to happen before a [`WorkerSet`] is let go of. `join` joins a thread, and may rely
    /// on the channel having been closed. `panicking` tells whether the calling thread is panicking.
    pub fn close<P, J: Fn(H) -> Result<(), P>, Q: FnOnce() -> bool>(
        &mut self,
        join: J,
        panicking: Q,
    ) -> (payload: Option<P>)
        requires
            has_hung_up(old(self).sender()) ==> forall|handle: H| #[trigger]
                call_requires(join, (handle,)),
            call_requires(panicking, ()),
        ensures
            has_hung_up(old(self).sender()),
            final(self).sender() is None,
            old(self).gives_up(final(self), join, panicking, payload),
    {
        // Close the channel to signal the threads to exit.
        close(self.sender.take());
        self.wait_for_exit(join, panicking)
    }

    /// Sends a message to one of the worker threads in this set.
    ///
    /// If no worker is available to process the message, this will block until one is available.
    ///
    /// If a worker has panicked, all threads are made to exit and joined, and the payload that has
    /// to be propagated is returned as an error. `None` means that there is none: the threads have
    /// been joined before, or it is the calling thread itself that is panicking.
    ///
    /// `join` joins a thread. It may rely on the channel having been closed, or on nobody being left
    /// to receive from it: only then do all threads exit.
    pub fn send<P, J: Fn(H) -> Result<(), P>, Q: FnOnce() -> bool>(
        &mut self,
        msg: I,
        join: J,
        panicking: Q,
    ) -> (result: Result<(), Option<P>>)
        requires
            old(self).sender() is Some,
            has_hung_up(old(self).sender()) ==> forall|handle: H| #[trigger]
                call_requires(join, (handle,)),
            forall|error: SendError<I>, handle: H|
                #[trigger] call_ensures(
                    Sender::<I>::send,
                    (&old(self).sender()->0, msg),
                    Err(error),
                ) ==> #[trigger] call_requires(join, (handle,)),
            call_requires(panicking, ()),
        ensures
            exists|panicked: bool| #[trigger]
                old(self).may_have_panicked(panicked) && if panicked {
                    &&& final(self).sender() is None
                    &&& result matches Err(payload) && old(self).gives_up(
                        final(self),
                        join,
                        panicking,
                        payload,
                    )
                } else {
                    exists|sent: Result<(), SendError<I>>|
                        {
                            &&& #[trigger] call_ensures(
                                Sender::<I>::send,
                                (&old(self).sender()->0, msg),
                                sent,
                            )
                            &&& match sent {
                                Ok(()) => result is Ok && *final(self) == *old(self),
                                Err(_) => {
                                    &&& final(self).sender() == old(self).sender()
                                    &&& result matches Err(payload) && old(self).gives_up(
                                        final(self),
                                        join,
                                        panicking,
                                        payload,
                                    )
                                },
                            }
                        }
                },
    {
        let panicked = self.panic_flag.is_up();
        assert(self.may_have_panicked(panicked));
        if panicked {
            // A thread has panicked. Close the channel to signal all threads to exit.
            return Err(self.close(join, panicking));
        }
        let sent = match &self.sender {
            Some(sender) => call2(Sender::<I>::send, sender, msg),
            None => Ok(()),
        };
        assert(call_ensures(Sender::<I>::send, (&self.sender()->0, msg), sent));
        match sent {
            Ok(()) => Ok(()),
            Err(_) => {
                // All threads have panicked.
                Err(self.wait_for_exit(join, panicking))
            },
        }
    }

    /// Sends a message to one of the worker threads in this set if one is available to process it
    /// at once, and hands the message back if not.
    ///
    /// If a worker has panicked, this does what [`WorkerSet::send`] does.
    pub fn try_send<P, J: Fn(H) -> Result<(), P>, Q: FnOnce() -> bool>(
        &mut self,
        msg: I,
        join: J,
        panicking: Q,
    ) -> (result: Result<(), Unsent<I, P>>)
        requires
            old(self).sender() is Some,
            has_hung_up(old(self).sender()) ==> forall|handle: H| #[trigger]
                call_requires(join, (handle,)),
            forall|back: I, handle: H|
                #[trigger] call_ensures(
                    Sender::<I>::try_send,
                    (&old(self).sender()->0, msg),
                    Err(TrySendError::Disconnected(back)),
                ) ==> #[trigger] call_requires(join, (handle,)),
            call_requires(panicking, ()),
        ensures
            exists|panicked: bool| #[trigger]
                old(self).may_have_panicked(panicked) && if panicked {
                    &&& final(self).sender() is None
                    &&& result matches Err(Unsent::Exited(payload)) && old(self).gives_up(
                        final(self),
                        join,
                        panicking,
                        payload,
                    )
                } else {
                    exists|sent: Result<(), TrySendError<I>>|
                        {
                            &&& #[trigger] call_ensures(
                                Sender::<I>::try_send,
                                (&old(self).sender()->0, msg),
                                sent,
                            )
                            &&& match sent {
                                Ok(()) => result is Ok && *final(self) == *old(self),
                                Err(TrySendError::Full(_)) => {
                                    &&& *final(self) == *old(self)
                                    &&& result == Err::<(), Unsent<I, P>>(Unsent::Busy(msg))
                                },
                                Err(TrySendError::Disconnected(_)) => {
                                    &&& final(self).sender() == old(self).sender()
                                    &&& result matches Err(Unsent::Exited(payload))
                                        && old(self).gives_up(
                                        final(self),
                                        join,
                                        panicking,
                                        payload,
                                    )
                                },
                            }
                        }
                },
    {
        let panicked = self.panic_flag.is_up();
        assert(self.may_have_panicked(panicked));
        if panicked {
            // A thread has panicked. Close the channel to signal all threads to exit.
            return Err(Unsent::Exited(self.close(join, panicking)));
        }
        let sent = match &self.sender {
            Some(sender) => call2(Sender::<I>::try_send, sender, msg),
            None => Ok(()),
        };
        assert(call_ensures(Sender::<I>::try_send, (&self.sender()->0, msg), sent));
        match sent {
            Ok(()) => Ok(()),
            Err(TrySendError::Full(back)) => Err(Unsent::Busy(back)),
            Err(TrySendError::Disconnected(_)) => {
                // All threads have panicked.
                Err(Unsent::Exited(self.wait_for_exit(join, panicking)))
            },
        }
    }
}

impl WorkerSet<(), ()> {
    /// Returns a builder that can be used to configure and spawn a [`WorkerSet`].
    pub fn builder() -> (builder: WorkerSetBuilder)
        ensures
            builder.spec_name() is None,
    {
        WorkerSetBuilder { name: None }
    }
}

/// Why [`WorkerSet::try_send`] did not send a message.
pub enum Unsent<I, P> {
    /// No worker was available. This is the message.
    Busy(I),
    /// A worker has panicked, and all threads have exited. This is the payload that has to be
    /// propagated, if there is one.
    Exited(Option<P>),
}

/// What a thread of a [`WorkerSet`] does: run its [`WorkerSetLoop`], and raise a flag if that panics.
#[verifier::reject_recursive_types(I)]
#[verifier::reject_recursive_types(F)]
pub struct WorkerSetTask<I, F> {
    messages: WorkerSetLoop<I, F>,
    panic_flag: Flag<RAISER>,
}

impl<I, F> WorkerSetTask<I, F> {
    /// What receives the messages and handles them.
    pub closed spec fn messages(&self) -> WorkerSetLoop<I, F> {
        self.messages
    }

    /// What is raised if the task panics.
    pub closed spec fn panic_flag(&self) -> Arc<AtomicBool> {
        self.panic_flag.shared()
    }

    /// Whether the task has raised its flag.
    pub closed spec fn is_flagged(&self) -> bool {
        self.panic_flag.was_raised_here()
    }

    /// Whether the flag has been raised for the owner to see.
    pub closed spec fn has_been_flagged(&self) -> bool {
        self.panic_flag.has_been_raised()
    }

    /// Runs the task with `catch`, which takes all steps of the loop and catches a panic on the way.
    /// Raises the flag if there was one, and returns its payload for the thread to go on unwinding
    /// with.
    pub fn run<P, C: FnOnce(&mut WorkerSetLoop<I, F>) -> Result<(), P>>(
        &mut self,
        catch: C,
    ) -> (payload: Option<P>)
        requires
            forall|messages: &mut WorkerSetLoop<I, F>|
                *messages == old(self).messages() ==> #[trigger] call_requires(catch, (messages,)),
        ensures
            final(self).panic_flag() == old(self).panic_flag(),
            exists|messages: &mut WorkerSetLoop<I, F>, caught: Result<(), P>|
                {
                    &&& *messages == old(self).messages()
                    &&& *final(messages) == final(self).messages()
                    &&& #[trigger] call_ensures(catch, (messages,), caught)
                    &&& payload == caught.err()
                    &&& final(self).is_flagged() == (old(self).is_flagged() || caught is Err)
                    &&& caught is Err ==> final(self).has_been_flagged()
                },
    {
        match call1(catch, &mut self.messages) {
            Ok(()) => None,
            Err(payload) => {
                self.panic_flag.raise();
                Some(payload)
            },
        }
    }
}

/// Receives messages and handles them, until nobody is left to send any.
#[verifier::reject_recursive_types(I)]
#[verifier::reject_recursive_types(F)]
pub struct WorkerSetLoop<I, F> {
    inbox: Inbox<I>,
    handler: Handler<I, Arc<F>>,
}

impl<I, F> WorkerSetLoop<I, F> {
    /// Where the messages come from.
    pub closed spec fn receiver(&self) -> Receiver<I> {
        self.inbox.receiver()
    }

    /// What handles the messages.
    pub closed spec fn handler(&self) -> Arc<F> {
        self.handler.function()
    }

    /// What has been received so far.
    pub closed spec fn received(&self) -> Seq<Result<I, RecvError>> {
        self.inbox.received()
    }

    /// The messages that have been handled so far.
    pub closed spec fn handled(&self) -> Seq<I> {
        self.handler.handled()
    }

    /// Whether nothing has been received and nothing has been handled yet.
    pub open spec fn is_new(&self) -> bool {
        self.received().len() == 0 && self.handled().len() == 0
    }

    /// Whether the messages that have been received are those that have been handled, each of them
    /// once, in the order in which they were received.
    pub open spec fn is_caught_up(&self) -> bool {
        self.handled() == messages(self.received())
    }

    /// Waits for a message. There is none once nobody is left to send any.
    pub(crate) fn receive(&mut self) -> (received: Result<I, RecvError>)
        ensures
            call_ensures(Receiver::<I>::recv, (&old(self).receiver(),), received),
            final(self).receiver() == old(self).receiver(),
            final(self).handler() == old(self).handler(),
            final(self).received() == old(self).received().push(received),
            final(self).handled() == old(self).handled(),
    {
        self.inbox.receive()
    }
}

impl<I, A, F> WorkerSetLoop<(I, A), F> {
    /// Handles the first half of a message as [`Handler::attempt`] does.
    pub(crate) fn attempt<R, C: FnOnce(&F, I) -> R>(&mut self, attempt: C, message: (I, A)) -> (out:
        (R, A))
        requires
            call_requires(attempt, (&*old(self).handler(), message.0)),
        ensures
            call_ensures(attempt, (&*old(self).handler(), message.0), out.0),
            out.1 == message.1,
            final(self).receiver() == old(self).receiver(),
            final(self).handler() == old(self).handler(),
            final(self).received() == old(self).received(),
            final(self).handled() == old(self).handled().push(message),
    {
        self.handler.attempt(attempt, message)
    }
}

impl<I, F: Fn(I)> WorkerSetLoop<I, F> {
    /// Waits for a message and handles it. Returns whether there was one, or else the loop is done.
    pub fn step(&mut self) -> (more: bool)
        requires
            forall|message: I| #[trigger] call_requires(*old(self).handler(), (message,)),
        ensures
            final(self).receiver() == old(self).receiver(),
            final(self).handler() == old(self).handler(),
            exists|received: Result<I, RecvError>|
                {
                    &&& #[trigger] call_ensures(
                        Receiver::<I>::recv,
                        (&old(self).receiver(),),
                        received,
                    )
                    &&& more == (received is Ok)
                    &&& final(self).received() == old(self).received().push(received)
                    &&& match received {
                        Ok(message) => {
                            &&& call_ensures(*old(self).handler(), (message,), ())
                            &&& final(self).handled() == old(self).handled().push(message)
                        },
                        Err(_) => final(self).handled() == old(self).handled(),
                    }
                },
    {
        match self.receive() {
            Ok(message) => {
                assert(call_requires(*self.handler(), (message,)));
                self.handler.handle_shared(message);
                true
            },
            Err(_) => false,
        }
    }
}

/// A builder object that can be used to configure and spawn a [`WorkerSet`].
pub struct WorkerSetBuilder {
    name: Option<String>,
}

impl WorkerSetBuilder {
    /// The base name that the threads will have.
    pub closed spec fn spec_name(&self) -> Option<String> {
        self.name
    }

    /// A builder for threads with the given base name, if there is one.
    pub(crate) fn with_name(name: Option<String>) -> (builder: Self)
        ensures
            builder.spec_name() == name,
    {
        WorkerSetBuilder { name }
    }

    /// Sets the base name of the [`WorkerSet`] threads.
    ///
    /// Each thread spawned will be named according to this base name and its index.
    pub fn name<N: Into<String>>(self, name: N) -> (builder: Self)
        ensures
            builder.spec_name() matches Some(text) && call_ensures(
                <N as Into<String>>::into,
                (name,),
                text,
            ),
    {
        Self { name: Some(call1(<N as Into<String>>::into, name)) }
    }

    /// Spawns a [`WorkerSet`] of `count` threads that uses `handler` to process incoming messages.
    ///
    /// Unlike [`WorkerBuilder::spawn`], this method requires `handler` to implement [`Fn`] (not
    /// just [`FnMut`]), because it is shared across all threads in the set, and may execute several
    /// times at once.
    ///
    /// `spawn` starts a thread with the given name, which runs the task to completion. If that fails
    /// for one of the threads, no further thread is started, and the others exit by themselves.
    pub fn spawn<I, F, H, E, S>(self, count: usize, handler: F, spawn: S) -> (result: Result<
        WorkerSet<I, H>,
        E,
    >) where
        F: Fn(I),
        S: Fn(Option<String>, WorkerSetTask<I, F>) -> Result<H, E>,

        requires
            count > 0,
            forall|name: Option<String>, task: WorkerSetTask<I, F>| #[trigger]
                call_requires(spawn, (name, task)),
        ensures
            spawns_all(spawn, self.spec_name(), count, handler, result),
            result matches Ok(set) ==> set.sender() matches Some(sender) && exists|
                receiver: Receiver<I>,
            | #[trigger]
                call_ensures(bounded::<I>, (0,), (sender, receiver)),
    {
        self.spawn_tasks(count, handler, spawn)
    }

    /// [`WorkerSetBuilder::spawn`] for a handler of any type, which the tasks share.
    pub(crate) fn spawn_tasks<I, F, H, E, S>(self, count: usize, handler: F, spawn: S) -> (result:
        Result<WorkerSet<I, H>, E>) where
        S: Fn(Option<String>, WorkerSetTask<I, F>) -> Result<H, E>,

        requires
            count > 0,
            forall|name: Option<String>, task: WorkerSetTask<I, F>| #[trigger]
                call_requires(spawn, (name, task)),
        ensures
            spawns_all(spawn, self.spec_name(), count, handler, result),
            result matches Ok(set) ==> set.sender() matches Some(sender) && exists|
                receiver: Receiver<I>,
            | #[trigger]
                call_ensures(bounded::<I>, (0,), (sender, receiver)),
    {
        let flag = Flag::new();
        let ghost panic_flag = flag.shared();
        let shared = Arc::new(handler);
        let mut handles: Vec<H> = Vec::new();
        let (sender, receiver) = call1(bounded::<I>, 0);
        let mut i: usize = 0;
        while i < count
            invariant
                i <= count,
                handles.len() == i,
                *shared == handler,
                panic_flag == flag.shared(),
                forall|name: Option<String>, task: WorkerSetTask<I, F>| #[trigger]
                    call_requires(spawn, (name, task)),
                forall|j: int|
                    0 <= j < i ==> spawns(
                        spawn,
                        self.spec_name(),
                        j,
                        handler,
                        receiver,
                        panic_flag,
                        Ok::<H, E>(#[trigger] handles@[j]),
                    ),
                call_ensures(bounded::<I>, (0,), (sender, receiver)),
                call_ensures(AtomicBool::new, (false,), *panic_flag),
            decreases count - i,
        {
            let name = match &self.name {
                Some(base) => Some(thread_name(base, i)),
                None => None,
            };
            let messages = WorkerSetLoop {
                inbox: Inbox::new(call1(<Receiver<I> as Clone>::clone, &receiver)),
                handler: Handler::new(shared.clone()),
            };
            let task = WorkerSetTask { messages, panic_flag: flag.share() };
            let spawned = call2(&spawn, name, task);
            assert(spawns(
                spawn,
                self.spec_name(),
                i as int,
                handler,
                receiver,
                panic_flag,
                spawned,
            ));
            match spawned {
                Ok(handle) => handles.push(handle),
                Err(error) => {
                    let failed: Result<WorkerSet<I, H>, E> = Err(error);
                    assert(spawns(
                        spawn,
                        self.spec_name(),
                        i as int,
                        handler,
                        receiver,
                        panic_flag,
                        Err::<H, E>(failed->Err_0),
                    ));
                    assert forall|j: int| 0 <= j < i implies #[trigger] started(
                        spawn,
                        self.spec_name(),
                        j,
                        handler,
                        receiver,
                        panic_flag,
                    ) by {
                        let handle = handles@[j];
                        assert(spawns(
                            spawn,
                            self.spec_name(),
                            j,
                            handler,
                            receiver,
                            panic_flag,
                            Ok::<H, E>(handle),
                        ));
                    }
                    return failed;
                },
            }
            i = i + 1;
        }
        let set = WorkerSet { sender: Some(sender), handles, panic_flag: flag.watch() };
        assert(call_ensures(bounded::<I>, (0,), (set.sender()->0, receiver)));
        Ok(set)
    }
}

/// The digit that stands for `n`, which is less than ten.
pub open spec fn digit(n: nat) -> char {
    seq!['0', '1', '2', '3', '4', '5', '6', '7', '8', '9'][n as int]
}

/// `n` in decimal digits.
pub open spec fn decimal(n: nat) -> Seq<char>
    decreases n,
{
    if n < 10 {
        seq![digit(n)]
    } else {
        decimal(n / 10).push(digit(n % 10))
    }
}

/// Whether `name` is what the thread with the index `index` is called in a set with the base name
/// `base`.
pub open spec fn names_thread(base: Option<String>, index: int, name: Option<String>) -> bool {
    match base {
        None => name is None,
        Some(base) => name matches Some(name) && name@ == base@ + seq!['-'] + decimal(
            index as nat,
        ),
    }
}

/// Whether `spawned` may come from starting the thread with the index `index`: it is what `spawn`
/// gives for the name of that thread, and for a task that shares the handler, the channel and the
/// flag.
pub open spec fn spawns<
    I,
    F,
    H,
    E,
    S: Fn(Option<String>, WorkerSetTask<I, F>) -> Result<H, E>,
>(
    spawn: S,
    base: Option<String>,
    index: int,
    handler: F,
    receiver: Receiver<I>,
    panic_flag: Arc<AtomicBool>,
    spawned: Result<H, E>,
) -> bool {
    exists|name: Option<String>, task: WorkerSetTask<I, F>|
        {
            &&& #[trigger] call_ensures(spawn, (name, task), spawned)
            &&& names_thread(base, index, name)
            &&& *task.messages().handler() == handler
            &&& task.messages().is_new()
            &&& task.panic_flag() == panic_flag
            &&& !task.is_flagged()
            &&& call_ensures(
                <Receiver<I> as Clone>::clone,
                (&receiver,),
                task.messages().receiver(),
            )
        }
}

/// Whether the thread with the index `index` has been started.
pub open spec fn started<
    I,
    F,
    H,
    E,
    S: Fn(Option<String>, WorkerSetTask<I, F>) -> Result<H, E>,
>(
    spawn: S,
    base: Option<String>,
    index: int,
    handler: F,
    receiver: Receiver<I>,
    panic_flag: Arc<AtomicBool>,
) -> bool {
    exists|handle: H| #[trigger]
        spawns(spawn, base, index, handler, receiver, panic_flag, Ok::<H, E>(handle))
}

/// Whether `result` may come from starting a set of `count` threads: all of them have been started,
/// each with its own name and index, or starting one of them has failed after those before it had
/// been started.
pub open spec fn spawns_all<
    I,
    F,
    H,
    E,
    S: Fn(Option<String>, WorkerSetTask<I, F>) -> Result<H, E>,
>(
    spawn: S,
    base: Option<String>,
    count: usize,
    handler: F,
    result: Result<WorkerSet<I, H>, E>,
) -> bool {
    exists|sender: Sender<I>, receiver: Receiver<I>, panic_flag: Arc<AtomicBool>|
        {
            &&& #[trigger] call_ensures(bounded::<I>, (0,), (sender, receiver))
            &&& #[trigger] call_ensures(AtomicBool::new, (false,), *panic_flag)
            &&& match result {
                Ok(set) => {
                    &&& set.sender() == Some(sender)
                    &&& set.panic_flag() == panic_flag
                    &&& set.handles().len() == count
                    &&& forall|i: int|
                        0 <= i < count ==> spawns(
                            spawn,
                            base,
                            i,
                            handler,
                            receiver,
                            panic_flag,
                            Ok::<H, E>(#[trigger] set.handles()[i]),
                        )
                },
                Err(error) => exists|i: int|
                    {
                        &&& 0 <= i < count
                        &&& #[trigger] spawns(
                            spawn,
                            base,
                            i,
                            handler,
                            receiver,
                            panic_flag,
                            Err::<H, E>(error),
                        )
                        &&& forall|j: int|
                            0 <= j < i ==> #[trigger] started(
                                spawn,
                                base,
                                j,
                                handler,
                                receiver,
                                panic_flag,
                            )
                    },
            }
        }
}

/// [`std::string::ToString::to_string`] on an index: writes it in decimal digits.
#[verifier::external_body]
fn index_to_string(index: usize) -> (digits: String)
    ensures
        digits@ == decimal(index as nat),
{
    index.to_string()
}

/// The base name, a dash, and the index in decimal digits.
fn thread_name(base: &String, index: usize) -> (name: String)
    ensures
        name@ == base@ + seq!['-'] + decimal(index as nat),
{
    let digits = index_to_string(index);
    proof {
        reveal_strlit("-");
    }
    assert("-"@ == seq!['-']);
    base.clone().concat("-").concat(digits.as_str())
}

/// A worker handles every message that it receives, once, in the order in which it receives them, and
/// nothing else: that holds of a new worker, and every step keeps it so. A worker is done exactly when
/// there was nothing to receive.
pub proof fn worker_handles_what_it_receives<I, F: FnMut(I)>(
    steps: Seq<&mut WorkerTask<I, F>>,
    more: Seq<bool>,
)
    requires
        steps.len() > 0,
        more.len() == steps.len(),
        steps[0].is_new(),
        forall|i: int|
            0 <= i < steps.len() ==> call_ensures(
                WorkerTask::<I, F>::step,
                (#[trigger] steps[i],),
                more[i],
            ),
        forall|i: int, j: int|
            0 <= i && j == i + 1 && j < steps.len() ==> *(#[trigger] steps[j]) == *final(
                #[trigger] steps[i]
            ),
    ensures
        final(steps.last()).is_caught_up(),
        final(steps.last()).received().len() == steps.len(),
        forall|i: int|
            0 <= i < steps.len() ==> #[trigger] more[i] == (final(steps.last()).received()[i] is Ok),
        final(steps.last()).receiver() == steps[0].receiver(),
        final(steps.last()).handler() == steps[0].handler(),
    decreases steps.len(),
{
    let n = steps.len() - 1;
    let last = steps[n];
    assert(call_ensures(WorkerTask::<I, F>::step, (last,), more[n]));
    if n > 0 {
        let before = steps.drop_last();
        worker_handles_what_it_receives(before, more.drop_last());
        assert(before.last() == steps[n - 1]);
        assert(*last == *final(before.last()));
        assert forall|i: int| 0 <= i < n implies #[trigger] more[i] == ((*last).received()[i] is Ok) by {
            assert(more.drop_last()[i] == more[i]);
        }
    } else {
        assert((*last).handled() =~= Seq::<I>::empty());
    }
    step_stays_caught_up(last, more[n]);
    assert forall|i: int| 0 <= i < steps.len() implies #[trigger] more[i] == (final(
        last
    ).received()[i] is Ok) by {
        if i < n {
            assert(final(last).received().drop_last()[i] == final(last).received()[i]);
        }
    }
}

/// A step handles the message that it receives, and no other.
proof fn step_stays_caught_up<I, F: FnMut(I)>(task: &mut WorkerTask<I, F>, more: bool)
    requires
        call_ensures(WorkerTask::<I, F>::step, (task,), more),
        task.is_caught_up(),
    ensures
        final(task).is_caught_up(),
        final(task).receiver() == old(task).receiver(),
        final(task).handler() == old(task).handler(),
        final(task).received().drop_last() == old(task).received(),
        final(task).received().len() == old(task).received().len() + 1,
        more == (final(task).received().last() is Ok),
{
    assert(final(task).received().drop_last() == old(task).received());
}

/// Each thread of a set handles every message that it receives, once, in the order in which it receives
/// them, and nothing else: that holds of a new thread, and every step keeps it so. A thread is done
/// exactly when there was nothing to receive.
pub proof fn worker_set_handles_what_it_receives<I, F: Fn(I)>(
    steps: Seq<&mut WorkerSetLoop<I, F>>,
    more: Seq<bool>,
)
    requires
        steps.len() > 0,
        more.len() == steps.len(),
        steps[0].is_new(),
        forall|i: int|
            0 <= i < steps.len() ==> call_ensures(
                WorkerSetLoop::<I, F>::step,
                (#[trigger] steps[i],),
                more[i],
            ),
        forall|i: int, j: int|
            0 <= i && j == i + 1 && j < steps.len() ==> *(#[trigger] steps[j]) == *final(
                #[trigger] steps[i]
            ),
    ensures
        final(steps.last()).is_caught_up(),
        final(steps.last()).received().len() == steps.len(),
        forall|i: int|
            0 <= i < steps.len() ==> #[trigger] more[i] == (final(steps.last()).received()[i] is Ok),
        final(steps.last()).receiver() == steps[0].receiver(),
        final(steps.last()).handler() == steps[0].handler(),
    decreases steps.len(),
{
    let n = steps.len() - 1;
    let last = steps[n];
    assert(call_ensures(WorkerSetLoop::<I, F>::step, (last,), more[n]));
    if n > 0 {
        let before = steps.drop_last();
        worker_set_handles_what_it_receives(before, more.drop_last());
        assert(before.last() == steps[n - 1]);
        assert(*last == *final(before.last()));
        assert forall|i: int| 0 <= i < n implies #[trigger] more[i] == ((*last).received()[i] is Ok) by {
            assert(more.drop_last()[i] == more[i]);
        }
    } else {
        assert((*last).handled() =~= Seq::<I>::empty());
    }
    set_step_stays_caught_up(last, more[n]);
    assert forall|i: int| 0 <= i < steps.len() implies #[trigger] more[i] == (final(
        last
    ).received()[i] is Ok) by {
        if i < n {
            assert(final(last).received().drop_last()[i] == final(last).received()[i]);
        }
    }
}

/// A step of a thread of a set handles the message that it receives, and no other.
proof fn set_step_stays_caught_up<I, F: Fn(I)>(task: &mut WorkerSetLoop<I, F>, more: bool)
    requires
        call_ensures(WorkerSetLoop::<I, F>::step, (task,), more),
        task.is_caught_up(),
    ensures
        final(task).is_caught_up(),
        final(task).receiver() == old(task).receiver(),
        final(task).handler() == old(task).handler(),
        final(task).received().drop_last() == old(task).received(),
        final(task).received().len() == old(task).received().len() + 1,
        more == (final(task).received().last() is Ok),
{
    assert(final(task).received().drop_last() == old(task).received());
}

/// The panic of a worker is propagated once: after [`Worker::send`] has reported that the worker has
/// exited, closing it finds nothing more to join and propagates nothing.
pub proof fn worker_panic_is_propagated_once<
    I,
    H,
    P,
    J: FnOnce(H) -> Result<(), P>,
    Q: FnOnce() -> bool,
>(
    sending: &mut Worker<I, H>,
    msg: I,
    join: J,
    panicking: Q,
    payload: Option<P>,
    closing: &mut Worker<I, H>,
    rejoin: J,
    still_panicking: Q,
    repeated: Option<P>,
)
    requires
        call_ensures(
            Worker::<I, H>::send::<P, J, Q>,
            (sending, msg, join, panicking),
            Err::<(), Option<P>>(payload),
        ),
        *closing == *final(sending),
        call_ensures(
            Worker::<I, H>::close::<P, J, Q>,
            (closing, rejoin, still_panicking),
            repeated,
        ),
    ensures
        repeated is None,
{
}

/// The panics of a set of workers are propagated once: after [`WorkerSet::send`] has reported that
/// the workers have exited, closing the set finds nothing more to join and propagates nothing.
pub proof fn worker_set_panic_is_propagated_once<
    I,
    H,
    P,
    J: Fn(H) -> Result<(), P>,
    Q: FnOnce() -> bool,
>(
    sending: &mut WorkerSet<I, H>,
    msg: I,
    join: J,
    panicking: Q,
    payload: Option<P>,
    closing: &mut WorkerSet<I, H>,
    rejoin: J,
    still_panicking: Q,
    repeated: Option<P>,
)
    requires
        call_ensures(
            WorkerSet::<I, H>::send::<P, J, Q>,
            (sending, msg, join, panicking),
            Err::<(), Option<P>>(payload),
        ),
        *closing == *final(sending),
        call_ensures(
            WorkerSet::<I, H>::close::<P, J, Q>,
            (closing, rejoin, still_panicking),
            repeated,
        ),
    ensures
        repeated is None,
{
}

/// All threads of a set are joined once: closing a set again finds nothing more to join and propagates
/// nothing.
pub proof fn second_close_propagates_nothing<
    I,
    H,
    P,
    J: Fn(H) -> Result<(), P>,
    Q: FnOnce() -> bool,
>(
    first: &mut WorkerSet<I, H>,
    join: J,
    panicking: Q,
    payload: Option<P>,
    second: &mut WorkerSet<I, H>,
    rejoin: J,
    still_panicking: Q,
    repeated: Option<P>,
)
    requires
        call_ensures(WorkerSet::<I, H>::close::<P, J, Q>, (first, join, panicking), payload),
        *second == *final(first),
        call_ensures(
            WorkerSet::<I, H>::close::<P, J, Q>,
            (second, rejoin, still_panicking),
            repeated,
        ),
    ensures
        final(first).handles() == Seq::<H>::empty(),
        repeated is None,
{
}

/// No panic of a set of workers is lost: unless the owner is itself panicking, there is a payload to
/// propagate if and only if a thread has panicked, and it is the payload of the last such thread.
pub proof fn some_panic_is_propagated<H, P, J: Fn(H) -> Result<(), P>, Q: FnOnce() -> bool>(
    handles: Seq<H>,
    join: J,
    panicking: Q,
    payload: Option<P>,
)
    requires
        all_exit_with(handles, join, panicking, payload),
        !call_ensures(panicking, (), true),
    ensures
        exists|joined: Seq<Result<(), P>>| #[trigger]
            all_joined(handles, join, joined) && match payload {
                None => forall|i: int| 0 <= i < joined.len() ==> joined[i] is Ok,
                Some(panic) => exists|last: int|
                    {
                        &&& 0 <= last < joined.len()
                        &&& #[trigger] joined[last] == Err::<(), P>(panic)
                        &&& forall|i: int| last < i < joined.len() ==> joined[i] is Ok
                    },
            },
{
    let joined = choose|joined: Seq<Result<(), P>>| #[trigger]
        all_joined(handles, join, joined) && propagates(last_failure(joined), panicking, payload);
    last_failure_is_last(joined);
}

/// What [`last_failure`] says of the sequence as a whole.
proof fn last_failure_is_last<P>(joined: Seq<Result<(), P>>)
    ensures
        match last_failure(joined) {
            None => forall|i: int| 0 <= i < joined.len() ==> joined[i] is Ok,
            Some(panic) => exists|last: int|
                {
                    &&& 0 <= last < joined.len()
                    &&& #[trigger] joined[last] == Err::<(), P>(panic)
                    &&& forall|i: int| last < i < joined.len() ==> joined[i] is Ok
                },
        },
    decreases joined.len(),
{
    if joined.len() > 0 {
        let before = joined.drop_last();
        last_failure_is_last(before);
        let end = joined.len() - 1;
        assert(joined[end] == joined.last());
        if joined.last() is Ok {
            if let Some(panic) = last_failure(before) {
                let last = choose|last: int|
                    {
                        &&& 0 <= last < before.len()
                        &&& #[trigger] before[last] == Err::<(), P>(panic)
                        &&& forall|i: int| last < i < before.len() ==> before[i] is Ok
                    };
                assert(joined[last] == Err::<(), P>(panic));
                assert forall|i: int| last < i < joined.len() implies joined[i] is Ok by {
                    assert(i < end ==> before[i] is Ok);
                }
            } else {
                assert forall|i: int| 0 <= i < joined.len() implies joined[i] is Ok by {
                    assert(i < end ==> before[i] is Ok);
                }
            }
        }
    }
}

/// No two threads of a named set have the same name.
pub proof fn thread_names_are_distinct(
    base: String,
    i: int,
    first: Option<String>,
    j: int,
    second: Option<String>,
)
    requires
        0 <= i,
        0 <= j,
        i != j,
        names_thread(Some(base), i, first),
        names_thread(Some(base), j, second),
    ensures
        first->0@ != second->0@,
{
    let stem = base@ + seq!['-'];
    if first->0@ == second->0@ {
        let a = decimal(i as nat);
        let b = decimal(j as nat);
        assert(a =~= first->0@.skip(stem.len() as int));
        assert(b =~= second->0@.skip(stem.len() as int));
        decimal_is_injective(i as nat, j as nat);
    }
}

/// Different numbers have different digits.
proof fn decimal_is_injective(m: nat, n: nat)
    requires
        decimal(m) == decimal(n),
    ensures
        m == n,
    decreases m,
{
    decimal_is_nonempty(m / 10);
    decimal_is_nonempty(n / 10);
    assert(decimal(m).last() == digit(m % 10));
    assert(decimal(n).last() == digit(n % 10));
    if m >= 10 && n >= 10 {
        assert(decimal(m).drop_last() =~= decimal(m / 10));
        assert(decimal(n).drop_last() =~= decimal(n / 10));
        decimal_is_injective(m / 10, n / 10);
    } else {
        assert(decimal(m).len() == decimal(n).len());
    }
}

proof fn decimal_is_nonempty(n: nat)
    ensures
        decimal(n).len() > 0,
    decreases n,
{
    if n >= 10 {
        decimal_is_nonempty(n / 10);
    }
}

/// The number that `digits` stand for.
pub open spec fn number(digits: Seq<char>) -> int
    decreases digits.len(),
{
    if digits.len() == 0 {
        0
    } else {
        10 * number(digits.drop_last()) + (digits.last() as int - '0' as int)
    }
}

/// The digits at the end of a thread's name stand for its index. They are decimal digits, and none
/// of them is superfluous.
pub proof fn thread_name_ends_with_the_index(base: String, index: int, name: Option<String>)
    requires
        0 <= index,
        names_thread(Some(base), index, name),
    ensures
        name is Some,
        name->0@.len() > base@.len() + 1,
        name->0@.take(base@.len() as int) == base@,
        name->0@[base@.len() as int] == '-',
        number(name->0@.skip(base@.len() as int + 1)) == index,
        forall|i: int|
            base@.len() < i < name->0@.len() ==> '0' <= #[trigger] name->0@[i] <= '9',
        name->0@[base@.len() as int + 1] == '0' ==> name->0@.len() == base@.len() + 2,
{
    let digits = decimal(index as nat);
    decimal_is_read_back(index as nat);
    assert(name->0@.take(base@.len() as int) =~= base@);
    assert(name->0@.skip(base@.len() as int + 1) =~= digits);
    assert forall|i: int| base@.len() < i < name->0@.len() implies '0' <= #[trigger] name->0@[i]
        <= '9' by {
        assert(name->0@[i] == digits[i - base@.len() - 1]);
    }
    assert(name->0@[base@.len() as int + 1] == digits[0]);
}

/// The digits of a number stand for it.
proof fn decimal_is_read_back(n: nat)
    ensures
        decimal(n).len() > 0,
        number(decimal(n)) == n,
        forall|i: int| 0 <= i < decimal(n).len() ==> '0' <= #[trigger] decimal(n)[i] <= '9',
        decimal(n)[0] == '0' ==> n == 0 && decimal(n).len() == 1,
    decreases n,
{
    reveal_with_fuel(number, 2);
    if n >= 10 {
        decimal_is_read_back(n / 10);
        assert(decimal(n).drop_last() =~= decimal(n / 10));
        assert(decimal(n)[0] == decimal(n / 10)[0]);
    } else {
        assert(decimal(n).drop_last() =~= Seq::empty());
    }
}

/// The threads of a set take messages directly from whoever sends them: whatever their number, the
/// channel of a set holds no message that no thread has received. There are as many threads as were
/// asked for, all of them at the other end of that channel, with the same handler and the same
/// flag, which is down.
pub proof fn set_hands_messages_over_directly<
    I,
    F: Fn(I),
    H,
    E,
    S: Fn(Option<String>, WorkerSetTask<I, F>) -> Result<H, E>,
>(builder: WorkerSetBuilder, count: usize, handler: F, spawn: S, set: WorkerSet<I, H>, i: int)
    requires
        call_ensures(
            WorkerSetBuilder::spawn::<I, F, H, E, S>,
            (builder, count, handler, spawn),
            Ok::<WorkerSet<I, H>, E>(set),
        ),
        0 <= i < count,
    ensures
        set.handles().len() == count,
        call_ensures(AtomicBool::new, (false,), *set.panic_flag()),
        set.sender() is Some,
        exists|receiver: Receiver<I>, name: Option<String>, task: WorkerSetTask<I, F>|
            {
                &&& #[trigger] call_ensures(bounded::<I>, (0,), (set.sender()->0, receiver))
                &&& #[trigger] call_ensures(spawn, (name, task), Ok::<H, E>(set.handles()[i]))
                &&& call_ensures(
                    <Receiver<I> as Clone>::clone,
                    (&receiver,),
                    task.messages().receiver(),
                )
                &&& *task.messages().handler() == handler
                &&& task.messages().received().len() == 0
                &&& task.messages().handled().len() == 0
                &&& task.panic_flag() == set.panic_flag()
                &&& !task.is_flagged()
                &&& match builder.spec_name() {
                    None => name is None,
                    Some(base) => name matches Some(name) && name@ == base@ + seq!['-'] + decimal(
                        i as nat,
                    ),
                }
            },
{
    set_is_spawned(spawn, builder.spec_name(), count, handler, set, i);
}

/// What [`spawns_all`] says of the thread with the index `i`.
pub(crate) proof fn set_is_spawned<
    I,
    F,
    H,
    E,
    S: Fn(Option<String>, WorkerSetTask<I, F>) -> Result<H, E>,
>(spawn: S, base: Option<String>, count: usize, handler: F, set: WorkerSet<I, H>, i: int)
    requires
        spawns_all(spawn, base, count, handler, Ok::<WorkerSet<I, H>, E>(set)),
        0 <= i < count,
    ensures
        set.handles().len() == count,
        call_ensures(AtomicBool::new, (false,), *set.panic_flag()),
        set.sender() is Some,
        exists|receiver: Receiver<I>, name: Option<String>, task: WorkerSetTask<I, F>|
            {
                &&& #[trigger] call_ensures(bounded::<I>, (0,), (set.sender()->0, receiver))
                &&& #[trigger] call_ensures(spawn, (name, task), Ok::<H, E>(set.handles()[i]))
                &&& call_ensures(
                    <Receiver<I> as Clone>::clone,
                    (&receiver,),
                    task.messages().receiver(),
                )
                &&& *task.messages().handler() == handler
                &&& task.messages().received().len() == 0
                &&& task.messages().handled().len() == 0
                &&& task.panic_flag() == set.panic_flag()
                &&& !task.is_flagged()
                &&& match base {
                    None => name is None,
                    Some(base) => name matches Some(name) && name@ == base@ + seq!['-'] + decimal(
                        i as nat,
                    ),
                }
            },
{
    let (sender, receiver, panic_flag) = choose|
        sender: Sender<I>,
        receiver: Receiver<I>,
        panic_flag: Arc<AtomicBool>,
    |
        {
            &&& #[trigger] call_ensures(bounded::<I>, (0,), (sender, receiver))
            &&& #[trigger] call_ensures(AtomicBool::new, (false,), *panic_flag)
            &&& set.sender() == Some(sender)
            &&& set.panic_flag() == panic_flag
            &&& set.handles().len() == count
            &&& forall|i: int|
                0 <= i < count ==> spawns(
                    spawn,
                    base,
                    i,
                    handler,
                    receiver,
                    panic_flag,
                    Ok::<H, E>(#[trigger] set.handles()[i]),
                )
        };
    assert(call_ensures(bounded::<I>, (0,), (set.sender()->0, receiver)));
    assert(spawns(
        spawn,
        base,
        i,
        handler,
        receiver,
        panic_flag,
        Ok::<H, E>(set.handles()[i]),
    ));
}

/// If a thread of a set cannot be started, that is reported by the error with which starting it failed.
pub proof fn set_reports_the_thread_that_cannot_be_started<
    I,
    F: Fn(I),
    H,
    E,
    S: Fn(Option<String>, WorkerSetTask<I, F>) -> Result<H, E>,
>(builder: WorkerSetBuilder, count: usize, handler: F, spawn: S, error: E)
    requires
        call_ensures(
            WorkerSetBuilder::spawn::<I, F, H, E, S>,
            (builder, count, handler, spawn),
            Err::<WorkerSet<I, H>, E>(error),
        ),
    ensures
        exists|name: Option<String>, task: WorkerSetTask<I, F>| #[trigger]
            call_ensures(spawn, (name, task), Err::<H, E>(error)) && *task.messages().handler()
                == handler,
{
}

/// Closing a worker lets go of its channel and joins its thread. The payload of its panic is handed out
/// exactly if it panicked and the calling thread is not panicking. Sending a message hands that very
/// message to the channel; if nobody is left to receive it, the thread is joined as by closing.
pub proof fn worker_is_joined_and_its_panic_handed_out<
    I,
    H,
    P,
    J: FnOnce(H) -> Result<(), P>,
    Q: FnOnce() -> bool,
>(
    closing: &mut Worker<I, H>,
    payload: Option<P>,
    sending: &mut Worker<I, H>,
    msg: I,
    result: Result<(), Option<P>>,
    handle: H,
    join: J,
    panicking: Q,
)
    requires
        closing.handle() == Some(handle),
        call_ensures(Worker::<I, H>::close::<P, J, Q>, (closing, join, panicking), payload),
        sending.handle() == Some(handle),
        sending.sender() is Some,
        call_ensures(Worker::<I, H>::send::<P, J, Q>, (sending, msg, join, panicking), result),
    ensures
        final(closing).sender() is None,
        final(closing).handle() is None,
        exists|joined: Result<(), P>| #[trigger]
            call_ensures(join, (handle,), joined) && match joined {
                Ok(_) => payload is None,
                Err(panic) => {
                    ||| payload == Some(panic) && call_ensures(panicking, (), false)
                    ||| payload is None && call_ensures(panicking, (), true)
                },
            },
        exists|sent: Result<(), SendError<I>>| #[trigger]
            call_ensures(Sender::<I>::send, (&old(sending).sender()->0, msg), sent) && sent is Ok
                == result is Ok,
        result is Ok ==> *final(sending) == *old(sending),
        result matches Err(payload) ==> {
            &&& final(sending).handle() is None
            &&& exists|joined: Result<(), P>| #[trigger]
                call_ensures(join, (handle,), joined) && match joined {
                    Ok(_) => payload is None,
                    Err(panic) => {
                        ||| payload == Some(panic) && call_ensures(panicking, (), false)
                        ||| payload is None && call_ensures(panicking, (), true)
                    },
                }
        },
{
}

/// Closing a set lets go of its channel and joins every thread of it, also if an early one has
/// panicked. A payload is handed out exactly if one of them has panicked and the calling thread is
/// not panicking, and it is the payload of the last one that has.
pub proof fn all_threads_of_a_set_are_joined<
    I,
    H,
    P,
    J: Fn(H) -> Result<(), P>,
    Q: FnOnce() -> bool,
>(closing: &mut WorkerSet<I, H>, join: J, panicking: Q, payload: Option<P>)
    requires
        call_ensures(WorkerSet::<I, H>::close::<P, J, Q>, (closing, join, panicking), payload),
    ensures
        final(closing).sender() is None,
        final(closing).handles().len() == 0,
        exists|joined: Seq<Result<(), P>>|
            {
                &&& #[trigger] joined.len() == old(closing).handles().len()
                &&& forall|i: int|
                    0 <= i < joined.len() ==> call_ensures(
                        join,
                        (old(closing).handles()[i],),
                        #[trigger] joined[i],
                    )
                &&& payload matches Some(panic) ==> {
                    &&& exists|i: int|
                        {
                            &&& 0 <= i < joined.len()
                            &&& #[trigger] joined[i] == Err::<(), P>(panic)
                            &&& forall|j: int| i < j < joined.len() ==> #[trigger] joined[j] is Ok
                        }
                    &&& call_ensures(panicking, (), false)
                }
                &&& payload is None ==> {
                    ||| call_ensures(panicking, (), true)
                    ||| forall|i: int| 0 <= i < joined.len() ==> #[trigger] joined[i] is Ok
                }
            },
{
    threads_are_joined(old(closing).handles(), join, panicking, payload);
}

proof fn threads_are_joined<H, P, J: Fn(H) -> Result<(), P>, Q: FnOnce() -> bool>(
    handles: Seq<H>,
    join: J,
    panicking: Q,
    payload: Option<P>,
)
    requires
        all_exit_with(handles, join, panicking, payload),
    ensures
        exists|joined: Seq<Result<(), P>>|
            {
                &&& #[trigger] joined.len() == handles.len()
                &&& forall|i: int|
                    0 <= i < joined.len() ==> call_ensures(
                        join,
                        (handles[i],),
                        #[trigger] joined[i],
                    )
                &&& payload matches Some(panic) ==> {
                    &&& exists|i: int|
                        {
                            &&& 0 <= i < joined.len()
                            &&& #[trigger] joined[i] == Err::<(), P>(panic)
                            &&& forall|j: int| i < j < joined.len() ==> #[trigger] joined[j] is Ok
                        }
                    &&& call_ensures(panicking, (), false)
                }
                &&& payload is None ==> {
                    ||| call_ensures(panicking, (), true)
                    ||| forall|i: int| 0 <= i < joined.len() ==> #[trigger] joined[i] is Ok
                }
            },
{
    let joined = choose|joined: Seq<Result<(), P>>| #[trigger]
        all_joined(handles, join, joined) && propagates(last_failure(joined), panicking, payload);
    last_failure_is_last(joined);
    assert(joined.len() == handles.len());
}

/// Sending to a set looks whether a thread has panicked. If one has, or if nobody is left to
/// receive the message, every thread is joined. Otherwise that very message is handed to the
/// channel.
pub proof fn set_sends_unless_a_thread_has_panicked<
    I,
    H,
    P,
    J: Fn(H) -> Result<(), P>,
    Q: FnOnce() -> bool,
>(
    sending: &mut WorkerSet<I, H>,
    msg: I,
    join: J,
    panicking: Q,
    result: Result<(), Option<P>>,
)
    requires
        sending.sender() is Some,
        call_ensures(WorkerSet::<I, H>::send::<P, J, Q>, (sending, msg, join, panicking), result),
    ensures
        exists|up: bool|
            {
                &&& #[trigger] call_ensures(
                    AtomicBool::load,
                    (&*old(sending).panic_flag(), Ordering::Relaxed),
                    up,
                )
                &&& up ==> result is Err && final(sending).sender() is None
                &&& !up ==> {
                    &&& final(sending).sender() == old(sending).sender()
                    &&& exists|sent: Result<(), SendError<I>>| #[trigger]
                        call_ensures(Sender::<I>::send, (&old(sending).sender()->0, msg), sent)
                            && sent is Ok == result is Ok
                }
            },
        result is Ok ==> *final(sending) == *old(sending),
        result is Err ==> final(sending).handles().len() == 0 && final(sending).panic_flag() == old(
            sending
        ).panic_flag(),
        result matches Err(payload) ==> exists|joined: Seq<Result<(), P>>|
            {
                &&& #[trigger] joined.len() == old(sending).handles().len()
                &&& forall|i: int|
                    0 <= i < joined.len() ==> call_ensures(
                        join,
                        (old(sending).handles()[i],),
                        #[trigger] joined[i],
                    )
                &&& payload matches Some(panic) ==> {
                    &&& exists|i: int|
                        {
                            &&& 0 <= i < joined.len()
                            &&& #[trigger] joined[i] == Err::<(), P>(panic)
                            &&& forall|j: int| i < j < joined.len() ==> #[trigger] joined[j] is Ok
                        }
                    &&& call_ensures(panicking, (), false)
                }
                &&& payload is None ==> {
                    ||| call_ensures(panicking, (), true)
                    ||| forall|i: int| 0 <= i < joined.len() ==> #[trigger] joined[i] is Ok
                }
            },
{
    if let Err(payload) = result {
        threads_are_joined(old(sending).handles(), join, panicking, payload);
    }
}

/// Trying to send to a set never blocks: if no thread is there to take the message at once, that very
/// message is handed back, and the set stays as it is. Otherwise it does as sending does.
pub proof fn set_hands_back_what_nobody_takes_at_once<
    I,
    H,
    P,
    J: Fn(H) -> Result<(), P>,
    Q: FnOnce() -> bool,
>(
    trying: &mut WorkerSet<I, H>,
    msg: I,
    join: J,
    panicking: Q,
    result: Result<(), Unsent<I, P>>,
)
    requires
        trying.sender() is Some,
        call_ensures(
            WorkerSet::<I, H>::try_send::<P, J, Q>,
            (trying, msg, join, panicking),
            result,
        ),
    ensures
        exists|up: bool|
            {
                &&& #[trigger] call_ensures(
                    AtomicBool::load,
                    (&*old(trying).panic_flag(), Ordering::Relaxed),
                    up,
                )
                &&& up ==> (result matches Err(Unsent::Exited(_))) && final(trying).sender() is None
                &&& !up ==> {
                    &&& final(trying).sender() == old(trying).sender()
                    &&& exists|sent: Result<(), TrySendError<I>>|
                        {
                            &&& #[trigger] call_ensures(
                                Sender::<I>::try_send,
                                (&old(trying).sender()->0, msg),
                                sent,
                            )
                            &&& result is Ok == sent is Ok
                            &&& (result matches Err(Unsent::Busy(_))) == (sent matches Err(
                                TrySendError::Full(_),
                            ))
                        }
                }
            },
        result matches Err(Unsent::Busy(back)) ==> back == msg && *final(trying) == *old(trying),
        result is Ok ==> *final(trying) == *old(trying),
        result matches Err(Unsent::Exited(payload)) ==> final(trying).handles().len() == 0 && exists|
            joined: Seq<Result<(), P>>,
        |
            {
                &&& #[trigger] joined.len() == old(trying).handles().len()
                &&& forall|i: int|
                    0 <= i < joined.len() ==> call_ensures(
                        join,
                        (old(trying).handles()[i],),
                        #[trigger] joined[i],
                    )
                &&& payload matches Some(panic) ==> {
                    &&& exists|i: int|
                        {
                            &&& 0 <= i < joined.len()
                            &&& #[trigger] joined[i] == Err::<(), P>(panic)
                            &&& forall|j: int| i < j < joined.len() ==> #[trigger] joined[j] is Ok
                        }
                    &&& call_ensures(panicking, (), false)
                }
                &&& payload is None ==> {
                    ||| call_ensures(panicking, (), true)
                    ||| forall|i: int| 0 <= i < joined.len() ==> #[trigger] joined[i] is Ok
                }
            },
{
    if let Err(Unsent::Exited(payload)) = result {
        threads_are_joined(old(trying).handles(), join, panicking, payload);
    }
}

/// The flag of a task is up after it has run exactly if it was up before, or if it panicked while it
/// ran; and then it is up for the owner to see.
pub proof fn flag_is_raised_iff_the_task_panicked<
    I,
    F,
    P,
    C: FnOnce(&mut WorkerSetLoop<I, F>) -> Result<(), P>,
>(task: &mut WorkerSetTask<I, F>, catch: C, payload: Option<P>)
    requires
        call_ensures(WorkerSetTask::<I, F>::run::<P, C>, (task, catch), payload),
    ensures
        final(task).panic_flag() == old(task).panic_flag(),
        final(task).is_flagged() == (old(task).is_flagged() || payload is Some),
        payload is Some ==> call_ensures(
            AtomicBool::store,
            (&*old(task).panic_flag(), true, Ordering::Relaxed),
            (),
        ),
        exists|messages: &mut WorkerSetLoop<I, F>, caught: Result<(), P>|
            {
                &&& *messages == old(task).messages()
                &&& *final(messages) == final(task).messages()
                &&& #[trigger] call_ensures(catch, (messages,), caught)
                &&& match caught {
                    Ok(()) => payload is None,
                    Err(panic) => payload == Some(panic),
                }
            },
{
}

/// The channel of a worker holds as many messages as were asked for, and none if no capacity was
/// given. The thread is started with the name that was given, and its task is to handle what comes
/// out of that very channel. If it cannot be started, that is reported by the error with which
/// starting it failed.
pub proof fn worker_buffers_as_many_messages_as_asked_for<
    I,
    F: FnMut(I),
    H,
    E,
    S: FnOnce(Option<String>, WorkerTask<I, F>) -> Result<H, E>,
>(
    plain: WorkerBuilder,
    capacity: usize,
    builder: WorkerBuilder,
    handler: F,
    spawn: S,
    result: Result<Worker<I, H>, E>,
    unbuffered: Result<Worker<I, H>, E>,
)
    requires
        call_ensures(Worker::<(), ()>::builder, (), plain),
        call_ensures(WorkerBuilder::capacity, (plain, capacity), builder),
        call_ensures(
            WorkerBuilder::spawn::<I, F, H, E, S>,
            (builder, handler, spawn),
            result,
        ),
        call_ensures(
            WorkerBuilder::spawn::<I, F, H, E, S>,
            (plain, handler, spawn),
            unbuffered,
        ),
    ensures
        result matches Ok(worker) ==> worker.sender() is Some && exists|receiver: Receiver<I>| #[trigger]
            call_ensures(bounded::<I>, (capacity,), (worker.sender()->0, receiver)),
        unbuffered matches Ok(worker) ==> worker.sender() is Some && exists|
            receiver: Receiver<I>,
        | #[trigger]
            call_ensures(bounded::<I>, (0,), (worker.sender()->0, receiver)),
        exists|task: WorkerTask<I, F>, spawned: Result<H, E>|
            {
                &&& #[trigger] call_ensures(spawn, (None::<String>, task), spawned)
                &&& task.handler() == handler
                &&& task.received().len() == 0
                &&& task.handled().len() == 0
                &&& result is Ok <==> spawned is Ok
                &&& spawned matches Err(error) ==> result->Err_0 == error
                &&& spawned matches Ok(handle) ==> {
                    &&& result->Ok_0.handle() == Some(handle)
                    &&& call_ensures(
                        bounded::<I>,
                        (capacity,),
                        (result->Ok_0.sender()->0, task.receiver()),
                    )
                }
            },
{
}

/// A name that is given to a builder is the name that the thread is started with, and neither the
/// name nor the capacity overrides the other.
pub proof fn worker_has_the_name_that_it_was_given<
    I,
    F: FnMut(I),
    H,
    E,
    S: FnOnce(Option<String>, WorkerTask<I, F>) -> Result<H, E>,
    N: Into<String>,
>(
    builder: WorkerBuilder,
    name: N,
    named: WorkerBuilder,
    capacity: usize,
    sized: WorkerBuilder,
    handler: F,
    spawn: S,
    result: Result<Worker<I, H>, E>,
)
    requires
        call_ensures(WorkerBuilder::name::<N>, (builder, name), named),
        call_ensures(WorkerBuilder::capacity, (named, capacity), sized),
        call_ensures(WorkerBuilder::spawn::<I, F, H, E, S>, (sized, handler, spawn), result),
    ensures
        exists|text: String, task: WorkerTask<I, F>, spawned: Result<H, E>|
            {
                &&& #[trigger] call_ensures(<N as Into<String>>::into, (name,), text)
                &&& #[trigger] call_ensures(spawn, (Some(text), task), spawned)
                &&& result is Ok <==> spawned is Ok
            },
        named.spec_capacity() == builder.spec_capacity(),
{
}

/// A copy of a builder spawns the same workers as the builder itself.
pub proof fn copied_builder_is_configured_alike(builder: WorkerBuilder, copy: WorkerBuilder)
    requires
        call_ensures(WorkerBuilder::clone, (&builder,), copy),
    ensures
        copy.spec_capacity() == builder.spec_capacity(),
        copy.spec_name() is Some <==> builder.spec_name() is Some,
        builder.spec_name() is Some ==> copy.spec_name()->0@ == builder.spec_name()->0@,
{
}

/// A step of a worker receives once. A message that it receives is handled by the handler, and
/// nothing else is; if there is none, nothing is handled, and the worker is done.
pub proof fn step_handles_the_message_that_it_receives<I, F: FnMut(I)>(task: &mut WorkerTask<I, F>, more: bool)
    requires
        call_ensures(WorkerTask::<I, F>::step, (task,), more),
    ensures
        final(task).received().len() == old(task).received().len() + 1,
        final(task).received().drop_last() == old(task).received(),
        call_ensures(
            Receiver::<I>::recv,
            (&old(task).receiver(),),
            final(task).received().last(),
        ),
        more <==> final(task).received().last() is Ok,
        final(task).received().last() matches Ok(message) ==> {
            &&& call_ensures(old(task).handler(), (message,), ())
            &&& final(task).handled().len() == old(task).handled().len() + 1
            &&& final(task).handled().drop_last() == old(task).handled()
            &&& final(task).handled().last() == message
        },
        final(task).received().last() is Err ==> final(task).handled() == old(task).handled(),
{
    assert(final(task).received().drop_last() == old(task).received());
    if final(task).received().last() is Ok {
        assert(final(task).handled().drop_last() == old(task).handled());
    }
}

/// The same holds of a step of a thread of a set.
pub proof fn set_step_handles_the_message_that_it_receives<I, F: Fn(I)>(task: &mut WorkerSetLoop<I, F>, more: bool)
    requires
        call_ensures(WorkerSetLoop::<I, F>::step, (task,), more),
    ensures
        final(task).received().len() == old(task).received().len() + 1,
        final(task).received().drop_last() == old(task).received(),
        call_ensures(
            Receiver::<I>::recv,
            (&old(task).receiver(),),
            final(task).received().last(),
        ),
        more <==> final(task).received().last() is Ok,
        final(task).received().last() matches Ok(message) ==> {
            &&& call_ensures(*old(task).handler(), (message,), ())
            &&& final(task).handled().len() == old(task).handled().len() + 1
            &&& final(task).handled().drop_last() == old(task).handled()
            &&& final(task).handled().last() == message
        },
        final(task).received().last() is Err ==> final(task).handled() == old(task).handled(),
{
    assert(final(task).received().drop_last() == old(task).received());
    if final(task).received().last() is Ok {
        assert(final(task).handled().drop_last() == old(task).handled());
    }
}

} // verus!
