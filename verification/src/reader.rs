//! Background threads that perform reading I/O.
//!
//! This module provides the [`Reader`] type, an owned background thread reading from some stream
//! that implements [`Shutdown`], which allows remotely stopping the blocking operation and exiting
//! the thread.
//!
//! Starting and joining threads is up to the functions that the owner passes in. `H` is the handle
//! by which a thread can be joined, and `P` is the payload of a panic.

use std::sync::Arc;

use vstd::prelude::*;

use crate::call::{call1, call2};
use crate::unwind::{exits_with, propagate};

verus! {

/// Trait for streams that can be shut down externally.
pub trait Shutdown {
    /// Why shutting down can fail.
    type Error;

    /// Shuts down the stream, making any in-progress or future attempt to read from it come to the
    /// end of the stream.
    fn shutdown(&self) -> Result<(), Self::Error>;
}

/// A builder for [`Reader`]s.
pub struct ReaderBuilder {
    name: Option<String>,
}

impl Default for ReaderBuilder {
    fn default() -> (builder: Self)
        ensures
            builder.spec_name() is None,
    {
        ReaderBuilder { name: None }
    }
}

impl ReaderBuilder {
    /// The name that the thread will have.
    pub closed spec fn spec_name(&self) -> Option<String> {
        self.name
    }

    /// Creates a new [`ReaderBuilder`] with default configuration.
    pub fn new() -> (builder: Self)
        ensures
            builder.spec_name() is None,
    {
        Self::default()
    }

    /// Sets the name of the spawned thread.
    pub fn name<N: Into<String>>(self, name: N) -> (builder: Self)
        ensures
            builder.spec_name() matches Some(text) && call_ensures(
                <N as Into<String>>::into,
                (name,),
                text,
            ),
    {
        Self { name: Some(call1(<N as Into<String>>::into, name)) }
    }

    /// Spawns a [`Reader`] that will run `handler` in a separate thread.
    ///
    /// The contract `handler` has to uphold is as follows: no blocking I/O must be performed, except
    /// for reading from `read` (which is passed to `handler`). If this contract is not upheld, the
    /// owning thread might block while waiting on a [`Reader`] thread to exit.
    ///
    /// `spawn` starts a thread with the given name, which runs the task.
    pub fn spawn<R, F, H, E, S>(self, read: R, handler: F, spawn: S) -> (result: Result<
        Reader<R, H>,
        E,
    >) where S: FnOnce(Option<String>, ReaderTask<R, F>) -> Result<H, E>
        requires
            forall|task: ReaderTask<R, F>| #[trigger]
                call_requires(spawn, (self.spec_name(), task)),
        ensures
            exists|task: ReaderTask<R, F>, spawned: Result<H, E>|
                {
                    &&& #[trigger] call_ensures(spawn, (self.spec_name(), task), spawned)
                    &&& task.stream() == read
                    &&& task.handler() == handler
                    &&& match spawned {
                        Ok(handle) => result matches Ok(reader) && {
                            &&& reader.stream() == read
                            &&& reader.thread() == Some(handle)
                        },
                        Err(error) => result == Err::<Reader<R, H>, E>(error),
                    }
                },
    {
        let reader = Arc::new(read);
        let task = ReaderTask { reader: reader.clone(), handler };
        let spawned = call2(spawn, self.name, task);
        assert(call_ensures(spawn, (self.spec_name(), task), spawned));
        match spawned {
            Ok(handle) => Ok(Reader { reader, thread: Some(handle) }),
            Err(error) => Err(error),
        }
    }
}

/// What the thread of a [`Reader`] does: run a function on the stream.
pub struct ReaderTask<R, F> {
    reader: Arc<R>,
    handler: F,
}

impl<R, F> ReaderTask<R, F> {
    /// The stream to read from.
    pub closed spec fn stream(&self) -> R {
        *self.reader
    }

    /// The function that reads from it.
    pub closed spec fn handler(&self) -> F {
        self.handler
    }

    /// Runs the task.
    pub fn run<O>(self) -> (out: O) where F: FnOnce(&R) -> O
        requires
            call_requires(self.handler(), (&self.stream(),)),
        ensures
            call_ensures(self.handler(), (&self.stream(),), out),
    {
        (self.handler)(&*self.reader)
    }
}

/// An owned thread that reads from a stream.
///
/// This type works with streams that can be shut down from another thread (via the [`Shutdown`]
/// trait). That way, the worker thread can perform a blocking read on the stream, while the owning
/// thread can still make the worker thread exit by shutting down the stream.
///
/// Whoever owns a [`Reader`] either calls [`Reader::stop`], or calls [`Reader::release`] before
/// letting go of it. Both shut down the stream and join the thread, and hand out the payload of its
/// panic if it panicked.
pub struct Reader<R, H> {
    reader: Arc<R>,
    thread: Option<H>,
}

impl<R, H> Reader<R, H> {
    /// The stream that the thread reads from.
    pub closed spec fn stream(&self) -> R {
        *self.reader
    }

    /// The handle of the thread, as long as it has not been joined.
    pub closed spec fn thread(&self) -> Option<H> {
        self.thread
    }

    /// Spawns a [`Reader`] that will run `handler` in a separate thread.
    ///
    /// The contract `handler` has to uphold is as follows: no blocking I/O must be performed,
    /// except for reading from the stream passed to it.
    ///
    /// Also see [`ReaderBuilder`].
    pub fn spawn<F, E, S>(read: R, handler: F, spawn: S) -> (result: Result<Reader<R, H>, E>) where
        S: FnOnce(Option<String>, ReaderTask<R, F>) -> Result<H, E>,

        requires
            forall|task: ReaderTask<R, F>| #[trigger]
                call_requires(spawn, (None::<String>, task)),
        ensures
            exists|task: ReaderTask<R, F>, spawned: Result<H, E>|
                {
                    &&& #[trigger] call_ensures(spawn, (None::<String>, task), spawned)
                    &&& task.stream() == read
                    &&& task.handler() == handler
                    &&& match spawned {
                        Ok(handle) => result matches Ok(reader) && {
                            &&& reader.stream() == read
                            &&& reader.thread() == Some(handle)
                        },
                        Err(error) => result == Err::<Reader<R, H>, E>(error),
                    }
                },
    {
        ReaderBuilder::new().spawn(read, handler, spawn)
    }

    /// Checks whether the [`Reader`] thread has finished execution.
    ///
    /// [`Reader`]s are allowed to return a value from their main function if they choose to exit.
    /// To access that value, call [`Reader::stop`]. They can also "finish" by panicking. Panics are
    /// propagated to the owner.
    ///
    /// `finished` tells whether a thread has finished.
    pub fn is_finished<D: FnOnce(&H) -> bool>(&self, finished: D) -> (done: bool)
        requires
            self.thread() matches Some(thread) && call_requires(finished, (&thread,)),
        ensures
            call_ensures(finished, (&self.thread()->0,), done),
    {
        match &self.thread {
            Some(thread) => call1(finished, thread),
            None => false,
        }
    }
}

impl<R: Shutdown, H> Reader<R, H> {
    /// Stops the [`Reader`] by shutting down the stream it is reading from.
    ///
    /// After shutting down the stream, the thread will be joined and its return value will be
    /// returned.
    ///
    /// If the thread has panicked, the payload of the panic is returned as an error, to be
    /// propagated to the caller.
    ///
    /// `join` joins a thread. It may rely on the stream having been shut down.
    pub fn stop<O, P, J: FnOnce(H) -> Result<O, P>>(self, join: J) -> (result: Result<O, P>)
        requires
            self.thread() matches Some(thread) && forall|outcome: Result<(), R::Error>| #[trigger]
                call_ensures(R::shutdown, (&self.stream(),), outcome) ==> call_requires(
                    join,
                    (thread,),
                ),
        ensures
            exists|outcome: Result<(), R::Error>| #[trigger]
                call_ensures(R::shutdown, (&self.stream(),), outcome),
            call_ensures(join, (self.thread()->0,), result),
    {
        // We ignore errors during shutdown, since those will also make the worker thread exit.
        let _outcome = call1(R::shutdown, &*self.reader);
        assert(call_ensures(R::shutdown, (&self.stream(),), _outcome));
        let thread = self.thread.unwrap();
        call1(join, thread)
    }

    /// Shuts down the stream and joins the thread if that has not happened yet, and returns the
    /// payload of a panic that has to be propagated to the owner.
    ///
    /// `join` joins a thread, and may rely on the stream having been shut down. `panicking` tells
    /// whether the calling thread is panicking.
    pub fn release<O, P, J: FnOnce(H) -> Result<O, P>, Q: FnOnce() -> bool>(
        &mut self,
        join: J,
        panicking: Q,
    ) -> (payload: Option<P>)
        requires
            old(self).thread() matches Some(thread) ==> forall|outcome: Result<(), R::Error>| #[trigger]
                call_ensures(R::shutdown, (&old(self).stream(),), outcome) ==> call_requires(
                    join,
                    (thread,),
                ),
            call_requires(panicking, ()),
        ensures
            final(self).stream() == old(self).stream(),
            final(self).thread() is None,
            old(self).thread() is Some ==> exists|outcome: Result<(), R::Error>| #[trigger]
                call_ensures(R::shutdown, (&old(self).stream(),), outcome),
            exits_with(old(self).thread(), join, panicking, payload),
    {
        match self.thread.take() {
            None => None,
            Some(thread) => {
                // We ignore errors during shutdown, since those will also make the worker thread
                // exit.
                let _outcome = call1(R::shutdown, &*self.reader);
                assert(call_ensures(R::shutdown, (&old(self).stream(),), _outcome));
                let joined = call1(join, thread);
                propagate(joined.err(), panicking)
            },
        }
    }
}

/// A reader is shut down and joined once, and so its panic is propagated at most once: a second
/// release finds nothing to join and propagates nothing.
pub proof fn panic_is_propagated_once<
    R: Shutdown,
    H,
    O,
    P,
    J: FnOnce(H) -> Result<O, P>,
    Q: FnOnce() -> bool,
>(
    first: &mut Reader<R, H>,
    join: J,
    panicking: Q,
    payload: Option<P>,
    second: &mut Reader<R, H>,
    rejoin: J,
    still_panicking: Q,
    repeated: Option<P>,
)
    requires
        call_ensures(Reader::<R, H>::release::<O, P, J, Q>, (first, join, panicking), payload),
        *second == *final(first),
        call_ensures(
            Reader::<R, H>::release::<O, P, J, Q>,
            (second, rejoin, still_panicking),
            repeated,
        ),
    ensures
        repeated is None,
{
}

/// Stopping a reader shuts down its stream, joins its thread, and gives what joining gives.
/// Releasing a reader whose thread has not been joined shuts down the stream and joins the thread.
/// The payload of its panic is propagated exactly if it panicked and its owner is not panicking.
pub proof fn reader_is_shut_down_and_joined<
    R: Shutdown,
    H,
    O,
    P,
    J: FnOnce(H) -> Result<O, P>,
    Q: FnOnce() -> bool,
>(
    stopped: Reader<R, H>,
    result: Result<O, P>,
    released: &mut Reader<R, H>,
    thread: H,
    join: J,
    panicking: Q,
    payload: Option<P>,
)
    requires
        stopped.thread() == Some(thread),
        call_ensures(Reader::<R, H>::stop::<O, P, J>, (stopped, join), result),
        released.thread() == Some(thread),
        call_ensures(Reader::<R, H>::release::<O, P, J, Q>, (released, join, panicking), payload),
    ensures
        exists|outcome: Result<(), R::Error>| #[trigger]
            call_ensures(R::shutdown, (&stopped.stream(),), outcome),
        call_ensures(join, (thread,), result),
        exists|outcome: Result<(), R::Error>| #[trigger]
            call_ensures(R::shutdown, (&old(released).stream(),), outcome),
        final(released).thread() is None,
        exists|joined: Result<O, P>| #[trigger]
            call_ensures(join, (thread,), joined) && match joined {
                Ok(_) => payload is None,
                Err(panic) => {
                    ||| payload == Some(panic) && call_ensures(panicking, (), false)
                    ||| payload is None && call_ensures(panicking, (), true)
                },
            },
{
}

/// The thread of a reader runs the handler on the very stream that the reader was given, which is
/// the one that the reader shuts down. It is started with the name that was given. If it cannot be
/// started, that is reported by the error with which starting it failed.
pub proof fn handler_runs_on_the_stream_of_the_reader<
    R,
    O,
    F: FnOnce(&R) -> O,
    H,
    E,
    S: FnOnce(Option<String>, ReaderTask<R, F>) -> Result<H, E>,
    N: Into<String>,
>(
    plain: ReaderBuilder,
    name: N,
    named: ReaderBuilder,
    read: R,
    handler: F,
    spawn: S,
    result: Result<Reader<R, H>, E>,
)
    requires
        call_ensures(ReaderBuilder::name::<N>, (plain, name), named),
        call_ensures(ReaderBuilder::spawn::<R, F, H, E, S>, (named, read, handler, spawn), result),
    ensures
        exists|text: String, task: ReaderTask<R, F>, spawned: Result<H, E>|
            {
                &&& #[trigger] call_ensures(<N as Into<String>>::into, (name,), text)
                &&& #[trigger] call_ensures(spawn, (Some(text), task), spawned)
                &&& forall|out: O| #[trigger]
                    call_ensures(ReaderTask::<R, F>::run::<O>, (task,), out) ==> call_ensures(
                        handler,
                        (&read,),
                        out,
                    )
                &&& result is Ok <==> spawned is Ok
                &&& spawned matches Ok(handle) ==> {
                    &&& result->Ok_0.stream() == read
                    &&& result->Ok_0.thread() == Some(handle)
                }
                &&& spawned matches Err(error) ==> result->Err_0 == error
            },
{
}

} // verus!
