//! A simple library providing modern concurrency primitives, with their behaviour proved by Verus.
//!
//! The goal of this library is to explore the design space of easy-to-use higher-level concurrency
//! primitives that implement the principles of *structured concurrency*, and also allow bridging
//! thread-based concurrency and task-based concurrency (via primitives that feature both a blocking
//! and a polling API).
//!
//! # What is structured concurrency (in Rust)?
//!
//! - Every background operation (whether thread or task) is represented by an owned handle.
//! - No background operation outlasts its handle. If the handle is let go of, the operation is
//!   either canceled or joined (if it is a thread).
//! - Panics occurring in background operations will be propagated to its owner.
//!
//! Since panics are only propagated when "interacting" with the background operation in some way
//! (eg. by releasing it, joining it, sending it more work to do, or checking its status), panics
//! will generally be forwarded to the owning thread *opportunistically*, when they are noticed,
//! rather than in the order they happened. This is why programs utilizing structured concurrency
//! should generally avoid causing any knock-on panics, like those caused by unwrapping a poisoned
//! mutex, since they might be propagated before the panic representing the actual root cause.
//!
//! # Overview
//!
//! This library features several thread-based structured concurrency primitives:
//!
//! - [`background`][background()], which is a simple method to run a closure to completion on a
//!   [`Background`] thread.
//! - [`Worker`]/[`WorkerSet`], which is a background thread that processes packets of work fed to
//!   it from the owning thread.
//! - [`reader::Reader`], a background thread that reads from a cancelable stream and processes or
//!   forwards the results.
//! - [`isochronous::IsochronousProcessor`], a thread pool that retains the order and the pacing of
//!   what it processes.
//!
//! Additionally, this library features communication primitives that can be used to exchange data
//! between background and foreground threads or tasks:
//!
//! - [`Promise`] and [`PromiseHandle`] provide a mechanism for communicating the result of
//!   computations (like those performed by a [`Worker`]).
//! - [`reactive::Value`] is a value that can be changed from one place, and notifies every
//!   associated [`reactive::Reader`] of that change, so that consumers can react to those changes.
//! - [`sync`] has the locks of the standard library, without lock poisoning.
//!
//! # What the contracts say
//!
//! Threads are started and joined by functions that the owner passes in, and nothing in this library
//! panics of its own accord: what is left to be propagated is returned to the caller.
//!
//! What is behind a lock, in a channel, or in an atomic variable is decided by all threads that can
//! get at it. The contracts do not claim to know it. They say what was found there
//! (`exists|state| self.may_find(state) && ..`), and what was done with it: the state machines that
//! are shared ([`promise::PromiseState`], [`reactive::ValueState`], [`isochronous::Schedule`]) are
//! types of their own, and their methods say exactly what they do.
//!
//! That nothing else was done is said in ghost state. A [`share::Share`] remembers every visit to the
//! state behind a lock, a [`channel::Inbox`] everything that was received, a [`handler::Handler`]
//! everything that was handled, and a [`flag::Flag`] whether it was raised.

pub mod background;
mod call;
pub mod channel;
pub mod drop;
pub mod flag;
mod future;
pub mod handler;
pub mod isochronous;
pub mod promise;
pub mod reactive;
pub mod reader;
pub mod share;
pub mod sync;
pub mod task;
pub mod unwind;
pub mod wakeups;
pub mod worker;

pub use background::{background, Background};
pub use promise::{promise, Promise, PromiseDropped, PromiseHandle};
pub use worker::{Worker, WorkerBuilder, WorkerSet, WorkerSetBuilder};
