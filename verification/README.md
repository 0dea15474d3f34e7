# pawawwewism

Structured concurrency primitives, verified with [Verus](https://github.com/verus-lang/verus).

- `src/` is the verified library: promises, reactive values, locks without poisoning, workers,
  background threads, stream readers and the isochronous processor. It never starts a thread and
  never panics of its own accord: threads are started and joined by functions that the caller passes
  in, and the payload of a panic that has to be propagated is returned.
- `app/` puts the library on the threads, clocks and streams of the standard library, with
  destructors that join threads, propagate panics and disconnect readers.
- `tests/` runs the library.

What is shared between threads is kept in state machines of their own (`PromiseState`, `ValueState`,
`Schedule`), whose methods say exactly what they do. The types around them lock the state, call one of
these methods, and notify whoever waits; their contracts say which state was found, which method was
called on it, and when the others were notified.

Destructors must not unwind, but locking a mutex, waking a task or joining a thread may. So what has to
happen in the end stands in methods (`Promise::abandon`, `Value::disconnect`, `Worker::close`,
`WorkerSet::close`, `Background::release`, `Reader::release` and `Defer::run`), and the types of `app/`
call them when they are dropped. The one destructor in `src/` is that of `reactive::Reader`, which
subtracts from a counter.

What a function does to something that other threads can get at as well is recorded in ghost state
(`share::Share`, `channel::Inbox`, `handler::Handler`, `flag::Flag`), so that its contract can say that
nothing was lost and nothing was done twice.

Outside code is trusted where it is called: `std::sync`, `std::task`, `std::future` and atomics in
`sync.rs`, `task.rs`, `future.rs`, `share.rs` and `reactive.rs`, the channels of `crossbeam_channel` in
`channel.rs`, and the decimal digits of an index in `worker.rs`. The doc comment of each such item says
what is taken for granted.
