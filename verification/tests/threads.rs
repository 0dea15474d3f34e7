use std::cell::{Cell, RefCell};
use std::rc::Rc;

use pawawwewism::channel::has_room;
use pawawwewism::drop::defer;
use pawawwewism::reader::{Reader, ReaderBuilder, ReaderTask, Shutdown};
use pawawwewism::unwind::propagate;
use pawawwewism::worker::{Unsent, WorkerSetTask, WorkerTask};
use pawawwewism::{background, Worker, WorkerSet};

fn assert_send<T: Send>() {}

fn calm() -> bool {
    false
}

fn panicking() -> bool {
    true
}

/// Joins a "thread" whose handle is how it ended.
fn join<R, P>(ended: Result<R, P>) -> Result<R, P> {
    ended
}

#[test]
fn panic_is_propagated_by_a_calm_thread_only() {
    assert_eq!(propagate(Some("panic"), calm), Some("panic"));
    assert_eq!(propagate(Some("panic"), panicking), None);
    assert_eq!(propagate(None::<&str>, calm), None);
    let asked = Cell::new(false);
    assert_eq!(
        propagate(None::<&str>, || {
            asked.set(true);
            false
        }),
        None,
    );
    assert!(!asked.get());
}

#[test]
fn deferred_callback_runs_once() {
    let count = Cell::new(0);
    let mut deferred = defer(|| count.set(count.get() + 1));
    assert_eq!(count.get(), 0);
    deferred.run();
    assert_eq!(count.get(), 1);
    deferred.run();
    assert_eq!(count.get(), 1);
}

#[test]
fn background_thread_returns_its_result() {
    let thread = background(|| 6 * 7, |f| Ok::<i32, &str>(f()));
    assert_eq!(thread.join(join), Ok(42));
}

#[test]
fn background_thread_hands_its_panic_to_the_owner() {
    let thread = background(|| (), |_| Err::<(), &str>("panic"));
    assert_eq!(thread.join(join), Err("panic"));

    let mut thread = background(|| (), |_| Err::<(), &str>("panic"));
    assert_eq!(thread.release(join, calm), Some("panic"));
    assert_eq!(thread.release(join, calm), None);

    let mut thread = background(|| (), |_| Err::<(), &str>("panic"));
    assert_eq!(thread.release(join, panicking), None);

    let mut thread = background(|| (), |f| Ok::<(), &str>(f()));
    assert_eq!(thread.release(join, calm), None);
}

/// A stream that counts how often it was shut down.
struct Stream(Rc<Cell<u32>>);

impl Shutdown for Stream {
    type Error = &'static str;

    fn shutdown(&self) -> Result<(), &'static str> {
        self.0.set(self.0.get() + 1);
        Err("ignored")
    }
}

#[test]
fn reader_is_shut_down_and_joined() {
    let shutdowns = Rc::new(Cell::new(0));
    let reader = ReaderBuilder::new()
        .name("the reader")
        .spawn(
            Stream(shutdowns.clone()),
            |stream: &Stream| stream.0.get(),
            |name: Option<String>, task: ReaderTask<_, _>| {
                assert_eq!(name.as_deref(), Some("the reader"));
                Ok::<_, ()>(task)
            },
        )
        .unwrap();
    assert!(!reader.is_finished(|_task| false));
    assert!(reader.is_finished(|_task| true));
    assert_eq!(shutdowns.get(), 0);
    // The "thread" runs while it is joined, and finds the stream shut down.
    assert_eq!(reader.stop(|task| Ok::<u32, ()>(task.run())), Ok(1));
    assert_eq!(shutdowns.get(), 1);
}

#[test]
fn released_reader_is_shut_down_once() {
    let shutdowns = Rc::new(Cell::new(0));
    let mut reader = Reader::spawn(
        Stream(shutdowns.clone()),
        |_: &Stream| (),
        |name: Option<String>, _task| {
            assert_eq!(name, None);
            Ok::<Result<(), &str>, ()>(Err("panic"))
        },
    )
    .unwrap();
    assert_eq!(reader.release(join, calm), Some("panic"));
    assert_eq!(shutdowns.get(), 1);
    assert_eq!(reader.release(join, calm), None);
    assert_eq!(shutdowns.get(), 1);
}

#[test]
fn reader_that_cannot_be_spawned_is_an_error() {
    let result = ReaderBuilder::default().spawn(
        Stream(Rc::new(Cell::new(0))),
        |_: &Stream| (),
        |_name, _task| Err::<(), &str>("no more threads"),
    );
    assert_eq!(result.err(), Some("no more threads"));
}

#[test]
fn channels_have_to_fit_into_memory() {
    assert!(has_room::<u64>(0));
    assert!(has_room::<[u8; 100]>(0));
    assert!(has_room::<u64>(1000));
    assert!(!has_room::<u64>(usize::MAX));
    // A slot for a byte takes as much as a byte, its alignment and two counters.
    let limit = isize::MAX as usize / 18;
    assert!(has_room::<u8>(limit));
    assert!(!has_room::<u8>(limit + 1));
}

#[test]
fn worker_is_send() {
    assert_send::<Worker<(), ()>>();
}

#[test]
fn workerset_is_send() {
    assert_send::<WorkerSet<(), ()>>();
}

#[test]
fn worker_handles_messages_in_order() {
    let task_slot = RefCell::new(None);
    let handled = Rc::new(RefCell::new(Vec::new()));
    let log = handled.clone();
    let mut worker = Worker::builder()
        .name(String::from("the worker"))
        .capacity(3)
        .spawn(
            move |message: i32| log.borrow_mut().push(message),
            |name: Option<String>, task: WorkerTask<_, _>| {
                assert_eq!(name.as_deref(), Some("the worker"));
                *task_slot.borrow_mut() = Some(task);
                Ok::<Result<(), &str>, ()>(Ok(()))
            },
        )
        .unwrap();
    let mut task = task_slot.into_inner().unwrap();
    assert_eq!(worker.send(1, join, calm), Ok(()));
    assert_eq!(worker.send(2, join, calm), Ok(()));
    assert_eq!(worker.send(3, join, calm), Ok(()));
    assert!(task.step());
    assert_eq!(*handled.borrow(), vec![1]);
    assert_eq!(worker.send(4, join, calm), Ok(()));
    // Closing lets the worker handle what was sent to it.
    assert_eq!(worker.close(join, calm), None);
    assert!(task.step());
    assert!(task.step());
    assert!(task.step());
    assert!(!task.step());
    assert_eq!(*handled.borrow(), vec![1, 2, 3, 4]);
}

#[test]
fn worker_reports_its_panic_on_send_and_only_once() {
    // The task is dropped along with its end of the channel, as when a thread panics.
    let mut worker = Worker::builder()
        .spawn(|_: ()| (), |_name, _task| Ok::<Result<(), &str>, ()>(Err("worker panic")))
        .unwrap();
    assert_eq!(worker.send((), join, calm), Err(Some("worker panic")));
    assert_eq!(worker.send((), join, calm), Err(None));
    assert_eq!(worker.close(join, calm), None);
}

#[test]
fn worker_reports_its_panic_when_closed() {
    let mut worker = Worker::builder()
        .spawn(|_: ()| (), |_name, _task| Ok::<Result<(), &str>, ()>(Err("worker panic")))
        .unwrap();
    assert_eq!(worker.close(join, calm), Some("worker panic"));
    assert_eq!(worker.close(join, calm), None);
}

#[test]
fn worker_that_cannot_be_spawned_is_an_error() {
    let result = Worker::builder()
        .spawn(|_: ()| (), |_name, _task| Err::<(), &str>("no more threads"));
    assert_eq!(result.err(), Some("no more threads"));
}

#[test]
fn worker_builder_is_cloned_with_its_settings() {
    let builder = Worker::builder().capacity(1).name("twin").clone();
    let mut worker = builder
        .spawn(
            |_: u8| (),
            |name: Option<String>, task| {
                assert_eq!(name.as_deref(), Some("twin"));
                Ok::<_, ()>(task)
            },
        )
        .unwrap();
    // With a capacity of one, this does not block though nobody receives.
    assert_eq!(worker.send(1, |_task| Ok::<(), ()>(()), calm), Ok(()));
}

#[test]
fn worker_set_threads_are_named_by_index() {
    let names = RefCell::new(Vec::new());
    let set = WorkerSet::builder().name("pool").spawn(
        11,
        |_: ()| (),
        |name: Option<String>, _task: WorkerSetTask<_, _>| {
            names.borrow_mut().push(name.unwrap());
            Ok::<(), ()>(())
        },
    );
    assert!(set.unwrap().is_open());
    let names = names.into_inner();
    assert_eq!(names.len(), 11);
    assert_eq!(names[0], "pool-0");
    assert_eq!(names[7], "pool-7");
    assert_eq!(names[10], "pool-10");
}

#[test]
fn worker_set_stops_spawning_at_the_first_error() {
    let count = Cell::new(0);
    let result = WorkerSet::builder().spawn(
        5,
        |_: ()| (),
        |name: Option<String>, _task: WorkerSetTask<_, _>| {
            assert_eq!(name, None);
            count.set(count.get() + 1);
            if count.get() == 3 {
                Err("no more threads")
            } else {
                Ok(())
            }
        },
    );
    assert_eq!(result.err(), Some("no more threads"));
    assert_eq!(count.get(), 3);
}

#[test]
fn worker_set_joins_all_threads_and_reports_the_last_panic() {
    let next = Cell::new(0);
    let ends = [Err("first"), Ok(()), Err("third"), Ok(())];
    let mut set = WorkerSet::builder()
        .spawn(4, |_: ()| (), |_name, _task: WorkerSetTask<_, _>| {
            let i = next.get();
            next.set(i + 1);
            Ok::<Result<(), &str>, ()>(ends[i])
        })
        .unwrap();
    // All receivers are gone, so that all threads must have exited.
    let joined = Cell::new(0);
    let counting_join = |ended: Result<(), &'static str>| {
        joined.set(joined.get() + 1);
        ended
    };
    assert_eq!(set.send((), counting_join, calm), Err(Some("third")));
    assert_eq!(joined.get(), 4);
    assert!(set.is_open());
    assert_eq!(set.send((), counting_join, calm), Err(None));
    assert_eq!(set.close(counting_join, calm), None);
    assert_eq!(joined.get(), 4);
    assert!(!set.is_open());
}

#[test]
fn worker_set_notices_the_flag_of_a_panicked_thread() {
    let tasks = RefCell::new(Vec::new());
    let mut set = WorkerSet::builder()
        .spawn(2, |_: u8| (), |_name, task: WorkerSetTask<_, _>| {
            tasks.borrow_mut().push(task);
            Ok::<Result<(), &str>, ()>(Err("worker panic"))
        })
        .unwrap();
    let mut tasks = tasks.into_inner();

    // Both threads are there, but neither is receiving.
    assert!(matches!(set.try_send(3, join, calm), Err(Unsent::Busy(3))));

    // One of them panics, the other one stays.
    let mut task = tasks.pop().unwrap();
    assert_eq!(task.run(|_messages| Err::<(), &str>("payload")), Some("payload"));
    assert!(set.is_open());
    assert_eq!(set.send(4, join, calm), Err(Some("worker panic")));
    assert!(!set.is_open());

    // The other one exits, since the channel is closed.
    let mut task = tasks.pop().unwrap();
    assert_eq!(task.run(|messages| Ok::<(), &str>(assert!(!messages.step()))), None);
    assert_eq!(task.run(|messages| Ok::<(), &str>(while messages.step() {})), None);
}

#[test]
fn worker_set_without_receivers_reports_exit_on_try_send() {
    let mut set = WorkerSet::builder()
        .spawn(1, |_: ()| (), |_name, _task: WorkerSetTask<_, _>| {
            Ok::<Result<(), &str>, ()>(Err("worker panic"))
        })
        .unwrap();
    assert!(matches!(
        set.try_send((), join, calm),
        Err(Unsent::Exited(Some("worker panic")))
    ));
    assert!(matches!(set.try_send((), join, calm), Err(Unsent::Exited(None))));
}

#[test]
fn panicking_owner_closes_a_worker_set_silently() {
    let mut set = WorkerSet::builder()
        .spawn(1, |_: ()| (), |_name, _task: WorkerSetTask<_, _>| {
            Ok::<Result<(), &str>, ()>(Err("worker panic"))
        })
        .unwrap();
    assert_eq!(set.close(join, panicking), None);
}

#[test]
fn flag_of_a_worker_set_stays_down_while_nothing_panics() {
    let tasks = RefCell::new(Vec::new());
    let mut set = WorkerSet::builder()
        .spawn(1, |_: u8| (), |_name, task: WorkerSetTask<_, _>| {
            tasks.borrow_mut().push(task);
            Ok::<Result<(), &str>, ()>(Ok(()))
        })
        .unwrap();
    let mut task = tasks.into_inner().pop().unwrap();
    assert_eq!(task.run(|_messages| Ok::<(), &str>(())), None);
    // The set still takes messages, but nobody is receiving.
    assert!(matches!(set.try_send(3, join, calm), Err(Unsent::Busy(3))));
    assert!(set.is_open());
    assert_eq!(task.run(|_messages| Err::<(), &str>("payload")), Some("payload"));
    assert!(matches!(set.try_send(3, join, calm), Err(Unsent::Exited(None))));
    assert!(!set.is_open());
}
