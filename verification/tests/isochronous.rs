use std::cell::RefCell;

use pawawwewism::isochronous::{IsochronousProcessor, Schedule};
use pawawwewism::worker::{Unsent, WorkerSetTask};
use pawawwewism::{promise, Promise, PromiseHandle};

fn calm() -> bool {
    false
}

fn join(ended: Result<(), &'static str>) -> Result<(), &'static str> {
    ended
}

const MS: u64 = 1_000_000;

/// Submits a value to the schedule and processes it at once.
fn submit(schedule: &mut Schedule<PromiseHandle<i32>>, value: i32, now: u64) {
    let (promise, handle) = promise();
    schedule.submitted(handle, now);
    promise.fulfill(value);
}

fn block(schedule: &mut Schedule<PromiseHandle<i32>>) -> Option<i32> {
    schedule.take().and_then(|job| job.handle.block().ok())
}

#[test]
fn schedule_hands_out_jobs_in_the_order_of_their_submission() {
    let mut schedule = Schedule::new();
    assert!(block(&mut schedule).is_none());
    submit(&mut schedule, 0, 0);
    submit(&mut schedule, 1, 0);
    submit(&mut schedule, 2, 0);
    assert_eq!(block(&mut schedule), Some(0));
    assert_eq!(block(&mut schedule), Some(1));
    assert_eq!(block(&mut schedule), Some(2));
    assert_eq!(block(&mut schedule), None);
}

#[test]
fn results_are_held_back_to_match_the_input_pacing() {
    let mut schedule = Schedule::new();
    schedule.submitted('a', 100 * MS);
    schedule.submitted('b', 120 * MS);
    schedule.submitted('c', 130 * MS);

    let a = schedule.take().unwrap();
    assert_eq!((a.handle, a.submitted), ('a', 100 * MS));
    assert_eq!(schedule.delay(a.submitted, 200 * MS), None);
    schedule.yielded(a.submitted, 200 * MS);

    let b = schedule.take().unwrap();
    assert_eq!((b.handle, b.submitted), ('b', 120 * MS));
    assert_eq!(schedule.delay(b.submitted, 203 * MS), Some(17 * MS as u128));
    schedule.yielded(b.submitted, 220 * MS);

    let c = schedule.take().unwrap();
    assert_eq!((c.handle, c.submitted), ('c', 130 * MS));
    // This one is late already.
    assert_eq!(schedule.delay(c.submitted, 250 * MS), Some(0));
    schedule.yielded(c.submitted, 250 * MS);

    assert!(schedule.take().is_none());
    assert!(schedule.oldest().is_none());
}

#[test]
fn panicked_jobs_count_towards_the_pacing() {
    let mut schedule = Schedule::new();
    schedule.submitted('a', 100 * MS);
    schedule.submitted('b', 120 * MS);
    schedule.submitted('c', 130 * MS);

    let a = schedule.take().unwrap();
    schedule.yielded(a.submitted, 200 * MS);
    // The second one has panicked, and is never yielded.
    assert_eq!(schedule.take().unwrap().handle, 'b');
    let c = schedule.take().unwrap();
    assert_eq!(schedule.delay(c.submitted, 205 * MS), Some(25 * MS as u128));
}

#[test]
fn clock_that_goes_backwards_gives_no_pace() {
    let mut schedule = Schedule::<()>::new();
    schedule.yielded(50, 1000);
    assert_eq!(schedule.delay(40, 1000), Some(0));
    assert_eq!(schedule.delay(55, 1000), Some(5));
}

#[test]
fn far_away_times_do_not_overflow() {
    let mut schedule = Schedule::new();
    schedule.yielded(0, u64::MAX);
    schedule.submitted((), u64::MAX);
    assert_eq!(schedule.oldest(), Some(&()));
    assert_eq!(schedule.delay(u64::MAX, 1), Some(2 * (u64::MAX as u128) - 1));
}

type Processor = IsochronousProcessor<i32, i32, Result<(), &'static str>>;
type Task<F> = WorkerSetTask<(i32, Promise<i32>), F>;

#[test]
fn processor_threads_are_named_by_index() {
    let names = RefCell::new(Vec::new());
    let processor: Result<Processor, ()> = IsochronousProcessor::builder()
        .name("test_processor")
        .spawn(2, |i: i32| i, |name: Option<String>, _task: Task<_>| {
            names.borrow_mut().push(name.unwrap());
            Ok(Ok(()))
        });
    assert!(processor.is_ok());
    assert_eq!(names.into_inner(), vec!["test_processor-0", "test_processor-1"]);
}

#[test]
fn processor_that_cannot_be_spawned_is_an_error() {
    let processor: Result<Processor, &str> = IsochronousProcessor::builder()
        .spawn(1, |i: i32| i, |_name, _task: Task<_>| Err("no more threads"));
    assert_eq!(processor.err(), Some("no more threads"));
}

#[test]
fn busy_processor_gives_the_value_back() {
    let tasks = RefCell::new(Vec::new());
    let mut processor: Processor = IsochronousProcessor::builder()
        .spawn(1, |i: i32| i, |_name, task: Task<_>| {
            tasks.borrow_mut().push(task);
            Ok::<_, ()>(Ok(()))
        })
        .unwrap();
    // The thread is there, but it is not receiving.
    assert!(matches!(processor.try_submit(7, 0, join, calm), Err(Unsent::Busy(7))));
    assert!(!processor.is_output_available());
    assert_eq!(processor.block(|| 0, |now, _wait| now), None);
    assert!(processor.is_open());
    assert_eq!(processor.close(join, calm), None);
    assert!(!processor.is_open());
    // The channel is closed, so the task is done.
    let mut tasks = tasks.into_inner();
    let payload = tasks[0].run(|messages| {
        assert_eq!(messages.process(|handler, i| Ok::<i32, ()>(handler(i))), Ok(false));
        Ok::<(), ()>(())
    });
    assert_eq!(payload, None);
}

#[test]
fn processor_propagates_the_panic_of_its_threads() {
    let mut processor: Processor = IsochronousProcessor::builder()
        .spawn(1, |i: i32| i, |_name, _task: Task<_>| Ok::<_, ()>(Err("worker panic")))
        .unwrap();
    assert_eq!(processor.submit(1, 0, join, calm), Err(Some("worker panic")));
    assert_eq!(
        processor.exchange(2, || 0, |now, _wait| now, join, calm),
        Err(None),
    );
    assert!(matches!(
        processor.try_submit(3, 0, join, calm),
        Err(Unsent::Exited(None))
    ));
    assert_eq!(processor.block(|| 0, |now, _wait| now), None);
    assert_eq!(processor.close(join, calm), None);
}
