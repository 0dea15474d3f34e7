use std::future::Future;
use std::sync::atomic::{AtomicUsize, Ordering};
use std::sync::Arc;
use std::task::{Context, Poll, Wake, Waker};

use pawawwewism::reactive::{Disconnected, Mut, ReadPosition, Value, ValueState};

struct CountingWaker(AtomicUsize);

impl Wake for CountingWaker {
    fn wake(self: Arc<Self>) {
        self.0.fetch_add(1, Ordering::Relaxed);
    }
}

fn counting_waker() -> (Arc<CountingWaker>, Waker) {
    let count = Arc::new(CountingWaker(AtomicUsize::new(0)));
    let waker = Waker::from(count.clone());
    (count, waker)
}

/// Polls a future exactly once, asserting that the future is ready, and returns the produced
/// result.
fn assert_ready<R>(fut: impl Future<Output = R>) -> R {
    let (_count, waker) = counting_waker();
    let mut cx = Context::from_waker(&waker);

    let mut fut = Box::pin(fut);
    match fut.as_mut().poll(&mut cx) {
        Poll::Ready(value) => value,
        Poll::Pending => panic!("assert_ready: future is not ready"),
    }
}

#[test]
fn simple() {
    let mut value = Value::new(0);
    assert_eq!(value.reader_count(), 0);

    let mut reader = value.reader();
    assert_eq!(value.reader_count(), 1);
    drop(reader.clone());
    assert_eq!(value.reader_count(), 1);

    // As long as `value` is in scope, the `reader` should not be disconnected.
    assert!(!reader.is_disconnected());
    // Since `value` wasn't written to since `reader` was created, `is_changed()` is `false`...
    assert_eq!(reader.is_changed(), false);
    // ...but `get` will return the old value.
    assert_eq!(reader.get(), Ok(0));

    // If `value` is changed, `reader.next()` will succeed.
    value.set(123);
    assert_eq!(reader.is_changed(), true);
    assert_eq!(reader.get(), Ok(123));
    assert_eq!(reader.is_changed(), false);

    // If `value` is changed, `reader.block()` will return immediately.
    value.set(456);
    assert_eq!(reader.is_changed(), true);
    assert_eq!(reader.block(), Ok(456));
    assert_eq!(reader.is_changed(), false);

    // If `value` is changed, `reader.wait()` will be `Ready` immediately.
    value.set(789);
    assert_eq!(reader.is_changed(), true);
    assert_eq!(assert_ready(reader.wait()), Ok(789));
    assert_eq!(reader.is_changed(), false);

    // If `value` is let go of, the value is marked as changed, and all attempts to read it will
    // return a `Disconnected` error.
    assert_eq!(reader.is_disconnected(), false);
    value.disconnect();
    assert_eq!(reader.is_changed(), true);
    assert_eq!(reader.is_disconnected(), true);
    assert_eq!(reader.get(), Err(Disconnected));
    assert_eq!(reader.is_changed(), false);
    assert_eq!(reader.block(), Err(Disconnected));
    assert_eq!(assert_ready(reader.wait()), Err(Disconnected));
}

/// Tests that `Reader` can be cloned, and both clones will be notified of subsequent changes.
#[test]
fn clone_reader() {
    let mut value = Value::new(0);
    let mut r1 = value.reader();

    assert_eq!(r1.is_changed(), false);
    value.set(123);
    let mut r2 = r1.clone();

    assert_eq!(r1.is_changed(), true);
    assert_eq!(r1.get(), Ok(123));
    assert_eq!(r1.is_changed(), false);

    assert_eq!(r2.is_changed(), true);
    assert_eq!(r2.get(), Ok(123));
    assert_eq!(r2.is_changed(), false);
}

/// Tests that readers will yield that last value written through `Value` if it hasn't been seen yet,
/// even if the `Value` is gone since.
#[test]
fn reader_returned_last_value_written() {
    let mut value = Value::new(0);
    let mut reader = value.reader();

    value.set(123);
    value.disconnect();

    assert_eq!(reader.block(), Ok(123));
    assert_eq!(reader.block(), Err(Disconnected));
}

#[test]
fn set_returns_the_previous_value() {
    let mut value = Value::new('a');
    assert_eq!(value.set('b'), 'a');
    assert_eq!(value.set('c'), 'b');
}

#[test]
fn readers_are_counted() {
    let value = Value::new(());
    assert!(!value.has_readers());
    let first = value.reader();
    let second = first.clone();
    assert!(value.has_readers());
    assert_eq!(value.reader_count(), 2);
    drop(first);
    assert_eq!(value.reader_count(), 1);
    drop(second);
    assert!(!value.has_readers());
}

#[test]
fn unseen_writes_are_coalesced() {
    let mut value = Value::new(0);
    let mut reader = value.reader();
    value.set(1);
    value.set(2);
    value.set(3);
    assert_eq!(reader.block(), Ok(3));
    assert!(!reader.is_changed());
}

#[test]
fn iteration_ends_after_the_last_value() {
    let mut value = Value::new(0);
    let reader = value.reader();
    value.set(9);
    value.set(10);
    value.disconnect();
    let mut iter = reader.into_iter();
    assert_eq!(iter.next(), Some(10));
    assert_eq!(iter.next(), None);
    assert_eq!(iter.next(), None);
}

#[test]
fn with_shows_the_value_without_cloning() {
    struct Opaque(u8);
    let mut value = Value::new(Opaque(1));
    let mut reader = value.reader();
    assert_eq!(reader.with(|opaque| opaque.0), Ok(1));
    value.set(Opaque(2));
    value.disconnect();
    assert_eq!(reader.with(|opaque| opaque.0), Ok(2));
    assert_eq!(reader.with(|opaque| opaque.0), Err(Disconnected));
}

#[test]
fn modification_notifies_only_if_marked() {
    let mut value = Value::new(vec![1, 2]);
    let mut reader = value.reader();

    value.modify(|list| assert_eq!(list.len(), 2));
    assert!(!reader.is_changed());

    value.modify(|mut list| list.push(3));
    assert!(reader.is_changed());
    assert_eq!(reader.get(), Ok(vec![1, 2, 3]));

    value.modify(|mut list| {
        list.push(4);
        list.set_changed(false);
    });
    assert!(!reader.is_changed());
    assert_eq!(reader.get(), Ok(vec![1, 2, 3, 4]));

    value.modify(|mut list| list.set_changed(true));
    assert!(reader.is_changed());
}

#[test]
fn default_value_holds_the_default() {
    let value = Value::<u16>::default();
    assert_eq!(value.reader().get(), Ok(0));
}

#[test]
fn change_wakes_the_waiting_task() {
    let (count, waker) = counting_waker();
    let mut cx = Context::from_waker(&waker);
    let mut value = Value::new(0);
    let mut reader = value.reader();
    {
        let mut fut = Box::pin(reader.wait());
        assert_eq!(fut.as_mut().poll(&mut cx), Poll::Pending);
        value.set(5);
        assert_eq!(count.0.load(Ordering::Relaxed), 1);
        assert_eq!(fut.as_mut().poll(&mut cx), Poll::Ready(Ok(5)));
    }
    {
        let mut fut = Box::pin(reader.wait());
        assert_eq!(fut.as_mut().poll(&mut cx), Poll::Pending);
        value.disconnect();
        assert_eq!(count.0.load(Ordering::Relaxed), 2);
        assert_eq!(fut.as_mut().poll(&mut cx), Poll::Ready(Err(Disconnected)));
    }
}

#[test]
fn state_decides_what_a_position_sees() {
    let mut state = ValueState::new('x');
    let mut position = state.start();
    assert_eq!(position, ReadPosition { read_gen: 0, read_disconnected: false });
    assert!(!state.is_changed(&position));
    assert!(state.must_wait(&position));
    assert_eq!(state.read(&mut position), Ok(&'x'));
    assert_eq!(state.read_news(&mut position), Err(Disconnected));
    assert!(!position.read_disconnected);

    assert_eq!(state.set('y'), 'x');
    assert!(state.is_changed(&position));
    assert!(!state.must_wait(&position));
    assert_eq!(state.read_news(&mut position), Ok(&'y'));
    assert_eq!(position, ReadPosition { read_gen: 1, read_disconnected: false });

    state.disconnect();
    assert!(state.is_changed(&position));
    assert!(!state.must_wait(&position));
    assert_eq!(state.read(&mut position), Err(Disconnected));
    assert_eq!(position, ReadPosition { read_gen: 1, read_disconnected: true });
    assert!(!state.is_changed(&position));
    assert_eq!(state.read_news(&mut position), Err(Disconnected));
}

#[test]
fn gone_value_stays_gone() {
    let (count, waker) = counting_waker();
    let mut state = ValueState::new(1);
    let mut position = state.start();
    assert_eq!(state.poll(&mut position, &waker), Poll::Pending);
    state.disconnect();
    assert_eq!(count.0.load(Ordering::Relaxed), 1);
    assert!(state.wakers.is_empty());

    state.modify(|m: Mut<'_, i32>| assert_eq!(*m, 1));
    assert!(state.disconnected);
    for _ in 0..2 {
        assert!(!state.must_wait(&position));
        assert_eq!(state.poll(&mut position, &waker), Poll::Ready(Err(Disconnected)));
        assert_eq!(state.read(&mut position), Err(Disconnected));
        assert_eq!(state.read_news(&mut position), Err(Disconnected));
        assert!(!state.is_changed(&position));
    }

    state.set(2);
    assert!(state.disconnected);
    assert_eq!(state.read(&mut position), Ok(&2));
    assert_eq!(state.read(&mut position), Err(Disconnected));
    state.disconnect();
    assert!(state.disconnected);
}

#[test]
fn generations_wrap_around() {
    let mut state = ValueState::new(1);
    state.generation = u64::MAX;
    let mut position = state.start();
    state.set(2);
    assert_eq!(state.generation, 0);
    assert!(state.is_changed(&position));
    assert_eq!(state.read_news(&mut position), Ok(&2));
}

#[test]
fn dropped_pending_wait_loses_no_change() {
    let (_count, waker) = counting_waker();
    let mut cx = Context::from_waker(&waker);
    let mut value = Value::new(0);
    let mut reader = value.reader();
    {
        let mut fut = Box::pin(reader.wait());
        assert_eq!(fut.as_mut().poll(&mut cx), Poll::Pending);
        value.set(5);
    }
    assert!(reader.is_changed());
    assert_eq!(reader.block(), Ok(5));
}

#[test]
fn state_is_modified_in_place() {
    let mut state = ValueState::new(10);
    assert!(!state.modify(|m: Mut<'_, i32>| assert_eq!(*m, 10)));
    assert_eq!(state.generation, 0);
    assert!(state.modify(|mut m: Mut<'_, i32>| *m += 1));
    assert_eq!((state.value, state.generation, state.disconnected), (11, 1, false));
}

#[test]
fn change_is_told_until_it_is_read() {
    let mut state = ValueState::new(0);
    let mut position = state.start();
    assert!(!state.is_changed(&position));

    // Unmarked modifications are no change, marked ones and writes are.
    assert!(!state.modify(|_m: Mut<'_, i32>| ()));
    assert!(!state.is_changed(&position));
    assert!(state.modify(|mut m: Mut<'_, i32>| *m += 1));
    state.set(2);
    assert!(state.is_changed(&position));
    assert!(state.is_changed(&position));
    assert_eq!(state.read(&mut position), Ok(&2));
    assert!(!state.is_changed(&position));

    // A write before the end is told before the end is, and both only once.
    state.set(3);
    state.disconnect();
    assert!(state.is_changed(&position));
    assert_eq!(state.read(&mut position), Ok(&3));
    assert!(state.is_changed(&position));
    assert_eq!(state.read(&mut position), Err(Disconnected));
    assert!(!state.is_changed(&position));
}
