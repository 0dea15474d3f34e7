use std::future::Future;
use std::sync::atomic::{AtomicUsize, Ordering};
use std::sync::{Arc, Mutex};
use std::task::{Context, Poll, Wake, Waker};

use pawawwewism::promise::{promise_is_held, PromiseState};
use pawawwewism::task::{register, wake_all};
use pawawwewism::{promise, Promise, PromiseHandle};

fn assert_send<T: Send>() {}

/// A waker that counts how often it was used.
struct CountingWaker(AtomicUsize);

impl Wake for CountingWaker {
    fn wake(self: Arc<Self>) {
        self.0.fetch_add(1, Ordering::Relaxed);
    }
}

fn counting_waker() -> (Arc<CountingWaker>, Waker) {
    let count = Arc::new(CountingWaker(AtomicUsize::new(0)));
    let waker = Waker::from(count.clone());
    (count, waker)
}

/// Polls a future to completion, returning its result. There is nobody else to complete it, so it
/// has to make progress by itself.
fn block_on<R, F: Future<Output = R>>(fut: F) -> R {
    let (_count, waker) = counting_waker();
    let mut cx = Context::from_waker(&waker);
    let mut fut = Box::pin(fut);
    match fut.as_mut().poll(&mut cx) {
        Poll::Ready(value) => value,
        Poll::Pending => panic!("the future is not ready"),
    }
}

#[test]
fn promise_fulfillment() {
    let (promise, handle) = promise();
    assert!(handle.will_block());
    promise.fulfill(());
    assert!(!handle.will_block());
    handle.block().unwrap();
}

#[test]
fn promise_drop() {
    let (promise, handle) = promise::<()>();
    assert!(handle.will_block());
    promise.abandon();
    assert!(!handle.will_block());
    handle.block().unwrap_err();
}

#[test]
fn promise_is_send() {
    assert_send::<Promise<()>>();
    assert_send::<PromiseHandle<()>>();
}

#[test]
fn promise_async() {
    {
        let (promise, handle) = promise();
        let fut = handle.wait();
        promise.fulfill(123);
        assert_eq!(block_on(fut), Ok(123));
    }

    {
        let (promise, handle) = promise();
        promise.fulfill(123);
        assert_eq!(block_on(handle.wait()), Ok(123));
    }
}

#[test]
fn abandoned_promise_ends_the_wait_with_an_error() {
    let (promise, handle) = promise::<u8>();
    promise.abandon();
    assert!(block_on(handle.wait()).is_err());

    let (_count, waker) = counting_waker();
    let mut cx = Context::from_waker(&waker);
    let (promise, handle) = self::promise::<u8>();
    let mut fut = Box::pin(handle.wait());
    assert_eq!(fut.as_mut().poll(&mut cx), Poll::Pending);
    promise.abandon();
    assert!(matches!(fut.as_mut().poll(&mut cx), Poll::Ready(Err(_))));
}

#[test]
fn blocking_yields_the_very_value() {
    let (promise, handle) = promise();
    promise.fulfill(String::from("result"));
    assert_eq!(handle.block(), Ok(String::from("result")));
}

#[test]
fn fulfilling_without_a_handle_drops_the_value() {
    let value = Arc::new(());
    let (promise, handle) = promise();
    drop(handle);
    promise.fulfill(value.clone());
    assert_eq!(Arc::strong_count(&value), 1);
}

#[test]
fn fulfillment_wakes_the_waiting_task() {
    let (count, waker) = counting_waker();
    let mut cx = Context::from_waker(&waker);
    let (promise, handle) = promise();
    let mut fut = Box::pin(handle.wait());
    assert_eq!(fut.as_mut().poll(&mut cx), Poll::Pending);
    assert_eq!(fut.as_mut().poll(&mut cx), Poll::Pending);
    assert_eq!(count.0.load(Ordering::Relaxed), 0);
    promise.fulfill(5);
    assert_eq!(count.0.load(Ordering::Relaxed), 2);
    assert_eq!(fut.as_mut().poll(&mut cx), Poll::Ready(Ok(5)));
}

#[test]
fn state_hands_the_value_out_once() {
    let mut state = PromiseState::new();
    assert!(state.is_pending());
    drop(state.fulfill(7));
    assert!(!state.is_pending());
    assert_eq!(state.fetch(), Ok(7));
    let error = state.fetch().unwrap_err();
    assert_eq!(state.fetch(), Err(error.clone()));
}

#[test]
fn value_survives_the_end_of_the_promise() {
    let mut state = PromiseState::new();
    assert!(!state.is_fulfilled());
    drop(state.fulfill(7));
    state.abandon();
    assert!(state.is_fulfilled());
    drop(state.fulfill(8));
    assert_eq!(state.fetch(), Ok(7));
    assert!(!state.is_fulfilled());

    let (promise, handle) = promise();
    assert!(!handle.is_fulfilled());
    promise.fulfill(9);
    assert!(handle.is_fulfilled());
    assert!(!handle.will_block());
    assert_eq!(handle.block(), Ok(9));
}

#[test]
fn abandoned_promise_is_not_fulfilled() {
    let (promise, handle) = promise::<u8>();
    promise.abandon();
    assert!(!handle.is_fulfilled());
    assert!(!handle.will_block());
}

#[test]
fn abandoned_state_yields_errors() {
    let (_count, waker) = counting_waker();
    let mut state = PromiseState::<u32>::new();
    state.abandon();
    assert!(!state.is_pending());
    assert!(state.fetch().is_err());
    assert!(matches!(state.poll(&waker), Poll::Ready(Err(_))));
}

#[test]
fn open_state_yields_nothing_and_registers_whoever_polls() {
    let (count, waker) = counting_waker();
    let mut state = PromiseState::new();
    assert!(state.fetch().is_err());
    assert!(state.is_pending());
    assert_eq!(state.poll(&waker), Poll::Pending);
    let wakers = state.fulfill("done");
    assert_eq!(count.0.load(Ordering::Relaxed), 0);
    wake_all(wakers);
    assert_eq!(count.0.load(Ordering::Relaxed), 1);
    assert_eq!(state.poll(&waker), Poll::Ready(Ok("done")));
}

/// A waker that notes its number down when it is used.
struct NumberedWaker {
    number: u32,
    order: Arc<Mutex<Vec<u32>>>,
}

impl Wake for NumberedWaker {
    fn wake(self: Arc<Self>) {
        self.order.lock().unwrap().push(self.number);
    }
}

#[test]
fn tasks_are_woken_in_the_order_in_which_they_registered() {
    let order = Arc::new(Mutex::new(Vec::new()));
    let mut wakers = Vec::new();
    for number in 1..=4 {
        let order = order.clone();
        register(&mut wakers, &Waker::from(Arc::new(NumberedWaker { number, order })));
    }
    assert_eq!(*order.lock().unwrap(), Vec::<u32>::new());
    wake_all(wakers);
    assert_eq!(*order.lock().unwrap(), vec![1, 2, 3, 4]);
}

#[test]
fn promise_is_held_by_two_owners_exactly() {
    assert!(!promise_is_held(0));
    assert!(!promise_is_held(1));
    assert!(promise_is_held(2));
    assert!(!promise_is_held(3));
}
