use std::sync::PoisonError;
use std::time::Duration;

use pawawwewism::sync::{
    has_timed_out, ignore_poison, ignore_poison_try, Condvar, Mutex, RwLock, TryLockError,
};

#[test]
fn poison_is_taken_off() {
    assert_eq!(ignore_poison(Ok(1)), 1);
    assert_eq!(ignore_poison(Err(PoisonError::new(2))), 2);
}

#[test]
fn poison_is_taken_off_attempts() {
    assert_eq!(ignore_poison_try(Ok(1)), Ok(1));
    assert_eq!(
        ignore_poison_try(Err(std::sync::TryLockError::Poisoned(PoisonError::new(2)))),
        Ok(2),
    );
    assert_eq!(
        ignore_poison_try::<i32>(Err(std::sync::TryLockError::WouldBlock)),
        Err(TryLockError),
    );
}

#[test]
fn failed_attempt_has_a_message() {
    assert_eq!(
        TryLockError.message(),
        "`try_lock` failed because the operation would block",
    );
}

#[test]
fn mutex_keeps_what_is_written_through_its_guard() {
    let mut mutex = Mutex::new(1);
    {
        let mut guard = mutex.lock();
        assert_eq!(*guard, 1);
        *guard = 2;
        assert_eq!(*guard, 2);
        assert!(matches!(mutex.try_lock(), Err(TryLockError)));
    }
    {
        let mut guard = mutex.try_lock().unwrap();
        *guard += 1;
    }
    *mutex.get_mut() *= 10;
    assert_eq!(mutex.into_inner(), 30);
}

#[test]
fn mutex_is_made_from_a_value() {
    assert_eq!(Mutex::from("text").into_inner(), "text");
    assert_eq!(Mutex::<u8>::default().into_inner(), 0);
}

#[test]
fn rwlock_keeps_what_is_written_through_its_guard() {
    let mut lock = RwLock::new(vec![1]);
    {
        let first = lock.read();
        let second = lock.try_read().unwrap();
        assert_eq!(*first, *second);
        assert!(matches!(lock.try_write(), Err(TryLockError)));
    }
    {
        let mut guard = lock.write();
        guard.push(2);
        assert_eq!(guard.len(), 2);
        assert!(matches!(lock.try_read(), Err(TryLockError)));
    }
    lock.try_write().unwrap().push(3);
    lock.get_mut().push(4);
    assert_eq!(lock.into_inner(), vec![1, 2, 3, 4]);
}

#[test]
fn rwlock_is_made_from_a_value() {
    assert_eq!(RwLock::from('c').into_inner(), 'c');
    assert_eq!(RwLock::<String>::default().into_inner(), "");
}

#[test]
fn condvar_does_not_wait_for_a_condition_that_does_not_hold() {
    let mutex = Mutex::new(5);
    let condvar = Condvar::new();
    let guard = condvar.wait_while(mutex.lock(), |value| {
        *value += 1;
        *value < 6
    });
    assert_eq!(*guard, 6);
    let (guard, timeout) =
        condvar.wait_timeout_while(guard, Duration::from_secs(60), |value| *value != 6);
    assert_eq!(*guard, 6);
    assert!(!timeout.timed_out());
    assert!(!has_timed_out(&timeout));
}

#[test]
fn condvar_wait_runs_into_its_time_limit() {
    let mutex = Mutex::new(5);
    let condvar = Condvar::default();
    condvar.notify_one();
    condvar.notify_all();
    let (guard, timeout) =
        condvar.wait_timeout_while(mutex.lock(), Duration::from_millis(5), |_| true);
    assert!(timeout.timed_out());
    assert!(has_timed_out(&timeout));
    let (guard, _timeout) = condvar.wait_timeout(guard, Duration::from_millis(5));
    assert_eq!(*guard, 5);
}

#[test]
fn locks_show_what_they_hold() {
    let mutex = Mutex::new(17);
    assert!(format!("{:?}", mutex).contains("17"));
    assert!(format!("{:?}", mutex.lock()).contains("17"));
    let lock = RwLock::new("text");
    assert!(format!("{:?}", lock).contains("text"));
    assert!(format!("{:?}", lock.read()).contains("text"));
    assert!(format!("{:?}", lock.write()).contains("text"));
    assert!(format!("{:?}", Condvar::new()).contains("Condvar"));
}
