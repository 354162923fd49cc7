use semaphorus::{GetWait, Semaphore, SemaphoreError, POLL_INTERVAL_MS};
use std::sync::atomic::Ordering;

#[test]
fn wrapper_test_maximum_count_works() {
    let semaphore = Semaphore::new((), 4);

    let (g1, g2, g3, g4) = (
        semaphore.try_get(),
        semaphore.try_get(),
        semaphore.try_get(),
        semaphore.try_get(),
    );

    assert_eq!(
        (g1.is_ok(), g2.is_ok(), g3.is_ok(), g4.is_ok()),
        (true, true, true, true)
    );

    let g5 = semaphore.try_get();

    assert!(g5.is_err());

    drop(g1);

    let g6 = semaphore.try_get();

    assert!(g6.is_ok());
    drop((g2, g3, g4, g5, g6));
}

#[test]
fn guard_reads_the_value() {
    let semaphore = Semaphore::new(String::from("Hello World"), 2);
    let g1 = semaphore.try_get().ok().unwrap();
    let g2 = semaphore.try_get().ok().unwrap();
    assert_eq!(g1.as_str(), "Hello World");
    assert_eq!(*g2, "Hello World");
    assert_eq!(semaphore.count(Ordering::SeqCst), 2);
    assert!(semaphore.at_max(Ordering::SeqCst));
    drop(g1);
    assert_eq!(semaphore.count(Ordering::SeqCst), 1);
    drop(g2);
    assert_eq!(semaphore.count(Ordering::SeqCst), 0);
}

#[test]
fn unsized_value_behind_guard() {
    let semaphore: Box<Semaphore<[u8]>> = Box::new(Semaphore::new([1u8, 2, 3], 1));
    let guard = semaphore.try_get().ok().unwrap();
    assert_eq!(&*guard, &[1u8, 2, 3][..]);
    assert!(matches!(semaphore.try_get(), Err(SemaphoreError::AtMaxCount)));
}

#[test]
fn get_mut_changes_the_value() {
    let mut semaphore = Semaphore::new(5u32, 3);
    *semaphore.get_mut() += 1;
    assert_eq!(*semaphore.try_get().ok().unwrap(), 6);
    assert_eq!(semaphore.count(Ordering::SeqCst), 0);
    assert_eq!(semaphore.into_inner(), 6);
}

#[test]
fn into_inner_returns_the_value() {
    let semaphore = Semaphore::new(vec![1, 2, 3], 2);
    {
        let guard = semaphore.try_get().ok().unwrap();
        assert_eq!(guard.len(), 3);
    }
    assert_eq!(semaphore.into_inner(), vec![1, 2, 3]);
}

#[test]
fn zero_capacity_value_refuses_every_guard() {
    let semaphore = Semaphore::new(7i64, 0);
    assert_eq!(semaphore.max(), 0);
    assert!(semaphore.at_max(Ordering::Relaxed));
    assert!(matches!(semaphore.try_get(), Err(SemaphoreError::AtMaxCount)));
}

#[test]
fn concrete_scenario_capacity_four() {
    let semaphore = Semaphore::new(42u8, 4);
    assert_eq!(semaphore.max(), 4);
    let g1 = semaphore.try_get();
    let g2 = semaphore.try_get();
    let g3 = semaphore.try_get();
    let g4 = semaphore.try_get();
    assert!(g1.is_ok() && g2.is_ok() && g3.is_ok() && g4.is_ok());
    let g5 = semaphore.try_get();
    assert!(matches!(g5, Err(SemaphoreError::AtMaxCount)));
    drop(g1);
    let g6 = semaphore.try_get();
    assert_eq!(**g6.as_ref().ok().unwrap(), 42u8);
    drop((g2, g3, g4, g5, g6));
}

#[test]
fn poll_get_on_zero_capacity_stops_at_once() {
    let semaphore = Semaphore::new(1u8, 0);
    assert!(matches!(semaphore.poll_get(), Err(GetWait::ZeroCapacity)));
    assert_eq!(semaphore.count(Ordering::SeqCst), 0);
}

#[test]
fn poll_get_returns_guard_when_slot_free() {
    let semaphore = Semaphore::new(9u8, 1);
    let guard = semaphore.poll_get().ok().unwrap();
    assert_eq!(*guard, 9);
    assert_eq!(semaphore.count(Ordering::SeqCst), 1);
}

#[test]
fn poll_get_when_saturated_asks_to_wait() {
    let semaphore = Semaphore::new(9u8, 1);
    let held = semaphore.poll_get();
    assert!(held.is_ok());
    assert!(matches!(
        semaphore.poll_get(),
        Err(GetWait::RetryAfterMillis(POLL_INTERVAL_MS))
    ));
    assert_eq!(POLL_INTERVAL_MS, 50);
    drop(held);
    let again = semaphore.poll_get();
    assert!(again.is_ok());
}
