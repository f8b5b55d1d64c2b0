use park_waiters::counting_waiter::{CounterExhausted, CountingWaiter};
use park_waiters::Wake;

#[test]
fn fresh_counting_waiter_starts_at_one() {
    let w = CountingWaiter::new();
    assert_eq!(w.token().value(), 1);
    assert!(!w.is_waiting());
}

#[test]
fn tokens_increase_by_one_per_notification() {
    let mut w = CountingWaiter::new();
    let mut seen = vec![w.token().value()];
    for i in 0..10 {
        let r = if i % 2 == 0 { w.notify() } else { w.notify_one() };
        assert_eq!(r, Ok(Wake::Nobody));
        seen.push(w.token().value());
    }
    assert_eq!(seen, (1..=11).collect::<Vec<u64>>());
}

#[test]
fn next_generation_refuses_to_wrap() {
    assert_eq!(CountingWaiter::next_generation(1), Some(2));
    assert_eq!(CountingWaiter::next_generation(u64::MAX - 1), Some(u64::MAX));
    assert_eq!(CountingWaiter::next_generation(u64::MAX), None);
}

#[test]
fn with_generation_rejects_zero() {
    assert!(CountingWaiter::with_generation(0).is_none());
    let w = CountingWaiter::with_generation(42).unwrap();
    assert_eq!(w.token().value(), 42);
    assert!(!w.is_waiting());
}

#[test]
fn notify_at_the_largest_generation_is_refused() {
    let mut w = CountingWaiter::with_generation(u64::MAX - 1).unwrap();
    assert_eq!(w.notify(), Ok(Wake::Nobody));
    assert_eq!(w.token().value(), u64::MAX);
    assert_eq!(w.notify(), Err(CounterExhausted));
    assert_eq!(w.token().value(), u64::MAX);
    assert_eq!(w.notify_one(), Err(CounterExhausted));
    assert_eq!(w.token().value(), u64::MAX);
}

#[test]
fn notify_wakes_all_marked_waiters() {
    let mut w = CountingWaiter::new();
    let mut t = w.token();
    assert!(w.wait_token(&mut t));
    assert!(w.is_waiting());
    assert_eq!(w.notify(), Ok(Wake::All));
    assert!(!w.is_waiting());
    assert_eq!(w.token().value(), 2);
}

#[test]
fn notify_one_leaves_the_flag_to_the_queue() {
    let mut w = CountingWaiter::new();
    let mut t = w.token();
    assert!(w.wait_token(&mut t));
    assert_eq!(w.notify_one(), Ok(Wake::One));
    assert!(w.is_waiting());
    w.woke_one(true);
    assert!(w.is_waiting());
    w.woke_one(false);
    assert!(!w.is_waiting());
    assert_eq!(w.token().value(), 2);
}

#[test]
fn wait_token_with_current_token_parks() {
    let mut w = CountingWaiter::new();
    let mut t = w.token();
    assert!(w.wait_token(&mut t));
    assert!(w.is_waiting());
    assert_eq!(t.value(), 1);
}

#[test]
fn wait_token_with_stale_token_returns_at_once() {
    let mut w = CountingWaiter::new();
    let mut t = w.token();
    w.notify().unwrap();
    w.notify().unwrap();
    assert!(!w.wait_token(&mut t));
    assert!(!w.is_waiting());
    assert_eq!(t.value(), 3);
    // The consumed generation is not waited on again: the next wait parks
    // until a notification, after which it returns at once.
    assert!(w.wait_token(&mut t));
    w.notify().unwrap();
    assert!(!w.wait_token(&mut t));
    assert_eq!(t.value(), 4);
}
