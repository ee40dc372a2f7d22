use eventual::process::{LockStep, ProcessLocks, State, LOCK};
use std::sync::atomic::Ordering;

#[test]
fn process_word_fields() {
    let s = State(0);
    assert_eq!(s.in_flight(), 0);
    assert!(!s.has_lock());
    let l = s.inc_in_flight().with_lock();
    assert_eq!(l, State(LOCK | 1));
    assert_eq!(l.in_flight(), 1);
    assert!(l.has_lock());
    assert_eq!(l.without_lock(), State(1));
    assert_eq!(l.dec_in_flight(), State(LOCK));
}

#[test]
fn consume_lock_bounds_values_in_flight() {
    let locks = ProcessLocks::new(2);
    let s = locks.load_consume(Ordering::Relaxed);
    assert_eq!(
        locks.try_acquire_consume_lock_attempt(s, false, Ordering::Acquire),
        Ok(LockStep::Move { next: State(LOCK | 1), acquired: true })
    );
    // Held: a second taker is refused.
    assert_eq!(
        locks.try_acquire_consume_lock_attempt(State(LOCK | 1), false, Ordering::Acquire),
        Ok(LockStep::Unchanged)
    );
    locks.release_consume_lock(Ordering::Release);
    assert_eq!(locks.load_consume(Ordering::Relaxed), State(1));
    assert_eq!(
        locks.try_acquire_consume_lock_attempt(State(1), false, Ordering::Acquire),
        Ok(LockStep::Move { next: State(LOCK | 2), acquired: true })
    );
    locks.release_consume_lock(Ordering::Release);
    // Two in flight with a limit of two: refused.
    assert_eq!(
        locks.try_acquire_consume_lock_attempt(State(2), false, Ordering::Acquire),
        Ok(LockStep::Unchanged)
    );
    // A result was sent: its slot is given back and the lock taken.
    assert_eq!(
        locks.try_acquire_consume_lock_attempt(State(2), true, Ordering::Acquire),
        Ok(LockStep::Move { next: State(LOCK | 2), acquired: true })
    );
    // Lock held by another: only the count goes down.
    assert_eq!(
        locks.try_acquire_consume_lock_attempt(State(LOCK | 2), true, Ordering::Acquire),
        Ok(LockStep::Move { next: State(LOCK | 1), acquired: false })
    );
    assert_eq!(locks.consume_lock_step(State(LOCK), true), LockStep::Invalid);
}

#[test]
fn sender_is_handed_over() {
    let locks = ProcessLocks::new(4);
    let s = locks.load_produce(Ordering::Relaxed);
    assert_eq!(
        locks.acquire_produce_lock_or_inc_in_flight_attempt(s, Ordering::Acquire),
        Ok(LockStep::Move { next: State(LOCK), acquired: true })
    );
    assert_eq!(
        locks.acquire_produce_lock_or_inc_in_flight_attempt(State(LOCK), Ordering::Acquire),
        Ok(LockStep::Move { next: State(LOCK | 1), acquired: false })
    );
    assert_eq!(
        locks.release_lock_if_idle_attempt(State(LOCK | 1), Ordering::Release),
        Ok(LockStep::Move { next: State(LOCK), acquired: true })
    );
    assert_eq!(
        locks.release_lock_if_idle_attempt(State(LOCK), Ordering::Release),
        Ok(LockStep::Move { next: State(0), acquired: false })
    );
    assert_eq!(locks.load_produce(Ordering::Relaxed), State(0));
    assert_eq!(
        locks.try_acquire_produce_lock_attempt(State(0), Ordering::Acquire),
        Ok(LockStep::Move { next: State(LOCK), acquired: true })
    );
    assert_eq!(
        locks.try_acquire_produce_lock_attempt(State(LOCK), Ordering::Acquire),
        Ok(LockStep::Unchanged)
    );
    // A stale word is handed back with the word found.
    assert_eq!(
        locks.try_acquire_produce_lock_attempt(State(0), Ordering::Acquire),
        Err(State(LOCK))
    );
}
