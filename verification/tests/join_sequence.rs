use eventual::join::{failure_finishes, remaining_after, value_finishes, Countdown, Partial};
use eventual::receipt;
use eventual::sequence::{more_ready, publish_step, send_action, Publish, SendAction, SequenceState};
use eventual::AsyncError;
use eventual::timer::{millis, remaining_ms};

#[test]
fn join_vec_consumes_in_order() {
    let mut staged = vec![Some(1), Some(2), Some(3)];
    assert_eq!(staged.consume(), vec![1, 2, 3]);
    assert_eq!(staged, vec![None, None, None]);
    let mut empty: Vec<Option<u8>> = vec![];
    assert_eq!(empty.consume(), Vec::<u8>::new());
}

#[test]
fn join_tuples_consume() {
    let mut pair = (Some(50), Some("75"));
    assert_eq!(pair.consume(), (50, "75"));
    assert_eq!(pair, (None, None));
    let mut triple = (Some(1), Some(2u8), Some('c'));
    assert_eq!(triple.consume(), (1, 2, 'c'));
}

#[test]
fn join_countdown_finishes_once() {
    let c = Countdown::new(2);
    assert!(!value_finishes(c.dec()));
    assert!(value_finishes(c.dec()));
    // After the join finished, a failure does not finish it again.
    assert!(!c.claim_failure());

    let c = Countdown::new(2);
    assert!(c.claim_failure());
    assert!(!value_finishes(c.dec()));
    assert!(!c.claim_failure());
    assert!(failure_finishes(1));
    assert!(!failure_finishes(0));
}

#[test]
fn sequence_slots_publish_in_order() {
    let s = SequenceState::new();
    let a = s.take_enqueue_slot();
    let b = s.take_enqueue_slot();
    assert_eq!((a, b), (0, 1));
    // Slot 1 waits for slot 0.
    assert_eq!(s.publish_attempt(b), Publish::Wait);
    assert_eq!(s.publish_attempt(a), Publish::Published);
    assert_eq!(s.publish_attempt(b), Publish::Published);
    assert_eq!(s.ready_count(), 2);
    assert_eq!(publish_step(3, 3), Some(4));
    assert_eq!(publish_step(2, 3), None);
}

#[test]
fn sequence_send_lock_and_more_ready() {
    let s = SequenceState::new();
    assert!(s.try_start_send());
    assert!(!s.try_start_send());
    s.mark_busy();
    assert!(!s.try_start_send());
    s.mark_idle();
    assert!(s.try_start_send());
    assert_eq!(s.take_send_slot(), 0);
    assert!(more_ready(0, 2));
    assert!(!more_ready(1, 2));
    assert!(!more_ready(0, 0));
    s.mark_failed();
    assert!(!s.try_start_send());
    s.mark_dropped();
}

#[test]
fn receipt_parts_give_back_core_and_count() {
    assert_eq!(receipt::parts(receipt::new("core", 7)), (Some("core"), 7));
    assert_eq!(receipt::parts(receipt::none::<&str>()), (None, 0));
}

#[test]
fn timer_millis_and_remaining_delay() {
    assert_eq!(millis(1, 500_000_000), 1500);
    assert_eq!(millis(0, 999_999), 0);
    assert_eq!(millis((1u64 << 32) + 2, 0), 2000);
    assert_eq!(remaining_ms(300, 100), Some(200));
    assert_eq!(remaining_ms(300, 300), None);
    assert_eq!(remaining_ms(300, 600), None);
}

#[test]
fn join_remaining_after_counts_down() {
    assert_eq!(remaining_after(2), 1);
    assert_eq!(remaining_after(1), 0);
    assert_eq!(remaining_after(-1), -2);
    assert_eq!(remaining_after(isize::MIN), isize::MAX);
}

#[test]
fn sequence_send_actions() {
    assert_eq!(send_action::<i32, &str>(Ok(123)), SendAction::Send(123));
    assert_eq!(send_action::<i32, &str>(Err(AsyncError::Failed("win"))), SendAction::Fail("win"));
    assert_eq!(send_action::<i32, &str>(Err(AsyncError::Aborted)), SendAction::Abort);
}
