use eventual::core_atomic::AtomicState;
use eventual::core_protocol::{
    CancelStep, CompleteStep, ConsumerWaitStep, ProducerPoll, ProducerWaitStep, Step,
    UnregisterStep,
};
use eventual::core_state::{Lifecycle, State};
use std::mem;
use std::sync::atomic::Ordering;

const ALL: [Lifecycle; 10] = [
    Lifecycle::New,
    Lifecycle::ConsumerWait,
    Lifecycle::ProducerWait,
    Lifecycle::Ready,
    Lifecycle::ReadyProducerWait,
    Lifecycle::ProducerNotify,
    Lifecycle::ProducerNotifyCanceled,
    Lifecycle::ConsumerNotify,
    Lifecycle::ConsumerNotifyProducerWait,
    Lifecycle::Canceled,
];

fn at(l: Lifecycle) -> State {
    State::new().with_lifecycle(l)
}

#[test]
pub fn test_struct_sizes() {
    assert_eq!(mem::size_of::<State>(), mem::size_of::<usize>());
}

#[test]
fn lifecycle_codes_round_trip() {
    for (i, l) in ALL.iter().enumerate() {
        assert_eq!(l.as_u64(), i as u64);
        assert_eq!(Lifecycle::from_u64(i as u64), *l);
    }
}

#[test]
fn new_state_is_fresh() {
    let s = State::new();
    assert_eq!(s.as_u64(), 0);
    assert_eq!(s.lifecycle(), Lifecycle::New);
    assert_eq!(s.count(), 0);
    assert!(!s.is_invoking_consumer());
    assert!(!s.is_invoking_producer());
}

#[test]
fn with_lifecycle_keeps_flags_and_count() {
    // count 5, consuming and producing bits set, lifecycle Ready
    let s = State::load((5 << 6) | 16 | 32 | 3);
    let t = s.with_lifecycle(Lifecycle::Canceled);
    assert_eq!(t.as_u64(), (5 << 6) | 16 | 32 | 9);
    assert_eq!(t.lifecycle(), Lifecycle::Canceled);
    assert_eq!(t.count(), 5);
    assert!(t.is_invoking_consumer());
    assert!(t.is_invoking_producer());
}

#[test]
fn inc_count_adds_one_registration() {
    let s = at(Lifecycle::ProducerWait).with_producing();
    let t = s.inc_count();
    assert_eq!(t.count(), 1);
    assert_eq!(t.lifecycle(), Lifecycle::ProducerWait);
    assert!(t.is_invoking_producer());
    assert_eq!(t.as_u64(), 64 + 32 + 2);
    assert!(!State::load(0xFFFF_FFFF_FFFF_FFC0).can_inc_count());
    assert!(State::load(0xFFFF_FFFF_FFFF_FFBF).can_inc_count());
}

#[test]
fn lifecycle_predicates() {
    let ready: Vec<bool> = ALL.iter().map(|l| at(*l).is_ready()).collect();
    assert_eq!(ready, vec![false, false, false, true, true, false, false, true, true, false]);
    assert!(at(Lifecycle::ConsumerWait).is_producer_ready());
    assert!(at(Lifecycle::Canceled).is_producer_ready());
    assert!(!at(Lifecycle::ProducerWait).is_producer_ready());
    assert!(at(Lifecycle::ConsumerNotifyProducerWait).is_consumer_notify());
    assert!(at(Lifecycle::ProducerNotify).is_producer_notify());
    assert!(!State::load(10).is_valid());
    assert!(State::load(9).is_valid());
}

#[test]
fn invalid_words_are_refused_by_every_step() {
    let bad = State::load(12);
    assert_eq!(bad.consumer_wait_step(), ConsumerWaitStep::Invalid);
    assert_eq!(bad.complete_step(), CompleteStep::Invalid);
    assert_eq!(bad.cancel_step(), CancelStep::Invalid);
    assert_eq!(bad.consume_step(), Step::Invalid);
    assert_eq!(bad.producer_wait_step(), ProducerWaitStep::Invalid);
    assert_eq!(bad.unregister_step(0), UnregisterStep::Invalid);
    assert_eq!(bad.defer_consumer_notify_step(), Step::Invalid);
    assert_eq!(bad.defer_producer_notify_step(), Step::Invalid);
    assert_eq!(bad.invoking_producer_step(), Step::Invalid);
}

#[test]
fn complete_then_consume_returns_to_new() {
    let s = State::new();
    match s.complete_step() {
        CompleteStep::Complete { next, notify_consumer } => {
            assert!(!notify_consumer);
            assert_eq!(next.lifecycle(), Lifecycle::Ready);
            assert!(next.is_ready());
            assert_eq!(next.consume_step(), Step::To(State::new()));
        }
        other => panic!("unexpected step {:?}", other),
    }
}

#[test]
fn waiting_consumer_is_notified_on_complete() {
    match State::new().consumer_wait_step() {
        ConsumerWaitStep::Register { next, notify_producer } => {
            assert!(!notify_producer);
            assert_eq!(next.lifecycle(), Lifecycle::ConsumerWait);
            assert_eq!(next.count(), 1);
            match next.complete_step() {
                CompleteStep::Complete { next, notify_consumer } => {
                    assert!(notify_consumer);
                    assert_eq!(next.lifecycle(), Lifecycle::Ready);
                    assert_eq!(next.count(), 1);
                }
                other => panic!("unexpected step {:?}", other),
            }
        }
        other => panic!("unexpected step {:?}", other),
    }
}

#[test]
fn consumer_finds_value_already_there() {
    assert_eq!(at(Lifecycle::Ready).consumer_wait_step(), ConsumerWaitStep::NotifyConsumer);
    assert_eq!(at(Lifecycle::ReadyProducerWait).consumer_wait_step(), ConsumerWaitStep::NotifyConsumer);
    assert_eq!(at(Lifecycle::Canceled).consumer_wait_step(), ConsumerWaitStep::Invalid);
}

#[test]
fn producer_interest_is_lazy() {
    let p = match State::new().producer_wait_step() {
        ProducerWaitStep::Wait(p) => p,
        other => panic!("unexpected step {:?}", other),
    };
    assert_eq!(p.lifecycle(), Lifecycle::ProducerWait);
    assert_eq!(p.producer_poll(), ProducerPoll::NotReady);
    match p.consumer_wait_step() {
        ConsumerWaitStep::Register { next, notify_producer } => {
            assert!(notify_producer);
            assert_eq!(next.lifecycle(), Lifecycle::ConsumerWait);
            assert_eq!(next.producer_poll(), ProducerPoll::Ready);
        }
        other => panic!("unexpected step {:?}", other),
    }
    // A producer callback running while the consumer registers is told to
    // run again.
    match p.with_producing().consumer_wait_step() {
        ConsumerWaitStep::Register { next, notify_producer } => {
            assert!(!notify_producer);
            assert_eq!(next.lifecycle(), Lifecycle::ProducerNotify);
        }
        other => panic!("unexpected step {:?}", other),
    }
    assert_eq!(at(Lifecycle::ConsumerWait).producer_wait_step(), ProducerWaitStep::NotifyProducer);
}

#[test]
fn receipt_count_takes_back_pending_callback() {
    let registered = match State::new().consumer_wait_step() {
        ConsumerWaitStep::Register { next, .. } => next,
        other => panic!("unexpected step {:?}", other),
    };
    assert_eq!(registered.unregister_step(2), UnregisterStep::CountMismatch);
    assert_eq!(registered.unregister_step(1), UnregisterStep::Unregister(State::load(64)));
    assert_eq!(State::new().unregister_step(0), UnregisterStep::NothingPending);
    assert_eq!(at(Lifecycle::Ready).unregister_step(0), UnregisterStep::NothingPending);
}

#[test]
fn cancel_steps() {
    assert_eq!(
        State::new().cancel_step(),
        CancelStep::Cancel { next: at(Lifecycle::Canceled), drop_value: false, notify_producer: false }
    );
    assert_eq!(
        at(Lifecycle::ProducerWait).cancel_step(),
        CancelStep::Cancel { next: at(Lifecycle::Canceled), drop_value: false, notify_producer: true }
    );
    assert_eq!(
        at(Lifecycle::ProducerWait).with_producing().cancel_step(),
        CancelStep::Cancel {
            next: at(Lifecycle::ProducerNotifyCanceled).with_producing(),
            drop_value: false,
            notify_producer: false
        }
    );
    assert_eq!(
        at(Lifecycle::Ready).cancel_step(),
        CancelStep::Cancel { next: at(Lifecycle::Canceled), drop_value: true, notify_producer: false }
    );
    assert_eq!(
        at(Lifecycle::ReadyProducerWait).cancel_step(),
        CancelStep::Cancel { next: at(Lifecycle::Canceled), drop_value: true, notify_producer: true }
    );
    assert_eq!(at(Lifecycle::Canceled).cancel_step(), CancelStep::AlreadyCanceled);
    assert_eq!(at(Lifecycle::ConsumerWait).cancel_step(), CancelStep::Invalid);
    assert_eq!(at(Lifecycle::Canceled).complete_step(), CompleteStep::Discard);
    assert_eq!(at(Lifecycle::Canceled).producer_poll(), ProducerPoll::Aborted);
}

#[test]
fn notify_and_invoke_steps() {
    assert_eq!(at(Lifecycle::Ready).defer_consumer_notify_step(), Step::To(at(Lifecycle::ConsumerNotify)));
    assert_eq!(at(Lifecycle::New).defer_consumer_notify_step(), Step::Invalid);
    assert_eq!(at(Lifecycle::ConsumerWait).defer_producer_notify_step(), Step::To(at(Lifecycle::ProducerNotify)));
    assert_eq!(
        at(Lifecycle::Canceled).defer_producer_notify_step(),
        Step::To(at(Lifecycle::ProducerNotifyCanceled))
    );
    assert_eq!(
        at(Lifecycle::ProducerNotify).invoking_producer_step(),
        Step::To(at(Lifecycle::ConsumerWait).with_producing())
    );
    assert_eq!(at(Lifecycle::Canceled).invoking_producer_step(), Step::To(at(Lifecycle::Canceled).with_producing()));
    assert_eq!(at(Lifecycle::New).invoking_producer_step(), Step::Invalid);
    assert_eq!(at(Lifecycle::ConsumerNotifyProducerWait).consume_step(), Step::To(at(Lifecycle::ProducerWait)));
    assert_eq!(at(Lifecycle::ProducerWait).consume_step(), Step::Invalid);
    assert_eq!(at(Lifecycle::Ready).producer_wait_step(), ProducerWaitStep::Wait(at(Lifecycle::ReadyProducerWait)));
    assert_eq!(
        at(Lifecycle::ConsumerNotify).producer_wait_step(),
        ProducerWaitStep::Wait(at(Lifecycle::ConsumerNotifyProducerWait))
    );
    assert!(at(Lifecycle::Ready).consumer_can_run_now());
    assert!(!State::load(16 | 3).consumer_can_run_now());
    assert!(at(Lifecycle::ConsumerWait).producer_can_run_now());
    assert!(!at(Lifecycle::ConsumerWait).with_producing().producer_can_run_now());
}

fn retry<S>(mut curr: State, mut attempt: impl FnMut(State) -> Result<S, State>) -> S {
    loop {
        match attempt(curr) {
            Ok(step) => return step,
            Err(actual) => curr = actual,
        }
    }
}

#[test]
fn atomic_word_cancel_before_send() {
    // A consumer registers a callback, takes it back with its receipt, and
    // the value sent afterwards is waiting to be consumed.
    let word = AtomicState::new();
    let curr = word.load(Ordering::Relaxed);
    let registered = match retry(curr, |c| word.consumer_wait_attempt(c)) {
        ConsumerWaitStep::Register { next, .. } => next,
        other => panic!("unexpected step {:?}", other),
    };
    assert_eq!(word.load(Ordering::Relaxed), registered);
    let count = registered.count();
    match retry(registered, |c| word.unregister_attempt(c, count)) {
        UnregisterStep::Unregister(next) => assert_eq!(next.lifecycle(), Lifecycle::New),
        other => panic!("unexpected step {:?}", other),
    }
    let curr = word.load(Ordering::Relaxed);
    match retry(curr, |c| word.complete_attempt(c)) {
        CompleteStep::Complete { notify_consumer, .. } => assert!(!notify_consumer),
        other => panic!("unexpected step {:?}", other),
    }
    let curr = word.load(Ordering::Relaxed);
    assert!(curr.is_ready());
    assert_eq!(retry(curr, |c| word.consume_attempt(c)), Step::To(State::load(64)));
    assert_eq!(word.load(Ordering::Relaxed).lifecycle(), Lifecycle::New);
}

#[test]
fn atomic_word_cancel_after_send() {
    // A value sent to a waiting consumer: the receipt no longer takes the
    // callback back.
    let word = AtomicState::new();
    let registered = match retry(word.load(Ordering::Relaxed), |c| word.consumer_wait_attempt(c)) {
        ConsumerWaitStep::Register { next, .. } => next,
        other => panic!("unexpected step {:?}", other),
    };
    match retry(word.load(Ordering::Relaxed), |c| word.complete_attempt(c)) {
        CompleteStep::Complete { notify_consumer, .. } => assert!(notify_consumer),
        other => panic!("unexpected step {:?}", other),
    }
    let count = registered.count();
    assert_eq!(
        retry(word.load(Ordering::Relaxed), |c| word.unregister_attempt(c, count)),
        UnregisterStep::NothingPending
    );
}

#[test]
fn atomic_word_stale_attempt_hands_back_actual() {
    let word = AtomicState::of(Lifecycle::Ready);
    let stale = State::new();
    assert_eq!(word.complete_attempt(stale), Err(at(Lifecycle::Ready)));
    assert_eq!(word.cancel_attempt(at(Lifecycle::Ready)), Ok(CancelStep::Cancel {
        next: at(Lifecycle::Canceled),
        drop_value: true,
        notify_producer: false,
    }));
    assert_eq!(word.load(Ordering::Relaxed), at(Lifecycle::Canceled));
    assert_eq!(word.complete_attempt(at(Lifecycle::Canceled)), Ok(CompleteStep::Discard));
}

#[test]
fn atomic_word_invoking_flags() {
    let word = AtomicState::of(Lifecycle::Ready);
    word.invoking_consumer_ready();
    assert!(word.load(Ordering::Relaxed).is_invoking_consumer());
    let after = word.done_invoking_consumer_ready();
    assert_eq!(after, at(Lifecycle::Ready));

    let word = AtomicState::of(Lifecycle::ConsumerWait);
    let marked = retry(word.load(Ordering::Relaxed), |c| word.invoking_producer_ready_attempt(c));
    assert_eq!(marked, Step::To(at(Lifecycle::ConsumerWait).with_producing()));
    assert_eq!(word.done_invoking_producer_ready(), at(Lifecycle::ConsumerWait));
}

#[test]
fn unmark_clears_running_bits() {
    let ready_consuming = (3 << 6) | 16 | 3;
    assert_eq!(State::unmark(ready_consuming, 16), State::load((3 << 6) | 3));
    let waiting_producing = (2 << 6) | 32 | 1;
    assert_eq!(State::unmark(waiting_producing, 32), State::load((2 << 6) | 1));
    assert_eq!(State::unmark(5, 16).as_u64(), 5u64.wrapping_sub(16));
}
