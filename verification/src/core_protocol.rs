//! The transition table of a future / stream core.
//!
//! Each function here decides, from the state word alone, what one step of
//! the core does: the word it moves to and the work that the step hands back
//! to the caller (notify the consumer, notify the producer, drop the stored
//! value). A word whose lifecycle does not allow the step yields `Invalid`;
//! the core treats that as a broken protocol.

use vstd::prelude::*;
use crate::core_state::{
    lemma_consuming_flag, lemma_counted, lemma_marked_producing, lemma_set_phase, lemma_unmark_producing,
    Lifecycle, State,
};

verus! {

/// A step that either moves the word or finds the protocol broken.
#[derive(Debug, Clone, Copy, PartialEq, Eq, Structural)]
pub enum Step {
    To(State),
    Invalid,
}

/// What the consumer's wait registration does.
#[derive(Debug, Clone, Copy, PartialEq, Eq, Structural)]
pub enum ConsumerWaitStep {
    /// Move to `next`; when `notify_producer` holds the waiting producer is
    /// notified after the move.
    Register { next: State, notify_producer: bool },
    /// A value is already there: hand it to the consumer callback now.
    NotifyConsumer,
    Invalid,
}

/// What taking back a pending consumer callback does.
#[derive(Debug, Clone, Copy, PartialEq, Eq, Structural)]
pub enum UnregisterStep {
    /// The callback is taken back; the word moves to the given one.
    Unregister(State),
    /// The pending callback is not the one the receipt was issued for.
    CountMismatch,
    /// No consumer callback is pending.
    NothingPending,
    Invalid,
}

/// What the producer's wait registration does.
#[derive(Debug, Clone, Copy, PartialEq, Eq, Structural)]
pub enum ProducerWaitStep {
    /// Move to the given word and wait for the consumer.
    Wait(State),
    /// The consumer already waits, or has canceled: notify the producer now.
    NotifyProducer,
    Invalid,
}

/// What canceling the consumer side does.
#[derive(Debug, Clone, Copy, PartialEq, Eq, Structural)]
pub enum CancelStep {
    /// Move to `next`; drop the stored value and notify the producer as told.
    Cancel { next: State, drop_value: bool, notify_producer: bool },
    /// Canceled before: nothing to do.
    AlreadyCanceled,
    Invalid,
}

/// What completing the value does.
#[derive(Debug, Clone, Copy, PartialEq, Eq, Structural)]
pub enum CompleteStep {
    /// Move to `next`; when `notify_consumer` holds the waiting consumer is
    /// notified after the move.
    Complete { next: State, notify_consumer: bool },
    /// The consumer has canceled: the value is dropped.
    Discard,
    Invalid,
}

/// What the producer finds when it polls.
#[derive(Debug, Clone, Copy, PartialEq, Eq, Structural)]
pub enum ProducerPoll {
    /// The consumer has not asked for a value yet.
    NotReady,
    /// The consumer has canceled.
    Aborted,
    /// The consumer waits for a value.
    Ready,
}

// ===== The transition table =====

pub open spec fn spec_consumer_wait_step(s: State) -> ConsumerWaitStep {
    if !s.valid() {
        ConsumerWaitStep::Invalid
    } else {
        match s.phase() {
            Lifecycle::New => if s.can_count() {
                ConsumerWaitStep::Register {
                    next: s.set_phase(Lifecycle::ConsumerWait).counted(),
                    notify_producer: false,
                }
            } else {
                ConsumerWaitStep::Invalid
            },
            Lifecycle::ProducerWait => if !s.can_count() {
                ConsumerWaitStep::Invalid
            } else if s.producing() {
                ConsumerWaitStep::Register {
                    next: s.set_phase(Lifecycle::ProducerNotify).counted(),
                    notify_producer: false,
                }
            } else {
                ConsumerWaitStep::Register {
                    next: s.set_phase(Lifecycle::ConsumerWait).counted(),
                    notify_producer: true,
                }
            },
            Lifecycle::Ready | Lifecycle::ReadyProducerWait => ConsumerWaitStep::NotifyConsumer,
            _ => ConsumerWaitStep::Invalid,
        }
    }
}

pub open spec fn spec_defer_consumer_notify_step(s: State) -> Step {
    if s.valid() && s.phase() == Lifecycle::Ready {
        Step::To(s.set_phase(Lifecycle::ConsumerNotify))
    } else {
        Step::Invalid
    }
}

pub open spec fn spec_unregister_step(s: State, count: u64) -> UnregisterStep {
    if !s.valid() {
        UnregisterStep::Invalid
    } else if s.phase() == Lifecycle::ConsumerWait || s.phase() == Lifecycle::ProducerNotify {
        if count != s.callbacks() {
            UnregisterStep::CountMismatch
        } else if s.consuming() {
            UnregisterStep::Invalid
        } else {
            UnregisterStep::Unregister(s.set_phase(Lifecycle::New))
        }
    } else {
        UnregisterStep::NothingPending
    }
}

pub open spec fn spec_producer_wait_step(s: State) -> ProducerWaitStep {
    if !s.valid() {
        ProducerWaitStep::Invalid
    } else {
        match s.phase() {
            Lifecycle::New => ProducerWaitStep::Wait(s.set_phase(Lifecycle::ProducerWait)),
            Lifecycle::ConsumerNotify => ProducerWaitStep::Wait(
                s.set_phase(Lifecycle::ConsumerNotifyProducerWait),
            ),
            Lifecycle::ConsumerWait | Lifecycle::Canceled => ProducerWaitStep::NotifyProducer,
            Lifecycle::Ready => ProducerWaitStep::Wait(s.set_phase(Lifecycle::ReadyProducerWait)),
            _ => ProducerWaitStep::Invalid,
        }
    }
}

pub open spec fn spec_cancel_step(s: State) -> CancelStep {
    if !s.valid() {
        CancelStep::Invalid
    } else {
        match s.phase() {
            Lifecycle::New => CancelStep::Cancel {
                next: s.set_phase(Lifecycle::Canceled),
                drop_value: false,
                notify_producer: false,
            },
            Lifecycle::ProducerWait => if s.producing() {
                CancelStep::Cancel {
                    next: s.set_phase(Lifecycle::ProducerNotifyCanceled),
                    drop_value: false,
                    notify_producer: false,
                }
            } else {
                CancelStep::Cancel {
                    next: s.set_phase(Lifecycle::Canceled),
                    drop_value: false,
                    notify_producer: true,
                }
            },
            Lifecycle::Ready => CancelStep::Cancel {
                next: s.set_phase(Lifecycle::Canceled),
                drop_value: true,
                notify_producer: false,
            },
            Lifecycle::ReadyProducerWait => CancelStep::Cancel {
                next: s.set_phase(Lifecycle::Canceled),
                drop_value: true,
                notify_producer: true,
            },
            Lifecycle::Canceled => CancelStep::AlreadyCanceled,
            _ => CancelStep::Invalid,
        }
    }
}

pub open spec fn spec_complete_step(s: State) -> CompleteStep {
    if !s.valid() {
        CompleteStep::Invalid
    } else {
        match s.phase() {
            Lifecycle::New => CompleteStep::Complete {
                next: s.set_phase(Lifecycle::Ready),
                notify_consumer: false,
            },
            Lifecycle::ConsumerWait => CompleteStep::Complete {
                next: s.set_phase(Lifecycle::Ready),
                notify_consumer: true,
            },
            Lifecycle::Canceled => CompleteStep::Discard,
            _ => CompleteStep::Invalid,
        }
    }
}

pub open spec fn spec_defer_producer_notify_step(s: State) -> Step {
    if !s.valid() {
        Step::Invalid
    } else {
        match s.phase() {
            Lifecycle::ConsumerWait => Step::To(s.set_phase(Lifecycle::ProducerNotify)),
            Lifecycle::Canceled => Step::To(s.set_phase(Lifecycle::ProducerNotifyCanceled)),
            _ => Step::Invalid,
        }
    }
}

pub open spec fn spec_consume_step(s: State) -> Step {
    if !s.valid() {
        Step::Invalid
    } else {
        match s.phase() {
            Lifecycle::Ready | Lifecycle::ConsumerNotify => Step::To(s.set_phase(Lifecycle::New)),
            Lifecycle::ConsumerNotifyProducerWait | Lifecycle::ReadyProducerWait => Step::To(
                s.set_phase(Lifecycle::ProducerWait),
            ),
            _ => Step::Invalid,
        }
    }
}

pub open spec fn spec_invoking_producer_step(s: State) -> Step {
    if !s.valid() {
        Step::Invalid
    } else {
        match s.phase() {
            Lifecycle::ConsumerWait | Lifecycle::ProducerNotify => Step::To(
                s.set_phase(Lifecycle::ConsumerWait).marked_producing(),
            ),
            Lifecycle::Canceled => Step::To(s.marked_producing()),
            _ => Step::Invalid,
        }
    }
}

pub open spec fn spec_producer_poll(s: State) -> ProducerPoll {
    if s.phase() == Lifecycle::Canceled {
        ProducerPoll::Aborted
    } else if s.phase() == Lifecycle::ConsumerWait {
        ProducerPoll::Ready
    } else {
        ProducerPoll::NotReady
    }
}

// ===== Executable steps =====

impl State {
    /// The consumer registers a callback and waits (the `consumer_wait`
    /// transition).
    pub fn consumer_wait_step(&self) -> (r: ConsumerWaitStep)
        ensures
            r == spec_consumer_wait_step(*self),
    {
        if !self.is_valid() {
            return ConsumerWaitStep::Invalid;
        }
        match self.lifecycle() {
            Lifecycle::New => {
                if !self.can_inc_count() {
                    return ConsumerWaitStep::Invalid;
                }
                let next = self.with_lifecycle(Lifecycle::ConsumerWait);
                ConsumerWaitStep::Register { next: next.inc_count(), notify_producer: false }
            },
            Lifecycle::ProducerWait => {
                if !self.can_inc_count() {
                    return ConsumerWaitStep::Invalid;
                }
                if self.is_invoking_producer() {
                    let next = self.with_lifecycle(Lifecycle::ProducerNotify);
                    ConsumerWaitStep::Register { next: next.inc_count(), notify_producer: false }
                } else {
                    let next = self.with_lifecycle(Lifecycle::ConsumerWait);
                    ConsumerWaitStep::Register { next: next.inc_count(), notify_producer: true }
                }
            },
            Lifecycle::Ready | Lifecycle::ReadyProducerWait => ConsumerWaitStep::NotifyConsumer,
            _ => ConsumerWaitStep::Invalid,
        }
    }

    /// A consumer callback is running: record that it is to run again.
    pub fn defer_consumer_notify_step(&self) -> (r: Step)
        ensures
            r == spec_defer_consumer_notify_step(*self),
    {
        if self.is_valid() {
            if let Lifecycle::Ready = self.lifecycle() {
                return Step::To(self.with_lifecycle(Lifecycle::ConsumerNotify));
            }
        }
        Step::Invalid
    }

    /// Take back the pending consumer callback registered as number `count`.
    pub fn unregister_step(&self, count: u64) -> (r: UnregisterStep)
        ensures
            r == spec_unregister_step(*self, count),
    {
        if !self.is_valid() {
            return UnregisterStep::Invalid;
        }
        match self.lifecycle() {
            Lifecycle::ConsumerWait | Lifecycle::ProducerNotify => {
                if count != self.count() {
                    UnregisterStep::CountMismatch
                } else if self.is_invoking_consumer() {
                    UnregisterStep::Invalid
                } else {
                    UnregisterStep::Unregister(self.with_lifecycle(Lifecycle::New))
                }
            },
            _ => UnregisterStep::NothingPending,
        }
    }

    /// The producer registers a callback and waits.
    pub fn producer_wait_step(&self) -> (r: ProducerWaitStep)
        ensures
            r == spec_producer_wait_step(*self),
    {
        if !self.is_valid() {
            return ProducerWaitStep::Invalid;
        }
        match self.lifecycle() {
            Lifecycle::New => ProducerWaitStep::Wait(self.with_lifecycle(Lifecycle::ProducerWait)),
            Lifecycle::ConsumerNotify => ProducerWaitStep::Wait(
                self.with_lifecycle(Lifecycle::ConsumerNotifyProducerWait),
            ),
            Lifecycle::ConsumerWait | Lifecycle::Canceled => ProducerWaitStep::NotifyProducer,
            Lifecycle::Ready => ProducerWaitStep::Wait(
                self.with_lifecycle(Lifecycle::ReadyProducerWait),
            ),
            _ => ProducerWaitStep::Invalid,
        }
    }

    /// The consumer side cancels.
    pub fn cancel_step(&self) -> (r: CancelStep)
        ensures
            r == spec_cancel_step(*self),
    {
        if !self.is_valid() {
            return CancelStep::Invalid;
        }
        match self.lifecycle() {
            Lifecycle::New => CancelStep::Cancel {
                next: self.with_lifecycle(Lifecycle::Canceled),
                drop_value: false,
                notify_producer: false,
            },
            Lifecycle::ProducerWait => {
                if self.is_invoking_producer() {
                    CancelStep::Cancel {
                        next: self.with_lifecycle(Lifecycle::ProducerNotifyCanceled),
                        drop_value: false,
                        notify_producer: false,
                    }
                } else {
                    CancelStep::Cancel {
                        next: self.with_lifecycle(Lifecycle::Canceled),
                        drop_value: false,
                        notify_producer: true,
                    }
                }
            },
            Lifecycle::Ready => CancelStep::Cancel {
                next: self.with_lifecycle(Lifecycle::Canceled),
                drop_value: true,
                notify_producer: false,
            },
            Lifecycle::ReadyProducerWait => CancelStep::Cancel {
                next: self.with_lifecycle(Lifecycle::Canceled),
                drop_value: true,
                notify_producer: true,
            },
            Lifecycle::Canceled => CancelStep::AlreadyCanceled,
            _ => CancelStep::Invalid,
        }
    }

    /// The producer provides the value.
    pub fn complete_step(&self) -> (r: CompleteStep)
        ensures
            r == spec_complete_step(*self),
    {
        if !self.is_valid() {
            return CompleteStep::Invalid;
        }
        match self.lifecycle() {
            Lifecycle::New => CompleteStep::Complete {
                next: self.with_lifecycle(Lifecycle::Ready),
                notify_consumer: false,
            },
            Lifecycle::ConsumerWait => CompleteStep::Complete {
                next: self.with_lifecycle(Lifecycle::Ready),
                notify_consumer: true,
            },
            Lifecycle::Canceled => CompleteStep::Discard,
            _ => CompleteStep::Invalid,
        }
    }

    /// A producer callback is running: record that it is to run again.
    pub fn defer_producer_notify_step(&self) -> (r: Step)
        ensures
            r == spec_defer_producer_notify_step(*self),
    {
        if !self.is_valid() {
            return Step::Invalid;
        }
        match self.lifecycle() {
            Lifecycle::ConsumerWait => Step::To(self.with_lifecycle(Lifecycle::ProducerNotify)),
            Lifecycle::Canceled => Step::To(self.with_lifecycle(Lifecycle::ProducerNotifyCanceled)),
            _ => Step::Invalid,
        }
    }

    /// The consumer takes the stored value.
    pub fn consume_step(&self) -> (r: Step)
        ensures
            r == spec_consume_step(*self),
    {
        if !self.is_valid() {
            return Step::Invalid;
        }
        match self.lifecycle() {
            Lifecycle::Ready | Lifecycle::ConsumerNotify => Step::To(
                self.with_lifecycle(Lifecycle::New),
            ),
            Lifecycle::ConsumerNotifyProducerWait | Lifecycle::ReadyProducerWait => Step::To(
                self.with_lifecycle(Lifecycle::ProducerWait),
            ),
            _ => Step::Invalid,
        }
    }

    /// A producer callback is about to run.
    pub fn invoking_producer_step(&self) -> (r: Step)
        ensures
            r == spec_invoking_producer_step(*self),
    {
        if !self.is_valid() {
            return Step::Invalid;
        }
        match self.lifecycle() {
            Lifecycle::ConsumerWait | Lifecycle::ProducerNotify => Step::To(
                self.with_lifecycle(Lifecycle::ConsumerWait).with_producing(),
            ),
            Lifecycle::Canceled => Step::To(self.with_producing()),
            _ => Step::Invalid,
        }
    }

    /// What the producer finds when it polls a valid word.
    pub fn producer_poll(&self) -> (r: ProducerPoll)
        requires
            self.valid(),
        ensures
            r == spec_producer_poll(*self),
    {
        if !self.is_producer_ready() {
            ProducerPoll::NotReady
        } else if self.is_canceled() {
            ProducerPoll::Aborted
        } else {
            ProducerPoll::Ready
        }
    }

    /// A consumer callback can run at once: a value is there and no consumer
    /// callback is running.
    pub fn consumer_can_run_now(&self) -> (b: bool)
        requires
            self.valid(),
        ensures
            b == (self.ready_phase() && !self.consuming()),
    {
        self.is_ready() && !self.is_invoking_consumer()
    }

    /// A producer callback can run at once: no producer callback is running
    /// and the consumer waits or has canceled.
    pub fn producer_can_run_now(&self) -> (b: bool)
        requires
            self.valid(),
        ensures
            b == (!self.producing() && (self.phase() == Lifecycle::ConsumerWait || self.phase()
                == Lifecycle::Canceled)),
    {
        !self.is_invoking_producer() && (self.is_consumer_wait() || self.is_canceled())
    }
}

// ===== Laws of the core protocol =====

/// A value that the producer completes can always be consumed: completing
/// leaves a value waiting (`is_ready`), and consuming it returns the core to
/// a fresh `New` word with the same flags and count.
pub proof fn law_completed_value_is_consumed(s: State)
    requires
        spec_complete_step(s) is Complete,
    ensures
        ({
            let next = spec_complete_step(s)->Complete_next;
            &&& next.ready_phase()
            &&& next.same_flags_and_count(s)
            &&& spec_consume_step(next) is To
            &&& spec_consume_step(next)->To_0.phase() == Lifecycle::New
            &&& spec_consume_step(next)->To_0.same_flags_and_count(s)
        }),
{
    lemma_set_phase(s, Lifecycle::Ready);
    lemma_set_phase(s.set_phase(Lifecycle::Ready), Lifecycle::New);
}

/// A consumer that waits is notified when the value arrives: registering
/// on a fresh core moves it to `ConsumerWait`, and completing from there
/// asks for the consumer to be notified.
pub proof fn law_waiting_consumer_is_notified(s: State)
    requires
        s.valid(),
        s.phase() == Lifecycle::New,
        s.can_count(),
    ensures
        spec_consumer_wait_step(s) is Register,
        ({
            let next = spec_consumer_wait_step(s)->Register_next;
            &&& !spec_consumer_wait_step(s)->Register_notify_producer
            &&& next.phase() == Lifecycle::ConsumerWait
            &&& spec_complete_step(next) is Complete
            &&& spec_complete_step(next)->Complete_notify_consumer
            &&& spec_complete_step(next)->Complete_next.ready_phase()
        }),
{
    lemma_set_phase(s, Lifecycle::ConsumerWait);
    lemma_counted(s.set_phase(Lifecycle::ConsumerWait));
    let w = s.set_phase(Lifecycle::ConsumerWait).counted();
    lemma_set_phase(w, Lifecycle::Ready);
}

/// Interest reaches a waiting producer lazily: a producer that registers on
/// a fresh core waits, and is notified exactly when the consumer registers.
/// A producer that registers after the consumer is notified at once.
pub proof fn law_interest_reaches_producer(s: State)
    requires
        s.valid(),
        s.phase() == Lifecycle::New,
        !s.producing(),
        s.can_count(),
    ensures
        spec_producer_wait_step(s) is Wait,
        ({
            let p = spec_producer_wait_step(s)->Wait_0;
            &&& p.phase() == Lifecycle::ProducerWait
            &&& spec_consumer_wait_step(p) is Register
            &&& spec_consumer_wait_step(p)->Register_notify_producer
            &&& spec_consumer_wait_step(p)->Register_next.phase() == Lifecycle::ConsumerWait
            &&& spec_producer_poll(spec_consumer_wait_step(p)->Register_next) == ProducerPoll::Ready
        }),
        spec_consumer_wait_step(s) is Register,
        spec_producer_wait_step(spec_consumer_wait_step(s)->Register_next)
            == ProducerWaitStep::NotifyProducer,
{
    lemma_set_phase(s, Lifecycle::ProducerWait);
    let p = s.set_phase(Lifecycle::ProducerWait);
    lemma_set_phase(p, Lifecycle::ConsumerWait);
    lemma_counted(p.set_phase(Lifecycle::ConsumerWait));
    lemma_set_phase(s, Lifecycle::ConsumerWait);
    lemma_counted(s.set_phase(Lifecycle::ConsumerWait));
}

/// The receipt of a registration takes the callback back while it is
/// pending: the registration's own count unregisters it and returns the core
/// to `New`; any other count does not.
pub proof fn law_receipt_takes_back_callback(s: State, other: u64)
    requires
        spec_consumer_wait_step(s) is Register,
        !s.consuming(),
    ensures
        ({
            let next = spec_consumer_wait_step(s)->Register_next;
            &&& next.callbacks() == s.callbacks() + 1
            &&& spec_unregister_step(next, next.callbacks()) is Unregister
            &&& spec_unregister_step(next, next.callbacks())->Unregister_0.phase() == Lifecycle::New
            &&& spec_unregister_step(next, next.callbacks())->Unregister_0.callbacks()
                == next.callbacks()
            &&& other != next.callbacks() ==> spec_unregister_step(next, other)
                == UnregisterStep::CountMismatch
        }),
{
    lemma_set_phase(s, Lifecycle::ConsumerWait);
    lemma_set_phase(s, Lifecycle::ProducerNotify);
    lemma_counted(s.set_phase(Lifecycle::ConsumerWait));
    lemma_counted(s.set_phase(Lifecycle::ProducerNotify));
    let next = spec_consumer_wait_step(s)->Register_next;
    lemma_set_phase(next, Lifecycle::New);
}

/// Cancellation is final: it drops a stored value only when one is held,
/// lands in a canceled lifecycle, keeps the flags and the count, and from
/// `Canceled` a later completion is discarded, a second cancel does nothing
/// and no consumer may register again.
pub proof fn law_cancel_is_final(s: State)
    requires
        spec_cancel_step(s) is Cancel,
    ensures
        ({
            let next = spec_cancel_step(s)->Cancel_next;
            let drop_value = spec_cancel_step(s)->Cancel_drop_value;
            &&& next.phase() == Lifecycle::Canceled || next.phase()
                == Lifecycle::ProducerNotifyCanceled
            &&& drop_value == s.ready_phase()
            &&& next.same_flags_and_count(s)
            &&& next.phase() == Lifecycle::Canceled ==> {
                &&& spec_complete_step(next) == CompleteStep::Discard
                &&& spec_cancel_step(next) == CancelStep::AlreadyCanceled
                &&& spec_consumer_wait_step(next) == ConsumerWaitStep::Invalid
                &&& spec_producer_poll(next) == ProducerPoll::Aborted
            }
        }),
{
    lemma_set_phase(s, Lifecycle::Canceled);
    lemma_set_phase(s, Lifecycle::ProducerNotifyCanceled);
}

/// Every step but the consumer's registration leaves the callback count and
/// the two running flags as they were; the registration adds one to the
/// count.
pub proof fn law_steps_keep_count(s: State, count: u64)
    ensures
        spec_defer_consumer_notify_step(s) matches Step::To(t) ==> t.same_flags_and_count(s),
        spec_unregister_step(s, count) matches UnregisterStep::Unregister(t) ==> t.same_flags_and_count(s),
        spec_producer_wait_step(s) matches ProducerWaitStep::Wait(t) ==> t.same_flags_and_count(s),
        spec_cancel_step(s) matches CancelStep::Cancel { next, .. } ==> next.same_flags_and_count(s),
        spec_complete_step(s) matches CompleteStep::Complete { next, .. } ==> next.same_flags_and_count(s),
        spec_defer_producer_notify_step(s) matches Step::To(t) ==> t.same_flags_and_count(s),
        spec_consume_step(s) matches Step::To(t) ==> t.same_flags_and_count(s),
        spec_consumer_wait_step(s) matches ConsumerWaitStep::Register { next, .. } ==> {
            &&& next.callbacks() == s.callbacks() + 1
            &&& next.consuming() == s.consuming()
            &&& next.producing() == s.producing()
        },
        spec_invoking_producer_step(s) matches Step::To(t) ==> {
            &&& t.producing()
            &&& t.consuming() == s.consuming()
            &&& t.callbacks() == s.callbacks()
            &&& t.valid()
            &&& (t.phase() == Lifecycle::ConsumerWait || t.phase() == Lifecycle::Canceled)
        },
{
    lemma_set_phase(s, Lifecycle::New);
    lemma_set_phase(s, Lifecycle::ConsumerWait);
    lemma_set_phase(s, Lifecycle::ProducerWait);
    lemma_set_phase(s, Lifecycle::Ready);
    lemma_set_phase(s, Lifecycle::ReadyProducerWait);
    lemma_set_phase(s, Lifecycle::ProducerNotify);
    lemma_set_phase(s, Lifecycle::ProducerNotifyCanceled);
    lemma_set_phase(s, Lifecycle::ConsumerNotify);
    lemma_set_phase(s, Lifecycle::ConsumerNotifyProducerWait);
    lemma_set_phase(s, Lifecycle::Canceled);
    if s.can_count() {
        lemma_counted(s.set_phase(Lifecycle::ConsumerWait));
        lemma_counted(s.set_phase(Lifecycle::ProducerNotify));
    }
    lemma_marked_producing(s);
    lemma_marked_producing(s.set_phase(Lifecycle::ConsumerWait));
}

/// `is_ready` tells exactly when the value can be consumed: a valid word
/// holds a value waiting for the consumer if and only if the consume step
/// moves it.
pub proof fn law_ready_iff_consumable(s: State)
    requires
        s.valid(),
    ensures
        s.ready_phase() <==> spec_consume_step(s) is To,
{
}

/// Once the value of a waiting consumer is completed, the receipt of its
/// registration no longer takes the callback back: the callback is about to
/// run with the value.
pub proof fn law_receipt_after_complete_finds_nothing(s: State)
    requires
        spec_consumer_wait_step(s) is Register,
        spec_consumer_wait_step(s)->Register_next.phase() == Lifecycle::ConsumerWait,
    ensures
        ({
            let next = spec_consumer_wait_step(s)->Register_next;
            &&& spec_complete_step(next) is Complete
            &&& spec_unregister_step(spec_complete_step(next)->Complete_next, next.callbacks())
                == UnregisterStep::NothingPending
        }),
{
    lemma_set_phase(s, Lifecycle::ConsumerWait);
    lemma_counted(s.set_phase(Lifecycle::ConsumerWait));
    lemma_set_phase(s, Lifecycle::ProducerNotify);
    lemma_counted(s.set_phase(Lifecycle::ProducerNotify));
    let next = spec_consumer_wait_step(s)->Register_next;
    lemma_set_phase(next, Lifecycle::Ready);
}

/// Marking a callback as running and unmarking it once it returns gives the
/// word back: adding the consuming bit to a word without it and taking it
/// away again, or taking the producing bit away from the word that the
/// producer's marking step made.
pub proof fn law_running_marks_undo(s: State)
    ensures
        !s.consuming() ==> s.val + 16 <= u64::MAX && ((s.val + 16) as u64 - 16) as u64 == s.val,
        (!s.producing() && spec_invoking_producer_step(s) is To) ==> {
            let t = spec_invoking_producer_step(s)->To_0;
            &&& t.producing()
            &&& State { val: (t.val - 32) as u64 } == (if s.phase() == Lifecycle::Canceled {
                s
            } else {
                s.set_phase(Lifecycle::ConsumerWait)
            })
        },
{
    lemma_consuming_flag(s.val);
    lemma_set_phase(s, Lifecycle::ConsumerWait);
    lemma_marked_producing(s);
    lemma_marked_producing(s.set_phase(Lifecycle::ConsumerWait));
    lemma_unmark_producing(s.val);
    lemma_unmark_producing(s.set_phase(Lifecycle::ConsumerWait).val);
}

/// Consuming a value keeps the producer's registered interest: when the
/// producer was waiting again while the value was held (`ReadyProducerWait`,
/// `ConsumerNotifyProducerWait`), the core moves to `ProducerWait`, so that
/// the consumer's next registration notifies the producer; when it was not,
/// the core moves to `New`. Flags and count are kept either way.
pub proof fn law_consume_keeps_producer_interest(s: State)
    requires
        s.valid(),
        s.ready_phase(),
    ensures
        spec_consume_step(s) is To,
        ({
            let t = spec_consume_step(s)->To_0;
            let producer_waited = s.phase() == Lifecycle::ReadyProducerWait || s.phase()
                == Lifecycle::ConsumerNotifyProducerWait;
            &&& t.valid()
            &&& t.same_flags_and_count(s)
            &&& (t.phase() == Lifecycle::ProducerWait) == producer_waited
            &&& (t.phase() == Lifecycle::New) == !producer_waited
            &&& (producer_waited && !s.producing() && s.can_count()) ==> {
                &&& spec_consumer_wait_step(t) is Register
                &&& spec_consumer_wait_step(t)->Register_notify_producer
            }
            &&& (!producer_waited && s.can_count()) ==> {
                &&& spec_consumer_wait_step(t) is Register
                &&& !spec_consumer_wait_step(t)->Register_notify_producer
            }
        }),
{
    lemma_set_phase(s, Lifecycle::New);
    lemma_set_phase(s, Lifecycle::ProducerWait);
    let t = spec_consume_step(s)->To_0;
    lemma_set_phase(t, Lifecycle::ConsumerWait);
    lemma_set_phase(t, Lifecycle::ProducerNotify);
}

} // verus!
