//! The atomic state word of a core and its compare-and-swap attempts.
//!
//! Every transition of the core is one attempt: the step that the
//! transition table gives for the word the caller last saw, and, when the
//! step moves the word, one compare-and-swap. An attempt that finds another
//! word in the atomic hands that word back, and the caller tries again from
//! it.

use vstd::prelude::*;
use std::sync::atomic::Ordering;
use crate::atomic::{word_compare_and_swap, word_fetch_add, word_fetch_sub, word_load, word_new};
use crate::core_protocol::{
    spec_complete_step, spec_consume_step, spec_consumer_wait_step, spec_cancel_step,
    spec_defer_consumer_notify_step, spec_defer_producer_notify_step, spec_invoking_producer_step,
    spec_producer_wait_step, spec_unregister_step, CancelStep, CompleteStep, ConsumerWaitStep,
    ProducerWaitStep, Step, UnregisterStep,
};
use crate::core_state::{Lifecycle, State, CONSUMING_MASK, PRODUCING_MASK};

verus! {

/// The state word of a core, shared between its consumer and its producer.
pub struct AtomicState {
    atomic: syncbox::atomic::AtomicU64,
    initial: Ghost<State>,
}

impl AtomicState {
    /// The word the atomic was created with.
    pub closed spec fn initial(&self) -> State {
        self.initial@
    }

    /// A word in the `New` lifecycle.
    pub fn new() -> (a: AtomicState)
        ensures
            a.initial() == State::zero(),
            a.initial().phase() == Lifecycle::New,
    {
        let initial = State::new();
        AtomicState { atomic: word_new(initial.as_u64()), initial: Ghost(initial) }
    }

    /// A word in the given lifecycle.
    pub fn of(lifecycle: Lifecycle) -> (a: AtomicState)
        ensures
            a.initial() == State::zero().set_phase(lifecycle),
            a.initial().phase() == lifecycle,
            a.initial().callbacks() == 0,
    {
        let initial = State::new().with_lifecycle(lifecycle);
        AtomicState { atomic: word_new(initial.as_u64()), initial: Ghost(initial) }
    }

    /// Reads the word.
    pub fn load(&self, order: Ordering) -> State
        requires
            !(order is Release),
            !(order is AcqRel),
    {
        State::load(word_load(&self.atomic, order))
    }

    /// Stores `new` when the word is `old`; returns the word found.
    pub fn compare_and_swap(&self, old: State, new: State, order: Ordering) -> State {
        State::load(word_compare_and_swap(&self.atomic, old.as_u64(), new.as_u64(), order))
    }

    /// One compare-and-swap attempt for a step that moves the word from
    /// `curr` to `next`: `None` when the word was `curr`, else the word
    /// found.
    fn attempt(&self, curr: State, next: State, order: Ordering) -> (r: Option<State>)
        ensures
            r matches Some(actual) ==> actual != curr,
    {
        let actual = self.compare_and_swap(curr, next, order);
        if actual == curr {
            None
        } else {
            Some(actual)
        }
    }

    /// Marks that a consumer callback is running.
    pub fn invoking_consumer_ready(&self)
        requires
            usize::BITS == 64,
    {
        let _ = word_fetch_add(&self.atomic, CONSUMING_MASK, Ordering::Relaxed);
    }

    /// Marks that the running consumer callback returned; gives the word as
    /// it is after the mark is cleared.
    pub fn done_invoking_consumer_ready(&self) -> State
        requires
            usize::BITS == 64,
    {
        let val = word_fetch_sub(&self.atomic, CONSUMING_MASK, Ordering::Relaxed);
        State::unmark(val, CONSUMING_MASK)
    }

    /// Marks that the running producer callback returned; gives the word as
    /// it is after the mark is cleared.
    pub fn done_invoking_producer_ready(&self) -> State
        requires
            usize::BITS == 64,
    {
        let val = word_fetch_sub(&self.atomic, PRODUCING_MASK, Ordering::Relaxed);
        State::unmark(val, PRODUCING_MASK)
    }

    /// The consumer's wait registration from `curr`.
    pub fn consumer_wait_attempt(&self, curr: State) -> (r: Result<ConsumerWaitStep, State>)
        ensures
            r matches Ok(step) ==> step == spec_consumer_wait_step(curr),
            r matches Err(actual) ==> spec_consumer_wait_step(curr) is Register && actual != curr,
    {
        let step = curr.consumer_wait_step();
        match step {
            ConsumerWaitStep::Register { next, .. } => match self.attempt(
                curr,
                next,
                Ordering::Release,
            ) {
                None => Ok(step),
                Some(actual) => Err(actual),
            },
            _ => Ok(step),
        }
    }

    /// Records, from `curr`, that the running consumer callback is to run
    /// again.
    pub fn defer_consumer_notify_attempt(&self, curr: State) -> (r: Result<Step, State>)
        ensures
            r matches Ok(step) ==> step == spec_defer_consumer_notify_step(curr),
            r matches Err(actual) ==> spec_defer_consumer_notify_step(curr) is To && actual != curr,
    {
        let step = curr.defer_consumer_notify_step();
        self.step_attempt(curr, step, Ordering::Relaxed)
    }

    /// Takes back, from `curr`, the pending consumer callback registered as
    /// number `count`.
    pub fn unregister_attempt(&self, curr: State, count: u64) -> (r: Result<UnregisterStep, State>)
        ensures
            r matches Ok(step) ==> step == spec_unregister_step(curr, count),
            r matches Err(actual) ==> spec_unregister_step(curr, count) is Unregister && actual
                != curr,
    {
        let step = curr.unregister_step(count);
        match step {
            UnregisterStep::Unregister(next) => match self.attempt(curr, next, Ordering::Relaxed) {
                None => Ok(step),
                Some(actual) => Err(actual),
            },
            _ => Ok(step),
        }
    }

    /// The producer's wait registration from `curr`.
    pub fn producer_wait_attempt(&self, curr: State) -> (r: Result<ProducerWaitStep, State>)
        ensures
            r matches Ok(step) ==> step == spec_producer_wait_step(curr),
            r matches Err(actual) ==> spec_producer_wait_step(curr) is Wait && actual != curr,
    {
        let step = curr.producer_wait_step();
        match step {
            ProducerWaitStep::Wait(next) => match self.attempt(curr, next, Ordering::Release) {
                None => Ok(step),
                Some(actual) => Err(actual),
            },
            _ => Ok(step),
        }
    }

    /// The consumer side cancels from `curr`.
    pub fn cancel_attempt(&self, curr: State) -> (r: Result<CancelStep, State>)
        ensures
            r matches Ok(step) ==> step == spec_cancel_step(curr),
            r matches Err(actual) ==> spec_cancel_step(curr) is Cancel && actual != curr,
    {
        let step = curr.cancel_step();
        match step {
            CancelStep::Cancel { next, .. } => match self.attempt(curr, next, Ordering::Release) {
                None => Ok(step),
                Some(actual) => Err(actual),
            },
            _ => Ok(step),
        }
    }

    /// The producer provides the value from `curr`.
    pub fn complete_attempt(&self, curr: State) -> (r: Result<CompleteStep, State>)
        ensures
            r matches Ok(step) ==> step == spec_complete_step(curr),
            r matches Err(actual) ==> spec_complete_step(curr) is Complete && actual != curr,
    {
        let step = curr.complete_step();
        match step {
            CompleteStep::Complete { next, .. } => match self.attempt(
                curr,
                next,
                Ordering::Release,
            ) {
                None => Ok(step),
                Some(actual) => Err(actual),
            },
            _ => Ok(step),
        }
    }

    /// Records, from `curr`, that the running producer callback is to run
    /// again.
    pub fn defer_producer_notify_attempt(&self, curr: State) -> (r: Result<Step, State>)
        ensures
            r matches Ok(step) ==> step == spec_defer_producer_notify_step(curr),
            r matches Err(actual) ==> spec_defer_producer_notify_step(curr) is To && actual != curr,
    {
        let step = curr.defer_producer_notify_step();
        self.step_attempt(curr, step, Ordering::Relaxed)
    }

    /// The consumer takes the stored value from `curr`.
    pub fn consume_attempt(&self, curr: State) -> (r: Result<Step, State>)
        ensures
            r matches Ok(step) ==> step == spec_consume_step(curr),
            r matches Err(actual) ==> spec_consume_step(curr) is To && actual != curr,
    {
        let step = curr.consume_step();
        self.step_attempt(curr, step, Ordering::Relaxed)
    }

    /// Marks, from `curr`, that a producer callback is about to run.
    pub fn invoking_producer_ready_attempt(&self, curr: State) -> (r: Result<Step, State>)
        ensures
            r matches Ok(step) ==> step == spec_invoking_producer_step(curr),
            r matches Err(actual) ==> spec_invoking_producer_step(curr) is To && actual != curr,
    {
        let step = curr.invoking_producer_step();
        self.step_attempt(curr, step, Ordering::Relaxed)
    }

    /// One attempt of a plain step.
    fn step_attempt(&self, curr: State, step: Step, order: Ordering) -> (r: Result<Step, State>)
        ensures
            r matches Ok(s) ==> s == step,
            r matches Err(actual) ==> step is To && actual != curr,
    {
        match step {
            Step::To(next) => match self.attempt(curr, next, order) {
                None => Ok(step),
                Some(actual) => Err(actual),
            },
            Step::Invalid => Ok(step),
        }
    }
}

} // verus!
