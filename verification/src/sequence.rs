//! The decisions of `sequence`: the send state of the output stream and the
//! counters that order the async values by completion.
//!
//! Each async value that completes takes the next slot (`enqueue`), is
//! stored there, and is published by moving the `ready` counter past its
//! slot once every earlier slot is published. The thread that moves the
//! send state from idle to sending sends the value at the `next` slot.

use vstd::prelude::*;
use std::sync::atomic::{AtomicUsize, Ordering};
use crate::{AsyncError, AsyncResult};

verus! {

/// The consumer is ready, and nothing is being sent.
pub const IDLE: usize = 0;

/// The consumer is busy; another value may not be sent yet.
pub const BUSY: usize = 1;

/// A thread is sending a value.
pub const SEND: usize = 2;

/// The sender has failed.
pub const FAIL: usize = 3;

/// The consumer is no longer interested in values.
pub const DROP: usize = 4;

/// What publishing a stored slot finds.
#[derive(Debug, Clone, Copy, PartialEq, Eq, Structural)]
pub enum Publish {
    /// The slot is published: the counter moved past it.
    Published,
    /// An earlier slot is not published yet, or another thread moved the
    /// counter: read it again.
    Wait,
}

/// The counter moves past slot `i` only when it stands at `i`.
pub open spec fn spec_publish_step(ready: usize, i: usize) -> Option<usize> {
    if ready == i && i < usize::MAX {
        Some((i + 1) as usize)
    } else {
        None
    }
}

/// The shared counters and send state of a sequence.
pub struct SequenceState {
    next: AtomicUsize,
    ready: AtomicUsize,
    state: AtomicUsize,
    enqueue: AtomicUsize,
    initial: Ghost<(usize, usize, usize, usize)>,
}

impl SequenceState {
    /// The words the atomics were created with: the next slot to send, the
    /// published slots, the send state and the next slot to enqueue.
    pub closed spec fn initial(&self) -> (usize, usize, usize, usize) {
        self.initial@
    }

    /// Nothing enqueued, nothing sent, the consumer idle.
    pub fn new() -> (s: SequenceState)
        ensures
            s.initial() == (0usize, 0usize, IDLE, 0usize),
    {
        SequenceState {
            next: AtomicUsize::new(0),
            ready: AtomicUsize::new(0),
            state: AtomicUsize::new(IDLE),
            enqueue: AtomicUsize::new(0),
            initial: Ghost((0, 0, IDLE, 0)),
        }
    }

    /// Takes the slot for a value that just completed.
    pub fn take_enqueue_slot(&self) -> usize {
        self.enqueue.fetch_add(1, Ordering::Acquire)
    }

    /// One attempt to publish slot `i` after it was stored.
    pub fn publish_attempt(&self, i: usize) -> (r: Publish)
        ensures
            r == Publish::Published ==> i < usize::MAX,
    {
        let j = self.ready.load(Ordering::Relaxed);
        match publish_step(j, i) {
            None => Publish::Wait,
            Some(k) => match self.ready.compare_exchange(j, k, Ordering::Release, Ordering::Relaxed) {
                Ok(_) => Publish::Published,
                Err(_) => Publish::Wait,
            },
        }
    }

    /// Reads the number of published slots.
    pub fn ready_count(&self) -> usize {
        self.ready.load(Ordering::Relaxed)
    }

    /// Takes the slot of the next value to send.
    pub fn take_send_slot(&self) -> usize {
        self.next.fetch_add(1, Ordering::Acquire)
    }

    /// Moves the send state from idle to sending; true when this caller
    /// made the move and is to send.
    pub fn try_start_send(&self) -> bool {
        match self.state.compare_exchange(IDLE, SEND, Ordering::Relaxed, Ordering::Relaxed) {
            Ok(prev) => prev == IDLE,
            Err(_) => false,
        }
    }

    /// The consumer received a value and is busy with it.
    pub fn mark_busy(&self) {
        let _ = self.state.swap(BUSY, Ordering::Release);
    }

    /// The sender failed.
    pub fn mark_failed(&self) {
        let _ = self.state.swap(FAIL, Ordering::Release);
    }

    /// The consumer went away.
    pub fn mark_dropped(&self) {
        let _ = self.state.swap(DROP, Ordering::Relaxed);
    }

    /// The consumer is ready for another value.
    pub fn mark_idle(&self) {
        let _ = self.state.swap(IDLE, Ordering::Release);
    }
}

/// What the sender does with the realized result of the value sent next.
#[derive(Debug, PartialEq, Eq)]
pub enum SendAction<T, E> {
    /// Send the value on; the consumer is then busy.
    Send(T),
    /// The value failed: the stream fails with its error.
    Fail(E),
    /// The value was aborted: the stream is aborted.
    Abort,
}

/// The sender's action for the realized result `r`.
pub fn send_action<T, E>(r: AsyncResult<T, E>) -> (a: SendAction<T, E>)
    ensures
        a == (match r {
            Ok(v) => SendAction::Send(v),
            Err(AsyncError::Failed(e)) => SendAction::Fail(e),
            Err(AsyncError::Aborted) => SendAction::<T, E>::Abort,
        }),
{
    match r {
        Ok(v) => SendAction::Send(v),
        Err(AsyncError::Failed(e)) => SendAction::Fail(e),
        Err(AsyncError::Aborted) => SendAction::Abort,
    }
}

/// Where the ready counter moves when slot `i` is published from `ready`.
pub fn publish_step(ready: usize, i: usize) -> (r: Option<usize>)
    ensures
        r == spec_publish_step(ready, i),
{
    if ready == i && i < usize::MAX {
        Some(i + 1)
    } else {
        None
    }
}

/// After the value of slot `prev` was sent, another one waits when a later
/// slot is published.
pub fn more_ready(prev: usize, ready: usize) -> (b: bool)
    ensures
        b == (prev + 1 < ready),
{
    ready > 0 && prev < ready - 1
}

/// Slots are published in order: the counter moves only from the slot being
/// published to the one after it, so after publishing it counts exactly the
/// slots below it, each published once.
pub proof fn law_slots_publish_in_order(ready: usize, i: usize)
    ensures
        spec_publish_step(ready, i) matches Some(k) ==> (ready == i && k == i + 1),
        ready != i ==> spec_publish_step(ready, i) is None,
{
}

} // verus!
