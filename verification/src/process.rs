//! The lock words of `Stream::process`.
//!
//! A stream processed with at most `max` values in flight keeps two words:
//! the consume word guards the source stream and counts the values taken
//! from it whose results are not yet sent on; the produce word guards the
//! sender and counts the results that wait for it. In each word the low 16
//! bits are the count and bit 31 is the lock.

use vstd::prelude::*;
use std::sync::atomic::{AtomicUsize, Ordering};

verus! {

/// The largest count a lock word can hold.
pub const MAX_IN_FLIGHT: usize = 0xFFFF;

/// The lock bit.
pub const LOCK: usize = 0x8000_0000;

/// A lock word.
#[derive(Debug, Clone, Copy, PartialEq, Eq, Structural)]
pub struct State(pub usize);

proof fn lemma_lock_bits(v: usize)
    by (bit_vector)
    ensures
        (v | 0x8000_0000usize) & 0xFFFFusize == v & 0xFFFFusize,
        (v | 0x8000_0000usize) & 0x8000_0000usize == 0x8000_0000usize,
        (!0x8000_0000usize & v) & 0xFFFFusize == v & 0xFFFFusize,
        (!0x8000_0000usize & v) & 0x8000_0000usize != 0x8000_0000usize,
        v & 0xFFFFusize <= 0xFFFFusize,
{
}

proof fn lemma_count_bits(v: usize)
    by (bit_vector)
    ensures
        v & 0xFFFFusize == v % 65536usize,
        v & 0xFFFFusize < 0xFFFFusize ==> {
            &&& ((v + 1) as usize) & 0xFFFFusize == (v & 0xFFFFusize) + 1
            &&& (((v + 1) as usize) & 0x8000_0000usize == 0x8000_0000usize) == (v
                & 0x8000_0000usize == 0x8000_0000usize)
        },
        v & 0xFFFFusize > 0 ==> {
            &&& v >= 1
            &&& ((v - 1) as usize) & 0xFFFFusize == (v & 0xFFFFusize) - 1
            &&& (((v - 1) as usize) & 0x8000_0000usize == 0x8000_0000usize) == (v
                & 0x8000_0000usize == 0x8000_0000usize)
        },
{
}

impl State {
    /// The count held in the word.
    pub open spec fn count(self) -> usize {
        self.0 & 0xFFFFusize
    }

    /// The lock is held.
    pub open spec fn locked(self) -> bool {
        self.0 & 0x8000_0000usize == 0x8000_0000usize
    }

    /// The count in flight.
    pub fn in_flight(&self) -> (n: usize)
        ensures
            n == self.count(),
            n <= MAX_IN_FLIGHT,
    {
        proof {
            lemma_lock_bits(self.0);
        }
        self.0 & MAX_IN_FLIGHT
    }

    /// The word with one more in flight.
    pub fn inc_in_flight(&self) -> (s: State)
        requires
            self.count() < MAX_IN_FLIGHT,
        ensures
            s.0 == self.0 + 1,
            s.count() == self.count() + 1,
            s.locked() == self.locked(),
    {
        proof {
            lemma_count_bits(self.0);
            assert(usize::MAX % 65536 == 65535);
        }
        State(self.0 + 1)
    }

    /// The word with one fewer in flight.
    pub fn dec_in_flight(&self) -> (s: State)
        requires
            self.count() > 0,
        ensures
            s.0 == self.0 - 1,
            s.count() == self.count() - 1,
            s.locked() == self.locked(),
    {
        proof {
            lemma_count_bits(self.0);
        }
        State(self.0 - 1)
    }

    /// Whether the lock is held.
    pub fn has_lock(&self) -> (b: bool)
        ensures
            b == self.locked(),
    {
        self.0 & LOCK == LOCK
    }

    /// The word with the lock taken.
    pub fn with_lock(&self) -> (s: State)
        ensures
            s.0 == self.0 | LOCK,
            s.locked(),
            s.count() == self.count(),
    {
        proof {
            lemma_lock_bits(self.0);
        }
        State(self.0 | LOCK)
    }

    /// The word with the lock released.
    pub fn without_lock(&self) -> (s: State)
        ensures
            s.0 == !LOCK & self.0,
            !s.locked(),
            s.count() == self.count(),
    {
        proof {
            lemma_lock_bits(self.0);
        }
        State(!LOCK & self.0)
    }
}

/// What an attempt on a lock word decides.
#[derive(Debug, Clone, Copy, PartialEq, Eq, Structural)]
pub enum LockStep {
    /// Leave the word alone; the lock was not acquired.
    Unchanged,
    /// Move the word to `next`; `acquired` tells whether the caller now holds
    /// the lock.
    Move { next: State, acquired: bool },
    /// The word breaks the protocol (a count out of range).
    Invalid,
}

/// Taking the source: the caller either asks for the consume lock to take a
/// new value (`dec` false), or gives back a slot of a value whose result was
/// sent (`dec` true).
pub open spec fn spec_consume_lock_step(old: State, dec: bool, max: usize) -> LockStep {
    if (old.locked() || old.count() == max) && !dec {
        LockStep::Unchanged
    } else if old.locked() {
        if old.count() > 0 {
            LockStep::Move { next: State((old.0 - 1) as usize), acquired: false }
        } else {
            LockStep::Invalid
        }
    } else if dec {
        LockStep::Move { next: State(old.0 | LOCK), acquired: true }
    } else if old.count() < max && old.count() < MAX_IN_FLIGHT {
        LockStep::Move { next: State((old.0 + 1) as usize | LOCK), acquired: true }
    } else {
        LockStep::Invalid
    }
}

/// Taking the sender if it is free.
pub open spec fn spec_produce_lock_step(old: State) -> LockStep {
    if old.locked() {
        LockStep::Unchanged
    } else {
        LockStep::Move { next: State(old.0 | LOCK), acquired: true }
    }
}

/// A result arrives: take the sender, or count the result for the holder.
pub open spec fn spec_produce_lock_or_count_step(old: State) -> LockStep {
    if old.locked() {
        if old.count() < MAX_IN_FLIGHT {
            LockStep::Move { next: State((old.0 + 1) as usize), acquired: false }
        } else {
            LockStep::Invalid
        }
    } else {
        LockStep::Move { next: State(old.0 | LOCK), acquired: true }
    }
}

/// A value was sent: keep the sender for the next counted result, or
/// release it when none waits.
pub open spec fn spec_release_if_idle_step(old: State) -> LockStep {
    if old.count() > 0 {
        LockStep::Move { next: State((old.0 - 1) as usize), acquired: old.locked() }
    } else {
        LockStep::Move { next: State(!LOCK & old.0), acquired: false }
    }
}

/// The two lock words of a processed stream.
pub struct ProcessLocks {
    max: usize,
    consume_state: AtomicUsize,
    produce_state: AtomicUsize,
}

impl ProcessLocks {
    /// The most values that may be in flight.
    pub closed spec fn limit(&self) -> usize {
        self.max
    }

    /// Both words unlocked with nothing in flight, for at most `max` values
    /// in flight.
    pub fn new(max: usize) -> (p: ProcessLocks)
        ensures
            p.limit() == max,
    {
        ProcessLocks { max: max, consume_state: AtomicUsize::new(0), produce_state: AtomicUsize::new(0) }
    }

    /// Reads the consume word.
    pub fn load_consume(&self, order: Ordering) -> State
        requires
            !(order is Release),
            !(order is AcqRel),
    {
        State(self.consume_state.load(order))
    }

    /// Reads the produce word.
    pub fn load_produce(&self, order: Ordering) -> State
        requires
            !(order is Release),
            !(order is AcqRel),
    {
        State(self.produce_state.load(order))
    }

    /// The consume step from `old`.
    pub fn consume_lock_step(&self, old: State, dec: bool) -> (r: LockStep)
        ensures
            r == spec_consume_lock_step(old, dec, self.limit()),
    {
        if (old.has_lock() || old.in_flight() == self.max) && !dec {
            return LockStep::Unchanged;
        }
        if old.has_lock() {
            if old.in_flight() > 0 {
                LockStep::Move { next: old.dec_in_flight(), acquired: false }
            } else {
                LockStep::Invalid
            }
        } else if dec {
            LockStep::Move { next: old.with_lock(), acquired: true }
        } else if old.in_flight() < self.max && old.in_flight() < MAX_IN_FLIGHT {
            LockStep::Move { next: old.inc_in_flight().with_lock(), acquired: true }
        } else {
            LockStep::Invalid
        }
    }

    /// One attempt, from `old`, of the consume step; the word found is
    /// handed back when it was not `old`.
    pub fn try_acquire_consume_lock_attempt(&self, old: State, dec: bool, order: Ordering) -> (r:
        Result<LockStep, State>)
        ensures
            r matches Ok(step) ==> step == spec_consume_lock_step(old, dec, self.limit()),
            r is Err ==> spec_consume_lock_step(old, dec, self.limit()) is Move,
    {
        let step = self.consume_lock_step(old, dec);
        match step {
            LockStep::Move { next, .. } => match cas_word(&self.consume_state, old, next, order) {
                None => Ok(step),
                Some(actual) => Err(actual),
            },
            _ => Ok(step),
        }
    }

    /// One attempt, from `old`, to take the sender if it is free.
    pub fn try_acquire_produce_lock_attempt(&self, old: State, order: Ordering) -> (r: Result<
        LockStep,
        State,
    >)
        ensures
            r matches Ok(step) ==> step == spec_produce_lock_step(old),
            r is Err ==> !old.locked(),
    {
        if old.has_lock() {
            return Ok(LockStep::Unchanged);
        }
        let step = LockStep::Move { next: old.with_lock(), acquired: true };
        match cas_word(&self.produce_state, old, old.with_lock(), order) {
            None => Ok(step),
            Some(actual) => Err(actual),
        }
    }

    /// One attempt, from `old`, to take the sender or count a waiting result.
    pub fn acquire_produce_lock_or_inc_in_flight_attempt(&self, old: State, order: Ordering) -> (r:
        Result<LockStep, State>)
        ensures
            r matches Ok(step) ==> step == spec_produce_lock_or_count_step(old),
            r is Err ==> spec_produce_lock_or_count_step(old) is Move,
    {
        let step = if old.has_lock() {
            if old.in_flight() < MAX_IN_FLIGHT {
                LockStep::Move { next: old.inc_in_flight(), acquired: false }
            } else {
                LockStep::Invalid
            }
        } else {
            LockStep::Move { next: old.with_lock(), acquired: true }
        };
        match step {
            LockStep::Move { next, .. } => match cas_word(&self.produce_state, old, next, order) {
                None => Ok(step),
                Some(actual) => Err(actual),
            },
            _ => Ok(step),
        }
    }

    /// One attempt, from `old`, to keep the sender for a waiting result or
    /// release it.
    pub fn release_lock_if_idle_attempt(&self, old: State, order: Ordering) -> (r: Result<
        LockStep,
        State,
    >)
        ensures
            r matches Ok(step) ==> step == spec_release_if_idle_step(old),
            r matches Err(actual) ==> actual != old,
    {
        let step = if old.in_flight() > 0 {
            LockStep::Move { next: old.dec_in_flight(), acquired: old.has_lock() }
        } else {
            LockStep::Move { next: old.without_lock(), acquired: false }
        };
        match step {
            LockStep::Move { next, .. } => match cas_word(&self.produce_state, old, next, order) {
                None => Ok(step),
                Some(actual) => Err(actual),
            },
            _ => Ok(step),
        }
    }

    /// Gives the consume lock back.
    pub fn release_consume_lock(&self, order: Ordering) {
        let _ = self.consume_state.fetch_sub(LOCK, order);
    }
}

/// One compare-and-swap of a lock word: `None` when the word found was
/// `old` (and `new` was stored), else the word found, which differs from
/// `old`.
fn cas_word(word: &AtomicUsize, old: State, new: State, order: Ordering) -> (r: Option<State>)
    ensures
        r matches Some(actual) ==> actual != old,
{
    let failure = match order {
        Ordering::Acquire | Ordering::AcqRel => Ordering::Acquire,
        Ordering::SeqCst => Ordering::SeqCst,
        _ => Ordering::Relaxed,
    };
    let found = match word.compare_exchange(old.0, new.0, order, failure) {
        Ok(prev) => prev,
        Err(prev) => prev,
    };
    if found == old.0 {
        None
    } else {
        Some(State(found))
    }
}

/// The consume lock bounds the values in flight: a request for a new value
/// is refused while the lock is held or `max` values are in flight, and an
/// accepted one takes the lock with one more value in flight, never more
/// than `max`.
pub proof fn law_consume_lock_bounds_in_flight(old: State, max: usize)
    ensures
        (old.locked() || old.count() == max) ==> spec_consume_lock_step(old, false, max)
            == LockStep::Unchanged,
        spec_consume_lock_step(old, false, max) matches LockStep::Move { next, acquired } ==> (
        acquired && next.locked() && next.count() == old.count() + 1 && next.count() <= max),
        (!old.locked()) ==> (spec_consume_lock_step(old, true, max) matches LockStep::Move {
            next,
            acquired,
        } && acquired && next.locked() && next.count() == old.count()),
        (old.locked() && old.count() > 0) ==> (spec_consume_lock_step(old, true, max)
            matches LockStep::Move { next, acquired } && !acquired && next.locked() && next.count()
            == old.count() - 1),
{
    lemma_lock_bits(old.0);
    lemma_count_bits(old.0);
    lemma_lock_bits((old.0 + 1) as usize);
}

/// The sender is handed from result to result: a result that finds the
/// sender free takes it; one that finds it taken is counted for the holder;
/// the holder keeps the sender while counted results wait and releases it
/// only when none does.
pub proof fn law_sender_is_handed_over(old: State)
    ensures
        !old.locked() ==> (spec_produce_lock_or_count_step(old) matches LockStep::Move {
            next,
            acquired,
        } && acquired && next.locked() && next.count() == old.count()),
        (old.locked() && old.count() < MAX_IN_FLIGHT) ==> (spec_produce_lock_or_count_step(old)
            matches LockStep::Move { next, acquired } && !acquired && next.locked() && next.count()
            == old.count() + 1),
        (old.locked() && old.count() > 0) ==> (spec_release_if_idle_step(old) matches LockStep::Move {
            next,
            acquired,
        } && acquired && next.locked() && next.count() == old.count() - 1),
        old.count() == 0 ==> (spec_release_if_idle_step(old) matches LockStep::Move {
            next,
            acquired,
        } && !acquired && !next.locked() && next.count() == 0),
        old.locked() ==> spec_produce_lock_step(old) == LockStep::Unchanged,
{
    lemma_lock_bits(old.0);
    lemma_count_bits(old.0);
}

} // verus!
