//! The packed state word of a future / stream core and the transitions that
//! the core performs on it.
//!
//! Layout of the word (low bits first):
//! - bits 0..4: the lifecycle code,
//! - bit 4: a consumer callback is being invoked,
//! - bit 5: a producer callback is being invoked,
//! - bits 6..64: the number of consumer callbacks registered so far.

use vstd::prelude::*;

verus! {

pub const LIFECYCLE_MASK: u64 = 15;

pub const CONSUMING_MASK: u64 = 16;

pub const PRODUCING_MASK: u64 = 32;

pub const COUNT_OFFSET: u64 = 6;

/// One more than the largest word whose callback count can still be
/// incremented.
pub const COUNT_LIMIT: u64 = 0xFFFF_FFFF_FFFF_FFC0;

/// Where a core stands between its consumer and its producer.
#[derive(Debug, Clone, Copy, PartialEq, Eq, Structural)]
pub enum Lifecycle {
    /// Neither the consumer nor the producer has registered interest.
    New,
    /// The consumer has registered interest in the value.
    ConsumerWait,
    /// The producer has registered interest; the consumer has not yet.
    ProducerWait,
    /// A value has been provided and waits to be consumed.
    Ready,
    /// A value has been provided and the producer is waiting again.
    ReadyProducerWait,
    /// Call the producer callback again once the current one returns.
    ProducerNotify,
    /// As `ProducerNotify`, and the consumer has canceled.
    ProducerNotifyCanceled,
    /// Call the consumer callback again once the current one returns.
    ConsumerNotify,
    /// As `ConsumerNotify`, then move on to `ProducerWait`.
    ConsumerNotifyProducerWait,
    /// Final: the consumer has canceled.
    Canceled,
}

impl Lifecycle {
    /// The code of the lifecycle in the state word.
    pub open spec fn code(self) -> u64 {
        match self {
            Lifecycle::New => 0,
            Lifecycle::ConsumerWait => 1,
            Lifecycle::ProducerWait => 2,
            Lifecycle::Ready => 3,
            Lifecycle::ReadyProducerWait => 4,
            Lifecycle::ProducerNotify => 5,
            Lifecycle::ProducerNotifyCanceled => 6,
            Lifecycle::ConsumerNotify => 7,
            Lifecycle::ConsumerNotifyProducerWait => 8,
            Lifecycle::Canceled => 9,
        }
    }

    /// The lifecycle with code `v`, for `v < 10`.
    pub open spec fn of_code(v: u64) -> Lifecycle {
        if v == 0 {
            Lifecycle::New
        } else if v == 1 {
            Lifecycle::ConsumerWait
        } else if v == 2 {
            Lifecycle::ProducerWait
        } else if v == 3 {
            Lifecycle::Ready
        } else if v == 4 {
            Lifecycle::ReadyProducerWait
        } else if v == 5 {
            Lifecycle::ProducerNotify
        } else if v == 6 {
            Lifecycle::ProducerNotifyCanceled
        } else if v == 7 {
            Lifecycle::ConsumerNotify
        } else if v == 8 {
            Lifecycle::ConsumerNotifyProducerWait
        } else {
            Lifecycle::Canceled
        }
    }

    /// Decodes a lifecycle code; codes from 10 on name no lifecycle.
    pub fn from_u64(v: u64) -> (l: Lifecycle)
        requires
            v < 10,
        ensures
            l.code() == v,
            l == Lifecycle::of_code(v),
    {
        if v == 0 {
            Lifecycle::New
        } else if v == 1 {
            Lifecycle::ConsumerWait
        } else if v == 2 {
            Lifecycle::ProducerWait
        } else if v == 3 {
            Lifecycle::Ready
        } else if v == 4 {
            Lifecycle::ReadyProducerWait
        } else if v == 5 {
            Lifecycle::ProducerNotify
        } else if v == 6 {
            Lifecycle::ProducerNotifyCanceled
        } else if v == 7 {
            Lifecycle::ConsumerNotify
        } else if v == 8 {
            Lifecycle::ConsumerNotifyProducerWait
        } else {
            Lifecycle::Canceled
        }
    }

    /// The code of the lifecycle.
    pub fn as_u64(self) -> (v: u64)
        ensures
            v == self.code(),
    {
        match self {
            Lifecycle::New => 0,
            Lifecycle::ConsumerWait => 1,
            Lifecycle::ProducerWait => 2,
            Lifecycle::Ready => 3,
            Lifecycle::ReadyProducerWait => 4,
            Lifecycle::ProducerNotify => 5,
            Lifecycle::ProducerNotifyCanceled => 6,
            Lifecycle::ConsumerNotify => 7,
            Lifecycle::ConsumerNotifyProducerWait => 8,
            Lifecycle::Canceled => 9,
        }
    }
}

/// Decoding a lifecycle's code gives the lifecycle back, and every code
/// below 10 is the code of the lifecycle it decodes to.
pub proof fn law_lifecycle_code_roundtrip(l: Lifecycle, v: u64)
    requires
        v < 10,
    ensures
        Lifecycle::of_code(l.code()) == l,
        Lifecycle::of_code(v).code() == v,
        l.code() < 10,
{
}

/// The state word of a core.
#[derive(Debug, Clone, Copy, PartialEq, Eq, Structural)]
pub struct State {
    pub val: u64,
}

// ===== Bit-level facts =====

proof fn lemma_with_code(v: u64, c: u64) by (bit_vector)
    requires
        c < 16,
    ensures
        ((v & !15u64) | c) & 15u64 == c,
        (((v & !15u64) | c) & 16u64 == 16u64) == (v & 16u64 == 16u64),
        (((v & !15u64) | c) & 32u64 == 32u64) == (v & 32u64 == 32u64),
        ((v & !15u64) | c) >> 6u64 == v >> 6u64,
        ((v & !15u64) | c) < 0xFFFF_FFFF_FFFF_FFC0u64 <==> v < 0xFFFF_FFFF_FFFF_FFC0u64,
{
}

proof fn lemma_inc_count(v: u64) by (bit_vector)
    requires
        v < 0xFFFF_FFFF_FFFF_FFC0u64,
    ensures
        ((v + 64) as u64) & 15u64 == v & 15u64,
        (((v + 64) as u64) & 16u64 == 16u64) == (v & 16u64 == 16u64),
        (((v + 64) as u64) & 32u64 == 32u64) == (v & 32u64 == 32u64),
        ((v + 64) as u64) >> 6u64 == (v >> 6u64) + 1,
{
}

proof fn lemma_with_producing(v: u64) by (bit_vector)
    ensures
        (v | 32u64) & 15u64 == v & 15u64,
        ((v | 32u64) & 16u64 == 16u64) == (v & 16u64 == 16u64),
        (v | 32u64) & 32u64 == 32u64,
        (v | 32u64) >> 6u64 == v >> 6u64,
{
}

proof fn lemma_zero_word() by (bit_vector)
    ensures
        0u64 & 15u64 == 0,
        0u64 & 16u64 != 16u64,
        0u64 & 32u64 != 32u64,
        0u64 >> 6u64 == 0,
{
}

/// Setting the consuming bit of a word in which it is clear, and clearing it
/// again, leave the other fields as they were.
pub proof fn lemma_consuming_flag(v: u64) by (bit_vector)
    ensures
        (v & 16u64 != 16u64) ==> {
            &&& v <= 0xFFFF_FFFF_FFFF_FFEFu64
            &&& ((v + 16) as u64) & 16u64 == 16u64
            &&& ((v + 16) as u64) & 15u64 == v & 15u64
            &&& (((v + 16) as u64) & 32u64 == 32u64) == (v & 32u64 == 32u64)
            &&& ((v + 16) as u64) >> 6u64 == v >> 6u64
        },
        (v & 16u64 == 16u64) ==> {
            &&& v >= 16
            &&& ((v - 16) as u64) & 16u64 != 16u64
            &&& ((v - 16) as u64) & 15u64 == v & 15u64
            &&& (((v - 16) as u64) & 32u64 == 32u64) == (v & 32u64 == 32u64)
            &&& ((v - 16) as u64) >> 6u64 == v >> 6u64
        },
{
}

/// Subtracting a set running bit clears it and leaves the other fields.
proof fn lemma_clear_running_bit(v: u64)
    by (bit_vector)
    ensures
        (v & 32u64 == 32u64) ==> {
            &&& v >= 32
            &&& ((v - 32) as u64) & 32u64 != 32u64
            &&& ((v - 32) as u64) & 15u64 == v & 15u64
            &&& (((v - 32) as u64) & 16u64 == 16u64) == (v & 16u64 == 16u64)
            &&& ((v - 32) as u64) >> 6u64 == v >> 6u64
        },
{
}

/// Setting the producing bit of a word without it and subtracting it again
/// gives the word back.
pub proof fn lemma_unmark_producing(v: u64)
    by (bit_vector)
    ensures
        v & 32u64 != 32u64 ==> ((v | 32u64) - 32u64) as u64 == v,
        v & 32u64 != 32u64 ==> (v | 32u64) >= 32u64,
{
}

// ===== The abstract fields of a state word =====

impl State {
    /// The word of a fresh core.
    pub open spec fn zero() -> State {
        State { val: 0 }
    }

    /// The lifecycle code held in the low four bits.
    pub open spec fn code(self) -> u64 {
        self.val & 15u64
    }

    /// The word holds one of the ten lifecycle codes.
    pub open spec fn valid(self) -> bool {
        self.code() < 10
    }

    /// The lifecycle of a valid word.
    pub open spec fn phase(self) -> Lifecycle {
        Lifecycle::of_code(self.code())
    }

    /// A consumer callback is being invoked.
    pub open spec fn consuming(self) -> bool {
        self.val & 16u64 == 16u64
    }

    /// A producer callback is being invoked.
    pub open spec fn producing(self) -> bool {
        self.val & 32u64 == 32u64
    }

    /// The number of consumer callbacks registered.
    pub open spec fn callbacks(self) -> u64 {
        self.val >> 6u64
    }

    /// The callback count can still be incremented.
    pub open spec fn can_count(self) -> bool {
        self.val < COUNT_LIMIT
    }

    /// The word with its lifecycle replaced.
    pub open spec fn set_phase(self, l: Lifecycle) -> State {
        State { val: (self.val & !15u64) | l.code() }
    }

    /// The word with its callback count incremented.
    pub open spec fn counted(self) -> State {
        State { val: (self.val + 64) as u64 }
    }

    /// The word with the producing bit set.
    pub open spec fn marked_producing(self) -> State {
        State { val: self.val | 32u64 }
    }

    /// The value held in the ready lifecycles is waiting to be consumed.
    pub open spec fn ready_phase(self) -> bool {
        self.valid() && (self.phase() == Lifecycle::Ready || self.phase()
            == Lifecycle::ReadyProducerWait || self.phase() == Lifecycle::ConsumerNotify
            || self.phase() == Lifecycle::ConsumerNotifyProducerWait)
    }

    /// Two words agree on everything but the lifecycle.
    pub open spec fn same_flags_and_count(self, other: State) -> bool {
        &&& self.consuming() == other.consuming()
        &&& self.producing() == other.producing()
        &&& self.callbacks() == other.callbacks()
    }
}

/// Replacing the lifecycle sets it and keeps the flags and the count.
pub proof fn lemma_set_phase(s: State, l: Lifecycle)
    ensures
        s.set_phase(l).valid(),
        s.set_phase(l).phase() == l,
        s.set_phase(l).same_flags_and_count(s),
        s.set_phase(l).can_count() == s.can_count(),
{
    lemma_with_code(s.val, l.code());
}

/// Incrementing the count keeps the lifecycle and the flags.
pub proof fn lemma_counted(s: State)
    requires
        s.can_count(),
    ensures
        s.counted().code() == s.code(),
        s.counted().consuming() == s.consuming(),
        s.counted().producing() == s.producing(),
        s.counted().callbacks() == s.callbacks() + 1,
{
    lemma_inc_count(s.val);
}

/// Marking the producer keeps the lifecycle, the consuming bit and the count.
pub proof fn lemma_marked_producing(s: State)
    ensures
        s.marked_producing().code() == s.code(),
        s.marked_producing().consuming() == s.consuming(),
        s.marked_producing().producing(),
        s.marked_producing().callbacks() == s.callbacks(),
{
    lemma_with_producing(s.val);
}

impl State {
    /// The initial word: lifecycle `New`, no callback running, count zero.
    pub fn new() -> (s: State)
        ensures
            s == State::zero(),
            s.valid(),
            s.phase() == Lifecycle::New,
            !s.consuming(),
            !s.producing(),
            s.callbacks() == 0,
    {
        proof {
            lemma_zero_word();
        }
        State { val: 0 }
    }

    /// The word read from an atomic.
    pub fn load(val: u64) -> (s: State)
        ensures
            s.val == val,
    {
        State { val: val }
    }

    /// Whether the word holds a lifecycle code.
    pub fn is_valid(&self) -> (b: bool)
        ensures
            b == self.valid(),
    {
        self.val & LIFECYCLE_MASK < 10
    }

    /// The lifecycle of a valid word.
    pub fn lifecycle(&self) -> (l: Lifecycle)
        requires
            self.valid(),
        ensures
            l == self.phase(),
    {
        Lifecycle::from_u64(self.val & LIFECYCLE_MASK)
    }

    /// The word with its lifecycle replaced.
    pub fn with_lifecycle(&self, l: Lifecycle) -> (s: State)
        ensures
            s == self.set_phase(l),
            s.valid(),
            s.phase() == l,
            s.same_flags_and_count(*self),
            s.can_count() == self.can_count(),
    {
        proof {
            lemma_set_phase(*self, l);
        }
        State { val: self.val & !LIFECYCLE_MASK | l.as_u64() }
    }

    /// The word with the producing bit set.
    pub fn with_producing(&self) -> (s: State)
        ensures
            s == self.marked_producing(),
            s.code() == self.code(),
            s.consuming() == self.consuming(),
            s.producing(),
            s.callbacks() == self.callbacks(),
    {
        proof {
            lemma_marked_producing(*self);
        }
        State { val: self.val | PRODUCING_MASK }
    }

    /// Whether a consumer callback is being invoked.
    pub fn is_invoking_consumer(&self) -> (b: bool)
        ensures
            b == self.consuming(),
    {
        self.val & CONSUMING_MASK == CONSUMING_MASK
    }

    /// Whether a producer callback is being invoked.
    pub fn is_invoking_producer(&self) -> (b: bool)
        ensures
            b == self.producing(),
    {
        self.val & PRODUCING_MASK == PRODUCING_MASK
    }

    /// Whether the consumer waits for a value.
    pub fn is_consumer_wait(&self) -> (b: bool)
        requires
            self.valid(),
        ensures
            b == (self.phase() == Lifecycle::ConsumerWait),
    {
        match self.lifecycle() {
            Lifecycle::ConsumerWait => true,
            _ => false,
        }
    }

    /// Whether a value waits to be consumed.
    pub fn is_ready(&self) -> (b: bool)
        requires
            self.valid(),
        ensures
            b == self.ready_phase(),
    {
        match self.lifecycle() {
            Lifecycle::Ready | Lifecycle::ReadyProducerWait | Lifecycle::ConsumerNotify
            | Lifecycle::ConsumerNotifyProducerWait => true,
            _ => false,
        }
    }

    /// Whether the producer may act: the consumer waits, or has canceled.
    pub fn is_producer_ready(&self) -> (b: bool)
        requires
            self.valid(),
        ensures
            b == (self.phase() == Lifecycle::ConsumerWait || self.phase() == Lifecycle::Canceled),
    {
        self.is_consumer_wait() || self.is_canceled()
    }

    /// Whether the consumer has canceled.
    pub fn is_canceled(&self) -> (b: bool)
        requires
            self.valid(),
        ensures
            b == (self.phase() == Lifecycle::Canceled),
    {
        match self.lifecycle() {
            Lifecycle::Canceled => true,
            _ => false,
        }
    }

    /// Whether the consumer callback is to be invoked again.
    pub fn is_consumer_notify(&self) -> (b: bool)
        requires
            self.valid(),
        ensures
            b == (self.phase() == Lifecycle::ConsumerNotify || self.phase()
                == Lifecycle::ConsumerNotifyProducerWait),
    {
        match self.lifecycle() {
            Lifecycle::ConsumerNotify | Lifecycle::ConsumerNotifyProducerWait => true,
            _ => false,
        }
    }

    /// Whether the producer callback is to be invoked again.
    pub fn is_producer_notify(&self) -> (b: bool)
        requires
            self.valid(),
        ensures
            b == (self.phase() == Lifecycle::ProducerNotify),
    {
        match self.lifecycle() {
            Lifecycle::ProducerNotify => true,
            _ => false,
        }
    }

    /// The number of consumer callbacks registered.
    pub fn count(&self) -> (c: u64)
        ensures
            c == self.callbacks(),
    {
        self.val >> COUNT_OFFSET
    }

    /// Whether the callback count can still be incremented.
    pub fn can_inc_count(&self) -> (b: bool)
        ensures
            b == self.can_count(),
    {
        self.val < COUNT_LIMIT
    }

    /// The word with the callback count incremented.
    pub fn inc_count(&self) -> (s: State)
        requires
            self.can_count(),
        ensures
            s == self.counted(),
            s.code() == self.code(),
            s.consuming() == self.consuming(),
            s.producing() == self.producing(),
            s.callbacks() == self.callbacks() + 1,
    {
        proof {
            lemma_counted(*self);
        }
        State { val: self.val + 64 }
    }

    /// The word after a running mark `mask` was taken off the word `prev`
    /// (as a wrapping subtraction, as the atomic does it). When `mask` is
    /// the consuming or the producing bit and that bit was set in `prev`,
    /// the bit is cleared and every other field is kept.
    pub fn unmark(prev: u64, mask: u64) -> (s: State)
        ensures
            s.val == vstd::wrapping::u64_specs::wrapping_sub(prev, mask),
            (mask == CONSUMING_MASK && State { val: prev }.consuming()) ==> {
                &&& !s.consuming()
                &&& s.code() == State { val: prev }.code()
                &&& s.producing() == State { val: prev }.producing()
                &&& s.callbacks() == State { val: prev }.callbacks()
            },
            (mask == PRODUCING_MASK && State { val: prev }.producing()) ==> {
                &&& !s.producing()
                &&& s.code() == State { val: prev }.code()
                &&& s.consuming() == State { val: prev }.consuming()
                &&& s.callbacks() == State { val: prev }.callbacks()
            },
    {
        proof {
            lemma_consuming_flag(prev);
            lemma_clear_running_bit(prev);
        }
        State { val: prev.wrapping_sub(mask) }
    }

    /// The raw word.
    pub fn as_u64(self) -> (v: u64)
        ensures
            v == self.val,
    {
        self.val
    }
}

} // verus!
