//! The packed selection word of `select`.
//!
//! Layout of the word (low bits first):
//! - bit 0: the selection has been won,
//! - bit 1: the winning value was an error,
//! - bits 2..33: the number of async values still to be accounted for,
//! - bits 33..64: before the win, the number of callbacks registered; after
//!   the win, the index of the winning value.

use vstd::prelude::*;

verus! {

pub const WON_MASK: u64 = 1;

pub const ERR_MASK: u64 = 2;

/// Thirty-one one bits.
pub const REM_MASK: u64 = 0x7FFF_FFFF;

/// The largest count or index that the word can hold.
pub const MAX_U31: u32 = 0x7FFF_FFFF;

/// The selection word.
#[derive(Debug, Clone, Copy, PartialEq, Eq, Structural)]
pub struct State {
    pub val: u64,
}

proof fn lemma_new_word(r: u64)
    by (bit_vector)
    requires
        r <= 0x7FFF_FFFFu64,
    ensures
        (r << 2u64) & 1u64 != 1u64,
        (r << 2u64) & 2u64 != 2u64,
        ((r << 2u64) >> 2u64) & 0x7FFF_FFFFu64 == r,
        (r << 2u64) >> 33u64 == 0,
{
}

proof fn lemma_won_word(v: u64, i: u64)
    by (bit_vector)
    requires
        i <= 0x7FFF_FFFFu64,
    ensures
        ((1u64 | (i << 33u64)) | (v & (0x7FFF_FFFFu64 << 2u64))) & 1u64 == 1u64,
        ((1u64 | (i << 33u64)) | (v & (0x7FFF_FFFFu64 << 2u64))) & 2u64 != 2u64,
        (((1u64 | (i << 33u64)) | (v & (0x7FFF_FFFFu64 << 2u64))) >> 2u64) & 0x7FFF_FFFFu64 == (v
            >> 2u64) & 0x7FFF_FFFFu64,
        ((1u64 | (i << 33u64)) | (v & (0x7FFF_FFFFu64 << 2u64))) >> 33u64 == i,
{
}

proof fn lemma_err_word(v: u64)
    by (bit_vector)
    ensures
        ((1u64 | 2u64) | (v & (0x7FFF_FFFFu64 << 2u64))) & 1u64 == 1u64,
        ((1u64 | 2u64) | (v & (0x7FFF_FFFFu64 << 2u64))) & 2u64 == 2u64,
        (((1u64 | 2u64) | (v & (0x7FFF_FFFFu64 << 2u64))) >> 2u64) & 0x7FFF_FFFFu64 == (v >> 2u64)
            & 0x7FFF_FFFFu64,
        ((1u64 | 2u64) | (v & (0x7FFF_FFFFu64 << 2u64))) >> 33u64 == 0,
{
}

proof fn lemma_inc_word(v: u64)
    by (bit_vector)
    requires
        v >> 33u64 < 0x7FFF_FFFFu64,
    ensures
        v + 0x2_0000_0000u64 <= 0xFFFF_FFFF_FFFF_FFFFu64,
        ((v + 0x2_0000_0000u64) as u64) & 1u64 == v & 1u64,
        ((v + 0x2_0000_0000u64) as u64) & 2u64 == v & 2u64,
        (((v + 0x2_0000_0000u64) as u64) >> 2u64) & 0x7FFF_FFFFu64 == (v >> 2u64) & 0x7FFF_FFFFu64,
        ((v + 0x2_0000_0000u64) as u64) >> 33u64 == (v >> 33u64) + 1,
{
}

proof fn lemma_dec_word(v: u64, c: u64)
    by (bit_vector)
    requires
        c <= (v >> 2u64) & 0x7FFF_FFFFu64,
    ensures
        c << 2u64 <= v,
        ((v - (c << 2u64)) as u64) & 1u64 == v & 1u64,
        ((v - (c << 2u64)) as u64) & 2u64 == v & 2u64,
        (((v - (c << 2u64)) as u64) >> 2u64) & 0x7FFF_FFFFu64 == ((v >> 2u64) & 0x7FFF_FFFFu64)
            - c,
        ((v - (c << 2u64)) as u64) >> 33u64 == v >> 33u64,
{
}

proof fn lemma_field_bounds(v: u64)
    by (bit_vector)
    ensures
        (v >> 2u64) & 0x7FFF_FFFFu64 <= 0x7FFF_FFFFu64,
        v >> 33u64 <= 0x7FFF_FFFFu64,
{
}

impl State {
    /// The selection has been won.
    pub open spec fn won(self) -> bool {
        self.val & 1u64 == 1u64
    }

    /// The winning value was an error.
    pub open spec fn errored(self) -> bool {
        self.val & 2u64 == 2u64
    }

    /// The number of async values still to be accounted for.
    pub open spec fn left(self) -> u64 {
        (self.val >> 2u64) & 0x7FFF_FFFFu64
    }

    /// The upper field: the callbacks registered, or the winning index.
    pub open spec fn upper(self) -> u64 {
        self.val >> 33u64
    }

    /// The word after the value at `index` wins.
    pub open spec fn won_by(self, index: u32) -> State {
        State { val: (1u64 | ((index as u64) << 33u64)) | (self.val & (0x7FFF_FFFFu64 << 2u64)) }
    }

    /// The word after an error wins.
    pub open spec fn won_by_error(self) -> State {
        State { val: (1u64 | 2u64) | (self.val & (0x7FFF_FFFFu64 << 2u64)) }
    }

    /// The word after one more callback is registered.
    pub open spec fn one_more_callback(self) -> State {
        State { val: (self.val + 0x2_0000_0000u64) as u64 }
    }

    /// The word after `count` values are accounted for.
    pub open spec fn fewer_left(self, count: u32) -> State {
        State { val: (self.val - ((count as u64) << 2u64)) as u64 }
    }

    /// A word that no value has won yet, waiting on `remaining` values.
    pub fn new(remaining: u32) -> (s: State)
        requires
            remaining <= MAX_U31,
        ensures
            !s.won(),
            !s.errored(),
            s.left() == remaining,
            s.upper() == 0,
    {
        proof {
            lemma_new_word(remaining as u64);
        }
        State { val: (remaining as u64) << 2 }
    }

    /// The word read from an atomic.
    pub fn load(val: u64) -> (s: State)
        ensures
            s.val == val,
    {
        State { val: val }
    }

    /// Whether the selection has been won.
    pub fn is_won(&self) -> (b: bool)
        ensures
            b == self.won(),
    {
        self.val & WON_MASK == WON_MASK
    }

    /// The word after the value at `index` wins.
    pub fn as_won(&self, index: u32) -> (s: State)
        requires
            index <= MAX_U31,
        ensures
            s == self.won_by(index),
            s.won(),
            !s.errored(),
            s.left() == self.left(),
            s.upper() == index,
    {
        proof {
            lemma_won_word(self.val, index as u64);
        }
        State { val: WON_MASK | ((index as u64) << 33) | (self.val & (REM_MASK << 2)) }
    }

    /// Whether the winning value was an error.
    pub fn is_err(&self) -> (b: bool)
        ensures
            b == self.errored(),
    {
        self.val & ERR_MASK == ERR_MASK
    }

    /// The word after an error wins.
    pub fn as_err(&self) -> (s: State)
        ensures
            s == self.won_by_error(),
            s.won(),
            s.errored(),
            s.left() == self.left(),
            s.upper() == 0,
    {
        proof {
            lemma_err_word(self.val);
        }
        State { val: WON_MASK | ERR_MASK | (self.val & (REM_MASK << 2)) }
    }

    /// The number of callbacks registered before the win.
    pub fn callbacks_registered(&self) -> (n: u32)
        requires
            !self.won(),
        ensures
            n == self.upper(),
    {
        self.most_significant_u31()
    }

    /// Whether one more callback can be counted.
    pub fn can_inc_callbacks(&self) -> (b: bool)
        ensures
            b == (self.upper() < MAX_U31),
    {
        self.most_significant_u31() < MAX_U31
    }

    /// The word after one more callback is registered.
    pub fn inc_callbacks_registered(&self) -> (s: State)
        requires
            !self.won(),
            self.upper() < MAX_U31,
        ensures
            s == self.one_more_callback(),
            !s.won(),
            s.errored() == self.errored(),
            s.left() == self.left(),
            s.upper() == self.upper() + 1,
    {
        proof {
            lemma_inc_word(self.val);
        }
        State { val: self.val + 0x2_0000_0000 }
    }

    /// The index of the winning value.
    pub fn selected(&self) -> (i: u32)
        requires
            self.won(),
        ensures
            i == self.upper(),
    {
        self.most_significant_u31()
    }

    /// The number of async values still to be accounted for.
    pub fn remaining(&self) -> (n: u32)
        ensures
            n == self.left(),
    {
        proof {
            lemma_field_bounds(self.val);
        }
        ((self.val >> 2) & REM_MASK) as u32
    }

    /// The word after `count` more values are accounted for.
    pub fn dec_remaining(&self, count: u32) -> (s: State)
        requires
            count <= self.left(),
        ensures
            s == self.fewer_left(count),
            s.won() == self.won(),
            s.errored() == self.errored(),
            s.left() == self.left() - count,
            s.upper() == self.upper(),
    {
        proof {
            lemma_dec_word(self.val, count as u64);
        }
        State { val: self.val - ((count as u64) << 2) }
    }

    /// The upper field.
    pub fn most_significant_u31(&self) -> (n: u32)
        ensures
            n == self.upper(),
    {
        proof {
            lemma_field_bounds(self.val);
        }
        (self.val >> 33) as u32
    }

    /// The raw word.
    pub fn as_u64(&self) -> (v: u64)
        ensures
            v == self.val,
    {
        self.val
    }
}

/// Facts about the words the selection moves through.
pub proof fn lemma_words(s: State, index: u32, count: u32)
    ensures
        index <= MAX_U31 ==> {
            &&& s.won_by(index).won()
            &&& !s.won_by(index).errored()
            &&& s.won_by(index).left() == s.left()
            &&& s.won_by(index).upper() == index
        },
        s.won_by_error().won(),
        s.won_by_error().errored(),
        s.won_by_error().left() == s.left(),
        (!s.won() && s.upper() < MAX_U31) ==> {
            &&& !s.one_more_callback().won()
            &&& s.one_more_callback().left() == s.left()
            &&& s.one_more_callback().upper() == s.upper() + 1
        },
        count <= s.left() ==> {
            &&& s.fewer_left(count).won() == s.won()
            &&& s.fewer_left(count).errored() == s.errored()
            &&& s.fewer_left(count).left() == s.left() - count
            &&& s.fewer_left(count).upper() == s.upper()
        },
{
    if index <= MAX_U31 {
        lemma_won_word(s.val, index as u64);
    }
    lemma_err_word(s.val);
    if !s.won() && s.upper() < MAX_U31 {
        lemma_inc_word(s.val);
    }
    if count <= s.left() {
        lemma_dec_word(s.val, count as u64);
    }
}

} // verus!
