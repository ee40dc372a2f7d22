//! The decisions of `join`: the staging area where the values wait until
//! every component has completed, and the countdown that decides which
//! component finishes the join.
//!
//! The countdown starts at the number of components. A component that
//! completes with a value counts it down and finishes the join with all the
//! values when it brings it to zero. A component that fails swaps in `-1`
//! and finishes the join with its error when the countdown was still
//! positive.

use vstd::prelude::*;
use std::sync::atomic::{AtomicIsize, Ordering};

verus! {

/// Values staged until the join completes.
pub trait Partial<R>: Sized {
    /// Every slot holds its value.
    spec fn all_present(&self) -> bool;

    /// Every slot is empty.
    spec fn all_taken(&self) -> bool;

    /// Takes every staged value out.
    fn consume(&mut self) -> (r: R)
        requires
            old(self).all_present(),
        ensures
            final(self).all_taken(),
    ;
}

impl<T> Partial<Vec<T>> for Vec<Option<T>> {
    open spec fn all_present(&self) -> bool {
        forall|i: int| 0 <= i < self.len() ==> (#[trigger] self[i]) is Some
    }

    open spec fn all_taken(&self) -> bool {
        forall|i: int| 0 <= i < self.len() ==> (#[trigger] self[i]) is None
    }

    fn consume(&mut self) -> (r: Vec<T>)
        ensures
            r.len() == old(self).len(),
            final(self).len() == old(self).len(),
            forall|i: int| 0 <= i < r.len() ==> Some(#[trigger] r[i]) == old(self)[i],
    {
        let n = self.len();
        let mut ret: Vec<T> = Vec::with_capacity(n);
        for i in 0..n
            invariant
                n == self.len(),
                n == old(self).len(),
                ret.len() == i,
                forall|j: int| 0 <= j < i ==> Some(#[trigger] ret[j]) == old(self)[j],
                forall|j: int| 0 <= j < i ==> (#[trigger] self[j]) is None,
                forall|j: int| i <= j < n ==> (#[trigger] self[j]) == old(self)[j],
                old(self).all_present(),
        {
            let slot = self[i].take();
            match slot {
                Some(v) => ret.push(v),
                None => vstd::pervasive::unreached(),
            }
        }
        ret
    }
}

impl<T1, T2> Partial<(T1, T2)> for (Option<T1>, Option<T2>) {
    open spec fn all_present(&self) -> bool {
        self.0 is Some && self.1 is Some
    }

    open spec fn all_taken(&self) -> bool {
        self.0 is None && self.1 is None
    }

    fn consume(&mut self) -> (r: (T1, T2))
        ensures
            r == (old(self).0->0, old(self).1->0),
    {
        let a = self.0.take();
        let b = self.1.take();
        match (a, b) {
            (Some(a), Some(b)) => (a, b),
            _ => vstd::pervasive::unreached(),
        }
    }
}

impl<T1, T2, T3> Partial<(T1, T2, T3)> for (Option<T1>, Option<T2>, Option<T3>) {
    open spec fn all_present(&self) -> bool {
        self.0 is Some && self.1 is Some && self.2 is Some
    }

    open spec fn all_taken(&self) -> bool {
        self.0 is None && self.1 is None && self.2 is None
    }

    fn consume(&mut self) -> (r: (T1, T2, T3))
        ensures
            r == (old(self).0->0, old(self).1->0, old(self).2->0),
    {
        let a = self.0.take();
        let b = self.1.take();
        let c = self.2.take();
        match (a, b, c) {
            (Some(a), Some(b), Some(c)) => (a, b, c),
            _ => vstd::pervasive::unreached(),
        }
    }
}

/// The countdown of a join, shared by the callbacks of its components.
pub struct Countdown {
    remaining: AtomicIsize,
    start: Ghost<isize>,
}

impl Countdown {
    /// The count the countdown was created with.
    pub closed spec fn initial(&self) -> isize {
        self.start@
    }

    /// A countdown over `remaining` components.
    pub fn new(remaining: isize) -> (c: Countdown)
        ensures
            c.initial() == remaining,
    {
        Countdown { remaining: AtomicIsize::new(remaining), start: Ghost(remaining) }
    }

    /// Counts one value down; gives the count after it.
    pub fn dec(&self) -> isize {
        let prev = self.remaining.fetch_sub(1, Ordering::Release);
        remaining_after(prev)
    }

    /// A component failed: closes the countdown and tells whether this
    /// failure finishes the join.
    pub fn claim_failure(&self) -> bool {
        let prev = self.remaining.swap(-1, Ordering::Relaxed);
        failure_finishes(prev)
    }
}

/// The count after one value is counted down from `prev` (wrapping, as the
/// atomic does it).
pub fn remaining_after(prev: isize) -> (r: isize)
    ensures
        r == vstd::wrapping::isize_specs::wrapping_sub(prev, 1),
        prev > isize::MIN ==> r == prev - 1,
{
    prev.wrapping_sub(1)
}

/// A value finishes the join when it brings the countdown to zero.
pub fn value_finishes(remaining_after: isize) -> (b: bool)
    ensures
        b == (remaining_after == 0),
{
    remaining_after == 0
}

/// A failure finishes the join when the countdown it replaced was still
/// positive.
pub fn failure_finishes(previous: isize) -> (b: bool)
    ensures
        b == (previous > 0),
{
    previous > 0
}

/// How many times the join is finished when the countdown stands at `r` and
/// the components report `events` in that order (`true` for a value,
/// `false` for a failure).
pub open spec fn finishes(r: int, events: Seq<bool>) -> nat
    decreases events.len(),
{
    if events.len() == 0 {
        0
    } else if events[0] {
        (if r - 1 == 0 {
            1nat
        } else {
            0nat
        }) + finishes(r - 1, events.drop_first())
    } else {
        (if r > 0 {
            1nat
        } else {
            0nat
        }) + finishes(-1, events.drop_first())
    }
}

proof fn lemma_finished_countdown_stays_finished(r: int, events: Seq<bool>)
    requires
        r <= 0,
    ensures
        finishes(r, events) == 0,
    decreases events.len(),
{
    if events.len() > 0 {
        if events[0] {
            lemma_finished_countdown_stays_finished(r - 1, events.drop_first());
        } else {
            lemma_finished_countdown_stays_finished(-1, events.drop_first());
        }
    }
}

proof fn lemma_finishes_at_most_once(r: int, events: Seq<bool>)
    ensures
        finishes(r, events) <= 1,
    decreases events.len(),
{
    if r <= 0 {
        lemma_finished_countdown_stays_finished(r, events);
    } else if events.len() > 0 {
        if events[0] {
            if r - 1 == 0 {
                lemma_finished_countdown_stays_finished(r - 1, events.drop_first());
            } else {
                lemma_finishes_at_most_once(r - 1, events.drop_first());
            }
        } else {
            lemma_finished_countdown_stays_finished(-1, events.drop_first());
        }
    }
}

proof fn lemma_all_values_finish(r: int, events: Seq<bool>)
    requires
        r > 0,
        events.len() == r,
        forall|i: int| 0 <= i < events.len() ==> #[trigger] events[i],
    ensures
        finishes(r, events) == 1,
    decreases events.len(),
{
    let rest = events.drop_first();
    assert(events[0]);
    if r - 1 == 0 {
        lemma_finished_countdown_stays_finished(r - 1, rest);
    } else {
        assert forall|i: int| 0 <= i < rest.len() implies #[trigger] rest[i] by {
            assert(rest[i] == events[i + 1]);
        }
        lemma_all_values_finish(r - 1, rest);
    }
}

/// A join is finished at most once, whatever its components report and in
/// whatever order; and when every one of its `n` components reports a value,
/// it is finished exactly once.
pub proof fn law_join_finishes_once(n: int, events: Seq<bool>)
    ensures
        finishes(n, events) <= 1,
        (n > 0 && events.len() == n && forall|i: int| 0 <= i < events.len() ==> #[trigger] events[i])
            ==> finishes(n, events) == 1,
{
    lemma_finishes_at_most_once(n, events);
    if n > 0 && events.len() == n && forall|i: int| 0 <= i < events.len() ==> #[trigger] events[i] {
        lemma_all_values_finish(n, events);
    }
}

} // verus!
