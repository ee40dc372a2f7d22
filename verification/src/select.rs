//! The decisions of `select`: which async value wins, when callbacks may
//! still be registered, and when all values have been accounted for; and the
//! staging area that hands the values back.

use vstd::prelude::*;
use std::sync::atomic::Ordering;
use crate::atomic::{word_compare_and_swap, word_load, word_new};
use crate::select_state::{lemma_words, State, MAX_U31};
use crate::{Async, Cancel};

verus! {

/// What an attempt to win the selection finds.
#[derive(Debug, Clone, Copy, PartialEq, Eq, Structural)]
pub enum WinOutcome {
    /// Another value won before; the word is the one read.
    Lost(State),
    /// This value won: the word moved from `prev` to `next`.
    Won { prev: State, next: State },
}

/// What registering one more callback finds.
#[derive(Debug, Clone, Copy, PartialEq, Eq, Structural)]
pub enum RegisterOutcome {
    /// The selection was won before: no callback may be counted.
    Closed(State),
    /// The callback is counted; the word moved to the given one.
    Registered(State),
    /// The callback count is full.
    Overflow(State),
}

/// What accounting for more values finds.
#[derive(Debug, Clone, Copy, PartialEq, Eq, Structural)]
pub enum DecOutcome {
    /// The word moved to the given one.
    Decremented(State),
    /// Fewer values are outstanding than were to be accounted for.
    Underflow(State),
}

pub open spec fn spec_win(curr: State, index: u32, err: bool) -> WinOutcome {
    if curr.won() {
        WinOutcome::Lost(curr)
    } else {
        WinOutcome::Won {
            prev: curr,
            next: if err {
                curr.won_by_error()
            } else {
                curr.won_by(index)
            },
        }
    }
}

pub open spec fn spec_register(curr: State) -> RegisterOutcome {
    if curr.won() {
        RegisterOutcome::Closed(curr)
    } else if curr.upper() < MAX_U31 {
        RegisterOutcome::Registered(curr.one_more_callback())
    } else {
        RegisterOutcome::Overflow(curr)
    }
}

pub open spec fn spec_dec(curr: State, count: u32) -> DecOutcome {
    if count <= curr.left() {
        DecOutcome::Decremented(curr.fewer_left(count))
    } else {
        DecOutcome::Underflow(curr)
    }
}

/// The selection word shared by the callbacks of `select`.
pub struct AtomicState {
    atomic: syncbox::atomic::AtomicU64,
    initial: Ghost<State>,
}

impl AtomicState {
    /// The word the atomic was created with.
    pub closed spec fn initial(&self) -> State {
        self.initial@
    }

    /// A word that no value has won yet, waiting on `remaining` values.
    pub fn new(remaining: u32) -> (a: AtomicState)
        requires
            remaining <= MAX_U31,
        ensures
            !a.initial().won(),
            !a.initial().errored(),
            a.initial().left() == remaining,
            a.initial().upper() == 0,
    {
        let init = State::new(remaining);
        AtomicState { atomic: word_new(init.as_u64()), initial: Ghost(init) }
    }

    /// Reads the word.
    pub fn load(&self, order: Ordering) -> State
        requires
            !(order is Release),
            !(order is AcqRel),
    {
        State::load(word_load(&self.atomic, order))
    }

    /// Stores `new` when the word is `old`; returns the word found.
    pub fn compare_and_swap(&self, old: State, new: State, order: Ordering) -> State {
        State::load(word_compare_and_swap(&self.atomic, old.as_u64(), new.as_u64(), order))
    }

    /// One attempt, from `curr`, of the value at `index` to win the
    /// selection (with an error when `err` holds).
    pub fn try_win_attempt(&self, curr: State, index: u32, err: bool) -> (r: Result<WinOutcome, State>)
        requires
            index <= MAX_U31,
        ensures
            r matches Ok(o) ==> o == spec_win(curr, index, err),
            r matches Err(actual) ==> !curr.won() && actual != curr,
    {
        if curr.is_won() {
            return Ok(WinOutcome::Lost(curr));
        }
        let next = if err {
            curr.as_err()
        } else {
            curr.as_won(index)
        };
        let actual = self.compare_and_swap(curr, next, Ordering::Acquire);
        if actual == curr {
            Ok(WinOutcome::Won { prev: curr, next: next })
        } else {
            Err(actual)
        }
    }

    /// One attempt, from `curr`, to count one more registered callback.
    pub fn inc_callbacks_registered_attempt(&self, curr: State) -> (r: Result<RegisterOutcome, State>)
        ensures
            r matches Ok(o) ==> o == spec_register(curr),
            r matches Err(actual) ==> spec_register(curr) is Registered && actual != curr,
    {
        if curr.is_won() {
            return Ok(RegisterOutcome::Closed(curr));
        }
        if !curr.can_inc_callbacks() {
            return Ok(RegisterOutcome::Overflow(curr));
        }
        let next = curr.inc_callbacks_registered();
        let actual = self.compare_and_swap(curr, next, Ordering::Release);
        if actual == curr {
            Ok(RegisterOutcome::Registered(next))
        } else {
            Err(actual)
        }
    }

    /// One attempt, from `curr`, to account for `count` more values.
    pub fn dec_remaining_attempt(&self, count: u32, curr: State) -> (r: Result<DecOutcome, State>)
        ensures
            r matches Ok(o) ==> o == spec_dec(curr, count),
            r matches Err(actual) ==> spec_dec(curr, count) is Decremented && actual != curr,
    {
        if curr.remaining() < count {
            return Ok(DecOutcome::Underflow(curr));
        }
        let next = curr.dec_remaining(count);
        let actual = self.compare_and_swap(curr, next, Ordering::Release);
        if actual == curr {
            Ok(DecOutcome::Decremented(next))
        } else {
            Err(actual)
        }
    }
}

/// Exactly one value wins a selection: the first win records the winner
/// (its index, or that it was an error) and keeps the outstanding count,
/// and every later attempt loses against the recorded word; once won, no
/// further callback is counted.
pub proof fn law_selection_is_won_once(s: State, i: u32, j: u32, first_err: bool, later_err: bool)
    requires
        !s.won(),
        i <= MAX_U31,
        j <= MAX_U31,
    ensures
        spec_win(s, i, first_err) is Won,
        ({
            let next = spec_win(s, i, first_err)->Won_next;
            &&& next.won()
            &&& next.errored() == first_err
            &&& !first_err ==> next.upper() == i
            &&& next.left() == s.left()
            &&& spec_win(next, j, later_err) == WinOutcome::Lost(next)
            &&& spec_register(next) == RegisterOutcome::Closed(next)
        }),
{
    lemma_words(s, i, 0);
}

/// Accounting for values counts the outstanding number down by exactly the
/// amount given and never disturbs the winner; registering a callback before
/// the win counts it and keeps the outstanding number.
pub proof fn law_counts_move_independently(s: State, count: u32)
    ensures
        count <= s.left() ==> (spec_dec(s, count) matches DecOutcome::Decremented(t) && t.left()
            == s.left() - count && t.won() == s.won() && t.errored() == s.errored() && t.upper()
            == s.upper()),
        count > s.left() ==> spec_dec(s, count) == DecOutcome::Underflow(s),
        (!s.won() && s.upper() < MAX_U31) ==> (spec_register(s) matches RegisterOutcome::Registered(
            t,
        ) && t.upper() == s.upper() + 1 && t.left() == s.left() && !t.won()),
{
    lemma_words(s, 0, count);
}

/// What a ready callback does with its async value.
#[derive(Debug, Clone, Copy, PartialEq, Eq, Structural)]
pub enum ReadyAction {
    /// The value won with an error: the selection fails with it.
    Fail,
    /// An error won before: the value is not kept.
    Ignore,
    /// The value is stashed in its slot and accounted for.
    Stash,
}

/// The action of a ready callback whose win attempt gave `outcome`, for a
/// value that is an error when `err` holds.
pub open spec fn spec_ready_action(outcome: WinOutcome, err: bool) -> ReadyAction {
    match outcome {
        WinOutcome::Won { next, .. } => if err {
            ReadyAction::Fail
        } else {
            ReadyAction::Stash
        },
        WinOutcome::Lost(curr) => if curr.errored() {
            ReadyAction::Ignore
        } else {
            ReadyAction::Stash
        },
    }
}

/// Decides what a ready callback does with its value after its attempt to
/// win.
pub fn ready_action(outcome: WinOutcome, err: bool) -> (a: ReadyAction)
    ensures
        a == spec_ready_action(outcome, err),
{
    match outcome {
        WinOutcome::Won { .. } => if err {
            ReadyAction::Fail
        } else {
            ReadyAction::Stash
        },
        WinOutcome::Lost(curr) => if curr.is_err() {
            ReadyAction::Ignore
        } else {
            ReadyAction::Stash
        },
    }
}

/// The selection completes with all the values once none is outstanding.
pub fn selection_complete(curr: State) -> (b: bool)
    ensures
        b == (curr.left() == 0),
{
    curr.remaining() == 0
}

/// A selection fails at most once and keeps values only while no error has
/// won: the value whose error wins fails it, every value that comes after
/// an error win is ignored, and every other value is kept.
pub proof fn law_error_win_ends_selection(s: State, i: u32, j: u32, later_err: bool)
    requires
        !s.won(),
        i <= MAX_U31,
        j <= MAX_U31,
    ensures
        spec_ready_action(spec_win(s, i, true), true) == ReadyAction::Fail,
        spec_ready_action(spec_win(spec_win(s, i, true)->Won_next, j, later_err), later_err)
            == ReadyAction::Ignore,
        spec_ready_action(spec_win(s, i, false), false) == ReadyAction::Stash,
        spec_ready_action(spec_win(spec_win(s, i, false)->Won_next, j, later_err), later_err)
            == ReadyAction::Stash,
{
    lemma_words(s, i, 0);
}

/// Puts back into its slot the value that taking back a callback handed
/// back: a value comes back into the slot and counts 1; when none came back
/// the slot is left as it was and 0 is counted.
fn place_returned<A>(slot: &mut Option<A>, returned: Option<A>) -> (n: u32)
    ensures
        n == (if returned is Some {
            1u32
        } else {
            0u32
        }),
        returned is Some ==> *final(slot) == returned,
        returned is None ==> *final(slot) == *old(slot),
{
    match returned {
        Some(a) => {
            *slot = Some(a);
            1
        },
        None => 0,
    }
}

/// Takes back the callback of one async value when `eligible`: its token is
/// spent, and when the callback was still pending the value comes back into
/// its slot and 1 is counted.
fn cancel_slot<A: Async>(slot: &mut Option<A>, token: &mut Option<A::Cancel>, eligible: bool) -> (n:
    u32)
    requires
        eligible ==> *old(token) is Some,
    ensures
        n <= 1,
        !eligible ==> n == 0 && *final(slot) == *old(slot) && *final(token) == *old(token),
        eligible ==> *final(token) is None,
        n == 1 ==> *final(slot) is Some,
        n == 0 ==> *final(slot) == *old(slot),
        (eligible && *old(slot) is None) ==> (n == 1 <==> *final(slot) is Some),
{
    if !eligible {
        return 0;
    }
    match token.take() {
        Some(cancel) => {
            let returned = cancel.cancel();
            place_returned(slot, returned)
        },
        None => vstd::pervasive::unreached(),
    }
}

/// 1 when `b` holds, else 0.
pub open spec fn one_if(b: bool) -> int {
    if b {
        1
    } else {
        0
    }
}

/// The callbacks taken back after a win are exactly those registered on the
/// values that lost: every value below `up_to` other than the winner, those
/// after the winner as much as those before it, and no other. Among the
/// first two (three) values, as many are taken back as were registered,
/// less one when the winner was among them.
pub proof fn law_every_registered_loser_is_cancelled(selected: u32, up_to: u32)
    ensures
        forall|i: u32| i < up_to && i != selected ==> #[trigger] spec_must_cancel(i, selected, up_to),
        forall|i: u32| (i == selected || i >= up_to) ==> !#[trigger] spec_must_cancel(i, selected, up_to),
        ({
            let n2: int = if up_to < 2 {
                up_to as int
            } else {
                2
            };
            one_if(spec_must_cancel(0, selected, up_to)) + one_if(spec_must_cancel(1, selected, up_to))
                == n2 - one_if(selected < n2)
        }),
        ({
            let n3: int = if up_to < 3 {
                up_to as int
            } else {
                3
            };
            one_if(spec_must_cancel(0, selected, up_to)) + one_if(spec_must_cancel(1, selected, up_to))
                + one_if(spec_must_cancel(2, selected, up_to)) == n3 - one_if(selected < n3)
        }),
{
}

/// The staging area of a selection: the async values as they come back, and
/// the tokens of the callbacks registered on them.
pub trait Values<S>: Sized {
    type Tokens;

    /// Every slot holds its value.
    spec fn all_present(&self) -> bool;

    /// The values, in their positions.
    spec fn contents(&self) -> S;

    /// The token of every callback to take back is there.
    spec fn tokens_held(tokens: Self::Tokens, selected: u32, up_to: u32) -> bool;

    /// Takes every value out.
    fn consume(&mut self) -> (r: S)
        requires
            old(self).all_present(),
        ensures
            r == old(self).contents(),
    ;

    /// Takes back the callbacks registered on the values that lost; gives
    /// how many of them were still pending, whose values are back in their
    /// slots.
    fn cancel_callbacks(&mut self, selected: u32, up_to: u32, tokens: &mut Self::Tokens) -> (r: u32)
        requires
            Self::tokens_held(*old(tokens), selected, up_to),
    ;
}

/// The callback of slot `i` is taken back when the value at `selected` won
/// after `up_to` callbacks were registered.
pub open spec fn spec_must_cancel(i: u32, selected: u32, up_to: u32) -> bool {
    selected != i && up_to >= i + 1
}

impl<A1: Async, A2: Async> Values<(A1, A2)> for (Option<A1>, Option<A2>) {
    type Tokens = (Option<A1::Cancel>, Option<A2::Cancel>);

    open spec fn all_present(&self) -> bool {
        self.0 is Some && self.1 is Some
    }

    open spec fn contents(&self) -> (A1, A2) {
        (self.0->0, self.1->0)
    }

    open spec fn tokens_held(
        tokens: (Option<A1::Cancel>, Option<A2::Cancel>),
        selected: u32,
        up_to: u32,
    ) -> bool {
        &&& spec_must_cancel(0, selected, up_to) ==> tokens.0 is Some
        &&& spec_must_cancel(1, selected, up_to) ==> tokens.1 is Some
    }

    fn consume(&mut self) -> (r: (A1, A2))
        ensures
            final(self).0 is None,
            final(self).1 is None,
    {
        let a = self.0.take();
        let b = self.1.take();
        match (a, b) {
            (Some(a), Some(b)) => (a, b),
            _ => vstd::pervasive::unreached(),
        }
    }

    fn cancel_callbacks(
        &mut self,
        selected: u32,
        up_to: u32,
        tokens: &mut (Option<A1::Cancel>, Option<A2::Cancel>),
    ) -> (r: u32)
        ensures
            r <= 2,
            (0 != selected && 0 < up_to) ==> final(tokens).0 is None,
            (1 != selected && 1 < up_to) ==> final(tokens).1 is None,
            (0 == selected || up_to == 0) ==> final(self).0 == old(self).0 && final(tokens).0 == old(tokens).0,
            (1 == selected || up_to <= 1) ==> final(self).1 == old(self).1 && final(tokens).1 == old(tokens).1,
            (!spec_must_cancel(0, selected, up_to) || old(self).0 is None) && (!spec_must_cancel(
                1,
                selected,
                up_to,
            ) || old(self).1 is None) ==> r == one_if(
                spec_must_cancel(0, selected, up_to) && final(self).0 is Some,
            ) + one_if(spec_must_cancel(1, selected, up_to) && final(self).1 is Some),
            spec_must_cancel(0, selected, up_to) ==> final(tokens).0 is None,
            spec_must_cancel(1, selected, up_to) ==> final(tokens).1 is None,
            !spec_must_cancel(0, selected, up_to) ==> final(self).0 == old(self).0 && final(tokens).0 == old(tokens).0,
            !spec_must_cancel(1, selected, up_to) ==> final(self).1 == old(self).1 && final(tokens).1 == old(tokens).1,
            r == 0 ==> *final(self) == *old(self),
    {
        let mut ret: u32 = 0;
        ret = ret + cancel_slot(&mut self.0, &mut tokens.0, selected != 0 && up_to >= 1);
        ret = ret + cancel_slot(&mut self.1, &mut tokens.1, selected != 1 && up_to >= 2);
        ret
    }
}

impl<A1: Async, A2: Async, A3: Async> Values<(A1, A2, A3)> for (Option<A1>, Option<A2>, Option<A3>) {
    type Tokens = (Option<A1::Cancel>, Option<A2::Cancel>, Option<A3::Cancel>);

    open spec fn all_present(&self) -> bool {
        self.0 is Some && self.1 is Some && self.2 is Some
    }

    open spec fn contents(&self) -> (A1, A2, A3) {
        (self.0->0, self.1->0, self.2->0)
    }

    open spec fn tokens_held(
        tokens: (Option<A1::Cancel>, Option<A2::Cancel>, Option<A3::Cancel>),
        selected: u32,
        up_to: u32,
    ) -> bool {
        &&& spec_must_cancel(0, selected, up_to) ==> tokens.0 is Some
        &&& spec_must_cancel(1, selected, up_to) ==> tokens.1 is Some
        &&& spec_must_cancel(2, selected, up_to) ==> tokens.2 is Some
    }

    fn consume(&mut self) -> (r: (A1, A2, A3))
        ensures
            final(self).0 is None,
            final(self).1 is None,
            final(self).2 is None,
    {
        let a = self.0.take();
        let b = self.1.take();
        let c = self.2.take();
        match (a, b, c) {
            (Some(a), Some(b), Some(c)) => (a, b, c),
            _ => vstd::pervasive::unreached(),
        }
    }

    fn cancel_callbacks(
        &mut self,
        selected: u32,
        up_to: u32,
        tokens: &mut (Option<A1::Cancel>, Option<A2::Cancel>, Option<A3::Cancel>),
    ) -> (r: u32)
        ensures
            r <= 3,
            (0 != selected && 0 < up_to) ==> final(tokens).0 is None,
            (1 != selected && 1 < up_to) ==> final(tokens).1 is None,
            (2 != selected && 2 < up_to) ==> final(tokens).2 is None,
            (0 == selected || up_to == 0) ==> final(self).0 == old(self).0 && final(tokens).0 == old(tokens).0,
            (1 == selected || up_to <= 1) ==> final(self).1 == old(self).1 && final(tokens).1 == old(tokens).1,
            (2 == selected || up_to <= 2) ==> final(self).2 == old(self).2 && final(tokens).2 == old(tokens).2,
            (!spec_must_cancel(0, selected, up_to) || old(self).0 is None) && (!spec_must_cancel(
                1,
                selected,
                up_to,
            ) || old(self).1 is None) && (!spec_must_cancel(2, selected, up_to) || old(self).2
                is None) ==> r == one_if(spec_must_cancel(0, selected, up_to) && final(self).0 is Some)
                + one_if(spec_must_cancel(1, selected, up_to) && final(self).1 is Some) + one_if(
                spec_must_cancel(2, selected, up_to) && final(self).2 is Some,
            ),
            spec_must_cancel(0, selected, up_to) ==> final(tokens).0 is None,
            spec_must_cancel(1, selected, up_to) ==> final(tokens).1 is None,
            spec_must_cancel(2, selected, up_to) ==> final(tokens).2 is None,
            !spec_must_cancel(0, selected, up_to) ==> final(self).0 == old(self).0 && final(tokens).0 == old(tokens).0,
            !spec_must_cancel(1, selected, up_to) ==> final(self).1 == old(self).1 && final(tokens).1 == old(tokens).1,
            !spec_must_cancel(2, selected, up_to) ==> final(self).2 == old(self).2 && final(tokens).2 == old(tokens).2,
            r == 0 ==> *final(self) == *old(self),
    {
        let mut ret: u32 = 0;
        ret = ret + cancel_slot(&mut self.0, &mut tokens.0, selected != 0 && up_to >= 1);
        ret = ret + cancel_slot(&mut self.1, &mut tokens.1, selected != 1 && up_to >= 2);
        ret = ret + cancel_slot(&mut self.2, &mut tokens.2, selected != 2 && up_to >= 3);
        ret
    }
}

} // verus!
