use eventual::select::{
    ready_action, selection_complete, AtomicState, DecOutcome, ReadyAction, RegisterOutcome, Values,
    WinOutcome,
};
use eventual::select_state::State;
use std::sync::atomic::Ordering;

#[test]
fn select_word_fields() {
    let s = State::new(2);
    assert_eq!(s.as_u64(), 8);
    assert!(!s.is_won());
    assert!(!s.is_err());
    assert_eq!(s.remaining(), 2);
    assert_eq!(s.callbacks_registered(), 0);
    let r = s.inc_callbacks_registered();
    assert_eq!(r.callbacks_registered(), 1);
    assert_eq!(r.remaining(), 2);
    let w = r.as_won(1);
    assert!(w.is_won());
    assert!(!w.is_err());
    assert_eq!(w.selected(), 1);
    assert_eq!(w.remaining(), 2);
    let e = r.as_err();
    assert!(e.is_won());
    assert!(e.is_err());
    assert_eq!(e.remaining(), 2);
    let d = w.dec_remaining(2);
    assert_eq!(d.remaining(), 0);
    assert_eq!(d.selected(), 1);
}

#[test]
fn select_first_value_wins_once() {
    // Two futures: callbacks registered on both, the first completes.
    let word = AtomicState::new(2);
    let s0 = word.load(Ordering::Relaxed);
    let s1 = match word.inc_callbacks_registered_attempt(s0) {
        Ok(RegisterOutcome::Registered(s)) => s,
        other => panic!("unexpected outcome {:?}", other),
    };
    let s2 = match word.inc_callbacks_registered_attempt(s1) {
        Ok(RegisterOutcome::Registered(s)) => s,
        other => panic!("unexpected outcome {:?}", other),
    };
    assert_eq!(s2.callbacks_registered(), 2);
    let won = match word.try_win_attempt(s2, 0, false) {
        Ok(WinOutcome::Won { prev, next }) => {
            assert_eq!(prev, s2);
            next
        }
        other => panic!("unexpected outcome {:?}", other),
    };
    assert_eq!(won.selected(), 0);
    assert_eq!(word.try_win_attempt(won, 1, false), Ok(WinOutcome::Lost(won)));
    assert_eq!(word.inc_callbacks_registered_attempt(won), Ok(RegisterOutcome::Closed(won)));
    let left = match word.dec_remaining_attempt(1, won) {
        Ok(DecOutcome::Decremented(s)) => s,
        other => panic!("unexpected outcome {:?}", other),
    };
    assert_eq!(left.remaining(), 1);
    assert_eq!(word.dec_remaining_attempt(2, left), Ok(DecOutcome::Underflow(left)));
    // A stale word is handed back with the word found.
    assert_eq!(word.dec_remaining_attempt(1, won), Err(left));
}

#[test]
fn select_error_wins() {
    let word = AtomicState::new(2);
    let s = word.load(Ordering::Relaxed);
    match word.try_win_attempt(s, 1, true) {
        Ok(WinOutcome::Won { next, .. }) => {
            assert!(next.is_won());
            assert!(next.is_err());
            assert_eq!(next.remaining(), 2);
        }
        other => panic!("unexpected outcome {:?}", other),
    }
}

#[test]
fn select_values_hand_back_both() {
    let mut vals = (Some(Ok::<i32, ()>(123)), Some(Ok::<&str, ()>("x")));
    assert_eq!(vals.consume(), (Ok(123), Ok("x")));
    assert_eq!(vals, (None, None));
    let mut triple = (Some(Ok::<u8, ()>(1)), Some(Err::<u8, ()>(())), Some(()));
    assert_eq!(triple.consume(), (Ok(1), Err(()), ()));
}

#[test]
fn select_cancel_callbacks_of_losers() {
    // The value at 1 won after both callbacks were registered: the callback
    // on the value at 0 is taken back and its value returns to its slot.
    let mut vals: (Option<Result<i32, ()>>, Option<Result<i32, ()>>) = (None, None);
    let mut tokens = (Some(Some(Ok(5))), Some(None));
    assert_eq!(vals.cancel_callbacks(1, 2, &mut tokens), 1);
    assert_eq!(vals, (Some(Ok(5)), None));
    assert_eq!(tokens, (None, Some(None)));

    // Only one callback was registered before the win: the second slot is
    // left alone.
    let mut vals: (Option<Result<i32, ()>>, Option<Result<i32, ()>>, Option<()>) = (None, None, None);
    let mut tokens = (Some(None), Some(Some(Ok(7))), Some(Some(())));
    assert_eq!(vals.cancel_callbacks(2, 1, &mut tokens), 0);
    assert_eq!(vals, (None, None, None));
    assert_eq!(tokens, (None, Some(Some(Ok(7))), Some(Some(()))));
}

#[test]
fn select_ready_actions() {
    let s = State::new(2);
    let won = WinOutcome::Won { prev: s, next: s.as_won(0) };
    let won_err = WinOutcome::Won { prev: s, next: s.as_err() };
    assert_eq!(ready_action(won, false), ReadyAction::Stash);
    assert_eq!(ready_action(won_err, true), ReadyAction::Fail);
    assert_eq!(ready_action(WinOutcome::Lost(s.as_err()), false), ReadyAction::Ignore);
    assert_eq!(ready_action(WinOutcome::Lost(s.as_won(0)), true), ReadyAction::Stash);
    assert!(!selection_complete(s));
    assert!(selection_complete(s.dec_remaining(2)));
}
