use eventual::{Async, AsyncError, Cancel};
use std::sync::mpsc::channel;

#[test]
fn async_error_constructors_and_predicates() {
    let f: AsyncError<&str> = AsyncError::failed("nope");
    let a: AsyncError<&str> = AsyncError::aborted();
    assert_eq!(f, AsyncError::Failed("nope"));
    assert_eq!(a, AsyncError::Aborted);
    assert!(f.is_failed());
    assert!(!f.is_aborted());
    assert!(a.is_aborted());
    assert!(!a.is_failed());
}

#[test]
fn async_error_unwrap_and_take() {
    assert_eq!(AsyncError::failed(123).unwrap(), 123);
    assert_eq!(AsyncError::failed(123).take(), Some(123));
    assert_eq!(AsyncError::<i32>::aborted().take(), None);
}

#[test]
fn result_is_ready_async_value() {
    let ok: Result<i32, &str> = Ok(1337);
    let err: Result<i32, &str> = Err("failed");
    assert!(ok.is_ready());
    assert!(!Async::is_err(&ok));
    assert!(Async::is_err(&err));
    assert_eq!(Async::expect(ok), Ok(1337));
    assert_eq!(Async::expect(err), Err(AsyncError::Failed("failed")));
    match Async::poll(Ok::<i32, ()>(5)) {
        Ok(r) => assert_eq!(r, Ok(5)),
        Err(_) => panic!("a result is always ready"),
    }
}

#[test]
fn unit_is_ready_async_value() {
    assert!(().is_ready());
    assert!(!Async::is_err(&()));
    assert_eq!(().expect(), Ok(()));
}

#[test]
fn result_ready_runs_callback_at_once() {
    let (tx, rx) = channel();
    let cancel = Ok::<i32, ()>(7).ready(move |r| tx.send(r).unwrap());
    assert_eq!(rx.try_recv().unwrap(), Ok(7));
    assert!(cancel.cancel().is_none());
}

#[test]
fn receive_hands_over_realized_result() {
    let (tx, rx) = channel();
    Err::<i32, &str>("nope").receive(move |r| tx.send(r).unwrap());
    assert_eq!(rx.try_recv().unwrap(), Err(AsyncError::Failed("nope")));
    ().fire();
}

#[test]
fn option_cancel_hands_back_value() {
    assert_eq!(Some(3).cancel(), Some(3));
    assert_eq!(None::<i32>.cancel(), None);
}
