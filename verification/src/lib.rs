//! Composable primitives for asynchronous computations.
//!
//! The library keeps the decisions of a lock-free future / stream core in
//! verified form: the packed lifecycle word of a core and every transition
//! that the core performs on it, the selection word of `select`, the lock
//! words of `process`, the send state of `sequence`, and the staging areas
//! of `join`.

use vstd::prelude::*;

pub mod atomic;
pub mod core_atomic;
pub mod core_protocol;
pub mod core_state;
pub mod join;
pub mod process;
pub mod receipt;
pub mod select;
pub mod select_state;
pub mod sequence;
pub mod timer;


verus! {

/// The realized result of an asynchronous computation.
pub type AsyncResult<T, E> = Result<T, AsyncError<E>>;

/// Why an asynchronous computation produced no value.
#[derive(Debug, PartialEq, Eq)]
pub enum AsyncError<E> {
    /// The computation failed with an error.
    Failed(E),
    /// The computation was dropped before producing a result.
    Aborted,
}

impl<E> AsyncError<E> {
    /// An error carrying the failure `err`.
    pub fn failed(err: E) -> (r: AsyncError<E>)
        ensures
            r == AsyncError::Failed(err),
    {
        AsyncError::Failed(err)
    }

    /// The cancellation error.
    pub fn aborted() -> (r: AsyncError<E>)
        ensures
            r == AsyncError::<E>::Aborted,
    {
        AsyncError::Aborted
    }

    /// True exactly for the cancellation error.
    pub fn is_aborted(&self) -> (b: bool)
        ensures
            b == (*self is Aborted),
    {
        match *self {
            AsyncError::Aborted => true,
            _ => false,
        }
    }

    /// True exactly for an execution failure.
    pub fn is_failed(&self) -> (b: bool)
        ensures
            b == (*self is Failed),
    {
        match *self {
            AsyncError::Failed(..) => true,
            _ => false,
        }
    }

    /// The failure carried by the error; a cancellation error has none.
    pub fn unwrap(self) -> (e: E)
        requires
            self is Failed,
        ensures
            self == AsyncError::Failed(e),
    {
        match self {
            AsyncError::Failed(err) => err,
            AsyncError::Aborted => vstd::pervasive::unreached(),
        }
    }

    /// The failure carried by the error, if there is one.
    pub fn take(self) -> (r: Option<E>)
        ensures
            r == (match self {
                AsyncError::Failed(e) => Some(e),
                AsyncError::Aborted => None,
            }),
    {
        match self {
            AsyncError::Failed(err) => Some(err),
            _ => None,
        }
    }
}

/// The outcome that a ready `Result` stands for.
pub open spec fn result_outcome<T, E>(r: Result<T, E>) -> AsyncResult<T, E> {
    match r {
        Ok(v) => Ok(v),
        Err(e) => Err(AsyncError::Failed(e)),
    }
}

/// A value representing an asynchronous computation.
pub trait Async: Send + 'static + Sized {
    type Value: Send + 'static;
    type Error: Send + 'static;
    type Cancel: Cancel<Self>;

    /// Whether the computation has realized a result.
    spec fn ready_state(&self) -> bool;

    /// Whether the computation has realized a failure.
    spec fn failed_state(&self) -> bool;

    /// The realized result, meaningful when `ready_state` holds.
    spec fn outcome(&self) -> AsyncResult<Self::Value, Self::Error>;

    /// Returns true if `expect` will succeed.
    fn is_ready(&self) -> (b: bool)
        ensures
            b == self.ready_state(),
    ;

    /// Returns true if the async value is ready and has failed.
    fn is_err(&self) -> (b: bool)
        ensures
            b == self.failed_state(),
            b ==> self.ready_state(),
    ;

    /// The realized result if there is one, else the value itself back.
    fn poll(self) -> (r: Result<AsyncResult<Self::Value, Self::Error>, Self>)
        ensures
            self.ready_state() ==> r == Ok::<AsyncResult<Self::Value, Self::Error>, Self>(
                self.outcome(),
            ),
            !self.ready_state() ==> r is Err,
    ;

    /// The realized result; the value must be ready.
    fn expect(self) -> (r: AsyncResult<Self::Value, Self::Error>)
        requires
            self.ready_state(),
        ensures
            r == self.outcome(),
    {
        match self.poll() {
            Ok(v) => v,
            Err(_) => vstd::pervasive::unreached(),
        }
    }

    /// Invokes `f` once the value is ready to be consumed; the returned token
    /// may take the callback back while it has not run.
    fn ready<F: FnOnce(Self) + Send + 'static>(self, f: F) -> (c: Self::Cancel)
        requires
            forall|a: Self| a.ready_state() ==> #[trigger] f.requires((a,)),
    ;

    /// Invokes `f` with the realized result once the value is ready.
    fn receive<F: FnOnce(AsyncResult<Self::Value, Self::Error>) + Send + 'static>(self, f: F)
        requires
            forall|r: AsyncResult<Self::Value, Self::Error>| #[trigger] f.requires((r,)),
    {
        let callback = move |a: Self|
            requires
                a.ready_state(),
                forall|r: AsyncResult<Self::Value, Self::Error>| #[trigger] f.requires((r,)),
            {
                match a.poll() {
                    Ok(res) => f(res),
                    Err(_) => vstd::pervasive::unreached(),
                }
            };
        let _ = self.ready(callback);
    }

    /// Triggers the computation without waiting for the result.
    fn fire(self) {
        self.receive(|_r: AsyncResult<Self::Value, Self::Error>| {});
    }
}

/// Takes a pending callback back.
pub trait Cancel<A>: Send + 'static + Sized {
    fn cancel(self) -> Option<A>;
}

/// A value created together with its producing half.
pub trait Pair: Sized {
    type Tx;

    fn pair() -> (Self::Tx, Self);
}

/// A `Result` is an asynchronous value that is ready from the start.
impl<T: Send + 'static, E: Send + 'static> Async for Result<T, E> {
    type Value = T;
    type Error = E;
    type Cancel = Option<Result<T, E>>;

    open spec fn ready_state(&self) -> bool {
        true
    }

    open spec fn failed_state(&self) -> bool {
        *self is Err
    }

    open spec fn outcome(&self) -> AsyncResult<T, E> {
        result_outcome(*self)
    }

    fn is_ready(&self) -> (b: bool) {
        true
    }

    fn is_err(&self) -> (b: bool) {
        match self {
            Ok(_) => false,
            Err(_) => true,
        }
    }

    fn poll(self) -> (r: Result<AsyncResult<T, E>, Result<T, E>>) {
        match self {
            Ok(v) => Ok(Ok(v)),
            Err(e) => Ok(Err(AsyncError::Failed(e))),
        }
    }

    fn ready<F: FnOnce(Result<T, E>) + Send + 'static>(self, f: F) -> (c: Option<Result<T, E>>)
        ensures
            c is None,
            f.ensures((self,), ()),
    {
        f(self);
        None
    }
}

/// The unit value is an asynchronous value that succeeds at once.
impl Async for () {
    type Value = ();
    type Error = ();
    type Cancel = Option<()>;

    open spec fn ready_state(&self) -> bool {
        true
    }

    open spec fn failed_state(&self) -> bool {
        false
    }

    open spec fn outcome(&self) -> AsyncResult<(), ()> {
        Ok(())
    }

    fn is_ready(&self) -> (b: bool) {
        true
    }

    fn is_err(&self) -> (b: bool) {
        false
    }

    fn poll(self) -> (r: Result<AsyncResult<(), ()>, ()>) {
        Ok(Ok(self))
    }

    fn ready<F: FnOnce(()) + Send + 'static>(self, f: F) -> (c: Option<()>)
        ensures
            c is None,
            f.ensures((self,), ()),
    {
        f(self);
        None
    }
}

/// An `Option` cancels by handing back what it holds.
impl<A: Send + 'static> Cancel<A> for Option<A> {
    fn cancel(self) -> (r: Option<A>)
        ensures
            r == self,
    {
        self
    }
}

} // verus!
