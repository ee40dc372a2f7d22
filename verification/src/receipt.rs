//! The token that `ready` returns: the core a consumer callback was
//! registered on and the registration's number, with which the callback can
//! be taken back while it is pending.

use vstd::prelude::*;

verus! {

/// A registration of a consumer callback on the core `C`.
pub struct Receipt<C> {
    core: Option<C>,
    count: u64,
}

impl<C> Receipt<C> {
    /// The core the callback was registered on, if any.
    pub closed spec fn handle(&self) -> Option<C> {
        self.core
    }

    /// The number of the registration.
    pub closed spec fn number(&self) -> u64 {
        self.count
    }
}

/// The receipt of registration number `count` on `core`.
pub fn new<C>(core: C, count: u64) -> (r: Receipt<C>)
    ensures
        r.handle() == Some(core),
        r.number() == count,
{
    Receipt { core: Some(core), count: count }
}

/// The receipt of a callback that ran at once: nothing to take back.
pub fn none<C>() -> (r: Receipt<C>)
    ensures
        r.handle() is None,
        r.number() == 0,
{
    Receipt { core: None, count: 0 }
}

/// The core and the registration number of a receipt.
pub fn parts<C>(receipt: Receipt<C>) -> (r: (Option<C>, u64))
    ensures
        r == (receipt.handle(), receipt.number()),
{
    (receipt.core, receipt.count)
}

} // verus!
