//! The 64-bit atomic word of `syncbox`, as the verified code calls it.
//!
//! Other threads change an atomic at any moment, so nothing is stated of the
//! value that a read returns: the callers decide on whatever comes back.

use vstd::prelude::*;
use std::sync::atomic::Ordering;

verus! {

/// `syncbox::atomic::AtomicU64`, a 64-bit word shared between threads.
#[verifier::external_type_specification]
#[verifier::external_body]
pub struct ExSyncboxAtomicU64(syncbox::atomic::AtomicU64);

/// Calls `syncbox::atomic::AtomicU64::new`, which makes a word holding `v`.
/// Nothing is stated of the result: what later reads give back depends on
/// the other threads.
#[verifier::external_body]
pub(crate) fn word_new(v: u64) -> syncbox::atomic::AtomicU64 {
    syncbox::atomic::AtomicU64::new(v)
}

/// Calls `syncbox::atomic::AtomicU64::load`, which reads with the std
/// `load` and so panics on the orderings `Release` and `AcqRel`: those are
/// ruled out. The value read depends on the other threads; nothing is stated
/// of it.
#[verifier::external_body]
pub(crate) fn word_load(word: &syncbox::atomic::AtomicU64, order: Ordering) -> u64
    requires
        !(order is Release),
        !(order is AcqRel),
{
    word.load(order)
}

/// Calls `syncbox::atomic::AtomicU64::compare_and_swap`, which stores `new`
/// when the word holds `old` and returns the value it held. That value
/// depends on the other threads; nothing is stated of it.
#[verifier::external_body]
pub(crate) fn word_compare_and_swap(
    word: &syncbox::atomic::AtomicU64,
    old: u64,
    new: u64,
    order: Ordering,
) -> u64 {
    word.compare_and_swap(old, new, order)
}

/// Calls `syncbox::atomic::AtomicU64::fetch_add`, which adds `v` and returns
/// the value held before. Where `usize` has 64 bits syncbox uses the std
/// atomic, which wraps; elsewhere it adds with `+` under a mutex, which
/// panics on overflow, so the call is admitted on 64-bit targets only. The
/// value returned depends on the other threads; nothing is stated of it.
#[verifier::external_body]
pub(crate) fn word_fetch_add(word: &syncbox::atomic::AtomicU64, v: u64, order: Ordering) -> u64
    requires
        usize::BITS == 64,
{
    word.fetch_add(v, order)
}

/// Calls `syncbox::atomic::AtomicU64::fetch_sub`, which subtracts `v` and
/// returns the value held before. Where `usize` has 64 bits syncbox uses the
/// std atomic, which wraps; elsewhere it subtracts with `-` under a mutex,
/// which panics on overflow, so the call is admitted on 64-bit targets only.
/// The value returned depends on the other threads; nothing is stated of it.
#[verifier::external_body]
pub(crate) fn word_fetch_sub(word: &syncbox::atomic::AtomicU64, v: u64, order: Ordering) -> u64
    requires
        usize::BITS == 64,
{
    word.fetch_sub(v, order)
}

} // verus!
