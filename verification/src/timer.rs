//! The arithmetic of the timer: durations in whole milliseconds and the
//! delay still to wait before a timeout fires.

use vstd::prelude::*;

verus! {

/// The whole milliseconds of a duration of `secs` seconds and `nanos`
/// nanoseconds, with the seconds taken modulo 2^32 as a `u32`.
pub open spec fn spec_millis(secs: u64, nanos: u32) -> int {
    (secs as u32) * 1000 + nanos / 1_000_000
}

/// The whole milliseconds of a duration, as the timer counts them.
pub fn millis(secs: u64, nanos: u32) -> (ms: u32)
    requires
        spec_millis(secs, nanos) <= u32::MAX,
    ensures
        ms == spec_millis(secs, nanos),
{
    let s: u32 = secs as u32;
    s * 1000 + nanos / 1_000_000
}

/// How long a timeout of `ms` milliseconds still has to wait after
/// `elapsed_ms` have passed: `None` when it is due now.
pub fn remaining_ms(ms: u32, elapsed_ms: u32) -> (r: Option<u32>)
    ensures
        r is None <==> elapsed_ms >= ms,
        r matches Some(d) ==> d + elapsed_ms == ms && d > 0,
{
    if elapsed_ms >= ms {
        None
    } else {
        Some(ms - elapsed_ms)
    }
}

} // verus!
