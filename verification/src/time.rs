//! Time as the library counts it: durations and instants in nanoseconds,
//! instants since the Unix epoch.

use vstd::prelude::*;

verus! {

/// The longest `std::time::Duration`, in nanoseconds: `u64::MAX` seconds
/// and 999,999,999 nanoseconds.
pub const MAX_DURATION_NANOS: u128 = 18446744073709551615999999999u128;

/// Nanoseconds in a second.
pub const NANOS_PER_SEC: u128 = 1000000000u128;

/// The time from `since` to `now`, or zero when `now` is earlier (what
/// `SystemTime::duration_since(..).unwrap_or_default()` gives).
pub open spec fn elapsed_spec(now: u128, since: u128) -> u128 {
    if now >= since {
        (now - since) as u128
    } else {
        0
    }
}

/// The time from `since` to `now`, or zero when `now` is earlier.
pub fn elapsed(now: u128, since: u128) -> (r: u128)
    ensures
        r == elapsed_spec(now, since),
{
    if now >= since {
        now - since
    } else {
        0
    }
}

/// The smaller of two durations.
pub open spec fn min_spec(a: u128, b: u128) -> u128 {
    if a <= b {
        a
    } else {
        b
    }
}

} // verus!
