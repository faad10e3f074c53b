//! How long the control thread pauses.

use vstd::prelude::*;

verus! {

/// Length of the short pause, in milliseconds: between two looks at the clock
/// synchronisation, and before the link is checked again.
pub const TIME_SHORT: u64 = 1000;

/// A number of seconds in milliseconds; what does not fit in 64 bits is the
/// longest pause there is.
pub open spec fn millis_of(seconds: u64) -> u64 {
    if seconds * 1000 <= u64::MAX {
        (seconds * 1000) as u64
    } else {
        u64::MAX
    }
}

/// Converts the reporting interval to the length of the pause between two
/// cycles.
pub fn interval_millis(seconds: u64) -> (millis: u64)
    ensures
        millis == millis_of(seconds),
{
    match seconds.checked_mul(1000) {
        Some(millis) => millis,
        None => u64::MAX,
    }
}

} // verus!
