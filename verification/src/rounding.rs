//! Conversion of accumulated active seconds into reported minutes.

use vstd::prelude::*;

verus! {

/// Seconds in one minute.
pub const SECONDS_PER_MINUTE: u64 = 60;

/// Remainder, in seconds, from which a partial minute is counted as a whole one.
pub const ROUND_UP_FROM: u64 = 30;

/// Whole minutes contained in `seconds`.
pub open spec fn whole_minutes(seconds: nat) -> nat {
    seconds / (SECONDS_PER_MINUTE as nat)
}

/// `seconds` rounded to the nearest minute, a remainder of exactly half a minute going up.
pub open spec fn rounded_minutes(seconds: nat) -> nat {
    if seconds % (SECONDS_PER_MINUTE as nat) >= ROUND_UP_FROM {
        whole_minutes(seconds) + 1
    } else {
        whole_minutes(seconds)
    }
}

/// Minutes carried by a progress notification: the whole minutes played so far.
pub fn elapsed_minutes(seconds: u64) -> (minutes: u64)
    ensures
        minutes == whole_minutes(seconds as nat),
{
    seconds / SECONDS_PER_MINUTE
}

/// Minutes reported when a session ends: nearest minute, half up.
pub fn final_minutes(seconds: u64) -> (minutes: u64)
    ensures
        minutes == rounded_minutes(seconds as nat),
{
    let total: u64 = seconds / SECONDS_PER_MINUTE;
    let remainder: u64 = seconds % SECONDS_PER_MINUTE;
    if remainder >= ROUND_UP_FROM {
        total + 1
    } else {
        total
    }
}

} // verus!
