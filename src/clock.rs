//! Wall-clock time, counted in milliseconds since the Unix epoch, and the
//! whole seconds between two readings.

use vstd::prelude::*;

verus! {

/// Whole seconds from `last` to `now` (milliseconds); zero when the clock
/// did not move forward.
pub open spec fn elapsed_seconds(last: int, now: int) -> int {
    if now > last {
        (now - last) / 1000
    } else {
        0
    }
}

/// The whole seconds from `last` to `now`, both in milliseconds; zero when
/// `now` is not later than `last`.
pub fn seconds_between(last: i64, now: i64) -> (r: u64)
    ensures
        r == elapsed_seconds(last as int, now as int),
{
    if now > last {
        let diff: i128 = now as i128 - last as i128;
        (diff / 1000) as u64
    } else {
        0
    }
}

/// Relies on `chrono::Utc::now` and `DateTime::timestamp_millis`: the time
/// now, in milliseconds since the Unix epoch. Nothing is known of its value.
/// `Utc::now` panics only on a system clock set before 1970.
#[verifier::external_body]
pub(crate) fn now_millis() -> (r: i64) {
    chrono::Utc::now().timestamp_millis()
}

} // verus!
