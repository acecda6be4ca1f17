//! The time of day, read once per operation.

use crate::models::Timestamp;
use vstd::prelude::*;

verus! {

/// Seven days in seconds.
pub const SEVEN_DAYS: u64 = 604_800;

/// `chrono::Utc::now`, handed out as the seconds and nanoseconds that
/// `DateTime::timestamp` and `DateTime::timestamp_subsec_nanos` give. chrono
/// takes the time that has passed since the Unix epoch, so the seconds are
/// not negative and fit the `i64` that it returns; nothing else is known of
/// the result. chrono panics where the system clock stands before 1970.
#[verifier::external_body]
pub(crate) fn utc_now() -> (now: Timestamp)
    ensures
        now.secs <= i64::MAX,
{
    let now = chrono::Utc::now();
    Timestamp { secs: now.timestamp() as u64, nanos: now.timestamp_subsec_nanos() }
}

} // verus!
