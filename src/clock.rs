//! The wall clock.

use vstd::prelude::*;

verus! {

/// Relies on `std::time::SystemTime::now`, `From<SystemTime> for
/// DateTime<Utc>` and `DateTime::timestamp_millis` (chrono): the current UTC
/// time in milliseconds since the Unix epoch, negative for a clock set before
/// 1970. Nothing is promised of the value. The conversion unwraps only for an
/// instant outside chrono's range of about 262,000 years either side of the
/// epoch.
#[verifier::external_body]
pub(crate) fn now_millis() -> i64 {
    chrono::DateTime::<chrono::Utc>::from(std::time::SystemTime::now()).timestamp_millis()
}

} // verus!
