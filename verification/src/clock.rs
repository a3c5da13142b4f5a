//! The wall clock, as whole seconds since the Unix epoch.

use vstd::prelude::*;

verus! {

/// Whether chrono can represent the instant `secs` seconds from the Unix
/// epoch: it lies between the first second of the year 262144 BCE and the
/// last second of the year 262142 CE.
pub open spec fn timestamp_representable(secs: i64) -> bool {
    -8_334_601_228_800 <= secs <= 8_210_266_876_799
}

/// The current time in seconds since the Unix epoch.
///
/// Trusted: `chrono::Utc::now` and `DateTime::timestamp`. The value depends
/// on the machine's clock, so nothing is claimed of it.
#[verifier::external_body]
pub(crate) fn unix_now() -> i64 {
    chrono::Utc::now().timestamp()
}

/// Trusted: `chrono::DateTime::from_timestamp`, which returns `None` for a
/// number of seconds outside the range of dates that chrono represents,
/// from `NaiveDate::MIN` at midnight to the last second of
/// `NaiveDate::MAX`.
#[verifier::external_body]
pub(crate) fn representable(secs: i64) -> (r: bool)
    ensures
        r == timestamp_representable(secs),
{
    chrono::DateTime::from_timestamp(secs, 0).is_some()
}

} // verus!
