//! Points in time as milliseconds since the Unix epoch.
use vstd::prelude::*;

use std::time::{Duration, SystemTime, UNIX_EPOCH};

verus! {

#[verifier::external_type_specification]
#[verifier::external_body]
pub struct ExSystemTime(std::time::SystemTime);

/// The last millisecond of the year 9999, the latest moment that a date can
/// be written for.
pub const MAX_DATE_MILLIS: u64 = 253402300799999;

/// The date and time, in UTC, `ms` milliseconds after the Unix epoch, as the
/// `time` crate writes it.
pub uninterp spec fn datetime_text(ms: nat) -> Seq<char>;

/// Relies on `SystemTime::duration_since` and `Duration::as_millis`: the
/// milliseconds from the Unix epoch to `t`, or `None` for a moment before it.
#[verifier::external_body]
pub fn time2millis(t: SystemTime) -> (r: Option<u128>) {
    t.duration_since(UNIX_EPOCH).ok().map(|d| d.as_millis())
}

/// Relies on `SystemTime + Duration`: the moment `m` milliseconds after the
/// Unix epoch, which a `SystemTime` on this platform can always hold.
#[verifier::external_body]
pub fn millis2time(m: u64) -> (r: SystemTime) {
    UNIX_EPOCH + Duration::from_millis(m)
}

/// Relies on `time::OffsetDateTime::from(SystemTime)` and its `Display`: the
/// date and time of a moment, which depend on `m` alone; beyond the year 9999
/// the `time` crate panics, so those moments are left out.
#[verifier::external_body]
pub fn millis2string(m: u64) -> (r: String)
    requires
        m <= MAX_DATE_MILLIS,
    ensures
        r@ == datetime_text(m as nat),
{
    let t: time::OffsetDateTime = (UNIX_EPOCH + Duration::from_millis(m)).into();
    format!("{t}")
}

/// The date and time of `st`, for moments from the Unix epoch to the end
/// of the year 9999; `None` for others.
pub fn time2string(st: SystemTime) -> (r: Option<String>) {
    match time2millis(st) {
        Some(m) => if m <= MAX_DATE_MILLIS as u128 {
            Some(millis2string(m as u64))
        } else {
            None
        },
        None => None,
    }
}

/// Relies on `SystemTime::now`: the milliseconds from the Unix epoch to now,
/// or 0 where the clock stands before the epoch.
#[verifier::external_body]
pub fn current_millis() -> (r: u128) {
    SystemTime::now().duration_since(UNIX_EPOCH).map(|d| d.as_millis()).unwrap_or(0)
}

} // verus!
