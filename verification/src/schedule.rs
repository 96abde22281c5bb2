//! The reporting-hours policy: reports are only accepted during daytime
//! hours on New York weekdays. The timezone arithmetic itself is done by an
//! outside crate; the policy decision is verified on its plain result.

use chrono::{Datelike, Timelike};

use vstd::prelude::*;

verus! {

/// The New York local (weekday, hour) of a Unix timestamp, with the weekday
/// counted from Monday as 0. A function of the timestamp alone.
pub uninterp spec fn nyc_local_of(unix: u64) -> (u8, u8);

/// Relies on chrono's `DateTime::from_timestamp` and `with_timezone` with
/// chrono-tz's America/New_York table: converts a Unix timestamp to the New
/// York local weekday (counted from Monday, so below 7) and hour (below 24).
/// The result depends on the timestamp alone.
#[verifier::external_body]
fn nyc_local(unix: u64) -> (r: (u8, u8))
    ensures
        r == nyc_local_of(unix),
        r.0 <= 6,
        r.1 <= 23,
{
    match chrono::DateTime::from_timestamp(unix as i64, 0) {
        Some(dt) => {
            let local = dt.with_timezone(&chrono_tz::America::New_York);
            (local.weekday().num_days_from_monday() as u8, local.hour() as u8)
        },
        None => (0, 0),
    }
}

/// Reports are accepted Monday through Friday, from 7:00 through 18:59.
pub open spec fn reporting_hours_spec(weekday_from_monday: u8, hour: u8) -> bool {
    weekday_from_monday < 5 && 7 <= hour <= 18
}

/// Whether reports are accepted at this local weekday and hour: Monday
/// through Friday, from 7:00 through 18:59.
pub fn is_reporting_hours(weekday_from_monday: u8, hour: u8) -> (r: bool)
    ensures
        r == reporting_hours_spec(weekday_from_monday, hour),
{
    weekday_from_monday < 5 && 7 <= hour && hour <= 18
}

/// Whether reports are accepted at this Unix time: it must fall in the
/// reporting hours of the New York local clock.
pub fn reports_open_at(unix: u64) -> (r: bool)
    ensures
        r == reporting_hours_spec(nyc_local_of(unix).0, nyc_local_of(unix).1),
{
    let local = nyc_local(unix);
    is_reporting_hours(local.0, local.1)
}

} // verus!
