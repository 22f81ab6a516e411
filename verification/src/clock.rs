//! The one reading the library takes from the outside world: the
//! current UTC time, from the `chrono` crate.

use vstd::prelude::*;
use chrono::Datelike;
use chrono::Timelike;
use crate::timestamp::UtcTime;

verus! {

/// Relies on `chrono::Utc::now` and the `Datelike`/`Timelike`
/// accessors: the month is 1 to 12, the day 1 to 31, the hour 0 to 23,
/// the minute and the second 0 to 59. Nothing is assumed of the year:
/// two calls may return anything the clock shows.
#[verifier::external_body]
fn now_utc() -> (r: UtcTime)
    ensures
        1 <= r.month <= 12,
        1 <= r.day <= 31,
        r.hour <= 23,
        r.minute <= 59,
        r.second <= 59,
{
    let n = chrono::Utc::now();
    UtcTime {
        year: n.year(),
        month: n.month(),
        day: n.day(),
        hour: n.hour(),
        minute: n.minute(),
        second: n.second(),
    }
}

/// Keep a clock reading only when its year fits the four digits of
/// the compact timestamp: such a reading passes through unchanged,
/// any other is dropped.
pub fn vet_time(t: UtcTime) -> (r: Option<UtcTime>)
    ensures
        0 <= t.year <= 9999 ==> r == Some(t),
        !(0 <= t.year <= 9999) ==> r is None,
{
    if 0 <= t.year && t.year <= 9999 {
        Some(t)
    } else {
        None
    }
}

/// The current UTC time, vetted: a reading whose year fits the four
/// digits of the compact timestamp is returned as the clock gave it;
/// a reading outside that range yields nothing.
pub fn checked_now() -> (r: Option<UtcTime>)
    ensures
        r matches Some(t) ==> t.wf(),
{
    let t = now_utc();
    vet_time(t)
}

} // verus!
