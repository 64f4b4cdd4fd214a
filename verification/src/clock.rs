//! The current time, from the system clock, on the UTC calendar.

use chrono::Datelike;
use vstd::prelude::*;
use crate::calendar::{Moment, MonthDay};

verus! {

/// Reads the clock: `chrono::Utc::now`, with the timestamp, the year, the
/// month and the day of the month that chrono gives for it. Nothing is known
/// of the time itself; chrono numbers months from 1 to 12 and the days of a
/// month from 1 to 31, and that much is taken on trust. Chrono panics where
/// the system clock stands before 1970.
#[verifier::external_body]
pub(crate) fn utc_now() -> (now: Moment)
    ensures
        1 <= now.today.month <= 12,
        1 <= now.today.day <= 31,
{
    let at = chrono::Utc::now();
    Moment {
        unix_secs: at.timestamp(),
        year: at.year(),
        today: MonthDay { month: at.month(), day: at.day() },
    }
}

} // verus!
