//! Calendar rules for anniversary dates, which carry a month and a day but no year.

use vstd::prelude::*;

verus! {

/// The longest length a month can have in any year, for `month` in 1..=12.
pub open spec fn spec_days_in_month(month: int) -> int {
    if month == 2 {
        29
    } else if month == 4 || month == 6 || month == 9 || month == 11 {
        30
    } else {
        31
    }
}

/// Number of days an anniversary may name in `month`; February counts 29.
pub fn days_in_month(month: i64) -> (days: i64)
    requires
        1 <= month <= 12,
    ensures
        days == spec_days_in_month(month as int),
{
    if month == 2 {
        29
    } else if month == 4 || month == 6 || month == 9 || month == 11 {
        30
    } else {
        31
    }
}

/// A month and a day of the month, recurring every year.
#[derive(Clone, Copy, Debug, PartialEq, Eq, Structural)]
pub struct MonthDay {
    pub month: u32,
    pub day: u32,
}

/// Why a month and a day were refused as an anniversary.
#[derive(Clone, Copy, Debug, PartialEq, Eq, Structural)]
pub enum DateError {
    /// The month is not one of 1..=12.
    NotAMonth,
    /// The month is fine, but it never has that day.
    NotADay,
}

/// Whether `month` and `day` name a day that exists in at least one year.
pub open spec fn is_calendar_day(month: int, day: int) -> bool {
    1 <= month <= 12 && 1 <= day <= spec_days_in_month(month)
}

impl MonthDay {
    /// Whether this value names a day that exists in at least one year.
    pub open spec fn wf(self) -> bool {
        is_calendar_day(self.month as int, self.day as int)
    }

    /// Checks an anniversary as a user entered it. The month is checked first,
    /// so a bad month is reported even when the day is bad as well.
    pub fn new(month: i64, day: i64) -> (checked: Result<MonthDay, DateError>)
        ensures
            is_calendar_day(month as int, day as int) ==> checked == Ok::<MonthDay, DateError>(
                (MonthDay { month: month as u32, day: day as u32 }),
            ),
            !(1 <= month <= 12) ==> checked == Err::<MonthDay, DateError>(DateError::NotAMonth),
            1 <= month <= 12 && !is_calendar_day(month as int, day as int) ==> checked == Err::<
                MonthDay,
                DateError,
            >(DateError::NotADay),
            checked is Ok ==> checked->Ok_0.wf(),
    {
        if month < 1 || month > 12 {
            return Err(DateError::NotAMonth);
        }
        let longest = days_in_month(month);
        if day < 1 || day > longest {
            return Err(DateError::NotADay);
        }
        Ok(MonthDay { month: month as u32, day: day as u32 })
    }
}

/// A point in time as the reconciler sees it: seconds since the Unix epoch, and
/// the year and the day that moment falls on in the reference calendar (UTC).
#[derive(Clone, Copy, Debug, PartialEq, Eq, Structural)]
pub struct Moment {
    pub unix_secs: i64,
    pub year: i32,
    pub today: MonthDay,
}

/// Whether `year` has a twenty-ninth of February in the Gregorian calendar.
pub open spec fn spec_is_leap_year(year: int) -> bool {
    year % 4 == 0 && (year % 100 != 0 || year % 400 == 0)
}

/// Whether `year` has a twenty-ninth of February in the Gregorian calendar.
pub fn is_leap_year(year: i32) -> (leap: bool)
    ensures
        leap == spec_is_leap_year(year as int),
{
    year % 4 == 0 && (year % 100 != 0 || year % 400 == 0)
}

/// Whether the day `date` exists in `year`.
pub open spec fn spec_occurs_in(date: MonthDay, year: int) -> bool {
    date.wf() && (date.month == 2 && date.day == 29 ==> spec_is_leap_year(year))
}

/// Whether the day `date` exists in `year`: every calendar day does, but the
/// twenty-ninth of February only in a leap year.
pub fn occurs_in(date: &MonthDay, year: i32) -> (exists_there: bool)
    ensures
        exists_there == spec_occurs_in(*date, year as int),
{
    if date.month < 1 || date.month > 12 || date.day < 1 {
        return false;
    }
    let longest = days_in_month(date.month as i64);
    if date.day as i64 > longest {
        return false;
    }
    !(date.month == 2 && date.day == 29) || is_leap_year(year)
}

} // verus!
