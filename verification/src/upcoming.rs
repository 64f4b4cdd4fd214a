//! The next anniversary to come.
//!
//! Each saved anniversary falls on a date of this year or of the next, where
//! that date exists. The one to come next is the earliest such date after
//! today; of several anniversaries on that date, the one saved first.

use vstd::prelude::*;
use crate::calendar::{occurs_in, spec_occurs_in, Moment, MonthDay};
use crate::clock::utc_now;

verus! {

/// Whether the first date comes before the second.
pub open spec fn date_before(year: int, day: MonthDay, other_year: int, other_day: MonthDay) -> bool {
    year < other_year || (year == other_year && (day.month < other_day.month || (day.month
        == other_day.month && day.day < other_day.day)))
}

/// Whether `day` of `year` is an occurrence to look forward to on `today` of
/// `this_year`: a date of this year or the next that exists and lies after
/// today.
pub open spec fn is_ahead(day: MonthDay, year: int, this_year: int, today: MonthDay) -> bool {
    (year == this_year || year == this_year + 1) && spec_occurs_in(day, year) && date_before(
        this_year,
        today,
        year,
        day,
    )
}

/// Whether the anniversary at `at`, in `year`, is the next to come: it lies
/// ahead, nothing that lies ahead comes before it, and what falls on the same
/// date stands later in `days`.
pub open spec fn is_next(
    days: Seq<MonthDay>,
    this_year: int,
    today: MonthDay,
    at: int,
    year: int,
) -> bool {
    &&& 0 <= at < days.len()
    &&& is_ahead(days[at], year, this_year, today)
    &&& forall|j: int, y: int|
        0 <= j < days.len() && #[trigger] is_ahead(days[j], y, this_year, today) ==> !date_before(
            y,
            days[j],
            year,
            days[at],
        ) && (j < at ==> date_before(year, days[at], y, days[j]))
}

/// Whether any of `days` has an occurrence ahead.
pub open spec fn any_ahead(days: Seq<MonthDay>, this_year: int, today: MonthDay) -> bool {
    exists|j: int, y: int| 0 <= j < days.len() && #[trigger] is_ahead(days[j], y, this_year, today)
}

/// Whether the first date comes before the second.
fn comes_before(year: i32, day: &MonthDay, other_year: i32, other_day: &MonthDay) -> (before: bool)
    ensures
        before == date_before(year as int, *day, other_year as int, *other_day),
{
    year < other_year || (year == other_year && (day.month < other_day.month || (day.month
        == other_day.month && day.day < other_day.day)))
}

/// The year of the next occurrence of `day`: this year if the day exists in
/// it and is still to come, else next year if the day exists in that.
pub fn year_ahead(day: &MonthDay, this_year: i32, today: &MonthDay) -> (year: Option<i32>)
    requires
        this_year < i32::MAX,
    ensures
        year is Some ==> is_ahead(*day, year->Some_0 as int, this_year as int, *today),
        year is Some ==> forall|y: int| #[trigger]
            is_ahead(*day, y, this_year as int, *today) ==> year->Some_0 <= y,
        year is None ==> forall|y: int| !#[trigger] is_ahead(*day, y, this_year as int, *today),
{
    if occurs_in(day, this_year) && comes_before(this_year, today, this_year, day) {
        Some(this_year)
    } else if occurs_in(day, this_year + 1) {
        Some(this_year + 1)
    } else {
        None
    }
}

/// Finds the anniversary that comes next after `today` of `this_year`: its
/// place in `days` and the year it falls in. There is none where no day of
/// `days` exists after today in this year or the next.
pub fn next_occurrence(days: &Vec<MonthDay>, this_year: i32, today: &MonthDay) -> (found: Option<
    (usize, i32),
>)
    requires
        this_year < i32::MAX,
    ensures
        found is Some ==> is_next(
            days@,
            this_year as int,
            *today,
            found->Some_0.0 as int,
            found->Some_0.1 as int,
        ),
        found is None <==> !any_ahead(days@, this_year as int, *today),
{
    let mut best: Option<(usize, i32)> = None;
    let mut i: usize = 0;
    while i < days.len()
        invariant
            i <= days.len(),
            this_year < i32::MAX,
            best is Some ==> best->Some_0.0 < i && is_next(
                days@.take(i as int),
                this_year as int,
                *today,
                best->Some_0.0 as int,
                best->Some_0.1 as int,
            ),
            best is None ==> !any_ahead(days@.take(i as int), this_year as int, *today),
        decreases days.len() - i,
    {
        let ghost seen = days@.take(i as int);
        let ghost more = days@.take(i + 1);
        assert(forall|j: int| 0 <= j < i ==> more[j] == seen[j]);
        assert(more[i as int] == days@[i as int]);
        let candidate = year_ahead(&days[i], this_year, today);
        match candidate {
            Some(year) => {
                let better = match best {
                    None => true,
                    Some((at, best_year)) => comes_before(year, &days[i], best_year, &days[at]),
                };
                if better {
                    proof {
                        if best is None {
                            assert forall|j: int, y: int|
                                0 <= j < more.len() && #[trigger] is_ahead(
                                    more[j],
                                    y,
                                    this_year as int,
                                    *today,
                                ) implies j == i by {
                                if j < i {
                                    assert(is_ahead(seen[j], y, this_year as int, *today));
                                }
                            }
                        }
                    }
                    best = Some((i, year));
                }
            },
            None => {},
        }
        proof {
            if best is None {
                assert forall|j: int, y: int| 0 <= j < more.len() implies !#[trigger] is_ahead(
                    more[j],
                    y,
                    this_year as int,
                    *today,
                ) by {
                    if j < i {
                        assert(more[j] == seen[j]);
                        if is_ahead(seen[j], y, this_year as int, *today) {
                            assert(any_ahead(seen, this_year as int, *today));
                        }
                    }
                }
            }
        }
        i = i + 1;
    }
    assert(days@.take(i as int) =~= days@);
    best
}

/// Finds the anniversary that comes next after the current day. The clock
/// decides which day that is, and the moment is returned. There is none in
/// the last year that can be counted, which has no year after it.
pub fn next_occurrence_now(days: &Vec<MonthDay>) -> (found: (Moment, Option<(usize, i32)>))
    ensures
        found.1 is Some ==> found.0.year < i32::MAX && is_next(
            days@,
            found.0.year as int,
            found.0.today,
            found.1->Some_0.0 as int,
            found.1->Some_0.1 as int,
        ),
        found.1 is None <==> found.0.year == i32::MAX || !any_ahead(
            days@,
            found.0.year as int,
            found.0.today,
        ),
{
    let now = utc_now();
    if now.year < i32::MAX {
        (now, next_occurrence(days, now.year, &now.today))
    } else {
        (now, None)
    }
}

} // verus!
