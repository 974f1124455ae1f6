//! The calendar-unit addition engine: day, week, biweek, month, quarter and
//! year shifts over [`Date`] values.

use crate::date::Date;
use crate::date::days_in_month;
use crate::date::month_length;
use crate::util::month_end;
use vstd::prelude::*;

verus! {

/// The year after adding `n` months with a single year rollover: the year
/// advances exactly when the raw month total passes December.
pub open spec fn months_target_year(year: int, month: int, n: int) -> int {
    if month + n > 12 {
        year + 1
    } else {
        year
    }
}

/// The month after adding `n` months with a single wrap past December.
pub open spec fn months_target_month(month: int, n: int) -> int {
    if month + n > 12 {
        month + n - 12
    } else {
        month + n
    }
}

/// The day of the month-addition result: the last day of the target month
/// when the input is the last day of its own month, otherwise the input day
/// clamped to the target month's length.
pub open spec fn months_result_day(year: int, month: int, day: int, n: int) -> int {
    let target_len = days_in_month(months_target_year(year, month, n), months_target_month(month, n));
    if day == days_in_month(year, month) {
        target_len
    } else if day <= target_len {
        day
    } else {
        target_len
    }
}

/// Add a month duration to the current date
///
/// This function adds whole calendar months, it does not add 30 days or
/// 31 days. The raw month total wraps past December at most once, so the
/// months to add must not carry the raw total past a second December.
///
/// The behavior for end of month works as follows: if the current date is
/// the last day of its month, the result is the last day of the target
/// month; otherwise the day of month is kept, clamped to the length of the
/// target month.
pub fn add_months_duration(date: Date, months_to_add: u32) -> (r: Date)
    requires
        date.valid(),
        date.month + months_to_add <= 24,
        date.month + months_to_add > 12 ==> date.year < i32::MAX,
    ensures
        r.valid(),
        r.year == months_target_year(date.year as int, date.month as int, months_to_add as int),
        r.month == months_target_month(date.month as int, months_to_add as int),
        r.day == months_result_day(
            date.year as int,
            date.month as int,
            date.day as int,
            months_to_add as int,
        ),
        date.day == days_in_month(date.year as int, date.month as int) ==> r.day
            == days_in_month(r.year as int, r.month as int),
        date.day != days_in_month(date.year as int, date.month as int) && date.day
            <= days_in_month(r.year as int, r.month as int) ==> r.day == date.day,
{
    let mut month = date.month;
    let mut year = date.year;
    let month_delta = month + months_to_add;

    if month_delta > 12 {
        year = year + 1;
        month = month_delta - 12;
    } else {
        month = month_delta;
    }

    let date_end_of_month = month_end(date.year, date.month);
    let target_len = month_length(year, month);
    let day = if date_end_of_month.day == date.day {
        // the current date is the last date of the month, so the result must
        // be the last date of the target month as well
        target_len
    } else {
        // keep the day of month, clamped so that it cannot exceed the end of
        // the target month
        if date.day < target_len {
            date.day
        } else {
            target_len
        }
    };
    Date { year, month, day }
}

/// Add months duration to the current date
///
/// This function adds one month, it does not add 30 days or 31 days.
///
/// Given the nature of the gregorian calendar the day is clamped so that
/// adding a month cannot exceed the calendar days of the next month: a month
/// after the 31st of January the highest available day is the 28th or 29th
/// of February.
pub fn add_month_duration(date: Date) -> (r: Date)
    requires
        date.valid(),
        date.month == 12 ==> date.year < i32::MAX,
    ensures
        r.valid(),
        r.year == months_target_year(date.year as int, date.month as int, 1),
        r.month == months_target_month(date.month as int, 1),
        r.day == months_result_day(date.year as int, date.month as int, date.day as int, 1),
{
    add_months_duration(date, 1)
}

/// Add a quarter to the date supplied
///
/// A quarter refers to one-fourth of a year. If the current date falls in
/// the last quarter of the year, this shifts to the first quarter of the
/// next year.
///
/// The day of month is carried over unchanged, never clamped, so the day
/// must exist in the target month: three months after the 31st of January
/// there is no 31st of April, and such an input is outside this function's
/// contract.
pub fn add_quarter_duration(date: Date) -> (r: Date)
    requires
        date.valid(),
        date.month >= 10 ==> date.year < i32::MAX,
        date.month < 10 ==> date.day <= days_in_month(date.year as int, date.month + 3),
    ensures
        r.valid(),
        r.year == (if date.month >= 10 {
            date.year + 1
        } else {
            date.year as int
        }),
        r.month == (if date.month >= 10 {
            1int
        } else {
            date.month + 3
        }),
        r.day == date.day,
{
    if date.month >= 10 {
        Date { year: date.year + 1, month: 1, day: date.day }
    } else {
        Date { year: date.year, month: date.month + 3, day: date.day }
    }
}

/// Adds a year to the current date
///
/// The month and day are held fixed, so the day must exist in that month of
/// the next year: a year after the 29th of February lands outside this
/// function's contract, since the next year is never a leap year.
pub fn add_year_duration(date: Date) -> (r: Date)
    requires
        date.valid(),
        date.year < i32::MAX,
        date.day <= days_in_month(date.year + 1, date.month as int),
    ensures
        r.valid(),
        r.year == date.year + 1,
        r.month == date.month,
        r.day == date.day,
{
    Date { year: date.year + 1, month: date.month, day: date.day }
}

/// Add a week
///
/// Simple enough
pub fn add_week_duration(date: Date) -> (r: Date)
    requires
        date.valid(),
        date.year < i32::MAX,
    ensures
        r == date.plus_days(7),
        r.valid(),
{
    date.add_days(7)
}

/// Add a biweek
///
/// Adds two weeks
pub fn add_biweek_duration(date: Date) -> (r: Date)
    requires
        date.valid(),
        date.year < i32::MAX,
    ensures
        r == date.plus_days(14),
        r.valid(),
{
    date.add_days(14)
}

/// Add a day
pub fn add_day(date: Date) -> (r: Date)
    requires
        date.valid(),
        date.year < i32::MAX,
    ensures
        r == date.plus_days(1),
        r == date.succ_date(),
        r.valid(),
{
    let r = date.add_days(1);
    proof {
        assert(date.plus_days(0) == date);
        assert(date.plus_days(1) == date.succ_date());
    }
    r
}

} // verus!
