//! Month-end resolution: the last valid day of a month, leap years included.

use crate::date::Date;
use crate::date::days_in_month;
use crate::date::month_length;
use vstd::prelude::*;

verus! {

/// The last calendar day of the given month of the given year: the 28th,
/// 29th, 30th or 31st, depending on the month and the leap-year rule.
pub fn month_end(year: i32, month: u32) -> (r: Date)
    requires
        1 <= month <= 12,
    ensures
        r.year == year,
        r.month == month,
        r.day == days_in_month(year as int, month as int),
        r.valid(),
{
    Date { year, month, day: month_length(year, month) }
}

} // verus!
