//! The calendar-date value and its basic facts: leap years, month lengths,
//! validity, ordering, and single-day stepping.

use vstd::prelude::*;

verus! {

/// A proleptic Gregorian calendar date, held as plain year, month and day
/// components. A meaningful value satisfies [`Date::valid`].
#[derive(Clone, Copy, PartialEq, Eq, Structural, Debug)]
pub struct Date {
    pub year: i32,
    pub month: u32,
    pub day: u32,
}

/// Whether `year` is a leap year of the proleptic Gregorian calendar:
/// divisible by 4, except century years, which must be divisible by 400.
pub open spec fn is_leap_year(year: int) -> bool {
    (year % 4 == 0 && year % 100 != 0) || year % 400 == 0
}

/// The number of days in the given month of the given year. Meaningful for
/// `1 <= month <= 12`; months outside that range fall into the 31-day arm.
pub open spec fn days_in_month(year: int, month: int) -> int {
    if month == 2 {
        if is_leap_year(year) {
            29
        } else {
            28
        }
    } else if month == 4 || month == 6 || month == 9 || month == 11 {
        30
    } else {
        31
    }
}

/// Shifting a year by this amount keeps every `i32` year nonnegative without
/// disturbing divisibility by 4, 100 or 400 (the shift is a multiple of all
/// three), which lets the executable leap-year test work on unsigned values.
const YEAR_SHIFT: i64 = 2_147_484_000;

/// Decide whether `year` is a leap year.
pub fn leap_year(year: i32) -> (r: bool)
    ensures
        r == is_leap_year(year as int),
{
    let shifted: u64 = (year as i64 + YEAR_SHIFT) as u64;
    proof {
        vstd::arithmetic::div_mod::lemma_mod_multiples_vanish(-536_871_000, shifted as int, 4);
        vstd::arithmetic::div_mod::lemma_mod_multiples_vanish(-21_474_840, shifted as int, 100);
        vstd::arithmetic::div_mod::lemma_mod_multiples_vanish(-5_368_710, shifted as int, 400);
    }
    (shifted % 4 == 0 && shifted % 100 != 0) || shifted % 400 == 0
}

/// The number of days in the given month, as an executable value.
pub fn month_length(year: i32, month: u32) -> (r: u32)
    requires
        1 <= month <= 12,
    ensures
        r == days_in_month(year as int, month as int),
{
    if month == 2 {
        if leap_year(year) {
            29
        } else {
            28
        }
    } else if month == 4 || month == 6 || month == 9 || month == 11 {
        30
    } else {
        31
    }
}

impl Date {
    /// A valid calendar date: the month exists and the day exists within
    /// that month of that year.
    pub open spec fn valid(self) -> bool {
        &&& 1 <= self.month <= 12
        &&& 1 <= self.day <= days_in_month(self.year as int, self.month as int)
    }

    /// The date `n` calendar days after `self`.
    pub open spec fn plus_days(self, n: nat) -> Date
        decreases n,
    {
        if n == 0 {
            self
        } else {
            self.plus_days((n - 1) as nat).succ_date()
        }
    }

    /// Step `self` forward by `n` calendar days. The bounds on `n` and on the
    /// year keep the walk inside the representable range: at most one year
    /// rollover can happen, into January of the following year.
    pub fn add_days(self, n: u32) -> (r: Date)
        requires
            self.valid(),
            self.year < i32::MAX,
            n <= 28,
        ensures
            r == self.plus_days(n as nat),
            r.valid(),
    {
        let mut cur = self;
        let mut i: u32 = 0;
        while i < n
            invariant
                i <= n,
                n <= 28,
                self.valid(),
                self.year < i32::MAX,
                cur == self.plus_days(i as nat),
                cur.valid(),
                cur.year <= self.year + 1,
                cur.year == self.year + 1 ==> cur.month == 1 && cur.day <= i,
            decreases n - i,
        {
            let next = cur.succ_opt();
            cur = next.unwrap();
            i = i + 1;
        }
        cur
    }

    /// Build a date from components known to form a valid calendar date.
    pub fn from_ymd(year: i32, month: u32, day: u32) -> (r: Date)
        requires
            1 <= month <= 12,
            1 <= day <= days_in_month(year as int, month as int),
        ensures
            r == (Date { year, month, day }),
            r.valid(),
    {
        Date { year, month, day }
    }

    /// Strictly earlier, in chronological order.
    pub open spec fn lt_spec(self, other: Date) -> bool {
        if self.year != other.year {
            self.year < other.year
        } else if self.month != other.month {
            self.month < other.month
        } else {
            self.day < other.day
        }
    }

    /// Earlier or equal, in chronological order.
    pub open spec fn le_spec(self, other: Date) -> bool {
        self.lt_spec(other) || self == other
    }

    /// Decide whether `self` is strictly earlier than `other`.
    pub fn before(self, other: Date) -> (r: bool)
        ensures
            r == self.lt_spec(other),
    {
        if self.year != other.year {
            self.year < other.year
        } else if self.month != other.month {
            self.month < other.month
        } else {
            self.day < other.day
        }
    }

    /// Decide whether `self` is earlier than or equal to `other`.
    pub fn before_eq(self, other: Date) -> (r: bool)
        ensures
            r == self.le_spec(other),
    {
        if self.year != other.year {
            self.year < other.year
        } else if self.month != other.month {
            self.month < other.month
        } else {
            self.day <= other.day
        }
    }

    /// The greatest representable date.
    pub open spec fn is_max(self) -> bool {
        self.year == i32::MAX && self.month == 12 && self.day == 31
    }

    /// The least representable date.
    pub open spec fn is_min(self) -> bool {
        self.year == i32::MIN && self.month == 1 && self.day == 1
    }

    /// The next calendar day. Meaningful for a valid date that is not the
    /// greatest representable one.
    pub open spec fn succ_date(self) -> Date {
        if self.day < days_in_month(self.year as int, self.month as int) {
            Date { year: self.year, month: self.month, day: (self.day + 1) as u32 }
        } else if self.month < 12 {
            Date { year: self.year, month: (self.month + 1) as u32, day: 1 }
        } else {
            Date { year: (self.year + 1) as i32, month: 1, day: 1 }
        }
    }

    /// The previous calendar day. Meaningful for a valid date that is not the
    /// least representable one.
    pub open spec fn pred_date(self) -> Date {
        if self.day > 1 {
            Date { year: self.year, month: self.month, day: (self.day - 1) as u32 }
        } else if self.month > 1 {
            Date {
                year: self.year,
                month: (self.month - 1) as u32,
                day: days_in_month(self.year as int, self.month - 1) as u32,
            }
        } else {
            Date { year: (self.year - 1) as i32, month: 12, day: 31 }
        }
    }

    /// The next calendar day, or `None` past the greatest representable date.
    pub fn succ_opt(self) -> (r: Option<Date>)
        requires
            self.valid(),
        ensures
            self.is_max() ==> r is None,
            !self.is_max() ==> r == Some(self.succ_date()) && self.succ_date().valid(),
    {
        let month_len = month_length(self.year, self.month);
        if self.day < month_len {
            Some(Date { year: self.year, month: self.month, day: self.day + 1 })
        } else if self.month < 12 {
            Some(Date { year: self.year, month: self.month + 1, day: 1 })
        } else if self.year < i32::MAX {
            Some(Date { year: self.year + 1, month: 1, day: 1 })
        } else {
            None
        }
    }

    /// The previous calendar day, or `None` before the least representable
    /// date.
    pub fn pred_opt(self) -> (r: Option<Date>)
        requires
            self.valid(),
        ensures
            self.is_min() ==> r is None,
            !self.is_min() ==> r == Some(self.pred_date()) && self.pred_date().valid(),
    {
        if self.day > 1 {
            Some(Date { year: self.year, month: self.month, day: self.day - 1 })
        } else if self.month > 1 {
            let prev_len = month_length(self.year, self.month - 1);
            Some(Date { year: self.year, month: self.month - 1, day: prev_len })
        } else if self.year > i32::MIN {
            Some(Date { year: self.year - 1, month: 12, day: 31 })
        } else {
            None
        }
    }

    /// Build a date from components, rejecting invalid combinations.
    pub fn from_ymd_opt(year: i32, month: u32, day: u32) -> (r: Option<Date>)
        ensures
            (1 <= month <= 12 && 1 <= day <= days_in_month(year as int, month as int)) ==> r
                == Some(Date { year, month, day }),
            !(1 <= month <= 12 && 1 <= day <= days_in_month(year as int, month as int)) ==> r
                is None,
    {
        if 1 <= month && month <= 12 {
            let len = month_length(year, month);
            if 1 <= day && day <= len {
                Some(Date { year, month, day })
            } else {
                None
            }
        } else {
            None
        }
    }
}

} // verus!
