//! Base interval
//!
//! Used to coalesce both recurring and non-recurring intervals into one
//! interface.

use crate::date::Date;
use crate::interval::bound;
use crate::interval::bound::Bound;
use vstd::prelude::*;

verus! {

/// The inclusive start date a bound denotes: the endpoint itself when
/// included, the following day when excluded, none when unbounded or when
/// the following day is past the representable range.
pub open spec fn start_date_spec(b: Bound) -> Option<Date> {
    match b {
        Bound::Included(d) => Some(d),
        Bound::Excluded(d) => if d.is_max() {
            None
        } else {
            Some(d.succ_date())
        },
        Bound::Unbounded => None,
    }
}

/// The inclusive end date a bound denotes: the endpoint itself when
/// included, the preceding day when excluded, none when unbounded or when
/// the preceding day is before the representable range.
pub open spec fn end_date_spec(b: Bound) -> Option<Date> {
    match b {
        Bound::Included(d) => Some(d),
        Bound::Excluded(d) => if d.is_min() {
            None
        } else {
            Some(d.pred_date())
        },
        Bound::Unbounded => None,
    }
}

/// Base interval
///
/// Used to coalesce both recurring and non-recurring intervals into one
/// interface. An implementor provides its two bounds; the derived queries
/// come with the trait.
pub trait BaseInterval {
    /// The start bound, as a specification value.
    spec fn start_spec(&self) -> Bound;

    /// The end bound, as a specification value.
    spec fn end_spec(&self) -> Bound;

    /// The start bound of the interval.
    fn start(&self) -> (r: Bound)
        ensures
            r == self.start_spec(),
    ;

    /// The end bound of the interval.
    fn end(&self) -> (r: Bound)
        ensures
            r == self.end_spec(),
    ;

    /// Start date in the form of an option
    ///
    /// Unbounded gives us [None]
    fn start_date(&self) -> (r: Option<Date>)
        requires
            bound::bound_valid(self.start_spec()),
        ensures
            r == start_date_spec(self.start_spec()),
    {
        match self.start() {
            Bound::Included(d) => Some(d),
            Bound::Excluded(d) => d.succ_opt(),
            Bound::Unbounded => None,
        }
    }

    /// End date in the form of an option
    ///
    /// Unbounded gives us [None]
    fn end_date(&self) -> (r: Option<Date>)
        requires
            bound::bound_valid(self.end_spec()),
        ensures
            r == end_date_spec(self.end_spec()),
    {
        match self.end() {
            Bound::Included(d) => Some(d),
            Bound::Excluded(d) => d.pred_opt(),
            Bound::Unbounded => None,
        }
    }

    /// Determine whether a date falls within the current interval
    fn within(&self, date: Date) -> (r: bool)
        ensures
            r == bound::within_spec(date, self.start_spec(), self.end_spec()),
    {
        bound::within(date, &self.start(), &self.end())
    }
}

/// A fixed interval: a pair of bounds held directly.
pub struct Interval {
    pub start: Bound,
    pub end: Bound,
}

impl BaseInterval for Interval {
    open spec fn start_spec(&self) -> Bound {
        self.start
    }

    open spec fn end_spec(&self) -> Bound {
        self.end
    }

    fn start(&self) -> Bound {
        self.start
    }

    fn end(&self) -> Bound {
        self.end
    }
}

} // verus!
