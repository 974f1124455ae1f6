//! One side of an interval — included, excluded or unbounded — and the
//! bound-aware containment test.

use crate::date::Date;
use vstd::prelude::*;

verus! {

/// One endpoint of a date interval.
#[derive(Clone, Copy, PartialEq, Eq, Structural, Debug)]
pub enum Bound {
    /// The endpoint itself belongs to the interval.
    Included(Date),
    /// Everything strictly beyond the endpoint belongs to the interval.
    Excluded(Date),
    /// No constraint on this side.
    Unbounded,
}

/// The dates a bound carries, if any, are valid calendar dates.
pub open spec fn bound_valid(b: Bound) -> bool {
    match b {
        Bound::Included(d) => d.valid(),
        Bound::Excluded(d) => d.valid(),
        Bound::Unbounded => true,
    }
}

/// Whether `date` satisfies `start` read as a lower bound: at least an
/// included endpoint, strictly after an excluded one, anything when
/// unbounded.
pub open spec fn satisfies_start(date: Date, start: Bound) -> bool {
    match start {
        Bound::Included(s) => s.le_spec(date),
        Bound::Excluded(s) => s.lt_spec(date),
        Bound::Unbounded => true,
    }
}

/// Whether `date` satisfies `end` read as an upper bound: at most an
/// included endpoint, strictly before an excluded one, anything when
/// unbounded.
pub open spec fn satisfies_end(date: Date, end: Bound) -> bool {
    match end {
        Bound::Included(e) => date.le_spec(e),
        Bound::Excluded(e) => date.lt_spec(e),
        Bound::Unbounded => true,
    }
}

/// Whether `date` lies between the two bounds.
pub open spec fn within_spec(date: Date, start: Bound, end: Bound) -> bool {
    satisfies_start(date, start) && satisfies_end(date, end)
}

/// Determine whether `date` lies between `start` and `end`.
pub fn within(date: Date, start: &Bound, end: &Bound) -> (r: bool)
    ensures
        r == within_spec(date, *start, *end),
{
    let start_ok = match start {
        Bound::Included(s) => s.before_eq(date),
        Bound::Excluded(s) => s.before(date),
        Bound::Unbounded => true,
    };
    let end_ok = match end {
        Bound::Included(e) => date.before_eq(*e),
        Bound::Excluded(e) => date.before(*e),
        Bound::Unbounded => true,
    };
    start_ok && end_ok
}

/// A closed interval contains both of its endpoints: with an included start
/// `a` and an included end `b`, `a <= b`, both `a` and `b` lie within the
/// bounds.
pub proof fn lemma_within_closed_endpoints(a: Date, b: Date)
    requires
        a.le_spec(b),
    ensures
        within_spec(a, Bound::Included(a), Bound::Included(b)),
        within_spec(b, Bound::Included(a), Bound::Included(b)),
{
}

/// An excluded endpoint never contains its own date: with start
/// `Excluded(a)`, the date `a` lies outside the bounds whatever the end is.
pub proof fn lemma_within_excluded_start(a: Date, end: Bound)
    ensures
        !within_spec(a, Bound::Excluded(a), end),
{
}

/// An unbounded start accepts every date that the end bound accepts:
/// containment degenerates to the upper-bound test alone.
pub proof fn lemma_within_unbounded_start(date: Date, end: Bound)
    ensures
        within_spec(date, Bound::Unbounded, end) == satisfies_end(date, end),
{
}

} // verus!
