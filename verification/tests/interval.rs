use dateutil::date::Date;
use dateutil::interval::base::BaseInterval;
use dateutil::interval::base::Interval;
use dateutil::interval::bound;
use dateutil::interval::bound::Bound;

#[test]
fn test_within() {
    let i1 = Interval {
        start: Bound::Included(Date::from_ymd(2022, 1, 1)),
        end: Bound::Included(Date::from_ymd(2022, 12, 31)),
    };

    assert_eq!(i1.within(Date::from_ymd(2022, 5, 18)), true);
    assert_eq!(i1.within(Date::from_ymd(2023, 5, 18)), false);
}

#[test]
fn test_start_date() {
    let i1 = Interval {
        start: Bound::Included(Date::from_ymd(2022, 1, 1)),
        end: Bound::Included(Date::from_ymd(2022, 12, 31)),
    };

    assert_eq!(i1.start_date(), Date::from_ymd_opt(2022, 1, 1));
}

#[test]
fn test_end_date() {
    let i1 = Interval {
        start: Bound::Included(Date::from_ymd(2022, 1, 1)),
        end: Bound::Included(Date::from_ymd(2022, 12, 31)),
    };

    assert_eq!(i1.end_date(), Date::from_ymd_opt(2022, 12, 31));
}

#[test]
fn test_within_closed_endpoints() {
    let i1 = Interval {
        start: Bound::Included(Date::from_ymd(2022, 1, 1)),
        end: Bound::Included(Date::from_ymd(2022, 12, 31)),
    };

    assert!(i1.within(Date::from_ymd(2022, 1, 1)));
    assert!(i1.within(Date::from_ymd(2022, 12, 31)));
}

#[test]
fn test_within_excluded_endpoints() {
    let i1 = Interval {
        start: Bound::Excluded(Date::from_ymd(2022, 1, 1)),
        end: Bound::Excluded(Date::from_ymd(2022, 12, 31)),
    };

    assert!(!i1.within(Date::from_ymd(2022, 1, 1)));
    assert!(i1.within(Date::from_ymd(2022, 1, 2)));
    assert!(i1.within(Date::from_ymd(2022, 12, 30)));
    assert!(!i1.within(Date::from_ymd(2022, 12, 31)));
}

#[test]
fn test_within_unbounded_start() {
    let i1 = Interval {
        start: Bound::Unbounded,
        end: Bound::Included(Date::from_ymd(2022, 12, 31)),
    };

    assert!(i1.within(Date::from_ymd(1900, 1, 1)));
    assert!(i1.within(Date::from_ymd(2022, 12, 31)));
    assert!(!i1.within(Date::from_ymd(2023, 1, 1)));
}

#[test]
fn test_within_unbounded_both() {
    let i1 = Interval { start: Bound::Unbounded, end: Bound::Unbounded };

    assert!(i1.within(Date::from_ymd(1066, 10, 14)));
    assert!(i1.within(Date::from_ymd(2999, 12, 31)));
}

#[test]
fn test_start_date_excluded() {
    let i1 = Interval {
        start: Bound::Excluded(Date::from_ymd(2022, 1, 31)),
        end: Bound::Unbounded,
    };

    assert_eq!(i1.start_date(), Some(Date::from_ymd(2022, 2, 1)));
    assert_eq!(i1.end_date(), None);
}

#[test]
fn test_end_date_excluded() {
    let i1 = Interval {
        start: Bound::Unbounded,
        end: Bound::Excluded(Date::from_ymd(2022, 3, 1)),
    };

    assert_eq!(i1.start_date(), None);
    assert_eq!(i1.end_date(), Some(Date::from_ymd(2022, 2, 28)));
}

#[test]
fn test_start_date_excluded_at_max() {
    let i1 = Interval {
        start: Bound::Excluded(Date::from_ymd(i32::MAX, 12, 31)),
        end: Bound::Unbounded,
    };

    assert_eq!(i1.start_date(), None);
}

#[test]
fn test_end_date_excluded_at_min() {
    let i1 = Interval {
        start: Bound::Unbounded,
        end: Bound::Excluded(Date::from_ymd(i32::MIN, 1, 1)),
    };

    assert_eq!(i1.end_date(), None);
}

#[test]
fn test_bound_within_free_function() {
    let start = Bound::Included(Date::from_ymd(2022, 1, 1));
    let end = Bound::Excluded(Date::from_ymd(2022, 2, 1));

    assert!(bound::within(Date::from_ymd(2022, 1, 15), &start, &end));
    assert!(!bound::within(Date::from_ymd(2022, 2, 1), &start, &end));
    assert!(!bound::within(Date::from_ymd(2021, 12, 31), &start, &end));
}
