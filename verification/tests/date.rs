use dateutil::date::Date;
use dateutil::util;

#[test]
fn test_month_end_common_years() {
    assert_eq!(util::month_end(2022, 2), Date::from_ymd(2022, 2, 28));
    assert_eq!(util::month_end(2022, 4), Date::from_ymd(2022, 4, 30));
    assert_eq!(util::month_end(2022, 12), Date::from_ymd(2022, 12, 31));
}

#[test]
fn test_month_end_leap_rule() {
    assert_eq!(util::month_end(2020, 2).day, 29);
    assert_eq!(util::month_end(1900, 2).day, 28);
    assert_eq!(util::month_end(2000, 2).day, 29);
    assert_eq!(util::month_end(2024, 2).day, 29);
}

#[test]
fn test_month_end_proleptic_years() {
    assert_eq!(util::month_end(-4, 2).day, 29);
    assert_eq!(util::month_end(-100, 2).day, 28);
    assert_eq!(util::month_end(-400, 2).day, 29);
    assert_eq!(util::month_end(-1, 2).day, 28);
}

#[test]
fn test_from_ymd_opt() {
    assert_eq!(Date::from_ymd_opt(2022, 1, 1), Some(Date::from_ymd(2022, 1, 1)));
    assert_eq!(Date::from_ymd_opt(2020, 2, 29), Some(Date::from_ymd(2020, 2, 29)));
    assert_eq!(Date::from_ymd_opt(2021, 2, 29), None);
    assert_eq!(Date::from_ymd_opt(2022, 4, 31), None);
    assert_eq!(Date::from_ymd_opt(2022, 13, 1), None);
    assert_eq!(Date::from_ymd_opt(2022, 1, 0), None);
}

#[test]
fn test_succ_opt() {
    assert_eq!(Date::from_ymd(2022, 1, 31).succ_opt(), Some(Date::from_ymd(2022, 2, 1)));
    assert_eq!(Date::from_ymd(2022, 12, 31).succ_opt(), Some(Date::from_ymd(2023, 1, 1)));
    assert_eq!(Date::from_ymd(2022, 6, 14).succ_opt(), Some(Date::from_ymd(2022, 6, 15)));
    assert_eq!(Date::from_ymd(i32::MAX, 12, 31).succ_opt(), None);
}

#[test]
fn test_pred_opt() {
    assert_eq!(Date::from_ymd(2022, 3, 1).pred_opt(), Some(Date::from_ymd(2022, 2, 28)));
    assert_eq!(Date::from_ymd(2020, 3, 1).pred_opt(), Some(Date::from_ymd(2020, 2, 29)));
    assert_eq!(Date::from_ymd(2022, 1, 1).pred_opt(), Some(Date::from_ymd(2021, 12, 31)));
    assert_eq!(Date::from_ymd(i32::MIN, 1, 1).pred_opt(), None);
}

#[test]
fn test_ordering() {
    let a = Date::from_ymd(2022, 5, 18);
    let b = Date::from_ymd(2022, 11, 2);
    assert!(a.before(b));
    assert!(!b.before(a));
    assert!(a.before_eq(a));
    assert!(Date::from_ymd(2021, 12, 31).before(Date::from_ymd(2022, 1, 1)));
    assert!(Date::from_ymd(-1, 12, 31).before(Date::from_ymd(1, 1, 1)));
}
