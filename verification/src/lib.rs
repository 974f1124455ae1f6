//! Calendar-date arithmetic and interval membership.
//!
//! The crate answers two kinds of questions: what date results from adding a
//! calendar unit (day, week, biweek, month, quarter, year) to a given date,
//! honoring month lengths and leap years; and whether a date falls within an
//! interval whose endpoints may be included, excluded or unbounded.

pub mod addition;
pub mod date;
pub mod interval;
pub mod util;
