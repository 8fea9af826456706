//! Calendar dates as plain values, parsed through chrono.

use vstd::prelude::*;

use chrono::Datelike;

verus! {

/// A calendar date, held as plain year, month and day numbers.
#[derive(Debug, PartialEq, Eq, Structural, Clone, Copy)]
pub struct Date {
    pub year: i32,
    pub month: u8,
    pub day: u8,
}

/// The date a format string and an input string parse to, if any.
/// This names the result of chrono's fixed-format date parsing, which
/// depends on the two strings alone.
pub uninterp spec fn spec_parsed_date(fmt: Seq<char>, s: Seq<char>) -> Option<Date>;

/// Relies on chrono::NaiveDate::parse_from_str and the Datelike accessors:
/// the result is a function of the format and input strings alone, and a
/// parsed NaiveDate always has its month in 1..=12 and its day in 1..=31.
#[verifier::external_body]
pub(crate) fn parse_date(fmt: &str, s: &str) -> (r: Option<Date>)
    ensures
        r == spec_parsed_date(fmt@, s@),
        r matches Some(d) ==> 1 <= d.month <= 12 && 1 <= d.day <= 31,
{
    match chrono::NaiveDate::parse_from_str(s, fmt) {
        Ok(d) => Some(Date { year: d.year(), month: d.month() as u8, day: d.day() as u8 }),
        Err(_) => None,
    }
}

} // verus!
