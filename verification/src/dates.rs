//! Calendar dates.
use chrono::Datelike;
use vstd::prelude::*;

verus! {

/// A calendar date.
#[derive(Debug, Clone, Copy, PartialEq, Eq, Structural)]
pub struct Date {
    pub year: i32,
    pub month: u32,
    pub day: u32,
}

/// What `chrono::NaiveDate::parse_from_str(text, "%Y-%m-%d")` gives for
/// `text`: the year, month and day of the date, or the text of chrono's error.
pub uninterp spec fn chrono_iso_date(text: Seq<char>) -> Result<(i32, u32, u32), Seq<char>>;

/// The date that `text` denotes in the form `%Y-%m-%d`, read by
/// `chrono::NaiveDate::parse_from_str`; on failure, chrono's error message.
/// Nothing is claimed of which texts chrono accepts: the result is named by
/// `chrono_iso_date`. Of an accepted date it is claimed that the month lies in
/// 1..=12 and the day in 1..=31, which chrono's `NaiveDate` always holds.
#[verifier::external_body]
pub(crate) fn parse_iso_date(text: &str) -> (r: Result<Date, String>)
    ensures
        match r {
            Ok(d) => chrono_iso_date(text@) == Ok::<(i32, u32, u32), Seq<char>>((d.year, d.month, d.day))
                && 1 <= d.month <= 12 && 1 <= d.day <= 31,
            Err(e) => chrono_iso_date(text@) == Err::<(i32, u32, u32), Seq<char>>(e@),
        },
{
    match chrono::NaiveDate::parse_from_str(text, "%Y-%m-%d") {
        Ok(d) => Ok(Date { year: d.year(), month: d.month(), day: d.day() }),
        Err(e) => Err(e.to_string()),
    }
}

} // verus!
