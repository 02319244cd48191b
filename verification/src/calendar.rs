//! Reading the date of a record, which is left to the `chrono` crate.

use vstd::prelude::*;

verus! {

/// The day of the month of the date that `chrono` reads out of `date` as a
/// day, a month and a year with dashes between them; `None` where it reads no
/// date out of it. What `chrono` accepts is not written out here.
pub uninterp spec fn day_of_month(date: Seq<char>) -> Option<u32>;

/// Calls `chrono::NaiveDate::parse_from_str` with the format `%d-%m-%Y` and,
/// on the date that it returns, `chrono::Datelike::day`. Trusted: the result is
/// what these two make of the text and of nothing else.
#[verifier::external_body]
pub(crate) fn read_day_of_month(date: &str) -> (day: Option<u32>)
    ensures
        day == day_of_month(date@),
{
    match chrono::NaiveDate::parse_from_str(date, "%d-%m-%Y") {
        Ok(parsed) => Some(chrono::Datelike::day(&parsed)),
        Err(_) => None,
    }
}

} // verus!
