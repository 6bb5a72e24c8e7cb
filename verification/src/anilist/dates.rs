//! Today's date, read from the system clock in the local time zone.

use chrono::Datelike;
use chrono::NaiveDate;
use vstd::prelude::*;
use super::models::FuzzyDate;

verus! {

#[verifier::external_type_specification]
#[verifier::external_body]
pub struct ExNaiveDate(NaiveDate);

/// `chrono::Local::now`, reduced to its calendar date by `DateTime::date_naive`.
/// The date depends on the clock and the time zone, so nothing is claimed of it.
/// `Local::now` gives up where the machine's clock stands before 1970.
#[verifier::external_body]
fn local_date() -> NaiveDate {
    chrono::Local::now().date_naive()
}

/// `Datelike::year` of a `NaiveDate`: the year of the calendar date.
#[verifier::external_body]
fn year_of(date: &NaiveDate) -> i32 {
    date.year()
}

/// `Datelike::month` of a `NaiveDate`: the month, counted from 1 up to 12.
#[verifier::external_body]
fn month_of(date: &NaiveDate) -> (month: u32)
    ensures
        1 <= month <= 12,
{
    date.month()
}

/// `Datelike::day` of a `NaiveDate`: the day of the month, counted from 1 up to 31.
#[verifier::external_body]
fn day_of(date: &NaiveDate) -> (day: u32)
    ensures
        1 <= day <= 31,
{
    date.day()
}

impl FuzzyDate {
    /// Year, month and day are all known, and month and day are in the calendar's range.
    pub open spec fn is_calendar_day(self) -> bool {
        &&& self.year is Some
        &&& self.month matches Some(m) && 1 <= m <= 12
        &&& self.day matches Some(d) && 1 <= d <= 31
    }

    /// Today's date in the local time zone.
    pub fn today_local() -> (today: Self)
        ensures
            today.is_calendar_day(),
    {
        let date = local_date();
        let year = year_of(&date);
        let month = month_of(&date);
        let day = day_of(&date);
        FuzzyDate { year: Some(year), month: Some(month as i32), day: Some(day as i32) }
    }
}

} // verus!
