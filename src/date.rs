//! Calendar dates and their `MM/DD/YYYY` text.
use vstd::prelude::*;
use crate::number::padded_digits;

verus! {

/// A day of the proleptic Gregorian calendar.
#[derive(Debug, Clone, Copy, PartialEq, Eq)]
pub struct CalendarDate {
    pub year: i32,
    pub month: u32,
    pub day: u32,
}

/// Whether `year` has a February 29th.
pub open spec fn is_leap_year(year: int) -> bool {
    (year % 4 == 0 && year % 100 != 0) || year % 400 == 0
}

/// The number of days in `month` (1 to 12) of `year`.
pub open spec fn days_in_month(year: int, month: int) -> int {
    if month == 2 {
        if is_leap_year(year) { 29 } else { 28 }
    } else if month == 4 || month == 6 || month == 9 || month == 11 {
        30
    } else {
        31
    }
}

/// Whether the three numbers name a day of a year from 0 to 9999.
pub open spec fn valid_date(year: int, month: int, day: int) -> bool {
    0 <= year <= 9999 && 1 <= month <= 12 && 1 <= day <= days_in_month(year, month)
}

/// `MM/DD/YYYY`, each part padded with zeros.
pub open spec fn us_date_text(year: nat, month: nat, day: nat) -> Seq<char> {
    padded_digits(month, 2) + seq!['/'] + padded_digits(day, 2) + seq!['/'] + padded_digits(year, 4)
}

impl CalendarDate {
    pub open spec fn wf(&self) -> bool {
        valid_date(self.year as int, self.month as int, self.day as int)
    }

    /// The date with these parts, or `None` where they name no day of a year
    /// from 0 to 9999.
    pub fn new(year: i32, month: u32, day: u32) -> (r: Option<CalendarDate>)
        ensures
            r is Some <==> valid_date(year as int, month as int, day as int),
            r matches Some(d) ==> d.year == year && d.month == month && d.day == day,
    {
        if year < 0 || year > 9999 || month < 1 || month > 12 || day < 1 {
            return None;
        }
        let leap = (year % 4 == 0 && year % 100 != 0) || year % 400 == 0;
        let days: u32 = if month == 2 {
            if leap { 29 } else { 28 }
        } else if month == 4 || month == 6 || month == 9 || month == 11 {
            30
        } else {
            31
        };
        if day > days {
            None
        } else {
            Some(CalendarDate { year, month, day })
        }
    }

    /// The date as `MM/DD/YYYY`.
    pub fn us_text(&self) -> (r: String)
        requires
            self.wf(),
        ensures
            r@ == us_date_text(self.year as nat, self.month as nat, self.day as nat),
    {
        match chrono_us_date(self.year, self.month, self.day) {
            Some(s) => s,
            None => String::new(),
        }
    }
}

/// Relies on `chrono::NaiveDate::from_ymd_opt`, which accepts exactly the
/// existing days, and on `NaiveDate::format("%m/%d/%Y")`: month and day as two
/// digits and, for years 0 to 9999, the year as four, all padded with zeros.
#[verifier::external_body]
fn chrono_us_date(year: i32, month: u32, day: u32) -> (r: Option<String>)
    ensures
        0 <= year <= 9999 ==> (r is Some <==> valid_date(year as int, month as int, day as int)),
        0 <= year <= 9999 && r is Some ==> r->Some_0@ == us_date_text(
            year as nat,
            month as nat,
            day as nat,
        ),
{
    chrono::NaiveDate::from_ymd_opt(year, month, day).map(|d| d.format("%m/%d/%Y").to_string())
}

} // verus!
