//! Calendar dates of quoted messages, checked and written by `chrono`.
use vstd::prelude::*;

use crate::text::zero_padded;

verus! {

/// Leap years of the proleptic Gregorian calendar.
pub open spec fn is_leap_year(year: int) -> bool {
    year % 4 == 0 && (year % 100 != 0 || year % 400 == 0)
}

/// Number of days of a month (1 to 12) of a year.
pub open spec fn days_in_month(year: int, month: int) -> int {
    if month == 2 {
        if is_leap_year(year) { 29 } else { 28 }
    } else if month == 4 || month == 6 || month == 9 || month == 11 {
        30
    } else {
        31
    }
}

/// First and last year that `chrono::NaiveDate` represents.
pub open spec fn min_year() -> int {
    -262143
}

pub open spec fn max_year() -> int {
    262142
}

/// A day that exists in the calendar, in the range of `chrono::NaiveDate`.
pub open spec fn valid_ymd(year: int, month: int, day: int) -> bool {
    &&& min_year() <= year <= max_year()
    &&& 1 <= month <= 12
    &&& 1 <= day <= days_in_month(year, month)
}

/// How `chrono` writes a year: four digits at least, with a sign outside 0..=9999.
pub open spec fn year_text(year: int) -> Seq<char> {
    if 0 <= year <= 9999 {
        zero_padded(year as nat, 4)
    } else if year < 0 {
        seq!['-'] + zero_padded((-year) as nat, 4)
    } else {
        seq!['+'] + zero_padded(year as nat, 4)
    }
}

/// `YYYY-MM-DD`, as `chrono::NaiveDate`'s `Display` writes a date.
pub open spec fn date_text(year: int, month: int, day: int) -> Seq<char> {
    year_text(year) + seq!['-'] + zero_padded(month as nat, 2) + seq!['-'] + zero_padded(
        day as nat,
        2,
    )
}

/// A calendar date (the day a quoted message was sent).
#[derive(Debug, PartialEq, Eq)]
pub struct Date {
    year: i32,
    month: u32,
    day: u32,
}

impl Date {
    #[verifier::type_invariant]
    spec fn exists_in_calendar(self) -> bool {
        valid_ymd(self.year as int, self.month as int, self.day as int)
    }

    pub closed spec fn spec_year(self) -> int {
        self.year as int
    }

    pub closed spec fn spec_month(self) -> int {
        self.month as int
    }

    pub closed spec fn spec_day(self) -> int {
        self.day as int
    }

    /// The date with these year, month and day, or `None` when that day does
    /// not exist (as `chrono::NaiveDate::from_ymd_opt`).
    pub fn from_ymd(year: i32, month: u32, day: u32) -> (r: Option<Date>)
        ensures
            r is Some <==> valid_ymd(year as int, month as int, day as int),
            r matches Some(d) ==> d.spec_year() == year && d.spec_month() == month
                && d.spec_day() == day,
    {
        if chrono_date_exists(year, month, day) {
            Some(Date { year, month, day })
        } else {
            None
        }
    }

    pub fn year(&self) -> (r: i32)
        ensures
            r == self.spec_year(),
    {
        self.year
    }

    pub fn month(&self) -> (r: u32)
        ensures
            r == self.spec_month(),
    {
        self.month
    }

    pub fn day(&self) -> (r: u32)
        ensures
            r == self.spec_day(),
    {
        self.day
    }

    /// The date written as `chrono` displays it, e.g. `2024-03-05`.
    pub fn text(&self) -> (s: String)
        ensures
            s@ == date_text(self.spec_year(), self.spec_month(), self.spec_day()),
    {
        proof {
            use_type_invariant(self);
        }
        chrono_date_display(self.year, self.month, self.day)
    }
}

impl Clone for Date {
    fn clone(&self) -> (r: Date)
        ensures
            r == *self,
    {
        proof {
            use_type_invariant(self);
        }
        Date { year: self.year, month: self.month, day: self.day }
    }
}

/// Calls `chrono::NaiveDate::from_ymd_opt` and tells whether it gave a date.
/// Its documentation says it gives none exactly when the day does not exist in
/// the calendar, the month or day is out of range, or the year is outside the
/// range of `NaiveDate`, which chrono's source sets to `MIN_YEAR ..= MAX_YEAR`
/// (-262143 to 262142).
#[verifier::external_body]
fn chrono_date_exists(year: i32, month: u32, day: u32) -> (r: bool)
    ensures
        r == valid_ymd(year as int, month as int, day as int),
{
    chrono::NaiveDate::from_ymd_opt(year, month, day).is_some()
}

/// Writes a date with `chrono::NaiveDate`'s `Display`. In chrono's source it
/// writes the year as four digits when it is in 0..=9999 and as `{:+05}`
/// otherwise, then `-`, the month and the day as two digits each.
#[verifier::external_body]
fn chrono_date_display(year: i32, month: u32, day: u32) -> (s: String)
    requires
        valid_ymd(year as int, month as int, day as int),
    ensures
        s@ == date_text(year as int, month as int, day as int),
{
    chrono::NaiveDate::from_ymd_opt(year, month, day).unwrap().to_string()
}

} // verus!
