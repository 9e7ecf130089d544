//! Calendar dates and weekdays: the plain-value day model the engine's
//! schedule queries are stated over.

use vstd::prelude::*;
use vstd::string::StringExecFns;

use crate::text::dec_digits;
use crate::text::dec_digits_pad2;
use crate::text::push_dec;
use crate::text::push_dec_pad2;

verus! {

/// A day of the week, Monday through Sunday.
#[derive(Clone, Copy, Debug, PartialEq, Eq, Structural)]
pub enum Weekday {
    Monday,
    Tuesday,
    Wednesday,
    Thursday,
    Friday,
    Saturday,
    Sunday,
}

impl Weekday {
    /// The position of this weekday in the Monday-first week, 0 through 6.
    pub open spec fn index(self) -> int {
        match self {
            Weekday::Monday => 0,
            Weekday::Tuesday => 1,
            Weekday::Wednesday => 2,
            Weekday::Thursday => 3,
            Weekday::Friday => 4,
            Weekday::Saturday => 5,
            Weekday::Sunday => 6,
        }
    }

    /// The number of days this weekday lies after Monday, 0 through 6.
    pub fn number(&self) -> (n: u8)
        ensures
            n as int == self.index(),
    {
        match self {
            Weekday::Monday => 0,
            Weekday::Tuesday => 1,
            Weekday::Wednesday => 2,
            Weekday::Thursday => 3,
            Weekday::Friday => 4,
            Weekday::Saturday => 5,
            Weekday::Sunday => 6,
        }
    }

    /// The weekday lying `n` days after Monday; `None` unless `0 <= n <= 6`.
    pub fn from_number(n: i64) -> (r: Option<Weekday>)
        ensures
            0 <= n <= 6 ==> (r matches Some(w) && w.index() == n as int),
            !(0 <= n <= 6) ==> r is None,
    {
        match n {
            0 => Some(Weekday::Monday),
            1 => Some(Weekday::Tuesday),
            2 => Some(Weekday::Wednesday),
            3 => Some(Weekday::Thursday),
            4 => Some(Weekday::Friday),
            5 => Some(Weekday::Saturday),
            6 => Some(Weekday::Sunday),
            _ => None,
        }
    }
}

/// The name of the weekday `w`.
pub open spec fn weekday_name(w: Weekday) -> Seq<char> {
    match w {
        Weekday::Monday => "Monday"@,
        Weekday::Tuesday => "Tuesday"@,
        Weekday::Wednesday => "Wednesday"@,
        Weekday::Thursday => "Thursday"@,
        Weekday::Friday => "Friday"@,
        Weekday::Saturday => "Saturday"@,
        Weekday::Sunday => "Sunday"@,
    }
}

impl Weekday {
    /// The name of this weekday.
    pub fn name(&self) -> (r: &'static str)
        ensures
            r@ == weekday_name(*self),
    {
        match self {
            Weekday::Monday => "Monday",
            Weekday::Tuesday => "Tuesday",
            Weekday::Wednesday => "Wednesday",
            Weekday::Thursday => "Thursday",
            Weekday::Friday => "Friday",
            Weekday::Saturday => "Saturday",
            Weekday::Sunday => "Sunday",
        }
    }
}

/// The mathematical content of a `Date`: its year, month and day as plain
/// integers.
pub ghost struct DateView {
    pub year: int,
    pub month: int,
    pub day: int,
}

/// Whether `year` is a leap year of the Gregorian calendar.
pub open spec fn is_leap_year(year: int) -> bool {
    year % 4 == 0 && (year % 100 != 0 || year % 400 == 0)
}

/// The number of days of month `month` in year `year`; 0 for a month
/// outside 1 through 12.
pub open spec fn days_in_month(year: int, month: int) -> int {
    if month == 1 || month == 3 || month == 5 || month == 7 || month == 8 || month == 10
        || month == 12 {
        31
    } else if month == 4 || month == 6 || month == 9 || month == 11 {
        30
    } else if month == 2 {
        if is_leap_year(year) {
            29
        } else {
            28
        }
    } else {
        0
    }
}

/// Whether `d` names a day of the Gregorian calendar between the years 1
/// and 9999.
pub open spec fn valid_date(d: DateView) -> bool {
    &&& 1 <= d.year <= 9999
    &&& 1 <= d.month <= 12
    &&& 1 <= d.day <= days_in_month(d.year, d.month)
}

/// A calendar date. `Date::new` admits exactly the dates that satisfy
/// `valid_date`.
#[derive(Clone, Copy, Debug, PartialEq, Eq, Structural)]
pub struct Date {
    year: u16,
    month: u8,
    day: u8,
}

impl View for Date {
    type V = DateView;

    closed spec fn view(&self) -> DateView {
        DateView { year: self.year as int, month: self.month as int, day: self.day as int }
    }
}

impl Date {
    /// The date of the given year, month and day, or `None` if they name no
    /// day of the calendar.
    pub fn new(year: u16, month: u8, day: u8) -> (r: Option<Date>)
        ensures
            valid_date(DateView { year: year as int, month: month as int, day: day as int })
                <==> (r matches Some(d) && d@ == DateView {
                    year: year as int,
                    month: month as int,
                    day: day as int,
                }),
    {
        if 1 <= year && year <= 9999 && 1 <= month && month <= 12 && 1 <= day
            && day <= days_in_month_count(year, month) {
            Some(Date { year, month, day })
        } else {
            None
        }
    }

    pub fn year(&self) -> (y: u16)
        ensures
            y as int == self@.year,
    {
        self.year
    }

    pub fn month(&self) -> (m: u8)
        ensures
            m as int == self@.month,
    {
        self.month
    }

    pub fn day(&self) -> (d: u8)
        ensures
            d as int == self@.day,
    {
        self.day
    }

    /// The weekday on which this date falls.
    pub fn weekday(&self) -> (w: Weekday)
        ensures
            w.index() == weekday_index_of(self@),
    {
        let n: u8 = weekday_number_of(self);
        match Weekday::from_number(n as i64) {
            Some(w) => w,
            None => Weekday::Monday,
        }
    }
}

/// The canonical text of the date `d`: year, month and day, dashes
/// between, month and day zero-padded to two digits.
pub open spec fn date_chars(d: DateView) -> Seq<char> {
    dec_digits(d.year) + "-"@ + dec_digits_pad2(d.month) + "-"@ + dec_digits_pad2(d.day)
}

impl Date {
    /// Appends the canonical text of this date to `out`.
    pub fn append_text(&self, out: &mut String)
        ensures
            final(out)@ == old(out)@ + date_chars(self@),
    {
        push_dec(out, self.year as u32);
        out.append("-");
        push_dec_pad2(out, self.month as u32);
        out.append("-");
        push_dec_pad2(out, self.day as u32);
        proof {
            assert(out@ =~= old(out)@ + date_chars(self@));
        }
    }
}

/// The number of days of month `month` in year `year`; 0 for a month
/// outside 1 through 12.
pub fn days_in_month_count(year: u16, month: u8) -> (n: u8)
    ensures
        n as int == days_in_month(year as int, month as int),
{
    match month {
        1 | 3 | 5 | 7 | 8 | 10 | 12 => 31,
        4 | 6 | 9 | 11 => 30,
        2 => {
            if year % 4 == 0 && (year % 100 != 0 || year % 400 == 0) {
                29
            } else {
                28
            }
        },
        _ => 0,
    }
}

/// What chrono answers when asked for the weekday of a (year, month, day)
/// triple: `None` where the triple names no date chrono accepts, else the
/// number of days the weekday lies after Monday.
pub uninterp spec fn chrono_weekday_number_of(year: int, month: int, day: int) -> Option<u8>;

/// The Monday-first weekday number, 0 through 6, of the date `d`; dates
/// that chrono does not accept are put on Monday.
pub open spec fn weekday_index_of(d: DateView) -> int {
    match chrono_weekday_number_of(d.year, d.month, d.day) {
        Some(n) => n as int,
        None => 0,
    }
}

/// Relies on chrono: `NaiveDate::from_ymd_opt` builds a date value from the
/// year, month and day alone (`None` exactly when they name no calendar
/// day), `Datelike::weekday` reads the weekday off that value, and
/// `Weekday::num_days_from_monday` numbers the weekdays 0 (Monday) through
/// 6 (Sunday).
#[verifier::external_body]
fn chrono_weekday_number(year: u16, month: u8, day: u8) -> (r: Option<u8>)
    ensures
        r == chrono_weekday_number_of(year as int, month as int, day as int),
        r matches Some(n) ==> n < 7,
{
    match chrono::NaiveDate::from_ymd_opt(year as i32, month as u32, day as u32) {
        Some(d) => Some(chrono::Datelike::weekday(&d).num_days_from_monday() as u8),
        None => None,
    }
}

/// The Monday-first weekday number of `d`, as `weekday_index_of` gives it.
pub fn weekday_number_of(d: &Date) -> (n: u8)
    ensures
        n < 7,
        n as int == weekday_index_of(d@),
{
    match chrono_weekday_number(d.year, d.month, d.day) {
        Some(n) => n,
        None => 0,
    }
}

} // verus!
