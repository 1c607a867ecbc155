use chrono::Datelike;
use vstd::prelude::*;

verus! {

/// Smallest year a stamp may carry.
pub const MIN_YEAR: i32 = 1;

/// Largest year a stamp may carry (four digits in file names).
pub const MAX_YEAR: i32 = 9999;

pub open spec fn is_leap_year(y: int) -> bool {
    (y % 4 == 0 && y % 100 != 0) || y % 400 == 0
}

/// Number of days of month `m` (1..=12) in year `y`, proleptic Gregorian calendar.
pub open spec fn days_in_month(y: int, m: int) -> int {
    if m == 2 {
        if is_leap_year(y) { 29 } else { 28 }
    } else if m == 4 || m == 6 || m == 9 || m == 11 {
        30
    } else {
        31
    }
}

pub open spec fn is_valid_date(y: int, m: int, d: int) -> bool {
    1 <= m <= 12 && 1 <= d <= days_in_month(y, m)
}

/// The calendar day that precedes `(y, m, d)`.
pub open spec fn prev_date(y: int, m: int, d: int) -> (int, int, int) {
    if d > 1 {
        (y, m, d - 1)
    } else if m > 1 {
        (y, m - 1, days_in_month(y, m - 1))
    } else {
        (y - 1, 12, 31)
    }
}

/// Relies on chrono's `NaiveDate::pred_opt`: the day before a valid date of the
/// proleptic Gregorian calendar, which exists for every year chrono supports.
#[verifier::external_body]
fn day_before(year: i32, month: u32, day: u32) -> (r: (i32, u32, u32))
    requires
        MIN_YEAR <= year <= MAX_YEAR,
        is_valid_date(year as int, month as int, day as int),
    ensures
        (r.0 as int, r.1 as int, r.2 as int) == prev_date(year as int, month as int, day as int),
{
    let date = chrono::NaiveDate::from_ymd_opt(year, month, day).unwrap();
    let prev = date.pred_opt().unwrap();
    (prev.year(), prev.month(), prev.day())
}

/// A wall-clock instant in local time, down to the second, with the offset of
/// the local time zone from UTC in seconds.
#[derive(Clone, Copy, Debug, PartialEq, Eq, Structural)]
pub struct Stamp {
    pub year: i32,
    pub month: u32,
    pub day: u32,
    pub hour: u32,
    pub minute: u32,
    pub second: u32,
    pub offset_secs: i32,
}

/// A calendar date.
#[derive(Clone, Copy, Debug, PartialEq, Eq, Structural)]
pub struct Date {
    pub year: i32,
    pub month: u32,
    pub day: u32,
}

impl Stamp {
    pub open spec fn wf(&self) -> bool {
        &&& MIN_YEAR <= self.year <= MAX_YEAR
        &&& is_valid_date(self.year as int, self.month as int, self.day as int)
        &&& self.hour < 24
        &&& self.minute < 60
        &&& self.second < 60
        &&& -86400 < self.offset_secs < 86400
    }

    /// Builds a stamp from its fields; `None` where they do not name a valid
    /// instant of the supported range.
    pub fn new(
        year: i32,
        month: u32,
        day: u32,
        hour: u32,
        minute: u32,
        second: u32,
        offset_secs: i32,
    ) -> (r: Option<Stamp>)
        ensures
            r matches Some(s) ==> s.wf(),
            r matches Some(s) ==> (s == Stamp { year, month, day, hour, minute, second, offset_secs }),
            r is None <==> !(Stamp { year, month, day, hour, minute, second, offset_secs }).wf(),
    {
        let s = Stamp { year, month, day, hour, minute, second, offset_secs };
        if MIN_YEAR <= year && year <= MAX_YEAR && 1 <= month && month <= 12 && 1 <= day
            && day <= days_of_month(year, month) && hour < 24 && minute < 60 && second < 60
            && -86400 < offset_secs && offset_secs < 86400 {
            Some(s)
        } else {
            None
        }
    }

    /// The calendar day before this stamp's date.
    pub fn yesterday(&self) -> (r: Date)
        requires
            self.wf(),
        ensures
            (r.year as int, r.month as int, r.day as int) == prev_date(
                self.year as int,
                self.month as int,
                self.day as int,
            ),
    {
        let (y, m, d) = day_before(self.year, self.month, self.day);
        Date { year: y, month: m, day: d }
    }
}

/// Number of days of `month` in `year`.
pub fn days_of_month(year: i32, month: u32) -> (r: u32)
    requires
        1 <= month <= 12,
    ensures
        r as int == days_in_month(year as int, month as int),
{
    if month == 2 {
        if (year % 4 == 0 && year % 100 != 0) || year % 400 == 0 {
            29
        } else {
            28
        }
    } else if month == 4 || month == 6 || month == 9 || month == 11 {
        30
    } else {
        31
    }
}

} // verus!
