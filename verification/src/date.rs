//! Calendar dates of the proleptic Gregorian calendar, with the weekday
//! arithmetic that the holiday rules need.
//!
//! A [`Date`] is a plain (year, month, day) value.  The library supports the
//! years 1 through 9999; every query of the engine takes dates of that range.

use vstd::prelude::*;

verus! {

/// Whether `y` is a Gregorian leap year.
pub open spec fn leap_year(y: int) -> bool {
    (y % 4 == 0 && y % 100 != 0) || y % 400 == 0
}

/// The number of days of month `m` of year `y` (1 = January .. 12 = December).
pub open spec fn month_len(y: int, m: int) -> int {
    if m == 2 {
        if leap_year(y) {
            29
        } else {
            28
        }
    } else if m == 4 || m == 6 || m == 9 || m == 11 {
        30
    } else {
        31
    }
}

/// Whether (y, m, d) is a calendar date the library supports.
pub open spec fn valid_ymd(y: int, m: int, d: int) -> bool {
    &&& 1 <= y <= 9999
    &&& 1 <= m <= 12
    &&& 1 <= d <= month_len(y, m)
}

/// A calendar date with no time component.
#[derive(Clone, Copy, PartialEq, Eq, Structural, Debug)]
pub struct Date {
    pub year: i32,
    pub month: u32,
    pub day: u32,
}

/// A day of the week.
#[derive(Clone, Copy, PartialEq, Eq, Structural, Debug)]
pub enum Weekday {
    Mon,
    Tue,
    Wed,
    Thu,
    Fri,
    Sat,
    Sun,
}

impl Weekday {
    /// Days since Sunday: Sunday is 0, Monday is 1, .., Saturday is 6.
    pub open spec fn spec_num_days_from_sunday(self) -> int {
        match self {
            Weekday::Sun => 0,
            Weekday::Mon => 1,
            Weekday::Tue => 2,
            Weekday::Wed => 3,
            Weekday::Thu => 4,
            Weekday::Fri => 5,
            Weekday::Sat => 6,
        }
    }

    /// Days since Sunday: Sunday is 0, Monday is 1, .., Saturday is 6.
    pub fn num_days_from_sunday(&self) -> (r: u32)
        ensures
            r == self.spec_num_days_from_sunday(),
    {
        match self {
            Weekday::Sun => 0,
            Weekday::Mon => 1,
            Weekday::Tue => 2,
            Weekday::Wed => 3,
            Weekday::Thu => 4,
            Weekday::Fri => 5,
            Weekday::Sat => 6,
        }
    }
}

/// The weekday whose days-since-Sunday index is `i`.
pub open spec fn weekday_of_index(i: int) -> Weekday {
    if i == 0 {
        Weekday::Sun
    } else if i == 1 {
        Weekday::Mon
    } else if i == 2 {
        Weekday::Tue
    } else if i == 3 {
        Weekday::Wed
    } else if i == 4 {
        Weekday::Thu
    } else if i == 5 {
        Weekday::Fri
    } else {
        Weekday::Sat
    }
}

/// The days-since-Sunday index of `d`'s weekday, by Sakamoto's congruence
/// (0 = Sunday .. 6 = Saturday).
pub open spec fn weekday_index(d: Date) -> int {
    let y = if d.month < 3 {
        d.year - 1
    } else {
        d.year as int
    };
    (y + y / 4 - y / 100 + y / 400 + month_anchor(d.month as int) + d.day) % 7
}

/// The month's term of Sakamoto's weekday congruence.
pub open spec fn month_anchor(m: int) -> int {
    if m == 1 {
        0
    } else if m == 2 {
        3
    } else if m == 3 {
        2
    } else if m == 4 {
        5
    } else if m == 5 {
        0
    } else if m == 6 {
        3
    } else if m == 7 {
        5
    } else if m == 8 {
        1
    } else if m == 9 {
        4
    } else if m == 10 {
        6
    } else if m == 11 {
        2
    } else {
        4
    }
}

/// A total key that orders well-formed dates as the calendar does:
/// `date_key(a) < date_key(b)` exactly when `a` is an earlier day than `b`.
pub open spec fn date_key(d: Date) -> int {
    d.year * 512 + d.month * 32 + d.day
}

/// The calendar day after `d`.
pub open spec fn next_ymd(d: Date) -> Date {
    if d.day < month_len(d.year as int, d.month as int) && d.day < 31 {
        Date { year: d.year, month: d.month, day: (d.day + 1) as u32 }
    } else if d.month < 12 {
        Date { year: d.year, month: (d.month + 1) as u32, day: 1 }
    } else {
        Date { year: (d.year + 1) as i32, month: 1, day: 1 }
    }
}

/// The calendar day before `d`.
pub open spec fn prev_ymd(d: Date) -> Date {
    if d.day > 1 {
        Date { year: d.year, month: d.month, day: (d.day - 1) as u32 }
    } else if d.month > 1 {
        Date {
            year: d.year,
            month: (d.month - 1) as u32,
            day: month_len(d.year as int, d.month - 1) as u32,
        }
    } else {
        Date { year: (d.year - 1) as i32, month: 12, day: 31 }
    }
}

impl Date {
    /// Whether the date lies in the supported calendar.
    pub open spec fn wf(self) -> bool {
        valid_ymd(self.year as int, self.month as int, self.day as int)
    }

    /// The first supported date, January 1 of year 1.
    pub open spec fn is_min(self) -> bool {
        self.year == 1 && self.month == 1 && self.day == 1
    }

    /// The last supported date, December 31 of year 9999.
    pub open spec fn is_max(self) -> bool {
        self.year == 9999 && self.month == 12 && self.day == 31
    }

    /// The date of the given year, month and day.
    pub fn from_ymd(year: i32, month: u32, day: u32) -> (r: Date)
        requires
            valid_ymd(year as int, month as int, day as int),
        ensures
            r == (Date { year, month, day }),
            r.wf(),
    {
        Date { year, month, day }
    }

    /// Whether (year, month, day) is a date the library supports.
    pub fn valid(year: i32, month: u32, day: u32) -> (r: bool)
        ensures
            r == valid_ymd(year as int, month as int, day as int),
    {
        1 <= year && year <= 9999 && 1 <= month && month <= 12 && 1 <= day && day <= days_in_month(
            year,
            month,
        )
    }

    /// The day of the week on which the date falls.
    pub fn weekday(&self) -> (w: Weekday)
        requires
            self.wf(),
        ensures
            w == weekday_of_index(weekday_index(*self)),
            w.spec_num_days_from_sunday() == weekday_index(*self),
    {
        let y: u32 = if self.month < 3 {
            (self.year - 1) as u32
        } else {
            self.year as u32
        };
        let anchor: u32 = month_anchor_of(self.month);
        let idx: u32 = (y + y / 4 - y / 100 + y / 400 + anchor + self.day) % 7;
        match idx {
            0 => Weekday::Sun,
            1 => Weekday::Mon,
            2 => Weekday::Tue,
            3 => Weekday::Wed,
            4 => Weekday::Thu,
            5 => Weekday::Fri,
            _ => Weekday::Sat,
        }
    }

    /// The calendar day after this one.
    pub fn next_day(&self) -> (r: Date)
        requires
            self.wf(),
            !self.is_max(),
        ensures
            r == next_ymd(*self),
            r.wf(),
    {
        if self.day < days_in_month(self.year, self.month) {
            Date { year: self.year, month: self.month, day: self.day + 1 }
        } else if self.month < 12 {
            Date { year: self.year, month: self.month + 1, day: 1 }
        } else {
            Date { year: self.year + 1, month: 1, day: 1 }
        }
    }

    /// The calendar day before this one.
    pub fn prev_day(&self) -> (r: Date)
        requires
            self.wf(),
            !self.is_min(),
        ensures
            r == prev_ymd(*self),
            r.wf(),
    {
        if self.day > 1 {
            Date { year: self.year, month: self.month, day: self.day - 1 }
        } else if self.month > 1 {
            Date {
                year: self.year,
                month: self.month - 1,
                day: days_in_month(self.year, self.month - 1),
            }
        } else {
            Date { year: self.year - 1, month: 12, day: 31 }
        }
    }

    /// Whether this date is on or before `other` in the calendar.
    pub fn on_or_before(&self, other: &Date) -> (r: bool)
        requires
            self.wf(),
            other.wf(),
        ensures
            r == (date_key(*self) <= date_key(*other)),
    {
        if self.year != other.year {
            self.year < other.year
        } else if self.month != other.month {
            self.month < other.month
        } else {
            self.day <= other.day
        }
    }
}

/// Whether `year` is a Gregorian leap year.
pub fn is_leap_year(year: i32) -> (r: bool)
    ensures
        r == leap_year(year as int),
{
    (year % 4 == 0 && year % 100 != 0) || year % 400 == 0
}

/// The number of days of month `month` of year `year`.
pub fn days_in_month(year: i32, month: u32) -> (r: u32)
    ensures
        r == month_len(year as int, month as int),
{
    if month == 2 {
        if is_leap_year(year) {
            29
        } else {
            28
        }
    } else if month == 4 || month == 6 || month == 9 || month == 11 {
        30
    } else {
        31
    }
}

/// The month's term of Sakamoto's weekday congruence.
fn month_anchor_of(month: u32) -> (r: u32)
    ensures
        r == month_anchor(month as int),
{
    if month == 1 {
        0
    } else if month == 2 {
        3
    } else if month == 3 {
        2
    } else if month == 4 {
        5
    } else if month == 5 {
        0
    } else if month == 6 {
        3
    } else if month == 7 {
        5
    } else if month == 8 {
        1
    } else if month == 9 {
        4
    } else if month == 10 {
        6
    } else if month == 11 {
        2
    } else {
        4
    }
}

/// Stepping to the next day strictly raises the date key.
pub proof fn lemma_next_key_increases(d: Date)
    requires
        d.wf(),
    ensures
        date_key(next_ymd(d)) > date_key(d),
{
}

/// For well-formed dates the key is injective: equal keys mean equal dates.
pub proof fn lemma_key_injective(a: Date, b: Date)
    requires
        a.wf(),
        b.wf(),
        date_key(a) == date_key(b),
    ensures
        a == b,
{
}

/// Every well-formed date is at most the key of December 31 of year 9999.
pub proof fn lemma_key_below_max(d: Date)
    requires
        d.wf(),
    ensures
        date_key(d) <= date_key(Date { year: 9999, month: 12, day: 31 }),
        !d.is_max() ==> date_key(d) < date_key(Date { year: 9999, month: 12, day: 31 }),
{
}

} // verus!
