//! Civil (timezone-naive) dates and times in the proleptic Gregorian calendar.

use vstd::prelude::*;

verus! {

/// The first year a date may have.
pub const MIN_YEAR: i32 = -262143;

/// The last year a date may have.
pub const MAX_YEAR: i32 = 262142;

/// Seconds in one day.
pub const DAY_SECONDS: i64 = 86400;

/// A calendar date.
#[derive(Clone, Copy, Debug, PartialEq, Eq, Structural)]
pub struct CivilDate {
    pub year: i32,
    pub month: u32,
    pub day: u32,
}

/// A time of day. A leap second is written as second 59 with a nanosecond
/// count of a thousand million or more.
#[derive(Clone, Copy, Debug, PartialEq, Eq, Structural)]
pub struct CivilTime {
    pub hour: u32,
    pub minute: u32,
    pub second: u32,
    pub nanosecond: u32,
}

/// A date with a time of day, as printed on a wall clock.
#[derive(Clone, Copy, Debug, PartialEq, Eq, Structural)]
pub struct CivilDateTime {
    pub date: CivilDate,
    pub time: CivilTime,
}

/// Whether `year` has a 29th of February.
pub open spec fn is_leap_year(year: int) -> bool {
    year % 4 == 0 && (year % 100 != 0 || year % 400 == 0)
}

/// The number of days of `month` in `year` (0 for a month that does not
/// exist).
pub open spec fn days_in_month(year: int, month: int) -> int {
    if month == 2 {
        if is_leap_year(year) {
            29
        } else {
            28
        }
    } else if month == 4 || month == 6 || month == 9 || month == 11 {
        30
    } else if 1 <= month <= 12 {
        31
    } else {
        0
    }
}

/// The day after `d`, if the calendar has one.
pub open spec fn next_day(d: CivilDate) -> Option<CivilDate> {
    if d.day < days_in_month(d.year as int, d.month as int) {
        Some(CivilDate { year: d.year, month: d.month, day: (d.day + 1) as u32 })
    } else if d.month < 12 {
        Some(CivilDate { year: d.year, month: (d.month + 1) as u32, day: 1 })
    } else if d.year < MAX_YEAR {
        Some(CivilDate { year: (d.year + 1) as i32, month: 1, day: 1 })
    } else {
        None
    }
}

/// The day before `d`, if the calendar has one.
pub open spec fn previous_day(d: CivilDate) -> Option<CivilDate> {
    if d.day > 1 {
        Some(CivilDate { year: d.year, month: d.month, day: (d.day - 1) as u32 })
    } else if d.month > 1 {
        Some(
            CivilDate {
                year: d.year,
                month: (d.month - 1) as u32,
                day: days_in_month(d.year as int, d.month - 1) as u32,
            },
        )
    } else if d.year > MIN_YEAR {
        Some(CivilDate { year: (d.year - 1) as i32, month: 12, day: 31 })
    } else {
        None
    }
}

/// Executable form of [`is_leap_year`].
pub fn leap_year(year: i32) -> (leap: bool)
    ensures
        leap == is_leap_year(year as int),
{
    let by4: bool = year % 4 == 0;
    let by100: bool = year % 100 == 0;
    let by400: bool = year % 400 == 0;
    proof {
        // The remainder of a negative number differs between executable and
        // mathematical arithmetic, but both are zero for the same numbers.
        assert(by4 == ((year as int) % 4 == 0));
        assert(by100 == ((year as int) % 100 == 0));
        assert(by400 == ((year as int) % 400 == 0));
    }
    by4 && (!by100 || by400)
}

/// Executable form of [`days_in_month`].
pub fn month_length(year: i32, month: u32) -> (days: u32)
    ensures
        days == days_in_month(year as int, month as int),
{
    if month == 2 {
        if leap_year(year) {
            29
        } else {
            28
        }
    } else if month == 4 || month == 6 || month == 9 || month == 11 {
        30
    } else if 1 <= month && month <= 12 {
        31
    } else {
        0
    }
}

impl CivilDate {
    /// Whether this is a day of the calendar.
    pub open spec fn is_valid(self) -> bool {
        &&& MIN_YEAR <= self.year <= MAX_YEAR
        &&& 1 <= self.month <= 12
        &&& 1 <= self.day <= days_in_month(self.year as int, self.month as int)
    }

    /// Whether `self` comes before `other`.
    pub open spec fn is_before(self, other: CivilDate) -> bool {
        self.year < other.year || (self.year == other.year && (self.month < other.month || (
        self.month == other.month && self.day < other.day)))
    }

    /// Executable form of [`CivilDate::is_valid`].
    pub fn valid(&self) -> (ok: bool)
        ensures
            ok == self.is_valid(),
    {
        MIN_YEAR <= self.year && self.year <= MAX_YEAR && 1 <= self.month && self.month <= 12 && 1
            <= self.day && self.day <= month_length(self.year, self.month)
    }

    /// The day after this one; `None` after the last day of the calendar.
    pub fn succ(&self) -> (next: Option<CivilDate>)
        requires
            self.is_valid(),
        ensures
            next == next_day(*self),
            next matches Some(d) ==> d.is_valid() && self.is_before(d),
    {
        if self.day < month_length(self.year, self.month) {
            Some(CivilDate { year: self.year, month: self.month, day: self.day + 1 })
        } else if self.month < 12 {
            Some(CivilDate { year: self.year, month: self.month + 1, day: 1 })
        } else if self.year < MAX_YEAR {
            Some(CivilDate { year: self.year + 1, month: 1, day: 1 })
        } else {
            None
        }
    }

    /// The day before this one; `None` before the first day of the calendar.
    pub fn pred(&self) -> (previous: Option<CivilDate>)
        requires
            self.is_valid(),
        ensures
            previous == previous_day(*self),
            previous matches Some(d) ==> d.is_valid() && d.is_before(*self),
    {
        if self.day > 1 {
            Some(CivilDate { year: self.year, month: self.month, day: self.day - 1 })
        } else if self.month > 1 {
            Some(
                CivilDate {
                    year: self.year,
                    month: self.month - 1,
                    day: month_length(self.year, self.month - 1),
                },
            )
        } else if self.year > MIN_YEAR {
            Some(CivilDate { year: self.year - 1, month: 12, day: 31 })
        } else {
            None
        }
    }
}

/// Going to the next day and back returns to the day one started from.
pub proof fn lemma_next_then_previous(d: CivilDate)
    requires
        d.is_valid(),
        next_day(d) is Some,
    ensures
        previous_day(next_day(d).unwrap()) == Some(d),
{
}

/// Going to the previous day and forth returns to the day one started from.
pub proof fn lemma_previous_then_next(d: CivilDate)
    requires
        d.is_valid(),
        previous_day(d) is Some,
    ensures
        next_day(previous_day(d).unwrap()) == Some(d),
{
}

impl CivilTime {
    /// Whether this is a time of day.
    pub open spec fn is_valid(self) -> bool {
        self.hour < 24 && self.minute < 60 && self.second < 60 && self.nanosecond < 2_000_000_000
    }

    /// Whether this is a time of hours and minutes alone: no seconds and no
    /// fraction of a second.
    pub open spec fn is_whole_minute(self) -> bool {
        self.second == 0 && self.nanosecond == 0
    }

    /// Seconds since midnight.
    pub open spec fn second_of_day(self) -> int {
        self.hour * 3600 + self.minute * 60 + self.second
    }

    /// Whether `self` comes before `other` on the same day.
    pub open spec fn is_before(self, other: CivilTime) -> bool {
        self.second_of_day() < other.second_of_day() || (self.second_of_day()
            == other.second_of_day() && self.nanosecond < other.nanosecond)
    }

    /// Executable form of [`CivilTime::is_valid`].
    pub fn valid(&self) -> (ok: bool)
        ensures
            ok == self.is_valid(),
    {
        self.hour < 24 && self.minute < 60 && self.second < 60 && self.nanosecond < 2_000_000_000
    }

    /// Executable form of [`CivilTime::second_of_day`].
    pub fn seconds(&self) -> (s: i64)
        requires
            self.is_valid(),
        ensures
            s == self.second_of_day(),
            0 <= s < DAY_SECONDS,
    {
        let h: i64 = self.hour as i64;
        let m: i64 = self.minute as i64;
        let s: i64 = self.second as i64;
        h * 3600 + m * 60 + s
    }

    /// Executable form of [`CivilTime::is_before`].
    pub fn before(&self, other: &CivilTime) -> (b: bool)
        requires
            self.is_valid(),
            other.is_valid(),
        ensures
            b == self.is_before(*other),
    {
        let a = self.seconds();
        let o = other.seconds();
        a < o || (a == o && self.nanosecond < other.nanosecond)
    }
}

/// The time of day that is `seconds` after midnight, with the given
/// nanosecond count.
pub open spec fn time_at(seconds: int, nanosecond: u32) -> CivilTime {
    CivilTime {
        hour: (seconds / 3600) as u32,
        minute: ((seconds % 3600) / 60) as u32,
        second: (seconds % 60) as u32,
        nanosecond,
    }
}

/// Executable form of [`time_at`].
pub fn time_from_seconds(seconds: i64, nanosecond: u32) -> (t: CivilTime)
    requires
        0 <= seconds < DAY_SECONDS,
        nanosecond < 2_000_000_000,
    ensures
        t == time_at(seconds as int, nanosecond),
        t.is_valid(),
        t.second_of_day() == seconds,
{
    CivilTime {
        hour: (seconds / 3600) as u32,
        minute: ((seconds % 3600) / 60) as u32,
        second: (seconds % 60) as u32,
        nanosecond,
    }
}

/// The wall-clock reading `offset` seconds earlier than `local`: the date
/// moves by at most one day.
pub open spec fn shifted_back(local: CivilDateTime, offset: int) -> Option<CivilDateTime> {
    let t = local.time.second_of_day() - offset;
    if t < 0 {
        match previous_day(local.date) {
            Some(d) => Some(
                CivilDateTime { date: d, time: time_at(t + DAY_SECONDS, local.time.nanosecond) },
            ),
            None => None,
        }
    } else if t >= DAY_SECONDS {
        match next_day(local.date) {
            Some(d) => Some(
                CivilDateTime { date: d, time: time_at(t - DAY_SECONDS, local.time.nanosecond) },
            ),
            None => None,
        }
    } else {
        Some(CivilDateTime { date: local.date, time: time_at(t, local.time.nanosecond) })
    }
}

impl CivilDateTime {
    /// Whether both parts are valid.
    pub open spec fn is_valid(self) -> bool {
        self.date.is_valid() && self.time.is_valid()
    }

    /// Whether `self` comes before `other`.
    pub open spec fn is_before(self, other: CivilDateTime) -> bool {
        self.date.is_before(other.date) || (self.date == other.date && self.time.is_before(
            other.time,
        ))
    }

    /// Executable form of [`CivilDateTime::is_valid`].
    pub fn valid(&self) -> (ok: bool)
        ensures
            ok == self.is_valid(),
    {
        self.date.valid() && self.time.valid()
    }

    /// Executable form of [`CivilDateTime::is_before`].
    pub fn before(&self, other: &CivilDateTime) -> (b: bool)
        requires
            self.is_valid(),
            other.is_valid(),
        ensures
            b == self.is_before(*other),
    {
        let a = &self.date;
        let o = &other.date;
        if a.year != o.year {
            a.year < o.year
        } else if a.month != o.month {
            a.month < o.month
        } else if a.day != o.day {
            a.day < o.day
        } else {
            self.time.before(&other.time)
        }
    }

    /// The wall-clock reading `offset` seconds earlier; `None` where that
    /// leaves the calendar.
    pub fn minus_seconds(&self, offset: i32) -> (shifted: Option<CivilDateTime>)
        requires
            self.is_valid(),
            -DAY_SECONDS < offset < DAY_SECONDS,
        ensures
            shifted == shifted_back(*self, offset as int),
            shifted matches Some(s) ==> s.is_valid(),
    {
        let t: i64 = self.time.seconds() - offset as i64;
        if t < 0 {
            match self.date.pred() {
                Some(d) => Some(
                    CivilDateTime {
                        date: d,
                        time: time_from_seconds(t + DAY_SECONDS, self.time.nanosecond),
                    },
                ),
                None => None,
            }
        } else if t >= DAY_SECONDS {
            match self.date.succ() {
                Some(d) => Some(
                    CivilDateTime {
                        date: d,
                        time: time_from_seconds(t - DAY_SECONDS, self.time.nanosecond),
                    },
                ),
                None => None,
            }
        } else {
            Some(CivilDateTime { date: self.date, time: time_from_seconds(t, self.time.nanosecond) })
        }
    }
}

} // verus!
