//! Calendar dates and instants.
//!
//! A `Date` is a plain Gregorian year/month/day triple restricted to the
//! years 1970..=9999; a `Timestamp` is a number of seconds since
//! 1970-01-01T00:00:00 UTC. Day numbers (days since 1970-01-01) are defined
//! by a recursive specification and computed by verified loops, so date
//! differences, weekdays and the conversion from a day number back to a
//! calendar date are all proved against the same definition.

use crate::text;
use vstd::prelude::*;

verus! {

pub const MIN_YEAR: i32 = 1970;

pub const MAX_YEAR: i32 = 9999;

/// A Gregorian calendar date (date-only, no time component).
#[derive(Clone, Copy, PartialEq, Eq, Structural, Debug)]
pub struct Date {
    pub year: i32,
    pub month: u32,
    pub day: u32,
}

pub open spec fn is_leap_year(y: int) -> bool {
    y % 4 == 0 && (y % 100 != 0 || y % 400 == 0)
}

pub open spec fn spec_days_in_year(y: int) -> int {
    if is_leap_year(y) {
        366
    } else {
        365
    }
}

pub open spec fn spec_days_in_month(y: int, m: int) -> int {
    if m == 2 {
        if is_leap_year(y) {
            29
        } else {
            28
        }
    } else if m == 4 || m == 6 || m == 9 || m == 11 {
        30
    } else {
        31
    }
}

/// Days in all years of the range `MIN_YEAR..y`.
pub open spec fn days_before_year(y: int) -> int
    decreases y,
{
    if y <= MIN_YEAR as int {
        0
    } else {
        days_before_year(y - 1) + spec_days_in_year(y - 1)
    }
}

/// Days in the months `1..m` of year `y`.
pub open spec fn days_before_month(y: int, m: int) -> int
    decreases m,
{
    if m <= 1 {
        0
    } else {
        days_before_month(y, m - 1) + spec_days_in_month(y, m - 1)
    }
}

/// Day number: days since 1970-01-01 (which is day 0).
pub open spec fn spec_day_number(d: Date) -> int {
    days_before_year(d.year as int) + days_before_month(d.year as int, d.month as int) + d.day - 1
}

pub proof fn lemma_days_before_year_bound(y: int)
    requires
        MIN_YEAR as int <= y,
    ensures
        365 * (y - MIN_YEAR as int) <= days_before_year(y) <= 366 * (y - MIN_YEAR as int),
    decreases y,
{
    if y > MIN_YEAR as int {
        lemma_days_before_year_bound(y - 1);
    }
}

pub proof fn lemma_days_before_month_bound(y: int, m: int)
    requires
        1 <= m <= 13,
    ensures
        28 * (m - 1) <= days_before_month(y, m) <= 31 * (m - 1),
    decreases m,
{
    if m > 1 {
        lemma_days_before_month_bound(y, m - 1);
    }
}

/// A full year of months is exactly the year's length.
pub proof fn lemma_days_before_month_full(y: int)
    ensures
        days_before_month(y, 13) == spec_days_in_year(y),
{
    reveal_with_fuel(days_before_month, 13);
}

impl Date {
    /// The date is a real calendar date within the supported year range.
    pub open spec fn valid(self) -> bool {
        MIN_YEAR <= self.year <= MAX_YEAR && 1 <= self.month <= 12 && 1 <= self.day
            && self.day as int <= spec_days_in_month(self.year as int, self.month as int)
    }

    /// Construct a date, rejecting anything that is not a real calendar date
    /// in the supported year range.
    pub fn new(year: i32, month: u32, day: u32) -> (r: Option<Date>)
        ensures
            r is Some <==> (Date { year, month, day }).valid(),
            r is Some ==> r->Some_0 == (Date { year, month, day }),
    {
        if MIN_YEAR <= year && year <= MAX_YEAR && 1 <= month && month <= 12 && 1 <= day && day
            <= days_in_month(year, month) {
            Some(Date { year, month, day })
        } else {
            None
        }
    }

    /// Days since 1970-01-01 (day 0).
    pub fn day_number(&self) -> (n: i64)
        requires
            self.valid(),
        ensures
            n == spec_day_number(*self),
            0 <= n <= 3000000,
    {
        proof {
            lemma_days_before_year_bound(self.year as int);
            lemma_days_before_month_bound(self.year as int, self.month as int);
        }
        let mut acc: i64 = 0;
        let mut y: i32 = MIN_YEAR;
        while y < self.year
            invariant
                MIN_YEAR <= y <= self.year <= MAX_YEAR,
                acc == days_before_year(y as int),
                acc <= 366 * (y - MIN_YEAR),
            decreases self.year - y,
        {
            proof {
                lemma_days_before_year_bound(y as int);
            }
            acc = acc + days_in_year(y) as i64;
            y = y + 1;
        }
        let mut m: u32 = 1;
        while m < self.month
            invariant
                1 <= m <= self.month <= 12,
                self.valid(),
                acc == days_before_year(self.year as int) + days_before_month(
                    self.year as int,
                    m as int,
                ),
                acc <= 366 * (self.year - MIN_YEAR) + 31 * (m - 1),
            decreases self.month - m,
        {
            acc = acc + days_in_month(self.year, m) as i64;
            m = m + 1;
        }
        acc + (self.day - 1) as i64
    }
}

/// A valid date's day number lies before the first day of the next year.
pub proof fn lemma_day_number_below_next_year(d: Date)
    requires
        d.valid(),
    ensures
        spec_day_number(d) < days_before_year(d.year as int + 1),
        days_before_year(d.year as int) <= spec_day_number(d),
{
    lemma_days_before_month_full(d.year as int);
    lemma_days_before_month_mono(d.year as int, d.month as int, 13);
    assert(days_before_year(d.year as int + 1) == days_before_year(d.year as int)
        + spec_days_in_year(d.year as int));
    lemma_days_before_month_bound(d.year as int, d.month as int);
}

/// `days_before_month` grows by at least 28 per month.
pub proof fn lemma_days_before_month_mono(y: int, m1: int, m2: int)
    requires
        1 <= m1 <= m2 <= 13,
    ensures
        days_before_month(y, m1) + 28 * (m2 - m1) <= days_before_month(y, m2),
    decreases m2 - m1,
{
    if m1 < m2 {
        lemma_days_before_month_mono(y, m1, m2 - 1);
    }
}

/// Convert a day number (days since 1970-01-01) back to the calendar date;
/// inverse of `Date::day_number`.
pub fn date_from_day_number(n: i64) -> (d: Date)
    requires
        0 <= n,
        n < days_before_year(MAX_YEAR as int + 1),
    ensures
        d.valid(),
        spec_day_number(d) == n,
{
    let mut y: i32 = MIN_YEAR;
    let mut rem: i64 = n;
    loop
        invariant
            MIN_YEAR <= y <= MAX_YEAR,
            rem == n - days_before_year(y as int),
            0 <= rem,
            n < days_before_year(MAX_YEAR as int + 1),
        ensures
            MIN_YEAR <= y <= MAX_YEAR,
            rem == n - days_before_year(y as int),
            0 <= rem < spec_days_in_year(y as int),
        decreases MAX_YEAR - y,
    {
        let len = days_in_year(y) as i64;
        if rem < len {
            break ;
        }
        proof {
            if y == MAX_YEAR {
                assert(days_before_year(MAX_YEAR as int + 1) == days_before_year(MAX_YEAR as int)
                    + spec_days_in_year(MAX_YEAR as int));
                assert(false);
            }
        }
        rem = rem - len;
        y = y + 1;
    }
    let mut m: u32 = 1;
    loop
        invariant
            1 <= m <= 12,
            MIN_YEAR <= y <= MAX_YEAR,
            rem == n - days_before_year(y as int) - days_before_month(y as int, m as int),
            0 <= rem,
            n - days_before_year(y as int) < spec_days_in_year(y as int),
        ensures
            1 <= m <= 12,
            rem == n - days_before_year(y as int) - days_before_month(y as int, m as int),
            0 <= rem < spec_days_in_month(y as int, m as int),
        decreases 12 - m,
    {
        let len = days_in_month(y, m) as i64;
        if rem < len {
            break ;
        }
        proof {
            if m == 12 {
                lemma_days_before_month_full(y as int);
                assert(days_before_month(y as int, 13) == days_before_month(y as int, 12)
                    + spec_days_in_month(y as int, 12));
                assert(false);
            }
        }
        rem = rem - len;
        m = m + 1;
    }
    Date { year: y, month: m, day: (rem + 1) as u32 }
}

impl Date {
    /// Calendar order; equivalent to comparing day numbers.
    pub open spec fn spec_le(self, other: Date) -> bool {
        self.year < other.year || (self.year == other.year && (self.month < other.month || (
        self.month == other.month && self.day <= other.day)))
    }

    pub open spec fn spec_lt(self, other: Date) -> bool {
        self.spec_le(other) && self != other
    }

    /// `self` is on or before `other` in calendar order.
    pub fn le(&self, other: &Date) -> (r: bool)
        ensures
            r == self.spec_le(*other),
    {
        self.year < other.year || (self.year == other.year && (self.month < other.month || (
        self.month == other.month && self.day <= other.day)))
    }

    /// `self` is strictly before `other` in calendar order.
    pub fn lt(&self, other: &Date) -> (r: bool)
        ensures
            r == self.spec_lt(*other),
    {
        self.year < other.year || (self.year == other.year && (self.month < other.month || (
        self.month == other.month && self.day < other.day)))
    }

    /// Signed number of days from `self` to `other` (positive when `other`
    /// is later).
    pub fn days_until(&self, other: &Date) -> (n: i64)
        requires
            self.valid(),
            other.valid(),
        ensures
            n == spec_day_number(*other) - spec_day_number(*self),
    {
        other.day_number() - self.day_number()
    }
}

/// Calendar order agrees with day-number order on valid dates.
pub proof fn lemma_le_iff_day_number_le(a: Date, b: Date)
    requires
        a.valid(),
        b.valid(),
    ensures
        a.spec_le(b) <==> spec_day_number(a) <= spec_day_number(b),
        a.spec_lt(b) <==> spec_day_number(a) < spec_day_number(b),
{
    if a.spec_lt(b) {
        lemma_day_number_between(a, b);
    }
    if b.spec_lt(a) {
        lemma_day_number_between(b, a);
    }
}

proof fn lemma_day_number_between(a: Date, b: Date)
    requires
        a.valid(),
        b.valid(),
        a.spec_lt(b),
    ensures
        spec_day_number(a) < spec_day_number(b),
{
    if a.year < b.year {
        lemma_day_number_below_next_year(a);
        lemma_days_before_year_mono(a.year as int + 1, b.year as int);
        lemma_days_before_month_bound(b.year as int, b.month as int);
    } else if a.month < b.month {
        lemma_days_before_month_mono(a.year as int, a.month as int + 1, b.month as int);
        assert(days_before_month(a.year as int, a.month as int + 1) == days_before_month(
            a.year as int,
            a.month as int,
        ) + spec_days_in_month(a.year as int, a.month as int));
    } else {
    }
}

/// `days_before_year` is monotone.
pub proof fn lemma_days_before_year_mono(y1: int, y2: int)
    requires
        y1 <= y2,
    ensures
        days_before_year(y1) <= days_before_year(y2),
    decreases y2 - y1,
{
    if y1 < y2 {
        lemma_days_before_year_mono(y1, y2 - 1);
        if y2 - 1 >= MIN_YEAR as int {
        }
    }
}

pub open spec fn spec_month_name(m: int) -> Seq<char> {
    if m == 1 {
        "January"@
    } else if m == 2 {
        "February"@
    } else if m == 3 {
        "March"@
    } else if m == 4 {
        "April"@
    } else if m == 5 {
        "May"@
    } else if m == 6 {
        "June"@
    } else if m == 7 {
        "July"@
    } else if m == 8 {
        "August"@
    } else if m == 9 {
        "September"@
    } else if m == 10 {
        "October"@
    } else if m == 11 {
        "November"@
    } else {
        "December"@
    }
}

pub open spec fn spec_month_abbr(m: int) -> Seq<char> {
    if m == 1 {
        "Jan"@
    } else if m == 2 {
        "Feb"@
    } else if m == 3 {
        "Mar"@
    } else if m == 4 {
        "Apr"@
    } else if m == 5 {
        "May"@
    } else if m == 6 {
        "Jun"@
    } else if m == 7 {
        "Jul"@
    } else if m == 8 {
        "Aug"@
    } else if m == 9 {
        "Sep"@
    } else if m == 10 {
        "Oct"@
    } else if m == 11 {
        "Nov"@
    } else {
        "Dec"@
    }
}

pub fn month_name(m: u32) -> (r: &'static str)
    requires
        1 <= m <= 12,
    ensures
        r@ == spec_month_name(m as int),
{
    match m {
        1 => "January",
        2 => "February",
        3 => "March",
        4 => "April",
        5 => "May",
        6 => "June",
        7 => "July",
        8 => "August",
        9 => "September",
        10 => "October",
        11 => "November",
        _ => "December",
    }
}

pub fn month_abbr(m: u32) -> (r: &'static str)
    requires
        1 <= m <= 12,
    ensures
        r@ == spec_month_abbr(m as int),
{
    match m {
        1 => "Jan",
        2 => "Feb",
        3 => "Mar",
        4 => "Apr",
        5 => "May",
        6 => "Jun",
        7 => "Jul",
        8 => "Aug",
        9 => "Sep",
        10 => "Oct",
        11 => "Nov",
        _ => "Dec",
    }
}

/// Weekday of a day number: 1970-01-01 (day 0) was a Thursday.
pub open spec fn spec_weekday_name(day_number: int) -> Seq<char> {
    let w = day_number % 7;
    if w == 0 {
        "Thursday"@
    } else if w == 1 {
        "Friday"@
    } else if w == 2 {
        "Saturday"@
    } else if w == 3 {
        "Sunday"@
    } else if w == 4 {
        "Monday"@
    } else if w == 5 {
        "Tuesday"@
    } else {
        "Wednesday"@
    }
}

/// Full date rendering as month name, space, two-digit day: `July 04`.
pub open spec fn spec_month_day_long(d: Date) -> Seq<char> {
    spec_month_name(d.month as int) + seq![' '] + text::spec_two_digits(d.day as int)
}

/// Abbreviated date rendering: `Mar 05`.
pub open spec fn spec_month_day_short(d: Date) -> Seq<char> {
    spec_month_abbr(d.month as int) + seq![' '] + text::spec_two_digits(d.day as int)
}

impl Date {
    /// Name of this date's weekday.
    pub fn weekday_name(&self) -> (r: &'static str)
        requires
            self.valid(),
        ensures
            r@ == spec_weekday_name(spec_day_number(*self)),
    {
        let w = self.day_number() % 7;
        match w {
            0 => "Thursday",
            1 => "Friday",
            2 => "Saturday",
            3 => "Sunday",
            4 => "Monday",
            5 => "Tuesday",
            _ => "Wednesday",
        }
    }

    /// Render as full month name and two-digit day, e.g. `July 04`.
    pub fn format_month_day_long(&self) -> (r: String)
        requires
            self.valid(),
        ensures
            r@ == spec_month_day_long(*self),
    {
        let mut s = month_name(self.month).to_owned();
        s.append(" ");
        proof {
            reveal_strlit(" ");
        }
        s.append(text::fmt_two_digits(self.day as u64).as_str());
        proof {
            assert(s@ =~= spec_month_day_long(*self));
        }
        s
    }

    /// Render as abbreviated month name and two-digit day, e.g. `Mar 05`.
    pub fn format_month_day_short(&self) -> (r: String)
        requires
            self.valid(),
        ensures
            r@ == spec_month_day_short(*self),
    {
        let mut s = month_abbr(self.month).to_owned();
        s.append(" ");
        proof {
            reveal_strlit(" ");
        }
        s.append(text::fmt_two_digits(self.day as u64).as_str());
        proof {
            assert(s@ =~= spec_month_day_short(*self));
        }
        s
    }
}

pub const SECS_PER_DAY: i64 = 86400;

/// An instant in time: whole seconds since 1970-01-01T00:00:00 UTC.
#[derive(Clone, Copy, PartialEq, Eq, Structural, Debug)]
pub struct Timestamp {
    pub secs: i64,
}

impl Timestamp {
    /// The instant lies within the supported year range.
    pub open spec fn valid(self) -> bool {
        0 <= self.secs && self.secs < days_before_year(MAX_YEAR as int + 1) * (SECS_PER_DAY as int)
    }

    /// Day number (days since 1970-01-01) of the UTC day holding this
    /// instant.
    pub open spec fn spec_epoch_day(self) -> int {
        self.secs as int / (SECS_PER_DAY as int)
    }

    pub fn epoch_day(&self) -> (d: i64)
        requires
            self.valid(),
        ensures
            d == self.spec_epoch_day(),
            0 <= d < days_before_year(MAX_YEAR as int + 1),
    {
        proof {
            assert(0 <= self.secs / SECS_PER_DAY < days_before_year(MAX_YEAR as int + 1))
                by (nonlinear_arith)
                requires
                    0 <= self.secs,
                    self.secs < days_before_year(MAX_YEAR as int + 1) * (SECS_PER_DAY as int),
                    SECS_PER_DAY == 86400,
            ;
        }
        self.secs / SECS_PER_DAY
    }

    /// The UTC calendar date holding this instant.
    pub fn date(&self) -> (d: Date)
        requires
            self.valid(),
        ensures
            d.valid(),
            spec_day_number(d) == self.spec_epoch_day(),
    {
        date_from_day_number(self.epoch_day())
    }

    /// The instant `hours` hours after this one, as a raw second count; used
    /// as a forecast window cutoff.
    pub fn plus_hours(&self, hours: u32) -> (s: i64)
        requires
            self.valid(),
            hours <= 100000,
    ensures
            s == self.secs + hours * 3600,
    {
        proof {
            lemma_days_before_year_bound(MAX_YEAR as int + 1);
        }
        self.secs + (hours as i64) * 3600
    }
}

pub fn days_in_year(y: i32) -> (n: u32)
    ensures
        n == spec_days_in_year(y as int),
        365 <= n <= 366,
{
    if (y % 4 == 0 && (y % 100 != 0 || y % 400 == 0)) {
        366
    } else {
        365
    }
}

pub fn days_in_month(y: i32, m: u32) -> (n: u32)
    ensures
        n == spec_days_in_month(y as int, m as int),
        28 <= n <= 31,
{
    if m == 2 {
        if (y % 4 == 0 && (y % 100 != 0 || y % 400 == 0)) {
            29
        } else {
            28
        }
    } else if m == 4 || m == 6 || m == 9 || m == 11 {
        30
    } else {
        31
    }
}

} // verus!
