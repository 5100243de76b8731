//! Calendar dates of the proleptic Gregorian calendar, and the number of days
//! between two of them.

use vstd::prelude::*;

verus! {

/// The earliest year a [`Date`] can lie in: the first year of
/// `chrono::NaiveDate`.
pub const MIN_YEAR: i32 = -262143;

/// The latest year a [`Date`] can lie in: the last year of
/// `chrono::NaiveDate`.
pub const MAX_YEAR: i32 = 262142;

/// Whether `year` has a 29 February. Year 0 stands for 1 BCE and is a leap
/// year.
pub open spec fn is_leap_year(year: int) -> bool {
    year % 4 == 0 && (year % 100 != 0 || year % 400 == 0)
}

/// The number of days of `year`.
pub open spec fn days_in_year(year: int) -> int {
    if is_leap_year(year) {
        366
    } else {
        365
    }
}

/// The number of days of `month` in `year`, for a month from 1 to 12.
pub open spec fn days_in_month(year: int, month: int) -> int {
    if month == 2 {
        if is_leap_year(year) {
            29
        } else {
            28
        }
    } else if month == 4 || month == 6 || month == 9 || month == 11 {
        30
    } else {
        31
    }
}

/// The number of days of `year` that lie before the first day of `month`.
pub open spec fn days_before_month(year: int, month: int) -> int
    decreases month,
{
    if month <= 1 {
        0
    } else {
        days_before_month(year, month - 1) + days_in_month(year, month - 1)
    }
}

/// The number of days from 1 January of year 0 to 1 January of `year`; it is
/// negative for a year before year 0.
pub open spec fn days_before_year(year: int) -> int
    decreases (if year >= 0 { year } else { -year }),
{
    if year == 0 {
        0
    } else if year > 0 {
        days_before_year(year - 1) + days_in_year(year - 1)
    } else {
        days_before_year(year + 1) - days_in_year(year)
    }
}

/// A year, a month and a day as mathematical integers: what a [`Date`] stands
/// for.
pub struct Ymd {
    pub year: int,
    pub month: int,
    pub day: int,
}

impl Ymd {
    /// Whether the calendar has this day.
    pub open spec fn is_calendar_date(self) -> bool {
        1 <= self.month <= 12 && 1 <= self.day <= days_in_month(self.year, self.month)
    }

    /// Whether the year lies within the years a [`Date`] can hold.
    pub open spec fn in_range(self) -> bool {
        MIN_YEAR <= self.year <= MAX_YEAR
    }

    /// The position of the day within its year, from 1.
    pub open spec fn ordinal(self) -> int {
        days_before_month(self.year, self.month) + self.day
    }

    /// The position of the day on the line of all days: 1 January of year 0
    /// has the number 1, and each day has the number of the day before it
    /// plus one.
    pub open spec fn day_number(self) -> int {
        days_before_year(self.year) + self.ordinal()
    }

    /// Whether this day comes later than `other`.
    pub open spec fn is_after(self, other: Ymd) -> bool {
        self.year > other.year || (self.year == other.year && (self.month > other.month
            || (self.month == other.month && self.day > other.day)))
    }
}

/// The year, month and day with these numbers.
pub open spec fn ymd(year: int, month: int, day: int) -> Ymd {
    Ymd { year, month, day }
}

/// A day of the calendar. Every value is a day that exists, in a year from
/// [`MIN_YEAR`] to [`MAX_YEAR`].
#[derive(Clone, Copy, Debug, PartialEq, Eq, Structural)]
pub struct Date {
    year: i32,
    month: u32,
    day: u32,
}

impl View for Date {
    type V = Ymd;

    closed spec fn view(&self) -> Ymd {
        Ymd { year: self.year as int, month: self.month as int, day: self.day as int }
    }
}

impl Date {
    /// What holds of every `Date`.
    #[verifier::type_invariant]
    pub open spec fn wf(self) -> bool {
        self@.is_calendar_date() && self@.in_range()
    }

    /// The day with these numbers, if the calendar has it and its year lies
    /// from [`MIN_YEAR`] to [`MAX_YEAR`].
    pub fn new(year: i32, month: u32, day: u32) -> (date: Option<Date>)
        ensures
            date is Some <==> ymd(year as int, month as int, day as int).is_calendar_date() && ymd(
                year as int,
                month as int,
                day as int,
            ).in_range(),
            date matches Some(d) ==> d@ == ymd(year as int, month as int, day as int),
    {
        if chrono_has_date(year, month, day) {
            Some(Date { year, month, day })
        } else {
            None
        }
    }

    /// The year.
    pub fn year(&self) -> (year: i32)
        ensures
            year == self@.year,
    {
        self.year
    }

    /// The month, from 1 to 12.
    pub fn month(&self) -> (month: u32)
        ensures
            month == self@.month,
    {
        self.month
    }

    /// The day of the month, from 1.
    pub fn day(&self) -> (day: u32)
        ensures
            day == self@.day,
    {
        self.day
    }

    /// Whether this day comes later than `other`.
    pub fn is_after(&self, other: &Date) -> (later: bool)
        ensures
            later == self@.is_after(other@),
            later == (self@.day_number() > other@.day_number()),
    {
        proof {
            use_type_invariant(self);
            use_type_invariant(other);
            lemma_day_numbers_in_order(self@, other@);
        }
        self.year > other.year || (self.year == other.year && (self.month > other.month
            || (self.month == other.month && self.day > other.day)))
    }

    /// The number of days from this day to `later`; negative if `later` is
    /// the earlier of the two.
    pub fn days_to(&self, later: &Date) -> (days: i64)
        ensures
            days == later@.day_number() - self@.day_number(),
    {
        proof {
            use_type_invariant(self);
            use_type_invariant(later);
        }
        chrono_days_between(self.year, self.month, self.day, later.year, later.month, later.day)
    }
}

/// Whether chrono has a date with these numbers. Not proved:
/// `chrono::NaiveDate::from_ymd_opt` returns a date for every day of the
/// proleptic Gregorian calendar whose year lies from [`MIN_YEAR`] to
/// [`MAX_YEAR`], and `None` for every other triple of numbers.
#[verifier::external_body]
fn chrono_has_date(year: i32, month: u32, day: u32) -> (known: bool)
    ensures
        known == (ymd(year as int, month as int, day as int).is_calendar_date() && ymd(
            year as int,
            month as int,
            day as int,
        ).in_range()),
{
    chrono::NaiveDate::from_ymd_opt(year, month, day).is_some()
}

/// The number of days chrono counts from the first date to the second. Not
/// proved: both dates are built with `chrono::NaiveDate::from_ymd_opt`, which
/// the precondition keeps from failing; the second minus the first is
/// `chrono::NaiveDate::signed_duration_since`, a whole number of days, which
/// `chrono::TimeDelta::num_days` hands out. Chrono counts the days of the
/// proleptic Gregorian calendar, so the result is the difference of the two
/// day numbers.
#[verifier::external_body]
fn chrono_days_between(
    from_year: i32,
    from_month: u32,
    from_day: u32,
    to_year: i32,
    to_month: u32,
    to_day: u32,
) -> (days: i64)
    requires
        ymd(from_year as int, from_month as int, from_day as int).is_calendar_date(),
        ymd(from_year as int, from_month as int, from_day as int).in_range(),
        ymd(to_year as int, to_month as int, to_day as int).is_calendar_date(),
        ymd(to_year as int, to_month as int, to_day as int).in_range(),
    ensures
        days == ymd(to_year as int, to_month as int, to_day as int).day_number() - ymd(
            from_year as int,
            from_month as int,
            from_day as int,
        ).day_number(),
{
    let from = chrono::NaiveDate::from_ymd_opt(from_year, from_month, from_day).unwrap();
    let to = chrono::NaiveDate::from_ymd_opt(to_year, to_month, to_day).unwrap();
    (to - from).num_days()
}

/// A year is as long as the way from its first day to the first day of the
/// year after it.
pub proof fn lemma_year_length(year: int)
    ensures
        days_before_year(year + 1) == days_before_year(year) + days_in_year(year),
{
}

/// The first days of two years lie at least the length of the earlier year
/// apart.
pub proof fn lemma_years_in_order(earlier: int, later: int)
    requires
        earlier < later,
    ensures
        days_before_year(earlier) + days_in_year(earlier) <= days_before_year(later),
    decreases later - earlier,
{
    lemma_year_length(later - 1);
    if earlier < later - 1 {
        lemma_years_in_order(earlier, later - 1);
    }
}

/// How many days lie before each month, and that the twelve months make up
/// the year.
pub proof fn lemma_days_before_each_month(year: int)
    ensures
        days_before_month(year, 1) == 0,
        days_before_month(year, 2) == 31,
        days_before_month(year, 3) == days_in_year(year) - 306,
        days_before_month(year, 4) == days_in_year(year) - 275,
        days_before_month(year, 5) == days_in_year(year) - 245,
        days_before_month(year, 6) == days_in_year(year) - 214,
        days_before_month(year, 7) == days_in_year(year) - 184,
        days_before_month(year, 8) == days_in_year(year) - 153,
        days_before_month(year, 9) == days_in_year(year) - 122,
        days_before_month(year, 10) == days_in_year(year) - 92,
        days_before_month(year, 11) == days_in_year(year) - 61,
        days_before_month(year, 12) == days_in_year(year) - 31,
        days_before_month(year, 13) == days_in_year(year),
{
    reveal_with_fuel(days_before_month, 14);
}

/// The day numbers run as the calendar does: of two days the later one has
/// the larger number, and only equal days have equal numbers.
pub proof fn lemma_day_numbers_in_order(a: Ymd, b: Ymd)
    requires
        a.is_calendar_date(),
        b.is_calendar_date(),
    ensures
        a.is_after(b) <==> a.day_number() > b.day_number(),
        a == b <==> a.day_number() == b.day_number(),
{
    lemma_days_before_each_month(a.year);
    lemma_days_before_each_month(b.year);
    if a.year < b.year {
        lemma_years_in_order(a.year, b.year);
    } else if b.year < a.year {
        lemma_years_in_order(b.year, a.year);
    }
}

} // verus!
