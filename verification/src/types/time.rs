//! Calendar and clock values used by reminders.
//!
//! Hours, twelve-hour-clock hours and minutes wrap around their range: a value built
//! from a number outside the range is that number taken modulo the size of the range.
use vstd::prelude::*;

use crate::types::datetime::{in_calendar_range, DateTime};

verus! {

/// Days of the week, numbered from Sunday (0) to Saturday (6).
#[derive(Clone, Copy, Debug, PartialEq, Eq, Structural, PartialOrd, Ord, Hash)]
pub enum Weekday {
    Sunday,
    Monday,
    Tuesday,
    Wednesday,
    Thursday,
    Friday,
    Saturday,
}

/// The number of a weekday, Sunday being 0.
pub open spec fn weekday_number(w: Weekday) -> u8 {
    match w {
        Weekday::Sunday => 0,
        Weekday::Monday => 1,
        Weekday::Tuesday => 2,
        Weekday::Wednesday => 3,
        Weekday::Thursday => 4,
        Weekday::Friday => 5,
        Weekday::Saturday => 6,
    }
}

impl Weekday {
    /// The number of this weekday, Sunday being 0.
    pub fn to_u8(self) -> (n: u8)
        ensures
            n == weekday_number(self),
            n <= 6,
    {
        match self {
            Weekday::Sunday => 0,
            Weekday::Monday => 1,
            Weekday::Tuesday => 2,
            Weekday::Wednesday => 3,
            Weekday::Thursday => 4,
            Weekday::Friday => 5,
            Weekday::Saturday => 6,
        }
    }

    /// The weekday with the given number, if there is one.
    pub fn try_from_u8(n: u8) -> (r: Option<Weekday>)
        ensures
            r is Some <==> n <= 6,
            r matches Some(w) ==> weekday_number(w) == n,
    {
        match n {
            0 => Some(Weekday::Sunday),
            1 => Some(Weekday::Monday),
            2 => Some(Weekday::Tuesday),
            3 => Some(Weekday::Wednesday),
            4 => Some(Weekday::Thursday),
            5 => Some(Weekday::Friday),
            6 => Some(Weekday::Saturday),
            _ => None,
        }
    }

    /// The weekday with the given number; the number must name a weekday.
    pub fn from_u8_unchecked(n: u8) -> (w: Weekday)
        requires
            n <= 6,
        ensures
            weekday_number(w) == n,
    {
        match Self::try_from_u8(n) {
            Some(w) => w,
            None => Weekday::Sunday,
        }
    }
}

/// Months of the year, numbered from January (1) to December (12).
#[derive(Clone, Copy, Debug, PartialEq, Eq, Structural, PartialOrd, Ord, Hash)]
pub enum Month {
    January,
    February,
    March,
    April,
    May,
    June,
    July,
    August,
    September,
    October,
    November,
    December,
}

/// The number of a month, January being 1.
pub open spec fn month_number(m: Month) -> u8 {
    match m {
        Month::January => 1,
        Month::February => 2,
        Month::March => 3,
        Month::April => 4,
        Month::May => 5,
        Month::June => 6,
        Month::July => 7,
        Month::August => 8,
        Month::September => 9,
        Month::October => 10,
        Month::November => 11,
        Month::December => 12,
    }
}

impl Month {
    /// The number of this month, January being 1.
    pub fn to_u8(self) -> (n: u8)
        ensures
            n == month_number(self),
            1 <= n <= 12,
    {
        match self {
            Month::January => 1,
            Month::February => 2,
            Month::March => 3,
            Month::April => 4,
            Month::May => 5,
            Month::June => 6,
            Month::July => 7,
            Month::August => 8,
            Month::September => 9,
            Month::October => 10,
            Month::November => 11,
            Month::December => 12,
        }
    }

    /// The month with the given number, if there is one.
    pub fn try_from_u8(n: u8) -> (r: Option<Month>)
        ensures
            r is Some <==> 1 <= n <= 12,
            r matches Some(m) ==> month_number(m) == n,
    {
        match n {
            1 => Some(Month::January),
            2 => Some(Month::February),
            3 => Some(Month::March),
            4 => Some(Month::April),
            5 => Some(Month::May),
            6 => Some(Month::June),
            7 => Some(Month::July),
            8 => Some(Month::August),
            9 => Some(Month::September),
            10 => Some(Month::October),
            11 => Some(Month::November),
            12 => Some(Month::December),
            _ => None,
        }
    }

    /// The month with the given number; the number must name a month.
    pub fn from_u8_unchecked(n: u8) -> (m: Month)
        requires
            1 <= n <= 12,
        ensures
            month_number(m) == n,
    {
        match Self::try_from_u8(n) {
            Some(m) => m,
            None => Month::January,
        }
    }
}

/// Numbering a month and looking the number up gives the month back.
pub proof fn lemma_month_number_roundtrip(m: Month)
    ensures
        1 <= month_number(m) <= 12,
        forall|m2: Month| month_number(m2) == month_number(m) ==> m2 == m,
{
}

/// Numbering a weekday and looking the number up gives the weekday back.
pub proof fn lemma_weekday_number_roundtrip(w: Weekday)
    ensures
        weekday_number(w) <= 6,
        forall|w2: Weekday| weekday_number(w2) == weekday_number(w) ==> w2 == w,
{
}

/// Ante or post meridiem.
#[derive(Clone, Copy, Debug, PartialEq, Eq, Structural, PartialOrd, Ord, Hash)]
pub enum TimePeriod {
    Am,
    Pm,
}

/// The other period of the day.
pub open spec fn toggled(p: TimePeriod) -> TimePeriod {
    match p {
        TimePeriod::Am => TimePeriod::Pm,
        TimePeriod::Pm => TimePeriod::Am,
    }
}

impl TimePeriod {
    pub fn is_am(self) -> (b: bool)
        ensures
            b == (self == TimePeriod::Am),
    {
        self == TimePeriod::Am
    }

    pub fn is_pm(self) -> (b: bool)
        ensures
            b == (self == TimePeriod::Pm),
    {
        self == TimePeriod::Pm
    }

    pub fn toggle(&mut self)
        ensures
            *final(self) == toggled(*old(self)),
    {
        *self = match *self {
            TimePeriod::Am => TimePeriod::Pm,
            TimePeriod::Pm => TimePeriod::Am,
        };
    }

    /// The text shown for this period.
    pub fn to_display_string(self) -> (s: &'static str)
        ensures
            self == TimePeriod::Am ==> s@ == "AM"@,
            self == TimePeriod::Pm ==> s@ == "PM"@,
    {
        match self {
            TimePeriod::Am => "AM",
            TimePeriod::Pm => "PM",
        }
    }
}

/// Toggling the period twice gives the period back.
pub proof fn lemma_toggle_twice(p: TimePeriod)
    ensures
        toggled(toggled(p)) == p,
        toggled(p) != p,
{
}


/// An hour of the day on the twenty-four-hour clock, from 0 to 23.
#[derive(Clone, Copy, Debug, PartialEq, Eq, Structural, PartialOrd, Ord, Hash)]
pub struct Hour {
    value: u8,
}

/// An hour on the twelve-hour clock, from 0 to 11.
#[derive(Clone, Copy, Debug, PartialEq, Eq, Structural, PartialOrd, Ord, Hash)]
pub struct Hour12 {
    value: u8,
}

/// A minute of the hour, from 0 to 59.
#[derive(Clone, Copy, Debug, PartialEq, Eq, Structural, PartialOrd, Ord, Hash)]
pub struct Minute {
    value: u8,
}

impl View for Hour {
    type V = u8;

    closed spec fn view(&self) -> u8 {
        self.value
    }
}

impl View for Hour12 {
    type V = u8;

    closed spec fn view(&self) -> u8 {
        self.value
    }
}

impl View for Minute {
    type V = u8;

    closed spec fn view(&self) -> u8 {
        self.value
    }
}

impl Hour {
    #[verifier::type_invariant]
    spec fn in_range(self) -> bool {
        self.value < 24
    }

    /// The hour `n` wrapped into the range of the day.
    pub fn from_u8(n: u8) -> (h: Hour)
        ensures
            h@ == n % 24,
    {
        Hour { value: n % 24 }
    }


    pub fn value(&self) -> (n: u8)
        ensures
            n == self@,
            n < 24,
    {
        proof {
            use_type_invariant(self);
        }
        self.value
    }

    pub fn to_u8(self) -> (n: u8)
        ensures
            n == self@,
            n < 24,
    {
        self.value()
    }

    pub fn morning() -> (h: Hour)
        ensures
            h@ == 8,
    {
        Hour::from_u8(8)
    }

    pub fn afternoon() -> (h: Hour)
        ensures
            h@ == 14,
    {
        Hour::from_u8(14)
    }

    pub fn noon() -> (h: Hour)
        ensures
            h@ == 12,
    {
        Hour::from_u8(12)
    }

    pub fn midnight() -> (h: Hour)
        ensures
            h@ == 0,
    {
        Hour::from_u8(0)
    }

    pub fn evening() -> (h: Hour)
        ensures
            h@ == 20,
    {
        Hour::from_u8(20)
    }

    /// The hour on the twelve-hour clock.
    pub fn twelve_hour(self) -> (h: Hour12)
        ensures
            h@ == self@ % 12,
    {
        self.standard().0
    }

    pub fn twenty_four_hour(self) -> (n: u8)
        ensures
            n == self@,
    {
        self.value()
    }

    /// The hour on the twelve-hour clock together with its period.
    pub fn standard(self) -> (r: (Hour12, TimePeriod))
        ensures
            r == standard_of(self@),
            r.0@ == self@ % 12,
    {
        let n = self.value();
        if n < 12 {
            (Hour12::from_u8(n), TimePeriod::Am)
        } else {
            (Hour12::from_u8(n - 12), TimePeriod::Pm)
        }
    }

    /// The hour on the twenty-four-hour clock together with its period.
    pub fn military(self) -> (r: (u8, TimePeriod))
        ensures
            r.0 == self@,
            r.1 == (if self@ < 12 { TimePeriod::Am } else { TimePeriod::Pm }),
    {
        let n = self.value();
        if n < 12 {
            (n, TimePeriod::Am)
        } else {
            (n, TimePeriod::Pm)
        }
    }

    /// This hour plus `rhs` hours, wrapped into the range of the day.
    pub fn add_hours(self, rhs: u8) -> (h: Hour)
        requires
            self@ + rhs <= u8::MAX,
        ensures
            h@ == (self@ + rhs) % 24,
    {
        Hour::from_u8(self.value() + rhs)
    }

    /// This hour minus `rhs` hours, wrapped into the range of the day.
    pub fn sub_hours(self, rhs: u8) -> (h: Hour)
        ensures
            h@ == (self@ - rhs) % 24,
    {
        let v = self.value();
        let back = rhs % 24;
        let n = if v >= back { v - back } else { 24 - (back - v) };
        assert(n % 24 == (v - rhs) % 24) by (nonlinear_arith)
            requires
                back == rhs % 24,
                v < 24,
                n == (if v >= back { v - back } else { 24 - (back - v) }),
        {
        }
        Hour::from_u8(n)
    }
}

/// Going back `rhs` hours undoes going forward `rhs` hours: the value that `sub_hours`
/// gives for the hour that `add_hours` gave is the hour one started from.
pub proof fn lemma_sub_hours_undoes_add_hours(h: Hour, rhs: u8)
    requires
        h@ < 24,
        h@ + rhs <= u8::MAX,
    ensures
        (((h@ + rhs) % 24) as u8 - rhs) % 24 == h@,
{
    let n = h@ as int;
    let r = rhs as int;
    assert(((n + r) % 24 - r) % 24 == n) by (nonlinear_arith)
        requires
            0 <= n < 24,
            0 <= r,
    {
        let q = (n + r) / 24;
        assert(n + r == 24 * q + (n + r) % 24);
        assert((n + r) % 24 - r == n - 24 * q);
    }
}

/// The twelve-hour-clock hour and period of a twenty-four-hour-clock hour.
pub open spec fn standard_of(n: u8) -> (Hour12, TimePeriod) {
    if n < 12 {
        (hour12_of(n), TimePeriod::Am)
    } else {
        (hour12_of((n - 12) as u8), TimePeriod::Pm)
    }
}

/// The twelve-hour-clock hour with the given value (which must be below 12).
pub closed spec fn hour12_of(n: u8) -> Hour12 {
    Hour12 { value: n }
}

/// The minute with the given value (which must be below 60).
pub closed spec fn minute_of(n: u8) -> Minute {
    Minute { value: n }
}

/// The hour with the given value (which must be below 24).
pub closed spec fn hour_of(n: u8) -> Hour {
    Hour { value: n }
}

/// The value of the hour built from a number below 12 is that number.
pub broadcast proof fn lemma_hour12_of(n: u8)
    ensures
        (#[trigger] hour12_of(n))@ == n,
{
}

/// The value of the minute built from a number below 60 is that number.
pub broadcast proof fn lemma_minute_of(n: u8)
    ensures
        (#[trigger] minute_of(n))@ == n,
{
}

/// The value of the hour built from a number below 24 is that number.
pub broadcast proof fn lemma_hour_of(n: u8)
    ensures
        (#[trigger] hour_of(n))@ == n,
{
}

/// Two hours, minutes or twelve-hour-clock hours are equal when their values are.
pub proof fn lemma_view_injective()
    ensures
        forall|a: Hour, b: Hour| #[trigger] a@ == #[trigger] b@ ==> a == b,
        forall|a: Hour12, b: Hour12| #[trigger] a@ == #[trigger] b@ ==> a == b,
        forall|a: Minute, b: Minute| #[trigger] a@ == #[trigger] b@ ==> a == b,
{
}

pub broadcast group group_time_values {
    lemma_hour12_of,
    lemma_minute_of,
    lemma_hour_of,
}

impl Hour12 {
    #[verifier::type_invariant]
    spec fn in_range(self) -> bool {
        self.value < 12
    }

    /// The hour `n` wrapped into the range of the twelve-hour clock.
    pub fn from_u8(n: u8) -> (h: Hour12)
        ensures
            h@ == n % 12,
            n < 12 ==> h == hour12_of(n),
    {
        Hour12 { value: n % 12 }
    }

    pub fn value(self) -> (n: u8)
        ensures
            n == self@,
            n < 12,
    {
        proof {
            use_type_invariant(self);
        }
        self.value
    }

}

impl Minute {
    #[verifier::type_invariant]
    spec fn in_range(self) -> bool {
        self.value < 60
    }

    /// The minute `n` wrapped into the range of the hour.
    pub fn from_u8(n: u8) -> (m: Minute)
        ensures
            m@ == n % 60,
            n < 60 ==> m == minute_of(n),
    {
        Minute { value: n % 60 }
    }

    pub fn value(&self) -> (n: u8)
        ensures
            n == self@,
            n < 60,
    {
        proof {
            use_type_invariant(self);
        }
        self.value
    }

    /// The minute numbered from 1 to 60: 1 is minute 0, 60 is minute 59.
    pub fn from_1_to_60(minute: u8) -> (m: Minute)
        ensures
            m@ == (if minute == 0 { 0 } else { (minute - 1) % 60 }),
    {
        Minute::from_u8(minute.saturating_sub(1))
    }


    /// This minute plus `rhs` minutes, wrapped into the range of the hour.
    pub fn add_minutes(self, rhs: u8) -> (m: Minute)
        requires
            self@ + rhs <= u8::MAX,
        ensures
            m@ == (self@ + rhs) % 60,
    {
        Minute::from_u8(self.value() + rhs)
    }
}


/// A time of day as a twelve-hour-clock hour, a minute and a period.
#[derive(Clone, Copy, Debug, PartialEq, Eq, Structural, PartialOrd, Ord, Hash)]
pub struct SimpleTime {
    pub hour: Hour12,
    pub minute: Minute,
    pub period: TimePeriod,
}

/// The twenty-four-hour-clock value of a twelve-hour-clock hour in a period.
pub open spec fn military_hour(hour: u8, period: TimePeriod) -> u8 {
    match period {
        TimePeriod::Am => hour,
        TimePeriod::Pm => (hour + 12) as u8,
    }
}

impl SimpleTime {
    pub fn new(hour: Hour12, minute: Minute, period: TimePeriod) -> (t: SimpleTime)
        ensures
            t.hour == hour,
            t.minute == minute,
            t.period == period,
    {
        SimpleTime { hour, minute, period }
    }

    /// The time with the given twenty-four-hour-clock hour and minute.
    pub open spec fn from_military_spec(hour: Hour, minute: Minute) -> SimpleTime {
        SimpleTime { hour: standard_of(hour@).0, minute, period: standard_of(hour@).1 }
    }

    /// The time with the given twenty-four-hour-clock hour and minute.
    pub fn from_military(hour: Hour, minute: Minute) -> (t: SimpleTime)
        ensures
            (t.hour, t.period) == standard_of(hour@),
            t.minute == minute,
            t == Self::from_military_spec(hour, minute),
    {
        let (hr, period) = hour.standard();
        SimpleTime::new(hr, minute, period)
    }

    /// The twenty-four-hour-clock hour and the minute of this time.
    pub fn to_military(self) -> (r: (Hour, Minute))
        ensures
            r.0@ == military_hour(self.hour@, self.period),
            r.1 == self.minute,
    {
        let v = self.hour.value();
        (
            match self.period {
                TimePeriod::Am => Hour::from_u8(v),
                TimePeriod::Pm => Hour::from_u8(v + 12),
            },
            self.minute,
        )
    }

    pub fn to_hmp(self) -> (r: (Hour12, Minute, TimePeriod))
        ensures
            r == (self.hour, self.minute, self.period),
    {
        (self.hour, self.minute, self.period)
    }
}

/// Converting a twenty-four-hour-clock time to a `SimpleTime` and back gives the same
/// hour and minute.
pub proof fn lemma_military_roundtrip(hour: Hour, minute: Minute)
    requires
        hour@ < 24,
    ensures
        military_hour(standard_of(hour@).0@, standard_of(hour@).1) == hour@,
{
    broadcast use group_time_values;

}

/// Converting a `SimpleTime` to the twenty-four-hour clock and back gives the same
/// time.
pub proof fn lemma_standard_roundtrip(t: SimpleTime)
    requires
        t.hour@ < 12,
    ensures
        standard_of(military_hour(t.hour@, t.period)) == (t.hour, t.period),
{
    broadcast use group_time_values;

    lemma_view_injective();
}


/// Whether `year` is a leap year of the proleptic Gregorian calendar.
pub open spec fn is_leap_year(year: int) -> bool {
    (year % 4 == 0 && year % 100 != 0) || year % 400 == 0
}

/// The number of days of month `month` (1 to 12) in `year`.
pub open spec fn days_in_month(year: int, month: int) -> int {
    if month == 2 {
        if is_leap_year(year) {
            29
        } else {
            28
        }
    } else if month == 4 || month == 6 || month == 9 || month == 11 {
        30
    } else {
        31
    }
}

/// Whether year, month and day name a date that the calendar library can represent:
/// years -9999 to 9999 of the proleptic Gregorian calendar.
pub open spec fn is_valid_date(year: int, month: int, day: int) -> bool {
    &&& -9999 <= year <= 9999
    &&& 1 <= month <= 12
    &&& 1 <= day <= days_in_month(year, month)
}

/// The number of days of `year` before the first day of `month`.
pub open spec fn days_before_month(year: int, month: int) -> int
    decreases month,
{
    if month <= 1 {
        0
    } else {
        days_before_month(year, month - 1) + days_in_month(year, month - 1)
    }
}

/// The day of the year (1 for January 1st) of a date.
pub open spec fn ordinal_of(year: int, month: int, day: int) -> int {
    days_before_month(year, month) + day
}

/// The number of days from 0001-01-01 to January 1st of `year` in the proleptic
/// Gregorian calendar (negative before year 1).
pub open spec fn days_before_year(year: int) -> int {
    let y = year - 1;
    365 * y + y / 4 - y / 100 + y / 400
}

/// The weekday number (Sunday 0) of a date: 0001-01-01 was a Monday, and each day moves
/// the weekday on by one.
pub open spec fn weekday_number_of_date(year: int, month: int, day: int) -> int {
    (days_before_year(year) + ordinal_of(year, month, day)) % 7
}

/// The number of ISO weeks of `year`: 53 where the year starts on a Thursday, or on a
/// Wednesday in a leap year; 52 otherwise.
pub open spec fn weeks_in_year(year: int) -> int {
    let first = weekday_number_of_date(year, 1, 1);
    if first == 4 || (is_leap_year(year) && first == 3) {
        53
    } else {
        52
    }
}

/// The ISO year, week and weekday number (Sunday 0) of a date. Weeks start on Monday, and
/// week 1 is the week that holds the year's first Thursday.
pub open spec fn iso_week_date_of(year: int, month: int, day: int) -> (int, int, int) {
    let wd = weekday_number_of_date(year, month, day);
    let from_monday = if wd == 0 {
        7
    } else {
        wd
    };
    let week = (ordinal_of(year, month, day) + 10 - from_monday) / 7;
    if week == 0 {
        (year - 1, weeks_in_year(year - 1), wd)
    } else if week == 53 && weeks_in_year(year) == 52 {
        (year + 1, 1, wd)
    } else {
        (year, week, wd)
    }
}

/// Whether some date the calendar library can represent has the given ISO week date.
pub open spec fn iso_week_date_exists(year: int, week: int, weekday: int) -> bool {
    exists|y: int, m: int, d: int|
        is_valid_date(y, m, d) && #[trigger] iso_week_date_of(y, m, d) == (year, week, weekday)
}

/// Calls `time::Date::from_calendar_date` on the given parts and reports whether it
/// succeeded. Claimed: it succeeds exactly on the dates of `is_valid_date`, as the
/// library's source (its year range and its table of month lengths) shows.
#[verifier::external_body]
fn calendar_date_exists(year: i32, month: u8, day: u8) -> (b: bool)
    ensures
        b == is_valid_date(year as int, month as int, day as int),
{
    match ::time::Month::try_from(month) {
        Ok(m) => ::time::Date::from_calendar_date(year, m, day).is_ok(),
        Err(_) => false,
    }
}

/// Calls `time::Date::ordinal` on the date with the given parts. Claimed: the result is
/// the day of the year, as the library's documentation states.
#[verifier::external_body]
fn calendar_ordinal(year: i32, month: u8, day: u8) -> (n: u16)
    requires
        is_valid_date(year as int, month as int, day as int),
    ensures
        n == ordinal_of(year as int, month as int, day as int),
{
    let m = ::time::Month::try_from(month).unwrap();
    ::time::Date::from_calendar_date(year, m, day).unwrap().ordinal()
}

/// Calls `time::Date::weekday` on the date with the given parts and numbers the result
/// from Sunday (0). Claimed: the number is `weekday_number_of_date`, the weekday of the
/// proleptic Gregorian calendar that the library counts in.
#[verifier::external_body]
fn calendar_weekday(year: i32, month: u8, day: u8) -> (n: u8)
    requires
        is_valid_date(year as int, month as int, day as int),
    ensures
        n as int == weekday_number_of_date(year as int, month as int, day as int),
{
    let m = ::time::Month::try_from(month).unwrap();
    ::time::Date::from_calendar_date(year, m, day).unwrap().weekday().number_days_from_sunday()
}

/// Calls `time::Date::to_iso_week_date` on the date with the given parts. Claimed: the
/// result is `iso_week_date_of`, the ISO week date that the library's source computes
/// from the day of the year and the weekday (its table of 53-week years is the rule of
/// `weeks_in_year`); the week is from 1 to 53.
#[verifier::external_body]
fn calendar_iso_week_date(year: i32, month: u8, day: u8) -> (r: (i32, u8, u8))
    requires
        is_valid_date(year as int, month as int, day as int),
    ensures
        (r.0 as int, r.1 as int, r.2 as int) == iso_week_date_of(
            year as int,
            month as int,
            day as int,
        ),
        1 <= r.1 <= 53,
{
    let m = ::time::Month::try_from(month).unwrap();
    let (y, w, wd) = ::time::Date::from_calendar_date(year, m, day).unwrap().to_iso_week_date();
    (y, w, wd.number_days_from_sunday())
}

/// Calls `time::Date::from_iso_week_date` and returns the calendar parts of the result.
/// Claimed, as the library's source shows: it gives back the date that has the given ISO
/// week date, and fails exactly where no date it can represent has it (a year out of its
/// range, a week the year does not have, or a date past the end of year 9999).
#[verifier::external_body]
fn calendar_from_iso_week(year: i32, week: u8, weekday: u8) -> (r: Option<(i32, u8, u8)>)
    requires
        weekday <= 6,
    ensures
        r is Some <==> iso_week_date_exists(year as int, week as int, weekday as int),
        r matches Some(t) ==> is_valid_date(t.0 as int, t.1 as int, t.2 as int)
            && iso_week_date_of(t.0 as int, t.1 as int, t.2 as int) == (
            year as int,
            week as int,
            weekday as int,
        ),
{
    let wd = ::time::Weekday::Sunday.nth_next(weekday);
    match ::time::Date::from_iso_week_date(year, week, wd) {
        Ok(d) => Some((d.year(), d.month() as u8, d.day())),
        Err(_) => None,
    }
}

/// A calendar date.
#[derive(Clone, Copy, Debug, PartialEq, Eq, Structural, PartialOrd, Ord, Hash)]
pub struct Date {
    year: i32,
    month: Month,
    day: u8,
}

impl View for Date {
    type V = (int, int, int);

    closed spec fn view(&self) -> (int, int, int) {
        (self.year as int, month_number(self.month) as int, self.day as int)
    }
}

/// The year of a date.
pub closed spec fn year_of(d: Date) -> i32 {
    d.year
}

/// The month of a date.
pub closed spec fn month_of(d: Date) -> Month {
    d.month
}

/// The day of the month of a date.
pub closed spec fn day_of(d: Date) -> u8 {
    d.day
}

/// The parts of a date agree with its view.
pub broadcast proof fn lemma_date_parts(d: Date)
    ensures
        #![trigger d@]
        d@ == (year_of(d) as int, month_number(month_of(d)) as int, day_of(d) as int),
{
}

/// The date with the given parts (which must be a valid date).
pub closed spec fn date_of(year: i32, month: Month, day: u8) -> Date {
    Date { year, month, day }
}

/// The view of the date built from valid parts holds those parts.
pub broadcast proof fn lemma_date_of(year: i32, month: Month, day: u8)
    ensures
        (#[trigger] date_of(year, month, day))@ == (
            year as int,
            month_number(month) as int,
            day as int,
        ),
{
}

impl Date {
    #[verifier::type_invariant]
    spec fn is_valid(self) -> bool {
        is_valid_date(self.year as int, month_number(self.month) as int, self.day as int)
    }

    /// The date with the given year, month number and day; they must name a valid date.
    pub fn new(year: i32, month: u8, day: u8) -> (d: Date)
        requires
            is_valid_date(year as int, month as int, day as int),
        ensures
            d@ == (year as int, month as int, day as int),
    {
        let month = Month::from_u8_unchecked(month);
        Date { year, month, day }
    }

    /// The date with the given year, month number and day, if they name a valid date.
    pub fn try_new(year: i32, month: u8, day: u8) -> (r: Option<Date>)
        ensures
            r is Some <==> is_valid_date(year as int, month as int, day as int),
            r matches Some(d) ==> d@ == (year as int, month as int, day as int),
    {
        if calendar_date_exists(year, month, day) {
            Some(Date::new(year, month, day))
        } else {
            None
        }
    }

    /// The date with the given year, month and day; they must name a valid date.
    pub fn from_calendar_date(year: i32, month: Month, day: u8) -> (d: Date)
        requires
            is_valid_date(year as int, month_number(month) as int, day as int),
        ensures
            d@ == (year as int, month_number(month) as int, day as int),
    {
        Date { year, month, day }
    }

    /// The date of the given ISO week date; the calendar library must accept it.
    pub fn from_iso_week_date(year: i32, week: u8, weekday: Weekday) -> (d: Date)
        requires
            iso_week_date_exists(year as int, week as int, weekday_number(weekday) as int),
        ensures
            iso_week_date_of(d@.0, d@.1, d@.2) == (
                year as int,
                week as int,
                weekday_number(weekday) as int,
            ),
    {
        match calendar_from_iso_week(year, week, weekday.to_u8()) {
            Some((y, m, dd)) => Date::new(y, m, dd),
            None => Date::new(1970, 1, 1),
        }
    }

    /// The date of the given ISO week date, if the calendar library accepts it.
    pub fn try_from_iso_week_date(year: i32, week: u8, weekday: Weekday) -> (r: Option<Date>)
        ensures
            r is Some <==> iso_week_date_exists(
                year as int,
                week as int,
                weekday_number(weekday) as int,
            ),
            r matches Some(d) ==> iso_week_date_of(d@.0, d@.1, d@.2) == (
                year as int,
                week as int,
                weekday_number(weekday) as int,
            ),
    {
        match calendar_from_iso_week(year, week, weekday.to_u8()) {
            Some(_) => Some(Date::from_iso_week_date(year, week, weekday)),
            None => None,
        }
    }

    pub fn to_calendar_date(&self) -> (r: (i32, Month, u8))
        ensures
            r == (year_of(*self), month_of(*self), day_of(*self)),
            (r.0 as int, month_number(r.1) as int, r.2 as int) == self@,
    {
        (self.year, self.month, self.day)
    }

    pub fn to_ymd(&self) -> (r: (i32, Month, u8))
        ensures
            r == (year_of(*self), month_of(*self), day_of(*self)),
            (r.0 as int, month_number(r.1) as int, r.2 as int) == self@,
    {
        self.to_calendar_date()
    }

    /// The ISO year, week and weekday of this date.
    pub fn to_iso_week_date(&self) -> (r: (i32, u8, Weekday))
        ensures
            (r.0 as int, r.1 as int, weekday_number(r.2) as int) == iso_week_date_of(
                self@.0,
                self@.1,
                self@.2,
            ),
    {
        proof {
            use_type_invariant(self);
        }
        let (y, w, wd) = calendar_iso_week_date(self.year, self.month.to_u8(), self.day);
        (y, w, Weekday::from_u8_unchecked(wd))
    }

    /// The day of the year, 1 for January 1st.
    pub fn to_ordinal_date(&self) -> (n: u16)
        ensures
            n == ordinal_of(self@.0, self@.1, self@.2),
    {
        proof {
            use_type_invariant(self);
        }
        calendar_ordinal(self.year, self.month.to_u8(), self.day)
    }

    pub fn year(&self) -> (y: i32)
        ensures
            y == year_of(*self),
            y as int == self@.0,
            -9999 <= y <= 9999,
    {
        proof {
            use_type_invariant(self);
        }
        self.year
    }

    pub fn month(&self) -> (m: Month)
        ensures
            m == month_of(*self),
            month_number(m) as int == self@.1,
    {
        self.month
    }

    pub fn day(&self) -> (d: u8)
        ensures
            d == day_of(*self),
            d as int == self@.2,
            1 <= d <= 31,
    {
        proof {
            use_type_invariant(self);
        }
        self.day
    }

    /// The weekday of this date.
    pub fn weekday(&self) -> (w: Weekday)
        ensures
            weekday_number(w) as int == weekday_number_of_date(
                year_of(*self) as int,
                month_number(month_of(*self)) as int,
                day_of(*self) as int,
            ),
    {
        proof {
            use_type_invariant(self);
        }
        let n = calendar_weekday(self.year, self.month.to_u8(), self.day);
        Weekday::from_u8_unchecked(n)
    }
}



/// The instant (in nanoseconds since the epoch) of a UTC date at an hour and minute
/// (second 0): 1970-01-01, 719162 days after 0001-01-01, is the instant 0.
pub open spec fn unix_nanos_of_fields(year: i32, month: u8, day: u8, hour: u8, minute: u8) -> int {
    let days = days_before_year(year as int) + ordinal_of(year as int, month as int, day as int) - 1
        - 719162;
    (days * 86400 + hour * 3600 + minute * 60) * 1_000_000_000
}

/// Whether UTC parts name a valid date, hour and minute, and the instant falls in that
/// minute.
pub open spec fn minute_of_instant(f: (i32, u8, u8, u8, u8), nanos: int) -> bool {
    &&& is_valid_date(f.0 as int, f.1 as int, f.2 as int)
    &&& f.3 < 24
    &&& f.4 < 60
    &&& unix_nanos_of_fields(f.0, f.1, f.2, f.3, f.4) <= nanos < unix_nanos_of_fields(
        f.0,
        f.1,
        f.2,
        f.3,
        f.4,
    ) + 60_000_000_000
}

/// The UTC year, month, day, hour and minute of an instant (in nanoseconds since the
/// epoch): the parts of the minute it falls in.
pub open spec fn utc_fields_of_nanos(nanos: i128) -> (i32, u8, u8, u8, u8) {
    choose|f: (i32, u8, u8, u8, u8)| minute_of_instant(f, nanos as int)
}

/// Builds a `time::OffsetDateTime` with `from_unix_timestamp_nanos` and returns its UTC
/// date, hour and minute. Claimed: these are the parts of the minute the instant falls in
/// (`minute_of_instant`; there is one such minute, so they are `utc_fields_of_nanos`), as
/// the library's conversion from instants to dates counts days from the epoch in the
/// proleptic Gregorian calendar.
#[verifier::external_body]
fn calendar_utc_fields(nanos: i128) -> (r: (i32, u8, u8, u8, u8))
    requires
        in_calendar_range(nanos as int),
    ensures
        minute_of_instant(r, nanos as int),
        r == utc_fields_of_nanos(nanos),
{
    let dt = ::time::OffsetDateTime::from_unix_timestamp_nanos(nanos).unwrap();
    (dt.year(), dt.month() as u8, dt.day(), dt.hour(), dt.minute())
}

/// Builds the UTC `time::OffsetDateTime` of a date at an hour and minute and returns its
/// `unix_timestamp_nanos`. Claimed: the instant is `unix_nanos_of_fields`, as the
/// library's source counts days from the epoch in the proleptic Gregorian calendar; it is
/// in the library's range; and (as the minute an instant falls in is unique) its UTC parts
/// are the parts that went in.
#[verifier::external_body]
fn calendar_unix_nanos(year: i32, month: u8, day: u8, hour: u8, minute: u8) -> (n: i128)
    requires
        is_valid_date(year as int, month as int, day as int),
        hour < 24,
        minute < 60,
    ensures
        n as int == unix_nanos_of_fields(year, month, day, hour, minute),
        in_calendar_range(n as int),
        utc_fields_of_nanos(n) == (year, month, day, hour, minute),
{
    let m = ::time::Month::try_from(month).unwrap();
    let date = ::time::Date::from_calendar_date(year, m, day).unwrap();
    let time = ::time::Time::from_hms(hour, minute, 0).unwrap();
    date.with_time(time).assume_utc().unix_timestamp_nanos()
}

/// A date and a time of day, the moment a reminder is due.
#[derive(Clone, Copy, Debug, PartialEq, Eq, Structural, PartialOrd, Ord, Hash)]
pub struct ReminderTime {
    pub date: Date,
    pub time: SimpleTime,
}

/// The reminder time with the given UTC parts, the hour on the twenty-four-hour clock.
pub open spec fn reminder_time_of_fields(f: (i32, u8, u8, u8, u8)) -> ReminderTime {
    ReminderTime {
        date: date_of(f.0, month_of_number(f.1), f.2),
        time: SimpleTime {
            hour: standard_of(f.3).0,
            minute: minute_of(f.4),
            period: standard_of(f.3).1,
        },
    }
}

/// The month with the given number (1 to 12).
pub open spec fn month_of_number(n: u8) -> Month {
    if n <= 1 {
        Month::January
    } else if n == 2 {
        Month::February
    } else if n == 3 {
        Month::March
    } else if n == 4 {
        Month::April
    } else if n == 5 {
        Month::May
    } else if n == 6 {
        Month::June
    } else if n == 7 {
        Month::July
    } else if n == 8 {
        Month::August
    } else if n == 9 {
        Month::September
    } else if n == 10 {
        Month::October
    } else if n == 11 {
        Month::November
    } else {
        Month::December
    }
}

/// The UTC parts of a reminder time: its date and its twenty-four-hour-clock time.
pub open spec fn fields_of_reminder_time(rt: ReminderTime) -> (i32, u8, u8, u8, u8) {
    (
        year_of(rt.date),
        month_number(month_of(rt.date)),
        day_of(rt.date),
        military_hour(rt.time.hour@, rt.time.period),
        rt.time.minute@,
    )
}

/// Taking a reminder time to its UTC parts and back gives the same reminder time: so
/// `from_time_dt(rt.to_time_dt()) == rt`, as `to_time_dt` states that the instant's UTC
/// parts are the reminder time's parts.
pub proof fn lemma_reminder_time_fields_roundtrip(rt: ReminderTime)
    requires
        rt.time.hour@ < 12,
        rt.time.minute@ < 60,
    ensures
        reminder_time_of_fields(fields_of_reminder_time(rt)) == rt,
{
    broadcast use group_time_values;
    broadcast use lemma_date_parts;

    lemma_view_injective();
    lemma_standard_roundtrip(rt.time);
    let d = rt.date;
    let d2 = date_of(year_of(d), month_of_number(month_number(month_of(d))), day_of(d));
    assert(month_of_number(month_number(month_of(d))) == month_of(d));
    assert(d2 == d);
}

/// Taking valid UTC parts to a reminder time and back gives the same parts.
pub proof fn lemma_fields_reminder_time_roundtrip(f: (i32, u8, u8, u8, u8))
    requires
        is_valid_date(f.0 as int, f.1 as int, f.2 as int),
        f.3 < 24,
        f.4 < 60,
    ensures
        fields_of_reminder_time(reminder_time_of_fields(f)) == f,
{
    broadcast use group_time_values;

}

impl ReminderTime {
    /// The reminder time of an instant, in UTC, to the minute. An instant on a whole
    /// minute is the instant of the reminder time that comes back.
    pub fn from_time_dt(dt: DateTime) -> (rt: ReminderTime)
        ensures
            rt == reminder_time_of_fields(utc_fields_of_nanos(dt@ as i128)),
            dt@ % 60_000_000_000 == 0 ==> rt.to_time_dt_spec() == dt,
    {
        let (y, m, d, h, mi) = calendar_utc_fields(dt.unix_nanos());
        let date = Date::new(y, m, d);
        proof {
            assert(date == date_of(y, month_of_number(m), d)) by {
                lemma_view_injective();
            }
            lemma_fields_reminder_time_roundtrip((y, m, d, h, mi));
            broadcast use crate::types::datetime::lemma_date_time_of;
            broadcast use crate::types::datetime::lemma_date_time_view_injective;

        }
        let time = SimpleTime::from_military(Hour::from_u8(h), Minute::from_u8(mi));
        ReminderTime { date, time }
    }

    /// The reminder time of the Unix epoch: 1970-01-01, 12:00 AM.
    pub fn epoch() -> (rt: ReminderTime)
        ensures
            rt == reminder_time_of_fields(utc_fields_of_nanos(0)),
    {
        ReminderTime::from_time_dt(DateTime::unix_epoch())
    }

    /// The instant of this reminder time, taken as UTC.
    pub fn to_time_dt(&self) -> (dt: DateTime)
        ensures
            dt@ == unix_nanos_of_fields(
                fields_of_reminder_time(*self).0,
                fields_of_reminder_time(*self).1,
                fields_of_reminder_time(*self).2,
                fields_of_reminder_time(*self).3,
                fields_of_reminder_time(*self).4,
            ),
            utc_fields_of_nanos(dt@ as i128) == fields_of_reminder_time(*self),
            in_calendar_range(dt@),
    {
        proof {
            use_type_invariant(&self.date);
        }
        let (y, m, d) = self.date.to_calendar_date();
        let (hour, minute) = self.time.to_military();
        let n = calendar_unix_nanos(y, m.to_u8(), d, hour.value(), minute.value());
        DateTime::from_unix_nanos(n)
    }

    /// The instant of this reminder time. Date-times here carry no zone, so this is the
    /// same instant as `to_time_dt`.
    pub fn to_time_dt_local(&self) -> (dt: DateTime)
        ensures
            dt == self.to_time_dt_spec(),
    {
        let dt = self.to_time_dt();
        proof {
            broadcast use crate::types::datetime::lemma_date_time_of;
            broadcast use crate::types::datetime::lemma_date_time_view_injective;

        }
        dt
    }

    /// The instant of this reminder time, taken as UTC.
    pub open spec fn to_time_dt_spec(self) -> DateTime {
        crate::types::datetime::date_time_of(
            unix_nanos_of_fields(
                fields_of_reminder_time(self).0,
                fields_of_reminder_time(self).1,
                fields_of_reminder_time(self).2,
                fields_of_reminder_time(self).3,
                fields_of_reminder_time(self).4,
            ) as i128,
        )
    }

    /// Replaces the date.
    pub fn replace_date(&mut self, date: Date)
        ensures
            final(self).date == date,
            final(self).time == old(self).time,
    {
        self.date = date;
    }

    /// Replaces the time of day.
    pub fn replace_time(&mut self, hour: Hour12, minute: Minute, period: TimePeriod)
        ensures
            final(self).date == old(self).date,
            final(self).time == (SimpleTime { hour, minute, period }),
    {
        self.time = SimpleTime::new(hour, minute, period);
    }

    /// Replaces the time of day with a twenty-four-hour-clock hour and minute.
    pub fn replace_time_military(&mut self, hour: Hour, minute: Minute)
        ensures
            final(self).date == old(self).date,
            (final(self).time.hour, final(self).time.period) == standard_of(hour@),
            final(self).time.minute == minute,
    {
        self.time = SimpleTime::from_military(hour, minute);
    }

    pub fn replace_hour(&mut self, hour: Hour12)
        ensures
            *final(self) == (ReminderTime {
                time: SimpleTime { hour, ..old(self).time },
                ..*old(self)
            }),
    {
        self.time.hour = hour;
    }

    pub fn replace_mins(&mut self, min: Minute)
        ensures
            *final(self) == (ReminderTime {
                time: SimpleTime { minute: min, ..old(self).time },
                ..*old(self)
            }),
    {
        self.time.minute = min;
    }

    pub fn replace_period(&mut self, period: TimePeriod)
        ensures
            *final(self) == (ReminderTime {
                time: SimpleTime { period, ..old(self).time },
                ..*old(self)
            }),
    {
        self.time.period = period;
    }
}

} // verus!
