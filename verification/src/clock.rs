//! The time that a post carries: a count of seconds since the start of 1970
//! (UTC) as a calendar date and a time of day, and its text.

use vstd::prelude::*;
use crate::text::{digit, digit_char};

verus! {

/// A moment in UTC, to the second.
#[derive(Debug, Clone, Copy, PartialEq, Eq, Structural)]
pub struct Timestamp {
    pub year: u64,
    pub month: u64,
    pub day: u64,
    pub hour: u64,
    pub minute: u64,
    pub second: u64,
}

/// Whether a year of the Gregorian calendar is a leap year.
pub open spec fn is_leap_year(year: int) -> bool {
    year % 4 == 0 && (year % 100 != 0 || year % 400 == 0)
}

/// The number of days of a year.
pub open spec fn days_in_year(year: int) -> int {
    if is_leap_year(year) {
        366
    } else {
        365
    }
}

/// The number of days of a month of a year.
pub open spec fn days_in_month(year: int, month: int) -> int {
    if month == 2 {
        if is_leap_year(year) {
            29
        } else {
            28
        }
    } else if month == 4 || month == 6 || month == 9 || month == 11 {
        30
    } else {
        31
    }
}

/// The number of days from the start of 1970 to the start of a year.
pub open spec fn days_before_year(year: int) -> int
    decreases year - 1970,
{
    if year <= 1970 {
        0
    } else {
        days_before_year(year - 1) + days_in_year(year - 1)
    }
}

/// The number of days from the start of a year to the start of a month.
pub open spec fn days_before_month(year: int, month: int) -> int
    decreases month,
{
    if month <= 1 {
        0
    } else {
        days_before_month(year, month - 1) + days_in_month(year, month - 1)
    }
}

/// A date of the calendar, from 1970 on.
pub open spec fn is_date(year: int, month: int, day: int) -> bool {
    year >= 1970 && 1 <= month <= 12 && 1 <= day <= days_in_month(year, month)
}

/// The number of days from the first of January 1970 to a date.
pub open spec fn day_number(year: int, month: int, day: int) -> int {
    days_before_year(year) + days_before_month(year, month) + day - 1
}

impl Timestamp {
    /// A timestamp holds a date of the calendar and a time of day.
    pub open spec fn well_formed(self) -> bool {
        &&& is_date(self.year as int, self.month as int, self.day as int)
        &&& self.year <= 9999
        &&& self.hour < 24
        &&& self.minute < 60
        &&& self.second < 60
    }

    /// The number of seconds from the start of 1970 to the timestamp.
    pub open spec fn seconds(self) -> int {
        day_number(self.year as int, self.month as int, self.day as int) * 86400 + self.hour * 3600
            + self.minute * 60 + self.second
    }

    /// The timestamp as text: date and time with a `T` between and a `Z`
    /// behind, the year in four digits and every other number in two.
    pub open spec fn spec_text(self) -> Seq<char> {
        four_digits(self.year as nat) + seq!['-'] + two_digits(self.month as nat) + seq!['-']
            + two_digits(self.day as nat) + seq!['T'] + two_digits(self.hour as nat) + seq![':']
            + two_digits(self.minute as nat) + seq![':'] + two_digits(self.second as nat) + seq![
            'Z',
        ]
    }
}

/// The last two digits of a number.
pub open spec fn two_digits(n: nat) -> Seq<char> {
    seq![digit(n / 10 % 10), digit(n % 10)]
}

/// The last four digits of a number.
pub open spec fn four_digits(n: nat) -> Seq<char> {
    seq![digit(n / 1000 % 10), digit(n / 100 % 10), digit(n / 10 % 10), digit(n % 10)]
}

/// A year is over when all its months are.
pub proof fn lemma_months_fill_the_year(year: int)
    ensures
        days_before_month(year, 13) == days_in_year(year),
        forall|month: int|
            1 <= month <= 12 ==> #[trigger] days_before_month(year, month) + days_in_month(
                year,
                month,
            ) <= days_in_year(year),
        forall|month: int| 1 <= month <= 12 ==> 0 <= #[trigger] days_before_month(year, month),
{
    reveal_with_fuel(days_before_month, 14);
}

/// The start of a later year is at least a year's length later.
pub proof fn lemma_years_follow(earlier: int, later: int)
    requires
        1970 <= earlier < later,
    ensures
        days_before_year(earlier) + days_in_year(earlier) <= days_before_year(later),
        days_before_year(earlier) >= 0,
    decreases later - earlier,
{
    if earlier + 1 < later {
        lemma_years_follow(earlier, later - 1);
    } else {
        lemma_years_start(earlier);
    }
}

/// No year starts before 1970 does.
pub proof fn lemma_years_start(year: int)
    ensures
        days_before_year(year) >= 0,
    decreases year - 1970,
{
    if year > 1970 {
        lemma_years_start(year - 1);
    }
}

/// The start of a later month of a year is at least a month's length later.
pub proof fn lemma_months_follow(year: int, earlier: int, later: int)
    requires
        1 <= earlier < later <= 12,
    ensures
        days_before_month(year, earlier) + days_in_month(year, earlier) <= days_before_month(
            year,
            later,
        ),
    decreases later - earlier,
{
    if earlier + 1 < later {
        lemma_months_follow(year, earlier, later - 1);
    }
}

/// Two dates with the same day number are the same date.
pub proof fn lemma_day_number_tells_the_date(
    year1: int,
    month1: int,
    day1: int,
    year2: int,
    month2: int,
    day2: int,
)
    requires
        is_date(year1, month1, day1),
        is_date(year2, month2, day2),
        day_number(year1, month1, day1) == day_number(year2, month2, day2),
    ensures
        year1 == year2,
        month1 == month2,
        day1 == day2,
{
    lemma_months_fill_the_year(year1);
    lemma_months_fill_the_year(year2);
    if year1 < year2 {
        lemma_years_follow(year1, year2);
    } else if year2 < year1 {
        lemma_years_follow(year2, year1);
    } else if month1 < month2 {
        lemma_months_follow(year1, month1, month2);
    } else if month2 < month1 {
        lemma_months_follow(year1, month2, month1);
    }
}

/// Two timestamps that are as many seconds after the start of 1970 are the
/// same timestamp.
pub proof fn lemma_seconds_tell_the_timestamp(a: Timestamp, b: Timestamp)
    requires
        a.well_formed(),
        b.well_formed(),
        a.seconds() == b.seconds(),
    ensures
        a == b,
{
    let da = day_number(a.year as int, a.month as int, a.day as int);
    let db = day_number(b.year as int, b.month as int, b.day as int);
    let ta = a.hour * 3600 + a.minute * 60 + a.second;
    let tb = b.hour * 3600 + b.minute * 60 + b.second;
    assert(0 <= ta < 86400 && 0 <= tb < 86400);
    assert(da == db) by {
        if da < db {
            assert(da * 86400 + 86400 <= db * 86400);
        } else if db < da {
            assert(db * 86400 + 86400 <= da * 86400);
        }
    }
    lemma_day_number_tells_the_date(
        a.year as int,
        a.month as int,
        a.day as int,
        b.year as int,
        b.month as int,
        b.day as int,
    );
    assert(ta == tb);
    assert(a.hour == b.hour) by {
        if a.hour < b.hour {
            assert(a.hour * 3600 + 3600 <= b.hour * 3600);
        } else if b.hour < a.hour {
            assert(b.hour * 3600 + 3600 <= a.hour * 3600);
        }
    }
    assert(a.minute == b.minute) by {
        if a.minute < b.minute {
            assert(a.minute * 60 + 60 <= b.minute * 60);
        } else if b.minute < a.minute {
            assert(b.minute * 60 + 60 <= a.minute * 60);
        }
    }
}

/// Whether a year is a leap year.
pub fn leap_year(year: u64) -> (r: bool)
    ensures
        r == is_leap_year(year as int),
{
    year % 4 == 0 && (year % 100 != 0 || year % 400 == 0)
}

/// The number of days of a year.
pub fn year_length(year: u64) -> (r: u64)
    ensures
        r == days_in_year(year as int),
{
    if leap_year(year) {
        366
    } else {
        365
    }
}

/// The number of days of a month of a year.
pub fn month_length(year: u64, month: u64) -> (r: u64)
    ensures
        r == days_in_month(year as int, month as int),
{
    if month == 2 {
        if leap_year(year) {
            29
        } else {
            28
        }
    } else if month == 4 || month == 6 || month == 9 || month == 11 {
        30
    } else {
        31
    }
}

/// The timestamp that is `seconds` seconds after the start of 1970, or
/// `None` where that is after the year 9999. No other timestamp stands for
/// the same number of seconds.
pub fn utc_timestamp(seconds: u64) -> (r: Option<Timestamp>)
    ensures
        r is Some <==> seconds < days_before_year(10000) * 86400,
        r matches Some(t) ==> t.well_formed() && t.seconds() == seconds,
{
    let days: u64 = seconds / 86400;
    let time: u64 = seconds % 86400;
    let mut year: u64 = 1970;
    let mut left: u64 = days;
    while year <= 9999 && left >= year_length(year)
        invariant
            1970 <= year <= 10000,
            left + days_before_year(year as int) == days,
        decreases 10000 - year,
    {
        left = left - year_length(year);
        year = year + 1;
    }
    if year > 9999 {
        assert(days * 86400 >= days_before_year(10000) * 86400) by (nonlinear_arith)
            requires
                days >= days_before_year(10000),
        ;
        return None;
    }
    let ghost in_year = left;
    let mut month: u64 = 1;
    proof {
        lemma_months_fill_the_year(year as int);
        lemma_years_follow(year as int, 10000);
        assert(seconds < days_before_year(10000) * 86400) by (nonlinear_arith)
            requires
                days + 1 <= days_before_year(10000),
                seconds < (days + 1) * 86400,
        ;
    }
    while left >= month_length(year, month)
        invariant
            1 <= month <= 12,
            1970 <= year <= 9999,
            left + days_before_month(year as int, month as int) == in_year,
            in_year < days_in_year(year as int),
            days_before_month(year as int, 13) == days_in_year(year as int),
        decreases 12 - month,
    {
        proof {
            if month == 12 {
                assert(days_before_month(year as int, 13) == days_before_month(year as int, 12)
                    + days_in_month(year as int, 12));
            }
        }
        left = left - month_length(year, month);
        month = month + 1;
    }
    let t = Timestamp {
        year,
        month,
        day: left + 1,
        hour: time / 3600,
        minute: time % 3600 / 60,
        second: time % 60,
    };
    assert(t.seconds() == seconds) by {
        assert(day_number(year as int, month as int, (left + 1) as int) == days);
        assert(t.hour * 3600 + t.minute * 60 + t.second == time);
        assert(days * 86400 + time == seconds);
    }
    Some(t)
}

/// Appends the last two digits of a number.
fn push_two_digits(s: &mut String, n: u64)
    ensures
        final(s)@ == old(s)@ + two_digits(n as nat),
{
    s.push(digit_char(n / 10 % 10));
    s.push(digit_char(n % 10));
    assert(s@ =~= old(s)@ + two_digits(n as nat));
}

impl Timestamp {
    /// The timestamp as text, for example `2024-05-06T07:08:09Z`.
    pub fn text(&self) -> (r: String)
        ensures
            r@ == self.spec_text(),
    {
        let mut s = String::new();
        s.push(digit_char(self.year / 1000 % 10));
        s.push(digit_char(self.year / 100 % 10));
        s.push(digit_char(self.year / 10 % 10));
        s.push(digit_char(self.year % 10));
        assert(s@ =~= four_digits(self.year as nat));
        s.push('-');
        push_two_digits(&mut s, self.month);
        s.push('-');
        push_two_digits(&mut s, self.day);
        s.push('T');
        push_two_digits(&mut s, self.hour);
        s.push(':');
        push_two_digits(&mut s, self.minute);
        s.push(':');
        push_two_digits(&mut s, self.second);
        s.push('Z');
        assert(s@ =~= self.spec_text());
        s
    }
}

} // verus!
