//! Calendar date and time of day, as the database stores them.
use vstd::prelude::*;

use crate::text::nat_text;

verus! {

/// A date and a time of day, without time zone.
#[derive(Clone, Copy, Debug, PartialEq, Eq, Structural)]
pub struct DateTime {
    pub year: i32,
    pub month: u8,
    pub day: u8,
    pub hour: u8,
    pub minute: u8,
    pub second: u8,
    pub nanosecond: u32,
}

/// Whether `year` is a leap year of the proleptic Gregorian calendar.
pub open spec fn is_leap_year(year: int) -> bool {
    (year % 4 == 0 && year % 100 != 0) || year % 400 == 0
}

/// Number of days in `month` (1 to 12) of `year`.
pub open spec fn days_in_month(year: int, month: int) -> int {
    if month == 2 {
        if is_leap_year(year) {
            29
        } else {
            28
        }
    } else if month == 4 || month == 6 || month == 9 || month == 11 {
        30
    } else {
        31
    }
}

impl DateTime {
    /// The fields name an existing instant of a year between -9999 and 9999.
    pub open spec fn is_valid(&self) -> bool {
        &&& -9999 <= self.year <= 9999
        &&& 1 <= self.month <= 12
        &&& 1 <= self.day <= days_in_month(self.year as int, self.month as int)
        &&& self.hour < 24
        &&& self.minute < 60
        &&& self.second < 60
        &&& self.nanosecond < 1_000_000_000
    }
}

impl DateTime {
    /// Whether the fields name an existing instant of a year between -9999 and 9999.
    pub fn valid(&self) -> (r: bool)
        ensures
            r == self.is_valid(),
    {
        let leap = (self.year % 4 == 0 && self.year % 100 != 0) || self.year % 400 == 0;
        let days: u8 = if self.month == 2 {
            if leap {
                29
            } else {
                28
            }
        } else if self.month == 4 || self.month == 6 || self.month == 9 || self.month == 11 {
            30
        } else {
            31
        };
        -9999 <= self.year && self.year <= 9999 && 1 <= self.month && self.month <= 12 && 1
            <= self.day && self.day <= days && self.hour < 24 && self.minute < 60 && self.second
            < 60 && self.nanosecond < 1_000_000_000
    }
}

/// Number of days in `year`.
pub open spec fn days_in_year(year: int) -> int {
    if is_leap_year(year) {
        366
    } else {
        365
    }
}

/// Days from 1 January 1970 to 1 January of `year` (negative before 1970).
pub open spec fn days_before_year(year: int) -> int
    decreases (if year >= 1970 { year - 1970 } else { 1970 - year }),
{
    if year == 1970 {
        0
    } else if year > 1970 {
        days_before_year(year - 1) + days_in_year(year - 1)
    } else {
        days_before_year(year + 1) - days_in_year(year)
    }
}

/// Days from 1 January of `year` to the first day of `month`.
pub open spec fn days_before_month(year: int, month: int) -> int
    decreases month,
{
    if month <= 1 {
        0
    } else {
        days_before_month(year, month - 1) + days_in_month(year, month - 1)
    }
}

/// The Unix timestamp of midnight UTC at the start of the given day: the days
/// since 1 January 1970, 86400 seconds each.
pub open spec fn midnight_timestamp(year: int, month: int, day: int) -> int {
    (days_before_year(year) + days_before_month(year, month) + day - 1) * 86400
}

proof fn lemma_leap_year_shift(year: int, k: int)
    ensures
        is_leap_year(year) == is_leap_year(year + 400 * k),
{
    assert((year + 400 * k) % 4 == year % 4) by (nonlinear_arith);
    assert((year + 400 * k) % 100 == year % 100) by (nonlinear_arith);
    assert((year + 400 * k) % 400 == year % 400) by (nonlinear_arith);
}

fn leap_year(year: i32) -> (r: bool)
    ensures
        r == is_leap_year(year as int),
{
    let shifted: u64 = (year as i64 + 4_000_000_000i64) as u64;
    proof {
        lemma_leap_year_shift(year as int, 10_000_000);
    }
    (shifted % 4 == 0 && shifted % 100 != 0) || shifted % 400 == 0
}

fn days_before_year_of(year: i32) -> (r: i64)
    requires
        -999_999 <= year <= 999_999,
    ensures
        r == days_before_year(year as int),
        -366 * 1_001_969 <= r <= 366 * 1_001_969,
{
    let mut days: i64 = 0;
    let mut y: i32 = 1970;
    if year >= 1970 {
        while y < year
            invariant
                1970 <= y <= year,
                year <= 999_999,
                days == days_before_year(y as int),
                0 <= days <= 366 * (y - 1970),
            decreases year - y,
        {
            let len: i64 = if leap_year(y) { 366 } else { 365 };
            days = days + len;
            y = y + 1;
        }
    } else {
        while y > year
            invariant
                year <= y <= 1970,
                -999_999 <= year,
                days == days_before_year(y as int),
                -366 * (1970 - y) <= days <= 0,
            decreases y - year,
        {
            y = y - 1;
            let len: i64 = if leap_year(y) { 366 } else { 365 };
            days = days - len;
        }
    }
    days
}

fn days_before_month_of(year: i32, month: u8) -> (r: i64)
    requires
        1 <= month <= 12,
    ensures
        r == days_before_month(year as int, month as int),
        0 <= r <= 31 * 11,
{
    let mut days: i64 = 0;
    let mut m: u8 = 1;
    while m < month
        invariant
            1 <= m <= month <= 12,
            days == days_before_month(year as int, m as int),
            0 <= days <= 31 * (m - 1),
        decreases month - m,
    {
        let len: i64 = if m == 2 {
            if leap_year(year) { 29 } else { 28 }
        } else if m == 4 || m == 6 || m == 9 || m == 11 {
            30
        } else {
            31
        };
        days = days + len;
        m = m + 1;
    }
    days
}

/// Midnight UTC of 1 January 1970 is the Unix epoch, timestamp 0.
pub proof fn law_epoch_is_zero()
    ensures
        midnight_timestamp(1970, 1, 1) == 0,
{
}

/// Midnights of consecutive days are 86400 seconds apart, within a month,
/// from the last day of a month to the first of the next, and from 31
/// December to 1 January of the next year.
pub proof fn law_next_day_is_a_day_later(year: int, month: int, day: int)
    requires
        1 <= month <= 12,
        1 <= day <= days_in_month(year, month),
    ensures
        day < days_in_month(year, month) ==> midnight_timestamp(year, month, day + 1)
            == midnight_timestamp(year, month, day) + 86400,
        day == days_in_month(year, month) && month < 12 ==> midnight_timestamp(year, month + 1, 1)
            == midnight_timestamp(year, month, day) + 86400,
        day == days_in_month(year, month) && month == 12 ==> midnight_timestamp(year + 1, 1, 1)
            == midnight_timestamp(year, month, day) + 86400,
{
    assert(days_before_month(year, month + 1) == days_before_month(year, month) + days_in_month(year, month));
    if month == 12 {
        reveal_with_fuel(days_before_month, 13);
        assert(days_before_month(year, 12) + 31 == days_in_year(year));
        if year >= 1970 {
            assert(days_before_year(year + 1) == days_before_year(year) + days_in_year(year));
        } else {
            assert(days_before_year(year) == days_before_year(year + 1) - days_in_year(year));
        }
        assert(days_before_month(year + 1, 1) == 0);
    }
}

/// The Unix timestamp of midnight UTC at the start of the given day.
pub fn midnight_unix(year: i32, month: u8, day: u8) -> (r: i64)
    requires
        -999_999 <= year <= 999_999,
        1 <= month <= 12,
        1 <= day <= 31,
    ensures
        r == midnight_timestamp(year as int, month as int, day as int),
{
    let days = days_before_year_of(year) + days_before_month_of(year, month) + day as i64 - 1;
    days * 86400
}

/// Decimal digits of `n`, with leading zeros up to `width` digits.
pub open spec fn zero_padded(n: nat, width: nat) -> Seq<char> {
    let t = nat_text(n);
    if t.len() < width {
        Seq::new((width - t.len()) as nat, |i: int| '0') + t
    } else {
        t
    }
}

/// `s` without its trailing `'0'`s, keeping at least one character.
pub open spec fn without_trailing_zeros(s: Seq<char>) -> Seq<char>
    decreases s.len(),
{
    if s.len() > 1 && s.last() == '0' {
        without_trailing_zeros(s.drop_last())
    } else {
        s
    }
}

/// A date as `YYYY-MM-DD`, a negative year with a leading `'-'`.
pub open spec fn date_text(year: i32, month: u8, day: u8) -> Seq<char> {
    (if year < 0 {
        seq!['-']
    } else {
        Seq::<char>::empty()
    }) + zero_padded(
        (if year < 0 {
            -year
        } else {
            year as int
        }) as nat,
        4,
    ) + seq!['-'] + zero_padded(month as nat, 2) + seq!['-'] + zero_padded(day as nat, 2)
}

/// How the `time` crate writes a `PrimitiveDateTime` with these fields (of a
/// year between -9999 and 9999): the date, a space, the hour without padding,
/// two-digit minutes and seconds, a `'.'` and the nanoseconds as nine digits
/// without their trailing zeros (at least one digit stays).
pub open spec fn time_datetime_text(
    year: i32,
    month: u8,
    day: u8,
    hour: u8,
    minute: u8,
    second: u8,
    nanosecond: u32,
) -> Seq<char> {
    date_text(year, month, day) + seq![' '] + nat_text(hour as nat) + seq![':'] + zero_padded(
        minute as nat,
        2,
    ) + seq![':'] + zero_padded(second as nat, 2) + seq!['.'] + without_trailing_zeros(
        zero_padded(nanosecond as nat, 9),
    )
}

/// The fraction `chrono` writes after the seconds: nothing for none, else a
/// `'.'` and three, six or nine digits, the fewest that hold it.
pub open spec fn chrono_fraction(nanosecond: u32) -> Seq<char> {
    if nanosecond == 0 {
        Seq::<char>::empty()
    } else if nanosecond % 1_000_000 == 0 {
        seq!['.'] + zero_padded((nanosecond / 1_000_000) as nat, 3)
    } else if nanosecond % 1_000 == 0 {
        seq!['.'] + zero_padded((nanosecond / 1_000) as nat, 6)
    } else {
        seq!['.'] + zero_padded(nanosecond as nat, 9)
    }
}

/// How the `chrono` crate writes a `NaiveDateTime` with these fields (of a
/// year between -9999 and 9999): the date, a space, `HH:MM:SS` and the
/// fraction of a second.
pub open spec fn chrono_datetime_text(
    year: i32,
    month: u8,
    day: u8,
    hour: u8,
    minute: u8,
    second: u8,
    nanosecond: u32,
) -> Seq<char> {
    date_text(year, month, day) + seq![' '] + zero_padded(hour as nat, 2) + seq![':'] + zero_padded(
        minute as nat,
        2,
    ) + seq![':'] + zero_padded(second as nat, 2) + chrono_fraction(nanosecond)
}

/// `time::PrimitiveDateTime`'s `Display`, on the date and time `t` names.
/// Claimed: the text is `time_datetime_text` of the fields, as `time`'s
/// `fmt_into_buffer` for dates and times writes them; `from_calendar_date`
/// and `from_hms_nano` accept every valid `t`, so neither `unwrap` fails.
#[verifier::external_body]
pub(crate) fn time_text(t: &DateTime) -> (s: String)
    requires
        t.is_valid(),
    ensures
        s@ == time_datetime_text(t.year, t.month, t.day, t.hour, t.minute, t.second, t.nanosecond),
{
    let month = time::Month::try_from(t.month).unwrap();
    let date = time::Date::from_calendar_date(t.year, month, t.day).unwrap();
    let clock = time::Time::from_hms_nano(t.hour, t.minute, t.second, t.nanosecond).unwrap();
    time::PrimitiveDateTime::new(date, clock).to_string()
}

/// `chrono::NaiveDateTime`'s `Display`, on the date and time `t` names.
/// Claimed: the text is `chrono_datetime_text` of the fields, as `chrono`'s
/// `Debug` for `NaiveDate` and `NaiveTime` writes them; `from_ymd_opt` and
/// `and_hms_nano_opt` accept every valid `t`, so neither `unwrap` fails.
#[verifier::external_body]
pub(crate) fn chrono_text(t: &DateTime) -> (s: String)
    requires
        t.is_valid(),
    ensures
        s@ == chrono_datetime_text(t.year, t.month, t.day, t.hour, t.minute, t.second, t.nanosecond),
{
    let date = chrono::NaiveDate::from_ymd_opt(t.year, t.month as u32, t.day as u32).unwrap();
    let when = date.and_hms_nano_opt(t.hour as u32, t.minute as u32, t.second as u32, t.nanosecond).unwrap();
    when.to_string()
}

} // verus!
