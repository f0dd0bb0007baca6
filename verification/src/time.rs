//! Calendar arithmetic for converting a UTC wall-clock reading to Unix seconds.

use vstd::prelude::*;

verus! {

#[derive(Clone, Copy, Debug, PartialEq, Eq, Structural)]
pub struct UtcDateTime {
    pub year: u16,
    pub month: u8,
    pub day: u8,
    pub hour: u8,
    pub minute: u8,
    pub second: u8,
}

#[derive(Clone, Copy, Debug, PartialEq, Eq, Structural)]
pub enum Error {
    InvalidDate,
    InvalidYear,
}

/// Gregorian leap-year rule.
pub open spec fn is_leap(year: int) -> bool {
    year % 4 == 0 && (year % 100 != 0 || year % 400 == 0)
}

pub open spec fn year_days(year: int) -> int {
    if is_leap(year) { 366 } else { 365 }
}

/// Length of `month` in `year`, or `None` for a month outside 1..=12.
pub open spec fn month_days(year: int, month: int) -> Option<int> {
    if month == 1 || month == 3 || month == 5 || month == 7 || month == 8 || month == 10
        || month == 12 {
        Some(31)
    } else if month == 4 || month == 6 || month == 9 || month == 11 {
        Some(30)
    } else if month == 2 {
        if is_leap(year) { Some(29) } else { Some(28) }
    } else {
        None
    }
}

/// Days from 1970-01-01 to the first day of `year`.
pub open spec fn days_before_year(year: int) -> int
    decreases year - 1970,
{
    if year <= 1970 { 0 } else { days_before_year(year - 1) + year_days(year - 1) }
}

/// Days from the first day of `year` to the first day of `month`.
pub open spec fn days_before_month(year: int, month: int) -> int
    decreases month,
{
    if month <= 1 {
        0
    } else {
        days_before_month(year, month - 1) + match month_days(year, month - 1) {
            Some(d) => d,
            None => 0,
        }
    }
}

/// Whether every field of `date` lies in its calendar range.
pub open spec fn valid_date(date: UtcDateTime) -> bool {
    &&& month_days(date.year as int, date.month as int) is Some
    &&& 1 <= date.day <= month_days(date.year as int, date.month as int).unwrap()
    &&& date.hour <= 23
    &&& date.minute <= 59
    &&& date.second <= 59
}

/// Seconds since the Unix epoch of a valid date.
pub open spec fn epoch_seconds(date: UtcDateTime) -> int {
    (days_before_year(date.year as int) + days_before_month(date.year as int, date.month as int)
        + date.day - 1) * 86_400 + date.hour * 3_600 + date.minute * 60 + date.second
}

pub fn leap_year(year: u16) -> (r: bool)
    ensures
        r == is_leap(year as int),
{
    year % 4 == 0 && (year % 100 != 0 || year % 400 == 0)
}

pub fn days_in_month(year: u16, month: u8) -> (r: Option<u8>)
    ensures
        match r {
            Some(d) => month_days(year as int, month as int) == Some(d as int),
            None => month_days(year as int, month as int) is None,
        },
{
    match month {
        1 | 3 | 5 | 7 | 8 | 10 | 12 => Some(31),
        4 | 6 | 9 | 11 => Some(30),
        2 => if leap_year(year) { Some(29) } else { Some(28) },
        _ => None,
    }
}

proof fn lemma_days_before_year_bounds(year: int)
    requires
        1970 <= year,
    ensures
        365 * (year - 1970) <= days_before_year(year) <= 366 * (year - 1970),
    decreases year - 1970,
{
    if year > 1970 {
        lemma_days_before_year_bounds(year - 1);
    }
}

proof fn lemma_days_before_month_bounds(year: int, month: int)
    requires
        1 <= month <= 13,
    ensures
        0 <= days_before_month(year, month) <= 31 * (month - 1),
    decreases month,
{
    if month > 1 {
        lemma_days_before_month_bounds(year, month - 1);
    }
}

/// Converts a UTC date in 2020..=2099 to seconds since 1970-01-01T00:00:00Z.
pub fn unix_seconds(date: UtcDateTime) -> (r: Result<u64, Error>)
    ensures
        (date.year < 2020 || date.year > 2099) ==> r == Err::<u64, Error>(Error::InvalidYear),
        (2020 <= date.year <= 2099 && !valid_date(date)) ==> r == Err::<u64, Error>(
            Error::InvalidDate,
        ),
        (2020 <= date.year <= 2099 && valid_date(date)) ==> r == Ok::<u64, Error>(
            epoch_seconds(date) as u64,
        ) && epoch_seconds(date) <= u64::MAX,
{
    if date.year < 2020 || date.year > 2099 {
        return Err(Error::InvalidYear);
    }
    let month_len = match days_in_month(date.year, date.month) {
        Some(d) => d,
        None => return Err(Error::InvalidDate),
    };
    if date.day == 0 || date.day > month_len || date.hour > 23 || date.minute > 59
        || date.second > 59 {
        return Err(Error::InvalidDate);
    }
    let mut days: u64 = 0;
    let mut year: u16 = 1970;
    while year < date.year
        invariant
            1970 <= year <= date.year,
            date.year <= 2099,
            days == days_before_year(year as int),
        decreases date.year - year,
    {
        proof {
            lemma_days_before_year_bounds(year as int);
        }
        days = days + if leap_year(year) { 366 } else { 365 };
        year = year + 1;
    }
    let mut month: u8 = 1;
    while month < date.month
        invariant
            1 <= month <= date.month,
            date.month <= 12,
            month_days(date.year as int, date.month as int) is Some,
            2020 <= date.year <= 2099,
            days == days_before_year(date.year as int) + days_before_month(
                date.year as int,
                month as int,
            ),
        decreases date.month - month,
    {
        proof {
            lemma_days_before_year_bounds(date.year as int);
            lemma_days_before_month_bounds(date.year as int, month as int);
        }
        let d = match days_in_month(date.year, month) {
            Some(d) => d,
            None => return Err(Error::InvalidDate),
        };
        days = days + d as u64;
        month = month + 1;
    }
    proof {
        lemma_days_before_year_bounds(date.year as int);
        lemma_days_before_month_bounds(date.year as int, date.month as int);
    }
    days = days + (date.day - 1) as u64;
    Ok(days * 86_400 + date.hour as u64 * 3_600 + date.minute as u64 * 60 + date.second as u64)
}

/// Days in the months of an ordinary year before month `m`.
pub open spec fn ordinary_days_before(m: int) -> int {
    if m <= 1 { 0 } else if m == 2 { 31 } else if m == 3 { 59 } else if m == 4 { 90 } else if m == 5 { 120 }
    else if m == 6 { 151 } else if m == 7 { 181 } else if m == 8 { 212 } else if m == 9 { 243 }
    else if m == 10 { 273 } else if m == 11 { 304 } else { 334 }
}

proof fn lemma_days_before_year_closed(year: int)
    requires
        1970 <= year <= 2100,
    ensures
        days_before_year(year) == 365 * (year - 1970) + (year - 1) / 4 - 492,
    decreases year - 1970,
{
    if year > 1970 {
        lemma_days_before_year_closed(year - 1);
        assert(is_leap(year - 1) <==> (year - 1) % 4 == 0);
    }
}

/// The seconds of a date from 1970 through 2099, counted directly: 365 days
/// for each year since 1970 plus one for each leap year among them (every
/// fourth year in this span, 2000 included), the days of the earlier months
/// of the year (29 in February of a year divisible by four), the earlier
/// days of the month, and the time of day. So 1 March of a leap year is 60
/// days after its 1 January, and of another year 59.
pub proof fn lemma_epoch_seconds_counted(date: UtcDateTime)
    requires
        valid_date(date),
        1970 <= date.year <= 2099,
    ensures
        epoch_seconds(date) == (365 * (date.year - 1970) + (date.year - 1) / 4 - 492
            + ordinary_days_before(date.month as int)
            + (if date.month > 2 && date.year % 4 == 0 { 1int } else { 0int }) + date.day - 1) * 86_400
            + date.hour * 3_600 + date.minute * 60 + date.second,
{
    lemma_days_before_year_closed(date.year as int);
    let y = date.year as int;
    assert(is_leap(y) <==> y % 4 == 0);
    reveal_with_fuel(days_before_month, 13);
}

} // verus!
