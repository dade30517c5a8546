//! Days since 1 January 1970 as calendar dates, and seconds since then as
//! timestamps.

use vstd::prelude::*;
use crate::text::{
    padded_decimal_chars, padded_decimal_text, push_range, push_str_chars, string_of,
};

verus! {

/// The number of seconds in a day.
pub const SECONDS_PER_DAY: u64 = 86400;

/// Whether `year` has a 29th of February.
pub open spec fn is_leap_year(year: int) -> bool {
    (year % 4 == 0 && year % 100 != 0) || year % 400 == 0
}

/// The number of days of `year`.
pub open spec fn days_in_year(year: int) -> int {
    if is_leap_year(year) {
        366
    } else {
        365
    }
}

/// The number of days of the given month, counted from 1 for January.
pub open spec fn days_in_month(year: int, month: int) -> int {
    if month == 2 {
        if is_leap_year(year) {
            29
        } else {
            28
        }
    } else if month == 4 || month == 6 || month == 9 || month == 11 {
        30
    } else {
        31
    }
}

/// The number of days from 1 January 1970 to 1 January of `year`.
pub open spec fn days_before_year(year: int) -> int
    decreases year - 1970,
{
    if year <= 1970 {
        0
    } else {
        days_before_year(year - 1) + days_in_year(year - 1)
    }
}

/// The number of days from 1 January of `year` to the first of the given
/// month.
pub open spec fn days_before_month(year: int, month: int) -> int
    decreases month,
{
    if month <= 1 {
        0
    } else {
        days_before_month(year, month - 1) + days_in_month(year, month - 1)
    }
}

/// A day of the calendar.
pub struct CivilDate {
    pub year: int,
    pub month: int,
    pub day: int,
}

/// Whether `date` is a day of the calendar, 1970 or later.
pub open spec fn is_date(date: CivilDate) -> bool {
    &&& date.year >= 1970
    &&& 1 <= date.month <= 12
    &&& 1 <= date.day <= days_in_month(date.year, date.month)
}

/// The number of days from 1 January 1970 to `date`.
pub open spec fn day_number(date: CivilDate) -> int {
    days_before_year(date.year) + days_before_month(date.year, date.month) + date.day - 1
}

/// The date that lies `days` days after 1 January 1970.
pub open spec fn date_of_day(days: nat) -> CivilDate {
    choose|date: CivilDate| is_date(date) && day_number(date) == days
}

/// The timestamp of the moment `seconds` seconds after the start of 1970,
/// in the form `YYYY-MM-DDTHH:MM:SSZ`.
pub open spec fn timestamp_text(seconds: nat) -> Seq<char> {
    let date = date_of_day(seconds / (SECONDS_PER_DAY as nat));
    let time = seconds % (SECONDS_PER_DAY as nat);
    padded_decimal_text(date.year as nat, 4) + "-"@ + padded_decimal_text(date.month as nat, 2)
        + "-"@ + padded_decimal_text(date.day as nat, 2) + "T"@ + padded_decimal_text(
        time / 3600,
        2,
    ) + ":"@ + padded_decimal_text((time % 3600) / 60, 2) + ":"@ + padded_decimal_text(
        time % 60,
        2,
    ) + "Z"@
}

/// The months of a year make up the year.
proof fn lemma_months_fill_year(year: int)
    ensures
        days_before_month(year, 13) == days_in_year(year),
        forall|month: int|
            1 <= month <= 12 ==> 0 <= #[trigger] days_before_month(year, month)
                && days_before_month(year, month) + days_in_month(year, month)
                <= days_in_year(year),
        forall|a: int, b: int|
            1 <= a < b <= 12 ==> #[trigger] days_before_month(year, a) + days_in_month(year, a)
                <= #[trigger] days_before_month(year, b),
{
    reveal_with_fuel(days_before_month, 14);
}

/// Later years begin later.
proof fn lemma_years_increase(earlier: int, later: int)
    requires
        1970 <= earlier <= later,
    ensures
        days_before_year(earlier) >= 0,
        days_before_year(later) >= days_before_year(earlier) + 365 * (later - earlier),
    decreases later - 1970,
{
    if earlier > 1970 {
        lemma_years_increase(1970, earlier - 1);
    }
    if later > earlier {
        lemma_years_increase(earlier, later - 1);
    }
}

/// No two dates lie the same number of days after 1 January 1970.
pub proof fn lemma_day_number_is_injective(a: CivilDate, b: CivilDate)
    requires
        is_date(a),
        is_date(b),
        day_number(a) == day_number(b),
    ensures
        a == b,
{
    lemma_months_fill_year(a.year);
    lemma_months_fill_year(b.year);
    if a.year < b.year {
        lemma_years_increase(a.year + 1, b.year);
        lemma_years_increase(1970, b.year);
        assert(false);
    }
    if b.year < a.year {
        lemma_years_increase(b.year + 1, a.year);
        lemma_years_increase(1970, a.year);
        assert(false);
    }
    if a.month < b.month {
        assert(false);
    }
    if b.month < a.month {
        assert(false);
    }
}

/// The date with the given day number is the date of that day.
pub proof fn lemma_date_of_day(date: CivilDate)
    requires
        is_date(date),
        day_number(date) >= 0,
    ensures
        date_of_day(day_number(date) as nat) == date,
{
    let chosen = date_of_day(day_number(date) as nat);
    assert(is_date(chosen) && day_number(chosen) == day_number(date));
    lemma_day_number_is_injective(chosen, date);
}

fn leap_year(year: u64) -> (out: bool)
    ensures
        out == is_leap_year(year as int),
{
    (year % 4 == 0 && year % 100 != 0) || year % 400 == 0
}

fn month_length(year: u64, month: u64) -> (out: u64)
    ensures
        out == days_in_month(year as int, month as int),
{
    if month == 2 {
        if leap_year(year) {
            29
        } else {
            28
        }
    } else if month == 4 || month == 6 || month == 9 || month == 11 {
        30
    } else {
        31
    }
}

/// The year, month and day that lie `days` days after 1 January 1970.
pub fn civil_from_days(days: u64) -> (out: (u64, u64, u64))
    ensures
        date_of_day(days as nat) == (CivilDate {
            year: out.0 as int,
            month: out.1 as int,
            day: out.2 as int,
        }),
        is_date(date_of_day(days as nat)),
{
    let mut year: u64 = 1970;
    let mut rest: u64 = days;
    loop
        invariant
            year >= 1970,
            rest <= days,
            365 * (year - 1970) <= days - rest,
            days_before_year(year as int) + rest == days,
        ensures
            year >= 1970,
            days_before_year(year as int) + rest == days,
            rest < days_in_year(year as int),
        decreases rest,
    {
        let length: u64 = if leap_year(year) {
            366
        } else {
            365
        };
        if rest < length {
            break;
        }
        rest -= length;
        year += 1;
    }
    let mut month: u64 = 1;
    proof {
        lemma_months_fill_year(year as int);
    }
    while month < 12 && rest >= month_length(year, month)
        invariant
            1 <= month <= 12,
            year >= 1970,
            days_before_year(year as int) + days_before_month(year as int, month as int) + rest
                == days,
            days_before_month(year as int, month as int) + rest < days_in_year(year as int),
            days_before_month(year as int, 13) == days_in_year(year as int),
        decreases 12 - month,
    {
        rest -= month_length(year, month);
        month += 1;
    }
    proof {
        if month == 12 {
            assert(days_before_month(year as int, 13) == days_before_month(year as int, 12)
                + days_in_month(year as int, 12));
        }
        let date = CivilDate { year: year as int, month: month as int, day: rest + 1 };
        assert(is_date(date));
        assert(day_number(date) == days);
        lemma_date_of_day(date);
    }
    (year, month, rest + 1)
}

/// Appends `n`, zero-filled to `width` characters.
fn push_padded(out: &mut Vec<char>, n: u64, width: usize)
    ensures
        final(out)@ == old(out)@ + padded_decimal_text(n as nat, width as nat),
{
    let digits = padded_decimal_chars(n, width);
    let len = digits.len();
    push_range(out, &digits, 0, len);
    assert(digits@.subrange(0, len as int) =~= digits@);
}

/// The timestamp of the moment `seconds` seconds after the start of 1970, in
/// the form `YYYY-MM-DDTHH:MM:SSZ`. Years beyond 9999 take the digits they
/// need.
pub fn format_timestamp(seconds: u64) -> (out: String)
    ensures
        out@ == timestamp_text(seconds as nat),
{
    let (year, month, day) = civil_from_days(seconds / SECONDS_PER_DAY);
    let time = seconds % SECONDS_PER_DAY;
    let mut chars: Vec<char> = Vec::new();
    push_padded(&mut chars, year, 4);
    push_str_chars(&mut chars, "-");
    push_padded(&mut chars, month, 2);
    push_str_chars(&mut chars, "-");
    push_padded(&mut chars, day, 2);
    push_str_chars(&mut chars, "T");
    push_padded(&mut chars, time / 3600, 2);
    push_str_chars(&mut chars, ":");
    push_padded(&mut chars, (time % 3600) / 60, 2);
    push_str_chars(&mut chars, ":");
    push_padded(&mut chars, time % 60, 2);
    push_str_chars(&mut chars, "Z");
    assert(chars@ =~= timestamp_text(seconds as nat));
    string_of(&chars)
}

} // verus!
