//! UTC timestamps in ISO-8601 form (`YYYY-MM-DDTHH:MM:SSZ`) from seconds
//! since the Unix epoch.
use vstd::prelude::*;

use crate::outside::{decimal, digit_char, push_char, two_digits};

verus! {

/// Leap years of the Gregorian calendar.
pub open spec fn is_leap_year(y: int) -> bool {
    (y % 4 == 0 && y % 100 != 0) || y % 400 == 0
}

/// The number of days in year `y`.
pub open spec fn year_length(y: int) -> int {
    if is_leap_year(y) {
        366
    } else {
        365
    }
}

/// The number of days in month `m` (1 to 12) of year `y`.
pub open spec fn month_length(y: int, m: int) -> int {
    if m == 2 {
        if is_leap_year(y) {
            29
        } else {
            28
        }
    } else if m == 4 || m == 6 || m == 9 || m == 11 {
        30
    } else {
        31
    }
}

/// Days from 1970-01-01 to the first day of year `y` (from 1970 on).
pub open spec fn days_before_year(y: int) -> int
    decreases y - 1970,
{
    if y <= 1970 {
        0
    } else {
        days_before_year(y - 1) + year_length(y - 1)
    }
}

/// Days from the first of January of year `y` to the first day of month `m`.
pub open spec fn days_before_month(y: int, m: int) -> int
    decreases m,
{
    if m <= 1 {
        0
    } else {
        days_before_month(y, m - 1) + month_length(y, m - 1)
    }
}

/// `(y, m, d)` is a date from 1970 on.
pub open spec fn valid_date(y: int, m: int, d: int) -> bool {
    1970 <= y && 1 <= m <= 12 && 1 <= d <= month_length(y, m)
}

/// The number of days from 1970-01-01 to the date `(y, m, d)`.
pub open spec fn day_number(y: int, m: int, d: int) -> int {
    days_before_year(y) + days_before_month(y, m) + d - 1
}

/// The decimal digits of `n`, padded with leading zeros to at least four.
pub open spec fn four_digits(n: nat) -> Seq<char> {
    if n < 10 {
        seq!['0', '0', '0'] + decimal(n)
    } else if n < 100 {
        seq!['0', '0'] + decimal(n)
    } else if n < 1000 {
        seq!['0'] + decimal(n)
    } else {
        decimal(n)
    }
}

/// The text of the instant `secs` of the day `(y, m, d)`, where
/// `secs < 86400`.
pub open spec fn stamp_text(y: nat, m: nat, d: nat, secs: nat) -> Seq<char> {
    four_digits(y) + seq!['-'] + two_digits(m) + seq!['-'] + two_digits(d) + seq!['T']
        + two_digits(secs / 3600) + seq![':'] + two_digits((secs % 3600) / 60) + seq![':']
        + two_digits(secs % 60) + seq!['Z']
}

proof fn lemma_year_is_twelve_months(y: int)
    ensures
        days_before_month(y, 13) == year_length(y),
{
    reveal_with_fuel(days_before_month, 13);
}

/// The calendar date of the day `days` days after 1970-01-01.
pub fn civil_from_days(days: u64) -> (r: (u64, u64, u64))
    ensures
        valid_date(r.0 as int, r.1 as int, r.2 as int),
        day_number(r.0 as int, r.1 as int, r.2 as int) == days,
{
    let mut y: u64 = 1970;
    let mut rem: u64 = days;
    loop
        invariant
            1970 <= y,
            (y - 1970) * 365 <= days - rem,
            rem <= days,
            days_before_year(y as int) + rem == days,
        ensures
            1970 <= y,
            days_before_year(y as int) + rem == days,
            rem < year_length(y as int),
        decreases rem,
    {
        let len: u64 = if (y % 4 == 0 && y % 100 != 0) || y % 400 == 0 {
            366
        } else {
            365
        };
        if rem < len {
            break;
        }
        rem = rem - len;
        y = y + 1;
    }
    proof {
        lemma_year_is_twelve_months(y as int);
    }
    let mut m: u64 = 1;
    let ghost in_year = rem;
    loop
        invariant
            1 <= m <= 12,
            rem <= in_year,
            in_year < year_length(y as int),
            days_before_month(y as int, m as int) + rem == in_year,
            days_before_month(y as int, 13) == year_length(y as int),
        ensures
            1 <= m <= 12,
            days_before_month(y as int, m as int) + rem == in_year,
            rem < month_length(y as int, m as int),
        decreases 12 - m,
    {
        let leap = (y % 4 == 0 && y % 100 != 0) || y % 400 == 0;
        let len: u64 = if m == 2 {
            if leap {
                29
            } else {
                28
            }
        } else if m == 4 || m == 6 || m == 9 || m == 11 {
            30
        } else {
            31
        };
        if rem < len {
            break;
        }
        if m == 12 {
            assert(days_before_month(y as int, 13) == days_before_month(y as int, 12)
                + month_length(y as int, 12));
            assert(false);
        }
        rem = rem - len;
        m = m + 1;
    }
    (y, m, rem + 1)
}

/// Appends the decimal digits of `n`.
fn push_decimal(s: &mut String, n: u64)
    ensures
        final(s)@ == old(s)@ + decimal(n as nat),
    decreases n,
{
    if n >= 10 {
        push_decimal(s, n / 10);
    }
    let digit: u8 = (n % 10) as u8;
    push_char(s, digit_char_of(digit));
}

/// The character of the decimal digit `d`.
fn digit_char_of(d: u8) -> (c: char)
    requires
        d < 10,
    ensures
        c == digit_char(d as nat),
{
    let digits = ['0', '1', '2', '3', '4', '5', '6', '7', '8', '9'];
    digits[d as usize]
}

/// Appends the decimal digits of `n`, with leading zeros up to `width`
/// digits (two or four).
fn push_padded(s: &mut String, n: u64, width: u64)
    requires
        width == 2 || width == 4,
    ensures
        width == 2 ==> final(s)@ == old(s)@ + two_digits(n as nat),
        width == 4 ==> final(s)@ == old(s)@ + four_digits(n as nat),
{
    if width == 4 && n < 1000 {
        push_char(s, '0');
    }
    if width == 4 && n < 100 {
        push_char(s, '0');
    }
    if n < 10 {
        push_char(s, '0');
    }
    push_decimal(s, n);
    proof {
        if width == 4 {
            if n < 10 {
                assert(final(s)@ =~= old(s)@ + four_digits(n as nat));
            } else if n < 100 {
                assert(final(s)@ =~= old(s)@ + four_digits(n as nat));
            } else if n < 1000 {
                assert(final(s)@ =~= old(s)@ + four_digits(n as nat));
            }
        } else if n < 10 {
            assert(final(s)@ =~= old(s)@ + two_digits(n as nat));
        }
    }
}

/// The instant `secs` seconds after the Unix epoch as an ISO-8601 UTC
/// timestamp, `YYYY-MM-DDTHH:MM:SSZ`.
pub fn iso8601_utc(secs: u64) -> (r: String)
    ensures
        exists|y: nat, m: nat, d: nat|
            #![trigger day_number(y as int, m as int, d as int)]
            valid_date(y as int, m as int, d as int) && day_number(y as int, m as int, d as int)
                == secs / 86400 && r@ == stamp_text(y, m, d, (secs % 86400) as nat),
{
    let (y, m, d) = civil_from_days(secs / 86400);
    let tod = secs % 86400;
    let mut s = String::new();
    push_padded(&mut s, y, 4);
    push_char(&mut s, '-');
    push_padded(&mut s, m, 2);
    push_char(&mut s, '-');
    push_padded(&mut s, d, 2);
    push_char(&mut s, 'T');
    push_padded(&mut s, tod / 3600, 2);
    push_char(&mut s, ':');
    push_padded(&mut s, (tod % 3600) / 60, 2);
    push_char(&mut s, ':');
    push_padded(&mut s, tod % 60, 2);
    push_char(&mut s, 'Z');
    assert(s@ =~= stamp_text(y as nat, m as nat, d as nat, tod as nat));
    s
}

} // verus!
