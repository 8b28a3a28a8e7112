//! Verified calendar arithmetic over Unix epoch seconds: hour and day
//! boundaries, weekday computation, and proleptic-Gregorian date rendering.
//!
//! Dates are computed by counting days from 0000-01-01 (which falls
//! 62167219200 seconds before the Unix epoch), so every supported timestamp
//! maps to a non-negative day number.

use crate::text::dec_digits;
use crate::text::digit_char;
use crate::text::u64_to_string;
use vstd::prelude::*;
use vstd::string::StringExecFns;

verus! {

/// Seconds from 0000-01-01T00:00:00 to 1970-01-01T00:00:00.
pub const EPOCH_OFFSET_SECONDS: i64 = 62167219200;

/// Latest supported timestamp: 9999-12-31T23:59:59.
pub const MAX_DATE_SECONDS: i64 = 253402300799;

/// A timestamp whose calendar date this module can compute.
pub open spec fn date_representable(t: int) -> bool {
    -62167219200 <= t <= 253402300799
}

pub open spec fn is_leap_year(y: int) -> bool {
    y % 4 == 0 && (y % 100 != 0 || y % 400 == 0)
}

pub open spec fn days_in_year(y: int) -> int {
    if is_leap_year(y) {
        366
    } else {
        365
    }
}

pub open spec fn days_in_month(m: int, leap: bool) -> int {
    if m == 2 {
        if leap {
            29
        } else {
            28
        }
    } else if m == 4 || m == 6 || m == 9 || m == 11 {
        30
    } else {
        31
    }
}

/// Walk year by year from year `y`, consuming `d` days; returns the year
/// reached and the zero-based day within it.
pub open spec fn year_and_day_of_year(d: int, y: int) -> (int, int)
    decreases d,
{
    if d < days_in_year(y) {
        (y, d)
    } else {
        year_and_day_of_year(d - days_in_year(y), y + 1)
    }
}

/// Walk month by month from month `m`, consuming `d` days of the year;
/// returns the month reached and the one-based day within it.
pub open spec fn month_and_day_of_month(d: int, m: int, leap: bool) -> (int, int)
    decreases 12 - m,
{
    if m >= 12 || d < days_in_month(m, leap) {
        (m, d + 1)
    } else {
        month_and_day_of_month(d - days_in_month(m, leap), m + 1, leap)
    }
}

/// Days of the year that precede month `m` (one-based).
pub open spec fn days_before_month(m: int, leap: bool) -> int
    decreases m,
{
    if m <= 1 {
        0
    } else {
        days_before_month(m - 1, leap) + days_in_month(m - 1, leap)
    }
}

/// Calendar date (year, month, day) of a timestamp, in the proleptic
/// Gregorian calendar at UTC.
pub open spec fn spec_date_of(t: int) -> (int, int, int) {
    let day0 = (t + 62167219200) / 86400;
    let yr = year_and_day_of_year(day0, 0);
    let md = month_and_day_of_month(yr.1, 1, is_leap_year(yr.0));
    (yr.0, md.0, md.1)
}

fn days_in_year_exec(y: u64) -> (r: u64)
    ensures
        r == days_in_year(y as int),
        365 <= r <= 366,
{
    if y % 4 == 0 && (y % 100 != 0 || y % 400 == 0) {
        366
    } else {
        365
    }
}

fn days_in_month_exec(m: u64, leap: bool) -> (r: u64)
    ensures
        r == days_in_month(m as int, leap),
        28 <= r <= 31,
{
    if m == 2 {
        if leap {
            29
        } else {
            28
        }
    } else if m == 4 || m == 6 || m == 9 || m == 11 {
        30
    } else {
        31
    }
}

/// Compute the calendar date of a timestamp.
pub fn date_of(t: i64) -> (r: (u64, u64, u64))
    requires
        date_representable(t as int),
    ensures
        (r.0 as int, r.1 as int, r.2 as int) == spec_date_of(t as int),
        r.0 <= 10006,
        1 <= r.1 <= 12,
        1 <= r.2 <= 31,
{
    let shifted: u64 = (t + EPOCH_OFFSET_SECONDS) as u64;
    let day0: u64 = shifted / 86400;
    assert(day0 as int == (t + 62167219200) / 86400);
    assert(day0 <= 3652424) by {
        assert(shifted <= 315569520000 - 1);
    };
    let mut y: u64 = 0;
    let mut rem: u64 = day0;
    while rem >= days_in_year_exec(y)
        invariant
            year_and_day_of_year(day0 as int, 0) == year_and_day_of_year(rem as int, y as int),
            365 * (y as int) + (rem as int) <= day0 as int,
            day0 <= 3652424,
        decreases rem,
    {
        let len = days_in_year_exec(y);
        rem = rem - len;
        y = y + 1;
    }
    assert(year_and_day_of_year(day0 as int, 0) == (y as int, rem as int));
    assert(y <= 10007) by {
        assert(365 * (y as int) <= 3652424);
    };
    assert(rem < days_in_year(y as int));
    let leap = days_in_year_exec(y) == 366;
    assert(leap == is_leap_year(y as int));
    let ghost year_len: int = if leap {
        366int
    } else {
        365int
    };
    let mut m: u64 = 1;
    let mut d: u64 = rem;
    while m < 12 && d >= days_in_month_exec(m, leap)
        invariant
            1 <= m <= 12,
            d < 366,
            (d as int) + days_before_month(m as int, leap) < year_len,
            year_len == (if leap {
                366int
            } else {
                365int
            }),
            month_and_day_of_month(rem as int, 1, leap) == month_and_day_of_month(
                d as int,
                m as int,
                leap,
            ),
        decreases 12 - m,
    {
        let len = days_in_month_exec(m, leap);
        proof {
            assert(days_before_month(m + 1 as int, leap) == days_before_month(m as int, leap)
                + days_in_month(m as int, leap));
        }
        d = d - len;
        m = m + 1;
    }
    assert(month_and_day_of_month(rem as int, 1, leap) == (m as int, d + 1 as int));
    assert(d + 1 <= 31) by {
        if m >= 12 {
            reveal_with_fuel(days_before_month, 13);
            assert(days_before_month(12, true) == 335);
            assert(days_before_month(12, false) == 334);
        }
    };
    (y, m, d + 1)
}

/// Decimal representation padded with leading zeros to two digits.
pub open spec fn pad2(n: int) -> Seq<char> {
    if n < 10 {
        seq!['0', digit_char(n)]
    } else {
        dec_digits(n as nat)
    }
}

/// Decimal representation padded with leading zeros to four digits.
pub open spec fn pad4(n: int) -> Seq<char> {
    if n < 10 {
        seq!['0', '0', '0', digit_char(n)]
    } else if n < 100 {
        seq!['0', '0'] + dec_digits(n as nat)
    } else if n < 1000 {
        seq!['0'] + dec_digits(n as nat)
    } else {
        dec_digits(n as nat)
    }
}

fn pad2_string(n: u64) -> (r: String)
    requires
        n < 100,
    ensures
        r@ == pad2(n as int),
{
    proof {
        reveal_strlit("0");
    }
    if n < 10 {
        let mut s = String::new();
        s.append("0");
        let digits = u64_to_string(n);
        s.append(digits.as_str());
        proof {
            assert(dec_digits(n as nat) =~= seq![digit_char(n as int)]);
            assert(s@ =~= pad2(n as int));
        }
        s
    } else {
        u64_to_string(n)
    }
}

fn pad4_string(n: u64) -> (r: String)
    ensures
        r@ == pad4(n as int),
{
    proof {
        reveal_strlit("0");
        reveal_strlit("00");
        reveal_strlit("000");
    }
    if n < 10 {
        let mut s = String::new();
        s.append("000");
        let digits = u64_to_string(n);
        s.append(digits.as_str());
        proof {
            assert(dec_digits(n as nat) =~= seq![digit_char(n as int)]);
            assert(s@ =~= pad4(n as int));
        }
        s
    } else if n < 100 {
        let mut s = String::new();
        s.append("00");
        let digits = u64_to_string(n);
        s.append(digits.as_str());
        assert(s@ =~= pad4(n as int));
        s
    } else if n < 1000 {
        let mut s = String::new();
        s.append("0");
        let digits = u64_to_string(n);
        s.append(digits.as_str());
        assert(s@ =~= pad4(n as int));
        s
    } else {
        u64_to_string(n)
    }
}

/// The `YYYY-MM-DD` rendering of a timestamp's calendar date.
pub open spec fn spec_format_date(t: int) -> Seq<char> {
    let ymd = spec_date_of(t);
    pad4(ymd.0) + seq!['-'] + pad2(ymd.1) + seq!['-'] + pad2(ymd.2)
}

/// Render a timestamp's calendar date as `YYYY-MM-DD`.
pub fn format_date(t: i64) -> (r: String)
    requires
        date_representable(t as int),
    ensures
        r@ == spec_format_date(t as int),
{
    let (y, m, d) = date_of(t);
    let mut s = pad4_string(y);
    proof {
        reveal_strlit("-");
    }
    let ms = pad2_string(m);
    let ds = pad2_string(d);
    s.append("-");
    s.append(ms.as_str());
    s.append("-");
    s.append(ds.as_str());
    assert(s@ =~= spec_format_date(t as int));
    s
}

/// Hour of day (0..=23) of a timestamp at UTC.
pub open spec fn spec_hour_of(t: int) -> int {
    (t % 86400) / 3600
}

/// Hour of day of a non-negative timestamp.
pub fn hour_of(t: i64) -> (r: u8)
    requires
        t >= 0,
    ensures
        r as int == spec_hour_of(t as int),
        r < 24,
{
    let u = t as u64;
    ((u % 86400) / 3600) as u8
}

/// Weekday of a timestamp, with 0 = Sunday through 6 = Saturday.
pub open spec fn spec_weekday_of(t: int) -> int {
    ((t / 86400) + 4) % 7
}

/// Weekday of a non-negative timestamp (0 = Sunday).
pub fn weekday_of(t: i64) -> (r: u8)
    requires
        t >= 0,
    ensures
        r as int == spec_weekday_of(t as int),
        r < 7,
{
    let u = t as u64;
    (((u / 86400) + 4) % 7) as u8
}

/// Truncate a timestamp down to the start of its hour.
pub fn hour_floor(t: i64) -> (r: i64)
    requires
        t >= 0,
    ensures
        r as int == (t as int) - ((t as int) % 3600),
        0 <= r <= t,
{
    let u = t as u64;
    (u - (u % 3600)) as i64
}

/// Truncate a timestamp down to the start of its day.
pub fn day_floor(t: i64) -> (r: i64)
    requires
        t >= 0,
    ensures
        r as int == (t as int) - ((t as int) % 86400),
        0 <= r <= t,
{
    let u = t as u64;
    (u - (u % 86400)) as i64
}

} // verus!
