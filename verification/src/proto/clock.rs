//! Wall-clock time stamps: RFC 3339, UTC, to the second.

use crate::text;
use vstd::arithmetic::div_mod;
use vstd::prelude::*;

verus! {

/// Whether `y` is a leap year of the proleptic Gregorian calendar.
pub open spec fn is_leap(y: int) -> bool {
    y % 4 == 0 && (y % 100 != 0 || y % 400 == 0)
}

/// The number of days in month `m` of year `y`.
pub open spec fn days_in_month(y: int, m: int) -> int {
    if m == 2 {
        if is_leap(y) {
            29
        } else {
            28
        }
    } else if m == 4 || m == 6 || m == 9 || m == 11 {
        30
    } else {
        31
    }
}

/// Whether `(y, m, d)` is a date.
pub open spec fn is_date(y: int, m: int, d: int) -> bool {
    1 <= m <= 12 && 1 <= d <= days_in_month(y, m)
}

/// Days from 1970-01-01 to the first of January of year `y`.
pub open spec fn year_start(y: int) -> int {
    let p = y - 1;
    365 * p + p / 4 - p / 100 + p / 400 - 719162
}

/// Days from the first of January to the first of month `m`, in year `y`.
pub open spec fn month_start(y: int, m: int) -> int
    decreases m,
{
    if m <= 1 {
        0
    } else {
        month_start(y, m - 1) + days_in_month(y, m - 1)
    }
}

/// Days from 1970-01-01 to the date `(y, m, d)`.
pub open spec fn days_from_civil(y: int, m: int, d: int) -> int {
    year_start(y) + month_start(y, m) + d - 1
}

/// Years follow one another: each starts 365 days after the last, or 366 after a leap year,
/// and year 1970 starts at day zero.
pub proof fn year_lengths(y: int)
    ensures
        year_start(1970) == 0,
        year_start(y + 1) == year_start(y) + (if is_leap(y) {
            366int
        } else {
            365int
        }),
{
}

/// The months of a year cover it exactly.
pub proof fn months_cover_the_year(y: int)
    ensures
        month_start(y, 12) + days_in_month(y, 12) == (if is_leap(y) {
            366int
        } else {
            365int
        }),
{
    reveal_with_fuel(month_start, 13);
}

proof fn year_start_is_monotonic(a: int, b: int)
    requires
        a < b,
    ensures
        year_start(a + 1) <= year_start(b),
    decreases b - a,
{
    if a + 1 < b {
        year_start_is_monotonic(a, b - 1);
        year_lengths(b - 1);
    }
}

proof fn month_bounds(y: int, m: int)
    requires
        1 <= m <= 12,
    ensures
        0 <= month_start(y, m),
        m < 12 ==> month_start(y, m) + days_in_month(y, m) == month_start(y, m + 1),
        month_start(y, m) + days_in_month(y, m) <= year_start(y + 1) - year_start(y),
{
    reveal_with_fuel(month_start, 13);
    year_lengths(y);
}

/// A day number belongs to one date only.
pub proof fn dates_are_distinct(y1: int, m1: int, d1: int, y2: int, m2: int, d2: int)
    requires
        is_date(y1, m1, d1),
        is_date(y2, m2, d2),
        days_from_civil(y1, m1, d1) == days_from_civil(y2, m2, d2),
    ensures
        y1 == y2 && m1 == m2 && d1 == d2,
{
    month_bounds(y1, m1);
    month_bounds(y2, m2);
    if y1 < y2 {
        year_start_is_monotonic(y1, y2);
    } else if y2 < y1 {
        year_start_is_monotonic(y2, y1);
    }
    reveal_with_fuel(month_start, 13);
}

/// Whether one date comes before another: by year, then by month, then by day.
pub open spec fn earlier(a: (int, int, int), b: (int, int, int)) -> bool {
    a.0 < b.0 || a.0 == b.0 && (a.1 < b.1 || a.1 == b.1 && a.2 < b.2)
}

/// A later day has a later date.
pub proof fn later_days_have_later_dates(a: (int, int, int), b: (int, int, int))
    requires
        is_date(a.0, a.1, a.2),
        is_date(b.0, b.1, b.2),
    ensures
        days_from_civil(a.0, a.1, a.2) < days_from_civil(b.0, b.1, b.2) <==> earlier(a, b),
{
    month_bounds(a.0, a.1);
    month_bounds(b.0, b.1);
    if a.0 < b.0 {
        year_start_is_monotonic(a.0, b.0);
    } else if b.0 < a.0 {
        year_start_is_monotonic(b.0, a.0);
    }
    reveal_with_fuel(month_start, 13);
}

/// The date that lies `days` days after 1970-01-01.
pub open spec fn civil(days: int) -> (int, int, int) {
    choose|t: (int, int, int)|
        is_date(t.0, t.1, t.2) && #[trigger] days_from_civil(t.0, t.1, t.2) == days
}

/// A number filled with leading zeros to at least `width` characters, its sign included.
pub open spec fn signed_padded(n: int, width: nat) -> Seq<char> {
    if n < 0 {
        seq!['-'] + text::zero_padded((-n) as nat, (width - 1) as nat)
    } else {
        text::zero_padded(n as nat, width)
    }
}

/// `YYYY-MM-DDThh:mm:ssZ` for a date and the second `s` of its day.
pub open spec fn stamp(date: (int, int, int), s: int) -> Seq<char> {
    signed_padded(date.0, 4).push('-') + text::zero_padded(date.1 as nat, 2).push('-')
        + text::zero_padded(date.2 as nat, 2).push('T') + text::zero_padded((s / 3600) as nat, 2).push(
        ':',
    ) + text::zero_padded((s % 3600 / 60) as nat, 2).push(':') + text::zero_padded(
        (s % 60) as nat,
        2,
    ).push('Z')
}

/// The time stamp for the instant `secs` seconds after the start of 1970, UTC.
pub open spec fn rfc3339(secs: int) -> Seq<char> {
    stamp(civil(secs / 86_400), secs % 86_400)
}

/// The start of the January inside the year that begins in March of year `400 * era + yoe`.
proof fn inner_january(era: int, yoe: int)
    requires
        0 <= yoe <= 399,
    ensures
        year_start(400 * era + yoe + 1) == 146_097 * era + 365 * yoe + yoe / 4 - yoe / 100 - 719_162,
        is_leap(400 * era + yoe + 1) == is_leap(yoe + 1),
{
    let p = 400 * era + yoe;
    let n = yoe + 1;
    div_mod::lemma_fundamental_div_mod_converse(p, 4, 100 * era + yoe / 4, yoe % 4);
    div_mod::lemma_fundamental_div_mod_converse(p, 100, 4 * era + yoe / 100, yoe % 100);
    div_mod::lemma_fundamental_div_mod_converse(p, 400, era, yoe);
    div_mod::lemma_fundamental_div_mod_converse(p + 1, 4, 100 * era + n / 4, n % 4);
    div_mod::lemma_fundamental_div_mod_converse(p + 1, 100, 4 * era + n / 100, n % 100);
    div_mod::lemma_fundamental_div_mod_converse(p + 1, 400, era + n / 400, n % 400);
}

/// Year and day of year inside a 400-year era, counted from the first of March.
proof fn year_of_era(doe: int)
    requires
        0 <= doe < 146_097,
    ensures
        ({
            let yoe = (doe - doe / 1460 + doe / 36_524 - doe / 146_096) / 365;
            let doy = doe - (365 * yoe + yoe / 4 - yoe / 100);
            0 <= yoe <= 399 && 0 <= doy <= 365 && (doy == 365 ==> is_leap(yoe + 1))
        }),
{
}

/// Month and day of the day `doy` of a year counted from the first of March.
proof fn month_of_year(y: int, doy: int)
    requires
        0 <= doy <= 365,
        doy == 365 ==> is_leap(y + 1),
    ensures
        ({
            let mp = (5 * doy + 2) / 153;
            let day = doy - (153 * mp + 2) / 5 + 1;
            let month = if mp < 10 {
                mp + 3
            } else {
                mp - 9
            };
            let year = if month <= 2 {
                y + 1
            } else {
                y
            };
            is_date(year, month, day) && days_from_civil(year, month, day) == year_start(y + 1) - 306 + doy
        }),
{
    let mp = (5 * doy + 2) / 153;
    assert(0 <= mp <= 11);
    reveal_with_fuel(month_start, 13);
    year_lengths(y);
    if mp <= 3 {
        assert(mp == 0 || mp == 1 || mp == 2 || mp == 3);
    } else if mp <= 7 {
        assert(mp == 4 || mp == 5 || mp == 6 || mp == 7);
    } else {
        assert(mp == 8 || mp == 9 || mp == 10 || mp == 11);
    }
}

/// Days since 1970-01-01 as `(year, month, day)`.
///
/// Correct over the entire `i64` range.
pub fn civil_from_days(z: i64) -> (r: (i64, u32, u32))
    ensures
        is_date(r.0 as int, r.1 as int, r.2 as int),
        days_from_civil(r.0 as int, r.1 as int, r.2 as int) == z,
        i64::MIN < r.0,
{
    let shifted: i128 = z as i128 + 719_468;
    let era: i64 = if shifted >= 0 {
        (shifted / 146_097) as i64
    } else {
        (-((-(shifted + 1)) / 146_097) - 1) as i64
    };
    let doe: i64 = if shifted >= 0 {
        (shifted % 146_097) as i64
    } else {
        (146_096 - (-(shifted + 1)) % 146_097) as i64
    };
    assert(0 <= doe < 146_097 && shifted == 146_097 * era + doe);
    let yoe: i64 = (doe - doe / 1460 + doe / 36_524 - doe / 146_096) / 365;
    proof {
        year_of_era(doe as int);
        inner_january(era as int, yoe as int);
    }
    let y: i64 = yoe + era * 400;
    let doy: i64 = doe - (365 * yoe + yoe / 4 - yoe / 100);
    proof {
        month_of_year(y as int, doy as int);
    }
    let mp: i64 = (5 * doy + 2) / 153;
    let day: i64 = doy - (153 * mp + 2) / 5 + 1;
    let month: i64 = if mp < 10 {
        mp + 3
    } else {
        mp - 9
    };
    let year: i64 = if month <= 2 {
        y + 1
    } else {
        y
    };
    (year, month as u32, day as u32)
}

/// The time stamp for the instant `secs` seconds after the start of 1970, UTC.
///
/// A year before 1000 is padded to four characters, sign included.
pub fn format_rfc3339(secs: i64) -> (s: String)
    ensures
        s@ == rfc3339(secs as int),
{
    let days: i64 = if secs >= 0 {
        secs / 86_400
    } else {
        -((-(secs + 1)) / 86_400) - 1
    };
    let of_day: i64 = if secs >= 0 {
        secs % 86_400
    } else {
        86_399 - (-(secs + 1)) % 86_400
    };
    assert(days == secs as int / 86_400 && of_day == secs as int % 86_400);
    let (year, month, day) = civil_from_days(days);
    proof {
        let t = civil(days as int);
        assert(days_from_civil(year as int, month as int, day as int) == days);
        dates_are_distinct(year as int, month as int, day as int, t.0, t.1, t.2);
    }
    let mut s = String::new();
    if year < 0 {
        s.push('-');
        text::push_zero_padded(&mut s, (-year) as u64, 3);
    } else {
        text::push_zero_padded(&mut s, year as u64, 4);
    }
    s.push('-');
    text::push_zero_padded(&mut s, month as u64, 2);
    s.push('-');
    text::push_zero_padded(&mut s, day as u64, 2);
    s.push('T');
    text::push_zero_padded(&mut s, (of_day / 3600) as u64, 2);
    s.push(':');
    text::push_zero_padded(&mut s, (of_day % 3600 / 60) as u64, 2);
    s.push(':');
    text::push_zero_padded(&mut s, (of_day % 60) as u64, 2);
    s.push('Z');
    assert(s@ == rfc3339(secs as int));
    s
}

/// `std::time::SystemTime`, an instant of the wall clock.
#[verifier::external_type_specification]
#[verifier::external_body]
pub struct ExSystemTime(std::time::SystemTime);

/// `SystemTime::now` reads the wall clock. Nothing is known of the instant.
#[verifier::external_body]
fn wall_clock() -> std::time::SystemTime {
    std::time::SystemTime::now()
}

/// `SystemTime::duration_since` the start of 1970: `Ok` with the whole seconds gone by, or
/// `Err` with the whole seconds to go when the instant lies before it. How many depends on
/// the instant, which has no model here.
#[verifier::external_body]
fn since_epoch(t: &std::time::SystemTime) -> Result<u64, u64> {
    t.duration_since(std::time::UNIX_EPOCH).map(|d| d.as_secs()).map_err(|e| e.duration().as_secs())
}

/// Signed seconds from the distance to the start of 1970: `Ok` after it, `Err` before it.
/// A distance that `i64` cannot hold wraps around.
pub fn unix_seconds(distance: Result<u64, u64>) -> (secs: i64)
    ensures
        distance matches Ok(d) ==> secs == d as i64,
        distance matches Err(d) ==> secs == 0i64.wrapping_sub(d as i64),
        distance matches Err(d) ==> d <= i64::MAX ==> secs == -(d as int),
{
    match distance {
        Ok(d) => d as i64,
        Err(d) => 0i64.wrapping_sub(d as i64),
    }
}

/// The current time stamp: that of some instant, whatever the clock reads.
#[must_use]
pub fn rfc3339_now() -> (s: String)
    ensures
        exists|secs: i64| s@ == #[trigger] rfc3339(secs as int),
{
    let now = wall_clock();
    let secs: i64 = unix_seconds(since_epoch(&now));
    format_rfc3339(secs)
}

/// A time stamp reads back as its instant: for a date of the years that take four digits and a
/// second of its day, the digits of the stamp are the year, the month, the day, the hours, the
/// minutes and the seconds, each at its place, with the marks between them.
pub proof fn a_stamp_reads_back(y: int, m: int, d: int, s: int)
    requires
        is_date(y, m, d),
        0 <= y <= 9999,
        0 <= s < 86_400,
    ensures
        ({
            let t = rfc3339(86_400 * days_from_civil(y, m, d) + s);
            &&& t.len() == 20
            &&& text::value_in(10, t.subrange(0, 4)) == y
            &&& text::value_in(10, t.subrange(5, 7)) == m
            &&& text::value_in(10, t.subrange(8, 10)) == d
            &&& 3600 * text::value_in(10, t.subrange(11, 13)) + 60 * text::value_in(
                10,
                t.subrange(14, 16),
            ) + text::value_in(10, t.subrange(17, 19)) == s
            &&& text::value_in(10, t.subrange(14, 16)) < 60
            &&& text::value_in(10, t.subrange(17, 19)) < 60
            &&& t[4] == '-' && t[7] == '-' && t[10] == 'T' && t[13] == ':' && t[16] == ':' && t[19]
                == 'Z'
        }),
{
    let days = days_from_civil(y, m, d);
    let secs = 86_400 * days + s;
    div_mod::lemma_fundamental_div_mod_converse(secs, 86_400, days, s);
    let date = civil(days);
    assert(is_date(date.0, date.1, date.2) && days_from_civil(date.0, date.1, date.2) == days) by {
        let t = (y, m, d);
        assert(is_date(t.0, t.1, t.2) && days_from_civil(t.0, t.1, t.2) == days);
    }
    dates_are_distinct(y, m, d, date.0, date.1, date.2);
    let t = stamp((y, m, d), s);
    assert(rfc3339(secs) == t);
    let a = text::zero_padded(y as nat, 4);
    let b = text::zero_padded(m as nat, 2);
    let c = text::zero_padded(d as nat, 2);
    let h = text::zero_padded((s / 3600) as nat, 2);
    let n = text::zero_padded((s % 3600 / 60) as nat, 2);
    let x = text::zero_padded((s % 60) as nat, 2);
    text::padding_keeps_the_number(y as nat, 4);
    text::padding_keeps_the_number(m as nat, 2);
    text::padding_keeps_the_number(d as nat, 2);
    text::padding_keeps_the_number((s / 3600) as nat, 2);
    text::padding_keeps_the_number((s % 3600 / 60) as nat, 2);
    text::padding_keeps_the_number((s % 60) as nat, 2);
    four_digits_do(y as nat);
    two_digits_do(m as nat);
    two_digits_do(d as nat);
    two_digits_do((s / 3600) as nat);
    two_digits_do((s % 3600 / 60) as nat);
    two_digits_do((s % 60) as nat);
    assert(t =~= a.push('-') + b.push('-') + c.push('T') + h.push(':') + n.push(':') + x.push('Z'));
    assert(t.subrange(0, 4) =~= a);
    assert(t.subrange(5, 7) =~= b);
    assert(t.subrange(8, 10) =~= c);
    assert(t.subrange(11, 13) =~= h);
    assert(t.subrange(14, 16) =~= n);
    assert(t.subrange(17, 19) =~= x);
}

proof fn two_digits_do(n: nat)
    requires
        n < 100,
    ensures
        text::zero_padded(n, 2).len() == 2,
{
    reveal_with_fuel(text::decimal, 3);
}

proof fn four_digits_do(n: nat)
    requires
        n < 10_000,
    ensures
        text::zero_padded(n, 4).len() == 4,
{
    reveal_with_fuel(text::decimal, 5);
}

/// Dates follow one another day by day: the next day of a month, the first of the next month after
/// its last day, and the first of January after the last of December, are each one day later.
pub proof fn dates_follow_one_another(y: int, m: int, d: int)
    requires
        is_date(y, m, d),
    ensures
        days_from_civil(1970, 1, 1) == 0,
        days_from_civil(y, m, d + 1) == days_from_civil(y, m, d) + 1,
        m < 12 ==> days_from_civil(y, m + 1, 1) == days_from_civil(y, m, days_in_month(y, m)) + 1,
        days_from_civil(y + 1, 1, 1) == days_from_civil(y, 12, 31) + 1,
        days_in_month(y, 2) == (if y % 400 == 0 || (y % 4 == 0 && y % 100 != 0) {
            29int
        } else {
            28int
        }),
        days_in_month(y, m) == (if m == 2 {
            days_in_month(y, 2)
        } else if m == 4 || m == 6 || m == 9 || m == 11 {
            30
        } else {
            31
        }),
{
    month_bounds(y, m);
    year_lengths(y);
    months_cover_the_year(y);
    reveal_with_fuel(month_start, 2);
}

} // verus!
