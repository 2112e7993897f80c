use vstd::arithmetic::div_mod::{lemma_fundamental_div_mod, lemma_fundamental_div_mod_converse};
use vstd::prelude::*;

use crate::text::{decimal, push_decimal, push_two_digits, string_from_chars, two_digits};

verus! {

/// Seconds in a calendar day.
pub const SECONDS_PER_DAY: i64 = 86400;

/// Days in a 400-year Gregorian cycle.
pub const DAYS_PER_ERA: u64 = 146097;

/// Whole eras added to a day number so that it is non-negative before
/// unsigned division.
const ERAS_SHIFTED: i128 = 63_200_000_000_000;

/// Whole days added to an epoch-seconds value before unsigned division.
const DAYS_SHIFTED: i128 = 106_752_000_000_000;

/// Proleptic Gregorian leap-year rule.
pub open spec fn is_leap(y: int) -> bool {
    (y % 4 == 0 && y % 100 != 0) || y % 400 == 0
}

pub open spec fn days_in_year(y: int) -> int {
    if is_leap(y) { 366 } else { 365 }
}

pub open spec fn days_in_month(y: int, m: int) -> int {
    if m == 2 {
        if is_leap(y) { 29 } else { 28 }
    } else if m == 4 || m == 6 || m == 9 || m == 11 {
        30
    } else {
        31
    }
}

pub open spec fn valid_date(y: int, m: int, d: int) -> bool {
    1 <= m <= 12 && 1 <= d <= days_in_month(y, m)
}

/// Leap years among the years `1 ..= y - 1` (counted downwards for `y < 1`).
pub open spec fn leaps_before(y: int) -> int {
    (y - 1) / 4 - (y - 1) / 100 + (y - 1) / 400
}

/// Days from 1970-01-01 to January 1st of year `y`.
pub open spec fn days_before_year(y: int) -> int {
    365 * (y - 1970) + leaps_before(y) - leaps_before(1970)
}

/// Days from January 1st to the first day of month `m` of year `y`.
pub open spec fn days_before_month(y: int, m: int) -> int
    decreases m,
{
    if m <= 1 {
        0
    } else {
        days_before_month(y, m - 1) + days_in_month(y, m - 1)
    }
}

/// Day number of a calendar date, counted from 1970-01-01 as day 0.
pub open spec fn days_from_civil(y: int, m: int, d: int) -> int {
    days_before_year(y) + days_before_month(y, m) + d - 1
}

/// `YYYY-MM-DD`, with the year in plain decimal (a leading `-` before 1 BC
/// in astronomical numbering) and month and day on two digits.
pub open spec fn date_text(y: int, m: int, d: int) -> Seq<char> {
    let year = if y < 0 { seq!['-'] + decimal((-y) as nat) } else { decimal(y as nat) };
    year + seq!['-'] + two_digits(m as nat) + seq!['-'] + two_digits(d as nat)
}

/// `s` is the text of the calendar date on which epoch second `ts` falls.
pub open spec fn is_date_text_of(s: Seq<char>, ts: int) -> bool {
    exists|y: int, m: int, d: int|
        valid_date(y, m, d) && days_from_civil(y, m, d) == ts / 86400 && s == #[trigger] date_text(y, m, d)
}

proof fn lemma_div_shift(x: int, k: int, d: int)
    requires
        d > 0,
    ensures
        (x + k * d) / d == x / d + k,
        (x + k * d) % d == x % d,
{
    lemma_fundamental_div_mod(x, d);
    assert(x + k * d == (x / d + k) * d + x % d) by (nonlinear_arith)
        requires
            x == d * (x / d) + x % d,
    ;
    lemma_fundamental_div_mod_converse(x + k * d, d, x / d + k, x % d);
}

proof fn lemma_div_step(x: int, d: int)
    requires
        d > 0,
    ensures
        x / d - (x - 1) / d == (if x % d == 0 { 1int } else { 0int }),
{
    let q = (x - 1) / d;
    let r = (x - 1) % d;
    lemma_fundamental_div_mod(x - 1, d);
    if r + 1 < d {
        assert(x == q * d + (r + 1)) by (nonlinear_arith)
            requires
                x - 1 == d * q + r,
        ;
        lemma_fundamental_div_mod_converse(x, d, q, r + 1);
    } else {
        assert(x == (q + 1) * d + 0) by (nonlinear_arith)
            requires
                x - 1 == d * q + r,
                r + 1 == d,
        ;
        lemma_fundamental_div_mod_converse(x, d, q + 1, 0);
    }
}

proof fn lemma_divides_coarser(y: int, a: int, b: int)
    requires
        a > 0,
        b > 0,
        y % (a * b) == 0,
    ensures
        y % a == 0,
{
    assert(a * b > 0) by (nonlinear_arith)
        requires
            a > 0,
            b > 0,
    ;
    lemma_fundamental_div_mod(y, a * b);
    let q = y / (a * b);
    assert(y == (q * b) * a + 0) by (nonlinear_arith)
        requires
            y == (a * b) * q + y % (a * b),
            y % (a * b) == 0,
    ;
    lemma_fundamental_div_mod_converse(y, a, q * b, 0);
}

/// Consecutive new years lie a year's length apart.
pub proof fn lemma_year_step(y: int)
    ensures
        days_before_year(y + 1) == days_before_year(y) + days_in_year(y),
{
    lemma_div_step(y, 4);
    lemma_div_step(y, 100);
    lemma_div_step(y, 400);
    if y % 400 == 0 {
        lemma_divides_coarser(y, 100, 4);
        lemma_divides_coarser(y, 4, 100);
    } else if y % 100 == 0 {
        lemma_divides_coarser(y, 4, 25);
    }
}

/// Every 400-year cycle has the same length, and the leap rule repeats.
pub proof fn lemma_era(y: int, k: int)
    ensures
        days_before_year(y + 400 * k) == days_before_year(y) + 146097 * k,
        is_leap(y + 400 * k) == is_leap(y),
{
    lemma_div_shift(y - 1, 100 * k, 4);
    lemma_div_shift(y - 1, 4 * k, 100);
    lemma_div_shift(y - 1, k, 400);
    lemma_div_shift(y, 100 * k, 4);
    lemma_div_shift(y, 4 * k, 100);
    lemma_div_shift(y, k, 400);
}

proof fn lemma_months_fill_year(y: int)
    ensures
        days_before_month(y, 13) == days_in_year(y),
{
    reveal_with_fuel(days_before_month, 13);
}

proof fn lemma_years_ordered(a: int, b: int)
    requires
        a <= b,
    ensures
        days_before_year(a) <= days_before_year(b),
    decreases b - a,
{
    if a < b {
        lemma_year_step(b - 1);
        lemma_years_ordered(a, b - 1);
    }
}

proof fn lemma_months_ordered(y: int, a: int, b: int)
    requires
        1 <= a <= b,
    ensures
        days_before_month(y, a) <= days_before_month(y, b),
    decreases b - a,
{
    if a < b {
        lemma_months_ordered(y, a, b - 1);
    }
}

/// A valid date lies within its own year.
proof fn lemma_within_year(y: int, m: int, d: int)
    requires
        valid_date(y, m, d),
    ensures
        days_before_year(y) <= days_from_civil(y, m, d) < days_before_year(y + 1),
{
    lemma_months_ordered(y, 1, m);
    lemma_months_ordered(y, m + 1, 13);
    lemma_months_fill_year(y);
    lemma_year_step(y);
}

/// Day numbers name dates one to one: two valid dates with the same day
/// number are the same date.
pub proof fn lemma_civil_unique(y1: int, m1: int, d1: int, y2: int, m2: int, d2: int)
    requires
        valid_date(y1, m1, d1),
        valid_date(y2, m2, d2),
        days_from_civil(y1, m1, d1) == days_from_civil(y2, m2, d2),
    ensures
        y1 == y2,
        m1 == m2,
        d1 == d2,
{
    lemma_within_year(y1, m1, d1);
    lemma_within_year(y2, m2, d2);
    if y1 < y2 {
        lemma_years_ordered(y1 + 1, y2);
    } else if y2 < y1 {
        lemma_years_ordered(y2 + 1, y1);
    }
    if m1 < m2 {
        lemma_months_ordered(y1, m1 + 1, m2);
    } else if m2 < m1 {
        lemma_months_ordered(y1, m2 + 1, m1);
    }
}

/// An epoch second has one date text.
pub proof fn lemma_date_text_unique(s1: Seq<char>, s2: Seq<char>, ts: int)
    requires
        is_date_text_of(s1, ts),
        is_date_text_of(s2, ts),
    ensures
        s1 == s2,
{
    let (y1, m1, d1) = choose|y: int, m: int, d: int|
        valid_date(y, m, d) && days_from_civil(y, m, d) == ts / 86400 && s1 == #[trigger] date_text(y, m, d);
    let (y2, m2, d2) = choose|y: int, m: int, d: int|
        valid_date(y, m, d) && days_from_civil(y, m, d) == ts / 86400 && s2 == #[trigger] date_text(y, m, d);
    lemma_civil_unique(y1, m1, d1, y2, m2, d2);
}

fn is_leap_year(y: u64) -> (r: bool)
    ensures
        r == is_leap(y as int),
{
    (y % 4 == 0 && y % 100 != 0) || y % 400 == 0
}

fn year_length(y: u64) -> (r: u64)
    ensures
        r == days_in_year(y as int),
{
    if is_leap_year(y) { 366 } else { 365 }
}

fn month_length(y: u64, m: u8) -> (r: u64)
    ensures
        r == days_in_month(y as int, m as int),
{
    if m == 2 {
        if is_leap_year(y) { 29 } else { 28 }
    } else if m == 4 || m == 6 || m == 9 || m == 11 {
        30
    } else {
        31
    }
}

/// Splits the day offset `doe` within the cycle that starts on 1970-01-01
/// into whole years and the day of the year that remains.
fn split_era(doe: u64) -> (r: (u64, u64))
    requires
        doe < DAYS_PER_ERA,
    ensures
        r.0 < 400,
        days_before_year(1970 + r.0) + r.1 == doe as int,
        r.1 < days_in_year(1970 + r.0),
{
    proof {
        lemma_era(1970, 1);
    }
    let mut k: u64 = 0;
    let mut rem: u64 = doe;
    while rem >= year_length(1970 + k)
        invariant
            k <= 400,
            days_before_year(1970 + k) + rem == doe as int,
            days_before_year(2370) == 146097,
            doe < 146097,
        decreases rem,
    {
        proof {
            lemma_year_step(1970 + k);
        }
        if k == 400 {
            assert(false);
        }
        rem = rem - year_length(1970 + k);
        k = k + 1;
    }
    (k, rem)
}

/// Splits day `rem` of year `y` (0 is January 1st) into month and day.
fn split_year(y: u64, rem: u64) -> (r: (u8, u8))
    requires
        rem < days_in_year(y as int),
    ensures
        valid_date(y as int, r.0 as int, r.1 as int),
        days_before_month(y as int, r.0 as int) + r.1 - 1 == rem as int,
{
    proof {
        lemma_months_fill_year(y as int);
    }
    let mut m: u8 = 1;
    let mut left: u64 = rem;
    while left >= month_length(y, m)
        invariant
            1 <= m <= 12,
            days_before_month(y as int, m as int) + left == rem as int,
            rem < days_in_year(y as int),
            days_before_month(y as int, 13) == days_in_year(y as int),
        decreases left,
    {
        if m == 12 {
            assert(false);
        }
        left = left - month_length(y, m);
        m = m + 1;
    }
    (m, (left + 1) as u8)
}

proof fn lemma_era_of_day(days: int, shifted: int, era: int, doe: int)
    requires
        shifted == days + 63_200_000_000_000 * 146097,
        shifted == 146097 * era + doe,
        0 <= doe < 146097,
        days <= 9223372036854775807,
    ensures
        days_before_year(1970 + 400 * (era - 63_200_000_000_000)) + doe == days,
        era <= 126_400_000_000_000,
{
    lemma_era(1970, era - 63_200_000_000_000);
    assert(146097 * (era - 63_200_000_000_000) == days - doe) by (nonlinear_arith)
        requires
            shifted == days + 63_200_000_000_000 * 146097,
            shifted == 146097 * era + doe,
    ;
    assert(era <= 126_400_000_000_000) by (nonlinear_arith)
        requires
            shifted == 146097 * era + doe,
            0 <= doe,
            shifted <= 9223372036854775807 + 63_200_000_000_000 * 146097,
    ;
}

/// The calendar date of day number `days` (1970-01-01 is day 0), in the
/// proleptic Gregorian calendar.
pub fn civil_from_days(days: i64) -> (r: (i64, u8, u8))
    ensures
        valid_date(r.0 as int, r.1 as int, r.2 as int),
        days_from_civil(r.0 as int, r.1 as int, r.2 as int) == days as int,
{
    let shifted: u128 = (days as i128 + ERAS_SHIFTED * (DAYS_PER_ERA as i128)) as u128;
    let era: u128 = shifted / (DAYS_PER_ERA as u128);
    let doe: u64 = (shifted % (DAYS_PER_ERA as u128)) as u64;
    proof {
        lemma_fundamental_div_mod(shifted as int, DAYS_PER_ERA as int);
        lemma_era_of_day(days as int, shifted as int, era as int, doe as int);
    }
    let ghost cycles: int = era as int - ERAS_SHIFTED as int;
    let (k, rem) = split_era(doe);
    let (m, d) = split_year(1970 + k, rem);
    proof {
        lemma_era(1970 + k, cycles);
        lemma_era(1970, cycles);
        reveal_with_fuel(days_before_month, 13);
    }
    let year: i64 = (1970i128 + 400 * (era as i128 - ERAS_SHIFTED) + k as i128) as i64;
    assert(year as int == 1970 + k + 400 * cycles);
    (year, m, d)
}

/// The day number (1970-01-01 is day 0) on which epoch second `ts` falls.
pub fn epoch_day(ts: i64) -> (r: i64)
    ensures
        r as int == ts as int / 86400,
{
    let shifted: u128 = (ts as i128 + DAYS_SHIFTED * (SECONDS_PER_DAY as i128)) as u128;
    proof {
        lemma_div_shift(ts as int, DAYS_SHIFTED as int, 86400);
    }
    ((shifted / (SECONDS_PER_DAY as u128)) as i128 - DAYS_SHIFTED) as i64
}

/// The `YYYY-MM-DD` text of the calendar date on which epoch second `ts`
/// falls.
pub fn format_epoch_date(ts: i64) -> (r: String)
    ensures
        is_date_text_of(r@, ts as int),
{
    let (y, m, d) = civil_from_days(epoch_day(ts));
    let mut out: Vec<char> = Vec::new();
    if y < 0 {
        out.push('-');
        push_decimal(&mut out, (-(y as i128)) as u64);
    } else {
        push_decimal(&mut out, y as u64);
    }
    out.push('-');
    push_two_digits(&mut out, m as u64);
    out.push('-');
    push_two_digits(&mut out, d as u64);
    let r = string_from_chars(&out);
    assert(r@ == date_text(y as int, m as int, d as int));
    r
}

} // verus!
