//! Dates of the Gregorian calendar, intervals, and their literals.
//!
//! A date is a day number: the days since 2000-01-01.
use crate::binder::typing;
use crate::datatype::{DataType, DataTypeView};
use crate::error::{PlanError, PlanErrorView};
use crate::query::{ScalarExpr, ScalarExprView};
use crate::text::{chars_of, owned, read_i32, read_i64, read_u32, text_eq, text_of, to_lower, trimmed};
use crate::value::{Value, ValueView};
use crate::{error, text};
use vstd::prelude::*;

verus! {

/// The microseconds of a day.
pub const MICROS_PER_DAY: i64 = 86_400_000_000;

/// Whether a year has a 29th of February.
pub open spec fn leap(y: int) -> bool {
    y % 4 == 0 && (y % 100 != 0 || y % 400 == 0)
}

/// The number of days of a month.
pub open spec fn month_days(y: int, m: int) -> int {
    if m == 4 || m == 6 || m == 9 || m == 11 {
        30
    } else if m == 2 {
        if leap(y) {
            29
        } else {
            28
        }
    } else {
        31
    }
}

/// The number of leap years from year 1 up to, and without, year `y`.
pub open spec fn leap_years_before(y: int) -> int {
    (y - 1) / 4 - (y - 1) / 100 + (y - 1) / 400
}

/// The day number of the 1st of January.
pub open spec fn year_start(y: int) -> int {
    365 * (y - 2000) + leap_years_before(y) - leap_years_before(2000)
}

/// The number of days of a year before its month `m`.
pub open spec fn days_before_month(y: int, m: int) -> int
    decreases m,
{
    if m <= 1 {
        0
    } else {
        days_before_month(y, m - 1) + month_days(y, m - 1)
    }
}

/// The day number of a date.
pub open spec fn day_number(y: int, m: int, d: int) -> int {
    year_start(y) + days_before_month(y, m) + d - 1
}

/// Whether a month and a day of it exist.
pub open spec fn valid_date(y: int, m: int, d: int) -> bool {
    1 <= m <= 12 && 1 <= d <= month_days(y, m)
}

/// A day number by years that begin in March. It also gives a meaning to months
/// and days beyond the ends of a year.
pub open spec fn march_day_number(y: int, m: int, d: int) -> int {
    let year = if m <= 2 {
        y - 1
    } else {
        y
    };
    let month = if m <= 2 {
        m + 9
    } else {
        m - 3
    };
    365 * year + year / 4 - year / 100 + year / 400 + (153 * month + 2) / 5 + d - 1 - 730_425
}

/// The days of a year before each of its months.
proof fn days_before_months(y: int, m: int)
    requires
        1 <= m <= 12,
    ensures
        ({
            let extra = if leap(y) {
                1int
            } else {
                0int
            };
            let month = if m <= 2 {
                m + 9
            } else {
                m - 3
            };
            days_before_month(y, m) == (153 * month + 2) / 5 + if m <= 2 {
                -306
            } else {
                59 + extra
            }
        }),
{
    reveal_with_fuel(days_before_month, 13);
}

/// Division by `k` steps up at the multiples of `k`.
proof fn quotient_steps(y: int, k: int)
    requires
        k == 4 || k == 100 || k == 400,
    ensures
        y / k - (y - 1) / k == if y % k == 0 {
            1int
        } else {
            0int
        },
{
    let q = (y - 1) / k;
    let r = (y - 1) % k;
    assert(y - 1 == k * q + r && 0 <= r < k) by (nonlinear_arith)
        requires
            k > 0,
            q == (y - 1) / k,
            r == (y - 1) % k,
    ;
    if r == k - 1 {
        assert(y / k == q + 1 && y % k == 0) by (nonlinear_arith)
            requires
                k > 0,
                y == k * (q + 1),
        ;
    } else {
        assert(y / k == q && y % k == r + 1) by (nonlinear_arith)
            requires
                k > 0,
                y == k * q + (r + 1),
                0 < r + 1 < k,
        ;
    }
}

/// A year adds one to the leap years before the next exactly when it is one.
proof fn leap_years_count(y: int)
    ensures
        y / 4 - y / 100 + y / 400 == leap_years_before(y) + if leap(y) {
            1int
        } else {
            0int
        },
{
    quotient_steps(y, 4);
    quotient_steps(y, 100);
    quotient_steps(y, 400);
    assert(y % 400 == 0 ==> y % 100 == 0) by (nonlinear_arith);
    assert(y % 100 == 0 ==> y % 4 == 0) by (nonlinear_arith);
}

/// Counting by years that begin in March gives the day number of the calendar.
pub proof fn march_years_agree(y: int, m: int, d: int)
    requires
        1 <= m <= 12,
    ensures
        march_day_number(y, m, d) == day_number(y, m, d),
{
    days_before_months(y, m);
    leap_years_count(y);
    assert(leap_years_before(2000) == 484);
}

/// Tells whether a year has a 29th of February.
pub fn is_leap_year(year: i32) -> (yes: bool)
    ensures
        yes == leap(year as int),
{
    (year % 4 == 0 && year % 100 != 0) || year % 400 == 0
}

/// The number of days of a month.
pub fn days_in_month(year: i32, month: u32) -> (days: u32)
    ensures
        days == month_days(year as int, month as int),
{
    match month {
        4 | 6 | 9 | 11 => 30,
        2 => if is_leap_year(year) {
            29
        } else {
            28
        },
        _ => 31,
    }
}

/// Whether the day of the year that months and days amount to can be computed.
pub open spec fn countable(m: int, d: int) -> bool {
    let month = if m <= 2 {
        m + 9
    } else {
        m - 3
    };
    153 * month + 2 <= i32::MAX && (153 * month + 2) / 5 + d + 146_000 <= i32::MAX
}

/// The day number of a date, where it is in range.
pub open spec fn counted_days(y: int, m: int, d: int) -> Option<int> {
    if m <= 2 && y == i32::MIN || m > i32::MAX || d > i32::MAX {
        None
    } else {
        text::within(Some(march_day_number(y, m, d)), i32::MIN as int, i32::MAX as int)
    }
}

proof fn div_within_era(era: int, of_era: int)
    requires
        0 <= of_era < 400,
    ensures
        (400 * era + of_era) / 4 == 100 * era + of_era / 4,
        (400 * era + of_era) / 100 == 4 * era + of_era / 100,
        (400 * era + of_era) / 400 == era,
{
}

/// Four hundred years are 146097 days.
proof fn era_days(y: int)
    ensures
        ({
            let era = y / 400;
            let of_era = y - era * 400;
            &&& 0 <= of_era < 400
            &&& era * 146_097 + of_era * 365 + of_era / 4 - of_era / 100 == 365 * y + y / 4 - y
                / 100 + y / 400
        }),
{
    let era = y / 400;
    let of_era = y - era * 400;
    assert(0 <= of_era < 400);
    div_within_era(era, of_era);
    assert(400 * era + of_era == y);
}

fn floor_div_400(y: i64) -> (q: i64)
    requires
        -2_400_000_000 <= y <= 2_400_000_000,
    ensures
        q == (y as int) / 400,
        -6_000_000 <= q <= 6_000_000,
{
    (y + 2_400_000_000) / 400 - 6_000_000
}

/// Counts the days from 2000-01-01 to a date.
pub fn days_since_epoch(year: i32, month: u32, day: u32) -> (days: Option<i32>)
    requires
        countable(month as int, day as int) || month > i32::MAX || day > i32::MAX,
    ensures
        (match days {
            Some(n) => Some(n as int),
            None => None,
        }) == counted_days(year as int, month as int, day as int),
{
    if month <= 2 && year == i32::MIN {
        return None;
    }
    if month > i32::MAX as u32 || day > i32::MAX as u32 {
        return None;
    }
    let y: i64 = if month <= 2 {
        year as i64 - 1
    } else {
        year as i64
    };
    let shifted: i64 = if month <= 2 {
        month as i64 + 9
    } else {
        month as i64 - 3
    };
    let era: i64 = floor_div_400(y);
    let of_era: i64 = y - era * 400;
    let of_year: i64 = (153 * shifted + 2) / 5 + day as i64 - 1;
    let day_of_era: i64 = of_era * 365 + of_era / 4 - of_era / 100 + of_year;
    let days: i64 = era * 146_097 + day_of_era - 719_468 - 10_957;
    proof {
        era_days(y as int);
    }
    if days < i32::MIN as i64 || days > i32::MAX as i64 {
        None
    } else {
        Some(days as i32)
    }
}

/// The year of the era that a day of it lies in. Years begin in March, so a
/// leap day is the last day of its year.
proof fn year_of_era(doe: int)
    requires
        0 <= doe < 146_097,
    ensures
        ({
            let yoe = (doe - doe / 1460 + doe / 36_524 - doe / 146_096) / 365;
            let doy = doe - (365 * yoe + yoe / 4 - yoe / 100);
            &&& 0 <= yoe < 400
            &&& 0 <= doy <= 365
            &&& doy == 365 ==> leap(yoe + 1)
        }),
{
    let a = doe / 1460;
    let b = doe / 36_524;
    let c = doe / 146_096;
    let yoe = (doe - a + b - c) / 365;
    let q = yoe / 4;
    let h = yoe / 100;
    let doy = doe - (365 * yoe + q - h);
    assert(0 <= b <= 4);
    assert(0 <= c <= 1);
    if c == 1 {
        assert(doe == 146_096);
        assert(yoe == 399);
    } else if b == 0 {
        assert(0 <= doy <= 365 && 0 <= yoe < 400);
    } else if b == 1 {
        assert(0 <= doy <= 365 && 0 <= yoe < 400);
    } else if b == 2 {
        assert(0 <= doy <= 365 && 0 <= yoe < 400);
    } else {
        assert(0 <= doy <= 365 && 0 <= yoe < 400);
    }
}

/// Whether a day number is that of a date.
pub open spec fn dated(n: int, y: int, m: int, d: int) -> bool {
    valid_date(y, m, d) && day_number(y, m, d) == n
}

/// The date with a given day number.
pub open spec fn date_of(n: int) -> (int, int, int) {
    choose|t: (int, int, int)| #[trigger] dated(n, t.0, t.1, t.2)
}

proof fn days_before_month_grow(y: int, m: int)
    requires
        1 <= m <= 12,
    ensures
        0 <= days_before_month(y, m) <= 336,
        days_before_month(y, m + 1) == days_before_month(y, m) + month_days(y, m),
        days_before_month(y, 13) == if leap(y) {
            366int
        } else {
            365int
        },
        days_before_month(y, m + 1) <= days_before_month(y, 13),
        year_start(y + 1) == year_start(y) + days_before_month(y, 13),
{
    reveal_with_fuel(days_before_month, 14);
}

/// Later dates have greater day numbers.
pub proof fn day_numbers_follow_dates(y1: int, m1: int, d1: int, y2: int, m2: int, d2: int)
    requires
        valid_date(y1, m1, d1),
        valid_date(y2, m2, d2),
        y1 < y2 || (y1 == y2 && (m1 < m2 || (m1 == m2 && d1 < d2))),
    ensures
        day_number(y1, m1, d1) < day_number(y2, m2, d2),
{
    days_before_month_grow(y1, m1);
    days_before_month_grow(y2, m2);
    if y1 < y2 {
        years_start_in_order(y1 + 1, y2);
    } else if m1 < m2 {
        months_start_in_order(y1, m1 + 1, m2);
    }
}

proof fn years_start_in_order(a: int, b: int)
    requires
        a <= b,
    ensures
        year_start(a) <= year_start(b),
    decreases b - a,
{
    if a < b {
        days_before_month_grow(b - 1, 1);
        years_start_in_order(a, b - 1);
    }
}

proof fn months_start_in_order(y: int, a: int, b: int)
    requires
        1 <= a <= b <= 12,
    ensures
        days_before_month(y, a) <= days_before_month(y, b),
    decreases b - a,
{
    if a < b {
        days_before_month_grow(y, b - 1);
        months_start_in_order(y, a, b - 1);
    }
}

/// No two dates have the same day number.
pub proof fn dates_have_their_own_numbers(y1: int, m1: int, d1: int, y2: int, m2: int, d2: int)
    requires
        valid_date(y1, m1, d1),
        valid_date(y2, m2, d2),
        day_number(y1, m1, d1) == day_number(y2, m2, d2),
    ensures
        y1 == y2 && m1 == m2 && d1 == d2,
{
    if y1 < y2 || (y1 == y2 && (m1 < m2 || (m1 == m2 && d1 < d2))) {
        day_numbers_follow_dates(y1, m1, d1, y2, m2, d2);
    } else if y1 != y2 || m1 != m2 || d1 != d2 {
        day_numbers_follow_dates(y2, m2, d2, y1, m1, d1);
    }
}

/// A date is the date of its day number.
pub proof fn date_of_day_number(y: int, m: int, d: int)
    requires
        valid_date(y, m, d),
    ensures
        date_of(day_number(y, m, d)) == (y, m, d),
{
    let n = day_number(y, m, d);
    let t = (y, m, d);
    assert(dated(n, t.0, t.1, t.2));
    let got = date_of(n);
    assert(dated(n, got.0, got.1, got.2));
    dates_have_their_own_numbers(got.0, got.1, got.2, y, m, d);
}

/// The day after the last of a month is the first of the next, and the day
/// after the last of a year the first of January.
pub proof fn months_and_years_adjoin(y: int, m: int)
    requires
        1 <= m <= 12,
    ensures
        m < 12 ==> day_number(y, m + 1, 1) == day_number(y, m, month_days(y, m)) + 1,
        m == 12 ==> day_number(y + 1, 1, 1) == day_number(y, m, month_days(y, m)) + 1,
{
    days_before_month_grow(y, m);
}

/// The epoch is day zero.
pub proof fn epoch_is_day_zero()
    ensures
        day_number(2000, 1, 1) == 0,
{
}

/// The month and the day that a day of a year that begins in March lies in.
proof fn month_of_year(doy: int, y: int)
    requires
        0 <= doy <= 365,
        doy == 365 ==> leap(y + 1),
    ensures
        ({
            let mp = (5 * doy + 2) / 153;
            let d = doy - (153 * mp + 2) / 5 + 1;
            let m = if mp < 10 {
                mp + 3
            } else {
                mp - 9
            };
            let year = if m <= 2 {
                y + 1
            } else {
                y
            };
            &&& 0 <= mp <= 11
            &&& valid_date(year, m, d)
            &&& march_day_number(year, m, d) == 365 * y + y / 4 - y / 100 + y / 400 + doy - 730_425
        }),
{
    let mp = (5 * doy + 2) / 153;
    assert(0 <= mp <= 12);
    assert(mp == 12 ==> doy >= 366);
    if mp == 0 {
    } else if mp == 1 {
    } else if mp == 2 {
    } else if mp == 3 {
    } else if mp == 4 {
    } else if mp == 5 {
    } else if mp == 6 {
    } else if mp == 7 {
    } else if mp == 8 {
    } else if mp == 9 {
    } else if mp == 10 {
    } else {
        assert(mp == 11);
    }
}

proof fn leap_years_of_eras(era: int, yoe: int)
    requires
        0 <= yoe < 400,
    ensures
        leap(yoe + 1) == leap(era * 400 + yoe + 1),
        (era * 400 + yoe) / 400 == era,
{
}

/// The last day number whose date is computed.
pub const LAST_CIVIL_DAY: i32 = 2_146_753_222;

/// The date of a day number.
pub fn civil_from_days(days: i32) -> (made: Result<(i32, u32, u32), PlanError>)
    requires
        days <= LAST_CIVIL_DAY,
    ensures
        made matches Ok(t) && dated(days as int, t.0 as int, t.1 as int, t.2 as int),
{
    let z: i64 = days as i64 + 730_425;
    let era: i64 = (z + 146_097 * 20_000) / 146_097 - 20_000;
    let doe: i64 = z - era * 146_097;
    let yoe: i64 = (doe - doe / 1460 + doe / 36_524 - doe / 146_096) / 365;
    proof {
        year_of_era(doe as int);
    }
    let doy: i64 = doe - (365 * yoe + yoe / 4 - yoe / 100);
    let y: i64 = yoe + era * 400;
    proof {
        leap_years_of_eras(era as int, yoe as int);
        era_days(y as int);
        month_of_year(doy as int, y as int);
    }
    let mp: i64 = (5 * doy + 2) / 153;
    let day: i64 = doy - (153 * mp + 2) / 5 + 1;
    let month: i64 = if mp < 10 {
        mp + 3
    } else {
        mp - 9
    };
    let year: i64 = if month <= 2 {
        y + 1
    } else {
        y
    };
    proof {
        march_years_agree(year as int, month as int, day as int);
    }
    Ok((year as i32, month as u32, day as u32))
}

/// A complaint about date arithmetic.
pub open spec fn date_overflow(what: Seq<char>) -> PlanErrorView {
    PlanErrorView::TypeMismatch(what)
}

/// The day number of the date that lies a number of months later. The day is
/// the last of the month where that month is too short.
pub open spec fn months_later(n: int, months: int) -> Result<int, PlanErrorView> {
    let (y, m, d) = date_of(n);
    let total = 12 * y + m - 1 + months;
    let year = total / 12;
    let month = total % 12 + 1;
    let day = text::min_int(d, month_days(year, month));
    if n > LAST_CIVIL_DAY {
        Err(date_overflow("date interval day overflow"@))
    } else if total < i32::MIN || total > i32::MAX {
        Err(date_overflow("date interval month overflow"@))
    } else {
        match text::within(
            Some(day_number(year, month, day)),
            i32::MIN as int,
            i32::MAX as int,
        ) {
            Some(out) => Ok(out),
            None => Err(date_overflow("date interval day overflow"@)),
        }
    }
}

/// A day number with its outcome as models.
pub open spec fn day_outcome(r: Result<i32, PlanError>) -> Result<int, PlanErrorView> {
    match r {
        Ok(n) => Ok(n as int),
        Err(e) => Err(e@),
    }
}

/// Moves a date by a number of months.
pub fn add_months_to_date(date_days: i32, month_delta: i32) -> (made: Result<i32, PlanError>)
    ensures
        day_outcome(made) == months_later(date_days as int, month_delta as int),
{
    if date_days > LAST_CIVIL_DAY {
        return Err(PlanError::TypeMismatch(owned("date interval day overflow")));
    }
    let (year, month, day) = civil_from_days(date_days)?;
    proof {
        date_of_day_number(year as int, month as int, day as int);
        date_year_range(date_days as int, year as int, month as int, day as int);
    }
    let total: i64 = year as i64 * 12 + month as i64 - 1 + month_delta as i64;
    if total < i32::MIN as i64 || total > i32::MAX as i64 {
        return Err(PlanError::TypeMismatch(owned("date interval month overflow")));
    }
    let new_year: i64 = (total + 12 * 200_000_000) / 12 - 200_000_000;
    let new_month: u32 = (total - new_year * 12 + 1) as u32;
    let last: u32 = days_in_month(new_year as i32, new_month);
    let new_day: u32 = if day <= last {
        day
    } else {
        last
    };
    proof {
        march_years_agree(new_year as int, new_month as int, new_day as int);
    }
    match days_since_epoch(new_year as i32, new_month, new_day) {
        Some(n) => Ok(n),
        None => Err(PlanError::TypeMismatch(owned("date interval day overflow"))),
    }
}

proof fn date_year_range(n: int, y: int, m: int, d: int)
    requires
        dated(n, y, m, d),
        i32::MIN <= n <= i32::MAX,
    ensures
        -6_000_000 < y < 6_000_000,
{
    days_before_month_grow(y, m);
}

/// A date moved by an interval: a date, or a point in time where the interval
/// has a part shorter than a day.
pub open spec fn moved_date(n: int, months: int, days: int, micros: int) -> Result<
    ScalarExprView,
    PlanErrorView,
> {
    match months_later(n, months) {
        Err(e) => Err(e),
        Ok(shifted) => if shifted + days < i32::MIN || shifted + days > i32::MAX {
            Err(date_overflow("date interval day overflow"@))
        } else if micros == 0 {
            Ok(
                typing::constant(ValueView::Date((shifted + days) as i32), DataTypeView::Date),
            )
        } else {
            match text::within(
                Some((shifted + days) * MICROS_PER_DAY + micros),
                i64::MIN as int,
                i64::MAX as int,
            ) {
                Some(t) => Ok(
                    typing::constant(ValueView::Timestamp(t as i64), DataTypeView::Timestamp),
                ),
                None => Err(date_overflow("date interval timestamp overflow"@)),
            }
        },
    }
}

/// Adds an interval to a date.
pub fn fold_date_interval(
    date_days: i32,
    month_delta: i32,
    day_delta: i32,
    microsecond_delta: i64,
) -> (made: Result<ScalarExpr, PlanError>)
    ensures
        error::scalar_outcome(made) == moved_date(
            date_days as int,
            month_delta as int,
            day_delta as int,
            microsecond_delta as int,
        ),
{
    let shifted = add_months_to_date(date_days, month_delta)?;
    let day: i64 = shifted as i64 + day_delta as i64;
    if day < i32::MIN as i64 || day > i32::MAX as i64 {
        return Err(PlanError::TypeMismatch(owned("date interval day overflow")));
    }
    if microsecond_delta == 0 {
        return Ok(
            ScalarExpr::Literal { value: Value::Date(day as i32), data_type: DataType::Date },
        );
    }
    let at: i128 = day as i128 * MICROS_PER_DAY as i128 + microsecond_delta as i128;
    if at < i64::MIN as i128 || at > i64::MAX as i128 {
        return Err(PlanError::TypeMismatch(owned("date interval timestamp overflow")));
    }
    Ok(
        ScalarExpr::Literal {
            value: Value::Timestamp(at as i64),
            data_type: DataType::Timestamp,
        },
    )
}

/// The months, days and microseconds of an interval of so many units.
pub open spec fn interval_of(magnitude: Seq<char>, unit: Option<Seq<char>>) -> Option<
    (int, int, int),
> {
    let amount = text::int_value(text::trim(magnitude));
    match unit {
        None => None,
        Some(u) => {
            let unit = text::lower(u);
            if unit == "year"@ || unit == "years"@ {
                match text::within(amount, i32::MIN as int, i32::MAX as int) {
                    Some(n) => if i32::MIN <= 12 * n <= i32::MAX {
                        Some((12 * n, 0, 0))
                    } else {
                        None
                    },
                    None => None,
                }
            } else if unit == "month"@ || unit == "months"@ {
                match text::within(amount, i32::MIN as int, i32::MAX as int) {
                    Some(n) => Some((n, 0, 0)),
                    None => None,
                }
            } else if unit == "day"@ || unit == "days"@ {
                match text::within(amount, i32::MIN as int, i32::MAX as int) {
                    Some(n) => Some((0, n, 0)),
                    None => None,
                }
            } else if unit == "hour"@ || unit == "hours"@ {
                micros_of(amount, 3_600_000_000)
            } else if unit == "minute"@ || unit == "minutes"@ {
                micros_of(amount, 60_000_000)
            } else if unit == "second"@ || unit == "seconds"@ {
                micros_of(amount, 1_000_000)
            } else {
                None
            }
        },
    }
}

/// An interval of so many units of the given length.
pub open spec fn micros_of(amount: Option<int>, unit_micros: int) -> Option<(int, int, int)> {
    match text::within(amount, i64::MIN as int, i64::MAX as int) {
        Some(n) => if i64::MIN <= n * unit_micros <= i64::MAX {
            Some((0, 0, n * unit_micros))
        } else {
            None
        },
        None => None,
    }
}

fn scaled_micros(magnitude: &str, unit_micros: i64) -> (out: Option<(i32, i32, i64)>)
    requires
        0 < unit_micros <= 3_600_000_000,
    ensures
        (match out {
            Some(t) => Some((t.0 as int, t.1 as int, t.2 as int)),
            None => None,
        }) == micros_of(text::int_value(magnitude@), unit_micros as int),
{
    match read_i64(magnitude) {
        Some(n) => {
            assert(-0x8000_0000_0000_0000 * 3_600_000_000 <= n * unit_micros
                <= 0x8000_0000_0000_0000 * 3_600_000_000) by (nonlinear_arith)
                requires
                    0 < unit_micros <= 3_600_000_000,
                    -0x8000_0000_0000_0000 <= n <= 0x8000_0000_0000_0000,
            ;
            let micros: i128 = n as i128 * unit_micros as i128;
            if micros < i64::MIN as i128 || micros > i64::MAX as i128 {
                None
            } else {
                Some((0, 0, micros as i64))
            }
        },
        None => None,
    }
}

/// Reads an interval literal of one unit.
pub fn parse_interval_literal(text: &str, unit: Option<&str>) -> (out: Option<(i32, i32, i64)>)
    ensures
        (match out {
            Some(t) => Some((t.0 as int, t.1 as int, t.2 as int)),
            None => None,
        }) == interval_of(
            text@,
            match unit {
                Some(u) => Some(u@),
                None => None,
            },
        ),
{
    let amount = trimmed(text);
    let folded = match unit {
        Some(u) => to_lower(u),
        None => return None,
    };
    let unit = folded.as_str();
    if text_eq(unit, "year") || text_eq(unit, "years") {
        match read_i32(amount.as_str()) {
            Some(n) => {
                let months: i64 = n as i64 * 12;
                if months < i32::MIN as i64 || months > i32::MAX as i64 {
                    None
                } else {
                    Some((months as i32, 0, 0))
                }
            },
            None => None,
        }
    } else if text_eq(unit, "month") || text_eq(unit, "months") {
        match read_i32(amount.as_str()) {
            Some(n) => Some((n, 0, 0)),
            None => None,
        }
    } else if text_eq(unit, "day") || text_eq(unit, "days") {
        match read_i32(amount.as_str()) {
            Some(n) => Some((0, n, 0)),
            None => None,
        }
    } else if text_eq(unit, "hour") || text_eq(unit, "hours") {
        scaled_micros(amount.as_str(), 3_600_000_000)
    } else if text_eq(unit, "minute") || text_eq(unit, "minutes") {
        scaled_micros(amount.as_str(), 60_000_000)
    } else if text_eq(unit, "second") || text_eq(unit, "seconds") {
        scaled_micros(amount.as_str(), 1_000_000)
    } else {
        None
    }
}

/// Whether a text has the form `YYYY-MM-DD`: four digits, two digits and two
/// digits with a hyphen between them, and nothing else.
pub open spec fn date_form(t: Seq<char>) -> bool {
    t.len() == 10 && forall|i: int|
        0 <= i < 10 ==> if i == 4 || i == 7 {
            #[trigger] t[i] == '-'
        } else {
            '0' <= t[i] <= '9'
        }
}

/// Whether a text has the form `YYYY-MM-DD`.
fn has_date_form(t: &Vec<char>) -> (yes: bool)
    ensures
        yes == date_form(t@),
{
    if t.len() != 10 {
        return false;
    }
    let mut i: usize = 0;
    while i < 10
        invariant
            i <= 10,
            t.len() == 10,
            forall|k: int|
                0 <= k < i ==> if k == 4 || k == 7 {
                    #[trigger] t@[k] == '-'
                } else {
                    '0' <= t@[k] <= '9'
                },
        decreases 10 - i,
    {
        let c = t[i];
        let fits = if i == 4 || i == 7 {
            c == '-'
        } else {
            '0' <= c && c <= '9'
        };
        if !fits {
            assert(t@[i as int] == c);
            return false;
        }
        i = i + 1;
    }
    true
}

/// The day number that a text of the form `YYYY-MM-DD` stands for, and nothing
/// where the text has another form or names no day. White space around it is
/// passed over.
pub open spec fn date_value(s: Seq<char>) -> Option<int> {
    let t = text::trim(s);
    if !date_form(t) {
        None
    } else {
        let year = text::within(text::int_value(t.take(4)), i32::MIN as int, i32::MAX as int);
        let month = text::within(text::natural_value(t.subrange(5, 7)), 0, u32::MAX as int);
        let day = text::within(text::natural_value(t.subrange(8, 10)), 0, u32::MAX as int);
        if year is None || month is None || day is None {
            None
        } else {
            let (y, m, d) = (year->Some_0, month->Some_0, day->Some_0);
            if valid_date(y, m, d) {
                text::within(Some(day_number(y, m, d)), i32::MIN as int, i32::MAX as int)
            } else {
                None
            }
        }
    }
}

/// Reads a date literal.
pub fn parse_date_literal(text: &str) -> (out: Option<i32>)
    ensures
        (match out {
            Some(n) => Some(n as int),
            None => None,
        }) == date_value(text@),
{
    let t = trimmed(text);
    let chars = chars_of(t.as_str());
    if !has_date_form(&chars) {
        return None;
    }
    proof {
        assert(chars@.subrange(0, 4) =~= t@.take(4));
    }
    let year = match read_i32(text_of(&chars, 0, 4).as_str()) {
        Some(n) => n,
        None => return None,
    };
    let month = match read_u32(text_of(&chars, 5, 7).as_str()) {
        Some(n) => n,
        None => return None,
    };
    let day = match read_u32(text_of(&chars, 8, 10).as_str()) {
        Some(n) => n,
        None => return None,
    };
    if month < 1 || month > 12 || day == 0 || day > days_in_month(year, month) {
        return None;
    }
    proof {
        march_years_agree(year as int, month as int, day as int);
    }
    days_since_epoch(year, month, day)
}

} // verus!
