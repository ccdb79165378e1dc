//! Times of day, with and without a time zone, and their literals.
//!
//! Times in the plain form `HH:MM:SS`, with a fraction of up to six digits and a
//! numeric offset where they have one, are read here. All other texts are the
//! store's to read.
use crate::datatype::{DataType, DataTypeView};
use crate::dialect::calendar::{parse_date_literal, MICROS_PER_DAY};
use crate::dialect::reading::{Readings, ReadingsView};
use crate::dialect::{calendar, reading};
use crate::text::{chars_of, read_digits, text_of, trimmed};
use crate::text;
use crate::value::{Value, ValueView};
use vstd::prelude::*;

verus! {

/// The first place, from `i` on and before `to`, that holds `c`; else `to`.
pub open spec fn place_of(s: Seq<char>, c: char, i: int, to: int) -> int
    decreases to - i,
{
    if i >= to {
        to
    } else if s[i] == c {
        i
    } else {
        place_of(s, c, i + 1, to)
    }
}

/// The first place, in the given range, that holds a character.
pub fn find_char(s: &Vec<char>, c: char, from: usize, to: usize) -> (at: usize)
    requires
        from <= to <= s.len(),
    ensures
        at == place_of(s@, c, from as int, to as int),
        from <= at <= to,
{
    let mut i: usize = from;
    while i < to
        invariant
            from <= i <= to <= s.len(),
            place_of(s@, c, i as int, to as int) == place_of(s@, c, from as int, to as int),
        decreases to - i,
    {
        if s[i] == c {
            return i;
        }
        i = i + 1;
    }
    to
}

/// Whether a character belongs to a clock reading.
pub open spec fn clock_char(c: char) -> bool {
    text::is_digit(c) || c == ':' || c == '.'
}

/// The first place, from `i` on, that does not belong to a clock reading.
pub open spec fn clock_end(s: Seq<char>, i: int) -> int
    decreases s.len() - i,
{
    if i >= s.len() || !clock_char(s[i]) {
        i
    } else {
        clock_end(s, i + 1)
    }
}

fn find_clock_end(s: &Vec<char>) -> (at: usize)
    ensures
        at == clock_end(s@, 0),
        at <= s.len(),
{
    let mut i: usize = 0;
    while i < s.len()
        invariant
            i <= s.len(),
            clock_end(s@, i as int) == clock_end(s@, 0),
        decreases s.len() - i,
    {
        let c = s[i];
        if !(('0' <= c && c <= '9') || c == ':' || c == '.') {
            return i;
        }
        i = i + 1;
    }
    i
}

/// The number that two digits stand for, up to `max`.
pub open spec fn small_number(s: Seq<char>, from: int, to: int, max: int) -> Option<int> {
    let digits = s.subrange(from, to);
    if to - from == 2 && text::all_digits(digits) && text::nat_value(digits) <= max {
        Some(text::nat_value(digits))
    } else {
        None
    }
}

fn read_small(s: &Vec<char>, from: usize, to: usize, max: u32) -> (out: Option<u32>)
    requires
        from <= to <= s.len(),
    ensures
        (match out {
            Some(n) => Some(n as int),
            None => None,
        }) == small_number(s@, from as int, to as int, max as int),
        out matches Some(n) ==> n <= max,
{
    if to - from != 2 {
        return None;
    }
    match read_digits(s, from, to) {
        Some(n) => {
            proof {
                short_numbers_are_small(s@.subrange(from as int, to as int));
            }
            if n <= max as u128 {
                Some(n as u32)
            } else {
                None
            }
        },
        None => None,
    }
}

proof fn short_numbers_are_small(digits: Seq<char>)
    requires
        digits.len() <= 6,
        text::all_digits(digits),
    ensures
        0 <= text::nat_value(digits) < 1_000_000,
{
    small_by_length(digits);
    reveal_with_fuel(ten_to, 8);
    ten_grows(digits.len() as int, 6);
}

/// Ten to the given power.
pub open spec fn ten_to(n: int) -> int
    decreases n,
{
    if n <= 0 {
        1
    } else {
        10 * ten_to(n - 1)
    }
}

/// Greater powers of ten are greater.
pub proof fn ten_grows(a: int, b: int)
    requires
        0 <= a <= b,
    ensures
        0 < ten_to(a) <= ten_to(b),
    decreases b,
{
    if b > 0 {
        if a < b {
            ten_grows(a, b - 1);
        } else {
            ten_grows(a - 1, b - 1);
        }
    }
}

proof fn small_by_length(digits: Seq<char>)
    requires
        forall|i: int| 0 <= i < digits.len() ==> text::is_digit(#[trigger] digits[i]),
    ensures
        0 <= text::nat_value(digits) < ten_to(digits.len() as int),
    decreases digits.len(),
{
    if digits.len() > 0 {
        small_by_length(digits.drop_last());
        assert(text::is_digit(digits[digits.len() - 1]));
    }
}

/// The microseconds that the digits after the point of a second stand for.
pub open spec fn fraction_micros(s: Seq<char>, from: int, to: int) -> Option<int> {
    let digits = s.subrange(from, to);
    if 1 <= to - from <= 6 && text::all_digits(digits) {
        Some(text::nat_value(digits) * ten_to(6 - (to - from)))
    } else {
        None
    }
}

fn read_fraction(s: &Vec<char>, from: usize, to: usize) -> (out: Option<u32>)
    requires
        from <= to <= s.len(),
    ensures
        (match out {
            Some(n) => Some(n as int),
            None => None,
        }) == fraction_micros(s@, from as int, to as int),
        out matches Some(n) ==> n < 1_000_000,
{
    if to - from < 1 || to - from > 6 {
        return None;
    }
    match read_digits(s, from, to) {
        Some(n) => {
            let ghost digits = s@.subrange(from as int, to as int);
            proof {
                short_numbers_are_small(digits);
                small_by_length(digits);
            }
            let mut micros: u32 = n as u32;
            let mut k: usize = to - from;
            while k < 6
                invariant
                    1 <= to - from <= k <= 6,
                    digits.len() == to - from,
                    micros == text::nat_value(digits) * ten_to(k - (to - from)),
                    text::nat_value(digits) * ten_to(k - (to - from)) < ten_to(k as int),
                decreases 6 - k,
            {
                proof {
                    let done = ten_to(k - (to - from));
                    assert(ten_to(k + 1 - (to - from)) == 10 * done);
                    assert(ten_to(k + 1) == 10 * ten_to(k as int));
                    assert(text::nat_value(digits) * (10 * done) == 10 * (text::nat_value(digits)
                        * done)) by (nonlinear_arith);
                    ten_grows(k + 1, 6);
                    reveal_with_fuel(ten_to, 8);
                }
                micros = micros * 10;
                k = k + 1;
            }
            proof {
                reveal_with_fuel(ten_to, 8);
            }
            Some(micros)
        },
        None => None,
    }
}

/// The microseconds since midnight that `s[..to]` stands for: `HH:MM:SS` or
/// `HH:MM:SS.ffffff`.
pub open spec fn clock_micros(s: Seq<char>, to: int) -> Option<int> {
    let colon = place_of(s, ':', 0, to);
    if colon >= to {
        None
    } else {
        let second = place_of(s, ':', colon + 1, to);
        let hours = small_number(s, 0, colon, 23);
        let minutes = small_number(s, colon + 1, second, 59);
        let rest = seconds_micros(s, second, to);
        if hours is None || minutes is None || rest is None {
            None
        } else {
            Some(
                hours->Some_0 * 3_600_000_000 + minutes->Some_0 * 60_000_000 + rest->Some_0,
            )
        }
    }
}

/// The microseconds that the seconds after the colon at `colon` stand for; none
/// where there is no such colon.
pub open spec fn seconds_micros(s: Seq<char>, colon: int, to: int) -> Option<int> {
    if colon >= to {
        None
    } else {
        let dot = place_of(s, '.', colon + 1, to);
        let whole = small_number(s, colon + 1, dot, 59);
        let part = if dot >= to {
            Some(0)
        } else {
            fraction_micros(s, dot + 1, to)
        };
        if whole is None || part is None {
            None
        } else {
            Some(whole->Some_0 * 1_000_000 + part->Some_0)
        }
    }
}

fn read_seconds(s: &Vec<char>, colon: usize, to: usize) -> (out: Option<i64>)
    requires
        colon <= to <= s.len(),
    ensures
        (match out {
            Some(n) => Some(n as int),
            None => None,
        }) == seconds_micros(s@, colon as int, to as int),
        out matches Some(n) ==> 0 <= n < 60_000_000,
{
    if colon >= to {
        return None;
    }
    let dot: usize = find_char(s, '.', colon + 1, to);
    let whole: u32 = match read_small(s, colon + 1, dot, 59) {
        Some(n) => n,
        None => return None,
    };
    let part: u32 = if dot >= to {
        0
    } else {
        match read_fraction(s, dot + 1, to) {
            Some(n) => n,
            None => return None,
        }
    };
    Some(whole as i64 * 1_000_000 + part as i64)
}

fn read_clock(s: &Vec<char>, to: usize) -> (out: Option<i64>)
    requires
        to <= s.len(),
    ensures
        (match out {
            Some(n) => Some(n as int),
            None => None,
        }) == clock_micros(s@, to as int),
        out matches Some(n) ==> 0 <= n < MICROS_PER_DAY,
{
    let colon: usize = find_char(s, ':', 0, to);
    if colon >= to {
        return None;
    }
    let second: usize = find_char(s, ':', colon + 1, to);
    let hours: u32 = match read_small(s, 0, colon, 23) {
        Some(n) => n,
        None => return None,
    };
    let minutes: u32 = match read_small(s, colon + 1, second, 59) {
        Some(n) => n,
        None => return None,
    };
    match read_seconds(s, second, to) {
        Some(rest) => Some(hours as i64 * 3_600_000_000 + minutes as i64 * 60_000_000 + rest),
        None => None,
    }
}

/// The seconds east of Greenwich that `s[from..]` stands for: a sign and `HH` or
/// `HH:MM`, up to the fourteen hours and some minutes that clocks differ by.
pub open spec fn zone_seconds(s: Seq<char>, from: int) -> Option<int> {
    let to = s.len() as int;
    if from >= to || (s[from] != '+' && s[from] != '-') {
        None
    } else {
        let colon = place_of(s, ':', from + 1, to);
        let hours = small_number(s, from + 1, colon, 14);
        let minutes = if colon >= to {
            Some(0)
        } else {
            small_number(s, colon + 1, to, 59)
        };
        if hours is None || minutes is None {
            None
        } else {
            let seconds = hours->Some_0 * 3600 + minutes->Some_0 * 60;
            Some(
                if s[from] == '-' {
                    -seconds
                } else {
                    seconds
                },
            )
        }
    }
}

fn read_zone(s: &Vec<char>, from: usize) -> (out: Option<i32>)
    requires
        from <= s.len(),
    ensures
        (match out {
            Some(n) => Some(n as int),
            None => None,
        }) == zone_seconds(s@, from as int),
        out matches Some(n) ==> -60_000 < n < 60_000,
{
    let to: usize = s.len();
    if from >= to || (s[from] != '+' && s[from] != '-') {
        return None;
    }
    let colon: usize = find_char(s, ':', from + 1, to);
    let hours: u32 = match read_small(s, from + 1, colon, 14) {
        Some(n) => n,
        None => return None,
    };
    let minutes: u32 = if colon >= to {
        0
    } else {
        match read_small(s, colon + 1, to, 59) {
            Some(n) => n,
            None => return None,
        }
    };
    let seconds: i32 = hours as i32 * 3600 + minutes as i32 * 60;
    if s[from] == '-' {
        Some(-seconds)
    } else {
        Some(seconds)
    }
}

/// The microseconds since midnight that a time of the plain form stands for. A
/// numeric offset may follow and is not taken into account.
pub open spec fn plain_time_value(text: Seq<char>) -> Option<int> {
    let s = text::trim(text);
    let end = clock_end(s, 0);
    if end < s.len() && zone_seconds(s, end) is None {
        None
    } else {
        clock_micros(s, end)
    }
}

/// The microseconds since midnight that a time without time zone stands for.
/// Other forms than the plain one are the store's to read.
pub open spec fn time_value(text: Seq<char>, r: ReadingsView) -> Option<int> {
    match plain_time_value(text) {
        Some(n) => Some(n),
        None => match reading::read_as(r, DataTypeView::Time, text) {
            Some(ValueView::Time(n)) => Some(n as int),
            _ => None,
        },
    }
}

/// Reads a time of day.
pub fn parse_time_of_day_micros(text: &str, readings: &Readings) -> (out: Option<i64>)
    ensures
        (match out {
            Some(n) => Some(n as int),
            None => None,
        }) == time_value(text@, readings@),
{
    match read_plain_time(text) {
        Some(n) => Some(n),
        None => match readings.read(&DataType::Time, text) {
            Some(Value::Time(n)) => Some(n),
            _ => None,
        },
    }
}

fn read_plain_time(text: &str) -> (out: Option<i64>)
    ensures
        (match out {
            Some(n) => Some(n as int),
            None => None,
        }) == plain_time_value(text@),
{
    let t = trimmed(text);
    let s = chars_of(t.as_str());
    let end: usize = find_clock_end(&s);
    if end < s.len() && read_zone(&s, end).is_none() {
        return None;
    }
    read_clock(&s, end)
}

/// A time of day and its offset from Greenwich, where the text has a numeric
/// offset.
pub open spec fn zoned_time_value(text: Seq<char>) -> Option<(int, int)> {
    let s = text::trim(text);
    let end = clock_end(s, 0);
    let micros = clock_micros(s, end);
    let offset = zone_seconds(s, end);
    if micros is None || offset is None {
        None
    } else {
        Some((micros->Some_0, offset->Some_0))
    }
}

/// The time of day and offset that a text stands for. Other forms than the plain
/// one, such as those with the name of a zone, are the store's to read.
pub open spec fn timetz_value(text: Seq<char>, r: ReadingsView) -> Option<(int, int)> {
    match zoned_time_value(text) {
        Some(t) => Some(t),
        None => match reading::read_as(r, DataTypeView::TimeTz, text) {
            Some(ValueView::TimeTz { micros, offset_seconds }) => Some(
                (micros as int, offset_seconds as int),
            ),
            _ => None,
        },
    }
}

fn read_zoned_time(text: &str) -> (out: Option<(i64, i32)>)
    ensures
        (match out {
            Some(t) => Some((t.0 as int, t.1 as int)),
            None => None,
        }) == zoned_time_value(text@),
        out matches Some(t) ==> 0 <= t.0 < MICROS_PER_DAY && -60_000 < t.1 < 60_000,
{
    let t = trimmed(text);
    let s = chars_of(t.as_str());
    let end: usize = find_clock_end(&s);
    match (read_clock(&s, end), read_zone(&s, end)) {
        (Some(micros), Some(offset)) => Some((micros, offset)),
        _ => None,
    }
}

/// Reads a time of day with time zone.
pub fn parse_timetz_literal(text: &str, readings: &Readings) -> (out: Option<(i64, i32)>)
    ensures
        (match out {
            Some(t) => Some((t.0 as int, t.1 as int)),
            None => None,
        }) == timetz_value(text@, readings@),
{
    match read_zoned_time(text) {
        Some(t) => Some(t),
        None => match readings.read(&DataType::TimeTz, text) {
            Some(Value::TimeTz { micros, offset_seconds }) => Some((micros, offset_seconds)),
            _ => None,
        },
    }
}

/// The place of the first blank of a point in time, or else of its first `T`.
pub open spec fn time_split(s: Seq<char>) -> int {
    let blank = place_of(s, ' ', 0, s.len() as int);
    if blank < s.len() {
        blank
    } else {
        place_of(s, 'T', 0, s.len() as int)
    }
}

/// The microseconds since 2000-01-01 that a timestamp without time zone stands
/// for.
pub open spec fn timestamp_value(text: Seq<char>, r: ReadingsView) -> Option<int> {
    let s = text::trim(text);
    let split = time_split(s);
    if split >= s.len() {
        None
    } else {
        let days = calendar::date_value(s.take(split));
        let micros = time_value(s.skip(split + 1), r);
        if days is None || micros is None {
            None
        } else {
            on_day(days->Some_0, micros->Some_0)
        }
    }
}

/// The microseconds since 2000-01-01 of a moment so many microseconds into a
/// day, where they are in range.
pub open spec fn on_day(day: int, micros: int) -> Option<int> {
    let start = day * MICROS_PER_DAY;
    if i64::MIN <= start <= i64::MAX && i64::MIN <= start + micros <= i64::MAX {
        Some(start + micros)
    } else {
        None
    }
}

fn moment(day: i32, micros: i64) -> (out: Option<i64>)
    ensures
        (match out {
            Some(n) => Some(n as int),
            None => None,
        }) == on_day(day as int, micros as int),
{
    let start: i128 = day as i128 * 86_400_000_000;
    let at: i128 = start + micros as i128;
    if start < i64::MIN as i128 || start > i64::MAX as i128 || at < i64::MIN as i128 || at
        > i64::MAX as i128 {
        None
    } else {
        Some(at as i64)
    }
}

fn find_split(s: &Vec<char>) -> (at: usize)
    ensures
        at == time_split(s@),
        at <= s.len(),
{
    let blank: usize = find_char(s, ' ', 0, s.len());
    if blank < s.len() {
        blank
    } else {
        find_char(s, 'T', 0, s.len())
    }
}

/// Reads a timestamp without time zone.
pub fn parse_timestamp_literal(text: &str, readings: &Readings) -> (out: Option<i64>)
    ensures
        (match out {
            Some(n) => Some(n as int),
            None => None,
        }) == timestamp_value(text@, readings@),
{
    let t = trimmed(text);
    let s = chars_of(t.as_str());
    let split: usize = find_split(&s);
    if split >= s.len() {
        return None;
    }
    assert(s@.subrange(0, split as int) =~= t@.take(split as int));
    assert(s@.subrange(split + 1, s@.len() as int) =~= t@.skip(split + 1));
    let days = match parse_date_literal(text_of(&s, 0, split).as_str()) {
        Some(n) => n,
        None => return None,
    };
    match parse_time_of_day_micros(text_of(&s, split + 1, s.len()).as_str(), readings) {
        Some(micros) => moment(days, micros),
        None => None,
    }
}

/// The microseconds since 2000-01-01 at Greenwich that a timestamp with a
/// numeric offset stands for.
pub open spec fn zoned_timestamp_value(text: Seq<char>) -> Option<int> {
    let s = text::trim(text);
    let split = time_split(s);
    if split >= s.len() {
        None
    } else {
        let days = calendar::date_value(s.take(split));
        let time = zoned_time_value(s.skip(split + 1));
        if days is None || time is None {
            None
        } else {
            on_day(days->Some_0, time->Some_0.0 - time->Some_0.1 * 1_000_000)
        }
    }
}

/// The microseconds since 2000-01-01 at Greenwich that a timestamp with time
/// zone stands for. Other forms than the plain one, such as those with the name
/// of a zone, are the store's to read.
pub open spec fn timestamptz_value(text: Seq<char>, r: ReadingsView) -> Option<int> {
    match zoned_timestamp_value(text) {
        Some(n) => Some(n),
        None => match reading::read_as(r, DataTypeView::TimestampTz, text) {
            Some(ValueView::TimestampTz(n)) => Some(n as int),
            _ => None,
        },
    }
}

fn read_zoned_timestamp(text: &str) -> (out: Option<i64>)
    ensures
        (match out {
            Some(n) => Some(n as int),
            None => None,
        }) == zoned_timestamp_value(text@),
{
    let t = trimmed(text);
    let s = chars_of(t.as_str());
    let split: usize = find_split(&s);
    if split >= s.len() {
        return None;
    }
    assert(s@.subrange(0, split as int) =~= t@.take(split as int));
    assert(s@.subrange(split + 1, s@.len() as int) =~= t@.skip(split + 1));
    let days = match parse_date_literal(text_of(&s, 0, split).as_str()) {
        Some(n) => n,
        None => return None,
    };
    match read_zoned_time(text_of(&s, split + 1, s.len()).as_str()) {
        Some((micros, offset)) => moment(days, micros - offset as i64 * 1_000_000),
        None => None,
    }
}

/// Reads a timestamp with time zone.
pub fn parse_timestamptz_literal(text: &str, readings: &Readings) -> (out: Option<i64>)
    ensures
        (match out {
            Some(n) => Some(n as int),
            None => None,
        }) == timestamptz_value(text@, readings@),
{
    match read_zoned_timestamp(text) {
        Some(n) => Some(n),
        None => match readings.read(&DataType::TimestampTz, text) {
            Some(Value::TimestampTz(n)) => Some(n),
            _ => None,
        },
    }
}

} // verus!
