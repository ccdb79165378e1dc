//! What dates, times and intervals stand for, and where they lead.
use crate::dialect::{calendar, clock, values};
use crate::text;
use vstd::prelude::*;

verus! {

/// Whether a date is another one some months later: as many months on, on the same
/// day, or on the last one of a shorter month.
pub open spec fn months_on(
    y: int,
    m: int,
    d: int,
    months: int,
    year: int,
    month: int,
    day: int,
) -> bool {
    &&& calendar::valid_date(year, month, day)
    &&& 12 * year + month == 12 * y + m + months
    &&& day <= d
    &&& day < d ==> day == calendar::month_days(year, month)
}

/// A date some months later is as many months on, on the same day or on the last of
/// its month.
pub proof fn later_months_keep_their_day(y: int, m: int, d: int, months: int)
    requires
        calendar::valid_date(y, m, d),
    ensures
        calendar::months_later(calendar::day_number(y, m, d), months) matches Ok(n) ==> exists|
            year: int,
            month: int,
            day: int,
        | #[trigger]
            months_on(y, m, d, months, year, month, day) && n == calendar::day_number(
                year,
                month,
                day,
            ),
{
    calendar::date_of_day_number(y, m, d);
    let total = 12 * y + m - 1 + months;
    let year = total / 12;
    let month = total % 12 + 1;
    let day = text::min_int(d, calendar::month_days(year, month));
    assert(12 * year + month == total + 1);
    assert(calendar::month_days(year, month) >= 28);
    assert(months_on(y, m, d, months, year, month, day));
}

/// A date without months to move by moves by its days, and by part of a day becomes
/// a point in time.
pub proof fn days_are_counted_on(y: int, m: int, d: int, days: int, micros: int)
    requires
        calendar::valid_date(y, m, d),
    ensures
        ({
            let n = calendar::day_number(y, m, d);
            calendar::moved_date(n, 0, days, micros) matches Ok(x) ==> {
                &&& x matches crate::query::ScalarExprView::Literal { value, data_type }
                &&& micros == 0 ==> {
                    &&& data_type is Date
                    &&& value matches crate::value::ValueView::Date(k) && k == n + days
                }
                &&& micros != 0 ==> {
                    &&& data_type is Timestamp
                    &&& value matches crate::value::ValueView::Timestamp(t) && t == (n + days)
                        * 86_400_000_000 + micros
                }
            }
        }),
{
    later_months_keep_their_day(y, m, d, 0);
    let n = calendar::day_number(y, m, d);
    if let Ok(k) = calendar::months_later(n, 0) {
        let (year, month, day) = choose|year: int, month: int, day: int| #[trigger]
            months_on(y, m, d, 0, year, month, day) && k == calendar::day_number(year, month, day);
        assert(month == m && year == y);
        assert(day == d);
    }
}

/// An interval is its amount of its unit: a year has twelve months, an hour sixty
/// minutes of sixty seconds.
pub proof fn intervals_are_their_amount(magnitude: Seq<char>, unit: Option<Seq<char>>)
    ensures
        calendar::interval_of(magnitude, unit) matches Some((months, days, micros)) ==> {
            &&& unit matches Some(u)
            &&& text::int_value(text::trim(magnitude)) matches Some(n)
            &&& {
                let v = text::lower(u);
                ||| {
                    &&& v == "year"@ || v == "years"@
                    &&& months == 12 * n && days == 0 && micros == 0
                }
                ||| {
                    &&& v == "month"@ || v == "months"@
                    &&& months == n && days == 0 && micros == 0
                }
                ||| {
                    &&& v == "day"@ || v == "days"@
                    &&& months == 0 && days == n && micros == 0
                }
                ||| {
                    &&& v == "hour"@ || v == "hours"@
                    &&& months == 0 && days == 0 && micros == 3_600_000_000 * n
                }
                ||| {
                    &&& v == "minute"@ || v == "minutes"@
                    &&& months == 0 && days == 0 && micros == 60_000_000 * n
                }
                ||| {
                    &&& v == "second"@ || v == "seconds"@
                    &&& months == 0 && days == 0 && micros == 1_000_000 * n
                }
            }
        },
{
}

/// A date is read as its year, its month and its day, which there must be.
pub proof fn dates_are_read_by_their_parts(s: Seq<char>)
    ensures
        calendar::date_value(s) matches Some(n) ==> {
            let t = text::trim(s);
            &&& t.len() == 10 && t[4] == '-' && t[7] == '-'
            &&& text::all_digits(t.take(4)) && text::all_digits(t.subrange(5, 7))
                && text::all_digits(t.subrange(8, 10))
            &&& calendar::valid_date(
                text::nat_value(t.take(4)),
                text::nat_value(t.subrange(5, 7)),
                text::nat_value(t.subrange(8, 10)),
            )
            &&& n == calendar::day_number(
                text::nat_value(t.take(4)),
                text::nat_value(t.subrange(5, 7)),
                text::nat_value(t.subrange(8, 10)),
            )
        },
{
    if calendar::date_value(s) is Some {
        let t = text::trim(s);
        assert(t[4] == '-' && t[7] == '-');
        assert forall|i: int| 0 <= i < 4 implies text::is_digit(#[trigger] t.take(4)[i]) by {
            assert(t.take(4)[i] == t[i]);
        }
        assert forall|i: int| 0 <= i < 2 implies text::is_digit(
            #[trigger] t.subrange(5, 7)[i],
        ) by {
            assert(t.subrange(5, 7)[i] == t[5 + i]);
        }
        assert forall|i: int| 0 <= i < 2 implies text::is_digit(
            #[trigger] t.subrange(8, 10)[i],
        ) by {
            assert(t.subrange(8, 10)[i] == t[8 + i]);
        }
    }
}

proof fn clocks_end_with_their_text(s: Seq<char>, i: int)
    requires
        0 <= i <= s.len(),
        forall|k: int| 0 <= k < s.len() ==> clock::clock_char(#[trigger] s[k]),
    ensures
        clock::clock_end(s, i) == s.len(),
    decreases s.len() - i,
{
    if i < s.len() {
        clocks_end_with_their_text(s, i + 1);
    }
}

/// A mark that does not occur has no place.
pub proof fn missing_marks_are_not_found(s: Seq<char>, mark: char, i: int, to: int)
    requires
        0 <= i <= to <= s.len(),
        forall|k: int| i <= k < to ==> s[k] != mark,
    ensures
        clock::place_of(s, mark, i, to) == to,
    decreases to - i,
{
    if i < to {
        missing_marks_are_not_found(s, mark, i + 1, to);
    }
}

/// A time of day is its hours, minutes and seconds since midnight.
pub proof fn times_are_read_by_their_parts(s: Seq<char>)
    requires
        s.len() == 8 && s[2] == ':' && s[5] == ':',
        forall|k: int| 0 <= k < 8 && k != 2 && k != 5 ==> text::is_digit(#[trigger] s[k]),
        text::trim(s) == s,
        text::nat_value(s.subrange(0, 2)) <= 23,
        text::nat_value(s.subrange(3, 5)) <= 59,
        text::nat_value(s.subrange(6, 8)) <= 59,
    ensures
        clock::plain_time_value(s) == Some(
            ((text::nat_value(s.subrange(0, 2)) * 60 + text::nat_value(s.subrange(3, 5))) * 60
                + text::nat_value(s.subrange(6, 8))) * 1_000_000,
        ),
{
    assert forall|k: int| 0 <= k < s.len() implies clock::clock_char(#[trigger] s[k]) by {
        if k != 2 && k != 5 {
            assert(text::is_digit(s[k]));
        }
    }
    clocks_end_with_their_text(s, 0);
    assert forall|k: int| 0 <= k < 2 implies s[k] != ':' by {
        assert(text::is_digit(s[k]));
    }
    values::marks_are_found(s, ':', 0, 2);
    assert forall|k: int| 3 <= k < 5 implies s[k] != ':' by {
        assert(text::is_digit(s[k]));
    }
    values::marks_are_found(s, ':', 3, 5);
    assert forall|k: int| 6 <= k < 8 implies s[k] != '.' by {
        assert(text::is_digit(s[k]));
    }
    missing_marks_are_not_found(s, '.', 6, 8);
    assert forall|i: int| 0 <= i < 2 implies text::is_digit(#[trigger] s.subrange(0, 2)[i]) by {
        assert(s.subrange(0, 2)[i] == s[i]);
    }
    assert forall|i: int| 0 <= i < 2 implies text::is_digit(#[trigger] s.subrange(3, 5)[i]) by {
        assert(s.subrange(3, 5)[i] == s[3 + i]);
    }
    assert forall|i: int| 0 <= i < 2 implies text::is_digit(#[trigger] s.subrange(6, 8)[i]) by {
        assert(s.subrange(6, 8)[i] == s[6 + i]);
    }
    assert(clock::small_number(s, 0, 2, 23) == Some(text::nat_value(s.subrange(0, 2))));
    assert(clock::small_number(s, 3, 5, 59) == Some(text::nat_value(s.subrange(3, 5))));
    assert(clock::small_number(s, 6, 8, 59) == Some(text::nat_value(s.subrange(6, 8))));
}

/// A time of day lies within a day.
pub proof fn times_lie_within_a_day(s: Seq<char>)
    ensures
        clock::plain_time_value(s) matches Some(n) ==> n < 86_400_000_000,
{
    let t = text::trim(s);
    let end = clock::clock_end(t, 0);
    clocks_end_within_their_text(t, 0);
    let colon = clock::place_of(t, ':', 0, end);
    places_stand_within(t, ':', 0, end);
    if colon < end {
        places_stand_within(t, ':', colon + 1, end);
    }
    let second = clock::place_of(t, ':', colon + 1, end);
    if colon < end && second < end {
        places_stand_within(t, '.', second + 1, end);
    }
    let dot = clock::place_of(t, '.', second + 1, end);
    if colon < end && second < end && dot < end && clock::fraction_micros(t, dot + 1, end) is Some {
        let digits = t.subrange(dot + 1, end);
        let k = end - (dot + 1);
        fractions_are_parts(digits);
        powers_of_ten(k);
        assert(text::nat_value(digits) * clock::ten_to(6 - k) < clock::ten_to(k) * clock::ten_to(
            6 - k,
        )) by (nonlinear_arith)
            requires
                text::nat_value(digits) < clock::ten_to(k),
                clock::ten_to(6 - k) > 0,
        ;
    }
}

proof fn clocks_end_within_their_text(s: Seq<char>, i: int)
    requires
        0 <= i <= s.len(),
    ensures
        i <= clock::clock_end(s, i) <= s.len(),
    decreases s.len() - i,
{
    if i < s.len() {
        clocks_end_within_their_text(s, i + 1);
    }
}

proof fn powers_of_ten(k: int)
    requires
        1 <= k <= 6,
    ensures
        clock::ten_to(k) * clock::ten_to(6 - k) == 1_000_000,
        clock::ten_to(6 - k) > 0,
{
    reveal_with_fuel(clock::ten_to, 8);
    if k == 1 {
        assert(clock::ten_to(1) == 10 && clock::ten_to(5) == 100_000);
    } else if k == 2 {
        assert(clock::ten_to(2) == 100 && clock::ten_to(4) == 10_000);
    } else if k == 3 {
        assert(clock::ten_to(3) == 1_000);
    } else if k == 4 {
        assert(clock::ten_to(4) == 10_000 && clock::ten_to(2) == 100);
    } else if k == 5 {
        assert(clock::ten_to(5) == 100_000 && clock::ten_to(1) == 10);
    } else {
        assert(clock::ten_to(6) == 1_000_000 && clock::ten_to(0) == 1);
    }
}

proof fn fractions_are_parts(digits: Seq<char>)
    requires
        forall|i: int| 0 <= i < digits.len() ==> text::is_digit(#[trigger] digits[i]),
    ensures
        text::nat_value(digits) < clock::ten_to(digits.len() as int),
    decreases digits.len(),
{
    if digits.len() > 0 {
        let rest = digits.drop_last();
        assert forall|i: int| 0 <= i < rest.len() implies text::is_digit(#[trigger] rest[i]) by {
            assert(rest[i] == digits[i]);
        }
        fractions_are_parts(rest);
        assert(text::is_digit(digits.last()));
    }
}

/// Zones of opposite signs are as far on either side.
pub proof fn zones_of_opposite_signs_are_opposite(s: Seq<char>, t: Seq<char>, from: int)
    requires
        s.len() == t.len(),
        0 <= from < s.len(),
        s[from] == '+',
        t[from] == '-',
        forall|k: int| from < k < s.len() ==> s[k] == t[k],
    ensures
        clock::zone_seconds(s, from) matches Some(n) ==> clock::zone_seconds(t, from) == Some(-n),
        clock::zone_seconds(s, from) matches Some(n) ==> n >= 0,
{
    places_agree(s, t, ':', from + 1, s.len() as int);
    places_stand_within(s, ':', from + 1, s.len() as int);
    let to = s.len() as int;
    let colon = clock::place_of(s, ':', from + 1, to);
    assert(s.subrange(from + 1, colon) =~= t.subrange(from + 1, colon));
    if colon < to {
        assert(s.subrange(colon + 1, to) =~= t.subrange(colon + 1, to));
        if text::all_digits(s.subrange(colon + 1, to)) {
            values::digits_are_not_negative(s.subrange(colon + 1, to));
        }
    }
    if text::all_digits(s.subrange(from + 1, colon)) {
        values::digits_are_not_negative(s.subrange(from + 1, colon));
    }
}

proof fn places_stand_within(s: Seq<char>, mark: char, i: int, to: int)
    requires
        0 <= i <= to <= s.len(),
    ensures
        i <= clock::place_of(s, mark, i, to) <= to,
    decreases to - i,
{
    if i < to {
        places_stand_within(s, mark, i + 1, to);
    }
}

proof fn places_agree(s: Seq<char>, t: Seq<char>, mark: char, i: int, to: int)
    requires
        0 <= i <= to <= s.len(),
        s.len() == t.len(),
        forall|k: int| i <= k < to ==> s[k] == t[k],
    ensures
        clock::place_of(s, mark, i, to) == clock::place_of(t, mark, i, to),
    decreases to - i,
{
    if i < to {
        places_agree(s, t, mark, i + 1, to);
    }
}

/// A point in time with a zone is the time of its day, less the zone's distance.
pub proof fn zoned_times_are_moved_by_their_zone(s: Seq<char>)
    ensures
        clock::zoned_timestamp_value(s) matches Some(n) ==> {
            let t = text::trim(s);
            let at = clock::time_split(t);
            &&& calendar::date_value(t.take(at)) matches Some(day)
            &&& clock::zoned_time_value(t.skip(at + 1)) matches Some((micros, offset))
            &&& n + 1_000_000 * offset == 86_400_000_000 * day + micros
        },
{
}

} // verus!
