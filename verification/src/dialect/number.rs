//! Numbers in literals: exact decimals, money, object identifiers, signs.
use crate::ast::{Expr, Literal, UnaryOp};
use crate::datatype::{DataType, DataTypeView};
use crate::dialect::reading::{Readings, ReadingsView};
use crate::dialect::{clock, reading};
use crate::query::{ScalarExpr, ScalarExprView};
use crate::render;
use crate::text;
use crate::text::{cat2, chars_of, read_i64, read_wide, text_eq, text_of, trimmed};
use crate::value::{FloatValue, FloatValueView, Value, ValueView};
use vstd::prelude::*;

verus! {

/// The truth value that a text stands for.
pub open spec fn bool_value(s: Seq<char>) -> Option<bool> {
    let t = text::trim(s);
    if t == "t"@ || t == "true"@ || t == "TRUE"@ || t == "T"@ || t == "1"@ || t == "y"@ || t == "Y"@
        || t == "yes"@ || t == "YES"@ || t == "on"@ || t == "ON"@ {
        Some(true)
    } else if t == "f"@ || t == "false"@ || t == "FALSE"@ || t == "F"@ || t == "0"@ || t == "n"@
        || t == "N"@ || t == "no"@ || t == "NO"@ || t == "off"@ || t == "OFF"@ {
        Some(false)
    } else {
        None
    }
}

/// Reads a truth value.
pub fn parse_bool_text(text: &str) -> (out: Option<bool>)
    ensures
        out == bool_value(text@),
{
    let folded = trimmed(text);
    let t = folded.as_str();
    if text_eq(t, "t") || text_eq(t, "true") || text_eq(t, "TRUE") || text_eq(t, "T") || text_eq(
        t,
        "1",
    ) || text_eq(t, "y") || text_eq(t, "Y") || text_eq(t, "yes") || text_eq(t, "YES") || text_eq(
        t,
        "on",
    ) || text_eq(t, "ON") {
        Some(true)
    } else if text_eq(t, "f") || text_eq(t, "false") || text_eq(t, "FALSE") || text_eq(t, "F")
        || text_eq(t, "0") || text_eq(t, "n") || text_eq(t, "N") || text_eq(t, "no") || text_eq(
        t,
        "NO",
    ) || text_eq(t, "off") || text_eq(t, "OFF") {
        Some(false)
    } else {
        None
    }
}

/// Ten to a power, where it is in range.
pub fn pow10_i64(exp: u32) -> (out: Option<i64>)
    ensures
        (match out {
            Some(n) => Some(n as int),
            None => None,
        }) == text::within(Some(clock::ten_to(exp as int)), 0, i64::MAX as int),
{
    proof {
        reveal_with_fuel(clock::ten_to, 20);
    }
    if exp > 18 {
        proof {
            clock::ten_grows(19, exp as int);
        }
        return None;
    }
    proof {
        clock::ten_grows(exp as int, 18);
    }
    let mut n: i64 = 1;
    let mut i: u32 = 0;
    while i < exp
        invariant
            i <= exp <= 18,
            n == clock::ten_to(i as int),
            clock::ten_to(18) == 1_000_000_000_000_000_000,
        decreases exp - i,
    {
        proof {
            clock::ten_grows(i + 1, 18);
        }
        n = n * 10;
        i = i + 1;
    }
    Some(n)
}

/// The number of bytes of a character.
pub open spec fn char_bytes(c: char) -> int {
    if c <= '\u{7F}' {
        1
    } else if c <= '\u{7FF}' {
        2
    } else if c <= '\u{FFFF}' {
        3
    } else {
        4
    }
}

/// The number of bytes of a text.
pub open spec fn byte_len(s: Seq<char>) -> int
    decreases s.len(),
{
    if s.len() == 0 {
        0
    } else {
        byte_len(s.drop_last()) + char_bytes(s.last())
    }
}

/// A text without the zeros at its end.
pub open spec fn without_zeros(s: Seq<char>) -> Seq<char>
    decreases s.len(),
{
    if s.len() > 0 && s.last() == '0' {
        without_zeros(s.drop_last())
    } else {
        s
    }
}

/// The number of places after the point that a rendering needs.
pub open spec fn places_of_text(s: Seq<char>) -> Option<int> {
    let t = text::trim(s);
    let dot = clock::place_of(t, '.', 0, t.len() as int);
    if dot >= t.len() {
        None
    } else {
        text::within(Some(byte_len(without_zeros(t.skip(dot + 1)))), 0, i32::MAX as int)
    }
}

/// Counts the places after the point that a rendering needs.
pub fn infer_decimal_scale_from_text(text: &str) -> (out: Option<i32>)
    ensures
        (match out {
            Some(n) => Some(n as int),
            None => None,
        }) == places_of_text(text@),
{
    let t = trimmed(text);
    let s = chars_of(t.as_str());
    let dot: usize = clock::find_char(&s, '.', 0, s.len());
    if dot >= s.len() {
        return None;
    }
    let mut to: usize = s.len();
    assert(s@.subrange(dot + 1, to as int) =~= t@.skip(dot + 1));
    while to > dot + 1 && s[to - 1] == '0'
        invariant
            dot < s.len(),
            dot + 1 <= to <= s.len(),
            without_zeros(s@.subrange(dot + 1, to as int)) == without_zeros(t@.skip(dot + 1)),
        decreases to,
    {
        assert(s@.subrange(dot + 1, to as int).drop_last() =~= s@.subrange(dot + 1, to - 1));
        to = to - 1;
    }
    let ghost kept = s@.subrange(dot + 1, to as int);
    assert(without_zeros(kept) == kept);
    let mut count: u128 = 0;
    let mut i: usize = dot + 1;
    assert(s@.subrange(dot + 1, i as int) =~= Seq::empty());
    while i < to
        invariant
            dot + 1 <= i <= to <= s.len(),
            count == byte_len(s@.subrange(dot + 1, i as int)),
            count <= 4 * (i - dot),
        decreases to - i,
    {
        let c = s[i];
        let n: u128 = if c <= '\u{7F}' {
            1
        } else if c <= '\u{7FF}' {
            2
        } else if c <= '\u{FFFF}' {
            3
        } else {
            4
        };
        assert(s@.subrange(dot + 1, i + 1).drop_last() =~= s@.subrange(dot + 1, i as int));
        count = count + n;
        i = i + 1;
    }
    if count > i32::MAX as u128 {
        None
    } else {
        Some(count as i32)
    }
}

/// The number of places after the point of a number.
pub open spec fn places_of(v: ValueView, r: ReadingsView) -> Option<int> {
    match v {
        ValueView::Int16(_) => Some(0),
        ValueView::Int32(_) => Some(0),
        ValueView::Int64(_) => Some(0),
        ValueView::Float32(x) => places_of_float(x, true, r),
        ValueView::Float64(x) => places_of_float(x, false, r),
        ValueView::Decimal { scale, .. } => Some(scale as int),
        _ => None,
    }
}

/// The number of places after the point of a floating-point number in its
/// shortest form, of single or of double precision.
pub open spec fn places_of_float(x: FloatValueView, single: bool, r: ReadingsView) -> Option<int> {
    match reading::rendered(r, x, None, single) {
        Some(s) => places_of_text(s),
        None => None,
    }
}

fn infer_float_scale(x: &FloatValue, single: bool, readings: &Readings) -> (out: Option<i32>)
    ensures
        (match out {
            Some(n) => Some(n as int),
            None => None,
        }) == places_of_float(x@, single, readings@),
{
    match readings.render(x, None, single) {
        Some(s) => infer_decimal_scale_from_text(s.as_str()),
        None => None,
    }
}

/// Counts the places after the point of a number.
pub fn infer_decimal_scale(value: &Value, readings: &Readings) -> (out: Option<i32>)
    ensures
        (match out {
            Some(n) => Some(n as int),
            None => None,
        }) == places_of(value@, readings@),
{
    match value {
        Value::Int16(_) => Some(0),
        Value::Int32(_) => Some(0),
        Value::Int64(_) => Some(0),
        Value::Float32(x) => infer_float_scale(x, true, readings),
        Value::Float64(x) => infer_float_scale(x, false, readings),
        Value::Decimal { scale, .. } => Some(*scale),
        _ => None,
    }
}

/// The digits of a fixed-point rendering as one integer.
pub open spec fn scaled_value(s: Seq<char>) -> Option<int> {
    let negative = s.len() > 0 && s[0] == '-';
    let body = if negative {
        s.skip(1)
    } else {
        s
    };
    let dot = clock::place_of(body, '.', 0, body.len() as int);
    let whole = if dot == 0 {
        "0"@
    } else {
        body.take(dot)
    };
    let frac = if dot < body.len() {
        body.skip(dot + 1)
    } else {
        Seq::empty()
    };
    match text::within(text::int_value(whole + frac), i64::MIN as int, i64::MAX as int) {
        Some(n) => if negative {
            text::within(Some(-n), i64::MIN as int, i64::MAX as int)
        } else {
            Some(n)
        },
        None => None,
    }
}

/// Reads the digits of a fixed-point rendering as one integer.
pub fn scaled_decimal_text_to_i64(text: &str) -> (out: Option<i64>)
    ensures
        (match out {
            Some(n) => Some(n as int),
            None => None,
        }) == scaled_value(text@),
{
    let s = chars_of(text);
    let negative = s.len() > 0 && s[0] == '-';
    let from: usize = if negative {
        1
    } else {
        0
    };
    let ghost body = if negative {
        text@.skip(1)
    } else {
        text@
    };
    assert(s@.subrange(from as int, s@.len() as int) =~= body);
    let dot: usize = clock::find_char(&s, '.', from, s.len());
    proof {
        place_in_rest(s@, '.', from as int, from as int, s@.len() as int);
    }
    assert(body.take(dot - from) =~= s@.subrange(from as int, dot as int));
    let whole = if dot == from {
        text::owned("0")
    } else {
        text_of(&s, from, dot)
    };
    let digits = if dot < s.len() {
        assert(body.skip(dot - from + 1) =~= s@.subrange(dot + 1, s@.len() as int));
        cat2(whole.as_str(), text_of(&s, dot + 1, s.len()).as_str())
    } else {
        assert(whole@ + Seq::<char>::empty() =~= whole@);
        whole
    };
    match read_i64(digits.as_str()) {
        Some(n) => if negative {
            if n == i64::MIN {
                None
            } else {
                Some(-n)
            }
        } else {
            Some(n)
        },
        None => None,
    }
}

proof fn place_in_rest(s: Seq<char>, c: char, from: int, i: int, to: int)
    requires
        0 <= from <= i <= to <= s.len(),
    ensures
        clock::place_of(s, c, i, to) - from == clock::place_of(
            s.subrange(from, to),
            c,
            i - from,
            to - from,
        ),
    decreases to - i,
{
    if i < to && s[i] != c {
        place_in_rest(s, c, from, i + 1, to);
    }
}

/// A floating-point number rounded to so many places, as an integer of that
/// many places.
pub open spec fn float_places(x: FloatValueView, scale: int, r: ReadingsView) -> Option<int> {
    if scale < 0 {
        None
    } else {
        match reading::rendered(r, x, Some(scale as u32), false) {
            Some(s) => scaled_value(s),
            None => None,
        }
    }
}

/// Rounds a floating-point number to so many places.
pub fn decimal_from_float(value: &FloatValue, scale: i32, readings: &Readings) -> (out: Option<i64>)
    ensures
        (match out {
            Some(n) => Some(n as int),
            None => None,
        }) == float_places(value@, scale as int, readings@),
{
    if scale < 0 {
        return None;
    }
    match readings.render(value, Some(scale as u32), false) {
        Some(s) => scaled_decimal_text_to_i64(s.as_str()),
        None => None,
    }
}

/// An integer as a decimal of so many places.
pub open spec fn scaled_integer(n: int, scale: int) -> Option<(int, int)> {
    match text::within(
        Some(n * clock::ten_to(scale)),
        i64::MIN as int,
        i64::MAX as int,
    ) {
        Some(v) => Some((v, scale)),
        None => None,
    }
}

/// A number as a decimal of the given number of places, or of its own. An exact
/// decimal of another number of places is none.
pub open spec fn decimal_of(v: ValueView, target: Option<i32>, r: ReadingsView) -> Option<
    (int, int),
> {
    let scale = match target {
        Some(t) => Some(t as int),
        None => places_of(v, r),
    };
    match scale {
        None => None,
        Some(scale) => if scale < 0 || clock::ten_to(scale) > i64::MAX {
            None
        } else {
            match v {
                ValueView::Int16(n) => scaled_integer(n as int, scale),
                ValueView::Int32(n) => scaled_integer(n as int, scale),
                ValueView::Int64(n) => scaled_integer(n as int, scale),
                ValueView::Float32(x) => match float_places(x, scale, r) {
                    Some(n) => Some((n, scale)),
                    None => None,
                },
                ValueView::Float64(x) => match float_places(x, scale, r) {
                    Some(n) => Some((n, scale)),
                    None => None,
                },
                ValueView::Decimal { value, scale: places } => if places == scale {
                    Some((value as int, scale))
                } else {
                    None
                },
                _ => None,
            }
        },
    }
}

fn scale_integer(n: i64, factor: i64, scale: i32) -> (out: Option<(i64, i32)>)
    requires
        0 <= scale,
        factor == clock::ten_to(scale as int),
    ensures
        (match out {
            Some(t) => Some((t.0 as int, t.1 as int)),
            None => None,
        }) == scaled_integer(n as int, scale as int),
{
    assert(-0x8000_0000_0000_0000 * 0x8000_0000_0000_0000 <= n * factor <= 0x8000_0000_0000_0000
        * 0x8000_0000_0000_0000) by (nonlinear_arith)
        requires
            -0x8000_0000_0000_0000 <= n <= 0x7fff_ffff_ffff_ffff,
            -0x8000_0000_0000_0000 <= factor <= 0x7fff_ffff_ffff_ffff,
    ;
    let v: i128 = n as i128 * factor as i128;
    if v < i64::MIN as i128 || v > i64::MAX as i128 {
        None
    } else {
        Some((v as i64, scale))
    }
}

/// Turns a number into a decimal.
pub fn decimal_from_numeric_value(
    value: &Value,
    target_scale: Option<i32>,
    readings: &Readings,
) -> (out:
    Option<(i64, i32)>)
    ensures
        (match out {
            Some(t) => Some((t.0 as int, t.1 as int)),
            None => None,
        }) == decimal_of(value@, target_scale, readings@),
{
    let scale: i32 = match target_scale {
        Some(t) => t,
        None => match infer_decimal_scale(value, readings) {
            Some(t) => t,
            None => return None,
        },
    };
    if scale < 0 {
        return None;
    }
    let factor: i64 = match pow10_i64(scale as u32) {
        Some(f) => f,
        None => {
            proof {
                clock::ten_grows(0, scale as int);
            }
            return None;
        },
    };
    match value {
        Value::Int16(n) => scale_integer(*n as i64, factor, scale),
        Value::Int32(n) => scale_integer(*n as i64, factor, scale),
        Value::Int64(n) => scale_integer(*n, factor, scale),
        Value::Float32(x) => match decimal_from_float(x, scale, readings) {
            Some(n) => Some((n, scale)),
            None => None,
        },
        Value::Float64(x) => match decimal_from_float(x, scale, readings) {
            Some(n) => Some((n, scale)),
            None => None,
        },
        Value::Decimal { value, scale: places } => if *places == scale {
            Some((*value, scale))
        } else {
            None
        },
        _ => None,
    }
}

/// The cents that a text stands for.
pub open spec fn cents_of_text(s: Seq<char>, r: ReadingsView) -> Option<int> {
    match reading::read_as(r, DataTypeView::Money, s) {
        Some(ValueView::Money(n)) => Some(n as int),
        _ => None,
    }
}

/// The cents that a literal stands for.
pub open spec fn cents_of(v: ValueView, r: ReadingsView) -> Option<int> {
    match v {
        ValueView::Int16(n) => Some(n * 100),
        ValueView::Int32(n) => Some(n * 100),
        ValueView::Int64(n) => text::within(Some(n * 100), i64::MIN as int, i64::MAX as int),
        ValueView::Decimal { .. } => cents_of_text(render::value_text(v), r),
        ValueView::Text(s) => cents_of_text(s, r),
        ValueView::Money(n) => Some(n as int),
        _ => None,
    }
}

fn read_cents(s: &str, readings: &Readings) -> (out: Option<i64>)
    ensures
        (match out {
            Some(n) => Some(n as int),
            None => None,
        }) == cents_of_text(s@, readings@),
{
    match readings.read(&DataType::Money, s) {
        Some(Value::Money(n)) => Some(n),
        _ => None,
    }
}

/// Turns a literal into cents.
pub fn money_from_literal_value(value: &Value, readings: &Readings) -> (out: Option<i64>)
    ensures
        (match out {
            Some(n) => Some(n as int),
            None => None,
        }) == cents_of(value@, readings@),
{
    match value {
        Value::Int16(n) => Some(*n as i64 * 100),
        Value::Int32(n) => Some(*n as i64 * 100),
        Value::Int64(n) => {
            let v: i128 = *n as i128 * 100;
            if v < i64::MIN as i128 || v > i64::MAX as i128 {
                None
            } else {
                Some(v as i64)
            }
        },
        Value::Decimal { .. } => read_cents(value.show().as_str(), readings),
        Value::Text(s) => read_cents(s.as_str(), readings),
        Value::Money(n) => Some(*n),
        _ => None,
    }
}

/// The object identifier that a text stands for.
pub open spec fn oid_of_text(s: Seq<char>, r: ReadingsView) -> Option<u32> {
    match reading::read_as(r, DataTypeView::Oid, s) {
        Some(ValueView::Oid(n)) => Some(n),
        _ => None,
    }
}

/// Reads an object identifier.
pub fn parse_oid_text(s: &str, readings: &Readings) -> (out: Option<u32>)
    ensures
        out == oid_of_text(s@, readings@),
{
    match readings.read(&DataType::Oid, s) {
        Some(Value::Oid(n)) => Some(n),
        _ => None,
    }
}

/// The object identifier that a literal stands for.
pub open spec fn oid_of(v: ValueView, r: ReadingsView) -> Option<u32> {
    match v {
        ValueView::Int16(n) => if n >= 0 {
            Some(n as u32)
        } else {
            None
        },
        ValueView::Int32(n) => if n >= 0 {
            Some(n as u32)
        } else {
            None
        },
        ValueView::Int64(n) => if 0 <= n <= u32::MAX {
            Some(n as u32)
        } else {
            None
        },
        ValueView::Text(s) => oid_of_text(s, r),
        ValueView::Char(s) => oid_of_text(s, r),
        ValueView::Oid(n) => Some(n),
        ValueView::RegClass(n) => Some(n),
        ValueView::RegType(n) => Some(n),
        _ => None,
    }
}

/// Turns a literal into an object identifier.
pub fn oid_from_literal_value(value: &Value, readings: &Readings) -> (out: Option<u32>)
    ensures
        out == oid_of(value@, readings@),
{
    match value {
        Value::Int16(n) => if *n >= 0 {
            Some(*n as u32)
        } else {
            None
        },
        Value::Int32(n) => if *n >= 0 {
            Some(*n as u32)
        } else {
            None
        },
        Value::Int64(n) => if *n >= 0 && *n <= u32::MAX as i64 {
            Some(*n as u32)
        } else {
            None
        },
        Value::Text(s) => parse_oid_text(s.as_str(), readings),
        Value::Char(s) => parse_oid_text(s.as_str(), readings),
        Value::Oid(n) => Some(*n),
        Value::RegClass(n) => Some(*n),
        Value::RegType(n) => Some(*n),
        _ => None,
    }
}

/// The negation of a number, where it is in range.
pub open spec fn negated(v: ValueView) -> Option<ValueView> {
    match v {
        ValueView::Int16(n) => if n == i16::MIN {
            None
        } else {
            Some(ValueView::Int16((-n) as i16))
        },
        ValueView::Int32(n) => if n == i32::MIN {
            None
        } else {
            Some(ValueView::Int32((-n) as i32))
        },
        ValueView::Int64(n) => if n == i64::MIN {
            None
        } else {
            Some(ValueView::Int64((-n) as i64))
        },
        ValueView::Float32(x) => Some(ValueView::Float32(FloatValueView::Negated(Box::new(x)))),
        ValueView::Float64(x) => Some(ValueView::Float64(FloatValueView::Negated(Box::new(x)))),
        ValueView::Decimal { value, scale } => if value == i64::MIN {
            None
        } else {
            Some(ValueView::Decimal { value: (-value) as i64, scale })
        },
        ValueView::Money(n) => if n == i64::MIN {
            None
        } else {
            Some(ValueView::Money((-n) as i64))
        },
        _ => None,
    }
}

fn negate(v: &Value) -> (out: Option<Value>)
    ensures
        reading::value_of(out) == negated(v@),
{
    match v {
        Value::Int16(n) => if *n == i16::MIN {
            None
        } else {
            Some(Value::Int16(-*n))
        },
        Value::Int32(n) => if *n == i32::MIN {
            None
        } else {
            Some(Value::Int32(-*n))
        },
        Value::Int64(n) => if *n == i64::MIN {
            None
        } else {
            Some(Value::Int64(-*n))
        },
        Value::Float32(x) => Some(Value::Float32(FloatValue::Negated(Box::new(x.duplicate())))),
        Value::Float64(x) => Some(Value::Float64(FloatValue::Negated(Box::new(x.duplicate())))),
        Value::Decimal { value, scale } => if *value == i64::MIN {
            None
        } else {
            Some(Value::Decimal { value: -*value, scale: *scale })
        },
        Value::Money(n) => if *n == i64::MIN {
            None
        } else {
            Some(Value::Money(-*n))
        },
        _ => None,
    }
}

/// An expression with the sign before a literal taken into the literal.
pub open spec fn sign_folded(e: ScalarExprView) -> ScalarExprView {
    match e {
        ScalarExprView::Unary { op, expr, .. } => match *expr {
            ScalarExprView::Literal { value, data_type } => match op {
                UnaryOp::Pos => *expr,
                UnaryOp::Neg => match negated(value) {
                    Some(v) => ScalarExprView::Literal { value: v, data_type },
                    None => e,
                },
                _ => e,
            },
            _ => e,
        },
        _ => e,
    }
}

fn folded_literal(expr: &ScalarExpr) -> (out: Option<ScalarExpr>)
    ensures
        (match out {
            Some(x) => x@,
            None => expr@,
        }) == sign_folded(expr@),
{
    proof {
        reveal_with_fuel(ScalarExpr::view, 3);
    }
    if let ScalarExpr::Unary { op, expr: inner, .. } = expr {
        if let ScalarExpr::Literal { value, data_type } = &**inner {
            match op {
                UnaryOp::Pos => {
                    return Some(
                        ScalarExpr::Literal {
                            value: value.duplicate(),
                            data_type: data_type.duplicate(),
                        },
                    );
                },
                UnaryOp::Neg => {
                    return match negate(value) {
                        Some(v) => Some(
                            ScalarExpr::Literal { value: v, data_type: data_type.duplicate() },
                        ),
                        None => None,
                    };
                },
                _ => {},
            }
        }
    }
    None
}

/// Takes the sign before a literal into the literal.
pub fn fold_signed_literal(expr: &mut ScalarExpr)
    ensures
        final(expr)@ == sign_folded(old(expr)@),
{
    if let Some(x) = folded_literal(expr) {
        *expr = x;
    }
}

/// A text without its underscores.
pub open spec fn without_underscores(s: Seq<char>) -> Seq<char>
    decreases s.len(),
{
    if s.len() == 0 {
        Seq::empty()
    } else if s.last() == '_' {
        without_underscores(s.drop_last())
    } else {
        without_underscores(s.drop_last()).push(s.last())
    }
}

/// The smallest 64-bit integer, where the text stands for its magnitude.
pub open spec fn smallest_magnitude(s: Seq<char>) -> Option<i64> {
    if text::natural_value(without_underscores(s)) == Some(0x8000_0000_0000_0000int) {
        Some(i64::MIN)
    } else {
        None
    }
}

/// Reads the magnitude of the smallest 64-bit integer, which no positive literal
/// can hold.
pub fn parse_negative_i64_boundary(text: &str) -> (out: Option<i64>)
    ensures
        out == smallest_magnitude(text@),
{
    let s = chars_of(text);
    let mut kept: Vec<char> = Vec::new();
    let mut i: usize = 0;
    assert(s@.take(0) =~= Seq::empty());
    while i < s.len()
        invariant
            i <= s.len(),
            kept@ == without_underscores(s@.take(i as int)),
        decreases s.len() - i,
    {
        assert(s@.take(i + 1).drop_last() =~= s@.take(i as int));
        if s[i] != '_' {
            kept.push(s[i]);
        }
        i = i + 1;
    }
    assert(s@.take(i as int) =~= text@);
    let digits = text_of(&kept, 0, kept.len());
    assert(kept@.subrange(0, kept@.len() as int) =~= kept@);
    match read_wide(digits.as_str()) {
        Some(n) => if n == 0x8000_0000_0000_0000 {
            Some(i64::MIN)
        } else {
            None
        },
        None => None,
    }
}

/// The smallest 64-bit integer, where an expression is the literal of its
/// magnitude.
pub open spec fn smallest_magnitude_of(e: Expr) -> Option<i64> {
    match e {
        Expr::Literal(Literal::Integer { text }) => smallest_magnitude(text@),
        _ => None,
    }
}

/// Reads the magnitude of the smallest 64-bit integer from an expression.
pub fn parse_negative_i64_boundary_expr(expr: &Expr) -> (out: Option<i64>)
    ensures
        out == smallest_magnitude_of(*expr),
{
    match expr {
        Expr::Literal(Literal::Integer { text }) => parse_negative_i64_boundary(text.as_str()),
        _ => None,
    }
}

/// The digits of an exact decimal as an integer and the number of places after
/// the point: digits with at most one point among them, after an optional sign.
pub open spec fn decimal_value(s: Seq<char>) -> Option<(int, int)> {
    let t = text::trim(s);
    let negative = t.len() > 0 && t[0] == '-';
    let body = if t.len() > 0 && (t[0] == '-' || t[0] == '+') {
        t.skip(1)
    } else {
        t
    };
    let dot = clock::place_of(body, '.', 0, body.len() as int);
    let frac = if dot < body.len() {
        body.skip(dot + 1)
    } else {
        Seq::empty()
    };
    let digits = body.take(dot) + frac;
    if !text::all_digits(digits) || frac.len() > i32::MAX {
        None
    } else {
        let n = if negative {
            -text::nat_value(digits)
        } else {
            text::nat_value(digits)
        };
        if i64::MIN <= n <= i64::MAX {
            Some((n, frac.len() as int))
        } else {
            None
        }
    }
}

/// The exact decimal that a literal without exponent stands for.
pub open spec fn decimal_literal(s: Seq<char>) -> Option<(int, int)> {
    if s.contains('e') || s.contains('E') {
        None
    } else {
        decimal_value(s)
    }
}

fn holds_exponent(s: &Vec<char>) -> (yes: bool)
    ensures
        yes == (s@.contains('e') || s@.contains('E')),
{
    let mut i: usize = 0;
    while i < s.len()
        invariant
            i <= s.len(),
            forall|j: int| 0 <= j < i ==> (#[trigger] s@[j]) != 'e' && s@[j] != 'E',
        decreases s.len() - i,
    {
        if s[i] == 'e' || s[i] == 'E' {
            assert(s@[i as int] == 'e' || s@[i as int] == 'E');
            return true;
        }
        i = i + 1;
    }
    false
}

/// Reads an exact decimal.
pub fn read_decimal(text: &str) -> (out: Option<(i64, i32)>)
    ensures
        (match out {
            Some(t) => Some((t.0 as int, t.1 as int)),
            None => None,
        }) == decimal_value(text@),
{
    let t = trimmed(text);
    let s = chars_of(t.as_str());
    let negative = s.len() > 0 && s[0] == '-';
    let from: usize = if s.len() > 0 && (s[0] == '-' || s[0] == '+') {
        1
    } else {
        0
    };
    let ghost body = if from == 1 {
        t@.skip(1)
    } else {
        t@
    };
    assert(s@.subrange(from as int, s@.len() as int) =~= body);
    let dot: usize = clock::find_char(&s, '.', from, s.len());
    proof {
        place_in_rest(s@, '.', from as int, from as int, s@.len() as int);
    }
    let mut digits: Vec<char> = Vec::new();
    let mut i: usize = from;
    assert(s@.subrange(from as int, from as int) =~= Seq::empty());
    while i < dot
        invariant
            from <= i <= dot <= s.len(),
            digits@ == s@.subrange(from as int, i as int),
        decreases dot - i,
    {
        digits.push(s[i]);
        assert(digits@ =~= s@.subrange(from as int, i + 1));
        i = i + 1;
    }
    let ghost whole = digits@;
    let mut places: usize = 0;
    let start: usize = if dot < s.len() {
        dot + 1
    } else {
        s.len()
    };
    let ghost frac = s@.subrange(start as int, s@.len() as int);
    assert(whole + s@.subrange(start as int, start as int) =~= digits@);
    i = start;
    while i < s.len()
        invariant
            start <= i <= s.len(),
            places == i - start,
            digits@ == whole + s@.subrange(start as int, i as int),
        decreases s.len() - i,
    {
        digits.push(s[i]);
        assert(digits@ =~= whole + s@.subrange(start as int, i + 1));
        places = places + 1;
        i = i + 1;
    }
    assert(body.take(dot - from) =~= whole);
    assert(frac =~= if dot - from < body.len() {
        body.skip(dot - from + 1)
    } else {
        Seq::empty()
    });
    assert(digits@ =~= whole + frac);
    assert(digits@.subrange(0, digits@.len() as int) =~= digits@);
    let n: u128 = match text::read_digits(&digits, 0, digits.len()) {
        Some(n) => n,
        None => return None,
    };
    if places > 0x7fff_ffff {
        return None;
    }
    if negative {
        if n <= 0x8000_0000_0000_0000 {
            Some(((-(n as i128)) as i64, places as i32))
        } else {
            None
        }
    } else if n <= 0x7fff_ffff_ffff_ffff {
        Some((n as i64, places as i32))
    } else {
        None
    }
}

/// Reads an exact decimal literal.
pub fn parse_decimal_literal(text: &str) -> (out: Option<(i64, i32)>)
    ensures
        (match out {
            Some(t) => Some((t.0 as int, t.1 as int)),
            None => None,
        }) == decimal_literal(text@),
{
    let s = chars_of(text);
    if holds_exponent(&s) {
        return None;
    }
    read_decimal(text)
}

} // verus!
