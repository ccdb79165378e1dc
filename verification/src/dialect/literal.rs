//! What literals stand for, and the operations on them that need no row.
use crate::ast::{BinaryOp, Literal};
use crate::binder::typing;
use crate::datatype::{DataType, DataTypeView};
use crate::dialect::calendar::{fold_date_interval, parse_date_literal, parse_interval_literal};
use crate::dialect::clock::{
    parse_time_of_day_micros, parse_timestamp_literal, parse_timestamptz_literal,
    parse_timetz_literal,
};
use crate::dialect::coerce::{parse_bit_string, parse_pg_lsn_text, parse_vector_family_value};
use crate::dialect::json::{normalize_jsonb_text, validate_json_text};
use crate::dialect::number::{parse_decimal_literal, parse_oid_text};
use crate::dialect::reading::{Readings, ReadingsView};
use crate::dialect::typename::{
    parse_network_type_name, parse_vector_family_type_name, vector_family_cast_matches,
};
use crate::dialect::{calendar, clock, coerce, json, number, reading, typename};
use crate::error::{PlanError, PlanErrorView};
use crate::query::{ScalarExpr, ScalarExprView};
use crate::text::{owned, text_eq, to_lower};
use crate::value::{FloatValue, FloatValueView, Value, ValueView};
use crate::{error, text};
use vstd::prelude::*;

verus! {

/// A value of a type, or the null of that type.
pub open spec fn value_or_null(v: Option<ValueView>, t: DataTypeView) -> ScalarExprView {
    match v {
        Some(x) => typing::constant(x, t),
        None => typing::constant(ValueView::Null, t),
    }
}

fn make_value_or_null(v: Option<Value>, t: DataType) -> (made: ScalarExpr)
    ensures
        made@ == value_or_null(reading::value_of(v), t@),
{
    match v {
        Some(x) => ScalarExpr::Literal { value: x, data_type: t },
        None => ScalarExpr::Literal { value: Value::Null, data_type: t },
    }
}

/// A literal of a vector type. Its own dimensions are its type's.
pub open spec fn vector_constant(
    s: Seq<char>,
    declared: DataTypeView,
    r: ReadingsView,
) -> ScalarExprView {
    match coerce::vector_of_text(declared, s, r) {
        Some(v) => if typename::family_cast_agrees(declared, coerce::value_type(v)) {
            typing::constant(v, coerce::value_type(v))
        } else {
            typing::constant(ValueView::Null, declared)
        },
        None => typing::constant(ValueView::Null, declared),
    }
}

/// Binds a literal of a vector type.
pub fn bind_vector_family_literal(
    value: &str,
    declared_type: DataType,
    readings: &Readings,
) -> (made:
    ScalarExpr)
    ensures
        made@ == vector_constant(value@, declared_type@, readings@),
{
    match parse_vector_family_value(&declared_type, value, readings) {
        Some(parsed) => {
            let actual = parsed.data_type();
            if vector_family_cast_matches(&declared_type, &actual) {
                ScalarExpr::Literal { value: parsed, data_type: actual }
            } else {
                ScalarExpr::Literal { value: Value::Null, data_type: declared_type }
            }
        },
        None => ScalarExpr::Literal { value: Value::Null, data_type: declared_type },
    }
}

/// The bit-string type that a literal's type name stands for.
pub open spec fn bit_literal_type(name: Seq<char>, len: Option<u32>) -> DataTypeView {
    if name == "bit"@ {
        DataTypeView::Bit { len }
    } else {
        DataTypeView::VarBit { max_len: len }
    }
}

/// A bit-string literal. Its length is its type's.
pub open spec fn bit_constant(s: Seq<char>, name: Seq<char>, r: ReadingsView) -> ScalarExprView {
    match coerce::bits_of_text(s, r) {
        Some(bits) => typing::constant(
            ValueView::BitString(bits),
            bit_literal_type(name, Some(bits.len() as u32)),
        ),
        None => typing::constant(ValueView::Null, bit_literal_type(name, None)),
    }
}

/// Binds a bit-string literal.
pub fn bind_bit_string_literal(
    value: &str,
    type_text: &str,
    readings: &Readings,
) -> (made: ScalarExpr)
    ensures
        made@ == bit_constant(value@, type_text@, readings@),
{
    let parsed = parse_bit_string(value, readings);
    let len: Option<u32> = match &parsed {
        Some(bits) => Some(bits.len() as u32),
        None => None,
    };
    let data_type = if text_eq(type_text, "bit") {
        DataType::Bit { len }
    } else {
        DataType::VarBit { max_len: len }
    };
    match parsed {
        Some(bits) => ScalarExpr::Literal { value: Value::BitString(bits), data_type },
        None => ScalarExpr::Literal { value: Value::Null, data_type },
    }
}

/// A literal of a network address type. What cannot be read stays text.
pub open spec fn network_constant(
    s: Seq<char>,
    t: DataTypeView,
    r: ReadingsView,
) -> ScalarExprView {
    match reading::read_as(r, t, s) {
        Some(v) => typing::constant(v, t),
        None => typing::constant(ValueView::Text(s), t),
    }
}

/// Binds a literal of a network address type.
pub fn bind_network_literal(
    value: &str,
    data_type: DataType,
    readings: &Readings,
) -> (made: ScalarExpr)
    ensures
        made@ == network_constant(value@, data_type@, readings@),
{
    match readings.read(&data_type, value) {
        Some(parsed) => ScalarExpr::Literal { value: parsed, data_type },
        None => ScalarExpr::Literal { value: Value::Text(owned(value)), data_type },
    }
}

/// The interval that a literal stands for.
pub open spec fn interval_value(s: Seq<char>, unit: Option<Seq<char>>) -> Option<ValueView> {
    match calendar::interval_of(s, unit) {
        Some((months, days, micros)) => Some(
            ValueView::Interval {
                months: months as i32,
                days: days as i32,
                microseconds: micros as i64,
            },
        ),
        None => None,
    }
}

/// The value of a date or time literal, where its type name is one.
pub open spec fn temporal_constant(
    name: Seq<char>,
    s: Seq<char>,
    unit: Option<Seq<char>>,
    r: ReadingsView,
) -> Option<ScalarExprView> {
    if name == "date"@ {
        Some(
            value_or_null(
                match calendar::date_value(s) {
                    Some(n) => Some(ValueView::Date(n as i32)),
                    None => None,
                },
                DataTypeView::Date,
            ),
        )
    } else if name == "interval"@ {
        Some(value_or_null(interval_value(s, unit), DataTypeView::Interval))
    } else if name == "time"@ {
        Some(
            value_or_null(
                match clock::time_value(s, r) {
                    Some(n) => Some(ValueView::Time(n as i64)),
                    None => None,
                },
                DataTypeView::Time,
            ),
        )
    } else if name == "timetz"@ || name == "time with time zone"@ {
        Some(
            value_or_null(
                match clock::timetz_value(s, r) {
                    Some((n, o)) => Some(
                        ValueView::TimeTz { micros: n as i64, offset_seconds: o as i32 },
                    ),
                    None => None,
                },
                DataTypeView::TimeTz,
            ),
        )
    } else if name == "timestamp"@ {
        Some(
            value_or_null(
                match clock::timestamp_value(s, r) {
                    Some(n) => Some(ValueView::Timestamp(n as i64)),
                    None => None,
                },
                DataTypeView::Timestamp,
            ),
        )
    } else if name == "timestamptz"@ || name == "timestamp with time zone"@ {
        Some(
            value_or_null(
                match clock::timestamptz_value(s, r) {
                    Some(n) => Some(ValueView::TimestampTz(n as i64)),
                    None => None,
                },
                DataTypeView::TimestampTz,
            ),
        )
    } else {
        None
    }
}

/// An optional expression as a model.
pub open spec fn expr_of(e: Option<ScalarExpr>) -> Option<ScalarExprView> {
    match e {
        Some(x) => Some(x@),
        None => None,
    }
}

fn bind_temporal_literal(name: &str, value: &str, unit: Option<&str>, readings: &Readings) -> (made:
    Option<ScalarExpr>)
    ensures
        expr_of(made) == temporal_constant(
            name@,
            value@,
            match unit {
                Some(u) => Some(u@),
                None => None,
            },
            readings@,
        ),
{
    if text_eq(name, "date") {
        let v = match parse_date_literal(value) {
            Some(n) => Some(Value::Date(n)),
            None => None,
        };
        Some(make_value_or_null(v, DataType::Date))
    } else if text_eq(name, "interval") {
        let v = match parse_interval_literal(value, unit) {
            Some((months, days, microseconds)) => Some(
                Value::Interval { months, days, microseconds },
            ),
            None => None,
        };
        Some(make_value_or_null(v, DataType::Interval))
    } else if text_eq(name, "time") {
        let v = match parse_time_of_day_micros(value, readings) {
            Some(n) => Some(Value::Time(n)),
            None => None,
        };
        Some(make_value_or_null(v, DataType::Time))
    } else if text_eq(name, "timetz") || text_eq(name, "time with time zone") {
        let v = match parse_timetz_literal(value, readings) {
            Some((micros, offset_seconds)) => Some(Value::TimeTz { micros, offset_seconds }),
            None => None,
        };
        Some(make_value_or_null(v, DataType::TimeTz))
    } else if text_eq(name, "timestamp") {
        let v = match parse_timestamp_literal(value, readings) {
            Some(n) => Some(Value::Timestamp(n)),
            None => None,
        };
        Some(make_value_or_null(v, DataType::Timestamp))
    } else if text_eq(name, "timestamptz") || text_eq(name, "timestamp with time zone") {
        let v = match parse_timestamptz_literal(value, readings) {
            Some(n) => Some(Value::TimestampTz(n)),
            None => None,
        };
        Some(make_value_or_null(v, DataType::TimestampTz))
    } else {
        None
    }
}

/// A `json` literal, given its checked text, or a null of the type.
pub open spec fn json_constant(found: Option<Seq<char>>) -> ScalarExprView {
    value_or_null(
        match found {
            Some(x) => Some(ValueView::Json(x)),
            None => None,
        },
        DataTypeView::Json,
    )
}

/// Makes a `json` literal of a checked text.
pub fn make_json_constant(found: Option<String>) -> (made: ScalarExpr)
    ensures
        made@ == json_constant(json::text_view(found)),
{
    let v = match found {
        Some(x) => Some(Value::Json(x)),
        None => None,
    };
    make_value_or_null(v, DataType::Json)
}

/// A `jsonb` literal, given the compact text of its document, or a null of the
/// type.
pub open spec fn jsonb_constant(compact: Option<Seq<char>>) -> ScalarExprView {
    value_or_null(
        match compact {
            Some(x) => Some(ValueView::Jsonb(x)),
            None => None,
        },
        DataTypeView::Jsonb,
    )
}

/// Makes a `jsonb` literal of the compact text of its document.
pub fn make_jsonb_constant(compact: Option<String>) -> (made: ScalarExpr)
    ensures
        made@ == jsonb_constant(json::text_view(compact)),
{
    let v = match compact {
        Some(x) => Some(Value::Jsonb(x)),
        None => None,
    };
    make_value_or_null(v, DataType::Jsonb)
}

/// The value of a literal of another type.
pub open spec fn other_constant(name: Seq<char>, s: Seq<char>, r: ReadingsView) -> ScalarExprView {
    if name == "json"@ {
        json_constant(json::json_text(s))
    } else if name == "jsonb"@ {
        jsonb_constant(json::json_compact(s))
    } else if name == "xml"@ {
        value_or_null(reading::read_as(r, DataTypeView::Xml, s), DataTypeView::Xml)
    } else if name == "money"@ {
        value_or_null(reading::read_as(r, DataTypeView::Money, s), DataTypeView::Money)
    } else if name == "oid"@ {
        value_or_null(
            match number::oid_of_text(s, r) {
                Some(n) => Some(ValueView::Oid(n)),
                None => None,
            },
            DataTypeView::Oid,
        )
    } else if name == "pg_lsn"@ {
        value_or_null(
            match coerce::lsn_of_text(s, r) {
                Some(n) => Some(ValueView::PgLsn(n)),
                None => None,
            },
            DataTypeView::PgLsn,
        )
    } else if name == "tsvector"@ {
        typing::constant(ValueView::Text(s), DataTypeView::TsVector)
    } else if name == "tsquery"@ {
        typing::constant(ValueView::Text(s), DataTypeView::TsQuery)
    } else {
        typing::null_constant()
    }
}

fn bind_other_literal(name: &str, value: &str, readings: &Readings) -> (made: ScalarExpr)
    ensures
        made@ == other_constant(name@, value@, readings@),
{
    if text_eq(name, "json") {
        make_json_constant(validate_json_text(value))
    } else if text_eq(name, "jsonb") {
        make_jsonb_constant(normalize_jsonb_text(value))
    } else if text_eq(name, "xml") {
        make_value_or_null(readings.read(&DataType::Xml, value), DataType::Xml)
    } else if text_eq(name, "money") {
        make_value_or_null(readings.read(&DataType::Money, value), DataType::Money)
    } else if text_eq(name, "oid") {
        let v = match parse_oid_text(value, readings) {
            Some(n) => Some(Value::Oid(n)),
            None => None,
        };
        make_value_or_null(v, DataType::Oid)
    } else if text_eq(name, "pg_lsn") {
        let v = match parse_pg_lsn_text(value, readings) {
            Some(n) => Some(Value::PgLsn(n)),
            None => None,
        };
        make_value_or_null(v, DataType::PgLsn)
    } else if text_eq(name, "tsvector") {
        ScalarExpr::Literal { value: Value::Text(owned(value)), data_type: DataType::TsVector }
    } else if text_eq(name, "tsquery") {
        ScalarExpr::Literal { value: Value::Text(owned(value)), data_type: DataType::TsQuery }
    } else {
        ScalarExpr::Literal { value: Value::Null, data_type: DataType::Null }
    }
}

/// What a literal with a type name, such as `DATE '2000-01-01'`, is bound to.
/// A text that its type does not read is the null of that type, and a literal
/// of an unknown type is the untyped null.
pub open spec fn typed_constant(
    ty: Seq<char>,
    s: Seq<char>,
    unit: Option<Seq<char>>,
    r: ReadingsView,
) -> ScalarExprView {
    let name = text::lower(ty);
    match typename::vector_type(name) {
        Some(t) => vector_constant(s, t, r),
        None => if name == "bit"@ || name == "varbit"@ || name == "bit varying"@ {
            bit_constant(s, name, r)
        } else {
            match typename::network_type(name) {
                Some(t) => network_constant(s, t, r),
                None => match temporal_constant(name, s, unit, r) {
                    Some(e) => e,
                    None => other_constant(name, s, r),
                },
            }
        },
    }
}

/// Binds a literal with a type name.
pub fn bind_typed_literal(ty: &str, value: &str, unit: Option<&str>, readings: &Readings) -> (made:
    ScalarExpr)
    ensures
        made@ == typed_constant(
            ty@,
            value@,
            match unit {
                Some(u) => Some(u@),
                None => None,
            },
            readings@,
        ),
{
    let folded = to_lower(ty);
    let name = folded.as_str();
    if let Some(t) = parse_vector_family_type_name(name) {
        return bind_vector_family_literal(value, t, readings);
    }
    if text_eq(name, "bit") || text_eq(name, "varbit") || text_eq(name, "bit varying") {
        return bind_bit_string_literal(value, name, readings);
    }
    if let Some(t) = parse_network_type_name(name) {
        return bind_network_literal(value, t, readings);
    }
    match bind_temporal_literal(name, value, unit, readings) {
        Some(e) => e,
        None => bind_other_literal(name, value, readings),
    }
}

/// What a number with a point or an exponent is bound to: an exact decimal
/// where it is one, and otherwise the floating-point number nearest to it.
pub open spec fn numeric_constant(s: Seq<char>, nearest: FloatValueView) -> ScalarExprView {
    match number::decimal_literal(s) {
        Some((value, scale)) => typing::constant(
            ValueView::Decimal { value: value as i64, scale: scale as i32 },
            DataTypeView::Decimal { precision: None, scale: Some(scale as i32) },
        ),
        None => typing::constant(ValueView::Float64(nearest), DataTypeView::Float64),
    }
}

/// Binds a number with a point or an exponent.
pub fn bind_numeric_literal(s: &str, nearest: &FloatValue) -> (made: ScalarExpr)
    ensures
        made@ == numeric_constant(s@, nearest@),
{
    match parse_decimal_literal(s) {
        Some((value, scale)) => ScalarExpr::Literal {
            value: Value::Decimal { value, scale },
            data_type: DataType::Decimal { precision: None, scale: Some(scale) },
        },
        None => ScalarExpr::Literal {
            value: Value::Float64(nearest.duplicate()),
            data_type: DataType::Float64,
        },
    }
}

/// What a literal is bound to.
pub open spec fn literal_value(lit: Literal, r: ReadingsView) -> ScalarExprView {
    match lit {
        Literal::Float { text, value } => numeric_constant(text@, value@),
        Literal::Typed { ty, value, unit } => typed_constant(
            ty@,
            value@,
            match unit {
                Some(u) => Some(u@),
                None => None,
            },
            r,
        ),
        _ => typing::literal_constant(lit),
    }
}

/// Binds a literal.
pub fn bind_literal(lit: &Literal, readings: &Readings) -> (made: ScalarExpr)
    ensures
        made@ == literal_value(*lit, readings@),
{
    match lit {
        Literal::Float { text, value } => bind_numeric_literal(text.as_str(), value),
        Literal::Typed { ty, value, unit } => match unit {
            Some(u) => bind_typed_literal(ty.as_str(), value.as_str(), Some(u.as_str()), readings),
            None => bind_typed_literal(ty.as_str(), value.as_str(), None, readings),
        },
        _ => typing::bind_literal(lit),
    }
}

/// A number as a floating-point number.
pub open spec fn as_float(v: ValueView) -> Option<FloatValueView> {
    match v {
        ValueView::Int16(n) => Some(FloatValueView::Integer(n as i64)),
        ValueView::Int32(n) => Some(FloatValueView::Integer(n as i64)),
        ValueView::Int64(n) => Some(FloatValueView::Integer(n)),
        ValueView::Float32(x) => Some(FloatValueView::Single(Box::new(x))),
        ValueView::Float64(x) => Some(x),
        ValueView::Decimal { value, scale } => Some(FloatValueView::Decimal { value, scale }),
        _ => None,
    }
}

/// An optional floating-point number as a model.
pub open spec fn float_of(x: Option<FloatValue>) -> Option<FloatValueView> {
    match x {
        Some(f) => Some(f@),
        None => None,
    }
}

/// Turns a number into a floating-point number.
pub fn literal_numeric_as_float(value: &Value) -> (out: Option<FloatValue>)
    ensures
        float_of(out) == as_float(value@),
{
    match value {
        Value::Int16(n) => Some(FloatValue::Integer(*n as i64)),
        Value::Int32(n) => Some(FloatValue::Integer(*n as i64)),
        Value::Int64(n) => Some(FloatValue::Integer(*n)),
        Value::Float32(x) => Some(FloatValue::Single(Box::new(x.duplicate()))),
        Value::Float64(x) => Some(x.duplicate()),
        Value::Decimal { value: n, scale } => Some(
            FloatValue::Decimal { value: *n, scale: *scale },
        ),
        _ => None,
    }
}

/// Whether a value is a floating-point number.
pub fn is_float_like_literal(value: &Value) -> (yes: bool)
    ensures
        yes == (value@ is Float32 || value@ is Float64),
{
    matches!(value, Value::Float32(_) | Value::Float64(_))
}

/// Whether a floating-point number is known to differ from zero.
pub open spec fn known_nonzero(x: FloatValueView, r: ReadingsView) -> bool {
    match x {
        FloatValueView::Integer(n) => n != 0,
        FloatValueView::Decimal { value, scale } if -300 <= scale <= 300 => value != 0,
        _ => match reading::rendered(r, x, None, false) {
            Some(s) => s != "0"@ && s != "-0"@,
            None => false,
        },
    }
}

fn is_known_nonzero(x: &FloatValue, readings: &Readings) -> (yes: bool)
    ensures
        yes == known_nonzero(x@, readings@),
{
    match x {
        FloatValue::Integer(n) => *n != 0,
        FloatValue::Decimal { value, scale } if -300 <= *scale && *scale <= 300 => *value != 0,
        _ => match readings.render(x, None, false) {
            Some(s) => !text_eq(s.as_str(), "0") && !text_eq(s.as_str(), "-0"),
            None => false,
        },
    }
}

/// An operation on floating-point numbers. A quotient is computed only where
/// its divisor is known to differ from zero.
pub open spec fn float_operation(
    op: BinaryOp,
    a: FloatValueView,
    b: FloatValueView,
    r: ReadingsView,
) -> Option<FloatValueView> {
    match op {
        BinaryOp::Add => Some(FloatValueView::Sum(Box::new(a), Box::new(b))),
        BinaryOp::Sub => Some(FloatValueView::Difference(Box::new(a), Box::new(b))),
        BinaryOp::Mul => Some(FloatValueView::Product(Box::new(a), Box::new(b))),
        BinaryOp::Div => if known_nonzero(b, r) {
            Some(FloatValueView::Quotient(Box::new(a), Box::new(b)))
        } else {
            None
        },
        _ => None,
    }
}

fn make_float_operation(
    op: BinaryOp,
    a: FloatValue,
    b: FloatValue,
    readings: &Readings,
) -> (out: Option<
    FloatValue,
>)
    ensures
        float_of(out) == float_operation(op, a@, b@, readings@),
{
    match op {
        BinaryOp::Add => Some(FloatValue::Sum(Box::new(a), Box::new(b))),
        BinaryOp::Sub => Some(FloatValue::Difference(Box::new(a), Box::new(b))),
        BinaryOp::Mul => Some(FloatValue::Product(Box::new(a), Box::new(b))),
        BinaryOp::Div => if is_known_nonzero(&b, readings) {
            Some(FloatValue::Quotient(Box::new(a), Box::new(b)))
        } else {
            None
        },
        _ => None,
    }
}

/// A date less an interval.
pub open spec fn date_less_interval(date: i32, months: i32, days: i32, micros: i64) -> Result<
    ScalarExprView,
    PlanErrorView,
> {
    if months == i32::MIN {
        Err(calendar::date_overflow("date interval month overflow"@))
    } else if days == i32::MIN {
        Err(calendar::date_overflow("date interval day overflow"@))
    } else if micros == i64::MIN {
        Err(calendar::date_overflow("date interval microsecond overflow"@))
    } else {
        calendar::moved_date(date as int, -months, -days, -micros)
    }
}

fn subtract_interval(date: i32, months: i32, days: i32, micros: i64) -> (made: Result<
    ScalarExpr,
    PlanError,
>)
    ensures
        error::scalar_outcome(made) == date_less_interval(date, months, days, micros),
{
    if months == i32::MIN {
        return Err(PlanError::TypeMismatch(owned("date interval month overflow")));
    }
    if days == i32::MIN {
        return Err(PlanError::TypeMismatch(owned("date interval day overflow")));
    }
    if micros == i64::MIN {
        return Err(PlanError::TypeMismatch(owned("date interval microsecond overflow")));
    }
    fold_date_interval(date, -months, -days, -micros)
}

/// The operation on two floating-point numbers, or on one and another number,
/// where it needs no row.
pub open spec fn float_folded(op: BinaryOp, l: ValueView, rv: ValueView, r: ReadingsView) -> Option<
    ScalarExprView,
> {
    if l is Float32 || l is Float64 || rv is Float32 || rv is Float64 {
        match (as_float(l), as_float(rv)) {
            (Some(a), Some(b)) => match float_operation(op, a, b, r) {
                Some(x) => Some(typing::constant(ValueView::Float64(x), DataTypeView::Float64)),
                None => None,
            },
            _ => None,
        }
    } else {
        None
    }
}

fn fold_floats(
    op: BinaryOp,
    l: &Value,
    rv: &Value,
    readings: &Readings,
) -> (made: Option<ScalarExpr>)
    ensures
        expr_of(made) == float_folded(op, l@, rv@, readings@),
{
    if !is_float_like_literal(l) && !is_float_like_literal(rv) {
        return None;
    }
    match (literal_numeric_as_float(l), literal_numeric_as_float(rv)) {
        (Some(a), Some(b)) => match make_float_operation(op, a, b, readings) {
            Some(x) => Some(
                ScalarExpr::Literal { value: Value::Float64(x), data_type: DataType::Float64 },
            ),
            None => None,
        },
        _ => None,
    }
}

/// The operation on two values, where it needs no row: a date moved by an
/// interval, or floating-point arithmetic.
pub open spec fn values_folded(
    op: BinaryOp,
    l: ValueView,
    rv: ValueView,
    r: ReadingsView,
) -> Result<
    Option<ScalarExprView>,
    PlanErrorView,
> {
    match (op, l, rv) {
        (
            BinaryOp::Add,
            ValueView::Date(date),
            ValueView::Interval { months, days, microseconds },
        ) => some_made(calendar::moved_date(date as int, months as int, days as int, microseconds as int)),
        (
            BinaryOp::Add,
            ValueView::Interval { months, days, microseconds },
            ValueView::Date(date),
        ) => some_made(calendar::moved_date(date as int, months as int, days as int, microseconds as int)),
        (
            BinaryOp::Sub,
            ValueView::Date(date),
            ValueView::Interval { months, days, microseconds },
        ) => some_made(date_less_interval(date, months, days, microseconds)),
        _ => Ok(float_folded(op, l, rv, r)),
    }
}

/// What was made, if it was made without an error.
pub open spec fn some_made(e: Result<ScalarExprView, PlanErrorView>) -> Result<
    Option<ScalarExprView>,
    PlanErrorView,
> {
    match e {
        Ok(x) => Ok(Some(x)),
        Err(err) => Err(err),
    }
}

/// An optional expression with its outcome as models.
pub open spec fn option_outcome(r: Result<Option<ScalarExpr>, PlanError>) -> Result<
    Option<ScalarExprView>,
    PlanErrorView,
> {
    match r {
        Ok(x) => Ok(expr_of(x)),
        Err(e) => Err(e@),
    }
}

fn fold_values(op: BinaryOp, l: &Value, rv: &Value, readings: &Readings) -> (made: Result<
    Option<ScalarExpr>,
    PlanError,
>)
    ensures
        option_outcome(made) == values_folded(op, l@, rv@, readings@),
{
    match (op, l, rv) {
        (BinaryOp::Add, Value::Date(date), Value::Interval { months, days, microseconds }) => {
            let x = fold_date_interval(*date, *months, *days, *microseconds)?;
            Ok(Some(x))
        },
        (BinaryOp::Add, Value::Interval { months, days, microseconds }, Value::Date(date)) => {
            let x = fold_date_interval(*date, *months, *days, *microseconds)?;
            Ok(Some(x))
        },
        (BinaryOp::Sub, Value::Date(date), Value::Interval { months, days, microseconds }) => {
            let x = subtract_interval(*date, *months, *days, *microseconds)?;
            Ok(Some(x))
        },
        _ => Ok(fold_floats(op, l, rv, readings)),
    }
}

/// The operation on two bound operands, where both are literals and it needs no
/// row.
pub open spec fn literals_folded(
    op: BinaryOp,
    l: ScalarExprView,
    rv: ScalarExprView,
    r: ReadingsView,
) -> Result<
    Option<ScalarExprView>,
    PlanErrorView,
> {
    match (l, rv) {
        (ScalarExprView::Literal { value: a, .. }, ScalarExprView::Literal { value: b, .. }) => {
            values_folded(op, a, b, r)
        },
        _ => Ok(None),
    }
}

/// Computes an operation on two literals, where it needs no row.
pub fn try_fold_literal_binary(
    op: BinaryOp,
    left: &ScalarExpr,
    right: &ScalarExpr,
    readings: &Readings,
) -> (made: Result<Option<ScalarExpr>, PlanError>)
    ensures
        option_outcome(made) == literals_folded(op, left@, right@, readings@),
{
    match (left, right) {
        (ScalarExpr::Literal { value: a, .. }, ScalarExpr::Literal { value: b, .. }) => {
            fold_values(op, a, b, readings)
        },
        _ => Ok(None),
    }
}

/// A date moved forth by an interval is the date moved back by the opposite
/// interval.
pub proof fn adding_and_subtracting_are_opposite(
    date: i32,
    months: i32,
    days: i32,
    micros: i64,
    r: ReadingsView,
)
    requires
        months != i32::MIN,
        days != i32::MIN,
        micros != i64::MIN,
    ensures
        values_folded(
            BinaryOp::Sub,
            ValueView::Date(date),
            ValueView::Interval { months, days, microseconds: micros },
            r,
        ) == values_folded(
            BinaryOp::Add,
            ValueView::Date(date),
            ValueView::Interval {
                months: (-months) as i32,
                days: (-days) as i32,
                microseconds: (-micros) as i64,
            },
            r,
        ),
{
}

/// Adding a date to an interval is adding the interval to the date.
pub proof fn adding_dates_commutes(
    date: i32,
    months: i32,
    days: i32,
    micros: i64,
    r: ReadingsView,
)
    ensures
        values_folded(
            BinaryOp::Add,
            ValueView::Date(date),
            ValueView::Interval { months, days, microseconds: micros },
            r,
        ) == values_folded(
            BinaryOp::Add,
            ValueView::Interval { months, days, microseconds: micros },
            ValueView::Date(date),
            r,
        ),
{
}

} // verus!
