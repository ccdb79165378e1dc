//! Constants and their models.
use crate::datatype::{DataType, DataTypeView, GeometryType, RangeType};
use crate::list::{copy_list, same_bytes, same_flags};
use crate::text::text_eq;
use vstd::prelude::*;

verus! {

/// The family of a network address.
#[derive(Debug, Clone, Copy, PartialEq, Eq, Structural)]
pub enum NetworkKind {
    Inet,
    Cidr,
    MacAddr,
    MacAddr8,
}

/// The family of a vector value.
#[derive(Debug, Clone, Copy, PartialEq, Eq, Structural)]
pub enum VectorKind {
    Vector,
    HalfVec,
    SparseVec,
    BitVec,
}

/// A floating-point number as the computation that yields it.
/// `Bits` is a double by its bit pattern, with its decimal rendering; `Integer`
/// and `Decimal` are the numbers nearest to an integer and to `value / 10^scale`;
/// `Single` is its operand computed in single precision.
#[derive(Debug, PartialEq)]
pub enum FloatValue {
    Bits { bits: u64, shown: String },
    Integer(i64),
    Decimal { value: i64, scale: i32 },
    Single(Box<FloatValue>),
    Negated(Box<FloatValue>),
    Sum(Box<FloatValue>, Box<FloatValue>),
    Difference(Box<FloatValue>, Box<FloatValue>),
    Product(Box<FloatValue>, Box<FloatValue>),
    Quotient(Box<FloatValue>, Box<FloatValue>),
}

/// The model of a [`FloatValue`].
pub enum FloatValueView {
    Bits { bits: u64, shown: Seq<char> },
    Integer(i64),
    Decimal { value: i64, scale: i32 },
    Single(Box<FloatValueView>),
    Negated(Box<FloatValueView>),
    Sum(Box<FloatValueView>, Box<FloatValueView>),
    Difference(Box<FloatValueView>, Box<FloatValueView>),
    Product(Box<FloatValueView>, Box<FloatValueView>),
    Quotient(Box<FloatValueView>, Box<FloatValueView>),
}

impl FloatValue {
    pub open spec fn view(&self) -> FloatValueView
        decreases self,
    {
        match self {
            FloatValue::Bits { bits, shown } => FloatValueView::Bits { bits: *bits, shown: shown@ },
            FloatValue::Integer(x0) => FloatValueView::Integer(*x0),
            FloatValue::Decimal { value, scale } => FloatValueView::Decimal {
                value: *value,
                scale: *scale,
            },
            FloatValue::Single(x0) => FloatValueView::Single(Box::new(x0.view())),
            FloatValue::Negated(x0) => FloatValueView::Negated(Box::new(x0.view())),
            FloatValue::Sum(x0, x1) => FloatValueView::Sum(
                Box::new(x0.view()),
                Box::new(x1.view()),
            ),
            FloatValue::Difference(x0, x1) => FloatValueView::Difference(
                Box::new(x0.view()),
                Box::new(x1.view()),
            ),
            FloatValue::Product(x0, x1) => FloatValueView::Product(
                Box::new(x0.view()),
                Box::new(x1.view()),
            ),
            FloatValue::Quotient(x0, x1) => FloatValueView::Quotient(
                Box::new(x0.view()),
                Box::new(x1.view()),
            ),
        }
    }

    pub fn duplicate(&self) -> (copy: FloatValue)
        ensures
            copy@ == self@,
        decreases self, 0int,
    {
        match self {
            FloatValue::Bits { bits, shown } => FloatValue::Bits {
                bits: *bits,
                shown: shown.clone(),
            },
            FloatValue::Integer(x0) => FloatValue::Integer(*x0),
            FloatValue::Decimal { value, scale } => FloatValue::Decimal {
                value: *value,
                scale: *scale,
            },
            FloatValue::Single(x0) => FloatValue::Single(Box::new(x0.duplicate())),
            FloatValue::Negated(x0) => FloatValue::Negated(Box::new(x0.duplicate())),
            FloatValue::Sum(x0, x1) => FloatValue::Sum(
                Box::new(x0.duplicate()),
                Box::new(x1.duplicate()),
            ),
            FloatValue::Difference(x0, x1) => FloatValue::Difference(
                Box::new(x0.duplicate()),
                Box::new(x1.duplicate()),
            ),
            FloatValue::Product(x0, x1) => FloatValue::Product(
                Box::new(x0.duplicate()),
                Box::new(x1.duplicate()),
            ),
            FloatValue::Quotient(x0, x1) => FloatValue::Quotient(
                Box::new(x0.duplicate()),
                Box::new(x1.duplicate()),
            ),
        }
    }

    pub fn same(&self, other: &FloatValue) -> (yes: bool)
        ensures
            yes == (self@ == other@),
        decreases self, 0int,
    {
        match (self, other) {
            (FloatValue::Bits { bits, shown }, FloatValue::Bits { bits: bits2, shown: shown2 }) => {
                let eq_bits = *bits == *bits2;
                let eq_shown = text_eq(shown.as_str(), shown2.as_str());
                eq_bits && eq_shown
            },
            (FloatValue::Integer(x0), FloatValue::Integer(x02)) => *x0 == *x02,
            (
                FloatValue::Decimal { value, scale },
                FloatValue::Decimal { value: value2, scale: scale2 },
            ) => {
                let eq_value = *value == *value2;
                let eq_scale = *scale == *scale2;
                eq_value && eq_scale
            },
            (FloatValue::Single(x0), FloatValue::Single(x02)) => x0.same(x02),
            (FloatValue::Negated(x0), FloatValue::Negated(x02)) => x0.same(x02),
            (FloatValue::Sum(x0, x1), FloatValue::Sum(x02, x12)) => {
                let eq_x0 = x0.same(x02);
                let eq_x1 = x1.same(x12);
                eq_x0 && eq_x1
            },
            (FloatValue::Difference(x0, x1), FloatValue::Difference(x02, x12)) => {
                let eq_x0 = x0.same(x02);
                let eq_x1 = x1.same(x12);
                eq_x0 && eq_x1
            },
            (FloatValue::Product(x0, x1), FloatValue::Product(x02, x12)) => {
                let eq_x0 = x0.same(x02);
                let eq_x1 = x1.same(x12);
                eq_x0 && eq_x1
            },
            (FloatValue::Quotient(x0, x1), FloatValue::Quotient(x02, x12)) => {
                let eq_x0 = x0.same(x02);
                let eq_x1 = x1.same(x12);
                eq_x0 && eq_x1
            },
            _ => false,
        }
    }

}

/// A constant.
/// Network addresses, ranges, geometric shapes and vectors are held by their text.
#[derive(Debug, PartialEq)]
pub enum Value {
    Null,
    Bool(bool),
    Int16(i16),
    Int32(i32),
    Int64(i64),
    Float32(FloatValue),
    Float64(FloatValue),
    Decimal { value: i64, scale: i32 },
    Money(i64),
    Text(String),
    Char(String),
    Json(String),
    Jsonb(String),
    Xml(String),
    Bytea(Vec<u8>),
    Uuid(u128),
    Date(i32),
    Time(i64),
    TimeTz { micros: i64, offset_seconds: i32 },
    Timestamp(i64),
    TimestampTz(i64),
    Interval { months: i32, days: i32, microseconds: i64 },
    Oid(u32),
    RegClass(u32),
    RegType(u32),
    PgLsn(u64),
    BitString(Vec<bool>),
    Network { kind: NetworkKind, text: String },
    Range { range_type: RangeType, text: String },
    Geometry { geometry_type: GeometryType, text: String },
    Vector { family: VectorKind, dims: u32, text: String },
    Array { element_type: DataType, elements: Vec<Value> },
}

/// The model of a [`Value`].
pub enum ValueView {
    Null,
    Bool(bool),
    Int16(i16),
    Int32(i32),
    Int64(i64),
    Float32(FloatValueView),
    Float64(FloatValueView),
    Decimal { value: i64, scale: i32 },
    Money(i64),
    Text(Seq<char>),
    Char(Seq<char>),
    Json(Seq<char>),
    Jsonb(Seq<char>),
    Xml(Seq<char>),
    Bytea(Seq<u8>),
    Uuid(u128),
    Date(i32),
    Time(i64),
    TimeTz { micros: i64, offset_seconds: i32 },
    Timestamp(i64),
    TimestampTz(i64),
    Interval { months: i32, days: i32, microseconds: i64 },
    Oid(u32),
    RegClass(u32),
    RegType(u32),
    PgLsn(u64),
    BitString(Seq<bool>),
    Network { kind: NetworkKind, text: Seq<char> },
    Range { range_type: RangeType, text: Seq<char> },
    Geometry { geometry_type: GeometryType, text: Seq<char> },
    Vector { family: VectorKind, dims: u32, text: Seq<char> },
    Array { element_type: DataTypeView, elements: Seq<ValueView> },
}

impl Value {
    pub open spec fn view(&self) -> ValueView
        decreases self,
    {
        match self {
            Value::Null => ValueView::Null,
            Value::Bool(x0) => ValueView::Bool(*x0),
            Value::Int16(x0) => ValueView::Int16(*x0),
            Value::Int32(x0) => ValueView::Int32(*x0),
            Value::Int64(x0) => ValueView::Int64(*x0),
            Value::Float32(x0) => ValueView::Float32(x0.view()),
            Value::Float64(x0) => ValueView::Float64(x0.view()),
            Value::Decimal { value, scale } => ValueView::Decimal { value: *value, scale: *scale },
            Value::Money(x0) => ValueView::Money(*x0),
            Value::Text(x0) => ValueView::Text(x0@),
            Value::Char(x0) => ValueView::Char(x0@),
            Value::Json(x0) => ValueView::Json(x0@),
            Value::Jsonb(x0) => ValueView::Jsonb(x0@),
            Value::Xml(x0) => ValueView::Xml(x0@),
            Value::Bytea(x0) => ValueView::Bytea(x0@),
            Value::Uuid(x0) => ValueView::Uuid(*x0),
            Value::Date(x0) => ValueView::Date(*x0),
            Value::Time(x0) => ValueView::Time(*x0),
            Value::TimeTz { micros, offset_seconds } => ValueView::TimeTz {
                micros: *micros,
                offset_seconds: *offset_seconds,
            },
            Value::Timestamp(x0) => ValueView::Timestamp(*x0),
            Value::TimestampTz(x0) => ValueView::TimestampTz(*x0),
            Value::Interval { months, days, microseconds } => ValueView::Interval {
                months: *months,
                days: *days,
                microseconds: *microseconds,
            },
            Value::Oid(x0) => ValueView::Oid(*x0),
            Value::RegClass(x0) => ValueView::RegClass(*x0),
            Value::RegType(x0) => ValueView::RegType(*x0),
            Value::PgLsn(x0) => ValueView::PgLsn(*x0),
            Value::BitString(x0) => ValueView::BitString(x0@),
            Value::Network { kind, text } => ValueView::Network { kind: *kind, text: text@ },
            Value::Range { range_type, text } => ValueView::Range {
                range_type: *range_type,
                text: text@,
            },
            Value::Geometry { geometry_type, text } => ValueView::Geometry {
                geometry_type: *geometry_type,
                text: text@,
            },
            Value::Vector { family, dims, text } => ValueView::Vector {
                family: *family,
                dims: *dims,
                text: text@,
            },
            Value::Array { element_type, elements } => ValueView::Array {
                element_type: element_type.view(),
                elements: values_view(elements@),
            },
        }
    }

    pub fn duplicate(&self) -> (copy: Value)
        ensures
            copy@ == self@,
        decreases self, 0int,
    {
        match self {
            Value::Null => Value::Null,
            Value::Bool(x0) => Value::Bool(*x0),
            Value::Int16(x0) => Value::Int16(*x0),
            Value::Int32(x0) => Value::Int32(*x0),
            Value::Int64(x0) => Value::Int64(*x0),
            Value::Float32(x0) => Value::Float32(x0.duplicate()),
            Value::Float64(x0) => Value::Float64(x0.duplicate()),
            Value::Decimal { value, scale } => Value::Decimal { value: *value, scale: *scale },
            Value::Money(x0) => Value::Money(*x0),
            Value::Text(x0) => Value::Text(x0.clone()),
            Value::Char(x0) => Value::Char(x0.clone()),
            Value::Json(x0) => Value::Json(x0.clone()),
            Value::Jsonb(x0) => Value::Jsonb(x0.clone()),
            Value::Xml(x0) => Value::Xml(x0.clone()),
            Value::Bytea(x0) => Value::Bytea(copy_list(x0)),
            Value::Uuid(x0) => Value::Uuid(*x0),
            Value::Date(x0) => Value::Date(*x0),
            Value::Time(x0) => Value::Time(*x0),
            Value::TimeTz { micros, offset_seconds } => Value::TimeTz {
                micros: *micros,
                offset_seconds: *offset_seconds,
            },
            Value::Timestamp(x0) => Value::Timestamp(*x0),
            Value::TimestampTz(x0) => Value::TimestampTz(*x0),
            Value::Interval { months, days, microseconds } => Value::Interval {
                months: *months,
                days: *days,
                microseconds: *microseconds,
            },
            Value::Oid(x0) => Value::Oid(*x0),
            Value::RegClass(x0) => Value::RegClass(*x0),
            Value::RegType(x0) => Value::RegType(*x0),
            Value::PgLsn(x0) => Value::PgLsn(*x0),
            Value::BitString(x0) => Value::BitString(copy_list(x0)),
            Value::Network { kind, text } => Value::Network { kind: *kind, text: text.clone() },
            Value::Range { range_type, text } => Value::Range {
                range_type: *range_type,
                text: text.clone(),
            },
            Value::Geometry { geometry_type, text } => Value::Geometry {
                geometry_type: *geometry_type,
                text: text.clone(),
            },
            Value::Vector { family, dims, text } => Value::Vector {
                family: *family,
                dims: *dims,
                text: text.clone(),
            },
            Value::Array { element_type, elements } => Value::Array {
                element_type: element_type.duplicate(),
                elements: duplicate_values(elements),
            },
        }
    }

    pub fn same(&self, other: &Value) -> (yes: bool)
        ensures
            yes == (self@ == other@),
        decreases self, 0int,
    {
        match (self, other) {
            (Value::Null, Value::Null) => true,
            (Value::Bool(x0), Value::Bool(x02)) => *x0 == *x02,
            (Value::Int16(x0), Value::Int16(x02)) => *x0 == *x02,
            (Value::Int32(x0), Value::Int32(x02)) => *x0 == *x02,
            (Value::Int64(x0), Value::Int64(x02)) => *x0 == *x02,
            (Value::Float32(x0), Value::Float32(x02)) => x0.same(x02),
            (Value::Float64(x0), Value::Float64(x02)) => x0.same(x02),
            (Value::Decimal { value, scale }, Value::Decimal { value: value2, scale: scale2 }) => {
                let eq_value = *value == *value2;
                let eq_scale = *scale == *scale2;
                eq_value && eq_scale
            },
            (Value::Money(x0), Value::Money(x02)) => *x0 == *x02,
            (Value::Text(x0), Value::Text(x02)) => text_eq(x0.as_str(), x02.as_str()),
            (Value::Char(x0), Value::Char(x02)) => text_eq(x0.as_str(), x02.as_str()),
            (Value::Json(x0), Value::Json(x02)) => text_eq(x0.as_str(), x02.as_str()),
            (Value::Jsonb(x0), Value::Jsonb(x02)) => text_eq(x0.as_str(), x02.as_str()),
            (Value::Xml(x0), Value::Xml(x02)) => text_eq(x0.as_str(), x02.as_str()),
            (Value::Bytea(x0), Value::Bytea(x02)) => same_bytes(x0, x02),
            (Value::Uuid(x0), Value::Uuid(x02)) => *x0 == *x02,
            (Value::Date(x0), Value::Date(x02)) => *x0 == *x02,
            (Value::Time(x0), Value::Time(x02)) => *x0 == *x02,
            (
                Value::TimeTz { micros, offset_seconds },
                Value::TimeTz { micros: micros2, offset_seconds: offset_seconds2 },
            ) => {
                let eq_micros = *micros == *micros2;
                let eq_offset_seconds = *offset_seconds == *offset_seconds2;
                eq_micros && eq_offset_seconds
            },
            (Value::Timestamp(x0), Value::Timestamp(x02)) => *x0 == *x02,
            (Value::TimestampTz(x0), Value::TimestampTz(x02)) => *x0 == *x02,
            (
                Value::Interval { months, days, microseconds },
                Value::Interval { months: months2, days: days2, microseconds: microseconds2 },
            ) => {
                let eq_months = *months == *months2;
                let eq_days = *days == *days2;
                let eq_microseconds = *microseconds == *microseconds2;
                eq_months && eq_days && eq_microseconds
            },
            (Value::Oid(x0), Value::Oid(x02)) => *x0 == *x02,
            (Value::RegClass(x0), Value::RegClass(x02)) => *x0 == *x02,
            (Value::RegType(x0), Value::RegType(x02)) => *x0 == *x02,
            (Value::PgLsn(x0), Value::PgLsn(x02)) => *x0 == *x02,
            (Value::BitString(x0), Value::BitString(x02)) => same_flags(x0, x02),
            (Value::Network { kind, text }, Value::Network { kind: kind2, text: text2 }) => {
                let eq_kind = *kind == *kind2;
                let eq_text = text_eq(text.as_str(), text2.as_str());
                eq_kind && eq_text
            },
            (
                Value::Range { range_type, text },
                Value::Range { range_type: range_type2, text: text2 },
            ) => {
                let eq_range_type = *range_type == *range_type2;
                let eq_text = text_eq(text.as_str(), text2.as_str());
                eq_range_type && eq_text
            },
            (
                Value::Geometry { geometry_type, text },
                Value::Geometry { geometry_type: geometry_type2, text: text2 },
            ) => {
                let eq_geometry_type = *geometry_type == *geometry_type2;
                let eq_text = text_eq(text.as_str(), text2.as_str());
                eq_geometry_type && eq_text
            },
            (
                Value::Vector { family, dims, text },
                Value::Vector { family: family2, dims: dims2, text: text2 },
            ) => {
                let eq_family = *family == *family2;
                let eq_dims = *dims == *dims2;
                let eq_text = text_eq(text.as_str(), text2.as_str());
                eq_family && eq_dims && eq_text
            },
            (
                Value::Array { element_type, elements },
                Value::Array { element_type: element_type2, elements: elements2 },
            ) => {
                let eq_element_type = element_type.same(element_type2);
                let eq_elements = same_values(elements, elements2);
                eq_element_type && eq_elements
            },
            _ => false,
        }
    }

}

/// The models of constants.
pub open spec fn values_view(s: Seq<Value>) -> Seq<ValueView>
    decreases s,
{
    Seq::new(s.len(), |i: int| if 0 <= i < s.len() { s[i].view() } else { arbitrary() })
}

/// Appending an element appends its model.
pub broadcast proof fn lemma_values_push(s: Seq<Value>, e: Value)
    ensures
        #[trigger] values_view(s.push(e)) == values_view(s).push(e.view()),
{
    assert(values_view(s.push(e)) =~= values_view(s).push(e.view()));
}

/// Copies constants.
pub fn duplicate_values(list: &Vec<Value>) -> (copy: Vec<Value>)
    ensures
        values_view(copy@) == values_view(list@),
    decreases list, 1int,
{
    let mut copy: Vec<Value> = Vec::new();
    let mut i: usize = 0;
    while i < list.len()
        invariant
            i <= list.len(),
            copy.len() == i,
            forall|j: int| 0 <= j < i ==> values_view(copy@)[j] == #[trigger] values_view(list@)[j],
        decreases list.len() - i,
    {
        let ghost before = copy@;
        let item: Value = list[i].duplicate();
        copy.push(item);
        proof {
            lemma_values_push(before, item);
        }
        i = i + 1;
    }
    assert(values_view(copy@) =~= values_view(list@));
    copy
}

/// Whether two lists of constants are equal.
pub fn same_values(list: &Vec<Value>, other: &Vec<Value>) -> (yes: bool)
    ensures
        yes == (values_view(list@) == values_view(other@)),
    decreases list, 1int,
{
    if list.len() != other.len() {
        assert(values_view(list@).len() != values_view(other@).len());
        return false;
    }
    let mut i: usize = 0;
    while i < list.len()
        invariant
            i <= list.len(),
            list.len() == other.len(),
            forall|j: int|
                0 <= j < i ==> values_view(list@)[j] == #[trigger] values_view(other@)[j],
        decreases list.len() - i,
    {
        let eq = list[i].same(&other[i]);
        if !eq {
            assert(values_view(list@)[i as int] != values_view(other@)[i as int]);
            return false;
        }
        i = i + 1;
    }
    assert(values_view(list@) =~= values_view(other@));
    true
}

} // verus!
