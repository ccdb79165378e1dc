//! Data types and their models.
use crate::list;
use crate::list::{duplicate_strings, same_strings};
use crate::text;
use crate::text::{cat2, cat3, cat4, cat5, owned, show_i64, show_u64, text_eq};
use vstd::prelude::*;

verus! {

/// The element family of a range type.
#[derive(Debug, Clone, Copy, PartialEq, Eq, Structural)]
pub enum RangeType {
    Int4,
    Int8,
    Num,
    Date,
    Timestamp,
    TimestampTz,
}

/// The shape of a geometric type.
#[derive(Debug, Clone, Copy, PartialEq, Eq, Structural)]
pub enum GeometryType {
    Point,
    Box,
    Circle,
    Line,
    Lseg,
    Path,
    Polygon,
}

/// The type of a column or of an expression.
#[derive(Debug, PartialEq)]
pub enum DataType {
    Null,
    Bool,
    Int16,
    Int32,
    Int64,
    Float32,
    Float64,
    Decimal { precision: Option<u32>, scale: Option<i32> },
    Money,
    Text { max_len: Option<u32> },
    Char { len: Option<u32> },
    Bytea,
    Bit { len: Option<u32> },
    VarBit { max_len: Option<u32> },
    Date,
    Time,
    TimeTz,
    Timestamp,
    TimestampTz,
    Interval,
    Uuid,
    Json,
    Jsonb,
    Xml,
    Oid,
    RegClass,
    RegType,
    PgLsn,
    Inet,
    Cidr,
    MacAddr,
    MacAddr8,
    TsVector,
    TsQuery,
    Vector { dims: Option<u32> },
    HalfVec { dims: Option<u32> },
    SparseVec { dims: Option<u32> },
    BitVec { dims: Option<u32> },
    Range(RangeType),
    Geometry(GeometryType),
    Array(Box<DataType>),
    Record(Vec<(String, DataType)>),
    Enum { oid: u32, name: String, labels: Vec<String> },
    Composite { oid: u32, name: String, fields: Vec<(String, DataType)> },
    Domain { oid: u32, name: String, base_type: Box<DataType>, not_null: bool },
}

/// The model of a [`DataType`].
pub enum DataTypeView {
    Null,
    Bool,
    Int16,
    Int32,
    Int64,
    Float32,
    Float64,
    Decimal { precision: Option<u32>, scale: Option<i32> },
    Money,
    Text { max_len: Option<u32> },
    Char { len: Option<u32> },
    Bytea,
    Bit { len: Option<u32> },
    VarBit { max_len: Option<u32> },
    Date,
    Time,
    TimeTz,
    Timestamp,
    TimestampTz,
    Interval,
    Uuid,
    Json,
    Jsonb,
    Xml,
    Oid,
    RegClass,
    RegType,
    PgLsn,
    Inet,
    Cidr,
    MacAddr,
    MacAddr8,
    TsVector,
    TsQuery,
    Vector { dims: Option<u32> },
    HalfVec { dims: Option<u32> },
    SparseVec { dims: Option<u32> },
    BitVec { dims: Option<u32> },
    Range(RangeType),
    Geometry(GeometryType),
    Array(Box<DataTypeView>),
    Record(Seq<(Seq<char>, DataTypeView)>),
    Enum { oid: u32, name: Seq<char>, labels: Seq<Seq<char>> },
    Composite { oid: u32, name: Seq<char>, fields: Seq<(Seq<char>, DataTypeView)> },
    Domain { oid: u32, name: Seq<char>, base_type: Box<DataTypeView>, not_null: bool },
}

impl DataType {
    pub open spec fn view(&self) -> DataTypeView
        decreases self,
    {
        match self {
            DataType::Null => DataTypeView::Null,
            DataType::Bool => DataTypeView::Bool,
            DataType::Int16 => DataTypeView::Int16,
            DataType::Int32 => DataTypeView::Int32,
            DataType::Int64 => DataTypeView::Int64,
            DataType::Float32 => DataTypeView::Float32,
            DataType::Float64 => DataTypeView::Float64,
            DataType::Decimal { precision, scale } => DataTypeView::Decimal {
                precision: *precision,
                scale: *scale,
            },
            DataType::Money => DataTypeView::Money,
            DataType::Text { max_len } => DataTypeView::Text { max_len: *max_len },
            DataType::Char { len } => DataTypeView::Char { len: *len },
            DataType::Bytea => DataTypeView::Bytea,
            DataType::Bit { len } => DataTypeView::Bit { len: *len },
            DataType::VarBit { max_len } => DataTypeView::VarBit { max_len: *max_len },
            DataType::Date => DataTypeView::Date,
            DataType::Time => DataTypeView::Time,
            DataType::TimeTz => DataTypeView::TimeTz,
            DataType::Timestamp => DataTypeView::Timestamp,
            DataType::TimestampTz => DataTypeView::TimestampTz,
            DataType::Interval => DataTypeView::Interval,
            DataType::Uuid => DataTypeView::Uuid,
            DataType::Json => DataTypeView::Json,
            DataType::Jsonb => DataTypeView::Jsonb,
            DataType::Xml => DataTypeView::Xml,
            DataType::Oid => DataTypeView::Oid,
            DataType::RegClass => DataTypeView::RegClass,
            DataType::RegType => DataTypeView::RegType,
            DataType::PgLsn => DataTypeView::PgLsn,
            DataType::Inet => DataTypeView::Inet,
            DataType::Cidr => DataTypeView::Cidr,
            DataType::MacAddr => DataTypeView::MacAddr,
            DataType::MacAddr8 => DataTypeView::MacAddr8,
            DataType::TsVector => DataTypeView::TsVector,
            DataType::TsQuery => DataTypeView::TsQuery,
            DataType::Vector { dims } => DataTypeView::Vector { dims: *dims },
            DataType::HalfVec { dims } => DataTypeView::HalfVec { dims: *dims },
            DataType::SparseVec { dims } => DataTypeView::SparseVec { dims: *dims },
            DataType::BitVec { dims } => DataTypeView::BitVec { dims: *dims },
            DataType::Range(x0) => DataTypeView::Range(*x0),
            DataType::Geometry(x0) => DataTypeView::Geometry(*x0),
            DataType::Array(x0) => DataTypeView::Array(Box::new(x0.view())),
            DataType::Record(x0) => DataTypeView::Record(record_fields_view(x0@)),
            DataType::Enum { oid, name, labels } => DataTypeView::Enum {
                oid: *oid,
                name: name@,
                labels: list::strings_view(labels@),
            },
            DataType::Composite { oid, name, fields } => DataTypeView::Composite {
                oid: *oid,
                name: name@,
                fields: record_fields_view(fields@),
            },
            DataType::Domain { oid, name, base_type, not_null } => DataTypeView::Domain {
                oid: *oid,
                name: name@,
                base_type: Box::new(base_type.view()),
                not_null: *not_null,
            },
        }
    }

    pub fn duplicate(&self) -> (copy: DataType)
        ensures
            copy@ == self@,
        decreases self, 0int,
    {
        match self {
            DataType::Null => DataType::Null,
            DataType::Bool => DataType::Bool,
            DataType::Int16 => DataType::Int16,
            DataType::Int32 => DataType::Int32,
            DataType::Int64 => DataType::Int64,
            DataType::Float32 => DataType::Float32,
            DataType::Float64 => DataType::Float64,
            DataType::Decimal { precision, scale } => DataType::Decimal {
                precision: *precision,
                scale: *scale,
            },
            DataType::Money => DataType::Money,
            DataType::Text { max_len } => DataType::Text { max_len: *max_len },
            DataType::Char { len } => DataType::Char { len: *len },
            DataType::Bytea => DataType::Bytea,
            DataType::Bit { len } => DataType::Bit { len: *len },
            DataType::VarBit { max_len } => DataType::VarBit { max_len: *max_len },
            DataType::Date => DataType::Date,
            DataType::Time => DataType::Time,
            DataType::TimeTz => DataType::TimeTz,
            DataType::Timestamp => DataType::Timestamp,
            DataType::TimestampTz => DataType::TimestampTz,
            DataType::Interval => DataType::Interval,
            DataType::Uuid => DataType::Uuid,
            DataType::Json => DataType::Json,
            DataType::Jsonb => DataType::Jsonb,
            DataType::Xml => DataType::Xml,
            DataType::Oid => DataType::Oid,
            DataType::RegClass => DataType::RegClass,
            DataType::RegType => DataType::RegType,
            DataType::PgLsn => DataType::PgLsn,
            DataType::Inet => DataType::Inet,
            DataType::Cidr => DataType::Cidr,
            DataType::MacAddr => DataType::MacAddr,
            DataType::MacAddr8 => DataType::MacAddr8,
            DataType::TsVector => DataType::TsVector,
            DataType::TsQuery => DataType::TsQuery,
            DataType::Vector { dims } => DataType::Vector { dims: *dims },
            DataType::HalfVec { dims } => DataType::HalfVec { dims: *dims },
            DataType::SparseVec { dims } => DataType::SparseVec { dims: *dims },
            DataType::BitVec { dims } => DataType::BitVec { dims: *dims },
            DataType::Range(x0) => DataType::Range(*x0),
            DataType::Geometry(x0) => DataType::Geometry(*x0),
            DataType::Array(x0) => DataType::Array(Box::new(x0.duplicate())),
            DataType::Record(x0) => DataType::Record(duplicate_record_fields(x0)),
            DataType::Enum { oid, name, labels } => DataType::Enum {
                oid: *oid,
                name: name.clone(),
                labels: duplicate_strings(labels),
            },
            DataType::Composite { oid, name, fields } => DataType::Composite {
                oid: *oid,
                name: name.clone(),
                fields: duplicate_record_fields(fields),
            },
            DataType::Domain { oid, name, base_type, not_null } => DataType::Domain {
                oid: *oid,
                name: name.clone(),
                base_type: Box::new(base_type.duplicate()),
                not_null: *not_null,
            },
        }
    }

    pub fn same(&self, other: &DataType) -> (yes: bool)
        ensures
            yes == (self@ == other@),
        decreases self, 0int,
    {
        match (self, other) {
            (DataType::Null, DataType::Null) => true,
            (DataType::Bool, DataType::Bool) => true,
            (DataType::Int16, DataType::Int16) => true,
            (DataType::Int32, DataType::Int32) => true,
            (DataType::Int64, DataType::Int64) => true,
            (DataType::Float32, DataType::Float32) => true,
            (DataType::Float64, DataType::Float64) => true,
            (
                DataType::Decimal { precision, scale },
                DataType::Decimal { precision: precision2, scale: scale2 },
            ) => {
                let eq_precision = match (precision, precision2) {
                    (Some(x), Some(y)) => *x == *y,
                    (None, None) => true,
                    _ => false,
                };
                let eq_scale = match (scale, scale2) {
                    (Some(x), Some(y)) => *x == *y,
                    (None, None) => true,
                    _ => false,
                };
                eq_precision && eq_scale
            },
            (DataType::Money, DataType::Money) => true,
            (DataType::Text { max_len }, DataType::Text { max_len: max_len2 }) =>
                match (max_len, max_len2) {
                (Some(x), Some(y)) => *x == *y,
                (None, None) => true,
                _ => false,
            },
            (DataType::Char { len }, DataType::Char { len: len2 }) => match (len, len2) {
                (Some(x), Some(y)) => *x == *y,
                (None, None) => true,
                _ => false,
            },
            (DataType::Bytea, DataType::Bytea) => true,
            (DataType::Bit { len }, DataType::Bit { len: len2 }) => match (len, len2) {
                (Some(x), Some(y)) => *x == *y,
                (None, None) => true,
                _ => false,
            },
            (DataType::VarBit { max_len }, DataType::VarBit { max_len: max_len2 }) =>
                match (max_len, max_len2) {
                (Some(x), Some(y)) => *x == *y,
                (None, None) => true,
                _ => false,
            },
            (DataType::Date, DataType::Date) => true,
            (DataType::Time, DataType::Time) => true,
            (DataType::TimeTz, DataType::TimeTz) => true,
            (DataType::Timestamp, DataType::Timestamp) => true,
            (DataType::TimestampTz, DataType::TimestampTz) => true,
            (DataType::Interval, DataType::Interval) => true,
            (DataType::Uuid, DataType::Uuid) => true,
            (DataType::Json, DataType::Json) => true,
            (DataType::Jsonb, DataType::Jsonb) => true,
            (DataType::Xml, DataType::Xml) => true,
            (DataType::Oid, DataType::Oid) => true,
            (DataType::RegClass, DataType::RegClass) => true,
            (DataType::RegType, DataType::RegType) => true,
            (DataType::PgLsn, DataType::PgLsn) => true,
            (DataType::Inet, DataType::Inet) => true,
            (DataType::Cidr, DataType::Cidr) => true,
            (DataType::MacAddr, DataType::MacAddr) => true,
            (DataType::MacAddr8, DataType::MacAddr8) => true,
            (DataType::TsVector, DataType::TsVector) => true,
            (DataType::TsQuery, DataType::TsQuery) => true,
            (DataType::Vector { dims }, DataType::Vector { dims: dims2 }) => match (dims, dims2) {
                (Some(x), Some(y)) => *x == *y,
                (None, None) => true,
                _ => false,
            },
            (DataType::HalfVec { dims }, DataType::HalfVec { dims: dims2 }) => match (dims, dims2) {
                (Some(x), Some(y)) => *x == *y,
                (None, None) => true,
                _ => false,
            },
            (DataType::SparseVec { dims }, DataType::SparseVec { dims: dims2 }) =>
                match (dims, dims2) {
                (Some(x), Some(y)) => *x == *y,
                (None, None) => true,
                _ => false,
            },
            (DataType::BitVec { dims }, DataType::BitVec { dims: dims2 }) => match (dims, dims2) {
                (Some(x), Some(y)) => *x == *y,
                (None, None) => true,
                _ => false,
            },
            (DataType::Range(x0), DataType::Range(x02)) => *x0 == *x02,
            (DataType::Geometry(x0), DataType::Geometry(x02)) => *x0 == *x02,
            (DataType::Array(x0), DataType::Array(x02)) => x0.same(x02),
            (DataType::Record(x0), DataType::Record(x02)) => same_record_fields(x0, x02),
            (
                DataType::Enum { oid, name, labels },
                DataType::Enum { oid: oid2, name: name2, labels: labels2 },
            ) => {
                let eq_oid = *oid == *oid2;
                let eq_name = text_eq(name.as_str(), name2.as_str());
                let eq_labels = same_strings(labels, labels2);
                eq_oid && eq_name && eq_labels
            },
            (
                DataType::Composite { oid, name, fields },
                DataType::Composite { oid: oid2, name: name2, fields: fields2 },
            ) => {
                let eq_oid = *oid == *oid2;
                let eq_name = text_eq(name.as_str(), name2.as_str());
                let eq_fields = same_record_fields(fields, fields2);
                eq_oid && eq_name && eq_fields
            },
            (
                DataType::Domain { oid, name, base_type, not_null },
                DataType::Domain {
                    oid: oid2,
                    name: name2,
                    base_type: base_type2,
                    not_null: not_null2,
                },
            ) => {
                let eq_oid = *oid == *oid2;
                let eq_name = text_eq(name.as_str(), name2.as_str());
                let eq_base_type = base_type.same(base_type2);
                let eq_not_null = *not_null == *not_null2;
                eq_oid && eq_name && eq_base_type && eq_not_null
            },
            _ => false,
        }
    }

}

/// The models of named attribute types.
pub open spec fn record_fields_view(s: Seq<(String, DataType)>) -> Seq<(Seq<char>, DataTypeView)>
    decreases s,
{
    Seq::new(
        s.len(),
        |i: int| if 0 <= i < s.len() { (s[i].0@, s[i].1.view()) } else { arbitrary() },
    )
}

/// Appending an element appends its model.
pub broadcast proof fn lemma_record_fields_push(s: Seq<(String, DataType)>, e: (String, DataType))
    ensures
        #[trigger] record_fields_view(s.push(e)) == record_fields_view(s).push((e.0@, e.1.view())),
{
    assert(record_fields_view(s.push(e)) =~= record_fields_view(s).push((e.0@, e.1.view())));
}

/// Copies named attribute types.
pub fn duplicate_record_fields(list: &Vec<(String, DataType)>) -> (copy: Vec<(String, DataType)>)
    ensures
        record_fields_view(copy@) == record_fields_view(list@),
    decreases list, 1int,
{
    let mut copy: Vec<(String, DataType)> = Vec::new();
    let mut i: usize = 0;
    while i < list.len()
        invariant
            i <= list.len(),
            copy.len() == i,
            forall|j: int|
                0 <= j < i ==> record_fields_view(copy@)[j] == #[trigger] record_fields_view(list@)[j],
        decreases list.len() - i,
    {
        let ghost before = copy@;
        let item: (String, DataType) = (list[i].0.clone(), list[i].1.duplicate());
        copy.push(item);
        proof {
            lemma_record_fields_push(before, item);
        }
        i = i + 1;
    }
    assert(record_fields_view(copy@) =~= record_fields_view(list@));
    copy
}

/// Whether two lists of named attribute types are equal.
pub fn same_record_fields(
    list: &Vec<(String, DataType)>,
    other: &Vec<(String, DataType)>,
) -> (yes: bool)
    ensures
        yes == (record_fields_view(list@) == record_fields_view(other@)),
    decreases list, 1int,
{
    if list.len() != other.len() {
        assert(record_fields_view(list@).len() != record_fields_view(other@).len());
        return false;
    }
    let mut i: usize = 0;
    while i < list.len()
        invariant
            i <= list.len(),
            list.len() == other.len(),
            forall|j: int|
                0 <= j < i ==> record_fields_view(list@)[j] == #[trigger] record_fields_view(other@)[j],
        decreases list.len() - i,
    {
        let eq = (text_eq(list[i].0.as_str(), other[i].0.as_str()) && list[i].1.same(&other[i].1));
        if !eq {
            assert(record_fields_view(list@)[i as int] != record_fields_view(other@)[i as int]);
            return false;
        }
        i = i + 1;
    }
    assert(record_fields_view(list@) =~= record_fields_view(other@));
    true
}

/// Whether a type is one of the numeric types.
pub open spec fn numeric(t: DataTypeView) -> bool {
    t is Int16 || t is Int32 || t is Int64 || t is Float32 || t is Float64 || t is Decimal
}

/// Whether a type is one of the integer types.
pub open spec fn integral(t: DataTypeView) -> bool {
    t is Int16 || t is Int32 || t is Int64
}

/// Whether a type holds character text.
pub open spec fn textlike(t: DataTypeView) -> bool {
    t is Text || t is Char
}

/// Whether a type holds a date, a time of day or a point in time.
pub open spec fn temporal(t: DataTypeView) -> bool {
    t is Date || t is Time || t is TimeTz || t is Timestamp || t is TimestampTz
}

/// Whether a type is a bit string.
pub open spec fn bit_string(t: DataTypeView) -> bool {
    t is Bit || t is VarBit
}

/// Whether a type is a network address.
pub open spec fn network_address(t: DataTypeView) -> bool {
    t is Inet || t is Cidr || t is MacAddr || t is MacAddr8
}

/// Whether a type is an object identifier.
pub open spec fn oid_alias(t: DataTypeView) -> bool {
    t is Oid || t is RegClass || t is RegType
}

/// Whether a type is one of the vector types.
pub open spec fn vector_family(t: DataTypeView) -> bool {
    t is Vector || t is HalfVec || t is SparseVec || t is BitVec
}

/// The larger of two scales; unknown when either is.
pub open spec fn wider_scale(a: Option<i32>, b: Option<i32>) -> Option<i32> {
    match (a, b) {
        (Some(x), Some(y)) => Some(
            if x >= y {
                x
            } else {
                y
            },
        ),
        _ => None,
    }
}

/// The numeric type that holds the values of both types; nothing when one of
/// them is not numeric. Integers widen to the wider one, an integer and a
/// decimal to the decimal, and whatever else involves a float to a double.
pub open spec fn join_numeric(a: DataTypeView, b: DataTypeView) -> Option<DataTypeView> {
    if !numeric(a) || !numeric(b) {
        None
    } else if a == b {
        Some(a)
    } else if integral(a) && integral(b) {
        Some(
            if a is Int64 || b is Int64 {
                DataTypeView::Int64
            } else {
                DataTypeView::Int32
            },
        )
    } else if a is Decimal && integral(b) {
        Some(a)
    } else if integral(a) && b is Decimal {
        Some(b)
    } else if a is Decimal && b is Decimal {
        Some(
            DataTypeView::Decimal {
                precision: None,
                scale: wider_scale(a->Decimal_scale, b->Decimal_scale),
            },
        )
    } else {
        Some(DataTypeView::Float64)
    }
}

/// `base` followed by a length in parentheses, where there is one.
pub open spec fn sized_text(base: Seq<char>, len: Option<u32>) -> Seq<char> {
    match len {
        Some(n) => base + "("@ + text::decimal(n as nat) + ")"@,
        None => base,
    }
}

/// The SQL name of a type.
pub open spec fn type_text(t: DataTypeView) -> Seq<char>
    decreases t,
{
    match t {
        DataTypeView::Null => "null"@,
        DataTypeView::Bool => "boolean"@,
        DataTypeView::Int16 => "smallint"@,
        DataTypeView::Int32 => "integer"@,
        DataTypeView::Int64 => "bigint"@,
        DataTypeView::Float32 => "real"@,
        DataTypeView::Float64 => "double precision"@,
        DataTypeView::Decimal { precision, scale } => match (precision, scale) {
            (Some(p), Some(s)) => "numeric("@ + text::decimal(p as nat) + ","@ + text::decimal_int(
                s as int,
            ) + ")"@,
            (Some(p), None) => "numeric("@ + text::decimal(p as nat) + ")"@,
            _ => "numeric"@,
        },
        DataTypeView::Money => "money"@,
        DataTypeView::Text { max_len } => match max_len {
            Some(n) => "varchar("@ + text::decimal(n as nat) + ")"@,
            None => "text"@,
        },
        DataTypeView::Char { len } => sized_text("char"@, len),
        DataTypeView::Bytea => "bytea"@,
        DataTypeView::Bit { len } => sized_text("bit"@, len),
        DataTypeView::VarBit { max_len } => sized_text("varbit"@, max_len),
        DataTypeView::Date => "date"@,
        DataTypeView::Time => "time"@,
        DataTypeView::TimeTz => "timetz"@,
        DataTypeView::Timestamp => "timestamp"@,
        DataTypeView::TimestampTz => "timestamptz"@,
        DataTypeView::Interval => "interval"@,
        DataTypeView::Uuid => "uuid"@,
        DataTypeView::Json => "json"@,
        DataTypeView::Jsonb => "jsonb"@,
        DataTypeView::Xml => "xml"@,
        DataTypeView::Oid => "oid"@,
        DataTypeView::RegClass => "regclass"@,
        DataTypeView::RegType => "regtype"@,
        DataTypeView::PgLsn => "pg_lsn"@,
        DataTypeView::Inet => "inet"@,
        DataTypeView::Cidr => "cidr"@,
        DataTypeView::MacAddr => "macaddr"@,
        DataTypeView::MacAddr8 => "macaddr8"@,
        DataTypeView::TsVector => "tsvector"@,
        DataTypeView::TsQuery => "tsquery"@,
        DataTypeView::Vector { dims } => sized_text("vector"@, dims),
        DataTypeView::HalfVec { dims } => sized_text("halfvec"@, dims),
        DataTypeView::SparseVec { dims } => sized_text("sparsevec"@, dims),
        DataTypeView::BitVec { dims } => sized_text("bitvec"@, dims),
        DataTypeView::Range(r) => match r {
            RangeType::Int4 => "int4range"@,
            RangeType::Int8 => "int8range"@,
            RangeType::Num => "numrange"@,
            RangeType::Date => "daterange"@,
            RangeType::Timestamp => "tsrange"@,
            RangeType::TimestampTz => "tstzrange"@,
        },
        DataTypeView::Geometry(g) => match g {
            GeometryType::Point => "point"@,
            GeometryType::Box => "box"@,
            GeometryType::Circle => "circle"@,
            GeometryType::Line => "line"@,
            GeometryType::Lseg => "lseg"@,
            GeometryType::Path => "path"@,
            GeometryType::Polygon => "polygon"@,
        },
        DataTypeView::Array(inner) => type_text(*inner) + "[]"@,
        DataTypeView::Record(_) => "record"@,
        DataTypeView::Enum { name, .. } => name,
        DataTypeView::Composite { name, .. } => name,
        DataTypeView::Domain { name, .. } => name,
    }
}

fn show_sized(base: &str, len: Option<u32>) -> (out: String)
    ensures
        out@ == sized_text(base@, len),
{
    match len {
        Some(n) => cat4(base, "(", show_u64(n as u64).as_str(), ")"),
        None => owned(base),
    }
}

impl DataType {
    pub fn is_null(&self) -> (yes: bool)
        ensures
            yes == (self@ is Null),
    {
        matches!(self, DataType::Null)
    }

    pub fn is_bool(&self) -> (yes: bool)
        ensures
            yes == (self@ is Bool),
    {
        matches!(self, DataType::Bool)
    }

    pub fn is_numeric(&self) -> (yes: bool)
        ensures
            yes == numeric(self@),
    {
        matches!(
            self,
            DataType::Int16 | DataType::Int32 | DataType::Int64 | DataType::Float32
                | DataType::Float64 | DataType::Decimal { .. }
        )
    }

    pub fn is_integer(&self) -> (yes: bool)
        ensures
            yes == integral(self@),
    {
        matches!(self, DataType::Int16 | DataType::Int32 | DataType::Int64)
    }

    pub fn is_textlike(&self) -> (yes: bool)
        ensures
            yes == textlike(self@),
    {
        matches!(self, DataType::Text { .. } | DataType::Char { .. })
    }

    pub fn is_temporal(&self) -> (yes: bool)
        ensures
            yes == temporal(self@),
    {
        matches!(
            self,
            DataType::Date | DataType::Time | DataType::TimeTz | DataType::Timestamp
                | DataType::TimestampTz
        )
    }

    pub fn is_bit_string(&self) -> (yes: bool)
        ensures
            yes == bit_string(self@),
    {
        matches!(self, DataType::Bit { .. } | DataType::VarBit { .. })
    }

    pub fn is_network_address(&self) -> (yes: bool)
        ensures
            yes == network_address(self@),
    {
        matches!(self, DataType::Inet | DataType::Cidr | DataType::MacAddr | DataType::MacAddr8)
    }

    pub fn is_oid_alias(&self) -> (yes: bool)
        ensures
            yes == oid_alias(self@),
    {
        matches!(self, DataType::Oid | DataType::RegClass | DataType::RegType)
    }

    pub fn is_vector_family(&self) -> (yes: bool)
        ensures
            yes == vector_family(self@),
    {
        matches!(
            self,
            DataType::Vector { .. } | DataType::HalfVec { .. } | DataType::SparseVec { .. }
                | DataType::BitVec { .. }
        )
    }

    /// The numeric type that holds the values of both types.
    pub fn numeric_join(&self, other: &DataType) -> (joined: Option<DataType>)
        ensures
            (match joined {
                Some(t) => Some(t@),
                None => None,
            }) == join_numeric(self@, other@),
    {
        if !self.is_numeric() || !other.is_numeric() {
            return None;
        }
        if self.same(other) {
            return Some(self.duplicate());
        }
        if self.is_integer() && other.is_integer() {
            return Some(
                if matches!(self, DataType::Int64) || matches!(other, DataType::Int64) {
                    DataType::Int64
                } else {
                    DataType::Int32
                },
            );
        }
        match (self, other) {
            (
                DataType::Decimal { precision: _, scale: a },
                DataType::Decimal { precision: _, scale: b },
            ) => {
                let scale: Option<i32> = match (*a, *b) {
                    (Some(x), Some(y)) => if x >= y {
                        Some(x)
                    } else {
                        Some(y)
                    },
                    _ => None,
                };
                Some(DataType::Decimal { precision: None, scale })
            },
            _ => if matches!(self, DataType::Decimal { .. }) && other.is_integer() {
                Some(self.duplicate())
            } else if self.is_integer() && matches!(other, DataType::Decimal { .. }) {
                Some(other.duplicate())
            } else {
                Some(DataType::Float64)
            },
        }
    }

    /// The SQL name of the type.
    pub fn sql_name(&self) -> (out: String)
        ensures
            out@ == type_text(self@),
        decreases self,
    {
        match self {
            DataType::Null => owned("null"),
            DataType::Bool => owned("boolean"),
            DataType::Int16 => owned("smallint"),
            DataType::Int32 => owned("integer"),
            DataType::Int64 => owned("bigint"),
            DataType::Float32 => owned("real"),
            DataType::Float64 => owned("double precision"),
            DataType::Decimal { precision, scale } => match (*precision, *scale) {
                (Some(p), Some(s)) => cat5(
                    "numeric(",
                    show_u64(p as u64).as_str(),
                    ",",
                    show_i64(s as i64).as_str(),
                    ")",
                ),
                (Some(p), None) => cat3("numeric(", show_u64(p as u64).as_str(), ")"),
                _ => owned("numeric"),
            },
            DataType::Money => owned("money"),
            DataType::Text { max_len } => match *max_len {
                Some(n) => cat3("varchar(", show_u64(n as u64).as_str(), ")"),
                None => owned("text"),
            },
            DataType::Char { len } => show_sized("char", *len),
            DataType::Bytea => owned("bytea"),
            DataType::Bit { len } => show_sized("bit", *len),
            DataType::VarBit { max_len } => show_sized("varbit", *max_len),
            DataType::Date => owned("date"),
            DataType::Time => owned("time"),
            DataType::TimeTz => owned("timetz"),
            DataType::Timestamp => owned("timestamp"),
            DataType::TimestampTz => owned("timestamptz"),
            DataType::Interval => owned("interval"),
            DataType::Uuid => owned("uuid"),
            DataType::Json => owned("json"),
            DataType::Jsonb => owned("jsonb"),
            DataType::Xml => owned("xml"),
            DataType::Oid => owned("oid"),
            DataType::RegClass => owned("regclass"),
            DataType::RegType => owned("regtype"),
            DataType::PgLsn => owned("pg_lsn"),
            DataType::Inet => owned("inet"),
            DataType::Cidr => owned("cidr"),
            DataType::MacAddr => owned("macaddr"),
            DataType::MacAddr8 => owned("macaddr8"),
            DataType::TsVector => owned("tsvector"),
            DataType::TsQuery => owned("tsquery"),
            DataType::Vector { dims } => show_sized("vector", *dims),
            DataType::HalfVec { dims } => show_sized("halfvec", *dims),
            DataType::SparseVec { dims } => show_sized("sparsevec", *dims),
            DataType::BitVec { dims } => show_sized("bitvec", *dims),
            DataType::Range(r) => match r {
                RangeType::Int4 => owned("int4range"),
                RangeType::Int8 => owned("int8range"),
                RangeType::Num => owned("numrange"),
                RangeType::Date => owned("daterange"),
                RangeType::Timestamp => owned("tsrange"),
                RangeType::TimestampTz => owned("tstzrange"),
            },
            DataType::Geometry(g) => match g {
                GeometryType::Point => owned("point"),
                GeometryType::Box => owned("box"),
                GeometryType::Circle => owned("circle"),
                GeometryType::Line => owned("line"),
                GeometryType::Lseg => owned("lseg"),
                GeometryType::Path => owned("path"),
                GeometryType::Polygon => owned("polygon"),
            },
            DataType::Array(inner) => cat2(inner.sql_name().as_str(), "[]"),
            DataType::Record(_) => owned("record"),
            DataType::Enum { name, .. } => name.clone(),
            DataType::Composite { name, .. } => name.clone(),
            DataType::Domain { name, .. } => name.clone(),
        }
    }
}

/// Joining numeric types does not depend on their order.
pub proof fn numeric_join_commutes(a: DataTypeView, b: DataTypeView)
    ensures
        join_numeric(a, b) == join_numeric(b, a),
{
}

} // verus!
