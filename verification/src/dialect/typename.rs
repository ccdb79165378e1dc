//! Names of types, with their modifiers.
use crate::catalog::{Catalog, CatalogView};
use crate::datatype::{DataType, DataTypeView, GeometryType, RangeType};
use crate::dialect::clock;
use crate::list;
use crate::text::{chars_of, eq_fold, read_u32, text_eq, text_of, to_lower, trimmed};
use crate::{catalog, datatype, text};
use vstd::prelude::*;

verus! {

/// The greatest number of dimensions of a vector.
pub const MAX_VECTOR_DIMS: u32 = 16_000;

/// The greatest precision of a numeric type.
pub const MAX_NUMERIC_PRECISION: u32 = 131_072;

/// An optional type as a model.
pub open spec fn type_view(t: Option<DataType>) -> Option<DataTypeView> {
    match t {
        Some(x) => Some(x@),
        None => None,
    }
}

/// The type with one of the plain names.
pub open spec fn plain_type(n: Seq<char>) -> Option<DataTypeView> {
    if n == "int"@ || n == "integer"@ || n == "int4"@ {
        Some(DataTypeView::Int32)
    } else if n == "bigint"@ || n == "int8"@ {
        Some(DataTypeView::Int64)
    } else if n == "smallint"@ || n == "int2"@ {
        Some(DataTypeView::Int16)
    } else if n == "bool"@ || n == "boolean"@ {
        Some(DataTypeView::Bool)
    } else if n == "real"@ || n == "float4"@ {
        Some(DataTypeView::Float32)
    } else if n == "double"@ || n == "double precision"@ || n == "float"@ || n == "float8"@ {
        Some(DataTypeView::Float64)
    } else if n == "text"@ {
        Some(DataTypeView::Text { max_len: None })
    } else if n == "bytea"@ {
        Some(DataTypeView::Bytea)
    } else if n == "date"@ {
        Some(DataTypeView::Date)
    } else if n == "time"@ || n == "time without time zone"@ {
        Some(DataTypeView::Time)
    } else if n == "timetz"@ || n == "time with time zone"@ {
        Some(DataTypeView::TimeTz)
    } else if n == "timestamp"@ || n == "timestamp without time zone"@ {
        Some(DataTypeView::Timestamp)
    } else if n == "timestamptz"@ || n == "timestamp with time zone"@ {
        Some(DataTypeView::TimestampTz)
    } else if n == "uuid"@ {
        Some(DataTypeView::Uuid)
    } else if n == "json"@ {
        Some(DataTypeView::Json)
    } else if n == "jsonb"@ {
        Some(DataTypeView::Jsonb)
    } else if n == "xml"@ {
        Some(DataTypeView::Xml)
    } else if n == "money"@ {
        Some(DataTypeView::Money)
    } else if n == "oid"@ {
        Some(DataTypeView::Oid)
    } else if n == "regclass"@ {
        Some(DataTypeView::RegClass)
    } else if n == "regtype"@ {
        Some(DataTypeView::RegType)
    } else if n == "pg_lsn"@ {
        Some(DataTypeView::PgLsn)
    } else {
        None
    }
}

pub(crate) fn resolve_plain_type(n: &str) -> (out: Option<DataType>)
    ensures
        type_view(out) == plain_type(n@),
{
    if text_eq(n, "int") || text_eq(n, "integer") || text_eq(n, "int4") {
        Some(DataType::Int32)
    } else if text_eq(n, "bigint") || text_eq(n, "int8") {
        Some(DataType::Int64)
    } else if text_eq(n, "smallint") || text_eq(n, "int2") {
        Some(DataType::Int16)
    } else if text_eq(n, "bool") || text_eq(n, "boolean") {
        Some(DataType::Bool)
    } else if text_eq(n, "real") || text_eq(n, "float4") {
        Some(DataType::Float32)
    } else if text_eq(n, "double") || text_eq(n, "double precision") || text_eq(n, "float") || text_eq(n, "float8") {
        Some(DataType::Float64)
    } else if text_eq(n, "text") {
        Some(DataType::Text { max_len: None })
    } else if text_eq(n, "bytea") {
        Some(DataType::Bytea)
    } else if text_eq(n, "date") {
        Some(DataType::Date)
    } else if text_eq(n, "time") || text_eq(n, "time without time zone") {
        Some(DataType::Time)
    } else if text_eq(n, "timetz") || text_eq(n, "time with time zone") {
        Some(DataType::TimeTz)
    } else if text_eq(n, "timestamp") || text_eq(n, "timestamp without time zone") {
        Some(DataType::Timestamp)
    } else if text_eq(n, "timestamptz") || text_eq(n, "timestamp with time zone") {
        Some(DataType::TimestampTz)
    } else if text_eq(n, "uuid") {
        Some(DataType::Uuid)
    } else if text_eq(n, "json") {
        Some(DataType::Json)
    } else if text_eq(n, "jsonb") {
        Some(DataType::Jsonb)
    } else if text_eq(n, "xml") {
        Some(DataType::Xml)
    } else if text_eq(n, "money") {
        Some(DataType::Money)
    } else if text_eq(n, "oid") {
        Some(DataType::Oid)
    } else if text_eq(n, "regclass") {
        Some(DataType::RegClass)
    } else if text_eq(n, "regtype") {
        Some(DataType::RegType)
    } else if text_eq(n, "pg_lsn") {
        Some(DataType::PgLsn)
    } else {
        None
    }
}

/// The range or geometric type with the given name.
pub open spec fn shape_type(n: Seq<char>) -> Option<DataTypeView> {
    if n == "int4range"@ {
        Some(DataTypeView::Range(RangeType::Int4))
    } else if n == "int8range"@ {
        Some(DataTypeView::Range(RangeType::Int8))
    } else if n == "numrange"@ {
        Some(DataTypeView::Range(RangeType::Num))
    } else if n == "daterange"@ {
        Some(DataTypeView::Range(RangeType::Date))
    } else if n == "tsrange"@ {
        Some(DataTypeView::Range(RangeType::Timestamp))
    } else if n == "tstzrange"@ {
        Some(DataTypeView::Range(RangeType::TimestampTz))
    } else if n == "point"@ {
        Some(DataTypeView::Geometry(GeometryType::Point))
    } else if n == "box"@ {
        Some(DataTypeView::Geometry(GeometryType::Box))
    } else if n == "circle"@ {
        Some(DataTypeView::Geometry(GeometryType::Circle))
    } else if n == "line"@ {
        Some(DataTypeView::Geometry(GeometryType::Line))
    } else if n == "lseg"@ {
        Some(DataTypeView::Geometry(GeometryType::Lseg))
    } else if n == "path"@ {
        Some(DataTypeView::Geometry(GeometryType::Path))
    } else if n == "polygon"@ {
        Some(DataTypeView::Geometry(GeometryType::Polygon))
    } else {
        None
    }
}

pub(crate) fn resolve_shape_type(n: &str) -> (out: Option<DataType>)
    ensures
        type_view(out) == shape_type(n@),
{
    if text_eq(n, "int4range") {
        Some(DataType::Range(RangeType::Int4))
    } else if text_eq(n, "int8range") {
        Some(DataType::Range(RangeType::Int8))
    } else if text_eq(n, "numrange") {
        Some(DataType::Range(RangeType::Num))
    } else if text_eq(n, "daterange") {
        Some(DataType::Range(RangeType::Date))
    } else if text_eq(n, "tsrange") {
        Some(DataType::Range(RangeType::Timestamp))
    } else if text_eq(n, "tstzrange") {
        Some(DataType::Range(RangeType::TimestampTz))
    } else if text_eq(n, "point") {
        Some(DataType::Geometry(GeometryType::Point))
    } else if text_eq(n, "box") {
        Some(DataType::Geometry(GeometryType::Box))
    } else if text_eq(n, "circle") {
        Some(DataType::Geometry(GeometryType::Circle))
    } else if text_eq(n, "line") {
        Some(DataType::Geometry(GeometryType::Line))
    } else if text_eq(n, "lseg") {
        Some(DataType::Geometry(GeometryType::Lseg))
    } else if text_eq(n, "path") {
        Some(DataType::Geometry(GeometryType::Path))
    } else if text_eq(n, "polygon") {
        Some(DataType::Geometry(GeometryType::Polygon))
    } else {
        None
    }
}

/// The network address type with the given name.
pub open spec fn network_type(n: Seq<char>) -> Option<DataTypeView> {
    if n == "inet"@ {
        Some(DataTypeView::Inet)
    } else if n == "cidr"@ {
        Some(DataTypeView::Cidr)
    } else if n == "macaddr"@ {
        Some(DataTypeView::MacAddr)
    } else if n == "macaddr8"@ {
        Some(DataTypeView::MacAddr8)
    } else {
        None
    }
}

/// Resolves the name of a network address type.
pub fn parse_network_type_name(n: &str) -> (out: Option<DataType>)
    ensures
        type_view(out) == network_type(n@),
{
    if text_eq(n, "inet") {
        Some(DataType::Inet)
    } else if text_eq(n, "cidr") {
        Some(DataType::Cidr)
    } else if text_eq(n, "macaddr") {
        Some(DataType::MacAddr)
    } else if text_eq(n, "macaddr8") {
        Some(DataType::MacAddr8)
    } else {
        None
    }
}

/// The numbers between the commas of a modifier list, from `i` on.
pub open spec fn modifiers_from(raw: Seq<char>, i: int, acc: Seq<u32>) -> Option<Seq<u32>>
    decreases raw.len() + 1 - i,
{
    if i < 0 || i > raw.len() {
        None
    } else {
        let comma = clock::place_of(raw, ',', i, raw.len() as int);
        match text::within(
            text::natural_value(text::trim(raw.subrange(i, comma))),
            0,
            u32::MAX as int,
        ) {
            None => None,
            Some(n) => if comma < i || comma >= raw.len() {
                Some(acc.push(n as u32))
            } else {
                modifiers_from(raw, comma + 1, acc.push(n as u32))
            },
        }
    }
}

/// A type name of the form `base(n, ..)` as its base and its modifiers.
pub open spec fn base_and_modifiers(s: Seq<char>) -> Option<(Seq<char>, Seq<u32>)> {
    let open = clock::place_of(s, '(', 0, s.len() as int);
    if open + 1 >= s.len() || s.last() != ')' {
        None
    } else {
        match modifiers_from(s.subrange(open + 1, s.len() - 1), 0, Seq::empty()) {
            None => None,
            Some(m) => Some((s.take(open), m)),
        }
    }
}

fn read_modifiers(raw: &Vec<char>) -> (out: Option<Vec<u32>>)
    ensures
        (match out {
            Some(m) => Some(m@),
            None => None,
        }) == modifiers_from(raw@, 0, Seq::empty()),
{
    let mut out: Vec<u32> = Vec::new();
    let mut i: usize = 0;
    loop
        invariant
            i <= raw.len(),
            modifiers_from(raw@, i as int, out@) == modifiers_from(raw@, 0, Seq::empty()),
        decreases raw.len() + 1 - i,
    {
        let comma: usize = clock::find_char(raw, ',', i, raw.len());
        let piece = trimmed(text_of(raw, i, comma).as_str());
        match read_u32(piece.as_str()) {
            None => return None,
            Some(n) => out.push(n),
        }
        if comma >= raw.len() {
            return Some(out);
        }
        i = comma + 1;
    }
}

/// A type name with its modifiers as a model.
pub open spec fn modified_view(t: Option<(String, Vec<u32>)>) -> Option<(Seq<char>, Seq<u32>)> {
    match t {
        Some((base, m)) => Some((base@, m@)),
        None => None,
    }
}

/// Splits a type name into its base and its modifiers.
pub fn parse_type_modifiers(type_text: &str) -> (out: Option<(String, Vec<u32>)>)
    ensures
        modified_view(out) == base_and_modifiers(type_text@),
{
    let s = chars_of(type_text);
    let open: usize = clock::find_char(&s, '(', 0, s.len());
    if open >= s.len() || open + 1 >= s.len() || s[s.len() - 1] != ')' {
        return None;
    }
    let raw = chars_of(text_of(&s, open + 1, s.len() - 1).as_str());
    assert(s@.subrange(0, open as int) =~= type_text@.take(open as int));
    match read_modifiers(&raw) {
        None => None,
        Some(m) => Some((text_of(&s, 0, open), m)),
    }
}

/// A type name of the form `base(n)` as its base and its modifier.
pub open spec fn base_and_modifier(s: Seq<char>) -> Option<(Seq<char>, u32)> {
    match base_and_modifiers(s) {
        Some((base, m)) => if m.len() == 1 {
            Some((base, m[0]))
        } else {
            None
        },
        None => None,
    }
}

/// Splits a type name into its base and its only modifier.
pub fn parse_single_type_modifier(type_text: &str) -> (out: Option<(String, u32)>)
    ensures
        (match out {
            Some((base, n)) => Some((base@, n)),
            None => None,
        }) == base_and_modifier(type_text@),
{
    match parse_type_modifiers(type_text) {
        Some((base, m)) => if m.len() == 1 {
            Some((base, m[0]))
        } else {
            None
        },
        None => None,
    }
}

/// The vector type of a family with the given number of dimensions.
pub open spec fn family_type(base: Seq<char>, dims: Option<u32>) -> Option<DataTypeView> {
    if base == "vector"@ {
        Some(DataTypeView::Vector { dims })
    } else if base == "halfvec"@ {
        Some(DataTypeView::HalfVec { dims })
    } else if base == "sparsevec"@ {
        Some(DataTypeView::SparseVec { dims })
    } else if base == "bitvec"@ {
        Some(DataTypeView::BitVec { dims })
    } else {
        None
    }
}

/// Makes the vector type of a family.
pub fn build_vector_family_type(base: &str, dims: Option<u32>) -> (out: Option<DataType>)
    ensures
        type_view(out) == family_type(base@, dims),
{
    if text_eq(base, "vector") {
        Some(DataType::Vector { dims })
    } else if text_eq(base, "halfvec") {
        Some(DataType::HalfVec { dims })
    } else if text_eq(base, "sparsevec") {
        Some(DataType::SparseVec { dims })
    } else if text_eq(base, "bitvec") {
        Some(DataType::BitVec { dims })
    } else {
        None
    }
}

/// The text between the brackets of `base(..)`.
pub open spec fn bracketed(s: Seq<char>, base: Seq<char>) -> Option<Seq<char>> {
    if s.len() >= base.len() + 2 && s.take(base.len() as int) == base && s[base.len() as int] == '('
        && s.last() == ')' {
        Some(s.subrange(base.len() as int + 1, s.len() - 1))
    } else {
        None
    }
}

fn read_bracketed(s: &str, base: &str) -> (out: Option<String>)
    ensures
        (match out {
            Some(x) => Some(x@),
            None => None,
        }) == bracketed(s@, base@),
{
    let chars = chars_of(s);
    let start = chars_of(base);
    if chars.len() < start.len() || chars.len() - start.len() < 2 {
        return None;
    }
    let head = text_of(&chars, 0, start.len());
    assert(chars@.subrange(0, start@.len() as int) =~= s@.take(base@.len() as int));
    if !text_eq(head.as_str(), base) || chars[start.len()] != '(' || chars[chars.len() - 1] != ')' {
        return None;
    }
    Some(text_of(&chars, start.len() + 1, chars.len() - 1))
}

/// The number of dimensions that a text stands for.
pub open spec fn dims_value(s: Seq<char>) -> Option<u32> {
    match text::within(text::natural_value(s), 1, MAX_VECTOR_DIMS as int) {
        Some(n) => Some(n as u32),
        None => None,
    }
}

fn read_dims(s: &str) -> (out: Option<u32>)
    ensures
        out == dims_value(s@),
{
    match read_u32(s) {
        Some(n) => if n == 0 || n > MAX_VECTOR_DIMS {
            None
        } else {
            Some(n)
        },
        None => None,
    }
}

/// The vector type that a family name stands for, if it does: with a bracketed
/// number of dimensions, or without. The answer is whether the name is of this
/// family.
pub open spec fn family_of(s: Seq<char>, base: Seq<char>) -> Option<Option<DataTypeView>> {
    if s == base {
        Some(family_type(base, None))
    } else {
        match bracketed(s, base) {
            Some(dims) => Some(
                match dims_value(dims) {
                    Some(n) => family_type(base, Some(n)),
                    None => None,
                },
            ),
            None => None,
        }
    }
}

fn read_family(s: &str, base: &str) -> (out: Option<Option<DataType>>)
    ensures
        (match out {
            Some(t) => Some(type_view(t)),
            None => None,
        }) == family_of(s@, base@),
{
    if text_eq(s, base) {
        return Some(build_vector_family_type(base, None));
    }
    match read_bracketed(s, base) {
        Some(dims) => match read_dims(dims.as_str()) {
            Some(n) => Some(build_vector_family_type(base, Some(n))),
            None => Some(None),
        },
        None => None,
    }
}

/// The vector type that a name stands for.
pub open spec fn vector_type(s: Seq<char>) -> Option<DataTypeView> {
    match family_of(s, "vector"@) {
        Some(t) => t,
        None => match family_of(s, "halfvec"@) {
            Some(t) => t,
            None => match family_of(s, "sparsevec"@) {
                Some(t) => t,
                None => match family_of(s, "bitvec"@) {
                    Some(t) => t,
                    None => None,
                },
            },
        },
    }
}

/// Resolves the name of a vector type.
pub fn parse_vector_family_type_name(type_text: &str) -> (out: Option<DataType>)
    ensures
        type_view(out) == vector_type(type_text@),
{
    if let Some(t) = read_family(type_text, "vector") {
        return t;
    }
    if let Some(t) = read_family(type_text, "halfvec") {
        return t;
    }
    if let Some(t) = read_family(type_text, "sparsevec") {
        return t;
    }
    if let Some(t) = read_family(type_text, "bitvec") {
        return t;
    }
    None
}

/// The decimal type that a name stands for. A precision without a scale means
/// scale zero.
pub open spec fn decimal_type(s: Seq<char>) -> Option<DataTypeView> {
    if s == "numeric"@ || s == "decimal"@ {
        Some(DataTypeView::Decimal { precision: None, scale: None })
    } else {
        match base_and_modifiers(s) {
            Some((base, m)) => if (base == "numeric"@ || base == "decimal"@) && 1 <= m.len() <= 2
                && 1 <= m[0] <= MAX_NUMERIC_PRECISION && (m.len() == 2 ==> m[1] <= i32::MAX) {
                Some(
                    DataTypeView::Decimal {
                        precision: Some(m[0]),
                        scale: Some(
                            if m.len() == 2 {
                                m[1] as i32
                            } else {
                                0
                            },
                        ),
                    },
                )
            } else {
                None
            },
            None => None,
        }
    }
}

/// Resolves the name of a decimal type.
pub fn parse_decimal_type_name(type_text: &str) -> (out: Option<DataType>)
    ensures
        type_view(out) == decimal_type(type_text@),
{
    if text_eq(type_text, "numeric") || text_eq(type_text, "decimal") {
        return Some(DataType::Decimal { precision: None, scale: None });
    }
    match parse_type_modifiers(type_text) {
        Some((base, m)) => {
            let named = text_eq(base.as_str(), "numeric") || text_eq(base.as_str(), "decimal");
            if !named || m.len() == 0 || m.len() > 2 {
                return None;
            }
            if m[0] == 0 || m[0] > MAX_NUMERIC_PRECISION {
                return None;
            }
            let scale: i32 = if m.len() == 2 {
                if m[1] > 0x7fff_ffff {
                    return None;
                }
                m[1] as i32
            } else {
                0
            };
            Some(DataType::Decimal { precision: Some(m[0]), scale: Some(scale) })
        },
        None => None,
    }
}

/// The blank-padded type that a name stands for.
pub open spec fn padded_type(s: Seq<char>) -> Option<DataTypeView> {
    if s == "char"@ || s == "character"@ {
        Some(DataTypeView::Char { len: Some(1) })
    } else if s == "bpchar"@ {
        Some(DataTypeView::Char { len: None })
    } else {
        match base_and_modifier(s) {
            Some((base, n)) => if n > 0 && (base == "char"@ || base == "character"@ || base
                == "bpchar"@) {
                Some(DataTypeView::Char { len: Some(n) })
            } else {
                None
            },
            None => None,
        }
    }
}

/// Resolves the name of a blank-padded type.
pub fn parse_bpchar_type_name(type_text: &str) -> (out: Option<DataType>)
    ensures
        type_view(out) == padded_type(type_text@),
{
    if text_eq(type_text, "char") || text_eq(type_text, "character") {
        return Some(DataType::Char { len: Some(1) });
    }
    if text_eq(type_text, "bpchar") {
        return Some(DataType::Char { len: None });
    }
    match parse_single_type_modifier(type_text) {
        Some((base, n)) => {
            let b = base.as_str();
            if n > 0 && (text_eq(b, "char") || text_eq(b, "character") || text_eq(b, "bpchar")) {
                Some(DataType::Char { len: Some(n) })
            } else {
                None
            }
        },
        None => None,
    }
}

/// The text type that a `varchar` name stands for.
pub open spec fn varchar_type(s: Seq<char>) -> Option<DataTypeView> {
    if s == "varchar"@ {
        Some(DataTypeView::Text { max_len: None })
    } else {
        match base_and_modifier(s) {
            Some((base, n)) => if base == "varchar"@ {
                Some(DataTypeView::Text { max_len: Some(n) })
            } else {
                None
            },
            None => None,
        }
    }
}

/// Resolves a `varchar` name.
pub fn parse_varchar_type_name(type_text: &str) -> (out: Option<DataType>)
    ensures
        type_view(out) == varchar_type(type_text@),
{
    if text_eq(type_text, "varchar") {
        return Some(DataType::Text { max_len: None });
    }
    match parse_single_type_modifier(type_text) {
        Some((base, n)) => if text_eq(base.as_str(), "varchar") {
            Some(DataType::Text { max_len: Some(n) })
        } else {
            None
        },
        None => None,
    }
}

/// The bit-string type that a name stands for.
pub open spec fn bit_type(s: Seq<char>) -> Option<DataTypeView> {
    if s == "bit"@ {
        Some(DataTypeView::Bit { len: Some(1) })
    } else if s == "varbit"@ || s == "bit varying"@ {
        Some(DataTypeView::VarBit { max_len: None })
    } else {
        match base_and_modifier(s) {
            Some((base, n)) => if n == 0 {
                None
            } else if base == "bit"@ {
                Some(DataTypeView::Bit { len: Some(n) })
            } else if base == "varbit"@ || base == "bit varying"@ {
                Some(DataTypeView::VarBit { max_len: Some(n) })
            } else {
                None
            },
            None => None,
        }
    }
}

/// Resolves the name of a bit-string type.
pub fn parse_bit_type_name(type_text: &str) -> (out: Option<DataType>)
    ensures
        type_view(out) == bit_type(type_text@),
{
    if text_eq(type_text, "bit") {
        return Some(DataType::Bit { len: Some(1) });
    }
    if text_eq(type_text, "varbit") || text_eq(type_text, "bit varying") {
        return Some(DataType::VarBit { max_len: None });
    }
    match parse_single_type_modifier(type_text) {
        Some((base, n)) => if n == 0 {
            None
        } else if text_eq(base.as_str(), "bit") {
            Some(DataType::Bit { len: Some(n) })
        } else if text_eq(base.as_str(), "varbit") || text_eq(base.as_str(), "bit varying") {
            Some(DataType::VarBit { max_len: Some(n) })
        } else {
            None
        },
        None => None,
    }
}

/// The first of two types that is there.
pub open spec fn first_type(a: Option<DataTypeView>, b: Option<DataTypeView>) -> Option<
    DataTypeView,
> {
    match a {
        Some(t) => Some(t),
        None => b,
    }
}

/// The text-search types, and the alias of object identifiers.
pub open spec fn search_type(n: Seq<char>) -> Option<DataTypeView> {
    if n == "tsvector"@ {
        Some(DataTypeView::TsVector)
    } else if n == "tsquery"@ {
        Some(DataTypeView::TsQuery)
    } else if n == "regnamespace"@ {
        Some(DataTypeView::Oid)
    } else {
        None
    }
}

/// The type that a cast names.
pub open spec fn cast_type(type_text: Seq<char>) -> Option<DataTypeView> {
    let s = text::lower(type_text);
    first_type(
        vector_type(s),
        first_type(
            decimal_type(s),
            first_type(
                padded_type(s),
                first_type(
                    varchar_type(s),
                    first_type(
                        bit_type(s),
                        first_type(
                            network_type(s),
                            first_type(plain_type(s), first_type(search_type(s), shape_type(s))),
                        ),
                    ),
                ),
            ),
        ),
    )
}

/// Resolves the type that a cast names.
pub fn resolve_cast_type(type_text: &str) -> (out: Option<DataType>)
    ensures
        type_view(out) == cast_type(type_text@),
{
    let folded = to_lower(type_text);
    let s = folded.as_str();
    if let Some(t) = parse_vector_family_type_name(s) {
        return Some(t);
    }
    if let Some(t) = parse_decimal_type_name(s) {
        return Some(t);
    }
    if let Some(t) = parse_bpchar_type_name(s) {
        return Some(t);
    }
    if let Some(t) = parse_varchar_type_name(s) {
        return Some(t);
    }
    if let Some(t) = parse_bit_type_name(s) {
        return Some(t);
    }
    if let Some(t) = parse_network_type_name(s) {
        return Some(t);
    }
    if let Some(t) = resolve_plain_type(s) {
        return Some(t);
    }
    if text_eq(s, "tsvector") {
        return Some(DataType::TsVector);
    }
    if text_eq(s, "tsquery") {
        return Some(DataType::TsQuery);
    }
    if text_eq(s, "regnamespace") {
        return Some(DataType::Oid);
    }
    resolve_shape_type(s)
}

/// Where the reading of a dotted name stands.
#[derive(Debug, Clone, Copy, PartialEq, Eq, Structural)]
pub enum PathPlace {
    Start,
    Plain,
    Quoted,
    Closed,
}

/// Whether a character may stand in a part of a dotted name without quotes.
pub open spec fn plain_part_char(c: char) -> bool {
    c != '.' && c != '"' && !text::is_space(c)
}

/// The parts of a dotted name from the `i`-th character on. A part in double
/// quotes is taken as it is, with a doubled quote for a quote; any other is
/// folded to lower case. No part is empty.
pub open spec fn path_from(
    s: Seq<char>,
    i: int,
    place: PathPlace,
    part: Seq<char>,
    acc: Seq<Seq<char>>,
) -> Option<Seq<Seq<char>>>
    decreases s.len() - i,
{
    if i < 0 || i >= s.len() {
        match place {
            PathPlace::Start => None,
            PathPlace::Quoted => None,
            PathPlace::Plain => Some(acc.push(part)),
            PathPlace::Closed => if part.len() == 0 {
                None
            } else {
                Some(acc.push(part))
            },
        }
    } else {
        let c = s[i];
        match place {
            PathPlace::Start => if c == '"' {
                path_from(s, i + 1, PathPlace::Quoted, Seq::empty(), acc)
            } else if plain_part_char(c) {
                path_from(s, i + 1, PathPlace::Plain, seq![text::lower_char(c)], acc)
            } else {
                None
            },
            PathPlace::Plain => if c == '.' {
                path_from(s, i + 1, PathPlace::Start, Seq::empty(), acc.push(part))
            } else if plain_part_char(c) {
                path_from(s, i + 1, PathPlace::Plain, part.push(text::lower_char(c)), acc)
            } else {
                None
            },
            PathPlace::Quoted => if c != '"' {
                path_from(s, i + 1, PathPlace::Quoted, part.push(c), acc)
            } else if i + 1 < s.len() && s[i + 1] == '"' {
                path_from(s, i + 2, PathPlace::Quoted, part.push('"'), acc)
            } else {
                path_from(s, i + 1, PathPlace::Closed, part, acc)
            },
            PathPlace::Closed => if c == '.' && part.len() > 0 {
                path_from(s, i + 1, PathPlace::Start, Seq::empty(), acc.push(part))
            } else {
                None
            },
        }
    }
}

/// The parts of a dotted name.
pub open spec fn name_path(s: Seq<char>) -> Option<Seq<Seq<char>>> {
    path_from(text::trim(s), 0, PathPlace::Start, Seq::empty(), Seq::empty())
}

/// Splits a dotted name into its parts.
pub fn parse_pg_identifier_path(text: &str) -> (out: Option<Vec<String>>)
    ensures
        (match out {
            Some(parts) => Some(list::strings_view(parts@)),
            None => None,
        }) == name_path(text@),
{
    let t = trimmed(text);
    let s = chars_of(t.as_str());
    let mut parts: Vec<String> = Vec::new();
    let mut part: Vec<char> = Vec::new();
    let mut place = PathPlace::Start;
    let mut i: usize = 0;
    assert(list::strings_view(parts@) =~= Seq::empty());
    while i < s.len()
        invariant
            i <= s.len(),
            s@ == text::trim(text@),
            path_from(s@, i as int, place, part@, list::strings_view(parts@)) == path_from(
                s@,
                0,
                PathPlace::Start,
                Seq::empty(),
                Seq::empty(),
            ),
        decreases s.len() - i,
    {
        let c = s[i];
        let mut next: usize = i + 1;
        match place {
            PathPlace::Start => {
                if c == '"' {
                    place = PathPlace::Quoted;
                    part = Vec::new();
                } else if c != '.' && !text::space(c) {
                    place = PathPlace::Plain;
                    part = Vec::new();
                    part.push(text::to_lower_char(c));
                    assert(part@ =~= seq![text::lower_char(c)]);
                } else {
                    return None;
                }
            },
            PathPlace::Plain => {
                if c == '.' {
                    let done = text_of(&part, 0, part.len());
                    assert(part@.subrange(0, part@.len() as int) =~= part@);
                    proof {
                        list::lemma_strings_push(parts@, done);
                    }
                    parts.push(done);
                    place = PathPlace::Start;
                    part = Vec::new();
                } else if c != '"' && !text::space(c) {
                    part.push(text::to_lower_char(c));
                } else {
                    return None;
                }
            },
            PathPlace::Quoted => {
                if c != '"' {
                    part.push(c);
                } else if i + 1 < s.len() && s[i + 1] == '"' {
                    part.push('"');
                    next = i + 2;
                } else {
                    place = PathPlace::Closed;
                }
            },
            PathPlace::Closed => {
                if c == '.' && part.len() > 0 {
                    let done = text_of(&part, 0, part.len());
                    assert(part@.subrange(0, part@.len() as int) =~= part@);
                    proof {
                        list::lemma_strings_push(parts@, done);
                    }
                    parts.push(done);
                    place = PathPlace::Start;
                    part = Vec::new();
                } else {
                    return None;
                }
            },
        }
        i = next;
    }
    match place {
        PathPlace::Start => None,
        PathPlace::Quoted => None,
        _ => {
            if matches!(place, PathPlace::Closed) && part.len() == 0 {
                return None;
            }
            let done = text_of(&part, 0, part.len());
            assert(part@.subrange(0, part@.len() as int) =~= part@);
            proof {
                list::lemma_strings_push(parts@, done);
            }
            parts.push(done);
            Some(parts)
        },
    }
}

/// The type that a cast names, among the builtin types or those of a catalog.
pub open spec fn cast_type_in(type_text: Seq<char>, cat: CatalogView) -> Option<DataTypeView> {
    match cast_type(type_text) {
        Some(t) => Some(t),
        None => match name_path(type_text) {
            None => None,
            Some(parts) => if parts.len() == 1 {
                first_type(cast_type(parts[0]), (cat.named_type)(parts[0]))
            } else if parts.len() == 2 {
                if text::same_fold(parts[0], "pg_catalog"@) && cast_type(parts[1]) is Some {
                    cast_type(parts[1])
                } else {
                    (cat.named_type_in)(parts[0], parts[1])
                }
            } else {
                None
            },
        },
    }
}

/// Resolves the type that a cast names, among the builtin types or those of a
/// catalog.
pub fn resolve_cast_type_with_catalog<C: Catalog>(type_text: &str, catalog: &C) -> (out: Option<
    DataType,
>)
    ensures
        type_view(out) == cast_type_in(type_text@, catalog.model()),
{
    if let Some(t) = resolve_cast_type(type_text) {
        return Some(t);
    }
    let parts = match parse_pg_identifier_path(type_text) {
        Some(parts) => parts,
        None => return None,
    };
    if parts.len() == 1 {
        assert(list::strings_view(parts@)[0] == parts@[0]@);
        match resolve_cast_type(parts[0].as_str()) {
            Some(t) => Some(t),
            None => catalog.lookup_type(parts[0].as_str()),
        }
    } else if parts.len() == 2 {
        assert(list::strings_view(parts@)[0] == parts@[0]@);
        assert(list::strings_view(parts@)[1] == parts@[1]@);
        if eq_fold(parts[0].as_str(), "pg_catalog") {
            if let Some(t) = resolve_cast_type(parts[1].as_str()) {
                return Some(t);
            }
        }
        catalog.lookup_type_in_schema(parts[0].as_str(), parts[1].as_str())
    } else {
        None
    }
}

/// The family that a vector type belongs to, as a number.
pub open spec fn family_kind(t: DataTypeView) -> Option<u8> {
    match t {
        DataTypeView::Vector { .. } => Some(0),
        DataTypeView::HalfVec { .. } => Some(1),
        DataTypeView::SparseVec { .. } => Some(2),
        DataTypeView::BitVec { .. } => Some(3),
        _ => None,
    }
}

/// The family that a vector type belongs to, as a number.
pub fn vector_family_kind(data_type: &DataType) -> (out: Option<u8>)
    ensures
        out == family_kind(data_type@),
{
    match data_type {
        DataType::Vector { .. } => Some(0),
        DataType::HalfVec { .. } => Some(1),
        DataType::SparseVec { .. } => Some(2),
        DataType::BitVec { .. } => Some(3),
        _ => None,
    }
}

/// The number of dimensions of a vector type, where it is fixed.
pub open spec fn dims_of(t: DataTypeView) -> Option<u32> {
    match t {
        DataTypeView::Vector { dims } => dims,
        DataTypeView::HalfVec { dims } => dims,
        DataTypeView::SparseVec { dims } => dims,
        DataTypeView::BitVec { dims } => dims,
        _ => None,
    }
}

/// The number of dimensions of a vector type, where it is fixed.
pub fn vector_dims(data_type: &DataType) -> (out: Option<u32>)
    ensures
        out == dims_of(data_type@),
{
    match data_type {
        DataType::Vector { dims } => *dims,
        DataType::HalfVec { dims } => *dims,
        DataType::SparseVec { dims } => *dims,
        DataType::BitVec { dims } => *dims,
        _ => None,
    }
}

/// Whether two numbers of dimensions can be the same.
pub open spec fn dims_agree(left: Option<u32>, right: Option<u32>) -> bool {
    left is None || right is None || left == right
}

/// Whether two numbers of dimensions can be the same.
pub fn dims_compatible(left: Option<u32>, right: Option<u32>) -> (yes: bool)
    ensures
        yes == dims_agree(left, right),
{
    match (left, right) {
        (Some(l), Some(r)) => l == r,
        _ => true,
    }
}

/// Whether a vector type can be cast to another without a change.
pub open spec fn family_cast_agrees(target: DataTypeView, actual: DataTypeView) -> bool {
    family_kind(target) == family_kind(actual) && dims_agree(dims_of(target), dims_of(actual))
}

/// Whether a vector type can be cast to another without a change.
pub fn vector_family_cast_matches(target: &DataType, actual: &DataType) -> (yes: bool)
    ensures
        yes == family_cast_agrees(target@, actual@),
{
    let same_kind = match (vector_family_kind(target), vector_family_kind(actual)) {
        (Some(a), Some(b)) => a == b,
        (None, None) => true,
        _ => false,
    };
    same_kind && dims_compatible(vector_dims(target), vector_dims(actual))
}

/// Whether a literal of the second type is what a cast to the first asks for.
pub open spec fn cast_done(target: DataTypeView, actual: DataTypeView) -> bool {
    ||| target == actual
    ||| target matches DataTypeView::Vector { dims: None } && actual matches DataTypeView::Vector {
        dims: Some(_),
    }
    ||| target matches DataTypeView::Decimal { precision: None, scale: None } && actual is Decimal
    ||| datatype::vector_family(target) && datatype::vector_family(actual) && family_cast_agrees(
        target,
        actual,
    )
}

/// Whether a literal of the second type is what a cast to the first asks for.
pub fn cast_result_matches(target: &DataType, actual: &DataType) -> (yes: bool)
    ensures
        yes == cast_done(target@, actual@),
{
    if target.same(actual) {
        return true;
    }
    match (target, actual) {
        (DataType::Vector { dims: None }, DataType::Vector { dims: Some(_) }) => return true,
        (
            DataType::Decimal { precision: None, scale: None },
            DataType::Decimal { .. },
        ) => return true,
        _ => {},
    }
    target.is_vector_family() && actual.is_vector_family() && vector_family_cast_matches(
        target,
        actual,
    )
}

} // verus!
