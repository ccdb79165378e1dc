//! Coercion of literals to the type that their place asks for.
use crate::catalog::{Catalog, CatalogView};
use crate::datatype::{DataType, DataTypeView};
use crate::dialect::clock::{
    parse_time_of_day_micros, parse_timestamp_literal, parse_timestamptz_literal,
    parse_timetz_literal,
};
use crate::dialect::json::{keep_checked_text, normalize_jsonb_text};
use crate::dialect::number::{
    decimal_from_numeric_value, fold_signed_literal, money_from_literal_value,
    oid_from_literal_value, parse_bool_text, parse_oid_text,
};
use crate::dialect::reading::{Readings, ReadingsView};
use crate::dialect::typename::{parse_pg_identifier_path, vector_family_cast_matches};
use crate::dialect::{clock, json, number, reading, typename};
use crate::list;
use crate::query::{ScalarExpr, ScalarExprView};
use crate::render;
use crate::text::{chars_of, owned, read_i16, read_i32, read_i64, text_eq, text_of};
use crate::value::{FloatValue, FloatValueView, NetworkKind, Value, ValueView, VectorKind};
use crate::{datatype, query, text, value};
use vstd::prelude::*;

verus! {

/// A value and its type.
pub type Typed = (ValueView, DataTypeView);

/// The network address type of a kind.
pub open spec fn network_kind_type(k: NetworkKind) -> DataTypeView {
    match k {
        NetworkKind::Inet => DataTypeView::Inet,
        NetworkKind::Cidr => DataTypeView::Cidr,
        NetworkKind::MacAddr => DataTypeView::MacAddr,
        NetworkKind::MacAddr8 => DataTypeView::MacAddr8,
    }
}

/// The vector type of a family.
pub open spec fn vector_kind_type(k: VectorKind, dims: Option<u32>) -> DataTypeView {
    match k {
        VectorKind::Vector => DataTypeView::Vector { dims },
        VectorKind::HalfVec => DataTypeView::HalfVec { dims },
        VectorKind::SparseVec => DataTypeView::SparseVec { dims },
        VectorKind::BitVec => DataTypeView::BitVec { dims },
    }
}

/// The type of a value.
pub open spec fn value_type(v: ValueView) -> DataTypeView {
    match v {
        ValueView::Null => DataTypeView::Null,
        ValueView::Bool(_) => DataTypeView::Bool,
        ValueView::Int16(_) => DataTypeView::Int16,
        ValueView::Int32(_) => DataTypeView::Int32,
        ValueView::Int64(_) => DataTypeView::Int64,
        ValueView::Float32(_) => DataTypeView::Float32,
        ValueView::Float64(_) => DataTypeView::Float64,
        ValueView::Decimal { scale, .. } => DataTypeView::Decimal {
            precision: None,
            scale: Some(scale),
        },
        ValueView::Money(_) => DataTypeView::Money,
        ValueView::Text(_) => DataTypeView::Text { max_len: None },
        ValueView::Char(_) => DataTypeView::Char { len: None },
        ValueView::Json(_) => DataTypeView::Json,
        ValueView::Jsonb(_) => DataTypeView::Jsonb,
        ValueView::Xml(_) => DataTypeView::Xml,
        ValueView::Bytea(_) => DataTypeView::Bytea,
        ValueView::Uuid(_) => DataTypeView::Uuid,
        ValueView::Date(_) => DataTypeView::Date,
        ValueView::Time(_) => DataTypeView::Time,
        ValueView::TimeTz { .. } => DataTypeView::TimeTz,
        ValueView::Timestamp(_) => DataTypeView::Timestamp,
        ValueView::TimestampTz(_) => DataTypeView::TimestampTz,
        ValueView::Interval { .. } => DataTypeView::Interval,
        ValueView::Oid(_) => DataTypeView::Oid,
        ValueView::RegClass(_) => DataTypeView::RegClass,
        ValueView::RegType(_) => DataTypeView::RegType,
        ValueView::PgLsn(_) => DataTypeView::PgLsn,
        ValueView::BitString(_) => DataTypeView::VarBit { max_len: None },
        ValueView::Network { kind, .. } => network_kind_type(kind),
        ValueView::Range { range_type, .. } => DataTypeView::Range(range_type),
        ValueView::Geometry { geometry_type, .. } => DataTypeView::Geometry(geometry_type),
        ValueView::Vector { family, dims, .. } => vector_kind_type(family, Some(dims)),
        ValueView::Array { element_type, .. } => DataTypeView::Array(Box::new(element_type)),
    }
}

impl Value {
    /// The type of the value.
    pub fn data_type(&self) -> (t: DataType)
        ensures
            t@ == value_type(self@),
    {
        proof {
            reveal_with_fuel(DataType::view, 2);
        }
        match self {
            Value::Null => DataType::Null,
            Value::Bool(_) => DataType::Bool,
            Value::Int16(_) => DataType::Int16,
            Value::Int32(_) => DataType::Int32,
            Value::Int64(_) => DataType::Int64,
            Value::Float32(_) => DataType::Float32,
            Value::Float64(_) => DataType::Float64,
            Value::Decimal { scale, .. } => DataType::Decimal {
                precision: None,
                scale: Some(*scale),
            },
            Value::Money(_) => DataType::Money,
            Value::Text(_) => DataType::Text { max_len: None },
            Value::Char(_) => DataType::Char { len: None },
            Value::Json(_) => DataType::Json,
            Value::Jsonb(_) => DataType::Jsonb,
            Value::Xml(_) => DataType::Xml,
            Value::Bytea(_) => DataType::Bytea,
            Value::Uuid(_) => DataType::Uuid,
            Value::Date(_) => DataType::Date,
            Value::Time(_) => DataType::Time,
            Value::TimeTz { .. } => DataType::TimeTz,
            Value::Timestamp(_) => DataType::Timestamp,
            Value::TimestampTz(_) => DataType::TimestampTz,
            Value::Interval { .. } => DataType::Interval,
            Value::Oid(_) => DataType::Oid,
            Value::RegClass(_) => DataType::RegClass,
            Value::RegType(_) => DataType::RegType,
            Value::PgLsn(_) => DataType::PgLsn,
            Value::BitString(_) => DataType::VarBit { max_len: None },
            Value::Network { kind, .. } => match kind {
                NetworkKind::Inet => DataType::Inet,
                NetworkKind::Cidr => DataType::Cidr,
                NetworkKind::MacAddr => DataType::MacAddr,
                NetworkKind::MacAddr8 => DataType::MacAddr8,
            },
            Value::Range { range_type, .. } => DataType::Range(*range_type),
            Value::Geometry { geometry_type, .. } => DataType::Geometry(*geometry_type),
            Value::Vector { family, dims, .. } => match family {
                VectorKind::Vector => DataType::Vector { dims: Some(*dims) },
                VectorKind::HalfVec => DataType::HalfVec { dims: Some(*dims) },
                VectorKind::SparseVec => DataType::SparseVec { dims: Some(*dims) },
                VectorKind::BitVec => DataType::BitVec { dims: Some(*dims) },
            },
            Value::Array { element_type, .. } => DataType::Array(
                Box::new(element_type.duplicate()),
            ),
        }
    }
}

/// An integer halved `k` times, rounding down.
pub open spec fn halved(n: int, k: int) -> int
    decreases k,
{
    if k <= 0 {
        n
    } else {
        halved(n, k - 1) / 2
    }
}

/// The lowest `width` binary digits of an integer, the highest of them first.
pub open spec fn low_bits(n: int, width: nat) -> Seq<bool> {
    Seq::new(width, |i: int| halved(n, width - 1 - i) % 2 == 1)
}

fn bits_from_i64(n: i64, width: u32) -> (bits: Vec<bool>)
    ensures
        bits@ == low_bits(n as int, width as nat),
{
    let mut digits: Vec<bool> = Vec::new();
    let mut rest: i64 = n;
    let mut k: u32 = 0;
    while k < width
        invariant
            k <= width,
            digits.len() == k,
            rest == halved(n as int, k as int),
            forall|j: int| 0 <= j < k ==> (#[trigger] digits@[j]) == (halved(n as int, j) % 2 == 1),
        decreases width - k,
    {
        let odd = rest % 2 != 0;
        assert(odd == ((rest as int) % 2 == 1));
        digits.push(odd);
        let next: i64 = if rest >= 0 {
            rest / 2
        } else if odd {
            -1 - (-1 - rest) / 2
        } else {
            -((-1 - rest) / 2) - 1
        };
        assert(next == (rest as int) / 2);
        rest = next;
        k = k + 1;
    }
    let mut bits: Vec<bool> = Vec::new();
    let mut i: u32 = 0;
    while i < width
        invariant
            i <= width,
            digits.len() == width,
            bits.len() == i,
            forall|j: int|
                0 <= j < width ==> (#[trigger] digits@[j]) == (halved(n as int, j) % 2 == 1),
            forall|j: int| 0 <= j < i ==> (#[trigger] bits@[j]) == digits@[width - 1 - j],
        decreases width - i,
    {
        bits.push(digits[(width - 1 - i) as usize]);
        i = i + 1;
    }
    assert(bits@ =~= low_bits(n as int, width as nat));
    bits
}

/// The number of bits that an integer becomes in a bit-string type.
pub open spec fn integer_width(target: DataTypeView) -> Option<u32> {
    match target {
        DataTypeView::Bit { len } => Some(
            match len {
                Some(n) => n,
                None => 1,
            },
        ),
        DataTypeView::VarBit { max_len } => Some(
            match max_len {
                Some(n) => n,
                None => 64,
            },
        ),
        _ => None,
    }
}

/// An integer as a bit string of the given type.
pub open spec fn integer_bits(n: int, target: DataTypeView) -> Option<Seq<bool>> {
    match integer_width(target) {
        Some(w) => Some(low_bits(n, w as nat)),
        None => None,
    }
}

/// A list of bits as a model.
pub open spec fn bits_view(b: Option<Vec<bool>>) -> Option<Seq<bool>> {
    match b {
        Some(x) => Some(x@),
        None => None,
    }
}

/// Turns an integer into a bit string.
pub fn bit_string_from_integer_target(n: i64, target: &DataType) -> (out: Option<Vec<bool>>)
    ensures
        bits_view(out) == integer_bits(n as int, target@),
{
    let width: u32 = match target {
        DataType::Bit { len } => match len {
            Some(w) => *w,
            None => 1,
        },
        DataType::VarBit { max_len } => match max_len {
            Some(w) => *w,
            None => 64,
        },
        _ => return None,
    };
    Some(bits_from_i64(n, width))
}

/// Bits cut off, or filled up with zeros, to the given length.
pub open spec fn resized(bits: Seq<bool>, len: nat) -> Seq<bool> {
    Seq::new(
        len,
        |i: int|
            if i < bits.len() {
                bits[i]
            } else {
                false
            },
    )
}

/// Bits as a value of a bit-string type. Only an explicit cast changes their
/// number.
pub open spec fn fitted_bits(bits: Seq<bool>, target: DataTypeView, explicit: bool) -> Option<
    Seq<bool>,
> {
    match target {
        DataTypeView::Bit { len: Some(n) } => if bits.len() == n || explicit {
            Some(resized(bits, n as nat))
        } else {
            None
        },
        DataTypeView::VarBit { max_len: Some(n) } => if bits.len() <= n {
            Some(bits)
        } else if explicit {
            Some(resized(bits, n as nat))
        } else {
            None
        },
        _ => Some(bits),
    }
}

fn resize(bits: &Vec<bool>, len: u32) -> (out: Vec<bool>)
    ensures
        out@ == resized(bits@, len as nat),
{
    let mut out: Vec<bool> = Vec::new();
    let mut i: u32 = 0;
    while i < len
        invariant
            i <= len,
            out.len() == i,
            forall|j: int| 0 <= j < i ==> (#[trigger] out@[j]) == resized(bits@, len as nat)[j],
        decreases len - i,
    {
        if (i as usize) < bits.len() {
            out.push(bits[i as usize]);
        } else {
            out.push(false);
        }
        i = i + 1;
    }
    assert(out@ =~= resized(bits@, len as nat));
    out
}

fn fit_bits(bits: Vec<bool>, target: &DataType, explicit: bool) -> (out: Option<Vec<bool>>)
    ensures
        bits_view(out) == fitted_bits(bits@, target@, explicit),
{
    match target {
        DataType::Bit { len: Some(n) } => if bits.len() == *n as usize || explicit {
            Some(resize(&bits, *n))
        } else {
            None
        },
        DataType::VarBit { max_len: Some(n) } => if bits.len() <= *n as usize {
            Some(bits)
        } else if explicit {
            Some(resize(&bits, *n))
        } else {
            None
        },
        _ => Some(bits),
    }
}

/// The bits that a text stands for.
pub open spec fn bits_of_text(s: Seq<char>, r: ReadingsView) -> Option<Seq<bool>> {
    match reading::read_as(r, DataTypeView::VarBit { max_len: None }, s) {
        Some(ValueView::BitString(b)) => Some(b),
        _ => None,
    }
}

/// Reads a bit string.
pub fn parse_bit_string(s: &str, readings: &Readings) -> (out: Option<Vec<bool>>)
    ensures
        bits_view(out) == bits_of_text(s@, readings@),
{
    match readings.read(&DataType::VarBit { max_len: None }, s) {
        Some(Value::BitString(b)) => Some(b),
        _ => None,
    }
}

/// The bits that a literal stands for. Integers are bits in explicit casts only.
pub open spec fn bits_of(
    v: ValueView,
    target: DataTypeView,
    explicit: bool,
    r: ReadingsView,
) -> Option<
    Seq<bool>,
> {
    match v {
        ValueView::BitString(b) => Some(b),
        ValueView::Text(s) => bits_of_text(s, r),
        ValueView::Char(s) => bits_of_text(s, r),
        ValueView::Int16(n) => if explicit {
            integer_bits(n as int, target)
        } else {
            None
        },
        ValueView::Int32(n) => if explicit {
            integer_bits(n as int, target)
        } else {
            None
        },
        ValueView::Int64(n) => if explicit {
            integer_bits(n as int, target)
        } else {
            None
        },
        _ => None,
    }
}

/// A literal coerced to a bit-string type, and nothing where it cannot be.
pub open spec fn to_bit_string(
    v: ValueView,
    t: DataTypeView,
    target: DataTypeView,
    explicit: bool,
    r: ReadingsView,
) -> Option<Typed> {
    if !datatype::bit_string(target) {
        None
    } else if t is Null {
        Some((v, t))
    } else {
        match bits_of(v, target, explicit, r) {
            None => None,
            Some(bits) => match fitted_bits(bits, target, explicit) {
                None => None,
                Some(b) => Some((ValueView::BitString(b), target)),
            },
        }
    }
}

/// An optional typed value as a model.
pub open spec fn typed_view(x: Option<(Value, DataType)>) -> Option<Typed> {
    match x {
        Some((v, t)) => Some((v@, t@)),
        None => None,
    }
}

fn make_bit_string(
    v: &Value,
    t: &DataType,
    target: &DataType,
    explicit: bool,
    readings: &Readings,
) -> (out: Option<(Value, DataType)>)
    ensures
        typed_view(out) == to_bit_string(v@, t@, target@, explicit, readings@),
{
    if !target.is_bit_string() {
        return None;
    }
    if t.is_null() {
        return Some((v.duplicate(), t.duplicate()));
    }
    let parsed = match v {
        Value::BitString(b) => Some(list::copy_list(b)),
        Value::Text(s) => parse_bit_string(s.as_str(), readings),
        Value::Char(s) => parse_bit_string(s.as_str(), readings),
        Value::Int16(n) => if explicit {
            bit_string_from_integer_target(*n as i64, target)
        } else {
            None
        },
        Value::Int32(n) => if explicit {
            bit_string_from_integer_target(*n as i64, target)
        } else {
            None
        },
        Value::Int64(n) => if explicit {
            bit_string_from_integer_target(*n, target)
        } else {
            None
        },
        _ => None,
    };
    match parsed {
        None => None,
        Some(bits) => match fit_bits(bits, target, explicit) {
            None => None,
            Some(b) => Some((Value::BitString(b), target.duplicate())),
        },
    }
}

/// A literal coerced to a network address type, and nothing where it cannot be.
pub open spec fn to_network(
    v: ValueView,
    t: DataTypeView,
    target: DataTypeView,
    r: ReadingsView,
) -> Option<
    Typed,
> {
    if !datatype::network_address(target) {
        None
    } else if t is Null || t == target {
        Some((v, t))
    } else {
        let parsed = match v {
            ValueView::Network { kind, .. } => if network_kind_type(kind) == target {
                Some(v)
            } else {
                None
            },
            ValueView::Text(s) => reading::read_as(r, target, s),
            ValueView::Char(s) => reading::read_as(r, target, s),
            _ => None,
        };
        match parsed {
            Some(x) => Some((x, target)),
            None => None,
        }
    }
}

fn make_network(v: &Value, t: &DataType, target: &DataType, readings: &Readings) -> (out: Option<
    (Value, DataType),
>)
    ensures
        typed_view(out) == to_network(v@, t@, target@, readings@),
{
    if !target.is_network_address() {
        return None;
    }
    if t.is_null() || t.same(target) {
        return Some((v.duplicate(), t.duplicate()));
    }
    let parsed = match v {
        Value::Network { .. } => if v.data_type().same(target) {
            Some(v.duplicate())
        } else {
            None
        },
        Value::Text(s) => readings.read(target, s.as_str()),
        Value::Char(s) => readings.read(target, s.as_str()),
        _ => None,
    };
    match parsed {
        Some(x) => Some((x, target.duplicate())),
        None => None,
    }
}

/// Whether all characters from the `i`-th on are blanks.
pub open spec fn blank_from(s: Seq<char>, i: int) -> bool {
    forall|j: int| i <= j < s.len() ==> (#[trigger] s[j]) == ' '
}

/// A text filled up with blanks to the given length.
pub open spec fn padded(s: Seq<char>, len: nat) -> Seq<char> {
    Seq::new(
        len,
        |i: int|
            if i < s.len() {
                s[i]
            } else {
                ' '
            },
    )
}

/// A text as a value of a blank-padded type. Other characters than blanks are
/// cut off in explicit casts only.
pub open spec fn padded_text(s: Seq<char>, len: Option<u32>, explicit: bool) -> Option<Seq<char>> {
    match len {
        None => Some(s),
        Some(n) => if s.len() <= n || explicit || blank_from(s, n as int) {
            Some(padded(s, n as nat))
        } else {
            None
        },
    }
}

fn is_blank_from(s: &Vec<char>, from: usize) -> (yes: bool)
    ensures
        yes == blank_from(s@, from as int),
{
    let mut i: usize = from;
    while i < s.len()
        invariant
            from <= i,
            forall|j: int| from <= j < i ==> (#[trigger] s@[j]) == ' ',
        decreases s.len() - i,
    {
        if s[i] != ' ' {
            return false;
        }
        i = i + 1;
    }
    true
}

/// Fits a text into a blank-padded type.
pub fn coerce_bpchar_text(s: &str, len: Option<u32>, explicit: bool) -> (out: Option<String>)
    ensures
        (match out {
            Some(x) => Some(x@),
            None => None,
        }) == padded_text(s@, len, explicit),
{
    let n: u32 = match len {
        None => return Some(owned(s)),
        Some(n) => n,
    };
    let chars = chars_of(s);
    if chars.len() > n as usize && !explicit && !is_blank_from(&chars, n as usize) {
        return None;
    }
    let mut out: Vec<char> = Vec::new();
    let mut i: u32 = 0;
    while i < n
        invariant
            i <= n,
            chars@ == s@,
            out.len() == i,
            forall|j: int| 0 <= j < i ==> (#[trigger] out@[j]) == padded(s@, n as nat)[j],
        decreases n - i,
    {
        if (i as usize) < chars.len() {
            out.push(chars[i as usize]);
        } else {
            out.push(' ');
        }
        i = i + 1;
    }
    assert(out@.subrange(0, out@.len() as int) =~= padded(s@, n as nat));
    Some(text_of(&out, 0, out.len()))
}

/// A literal coerced to a blank-padded type, and nothing where it cannot be.
pub open spec fn to_padded(
    v: ValueView,
    t: DataTypeView,
    target: DataTypeView,
    explicit: bool,
) -> Option<
    Typed,
> {
    match target {
        DataTypeView::Char { len } => if t is Null || t == target {
            Some((v, t))
        } else {
            let text = match v {
                ValueView::Text(s) => Some(s),
                ValueView::Char(s) => Some(s),
                _ => if explicit {
                    Some(render::value_text(v))
                } else {
                    None
                },
            };
            match text {
                None => None,
                Some(s) => match padded_text(s, len, explicit) {
                    Some(x) => Some((ValueView::Char(x), target)),
                    None => None,
                },
            }
        },
        _ => None,
    }
}

fn make_padded(v: &Value, t: &DataType, target: &DataType, explicit: bool) -> (out: Option<
    (Value, DataType),
>)
    ensures
        typed_view(out) == to_padded(v@, t@, target@, explicit),
{
    let len = match target {
        DataType::Char { len } => *len,
        _ => return None,
    };
    if t.is_null() || t.same(target) {
        return Some((v.duplicate(), t.duplicate()));
    }
    let text = match v {
        Value::Text(s) => s.clone(),
        Value::Char(s) => s.clone(),
        _ => if explicit {
            v.show()
        } else {
            return None;
        },
    };
    match coerce_bpchar_text(text.as_str(), len, explicit) {
        Some(x) => Some((Value::Char(x), target.duplicate())),
        None => None,
    }
}

/// A literal coerced to an alias of object identifiers or to a log position,
/// and nothing where it cannot be.
pub open spec fn to_oid_alias(
    v: ValueView,
    t: DataTypeView,
    target: DataTypeView,
    r: ReadingsView,
) -> Option<
    Typed,
> {
    if !datatype::oid_alias(target) && !(target is PgLsn) {
        None
    } else if t is Null && v is Null {
        Some((v, target))
    } else {
        match target {
            DataTypeView::PgLsn => match lsn_of(v, r) {
                Some(n) => Some((ValueView::PgLsn(n), target)),
                None => None,
            },
            _ => match number::oid_of(v, r) {
                Some(n) => Some((oid_value(n, target), target)),
                None => None,
            },
        }
    }
}

/// The log position that a literal stands for.
pub open spec fn lsn_of(v: ValueView, r: ReadingsView) -> Option<u64> {
    match v {
        ValueView::PgLsn(n) => Some(n),
        ValueView::Text(s) => lsn_of_text(s, r),
        ValueView::Char(s) => lsn_of_text(s, r),
        _ => None,
    }
}

/// The log position that a text stands for.
pub open spec fn lsn_of_text(s: Seq<char>, r: ReadingsView) -> Option<u64> {
    match reading::read_as(r, DataTypeView::PgLsn, s) {
        Some(ValueView::PgLsn(n)) => Some(n),
        _ => None,
    }
}

/// An object identifier as a value of one of its types.
pub open spec fn oid_value(n: u32, target: DataTypeView) -> ValueView {
    match target {
        DataTypeView::RegClass => ValueView::RegClass(n),
        DataTypeView::RegType => ValueView::RegType(n),
        _ => ValueView::Oid(n),
    }
}

fn make_oid_value(n: u32, target: &DataType) -> (v: Value)
    ensures
        v@ == oid_value(n, target@),
{
    match target {
        DataType::RegClass => Value::RegClass(n),
        DataType::RegType => Value::RegType(n),
        _ => Value::Oid(n),
    }
}

/// Reads a log position.
pub fn parse_pg_lsn_text(s: &str, readings: &Readings) -> (out: Option<u64>)
    ensures
        out == lsn_of_text(s@, readings@),
{
    match readings.read(&DataType::PgLsn, s) {
        Some(Value::PgLsn(n)) => Some(n),
        _ => None,
    }
}

fn make_oid_alias(v: &Value, t: &DataType, target: &DataType, readings: &Readings) -> (out: Option<
    (Value, DataType),
>)
    ensures
        typed_view(out) == to_oid_alias(v@, t@, target@, readings@),
{
    if !target.is_oid_alias() && !matches!(target, DataType::PgLsn) {
        return None;
    }
    if t.is_null() && matches!(v, Value::Null) {
        return Some((v.duplicate(), target.duplicate()));
    }
    match target {
        DataType::PgLsn => {
            let lsn = match v {
                Value::PgLsn(n) => Some(*n),
                Value::Text(s) => parse_pg_lsn_text(s.as_str(), readings),
                Value::Char(s) => parse_pg_lsn_text(s.as_str(), readings),
                _ => None,
            };
            match lsn {
                Some(n) => Some((Value::PgLsn(n), target.duplicate())),
                None => None,
            }
        },
        _ => match oid_from_literal_value(v, readings) {
            Some(n) => Some((make_oid_value(n, target), target.duplicate())),
            None => None,
        },
    }
}

/// The decimal that a text stands for, with the given number of places or its
/// own. Digits beyond that number are the store's to round, and other texts than
/// plain digits are the store's to read.
pub open spec fn decimal_of_text(s: Seq<char>, scale: Option<i32>, r: ReadingsView) -> Option<
    (int, int),
> {
    match (number::decimal_value(s), scale) {
        (Some((n, places)), None) => Some((n, places)),
        (Some((n, places)), Some(target)) => if places <= target {
            match text::within(
                Some(n * clock::ten_to(target - places)),
                i64::MIN as int,
                i64::MAX as int,
            ) {
                Some(v) => Some((v, target as int)),
                None => None,
            }
        } else {
            stored_decimal(s, Some(target), r)
        },
        (None, _) => stored_decimal(s, scale, r),
    }
}

/// The decimal, of so many places or its own, that the store reads from a text.
pub open spec fn stored_decimal(s: Seq<char>, scale: Option<i32>, r: ReadingsView) -> Option<
    (int, int),
> {
    match reading::read_as(r, DataTypeView::Decimal { precision: None, scale }, s) {
        Some(ValueView::Decimal { value, scale }) => Some((value as int, scale as int)),
        _ => None,
    }
}

fn read_stored_decimal(s: &str, scale: Option<i32>, readings: &Readings) -> (out: Option<
    (i64, i32),
>)
    ensures
        (match out {
            Some(t) => Some((t.0 as int, t.1 as int)),
            None => None,
        }) == stored_decimal(s@, scale, readings@),
{
    match readings.read(&DataType::Decimal { precision: None, scale }, s) {
        Some(Value::Decimal { value, scale }) => Some((value, scale)),
        _ => None,
    }
}

fn scale_up(n: i64, places: i32) -> (out: Option<i64>)
    requires
        0 <= places,
    ensures
        (match out {
            Some(v) => Some(v as int),
            None => None,
        }) == text::within(
            Some(n * clock::ten_to(places as int)),
            i64::MIN as int,
            i64::MAX as int,
        ),
{
    proof {
        clock::ten_grows(0, places as int);
    }
    if n == 0 {
        assert(0 * clock::ten_to(places as int) == 0);
        return Some(0);
    }
    match number::pow10_i64(places as u32) {
        None => {
            let ghost f = clock::ten_to(places as int);
            assert(n * f > i64::MAX || n * f < i64::MIN) by (nonlinear_arith)
                requires
                    n != 0,
                    f > 0x7fff_ffff_ffff_ffff,
                    f != 0x8000_0000_0000_0000,
            ;
            None
        },
        Some(factor) => {
            assert(-0x8000_0000_0000_0000 * 0x8000_0000_0000_0000 <= n * factor
                <= 0x8000_0000_0000_0000 * 0x8000_0000_0000_0000) by (nonlinear_arith)
                requires
                    -0x8000_0000_0000_0000 <= n <= 0x7fff_ffff_ffff_ffff,
                    -0x8000_0000_0000_0000 <= factor <= 0x7fff_ffff_ffff_ffff,
            ;
            let v: i128 = n as i128 * factor as i128;
            if v < i64::MIN as i128 || v > i64::MAX as i128 {
                None
            } else {
                Some(v as i64)
            }
        },
    }
}

/// Reads a decimal with the given number of places or its own.
pub fn parse_decimal_text(s: &str, scale: Option<i32>, readings: &Readings) -> (out: Option<
    (i64, i32),
>)
    ensures
        (match out {
            Some(t) => Some((t.0 as int, t.1 as int)),
            None => None,
        }) == decimal_of_text(s@, scale, readings@),
{
    match (number::read_decimal(s), scale) {
        (Some((n, places)), None) => Some((n, places)),
        (Some((n, places)), Some(target)) => if places <= target {
            match scale_up(n, target - places) {
                Some(v) => Some((v, target)),
                None => None,
            }
        } else {
            read_stored_decimal(s, Some(target), readings)
        },
        (None, _) => read_stored_decimal(s, scale, readings),
    }
}

/// Whether one of the values is an array.
pub open spec fn holds_array(s: Seq<ValueView>) -> bool {
    exists|i: int| 0 <= i < s.len() && (#[trigger] s[i]) is Array
}

/// The lengths of an array and of the arrays in it, outermost first. There are
/// none where its parts differ in shape.
pub open spec fn array_dims(v: ValueView) -> Option<Seq<usize>>
    decreases v, 0int,
{
    match v {
        ValueView::Array { elements, .. } => if holds_array(elements) {
            match shared_dims(elements) {
                Some(d) => Some(seq![elements.len() as usize] + d),
                None => None,
            }
        } else {
            Some(seq![elements.len() as usize])
        },
        _ => None,
    }
}

/// The lengths that all the given arrays have.
pub open spec fn shared_dims(s: Seq<ValueView>) -> Option<Seq<usize>>
    decreases s, 1int,
{
    if s.len() == 0 {
        None
    } else {
        let d = array_dims(s[0]);
        if d is Some && forall|i: int| 0 <= i < s.len() ==> array_dims(#[trigger] s[i]) == d {
            d
        } else {
            None
        }
    }
}

fn any_array(list: &Vec<Value>) -> (yes: bool)
    ensures
        yes == holds_array(value::values_view(list@)),
{
    let mut i: usize = 0;
    while i < list.len()
        invariant
            i <= list.len(),
            forall|j: int| 0 <= j < i ==> !((#[trigger] value::values_view(list@)[j]) is Array),
        decreases list.len() - i,
    {
        assert(value::values_view(list@)[i as int] == list@[i as int]@);
        if matches!(list[i], Value::Array { .. }) {
            return true;
        }
        i = i + 1;
    }
    false
}

/// A list of lengths as a model.
pub open spec fn dims_view(d: Option<Vec<usize>>) -> Option<Seq<usize>> {
    match d {
        Some(x) => Some(x@),
        None => None,
    }
}

/// The lengths of an array and of the arrays in it.
pub fn array_dimensions(v: &Value) -> (out: Option<Vec<usize>>)
    ensures
        dims_view(out) == array_dims(v@),
    decreases v, 0int,
{
    match v {
        Value::Array { elements, .. } => {
            let mut dims: Vec<usize> = Vec::new();
            dims.push(elements.len());
            if any_array(elements) {
                match shared_dimensions(elements) {
                    Some(d) => {
                        let mut i: usize = 0;
                        let ghost start = dims@;
                        while i < d.len()
                            invariant
                                i <= d.len(),
                                dims@ == start + d@.take(i as int),
                            decreases d.len() - i,
                        {
                            dims.push(d[i]);
                            assert(dims@ =~= start + d@.take(i + 1));
                            i = i + 1;
                        }
                        assert(d@.take(i as int) =~= d@);
                        assert(start =~= seq![elements@.len() as usize]);
                        Some(dims)
                    },
                    None => None,
                }
            } else {
                assert(dims@ =~= seq![elements@.len() as usize]);
                Some(dims)
            }
        },
        _ => None,
    }
}

fn shared_dimensions(list: &Vec<Value>) -> (out: Option<Vec<usize>>)
    ensures
        dims_view(out) == shared_dims(value::values_view(list@)),
    decreases list, 1int,
{
    if list.len() == 0 {
        return None;
    }
    let ghost model = value::values_view(list@);
    let first = match array_dimensions(&list[0]) {
        Some(d) => d,
        None => return None,
    };
    let mut i: usize = 1;
    while i < list.len()
        invariant
            1 <= i <= list.len(),
            model == value::values_view(list@),
            array_dims(model[0]) == Some(first@),
            forall|j: int| 0 <= j < i ==> array_dims(#[trigger] model[j]) == Some(first@),
        decreases list.len() - i,
    {
        let same = match array_dimensions(&list[i]) {
            Some(d) => list::same_indices(&d, &first),
            None => false,
        };
        if !same {
            assert(array_dims(model[i as int]) != Some(first@));
            return None;
        }
        i = i + 1;
    }
    Some(first)
}

/// The type under which the store reads texts of a vector family.
pub open spec fn family_key(t: DataTypeView) -> DataTypeView {
    match t {
        DataTypeView::HalfVec { .. } => DataTypeView::HalfVec { dims: None },
        DataTypeView::SparseVec { .. } => DataTypeView::SparseVec { dims: None },
        DataTypeView::BitVec { .. } => DataTypeView::BitVec { dims: None },
        _ => DataTypeView::Vector { dims: None },
    }
}

/// The vector that a text stands for in a family.
pub open spec fn vector_of_text(target: DataTypeView, s: Seq<char>, r: ReadingsView) -> Option<
    ValueView,
> {
    if datatype::vector_family(target) {
        reading::read_as(r, family_key(target), s)
    } else {
        None
    }
}

/// Reads a vector of a family.
pub fn parse_vector_family_value(target: &DataType, s: &str, readings: &Readings) -> (out: Option<
    Value,
>)
    ensures
        reading::value_of(out) == vector_of_text(target@, s@, readings@),
{
    match target {
        DataType::Vector { .. } => readings.read(&DataType::Vector { dims: None }, s),
        DataType::HalfVec { .. } => readings.read(&DataType::HalfVec { dims: None }, s),
        DataType::SparseVec { .. } => readings.read(&DataType::SparseVec { dims: None }, s),
        DataType::BitVec { .. } => readings.read(&DataType::BitVec { dims: None }, s),
        _ => None,
    }
}

/// A literal converted to an integer type.
pub open spec fn to_integer(v: ValueView, target: DataTypeView) -> Option<Typed> {
    let n = match v {
        ValueView::Int16(n) => Some(n as int),
        ValueView::Int32(n) => Some(n as int),
        ValueView::Int64(n) => Some(n as int),
        ValueView::Text(s) => text::int_value(s),
        _ => None,
    };
    match target {
        DataTypeView::Int16 => match text::within(n, i16::MIN as int, i16::MAX as int) {
            Some(n) => if v is Int16 {
                None
            } else {
                Some((ValueView::Int16(n as i16), target))
            },
            None => None,
        },
        DataTypeView::Int32 => match text::within(n, i32::MIN as int, i32::MAX as int) {
            Some(n) => if v is Int32 {
                None
            } else {
                Some((ValueView::Int32(n as i32), target))
            },
            None => None,
        },
        DataTypeView::Int64 => match text::within(n, i64::MIN as int, i64::MAX as int) {
            Some(n) => if v is Int64 {
                None
            } else {
                Some((ValueView::Int64(n as i64), target))
            },
            None => None,
        },
        _ => None,
    }
}

fn make_integer(v: &Value, target: &DataType) -> (out: Option<(Value, DataType)>)
    ensures
        typed_view(out) == to_integer(v@, target@),
{
    match target {
        DataType::Int16 => match v {
            Value::Int32(n) => if *n >= i16::MIN as i32 && *n <= i16::MAX as i32 {
                Some((Value::Int16(*n as i16), DataType::Int16))
            } else {
                None
            },
            Value::Int64(n) => if *n >= i16::MIN as i64 && *n <= i16::MAX as i64 {
                Some((Value::Int16(*n as i16), DataType::Int16))
            } else {
                None
            },
            Value::Text(s) => match read_i16(s.as_str()) {
                Some(n) => Some((Value::Int16(n), DataType::Int16)),
                None => None,
            },
            _ => None,
        },
        DataType::Int32 => match v {
            Value::Int16(n) => Some((Value::Int32(*n as i32), DataType::Int32)),
            Value::Int64(n) => if *n >= i32::MIN as i64 && *n <= i32::MAX as i64 {
                Some((Value::Int32(*n as i32), DataType::Int32))
            } else {
                None
            },
            Value::Text(s) => match read_i32(s.as_str()) {
                Some(n) => Some((Value::Int32(n), DataType::Int32)),
                None => None,
            },
            _ => None,
        },
        DataType::Int64 => match v {
            Value::Int16(n) => Some((Value::Int64(*n as i64), DataType::Int64)),
            Value::Int32(n) => Some((Value::Int64(*n as i64), DataType::Int64)),
            Value::Text(s) => match read_i64(s.as_str()) {
                Some(n) => Some((Value::Int64(n), DataType::Int64)),
                None => None,
            },
            _ => None,
        },
        _ => None,
    }
}

/// A literal converted to a floating-point type.
pub open spec fn to_float(v: ValueView, target: DataTypeView) -> Option<Typed> {
    match target {
        DataTypeView::Float64 => match v {
            ValueView::Float32(x) => Some(
                (ValueView::Float64(FloatValueView::Single(Box::new(x))), target),
            ),
            ValueView::Int16(n) => Some(
                (ValueView::Float64(FloatValueView::Integer(n as i64)), target),
            ),
            ValueView::Int32(n) => Some(
                (ValueView::Float64(FloatValueView::Integer(n as i64)), target),
            ),
            ValueView::Int64(n) => Some((ValueView::Float64(FloatValueView::Integer(n)), target)),
            ValueView::Decimal { value, scale } => Some(
                (ValueView::Float64(FloatValueView::Decimal { value, scale }), target),
            ),
            _ => None,
        },
        DataTypeView::Float32 => match v {
            ValueView::Float64(x) => Some(
                (ValueView::Float32(FloatValueView::Single(Box::new(x))), target),
            ),
            ValueView::Int16(n) => Some(
                (ValueView::Float32(FloatValueView::Integer(n as i64)), target),
            ),
            ValueView::Int32(n) => Some(
                (ValueView::Float32(FloatValueView::Integer(n as i64)), target),
            ),
            ValueView::Int64(n) => Some((ValueView::Float32(FloatValueView::Integer(n)), target)),
            ValueView::Decimal { value, scale } => Some(
                (ValueView::Float32(FloatValueView::Decimal { value, scale }), target),
            ),
            _ => None,
        },
        _ => None,
    }
}

fn make_float(v: &Value, target: &DataType) -> (out: Option<(Value, DataType)>)
    ensures
        typed_view(out) == to_float(v@, target@),
{
    match target {
        DataType::Float64 => {
            let x = match v {
                Value::Float32(x) => FloatValue::Single(Box::new(x.duplicate())),
                Value::Int16(n) => FloatValue::Integer(*n as i64),
                Value::Int32(n) => FloatValue::Integer(*n as i64),
                Value::Int64(n) => FloatValue::Integer(*n),
                Value::Decimal { value, scale } => FloatValue::Decimal {
                    value: *value,
                    scale: *scale,
                },
                _ => return None,
            };
            Some((Value::Float64(x), DataType::Float64))
        },
        DataType::Float32 => {
            let x = match v {
                Value::Float64(x) => FloatValue::Single(Box::new(x.duplicate())),
                Value::Int16(n) => FloatValue::Integer(*n as i64),
                Value::Int32(n) => FloatValue::Integer(*n as i64),
                Value::Int64(n) => FloatValue::Integer(*n),
                Value::Decimal { value, scale } => FloatValue::Decimal {
                    value: *value,
                    scale: *scale,
                },
                _ => return None,
            };
            Some((Value::Float32(x), DataType::Float32))
        },
        _ => None,
    }
}

/// A literal converted to a type of days or times.
pub open spec fn to_temporal(v: ValueView, target: DataTypeView, r: ReadingsView) -> Option<Typed> {
    match (target, v) {
        (DataTypeView::TimestampTz, ValueView::Timestamp(n)) => Some(
            (ValueView::TimestampTz(n), target),
        ),
        (DataTypeView::Timestamp, ValueView::TimestampTz(n)) => Some(
            (ValueView::Timestamp(n), target),
        ),
        (DataTypeView::Time, ValueView::Text(s)) => match clock::time_value(s, r) {
            Some(n) => Some((ValueView::Time(n as i64), target)),
            None => None,
        },
        (DataTypeView::TimeTz, ValueView::Text(s)) => match clock::timetz_value(s, r) {
            Some((micros, offset)) => Some(
                (
                    ValueView::TimeTz { micros: micros as i64, offset_seconds: offset as i32 },
                    target,
                ),
            ),
            None => None,
        },
        (DataTypeView::Timestamp, ValueView::Text(s)) => match clock::timestamp_value(s, r) {
            Some(n) => Some((ValueView::Timestamp(n as i64), target)),
            None => None,
        },
        (DataTypeView::TimestampTz, ValueView::Text(s)) => match clock::timestamptz_value(s, r) {
            Some(n) => Some((ValueView::TimestampTz(n as i64), target)),
            None => None,
        },
        _ => None,
    }
}

fn make_temporal(v: &Value, target: &DataType, readings: &Readings) -> (out: Option<
    (Value, DataType),
>)
    ensures
        typed_view(out) == to_temporal(v@, target@, readings@),
{
    match (target, v) {
        (DataType::TimestampTz, Value::Timestamp(n)) => Some(
            (Value::TimestampTz(*n), DataType::TimestampTz),
        ),
        (DataType::Timestamp, Value::TimestampTz(n)) => Some(
            (Value::Timestamp(*n), DataType::Timestamp),
        ),
        (DataType::Time, Value::Text(s)) => match parse_time_of_day_micros(s.as_str(), readings) {
            Some(n) => Some((Value::Time(n), DataType::Time)),
            None => None,
        },
        (DataType::TimeTz, Value::Text(s)) => match parse_timetz_literal(s.as_str(), readings) {
            Some((micros, offset_seconds)) => Some(
                (Value::TimeTz { micros, offset_seconds }, DataType::TimeTz),
            ),
            None => None,
        },
        (DataType::Timestamp, Value::Text(s)) => match parse_timestamp_literal(s.as_str(), readings) {
            Some(n) => Some((Value::Timestamp(n), DataType::Timestamp)),
            None => None,
        },
        (DataType::TimestampTz, Value::Text(s)) => match parse_timestamptz_literal(
            s.as_str(),
            readings,
        ) {
            Some(n) => Some((Value::TimestampTz(n), DataType::TimestampTz)),
            None => None,
        },
        _ => None,
    }
}

/// A literal converted to an exact type: decimal or money.
pub open spec fn to_exact(v: ValueView, target: DataTypeView, r: ReadingsView) -> Option<Typed> {
    match target {
        DataTypeView::Decimal { precision, scale } => {
            let d = match v {
                ValueView::Text(s) => decimal_of_text(s, scale, r),
                _ => number::decimal_of(v, scale, r),
            };
            match d {
                Some((n, places)) => Some(
                    (
                        ValueView::Decimal { value: n as i64, scale: places as i32 },
                        DataTypeView::Decimal {
                            precision,
                            scale: match scale {
                                Some(s) => Some(s),
                                None => Some(places as i32),
                            },
                        },
                    ),
                ),
                None => None,
            }
        },
        DataTypeView::Money => match number::cents_of(v, r) {
            Some(n) => Some((ValueView::Money(n as i64), target)),
            None => None,
        },
        _ => None,
    }
}

fn make_exact(v: &Value, target: &DataType, readings: &Readings) -> (out: Option<(Value, DataType)>)
    ensures
        typed_view(out) == to_exact(v@, target@, readings@),
{
    match target {
        DataType::Decimal { precision, scale } => {
            let d = match v {
                Value::Text(s) => parse_decimal_text(s.as_str(), *scale, readings),
                _ => decimal_from_numeric_value(v, *scale, readings),
            };
            match d {
                Some((n, places)) => Some(
                    (
                        Value::Decimal { value: n, scale: places },
                        DataType::Decimal {
                            precision: *precision,
                            scale: match scale {
                                Some(s) => Some(*s),
                                None => Some(places),
                            },
                        },
                    ),
                ),
                None => None,
            }
        },
        DataType::Money => match money_from_literal_value(v, readings) {
            Some(n) => Some((Value::Money(n), DataType::Money)),
            None => None,
        },
        _ => None,
    }
}

/// A literal converted to a JSON type, given the compact text of the document
/// that it holds.
pub open spec fn to_json_given(
    v: ValueView,
    target: DataTypeView,
    compact: Option<Seq<char>>,
) -> Option<Typed> {
    match (target, v) {
        (DataTypeView::Json, ValueView::Text(s)) => match json::checked_text(s, compact) {
            Some(x) => Some((ValueView::Json(x), target)),
            None => None,
        },
        (DataTypeView::Json, ValueView::Jsonb(s)) => Some((ValueView::Json(s), target)),
        (DataTypeView::Jsonb, ValueView::Text(_)) | (
            DataTypeView::Jsonb,
            ValueView::Json(_),
        ) => match compact {
            Some(x) => Some((ValueView::Jsonb(x), target)),
            None => None,
        },
        _ => None,
    }
}

/// Converts a literal to a JSON type, given the compact text of the document
/// that it holds.
pub fn make_json_given(v: &Value, target: &DataType, compact: Option<String>) -> (out: Option<
    (Value, DataType),
>)
    ensures
        typed_view(out) == to_json_given(v@, target@, json::text_view(compact)),
{
    match (target, v) {
        (DataType::Json, Value::Text(s)) => match keep_checked_text(s.as_str(), &compact) {
            Some(x) => Some((Value::Json(x), DataType::Json)),
            None => None,
        },
        (DataType::Json, Value::Jsonb(s)) => Some((Value::Json(s.clone()), DataType::Json)),
        (DataType::Jsonb, Value::Text(_)) | (DataType::Jsonb, Value::Json(_)) => match compact {
            Some(x) => Some((Value::Jsonb(x), DataType::Jsonb)),
            None => None,
        },
        _ => None,
    }
}

/// A literal converted to a JSON type.
pub open spec fn to_json(v: ValueView, target: DataTypeView) -> Option<Typed> {
    to_json_given(
        v,
        target,
        match v {
            ValueView::Text(s) => json::json_compact(s),
            ValueView::Json(s) => json::json_compact(s),
            _ => None,
        },
    )
}

fn make_json(v: &Value, target: &DataType) -> (out: Option<(Value, DataType)>)
    ensures
        typed_view(out) == to_json(v@, target@),
{
    let compact = match v {
        Value::Text(s) => normalize_jsonb_text(s.as_str()),
        Value::Json(s) => normalize_jsonb_text(s.as_str()),
        _ => None,
    };
    make_json_given(v, target, compact)
}

/// Whether texts of a type are the store's to read as they are.
pub open spec fn store_syntax(t: DataTypeView) -> bool {
    t is Range || t is Geometry || t is Uuid || t is Bytea || t is Xml
}

/// A text converted to a type whose text form is the store's.
pub open spec fn to_store_type(
    v: ValueView,
    target: DataTypeView,
    r: ReadingsView,
) -> Option<Typed> {
    match v {
        ValueView::Text(s) => if store_syntax(target) {
            match reading::read_as(r, target, s) {
                Some(x) => Some((x, target)),
                None => None,
            }
        } else {
            match vector_of_text(target, s, r) {
                Some(x) => if typename::family_cast_agrees(target, value_type(x)) {
                    Some((x, value_type(x)))
                } else {
                    None
                },
                None => None,
            }
        },
        _ => None,
    }
}

fn make_store_type(v: &Value, target: &DataType, readings: &Readings) -> (out: Option<
    (Value, DataType),
>)
    ensures
        typed_view(out) == to_store_type(v@, target@, readings@),
{
    match v {
        Value::Text(s) => {
            let store = match target {
                DataType::Range(_) => true,
                DataType::Geometry(_) => true,
                DataType::Uuid => true,
                DataType::Bytea => true,
                DataType::Xml => true,
                _ => false,
            };
            if store {
                match readings.read(target, s.as_str()) {
                    Some(x) => Some((x, target.duplicate())),
                    None => None,
                }
            } else {
                match parse_vector_family_value(target, s.as_str(), readings) {
                    Some(x) => {
                        let actual = x.data_type();
                        if vector_family_cast_matches(target, &actual) {
                            Some((x, actual))
                        } else {
                            None
                        }
                    },
                    None => None,
                }
            }
        },
        _ => None,
    }
}

/// A literal converted to a type without parts, where there is a conversion.
pub open spec fn converted(v: ValueView, target: DataTypeView, r: ReadingsView) -> Option<Typed> {
    match target {
        DataTypeView::Int16 => to_integer(v, target),
        DataTypeView::Int32 => to_integer(v, target),
        DataTypeView::Int64 => to_integer(v, target),
        DataTypeView::Bool => match v {
            ValueView::Text(s) => match number::bool_value(s) {
                Some(b) => Some((ValueView::Bool(b), target)),
                None => None,
            },
            _ => None,
        },
        DataTypeView::Float32 => to_float(v, target),
        DataTypeView::Float64 => to_float(v, target),
        DataTypeView::Text { .. } => match v {
            ValueView::Char(s) => Some((ValueView::Text(s), DataTypeView::Text { max_len: None })),
            _ => None,
        },
        DataTypeView::Time => to_temporal(v, target, r),
        DataTypeView::TimeTz => to_temporal(v, target, r),
        DataTypeView::Timestamp => to_temporal(v, target, r),
        DataTypeView::TimestampTz => to_temporal(v, target, r),
        DataTypeView::Decimal { .. } => to_exact(v, target, r),
        DataTypeView::Money => to_exact(v, target, r),
        DataTypeView::Json => to_json(v, target),
        DataTypeView::Jsonb => to_json(v, target),
        _ => to_store_type(v, target, r),
    }
}

fn convert(v: &Value, target: &DataType, readings: &Readings) -> (out: Option<(Value, DataType)>)
    ensures
        typed_view(out) == converted(v@, target@, readings@),
{
    match target {
        DataType::Int16 => make_integer(v, target),
        DataType::Int32 => make_integer(v, target),
        DataType::Int64 => make_integer(v, target),
        DataType::Bool => match v {
            Value::Text(s) => match parse_bool_text(s.as_str()) {
                Some(b) => Some((Value::Bool(b), DataType::Bool)),
                None => None,
            },
            _ => None,
        },
        DataType::Float32 => make_float(v, target),
        DataType::Float64 => make_float(v, target),
        DataType::Text { .. } => match v {
            Value::Char(s) => Some((Value::Text(s.clone()), DataType::Text { max_len: None })),
            _ => None,
        },
        DataType::Time => make_temporal(v, target, readings),
        DataType::TimeTz => make_temporal(v, target, readings),
        DataType::Timestamp => make_temporal(v, target, readings),
        DataType::TimestampTz => make_temporal(v, target, readings),
        DataType::Decimal { .. } => make_exact(v, target, readings),
        DataType::Money => make_exact(v, target, readings),
        DataType::Json => make_json(v, target),
        DataType::Jsonb => make_json(v, target),
        _ => make_store_type(v, target, readings),
    }
}

/// A literal coerced to a type that a user has defined: an enumeration or a
/// composite type.
pub open spec fn to_user_type(
    v: ValueView,
    target: DataTypeView,
    r: ReadingsView,
) -> Option<Typed> {
    match (target, v) {
        (DataTypeView::Enum { labels, .. }, ValueView::Text(s)) => if labels.contains(s) {
            Some((v, target))
        } else {
            None
        },
        (DataTypeView::Composite { .. }, ValueView::Text(s)) => if reading::read_as(
            r,
            target,
            s,
        ) is Some {
            Some((v, target))
        } else {
            None
        },
        _ => None,
    }
}

fn is_label(labels: &Vec<String>, s: &str) -> (yes: bool)
    ensures
        yes == list::strings_view(labels@).contains(s@),
{
    let mut i: usize = 0;
    while i < labels.len()
        invariant
            i <= labels.len(),
            forall|j: int| 0 <= j < i ==> (#[trigger] list::strings_view(labels@)[j]) != s@,
        decreases labels.len() - i,
    {
        if text_eq(labels[i].as_str(), s) {
            assert(list::strings_view(labels@)[i as int] == s@);
            return true;
        }
        i = i + 1;
    }
    false
}

fn make_user_type(v: &Value, target: &DataType, readings: &Readings) -> (out: Option<
    (Value, DataType),
>)
    ensures
        typed_view(out) == to_user_type(v@, target@, readings@),
{
    match (target, v) {
        (DataType::Enum { labels, .. }, Value::Text(s)) => if is_label(labels, s.as_str()) {
            Some((v.duplicate(), target.duplicate()))
        } else {
            None
        },
        (DataType::Composite { .. }, Value::Text(s)) => if readings.read(
            target,
            s.as_str(),
        ).is_some() {
            Some((v.duplicate(), target.duplicate()))
        } else {
            None
        },
        _ => None,
    }
}

/// A literal coerced to a type that is neither a domain nor an array.
pub open spec fn coerced_plain(
    v: ValueView,
    t: DataTypeView,
    target: DataTypeView,
    r: ReadingsView,
) -> Typed {
    match to_bit_string(v, t, target, false, r) {
        Some(x) => x,
        None => match to_network(v, t, target, r) {
            Some(x) => x,
            None => match to_padded(v, t, target, false) {
                Some(x) => x,
                None => match to_user_type(v, target, r) {
                    Some(x) => x,
                    None => match to_oid_alias(v, t, target, r) {
                        Some(x) => x,
                        None => if target is Null || t == target {
                            (v, t)
                        } else {
                            match converted(v, target, r) {
                                Some(x) => x,
                                None => (v, t),
                            }
                        },
                    },
                },
            },
        },
    }
}

fn coerce_plain(v: &Value, t: &DataType, target: &DataType, readings: &Readings) -> (out: (
    Value,
    DataType,
))
    ensures
        (out.0@, out.1@) == coerced_plain(v@, t@, target@, readings@),
{
    if let Some(x) = make_bit_string(v, t, target, false, readings) {
        return x;
    }
    if let Some(x) = make_network(v, t, target, readings) {
        return x;
    }
    if let Some(x) = make_padded(v, t, target, false) {
        return x;
    }
    if let Some(x) = make_user_type(v, target, readings) {
        return x;
    }
    if let Some(x) = make_oid_alias(v, t, target, readings) {
        return x;
    }
    if target.is_null() || t.same(target) {
        return (v.duplicate(), t.duplicate());
    }
    match convert(v, target, readings) {
        Some(x) => x,
        None => (v.duplicate(), t.duplicate()),
    }
}

/// A literal coerced to a type. Where it cannot be, it stays what it is.
pub open spec fn coerced_literal(
    v: ValueView,
    t: DataTypeView,
    target: DataTypeView,
    r: ReadingsView,
) -> Typed
    decreases target, 0int,
{
    match target {
        DataTypeView::Domain { base_type, .. } => {
            let (v2, t2) = coerced_literal(v, t, *base_type, r);
            if t2 == *base_type || t2 is Null {
                (v2, target)
            } else {
                (v2, t2)
            }
        },
        DataTypeView::Array(element) => match v {
            ValueView::Array { elements, .. } => match coerced_elements(
                elements,
                0,
                Seq::empty(),
                *element,
                r,
            ) {
                Some(es) => {
                    let a = ValueView::Array { element_type: *element, elements: es };
                    if array_dims(a) is Some {
                        (a, target)
                    } else {
                        (v, t)
                    }
                },
                None => (v, t),
            },
            ValueView::Text(s) => match reading::read_as(r, target, s) {
                Some(a) => (a, target),
                None => (v, t),
            },
            _ => (v, t),
        },
        _ => coerced_plain(v, t, target, r),
    }
}

/// The elements of an array from the `i`-th on, coerced to a type. Nulls stay.
pub open spec fn coerced_elements(
    s: Seq<ValueView>,
    i: int,
    acc: Seq<ValueView>,
    element: DataTypeView,
    r: ReadingsView,
) -> Option<Seq<ValueView>>
    decreases element, s.len() + 1 - i,
{
    if i < 0 || i >= s.len() {
        Some(acc)
    } else if s[i] is Null {
        coerced_elements(s, i + 1, acc.push(ValueView::Null), element, r)
    } else {
        let (v, t) = coerced_literal(s[i], value_type(s[i]), element, r);
        if !(t is Null) && t != element {
            None
        } else {
            coerced_elements(s, i + 1, acc.push(v), element, r)
        }
    }
}

/// Coerces a value of a type to another type.
pub fn coerce_value(v: &Value, t: &DataType, target: &DataType, readings: &Readings) -> (out: (
    Value,
    DataType,
))
    ensures
        (out.0@, out.1@) == coerced_literal(v@, t@, target@, readings@),
    decreases target, 0int,
{
    match target {
        DataType::Domain { base_type, .. } => {
            let (v2, t2) = coerce_value(v, t, base_type, readings);
            if t2.same(base_type) || t2.is_null() {
                (v2, target.duplicate())
            } else {
                (v2, t2)
            }
        },
        DataType::Array(element) => match v {
            Value::Array { elements, .. } => match coerce_elements(elements, element, readings) {
                Some(es) => {
                    let a = Value::Array { element_type: element.duplicate(), elements: es };
                    if array_dimensions(&a).is_some() {
                        (a, target.duplicate())
                    } else {
                        (v.duplicate(), t.duplicate())
                    }
                },
                None => (v.duplicate(), t.duplicate()),
            },
            Value::Text(s) => match readings.read(target, s.as_str()) {
                Some(a) => (a, target.duplicate()),
                None => (v.duplicate(), t.duplicate()),
            },
            _ => (v.duplicate(), t.duplicate()),
        },
        _ => coerce_plain(v, t, target, readings),
    }
}

/// Elements of an array as a model.
pub open spec fn elements_view(x: Option<Vec<Value>>) -> Option<Seq<ValueView>> {
    match x {
        Some(v) => Some(value::values_view(v@)),
        None => None,
    }
}

fn coerce_elements(list: &Vec<Value>, element: &DataType, readings: &Readings) -> (out: Option<
    Vec<Value>,
>)
    ensures
        elements_view(out) == coerced_elements(
            value::values_view(list@),
            0,
            Seq::empty(),
            element@,
            readings@,
        ),
    decreases element, 1int,
{
    let ghost model = value::values_view(list@);
    let mut out: Vec<Value> = Vec::new();
    assert(value::values_view(out@) =~= Seq::empty());
    let mut i: usize = 0;
    while i < list.len()
        invariant
            i <= list.len(),
            model == value::values_view(list@),
            coerced_elements(
                model,
                i as int,
                value::values_view(out@),
                element@,
                readings@,
            ) == coerced_elements(model, 0, Seq::empty(), element@, readings@),
        decreases list.len() - i,
    {
        assert(model[i as int] == list@[i as int]@);
        let v = if matches!(list[i], Value::Null) {
            Value::Null
        } else {
            let (v, t) = coerce_value(&list[i], &list[i].data_type(), element, readings);
            if !t.is_null() && !t.same(element) {
                return None;
            }
            v
        };
        proof {
            value::lemma_values_push(out@, v);
        }
        out.push(v);
        i = i + 1;
    }
    Some(out)
}

/// An expression coerced to a type: a literal, with the sign before it, is
/// coerced, and any other expression stays.
pub open spec fn coerced(
    e: ScalarExprView,
    target: DataTypeView,
    r: ReadingsView,
) -> ScalarExprView {
    match number::sign_folded(e) {
        ScalarExprView::Literal { value, data_type } => {
            let (v, t) = coerced_literal(value, data_type, target, r);
            ScalarExprView::Literal { value: v, data_type: t }
        },
        folded => folded,
    }
}

/// Coerces an expression to a type, if it is a literal.
pub fn coerce_literal_to_type(expr: &mut ScalarExpr, target: &DataType, readings: &Readings)
    ensures
        final(expr)@ == coerced(old(expr)@, target@, readings@),
{
    fold_signed_literal(expr);
    let made = match &*expr {
        ScalarExpr::Literal { value, data_type } => Some(
            coerce_value(value, data_type, target, readings),
        ),
        _ => None,
    };
    if let Some((value, data_type)) = made {
        *expr = ScalarExpr::Literal { value, data_type };
    }
}

/// Coerces two expressions to each other's type.
pub fn coerce_literal_to_match(left: &mut ScalarExpr, right: &mut ScalarExpr, readings: &Readings)
    ensures
        final(left)@ == coerced(old(left)@, query::scalar_type(old(right)@), readings@),
        final(right)@ == coerced(old(right)@, query::scalar_type(old(left)@), readings@),
{
    let right_target = right.data_type();
    let left_target = left.data_type();
    coerce_literal_to_type(left, &right_target, readings);
    coerce_literal_to_type(right, &left_target, readings);
}

/// A literal replaced, if there is something to replace it with; the answer
/// tells whether there was.
pub open spec fn replaced(e: ScalarExprView, made: Option<Typed>) -> (ScalarExprView, bool) {
    match made {
        Some((v, t)) => (ScalarExprView::Literal { value: v, data_type: t }, true),
        None => (e, false),
    }
}

/// An expression coerced to a bit-string type by a cast.
pub open spec fn cast_to_bit_string(
    e: ScalarExprView,
    target: DataTypeView,
    explicit: bool,
    r: ReadingsView,
) -> (ScalarExprView, bool) {
    let folded = number::sign_folded(e);
    match folded {
        ScalarExprView::Literal { value, data_type } => replaced(
            folded,
            to_bit_string(value, data_type, target, explicit, r),
        ),
        _ => (folded, false),
    }
}

/// Coerces an expression to a bit-string type, if it is a literal that can be.
pub fn coerce_literal_to_bit_string(
    expr: &mut ScalarExpr,
    target: &DataType,
    explicit_cast: bool,
    readings: &Readings,
) -> (done: bool)
    ensures
        (final(expr)@, done) == cast_to_bit_string(
            old(expr)@,
            target@,
            explicit_cast,
            readings@,
        ),
{
    fold_signed_literal(expr);
    let made = match &*expr {
        ScalarExpr::Literal { value, data_type } => make_bit_string(
            value,
            data_type,
            target,
            explicit_cast,
            readings,
        ),
        _ => None,
    };
    if let Some((value, data_type)) = made {
        *expr = ScalarExpr::Literal { value, data_type };
        return true;
    }
    false
}

/// An expression coerced to a blank-padded type by a cast.
pub open spec fn cast_to_padded(e: ScalarExprView, target: DataTypeView, explicit: bool) -> (
    ScalarExprView,
    bool,
) {
    let folded = number::sign_folded(e);
    match folded {
        ScalarExprView::Literal { value, data_type } => replaced(
            folded,
            to_padded(value, data_type, target, explicit),
        ),
        _ => (folded, false),
    }
}

/// Coerces an expression to a blank-padded type, if it is a literal that can be.
pub fn coerce_literal_to_bpchar(
    expr: &mut ScalarExpr,
    target: &DataType,
    explicit_cast: bool,
) -> (done:
    bool)
    ensures
        (final(expr)@, done) == cast_to_padded(old(expr)@, target@, explicit_cast),
{
    fold_signed_literal(expr);
    let made = match &*expr {
        ScalarExpr::Literal { value, data_type } => make_padded(
            value,
            data_type,
            target,
            explicit_cast,
        ),
        _ => None,
    };
    if let Some((value, data_type)) = made {
        *expr = ScalarExpr::Literal { value, data_type };
        return true;
    }
    false
}

/// The object identifier of the table that a text names, by its number or by
/// its name.
pub open spec fn regclass_of(s: Seq<char>, cat: CatalogView, r: ReadingsView) -> Option<u32> {
    match number::oid_of_text(s, r) {
        Some(n) => Some(n),
        None => match typename::name_path(s) {
            None => None,
            Some(parts) => if parts.len() == 1 {
                (cat.table_oid)(parts[0])
            } else if parts.len() == 2 {
                (cat.table_oid_in)(parts[0], parts[1])
            } else {
                None
            },
        },
    }
}

/// Resolves the table that a text names.
pub fn resolve_regclass_literal<C: Catalog>(
    s: &str,
    catalog: &C,
    readings: &Readings,
) -> (out: Option<
    u32,
>)
    ensures
        out == regclass_of(s@, catalog.model(), readings@),
{
    if let Some(n) = parse_oid_text(s, readings) {
        return Some(n);
    }
    let parts = match parse_pg_identifier_path(s) {
        Some(parts) => parts,
        None => return None,
    };
    if parts.len() == 1 {
        assert(list::strings_view(parts@)[0] == parts@[0]@);
        catalog.lookup_table_oid(parts[0].as_str())
    } else if parts.len() == 2 {
        assert(list::strings_view(parts@)[0] == parts@[0]@);
        assert(list::strings_view(parts@)[1] == parts@[1]@);
        catalog.lookup_table_oid_in_schema(parts[0].as_str(), parts[1].as_str())
    } else {
        None
    }
}

/// The object identifier of the type that a text names, by its number or by its
/// name.
pub open spec fn regtype_of(s: Seq<char>, cat: CatalogView, r: ReadingsView) -> Option<u32> {
    match number::oid_of_text(s, r) {
        Some(n) => Some(n),
        None => match typename::name_path(s) {
            None => None,
            Some(parts) => if parts.len() == 1 {
                (cat.type_oid)(parts[0])
            } else if parts.len() == 2 {
                (cat.type_oid_in)(parts[0], parts[1])
            } else {
                None
            },
        },
    }
}

/// Resolves the type that a text names.
pub fn resolve_regtype_literal<C: Catalog>(
    s: &str,
    catalog: &C,
    readings: &Readings,
) -> (out: Option<
    u32,
>)
    ensures
        out == regtype_of(s@, catalog.model(), readings@),
{
    if let Some(n) = parse_oid_text(s, readings) {
        return Some(n);
    }
    let parts = match parse_pg_identifier_path(s) {
        Some(parts) => parts,
        None => return None,
    };
    if parts.len() == 1 {
        assert(list::strings_view(parts@)[0] == parts@[0]@);
        catalog.lookup_type_oid(parts[0].as_str())
    } else if parts.len() == 2 {
        assert(list::strings_view(parts@)[0] == parts@[0]@);
        assert(list::strings_view(parts@)[1] == parts@[1]@);
        catalog.lookup_type_oid_in_schema(parts[0].as_str(), parts[1].as_str())
    } else {
        None
    }
}

/// A literal coerced to the name of a table or type, which a catalog resolves.
pub open spec fn to_reg(
    v: ValueView,
    t: DataTypeView,
    target: DataTypeView,
    cat: CatalogView,
    r: ReadingsView,
) -> Option<Typed> {
    if !(target is RegClass) && !(target is RegType) {
        to_oid_alias(v, t, target, r)
    } else if t is Null && v is Null {
        Some((v, target))
    } else {
        let oid = match v {
            ValueView::Text(s) => if target is RegClass {
                regclass_of(s, cat, r)
            } else {
                regtype_of(s, cat, r)
            },
            ValueView::Char(s) => if target is RegClass {
                regclass_of(s, cat, r)
            } else {
                regtype_of(s, cat, r)
            },
            _ => number::oid_of(v, r),
        };
        match oid {
            Some(n) => Some((oid_value(n, target), target)),
            None => None,
        }
    }
}

fn resolve_reg_text<C: Catalog>(
    s: &str,
    target: &DataType,
    catalog: &C,
    readings: &Readings,
) -> (out:
    Option<u32>)
    ensures
        out == if target@ is RegClass {
            regclass_of(s@, catalog.model(), readings@)
        } else {
            regtype_of(s@, catalog.model(), readings@)
        },
{
    if matches!(target, DataType::RegClass) {
        resolve_regclass_literal(s, catalog, readings)
    } else {
        resolve_regtype_literal(s, catalog, readings)
    }
}

fn make_reg<C: Catalog>(
    v: &Value,
    t: &DataType,
    target: &DataType,
    catalog: &C,
    readings: &Readings,
) -> (out: Option<(Value, DataType)>)
    ensures
        typed_view(out) == to_reg(v@, t@, target@, catalog.model(), readings@),
{
    if !matches!(target, DataType::RegClass | DataType::RegType) {
        return make_oid_alias(v, t, target, readings);
    }
    if t.is_null() && matches!(v, Value::Null) {
        return Some((v.duplicate(), target.duplicate()));
    }
    let oid = match v {
        Value::Text(s) => resolve_reg_text(s.as_str(), target, catalog, readings),
        Value::Char(s) => resolve_reg_text(s.as_str(), target, catalog, readings),
        _ => oid_from_literal_value(v, readings),
    };
    match oid {
        Some(n) => Some((make_oid_value(n, target), target.duplicate())),
        None => None,
    }
}

/// An expression coerced to an alias of object identifiers by a cast.
pub open spec fn cast_to_oid_alias(
    e: ScalarExprView,
    target: DataTypeView,
    cat: CatalogView,
    r: ReadingsView,
) -> (ScalarExprView, bool) {
    let folded = number::sign_folded(e);
    match folded {
        ScalarExprView::Literal { value, data_type } => replaced(
            folded,
            to_reg(value, data_type, target, cat, r),
        ),
        _ => (folded, false),
    }
}

/// Coerces an expression to an alias of object identifiers, if it is a literal
/// that can be.
pub fn coerce_literal_to_oid_alias_with_catalog<C: Catalog>(
    expr: &mut ScalarExpr,
    target: &DataType,
    catalog: &C,
    readings: &Readings,
) -> (done: bool)
    ensures
        (final(expr)@, done) == cast_to_oid_alias(
            old(expr)@,
            target@,
            catalog.model(),
            readings@,
        ),
{
    fold_signed_literal(expr);
    let made = match &*expr {
        ScalarExpr::Literal { value, data_type } => make_reg(
            value,
            data_type,
            target,
            catalog,
            readings,
        ),
        _ => None,
    };
    if let Some((value, data_type)) = made {
        *expr = ScalarExpr::Literal { value, data_type };
        return true;
    }
    false
}

/// An expression that is not a literal, even with the sign before it, is not
/// changed by coercion.
pub proof fn coercion_keeps_other_expressions(
    e: ScalarExprView,
    target: DataTypeView,
    r: ReadingsView,
)
    requires
        !(number::sign_folded(e) is Literal),
    ensures
        coerced(e, target, r) == e,
{
}

/// A literal that already has the type that is asked for keeps its value.
pub proof fn coercion_to_own_type_keeps_value(v: ValueView, target: DataTypeView, r: ReadingsView)
    requires
        !datatype::bit_string(target),
        !datatype::oid_alias(target),
        !(target is PgLsn),
        !(target is Array),
        !(target is Domain),
    ensures
        coerced_literal(v, target, target, r) == (v, target),
{
}

} // verus!
