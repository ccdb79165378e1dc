//! What a literal of one type is as a literal of another.
use crate::datatype::DataTypeView;
use crate::dialect::reading::ReadingsView;
use crate::dialect::{clock, coerce, number};
use crate::text;
use crate::value::{FloatValueView, ValueView};
use vstd::prelude::*;

verus! {

/// Whether a word says that something is true.
pub open spec fn affirms(w: Seq<char>) -> bool {
    ||| w == "t"@ || w == "T"@ || w == "true"@ || w == "TRUE"@
    ||| w == "y"@ || w == "Y"@ || w == "yes"@ || w == "YES"@
    ||| w == "on"@ || w == "ON"@ || w == "1"@
}

/// Whether a word says that something is false.
pub open spec fn denies(w: Seq<char>) -> bool {
    ||| w == "f"@ || w == "F"@ || w == "false"@ || w == "FALSE"@
    ||| w == "n"@ || w == "N"@ || w == "no"@ || w == "NO"@
    ||| w == "off"@ || w == "OFF"@ || w == "0"@
}

/// A text is a truth value exactly where it is one of the words for one, and then
/// the one that the word says.
pub proof fn truth_words_say_their_value(s: Seq<char>)
    ensures
        affirms(text::trim(s)) <==> number::bool_value(s) == Some(true),
        number::bool_value(s) == Some(false) ==> denies(text::trim(s)),
        denies(text::trim(s)) ==> number::bool_value(s) is Some,
{
}

/// Texts and truth values, times and points in time change their type, not what they
/// stand for.
pub proof fn conversions_keep_their_value(v: ValueView, target: DataTypeView, r: ReadingsView)
    ensures
        coerce::converted(v, target, r) matches Some((u, t)) ==> match target {
            DataTypeView::Bool => {
                &&& v matches ValueView::Text(s)
                &&& t is Bool
                &&& u == ValueView::Bool(true) ==> affirms(text::trim(s))
                &&& u == ValueView::Bool(false) ==> denies(text::trim(s))
                &&& u is Bool
            },
            DataTypeView::Text { .. } => {
                &&& v matches ValueView::Char(s)
                &&& u == ValueView::Text(s) && t == (DataTypeView::Text { max_len: None })
            },
            DataTypeView::TimestampTz => {
                &&& t is TimestampTz
                &&& u matches ValueView::TimestampTz(n)
                &&& {
                    ||| v == ValueView::Timestamp(n)
                    ||| {
                        &&& v matches ValueView::Text(s)
                        &&& clock::timestamptz_value(s, r) matches Some(m) && n == m as i64
                    }
                }
            },
            DataTypeView::Timestamp => {
                &&& t is Timestamp
                &&& u matches ValueView::Timestamp(n)
                &&& {
                    ||| v == ValueView::TimestampTz(n)
                    ||| {
                        &&& v matches ValueView::Text(s)
                        &&& clock::timestamp_value(s, r) matches Some(m) && n == m as i64
                    }
                }
            },
            DataTypeView::Time => {
                &&& t is Time
                &&& v matches ValueView::Text(s)
                &&& u matches ValueView::Time(n)
                &&& clock::time_value(s, r) matches Some(m) && n == m as i64
            },
            DataTypeView::TimeTz => {
                &&& t is TimeTz
                &&& v matches ValueView::Text(s)
                &&& u matches ValueView::TimeTz { micros, offset_seconds }
                &&& clock::timetz_value(s, r) matches Some((m, o)) && micros == m as i64
                    && offset_seconds == o as i32
            },
            DataTypeView::Float64 => {
                &&& t is Float64
                &&& u matches ValueView::Float64(x)
                &&& number_of(v, x)
            },
            DataTypeView::Float32 => {
                &&& t is Float32
                &&& u matches ValueView::Float32(x)
                &&& number_of(v, x)
            },
            DataTypeView::Money => {
                &&& t is Money
                &&& u matches ValueView::Money(n)
                &&& v matches ValueView::Int16(k) ==> n == 100 * k
                &&& v matches ValueView::Int32(k) ==> n == 100 * k
                &&& v matches ValueView::Int64(k) ==> n == 100 * k
                &&& v matches ValueView::Money(k) ==> n == k
            },
            DataTypeView::Decimal { precision, scale } => {
                &&& t matches DataTypeView::Decimal { precision: p, .. } && p == precision
                &&& u matches ValueView::Decimal { value, scale: places }
                &&& scale is Some ==> t == target
                &&& v matches ValueView::Decimal { value: k, scale: l } ==> value == k && places
                    == l
            },
            _ => true,
        },
{
    if let ValueView::Text(s) = v {
        truth_words_say_their_value(s);
    }
}

/// Whether a floating-point number is that of a value.
pub open spec fn number_of(v: ValueView, x: FloatValueView) -> bool {
    match v {
        ValueView::Int16(n) => x == FloatValueView::Integer(n as i64),
        ValueView::Int32(n) => x == FloatValueView::Integer(n as i64),
        ValueView::Int64(n) => x == FloatValueView::Integer(n),
        ValueView::Decimal { value, scale } => x == (FloatValueView::Decimal { value, scale }),
        ValueView::Float32(y) => x == FloatValueView::Single(Box::new(y)),
        ValueView::Float64(y) => x == FloatValueView::Single(Box::new(y)),
        _ => false,
    }
}

/// A text of a fixed length is the text, filled with blanks or cut; unless it is a
/// cast, only blanks are cut.
pub proof fn padded_texts_keep_their_text(s: Seq<char>, len: Option<u32>, explicit: bool)
    ensures
        coerce::padded_text(s, len, explicit) matches Some(x) ==> {
            &&& len is None ==> x == s
            &&& len matches Some(n) ==> {
                &&& x.len() == n
                &&& forall|i: int| 0 <= i < n && i < s.len() ==> #[trigger] x[i] == s[i]
                &&& forall|i: int| s.len() <= i < n ==> #[trigger] x[i] == ' '
                &&& !explicit ==> forall|i: int| n <= i < s.len() ==> #[trigger] s[i] == ' '
            }
        },
        len is None || explicit ==> coerce::padded_text(s, len, explicit) is Some,
{
}

/// Bits of a fixed length are the bits, filled with zeros or cut; unless it is a
/// cast, none is cut and none is filled in. Bits of a varying length are cut only by
/// a cast, and never filled in.
pub proof fn fitted_bits_keep_their_bits(bits: Seq<bool>, target: DataTypeView, explicit: bool)
    ensures
        coerce::fitted_bits(bits, target, explicit) matches Some(x) ==> {
            &&& forall|i: int| 0 <= i < x.len() && i < bits.len() ==> #[trigger] x[i] == bits[i]
            &&& forall|i: int| bits.len() <= i < x.len() ==> !#[trigger] x[i]
            &&& !explicit ==> x == bits
            &&& target matches DataTypeView::Bit { len: Some(n) } ==> x.len() == n
            &&& target matches DataTypeView::VarBit { max_len: Some(n) } ==> x.len() <= n
                && x.len() <= bits.len() && (bits.len() <= n ==> x == bits)
        },
{
    if let Some(x) = coerce::fitted_bits(bits, target, explicit) {
        if !explicit {
            assert(x =~= bits);
        }
    }
}

/// An identifier of an object is the number that it is written as.
pub proof fn object_numbers_are_kept(v: ValueView, r: ReadingsView)
    ensures
        number::oid_of(v, r) matches Some(n) ==> {
            &&& v matches ValueView::Int16(k) ==> n as int == k as int
            &&& v matches ValueView::Int32(k) ==> n as int == k as int
            &&& v matches ValueView::Int64(k) ==> n as int == k as int
            &&& v matches ValueView::Oid(k) ==> n == k
            &&& v matches ValueView::RegClass(k) ==> n == k
            &&& v matches ValueView::RegType(k) ==> n == k
        },
        v matches ValueView::Int64(k) ==> (number::oid_of(v, r) is Some <==> 0 <= k <= u32::MAX),
{
}

/// A text is a value of an enumerated type exactly where it is one of its labels, and
/// keeps its text.
pub proof fn labels_are_values_of_their_type(
    s: Seq<char>,
    target: DataTypeView,
    r: ReadingsView,
)
    requires
        target is Enum,
    ensures
        coerce::to_user_type(ValueView::Text(s), target, r) is Some
            <==> target->Enum_labels.contains(s),
        coerce::to_user_type(ValueView::Text(s), target, r) matches Some((u, t)) ==> u
            == ValueView::Text(s) && t == target,
{
}

} // verus!
