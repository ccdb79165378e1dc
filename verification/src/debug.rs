//! Data types written by their variants and fields, for messages about the types
//! of constraints and of array elements.
use crate::datatype;
use crate::datatype::{DataType, DataTypeView, GeometryType, RangeType};
use crate::list;
use crate::text;
use crate::text::{cat2, cat3, cat5, chars_of, owned, show_i64, show_u64};
use vstd::prelude::*;

verus! {

/// A hexadecimal digit.
pub open spec fn hex_digit(n: int) -> char {
    if n < 10 {
        (48 + n) as char
    } else {
        (87 + n) as char
    }
}

fn show_hex_digit(n: u8) -> (c: char)
    requires
        n < 16,
    ensures
        c == hex_digit(n as int),
{
    if n < 10 {
        (48u8 + n) as char
    } else {
        (87u8 + n) as char
    }
}

/// The code of a control character in hexadecimal.
pub open spec fn code_text(n: int) -> Seq<char> {
    if n < 16 {
        seq![hex_digit(n)]
    } else {
        seq![hex_digit(n / 16), hex_digit(n % 16)]
    }
}

/// Whether a character is a control character.
pub open spec fn control(c: char) -> bool {
    c < '\u{20}' || '\u{7f}' <= c <= '\u{9f}'
}

/// A character of a quoted text. Quotes, backslashes and control characters are
/// escaped, and the others stand for themselves.
pub open spec fn quoted_char(c: char) -> Seq<char> {
    if c == '"' {
        "\\\""@
    } else if c == '\\' {
        "\\\\"@
    } else if c == '\n' {
        "\\n"@
    } else if c == '\r' {
        "\\r"@
    } else if c == '\t' {
        "\\t"@
    } else if c == '\0' {
        "\\0"@
    } else if control(c) {
        "\\u{"@ + code_text(c as int) + "}"@
    } else {
        seq![c]
    }
}

/// Writes a character of a quoted text.
pub fn show_quoted_char(c: char) -> (out: String)
    ensures
        out@ == quoted_char(c),
{
    if c == '"' {
        owned("\\\"")
    } else if c == '\\' {
        owned("\\\\")
    } else if c == '\n' {
        owned("\\n")
    } else if c == '\r' {
        owned("\\r")
    } else if c == '\t' {
        owned("\\t")
    } else if c == '\0' {
        owned("\\0")
    } else if c < '\u{20}' || ('\u{7f}' <= c && c <= '\u{9f}') {
        let n: u32 = c as u32;
        let mut code = String::new();
        if n >= 16 {
            code.push(show_hex_digit((n / 16) as u8));
        }
        code.push(show_hex_digit((n % 16) as u8));
        assert(code@ =~= code_text(c as int));
        cat3("\\u{", code.as_str(), "}")
    } else {
        let mut out = String::new();
        out.push(c);
        assert(out@ =~= seq![c]);
        out
    }
}

/// The characters of a quoted text from the `i`-th on.
pub open spec fn quoted_from(s: Seq<char>, i: int) -> Seq<char>
    decreases s.len() - i,
{
    if i < 0 || i >= s.len() {
        Seq::empty()
    } else {
        quoted_char(s[i]) + quoted_from(s, i + 1)
    }
}

/// A text in quotes.
pub open spec fn quoted(s: Seq<char>) -> Seq<char> {
    "\""@ + quoted_from(s, 0) + "\""@
}

fn show_quoted(s: &str) -> (out: String)
    ensures
        out@ == quoted(s@),
{
    let chars = chars_of(s);
    let mut out = String::new();
    let mut i: usize = 0;
    assert(out@ + quoted_from(s@, 0) =~= quoted_from(s@, 0));
    while i < chars.len()
        invariant
            i <= chars.len(),
            chars@ == s@,
            out@ + quoted_from(s@, i as int) == quoted_from(s@, 0),
        decreases chars.len() - i,
    {
        let ghost before = out@;
        let next = show_quoted_char(chars[i]);
        out.append(next.as_str());
        assert(out@ + quoted_from(s@, i + 1) =~= before + quoted_from(s@, i as int));
        i = i + 1;
    }
    assert(out@ =~= quoted_from(s@, 0));
    cat3("\"", out.as_str(), "\"")
}

/// An optional size.
pub open spec fn size_text(n: Option<u32>) -> Seq<char> {
    match n {
        Some(n) => "Some("@ + text::decimal(n as nat) + ")"@,
        None => "None"@,
    }
}

fn show_size(n: Option<u32>) -> (out: String)
    ensures
        out@ == size_text(n),
{
    match n {
        Some(n) => cat3("Some(", show_u64(n as u64).as_str(), ")"),
        None => owned("None"),
    }
}

/// An optional scale.
pub open spec fn scale_text(n: Option<i32>) -> Seq<char> {
    match n {
        Some(n) => "Some("@ + text::decimal_int(n as int) + ")"@,
        None => "None"@,
    }
}

fn show_scale(n: Option<i32>) -> (out: String)
    ensures
        out@ == scale_text(n),
{
    match n {
        Some(n) => cat3("Some(", show_i64(n as i64).as_str(), ")"),
        None => owned("None"),
    }
}

/// A variant with one optional size.
pub open spec fn sized_variant(variant: Seq<char>, field: Seq<char>, n: Option<u32>) -> Seq<char> {
    variant + " { "@ + field + ": "@ + (size_text(n) + " }"@)
}

fn show_sized_variant(variant: &str, field: &str, n: Option<u32>) -> (out: String)
    ensures
        out@ == sized_variant(variant@, field@, n),
{
    cat5(variant, " { ", field, ": ", cat2(show_size(n).as_str(), " }").as_str())
}

/// What stands before the `i`-th element of a list.
pub open spec fn separator(i: int) -> Seq<char> {
    if i == 0 {
        ""@
    } else {
        ", "@
    }
}

fn show_separator(i: usize) -> (out: String)
    ensures
        out@ == separator(i as int),
{
    if i == 0 {
        owned("")
    } else {
        owned(", ")
    }
}

/// The labels of an enumeration from the `i`-th on.
pub open spec fn labels_from(s: Seq<Seq<char>>, i: int) -> Seq<char>
    decreases s.len() - i,
{
    if i < 0 || i >= s.len() {
        Seq::empty()
    } else {
        separator(i) + quoted(s[i]) + labels_from(s, i + 1)
    }
}

fn show_labels(s: &Vec<String>) -> (out: String)
    ensures
        out@ == labels_from(list::strings_view(s@), 0),
{
    let ghost v = list::strings_view(s@);
    let mut out = String::new();
    let mut i: usize = 0;
    assert(out@ + labels_from(v, 0) =~= labels_from(v, 0));
    while i < s.len()
        invariant
            i <= s.len(),
            v == list::strings_view(s@),
            out@ + labels_from(v, i as int) == labels_from(v, 0),
        decreases s.len() - i,
    {
        let ghost before = out@;
        let next = cat2(show_separator(i).as_str(), show_quoted(s[i].as_str()).as_str());
        out.append(next.as_str());
        assert(out@ + labels_from(v, i + 1) =~= before + labels_from(v, i as int));
        i = i + 1;
    }
    assert(out@ =~= labels_from(v, 0));
    out
}

/// The variant of a range type.
pub open spec fn range_variant(r: RangeType) -> Seq<char> {
    match r {
        RangeType::Int4 => "Range(Int4)"@,
        RangeType::Int8 => "Range(Int8)"@,
        RangeType::Num => "Range(Num)"@,
        RangeType::Date => "Range(Date)"@,
        RangeType::Timestamp => "Range(Timestamp)"@,
        RangeType::TimestampTz => "Range(TimestampTz)"@,
    }
}

/// The variant of a geometric type.
pub open spec fn geometry_variant(g: GeometryType) -> Seq<char> {
    match g {
        GeometryType::Point => "Geometry(Point)"@,
        GeometryType::Box => "Geometry(Box)"@,
        GeometryType::Circle => "Geometry(Circle)"@,
        GeometryType::Line => "Geometry(Line)"@,
        GeometryType::Lseg => "Geometry(Lseg)"@,
        GeometryType::Path => "Geometry(Path)"@,
        GeometryType::Polygon => "Geometry(Polygon)"@,
    }
}

/// The identifier and the name of a type that users define.
pub open spec fn named_variant(variant: Seq<char>, oid: u32, name: Seq<char>) -> Seq<char> {
    variant + " { oid: Oid("@ + text::decimal(oid as nat) + "), name: "@ + quoted(name)
}

fn show_named_variant(variant: &str, oid: u32, name: &str) -> (out: String)
    ensures
        out@ == named_variant(variant@, oid, name@),
{
    cat5(
        variant,
        " { oid: Oid(",
        show_u64(oid as u64).as_str(),
        "), name: ",
        show_quoted(name).as_str(),
    )
}

/// The attributes of a row type from the `i`-th on.
pub open spec fn fields_from(s: Seq<(Seq<char>, DataTypeView)>, i: int) -> Seq<char>
    decreases s, s.len() - i,
{
    if i < 0 || i >= s.len() {
        Seq::empty()
    } else {
        separator(i) + ("("@ + quoted(s[i].0) + ", "@ + variant_text(s[i].1) + ")"@) + fields_from(
            s,
            i + 1,
        )
    }
}

/// A type written by its variant and fields.
pub open spec fn variant_text(t: DataTypeView) -> Seq<char>
    decreases t, 0int,
{
    match t {
        DataTypeView::Null => "Null"@,
        DataTypeView::Bool => "Bool"@,
        DataTypeView::Int16 => "Int16"@,
        DataTypeView::Int32 => "Int32"@,
        DataTypeView::Int64 => "Int64"@,
        DataTypeView::Float32 => "Float32"@,
        DataTypeView::Float64 => "Float64"@,
        DataTypeView::Decimal { precision, scale } => "Decimal { precision: "@ + size_text(
            precision,
        ) + ", scale: "@ + scale_text(scale) + " }"@,
        DataTypeView::Money => "Money"@,
        DataTypeView::Text { max_len } => sized_variant("Text"@, "max_len"@, max_len),
        DataTypeView::Char { len } => sized_variant("Char"@, "len"@, len),
        DataTypeView::Bytea => "Bytea"@,
        DataTypeView::Bit { len } => sized_variant("Bit"@, "len"@, len),
        DataTypeView::VarBit { max_len } => sized_variant("VarBit"@, "max_len"@, max_len),
        DataTypeView::Date => "Date"@,
        DataTypeView::Time => "Time"@,
        DataTypeView::TimeTz => "TimeTz"@,
        DataTypeView::Timestamp => "Timestamp"@,
        DataTypeView::TimestampTz => "TimestampTz"@,
        DataTypeView::Interval => "Interval"@,
        DataTypeView::Uuid => "Uuid"@,
        DataTypeView::Json => "Json"@,
        DataTypeView::Jsonb => "Jsonb"@,
        DataTypeView::Xml => "Xml"@,
        DataTypeView::Oid => "Oid"@,
        DataTypeView::RegClass => "RegClass"@,
        DataTypeView::RegType => "RegType"@,
        DataTypeView::PgLsn => "PgLsn"@,
        DataTypeView::Inet => "Inet"@,
        DataTypeView::Cidr => "Cidr"@,
        DataTypeView::MacAddr => "MacAddr"@,
        DataTypeView::MacAddr8 => "MacAddr8"@,
        DataTypeView::TsVector => "TsVector"@,
        DataTypeView::TsQuery => "TsQuery"@,
        DataTypeView::Vector { dims } => sized_variant("Vector"@, "dims"@, dims),
        DataTypeView::HalfVec { dims } => sized_variant("HalfVec"@, "dims"@, dims),
        DataTypeView::SparseVec { dims } => sized_variant("SparseVec"@, "dims"@, dims),
        DataTypeView::BitVec { dims } => sized_variant("BitVec"@, "dims"@, dims),
        DataTypeView::Range(r) => range_variant(r),
        DataTypeView::Geometry(g) => geometry_variant(g),
        DataTypeView::Array(inner) => "Array("@ + variant_text(*inner) + ")"@,
        DataTypeView::Record(fields) => "Record(["@ + fields_from(fields, 0) + "])"@,
        DataTypeView::Enum { oid, name, labels } => named_variant("Enum"@, oid, name)
            + ", labels: ["@ + labels_from(labels, 0) + "] }"@,
        DataTypeView::Composite { oid, name, fields } => named_variant("Composite"@, oid, name)
            + ", fields: ["@ + fields_from(fields, 0) + "] }"@,
        DataTypeView::Domain { oid, name, base_type, not_null } => named_variant(
            "Domain"@,
            oid,
            name,
        ) + ", base_type: "@ + variant_text(*base_type) + (if not_null {
            ", not_null: true }"@
        } else {
            ", not_null: false }"@
        }),
    }
}

fn show_fields(s: &Vec<(String, DataType)>) -> (out: String)
    ensures
        out@ == fields_from(datatype::record_fields_view(s@), 0),
    decreases s, 1int,
{
    let ghost v = datatype::record_fields_view(s@);
    let mut out = String::new();
    let mut i: usize = 0;
    assert(out@ + fields_from(v, 0) =~= fields_from(v, 0));
    while i < s.len()
        invariant
            i <= s.len(),
            v == datatype::record_fields_view(s@),
            out@ + fields_from(v, i as int) == fields_from(v, 0),
        decreases s.len() - i,
    {
        let ghost before = out@;
        assert(v[i as int] == (s@[i as int].0@, s@[i as int].1@));
        let field = cat5(
            "(",
            show_quoted(s[i].0.as_str()).as_str(),
            ", ",
            s[i].1.debug_text().as_str(),
            ")",
        );
        let next = cat2(show_separator(i).as_str(), field.as_str());
        out.append(next.as_str());
        assert(out@ + fields_from(v, i + 1) =~= before + fields_from(v, i as int));
        i = i + 1;
    }
    assert(out@ =~= fields_from(v, 0));
    out
}

fn show_range_variant(r: RangeType) -> (out: String)
    ensures
        out@ == range_variant(r),
{
    match r {
        RangeType::Int4 => owned("Range(Int4)"),
        RangeType::Int8 => owned("Range(Int8)"),
        RangeType::Num => owned("Range(Num)"),
        RangeType::Date => owned("Range(Date)"),
        RangeType::Timestamp => owned("Range(Timestamp)"),
        RangeType::TimestampTz => owned("Range(TimestampTz)"),
    }
}

fn show_geometry_variant(g: GeometryType) -> (out: String)
    ensures
        out@ == geometry_variant(g),
{
    match g {
        GeometryType::Point => owned("Geometry(Point)"),
        GeometryType::Box => owned("Geometry(Box)"),
        GeometryType::Circle => owned("Geometry(Circle)"),
        GeometryType::Line => owned("Geometry(Line)"),
        GeometryType::Lseg => owned("Geometry(Lseg)"),
        GeometryType::Path => owned("Geometry(Path)"),
        GeometryType::Polygon => owned("Geometry(Polygon)"),
    }
}

impl DataType {
    /// The type written by its variant and fields.
    pub fn debug_text(&self) -> (out: String)
        ensures
            out@ == variant_text(self@),
        decreases self, 0int,
    {
        match self {
            DataType::Null => owned("Null"),
            DataType::Bool => owned("Bool"),
            DataType::Int16 => owned("Int16"),
            DataType::Int32 => owned("Int32"),
            DataType::Int64 => owned("Int64"),
            DataType::Float32 => owned("Float32"),
            DataType::Float64 => owned("Float64"),
            DataType::Decimal { precision, scale } => cat5(
                "Decimal { precision: ",
                show_size(*precision).as_str(),
                ", scale: ",
                show_scale(*scale).as_str(),
                " }",
            ),
            DataType::Money => owned("Money"),
            DataType::Text { max_len } => show_sized_variant("Text", "max_len", *max_len),
            DataType::Char { len } => show_sized_variant("Char", "len", *len),
            DataType::Bytea => owned("Bytea"),
            DataType::Bit { len } => show_sized_variant("Bit", "len", *len),
            DataType::VarBit { max_len } => show_sized_variant("VarBit", "max_len", *max_len),
            DataType::Date => owned("Date"),
            DataType::Time => owned("Time"),
            DataType::TimeTz => owned("TimeTz"),
            DataType::Timestamp => owned("Timestamp"),
            DataType::TimestampTz => owned("TimestampTz"),
            DataType::Interval => owned("Interval"),
            DataType::Uuid => owned("Uuid"),
            DataType::Json => owned("Json"),
            DataType::Jsonb => owned("Jsonb"),
            DataType::Xml => owned("Xml"),
            DataType::Oid => owned("Oid"),
            DataType::RegClass => owned("RegClass"),
            DataType::RegType => owned("RegType"),
            DataType::PgLsn => owned("PgLsn"),
            DataType::Inet => owned("Inet"),
            DataType::Cidr => owned("Cidr"),
            DataType::MacAddr => owned("MacAddr"),
            DataType::MacAddr8 => owned("MacAddr8"),
            DataType::TsVector => owned("TsVector"),
            DataType::TsQuery => owned("TsQuery"),
            DataType::Vector { dims } => show_sized_variant("Vector", "dims", *dims),
            DataType::HalfVec { dims } => show_sized_variant("HalfVec", "dims", *dims),
            DataType::SparseVec { dims } => show_sized_variant("SparseVec", "dims", *dims),
            DataType::BitVec { dims } => show_sized_variant("BitVec", "dims", *dims),
            DataType::Range(r) => show_range_variant(*r),
            DataType::Geometry(g) => show_geometry_variant(*g),
            DataType::Array(inner) => cat3("Array(", inner.debug_text().as_str(), ")"),
            DataType::Record(fields) => cat3("Record([", show_fields(fields).as_str(), "])"),
            DataType::Enum { oid, name, labels } => {
                let head = show_named_variant("Enum", *oid, name.as_str());
                let labels = show_labels(labels);
                text::cat4(head.as_str(), ", labels: [", labels.as_str(), "] }")
            },
            DataType::Composite { oid, name, fields } => {
                let head = show_named_variant("Composite", *oid, name.as_str());
                let fields = show_fields(fields);
                text::cat4(head.as_str(), ", fields: [", fields.as_str(), "] }")
            },
            DataType::Domain { oid, name, base_type, not_null } => {
                let head = show_named_variant("Domain", *oid, name.as_str());
                let base = base_type.debug_text();
                text::cat4(
                    head.as_str(),
                    ", base_type: ",
                    base.as_str(),
                    if *not_null {
                        ", not_null: true }"
                    } else {
                        ", not_null: false }"
                    },
                )
            },
        }
    }
}

} // verus!
