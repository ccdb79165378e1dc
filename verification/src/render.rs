//! The text of constants and of bound expressions, as it appears in column
//! names and in explanations of a plan.
use crate::ast::{BinaryOp, UnaryOp};
use crate::query::{ScalarExpr, ScalarExprView};
use crate::text;
use crate::text::{cat2, cat3, cat4, cat5, cat6, cat7, chars_of, owned, show_i64, show_u64, text_of};
use crate::value::{FloatValue, FloatValueView, Value, ValueView};
use crate::{list, query, value};
use vstd::prelude::*;

verus! {

/// The symbol of a unary operator.
pub open spec fn unary_text(op: UnaryOp) -> Seq<char> {
    match op {
        UnaryOp::Neg => "-"@,
        UnaryOp::Pos => "+"@,
        UnaryOp::Not => "NOT"@,
        UnaryOp::BitNot => "~"@,
    }
}

/// The symbol of a binary operator.
pub open spec fn binary_text(op: BinaryOp) -> Seq<char> {
    match op {
        BinaryOp::Add => "+"@,
        BinaryOp::Sub => "-"@,
        BinaryOp::Mul => "*"@,
        BinaryOp::Div => "/"@,
        BinaryOp::Mod => "%"@,
        BinaryOp::Pow => "^"@,
        BinaryOp::Concat => "||"@,
        BinaryOp::Eq => "="@,
        BinaryOp::NotEq => "<>"@,
        BinaryOp::Lt => "<"@,
        BinaryOp::LtEq => "<="@,
        BinaryOp::Gt => ">"@,
        BinaryOp::GtEq => ">="@,
        BinaryOp::And => "AND"@,
        BinaryOp::Or => "OR"@,
        BinaryOp::Like => "LIKE"@,
        BinaryOp::NotLike => "NOT LIKE"@,
        BinaryOp::Ilike => "ILIKE"@,
        BinaryOp::NotIlike => "NOT ILIKE"@,
        BinaryOp::RegexMatch => "~"@,
        BinaryOp::RegexIMatch => "~*"@,
        BinaryOp::RegexNotMatch => "!~"@,
        BinaryOp::RegexNotIMatch => "!~*"@,
        BinaryOp::BitAnd => "&"@,
        BinaryOp::BitOr => "|"@,
        BinaryOp::BitXor => "#"@,
        BinaryOp::ShiftLeft => "<<"@,
        BinaryOp::ShiftRight => ">>"@,
        BinaryOp::JsonGet => "->"@,
        BinaryOp::JsonGetText => "->>"@,
        BinaryOp::JsonGetPath => "#>"@,
        BinaryOp::JsonGetPathText => "#>>"@,
        BinaryOp::JsonContains => "@>"@,
        BinaryOp::JsonContained => "<@"@,
        BinaryOp::JsonHasKey => "?"@,
        BinaryOp::JsonHasAnyKey => "?|"@,
        BinaryOp::JsonHasAllKeys => "?&"@,
        BinaryOp::Overlap => "&&"@,
    }
}

/// The symbol of a unary operator.
pub fn display_unary(op: UnaryOp) -> (s: &'static str)
    ensures
        s@ == unary_text(op),
{
    match op {
        UnaryOp::Neg => "-",
        UnaryOp::Pos => "+",
        UnaryOp::Not => "NOT",
        UnaryOp::BitNot => "~",
    }
}

/// The symbol of a binary operator.
pub fn display_binary(op: BinaryOp) -> (s: &'static str)
    ensures
        s@ == binary_text(op),
{
    match op {
        BinaryOp::Add => "+",
        BinaryOp::Sub => "-",
        BinaryOp::Mul => "*",
        BinaryOp::Div => "/",
        BinaryOp::Mod => "%",
        BinaryOp::Pow => "^",
        BinaryOp::Concat => "||",
        BinaryOp::Eq => "=",
        BinaryOp::NotEq => "<>",
        BinaryOp::Lt => "<",
        BinaryOp::LtEq => "<=",
        BinaryOp::Gt => ">",
        BinaryOp::GtEq => ">=",
        BinaryOp::And => "AND",
        BinaryOp::Or => "OR",
        BinaryOp::Like => "LIKE",
        BinaryOp::NotLike => "NOT LIKE",
        BinaryOp::Ilike => "ILIKE",
        BinaryOp::NotIlike => "NOT ILIKE",
        BinaryOp::RegexMatch => "~",
        BinaryOp::RegexIMatch => "~*",
        BinaryOp::RegexNotMatch => "!~",
        BinaryOp::RegexNotIMatch => "!~*",
        BinaryOp::BitAnd => "&",
        BinaryOp::BitOr => "|",
        BinaryOp::BitXor => "#",
        BinaryOp::ShiftLeft => "<<",
        BinaryOp::ShiftRight => ">>",
        BinaryOp::JsonGet => "->",
        BinaryOp::JsonGetText => "->>",
        BinaryOp::JsonGetPath => "#>",
        BinaryOp::JsonGetPathText => "#>>",
        BinaryOp::JsonContains => "@>",
        BinaryOp::JsonContained => "<@",
        BinaryOp::JsonHasKey => "?",
        BinaryOp::JsonHasAnyKey => "?|",
        BinaryOp::JsonHasAllKeys => "?&",
        BinaryOp::Overlap => "&&",
    }
}

/// Zeros in front of `s`, as many as it takes to make `n` characters.
pub open spec fn pad_zeros(s: Seq<char>, n: int) -> Seq<char>
    decreases n - s.len(),
{
    if s.len() >= n {
        s
    } else {
        pad_zeros(seq!['0'] + s, n)
    }
}

/// The magnitude of an integer.
pub open spec fn magnitude(n: int) -> nat {
    if n < 0 {
        (-n) as nat
    } else {
        n as nat
    }
}

/// The decimal notation of `n / 10^scale`, with `scale` digits after the point.
pub open spec fn scaled_text(n: int, scale: int) -> Seq<char> {
    if scale <= 0 {
        text::decimal_int(n)
    } else {
        let digits = pad_zeros(text::decimal(magnitude(n)), scale + 1);
        let point = digits.len() - scale;
        (if n < 0 {
            "-"@
        } else {
            ""@
        }) + digits.take(point) + "."@ + digits.skip(point)
    }
}

/// Renders `n / 10^scale` with `scale` digits after the point.
pub fn show_scaled(n: i64, scale: i32) -> (out: String)
    ensures
        out@ == scaled_text(n as int, scale as int),
{
    if scale <= 0 {
        return show_i64(n);
    }
    let size: u64 = if n == i64::MIN {
        9_223_372_036_854_775_808u64
    } else if n < 0 {
        (-n) as u64
    } else {
        n as u64
    };
    let mut digits = show_u64(size);
    let wanted: usize = scale as usize + 1;
    let mut count: usize = chars_of(digits.as_str()).len();
    while count < wanted
        invariant
            wanted == scale + 1,
            count == digits@.len(),
            pad_zeros(digits@, scale + 1) == pad_zeros(
                text::decimal(magnitude(n as int)),
                scale + 1,
            ),
        decreases wanted - count,
    {
        let longer = cat2("0", digits.as_str());
        proof {
            reveal_strlit("0");
            assert("0"@ =~= seq!['0']);
        }
        digits = longer;
        count = count + 1;
    }
    let chars = chars_of(digits.as_str());
    let point: usize = chars.len() - scale as usize;
    let whole = text_of(&chars, 0, point);
    let part = text_of(&chars, point, chars.len());
    assert(whole@ =~= digits@.take(point as int));
    assert(part@ =~= digits@.skip(point as int));
    let sign = if n < 0 {
        "-"
    } else {
        ""
    };
    cat4(sign, whole.as_str(), ".", part.as_str())
}

/// The text of a floating-point number: its rendering, or the computation that
/// yields it.
pub open spec fn float_text(v: FloatValueView) -> Seq<char>
    decreases v,
{
    match v {
        FloatValueView::Bits { shown, .. } => shown,
        FloatValueView::Integer(n) => text::decimal_int(n as int),
        FloatValueView::Decimal { value, scale } => scaled_text(value as int, scale as int),
        FloatValueView::Single(x) => float_text(*x),
        FloatValueView::Negated(x) => "-"@ + float_text(*x),
        FloatValueView::Sum(x, y) => "("@ + float_text(*x) + " + "@ + float_text(*y) + ")"@,
        FloatValueView::Difference(x, y) => "("@ + float_text(*x) + " - "@ + float_text(*y) + ")"@,
        FloatValueView::Product(x, y) => "("@ + float_text(*x) + " * "@ + float_text(*y) + ")"@,
        FloatValueView::Quotient(x, y) => "("@ + float_text(*x) + " / "@ + float_text(*y) + ")"@,
    }
}

pub fn show_float(v: &FloatValue) -> (out: String)
    ensures
        out@ == float_text(v@),
    decreases v,
{
    match v {
        FloatValue::Bits { shown, .. } => shown.clone(),
        FloatValue::Integer(n) => show_i64(*n),
        FloatValue::Decimal { value, scale } => show_scaled(*value, *scale),
        FloatValue::Single(x) => show_float(x),
        FloatValue::Negated(x) => cat2("-", show_float(x).as_str()),
        FloatValue::Sum(x, y) => cat5("(", show_float(x).as_str(), " + ", show_float(y).as_str(), ")"),
        FloatValue::Difference(x, y) => cat5(
            "(",
            show_float(x).as_str(),
            " - ",
            show_float(y).as_str(),
            ")",
        ),
        FloatValue::Product(x, y) => cat5(
            "(",
            show_float(x).as_str(),
            " * ",
            show_float(y).as_str(),
            ")",
        ),
        FloatValue::Quotient(x, y) => cat5(
            "(",
            show_float(x).as_str(),
            " / ",
            show_float(y).as_str(),
            ")",
        ),
    }
}

/// The bits of a bit string, from `i` on.
pub open spec fn bits_text(bits: Seq<bool>, i: int) -> Seq<char>
    decreases bits.len() - i,
{
    if i < 0 || i >= bits.len() {
        ""@
    } else {
        (if bits[i] {
            "1"@
        } else {
            "0"@
        }) + bits_text(bits, i + 1)
    }
}

fn show_bits(bits: &Vec<bool>, i: usize) -> (out: String)
    requires
        i <= bits.len(),
    ensures
        out@ == bits_text(bits@, i as int),
    decreases bits.len() - i,
{
    if i >= bits.len() {
        owned("")
    } else {
        let rest = show_bits(bits, i + 1);
        cat2(
            if bits[i] {
                "1"
            } else {
                "0"
            },
            rest.as_str(),
        )
    }
}

/// The decimal bytes of a byte string, from `i` on.
pub open spec fn bytes_text(bytes: Seq<u8>, i: int) -> Seq<char>
    decreases bytes.len() - i,
{
    if i < 0 || i >= bytes.len() {
        ""@
    } else {
        " "@ + text::decimal(bytes[i] as nat) + bytes_text(bytes, i + 1)
    }
}

fn show_bytes(bytes: &Vec<u8>, i: usize) -> (out: String)
    requires
        i <= bytes.len(),
    ensures
        out@ == bytes_text(bytes@, i as int),
    decreases bytes.len() - i,
{
    if i >= bytes.len() {
        owned("")
    } else {
        let rest = show_bytes(bytes, i + 1);
        cat3(" ", show_u64(bytes[i] as u64).as_str(), rest.as_str())
    }
}

/// The text of a constant.
pub open spec fn value_text(v: ValueView) -> Seq<char>
    decreases v, 0int,
{
    match v {
        ValueView::Null => "NULL"@,
        ValueView::Bool(b) => if b {
            "true"@
        } else {
            "false"@
        },
        ValueView::Int16(n) => text::decimal_int(n as int),
        ValueView::Int32(n) => text::decimal_int(n as int),
        ValueView::Int64(n) => text::decimal_int(n as int),
        ValueView::Float32(f) => float_text(f),
        ValueView::Float64(f) => float_text(f),
        ValueView::Decimal { value, scale } => scaled_text(value as int, scale as int),
        ValueView::Money(n) => scaled_text(n as int, 2),
        ValueView::Text(s) => "'"@ + s + "'"@,
        ValueView::Char(s) => "'"@ + s + "'"@,
        ValueView::Json(s) => "'"@ + s + "'"@,
        ValueView::Jsonb(s) => "'"@ + s + "'"@,
        ValueView::Xml(s) => "'"@ + s + "'"@,
        ValueView::Bytea(b) => "bytea"@ + bytes_text(b, 0),
        ValueView::Uuid(n) => "uuid "@ + text::decimal((n / 0x1_0000_0000_0000_0000) as nat) + ":"@
            + text::decimal((n % 0x1_0000_0000_0000_0000) as nat),
        ValueView::Date(n) => "date "@ + text::decimal_int(n as int),
        ValueView::Time(n) => "time "@ + text::decimal_int(n as int),
        ValueView::TimeTz { micros, offset_seconds } => "timetz "@ + text::decimal_int(
            micros as int,
        ) + " "@ + text::decimal_int(offset_seconds as int),
        ValueView::Timestamp(n) => "timestamp "@ + text::decimal_int(n as int),
        ValueView::TimestampTz(n) => "timestamptz "@ + text::decimal_int(n as int),
        ValueView::Interval { months, days, microseconds } => "interval "@ + text::decimal_int(
            months as int,
        ) + " "@ + text::decimal_int(days as int) + " "@ + text::decimal_int(microseconds as int),
        ValueView::Oid(n) => text::decimal(n as nat),
        ValueView::RegClass(n) => text::decimal(n as nat),
        ValueView::RegType(n) => text::decimal(n as nat),
        ValueView::PgLsn(n) => "pg_lsn "@ + text::decimal(n as nat),
        ValueView::BitString(b) => bits_text(b, 0),
        ValueView::Network { text, .. } => text,
        ValueView::Range { text, .. } => text,
        ValueView::Geometry { text, .. } => text,
        ValueView::Vector { text, .. } => text,
        ValueView::Array { elements, .. } => "{"@ + values_text(elements, 0) + "}"@,
    }
}

/// The texts of constants from `i` on, separated by commas.
pub open spec fn values_text(s: Seq<ValueView>, i: int) -> Seq<char>
    decreases s, s.len() - i,
{
    if i < 0 || i >= s.len() {
        ""@
    } else {
        (if i > 0 {
            ","@
        } else {
            ""@
        }) + value_text(s[i]) + values_text(s, i + 1)
    }
}

fn show_values(list: &Vec<Value>, i: usize) -> (out: String)
    requires
        i <= list.len(),
    ensures
        out@ == values_text(value::values_view(list@), i as int),
    decreases list, list.len() - i,
{
    if i >= list.len() {
        owned("")
    } else {
        let head = list[i].show();
        let rest = show_values(list, i + 1);
        cat3(
            if i > 0 {
                ","
            } else {
                ""
            },
            head.as_str(),
            rest.as_str(),
        )
    }
}

impl Value {
    /// The text of the constant.
    pub fn show(&self) -> (out: String)
        ensures
            out@ == value_text(self@),
        decreases self, 0int,
    {
        match self {
            Value::Null => owned("NULL"),
            Value::Bool(b) => owned(
                if *b {
                    "true"
                } else {
                    "false"
                },
            ),
            Value::Int16(n) => show_i64(*n as i64),
            Value::Int32(n) => show_i64(*n as i64),
            Value::Int64(n) => show_i64(*n),
            Value::Float32(f) => show_float(f),
            Value::Float64(f) => show_float(f),
            Value::Decimal { value, scale } => show_scaled(*value, *scale),
            Value::Money(n) => show_scaled(*n, 2),
            Value::Text(s) => cat3("'", s.as_str(), "'"),
            Value::Char(s) => cat3("'", s.as_str(), "'"),
            Value::Json(s) => cat3("'", s.as_str(), "'"),
            Value::Jsonb(s) => cat3("'", s.as_str(), "'"),
            Value::Xml(s) => cat3("'", s.as_str(), "'"),
            Value::Bytea(b) => cat2("bytea", show_bytes(b, 0).as_str()),
            Value::Uuid(n) => cat4(
                "uuid ",
                show_u64((*n / 0x1_0000_0000_0000_0000) as u64).as_str(),
                ":",
                show_u64((*n % 0x1_0000_0000_0000_0000) as u64).as_str(),
            ),
            Value::Date(n) => cat2("date ", show_i64(*n as i64).as_str()),
            Value::Time(n) => cat2("time ", show_i64(*n).as_str()),
            Value::TimeTz { micros, offset_seconds } => cat4(
                "timetz ",
                show_i64(*micros).as_str(),
                " ",
                show_i64(*offset_seconds as i64).as_str(),
            ),
            Value::Timestamp(n) => cat2("timestamp ", show_i64(*n).as_str()),
            Value::TimestampTz(n) => cat2("timestamptz ", show_i64(*n).as_str()),
            Value::Interval { months, days, microseconds } => cat6(
                "interval ",
                show_i64(*months as i64).as_str(),
                " ",
                show_i64(*days as i64).as_str(),
                " ",
                show_i64(*microseconds).as_str(),
            ),
            Value::Oid(n) => show_u64(*n as u64),
            Value::RegClass(n) => show_u64(*n as u64),
            Value::RegType(n) => show_u64(*n as u64),
            Value::PgLsn(n) => cat2("pg_lsn ", show_u64(*n).as_str()),
            Value::BitString(b) => show_bits(b, 0),
            Value::Network { text, .. } => text.clone(),
            Value::Range { text, .. } => text.clone(),
            Value::Geometry { text, .. } => text.clone(),
            Value::Vector { text, .. } => text.clone(),
            Value::Array { elements, .. } => cat3("{", show_values(elements, 0).as_str(), "}"),
        }
    }
}

/// The text of a bound expression.
pub open spec fn scalar_text(e: ScalarExprView) -> Seq<char>
    decreases e, 0int,
{
    match e {
        ScalarExprView::Literal { value, .. } => value_text(value),
        ScalarExprView::Column { name, .. } => name,
        ScalarExprView::OuterColumn { name, .. } => name,
        ScalarExprView::Parameter { index, .. } => "$"@ + text::decimal(index as nat),
        ScalarExprView::Unary { op, expr, .. } => "("@ + unary_text(op) + " "@ + scalar_text(*expr)
            + ")"@,
        ScalarExprView::Binary { op, left, right, .. } => "("@ + scalar_text(*left) + " "@
            + binary_text(op) + " "@ + scalar_text(*right) + ")"@,
        ScalarExprView::IsNull { expr, negated } => "("@ + scalar_text(*expr) + (if negated {
            " IS NOT NULL)"@
        } else {
            " IS NULL)"@
        }),
        ScalarExprView::FunctionCall { name, args, .. } => name + "("@ + scalars_text(args, 0)
            + ")"@,
        ScalarExprView::ScalarSubquery { .. } => "(subquery)"@,
        ScalarExprView::Exists { negated, .. } => if negated {
            "NOT EXISTS (subquery)"@
        } else {
            "EXISTS (subquery)"@
        },
        ScalarExprView::InSubquery { expr, negated, .. } => "("@ + scalar_text(*expr) + (
        if negated {
            " NOT IN (subquery))"@
        } else {
            " IN (subquery))"@
        }),
    }
}

/// The texts of expressions from `i` on, separated by commas.
pub open spec fn scalars_text(s: Seq<ScalarExprView>, i: int) -> Seq<char>
    decreases s, s.len() - i,
{
    if i < 0 || i >= s.len() {
        ""@
    } else {
        (if i > 0 {
            ", "@
        } else {
            ""@
        }) + scalar_text(s[i]) + scalars_text(s, i + 1)
    }
}

fn show_scalars(list: &Vec<ScalarExpr>, i: usize) -> (out: String)
    requires
        i <= list.len(),
    ensures
        out@ == scalars_text(query::scalars_view(list@), i as int),
    decreases list, list.len() - i,
{
    if i >= list.len() {
        owned("")
    } else {
        let head = list[i].show();
        let rest = show_scalars(list, i + 1);
        cat3(
            if i > 0 {
                ", "
            } else {
                ""
            },
            head.as_str(),
            rest.as_str(),
        )
    }
}

impl ScalarExpr {
    /// The text of the expression.
    pub fn show(&self) -> (out: String)
        ensures
            out@ == scalar_text(self@),
        decreases self, 0int,
    {
        match self {
            ScalarExpr::Literal { value, .. } => value.show(),
            ScalarExpr::Column { name, .. } => name.clone(),
            ScalarExpr::OuterColumn { name, .. } => name.clone(),
            ScalarExpr::Parameter { index, .. } => cat2("$", show_u64(*index as u64).as_str()),
            ScalarExpr::Unary { op, expr, .. } => cat5(
                "(",
                display_unary(*op),
                " ",
                expr.show().as_str(),
                ")",
            ),
            ScalarExpr::Binary { op, left, right, .. } => cat7(
                "(",
                left.show().as_str(),
                " ",
                display_binary(*op),
                " ",
                right.show().as_str(),
                ")",
            ),
            ScalarExpr::IsNull { expr, negated } => cat3(
                "(",
                expr.show().as_str(),
                if *negated {
                    " IS NOT NULL)"
                } else {
                    " IS NULL)"
                },
            ),
            ScalarExpr::FunctionCall { name, args, .. } => cat4(
                name.as_str(),
                "(",
                show_scalars(args, 0).as_str(),
                ")",
            ),
            ScalarExpr::ScalarSubquery { .. } => owned("(subquery)"),
            ScalarExpr::Exists { negated, .. } => owned(
                if *negated {
                    "NOT EXISTS (subquery)"
                } else {
                    "EXISTS (subquery)"
                },
            ),
            ScalarExpr::InSubquery { expr, negated, .. } => cat3(
                "(",
                expr.show().as_str(),
                if *negated {
                    " NOT IN (subquery))"
                } else {
                    " IN (subquery))"
                },
            ),
        }
    }
}

} // verus!
