//! The types of operators and of literals.
use crate::ast::{BinaryOp, Literal, UnaryOp};
use crate::datatype;
use crate::datatype::{DataType, DataTypeView};
use crate::error::{PlanError, PlanErrorView};
use crate::query::{ScalarExpr, ScalarExprView};
use crate::render::{display_binary, display_unary};
use crate::text::{cat2, cat4, cat6, read_i32, read_i64};
use crate::value::{Value, ValueView};
use crate::{error, query, render, text};
use vstd::prelude::*;

verus! {

/// Whether values of two types can be compared: one is null, they are the same,
/// or both are numeric, both text, or both temporal.
pub open spec fn comparable_types(a: DataTypeView, b: DataTypeView) -> bool {
    ||| a is Null
    ||| b is Null
    ||| a == b
    ||| datatype::numeric(a) && datatype::numeric(b)
    ||| datatype::textlike(a) && datatype::textlike(b)
    ||| datatype::temporal(a) && datatype::temporal(b)
}

/// Whether values of two types can be compared.
pub fn comparable(a: &DataType, b: &DataType) -> (yes: bool)
    ensures
        yes == comparable_types(a@, b@),
{
    a.is_null() || b.is_null() || a.same(b) || (a.is_numeric() && b.is_numeric()) || (
    a.is_textlike() && b.is_textlike()) || (a.is_temporal() && b.is_temporal())
}

/// Boolean or null.
pub open spec fn truth_type(t: DataTypeView) -> bool {
    t is Bool || t is Null
}

/// Text or null.
pub open spec fn text_or_null(t: DataTypeView) -> bool {
    datatype::textlike(t) || t is Null
}

/// Addition, subtraction, multiplication, division, remainder and power.
pub open spec fn arithmetic(op: BinaryOp) -> bool {
    op is Add || op is Sub || op is Mul || op is Div || op is Mod || op is Pow
}

/// The six comparisons.
pub open spec fn comparison(op: BinaryOp) -> bool {
    op is Eq || op is NotEq || op is Lt || op is LtEq || op is Gt || op is GtEq
}

/// The pattern matches.
pub open spec fn pattern_match(op: BinaryOp) -> bool {
    ||| op is Like
    ||| op is NotLike
    ||| op is Ilike
    ||| op is NotIlike
    ||| op is RegexMatch
    ||| op is RegexIMatch
    ||| op is RegexNotMatch
    ||| op is RegexNotIMatch
}

/// The bitwise operators.
pub open spec fn bitwise(op: BinaryOp) -> bool {
    op is BitAnd || op is BitOr || op is BitXor || op is ShiftLeft || op is ShiftRight
}

/// A mismatch that names an operator and both operand types.
pub open spec fn operand_mismatch(
    before: Seq<char>,
    op: BinaryOp,
    middle: Seq<char>,
    lt: DataTypeView,
    rt: DataTypeView,
) -> PlanErrorView {
    PlanErrorView::TypeMismatch(
        before + render::binary_text(op) + middle + datatype::type_text(lt) + " and "@
            + datatype::type_text(rt),
    )
}

/// A mismatch that names both operand types.
pub open spec fn pair_mismatch(
    before: Seq<char>,
    lt: DataTypeView,
    rt: DataTypeView,
) -> PlanErrorView {
    PlanErrorView::TypeMismatch(
        before + datatype::type_text(lt) + " and "@ + datatype::type_text(rt),
    )
}

/// The type of a binary operation on operands of the given types.
pub open spec fn operation_type(op: BinaryOp, lt: DataTypeView, rt: DataTypeView) -> Result<
    DataTypeView,
    PlanErrorView,
> {
    if arithmetic(op) {
        if lt is Null {
            Ok(rt)
        } else if rt is Null {
            Ok(lt)
        } else {
            match datatype::join_numeric(lt, rt) {
                Some(t) => Ok(t),
                None => Err(
                    operand_mismatch(
                        "arithmetic operator "@,
                        op,
                        " on incompatible types "@,
                        lt,
                        rt,
                    ),
                ),
            }
        }
    } else if op is Concat {
        if text_or_null(lt) && text_or_null(rt) {
            Ok(DataTypeView::Text { max_len: None })
        } else {
            Err(pair_mismatch("string concatenation requires text operands, got "@, lt, rt))
        }
    } else if comparison(op) {
        if comparable_types(lt, rt) {
            Ok(DataTypeView::Bool)
        } else {
            Err(pair_mismatch("cannot compare "@, lt, rt))
        }
    } else if op is And || op is Or {
        if truth_type(lt) && truth_type(rt) {
            Ok(DataTypeView::Bool)
        } else {
            Err(operand_mismatch(""@, op, " requires boolean operands, got "@, lt, rt))
        }
    } else if pattern_match(op) {
        if text_or_null(lt) && text_or_null(rt) {
            Ok(DataTypeView::Bool)
        } else {
            Err(operand_mismatch(""@, op, " requires text operands, got "@, lt, rt))
        }
    } else if bitwise(op) {
        if lt is Null {
            Ok(rt)
        } else if rt is Null {
            Ok(lt)
        } else if datatype::integral(lt) && datatype::integral(rt) {
            Ok(datatype::join_numeric(lt, rt)->Some_0)
        } else {
            Err(
                operand_mismatch(
                    "bitwise operator "@,
                    op,
                    " requires integer operands, got "@,
                    lt,
                    rt,
                ),
            )
        }
    } else if op is JsonGet || op is JsonGetPath {
        Ok(DataTypeView::Jsonb)
    } else if op is JsonGetText || op is JsonGetPathText {
        Ok(DataTypeView::Text { max_len: None })
    } else {
        Ok(DataTypeView::Bool)
    }
}

fn operand_error(before: &str, op: BinaryOp, middle: &str, lt: &DataType, rt: &DataType) -> (e:
    PlanError)
    ensures
        e@ == operand_mismatch(before@, op, middle@, lt@, rt@),
{
    PlanError::TypeMismatch(
        cat6(
            before,
            display_binary(op),
            middle,
            lt.sql_name().as_str(),
            " and ",
            rt.sql_name().as_str(),
        ),
    )
}

/// A mismatch that names both operand types.
pub fn pair_error(before: &str, lt: &DataType, rt: &DataType) -> (e: PlanError)
    ensures
        e@ == pair_mismatch(before@, lt@, rt@),
{
    PlanError::TypeMismatch(
        cat4(before, lt.sql_name().as_str(), " and ", rt.sql_name().as_str()),
    )
}

/// A mismatch whose text ends in a type.
pub open spec fn type_mismatch(before: Seq<char>, t: DataTypeView) -> PlanErrorView {
    PlanErrorView::TypeMismatch(before + datatype::type_text(t))
}

/// A mismatch whose text ends in a type.
pub fn type_error(before: &str, t: &DataType) -> (e: PlanError)
    ensures
        e@ == type_mismatch(before@, t@),
{
    PlanError::TypeMismatch(cat2(before, t.sql_name().as_str()))
}

/// The type of a binary operation on operands of the given types.
pub fn binary_result_type(op: BinaryOp, lt: DataType, rt: DataType) -> (made: Result<
    DataType,
    PlanError,
>)
    ensures
        error::type_outcome(made) == operation_type(op, lt@, rt@),
{
    match op {
        BinaryOp::Add | BinaryOp::Sub | BinaryOp::Mul | BinaryOp::Div | BinaryOp::Mod
        | BinaryOp::Pow => {
            if lt.is_null() {
                Ok(rt)
            } else if rt.is_null() {
                Ok(lt)
            } else {
                match lt.numeric_join(&rt) {
                    Some(t) => Ok(t),
                    None => Err(
                        operand_error(
                            "arithmetic operator ",
                            op,
                            " on incompatible types ",
                            &lt,
                            &rt,
                        ),
                    ),
                }
            }
        },
        BinaryOp::Concat => {
            if (lt.is_textlike() || lt.is_null()) && (rt.is_textlike() || rt.is_null()) {
                Ok(DataType::Text { max_len: None })
            } else {
                Err(pair_error("string concatenation requires text operands, got ", &lt, &rt))
            }
        },
        BinaryOp::Eq | BinaryOp::NotEq | BinaryOp::Lt | BinaryOp::LtEq | BinaryOp::Gt
        | BinaryOp::GtEq => {
            if comparable(&lt, &rt) {
                Ok(DataType::Bool)
            } else {
                Err(pair_error("cannot compare ", &lt, &rt))
            }
        },
        BinaryOp::And | BinaryOp::Or => {
            if (lt.is_bool() || lt.is_null()) && (rt.is_bool() || rt.is_null()) {
                Ok(DataType::Bool)
            } else {
                Err(operand_error("", op, " requires boolean operands, got ", &lt, &rt))
            }
        },
        BinaryOp::Like | BinaryOp::NotLike | BinaryOp::Ilike | BinaryOp::NotIlike
        | BinaryOp::RegexMatch | BinaryOp::RegexIMatch | BinaryOp::RegexNotMatch
        | BinaryOp::RegexNotIMatch => {
            if (lt.is_textlike() || lt.is_null()) && (rt.is_textlike() || rt.is_null()) {
                Ok(DataType::Bool)
            } else {
                Err(operand_error("", op, " requires text operands, got ", &lt, &rt))
            }
        },
        BinaryOp::BitAnd | BinaryOp::BitOr | BinaryOp::BitXor | BinaryOp::ShiftLeft
        | BinaryOp::ShiftRight => {
            if lt.is_null() {
                Ok(rt)
            } else if rt.is_null() {
                Ok(lt)
            } else if lt.is_integer() && rt.is_integer() {
                match lt.numeric_join(&rt) {
                    Some(t) => Ok(t),
                    None => Ok(lt),
                }
            } else {
                Err(
                    operand_error(
                        "bitwise operator ",
                        op,
                        " requires integer operands, got ",
                        &lt,
                        &rt,
                    ),
                )
            }
        },
        BinaryOp::JsonGet | BinaryOp::JsonGetPath => Ok(DataType::Jsonb),
        BinaryOp::JsonGetText | BinaryOp::JsonGetPathText => Ok(DataType::Text { max_len: None }),
        BinaryOp::JsonContains | BinaryOp::JsonContained | BinaryOp::JsonHasKey
        | BinaryOp::JsonHasAnyKey | BinaryOp::JsonHasAllKeys | BinaryOp::Overlap => Ok(
            DataType::Bool,
        ),
    }
}

/// The type of a unary operation on an operand of the given type.
pub open spec fn unary_type(op: UnaryOp, t: DataTypeView) -> Result<DataTypeView, PlanErrorView> {
    match op {
        UnaryOp::Neg | UnaryOp::Pos => if datatype::numeric(t) || t is Null {
            Ok(t)
        } else {
            Err(
                PlanErrorView::TypeMismatch(
                    "unary "@ + render::unary_text(op) + " on non-numeric type "@
                        + datatype::type_text(t),
                ),
            )
        },
        UnaryOp::Not => if truth_type(t) {
            Ok(DataTypeView::Bool)
        } else {
            Err(type_mismatch("NOT on non-boolean type "@, t))
        },
        UnaryOp::BitNot => if datatype::integral(t) || t is Null {
            Ok(t)
        } else {
            Err(type_mismatch("bitwise NOT (~) requires integer operand, got "@, t))
        },
    }
}

/// The type of a unary operation on an operand of the given type.
pub fn unary_result_type(op: UnaryOp, t: DataType) -> (made: Result<DataType, PlanError>)
    ensures
        error::type_outcome(made) == unary_type(op, t@),
{
    match op {
        UnaryOp::Neg | UnaryOp::Pos => {
            if t.is_numeric() || t.is_null() {
                Ok(t)
            } else {
                Err(
                    PlanError::TypeMismatch(
                        cat4(
                            "unary ",
                            display_unary(op),
                            " on non-numeric type ",
                            t.sql_name().as_str(),
                        ),
                    ),
                )
            }
        },
        UnaryOp::Not => {
            if t.is_bool() || t.is_null() {
                Ok(DataType::Bool)
            } else {
                Err(type_error("NOT on non-boolean type ", &t))
            }
        },
        UnaryOp::BitNot => {
            if t.is_integer() || t.is_null() {
                Ok(t)
            } else {
                Err(type_error("bitwise NOT (~) requires integer operand, got ", &t))
            }
        },
    }
}

/// The constant and the type of an integer literal: the narrowest of 32 and 64
/// bits that holds it. Whatever does not fit is a decimal placeholder.
pub open spec fn integer_literal(s: Seq<char>) -> (ValueView, DataTypeView) {
    match text::within(text::int_value(s), i32::MIN as int, i32::MAX as int) {
        Some(v) => (ValueView::Int32(v as i32), DataTypeView::Int32),
        None => match text::within(text::int_value(s), i64::MIN as int, i64::MAX as int) {
            Some(v) => (ValueView::Int64(v as i64), DataTypeView::Int64),
            None => (
                ValueView::Int64(i64::MAX),
                DataTypeView::Decimal { precision: None, scale: None },
            ),
        },
    }
}

/// The narrowest integer constant that an integer literal stands for.
pub fn parse_integer_literal(s: &str) -> (made: (Value, DataType))
    ensures
        (made.0@, made.1@) == integer_literal(s@),
{
    match read_i32(s) {
        Some(v) => (Value::Int32(v), DataType::Int32),
        None => match read_i64(s) {
            Some(v) => (Value::Int64(v), DataType::Int64),
            None => (Value::Int64(i64::MAX), DataType::Decimal { precision: None, scale: None }),
        },
    }
}

/// A bound constant.
pub open spec fn constant(value: ValueView, data_type: DataTypeView) -> ScalarExprView {
    ScalarExprView::Literal { value, data_type }
}

/// The untyped null.
pub open spec fn null_constant() -> ScalarExprView {
    constant(ValueView::Null, DataTypeView::Null)
}

/// What a literal is bound to. Typed literals are nulls here.
pub open spec fn literal_constant(lit: Literal) -> ScalarExprView {
    match lit {
        Literal::Bool { value } => constant(ValueView::Bool(value), DataTypeView::Bool),
        Literal::Integer { text } => constant(
            integer_literal(text@).0,
            integer_literal(text@).1,
        ),
        Literal::Float { value, .. } => constant(
            ValueView::Float64(value@),
            DataTypeView::Float64,
        ),
        Literal::Text { value } => constant(
            ValueView::Text(value@),
            DataTypeView::Text { max_len: None },
        ),
        _ => null_constant(),
    }
}

/// Binds a literal.
pub fn bind_literal(lit: &Literal) -> (made: ScalarExpr)
    ensures
        made@ == literal_constant(*lit),
{
    match lit {
        Literal::Bool { value } => ScalarExpr::Literal {
            value: Value::Bool(*value),
            data_type: DataType::Bool,
        },
        Literal::Integer { text } => {
            let (value, data_type) = parse_integer_literal(text.as_str());
            ScalarExpr::Literal { value, data_type }
        },
        Literal::Float { value, .. } => ScalarExpr::Literal {
            value: Value::Float64(value.duplicate()),
            data_type: DataType::Float64,
        },
        Literal::Text { value } => ScalarExpr::Literal {
            value: Value::Text(value.clone()),
            data_type: DataType::Text { max_len: None },
        },
        _ => ScalarExpr::Literal { value: Value::Null, data_type: DataType::Null },
    }
}

/// A binary operation on bound operands, or the mismatch of their types.
pub open spec fn typed_binary(op: BinaryOp, l: ScalarExprView, r: ScalarExprView) -> Result<
    ScalarExprView,
    PlanErrorView,
> {
    match operation_type(op, query::scalar_type(l), query::scalar_type(r)) {
        Ok(t) => Ok(
            ScalarExprView::Binary { op, left: Box::new(l), right: Box::new(r), data_type: t },
        ),
        Err(e) => Err(e),
    }
}

/// Makes a binary operation of bound operands.
pub fn make_binary(op: BinaryOp, left: ScalarExpr, right: ScalarExpr) -> (made: Result<
    ScalarExpr,
    PlanError,
>)
    ensures
        error::scalar_outcome(made) == typed_binary(op, left@, right@),
{
    let data_type = binary_result_type(op, left.data_type(), right.data_type())?;
    Ok(ScalarExpr::Binary { op, left: Box::new(left), right: Box::new(right), data_type })
}

/// `expr >= low AND expr <= high`, or `expr < low OR expr > high` when negated.
pub open spec fn range_test(
    e: ScalarExprView,
    low: ScalarExprView,
    high: ScalarExprView,
    negated: bool,
) -> Result<ScalarExprView, PlanErrorView> {
    match typed_binary(
        if negated {
            BinaryOp::Lt
        } else {
            BinaryOp::GtEq
        },
        e,
        low,
    ) {
        Err(err) => Err(err),
        Ok(lo) => match typed_binary(
            if negated {
                BinaryOp::Gt
            } else {
                BinaryOp::LtEq
            },
            e,
            high,
        ) {
            Err(err) => Err(err),
            Ok(hi) => Ok(
                ScalarExprView::Binary {
                    op: if negated {
                        BinaryOp::Or
                    } else {
                        BinaryOp::And
                    },
                    left: Box::new(lo),
                    right: Box::new(hi),
                    data_type: DataTypeView::Bool,
                },
            ),
        },
    }
}

/// Makes one range test of bound operands.
pub fn make_range_test(
    bound_expr: ScalarExpr,
    bound_low: ScalarExpr,
    bound_high: ScalarExpr,
    negated: bool,
) -> (made: Result<ScalarExpr, PlanError>)
    ensures
        error::scalar_outcome(made) == range_test(bound_expr@, bound_low@, bound_high@, negated),
{
    let lo_op = if negated {
        BinaryOp::Lt
    } else {
        BinaryOp::GtEq
    };
    let hi_op = if negated {
        BinaryOp::Gt
    } else {
        BinaryOp::LtEq
    };
    let connect = if negated {
        BinaryOp::Or
    } else {
        BinaryOp::And
    };
    let lo = make_binary(lo_op, bound_expr.duplicate(), bound_low)?;
    let hi = make_binary(hi_op, bound_expr, bound_high)?;
    Ok(
        ScalarExpr::Binary {
            op: connect,
            left: Box::new(lo),
            right: Box::new(hi),
            data_type: DataType::Bool,
        },
    )
}

/// The boolean tree that a `BETWEEN` test on bound operands stands for: one
/// range test, and when symmetric also the one with the bounds exchanged.
pub open spec fn between_test(
    e: ScalarExprView,
    low: ScalarExprView,
    high: ScalarExprView,
    negated: bool,
    symmetric: bool,
) -> Result<ScalarExprView, PlanErrorView> {
    match range_test(e, low, high, negated) {
        Err(err) => Err(err),
        Ok(forward) => if !symmetric {
            Ok(forward)
        } else {
            match range_test(e, high, low, negated) {
                Err(err) => Err(err),
                Ok(reversed) => Ok(
                    ScalarExprView::Binary {
                        op: if negated {
                            BinaryOp::And
                        } else {
                            BinaryOp::Or
                        },
                        left: Box::new(forward),
                        right: Box::new(reversed),
                        data_type: DataTypeView::Bool,
                    },
                ),
            }
        },
    }
}

/// Makes a `BETWEEN` test of bound operands.
pub fn make_between(
    bound_expr: ScalarExpr,
    bound_low: ScalarExpr,
    bound_high: ScalarExpr,
    negated: bool,
    symmetric: bool,
) -> (made: Result<ScalarExpr, PlanError>)
    ensures
        error::scalar_outcome(made) == between_test(
            bound_expr@,
            bound_low@,
            bound_high@,
            negated,
            symmetric,
        ),
{
    let forward = make_range_test(
        bound_expr.duplicate(),
        bound_low.duplicate(),
        bound_high.duplicate(),
        negated,
    )?;
    if !symmetric {
        return Ok(forward);
    }
    let reversed = make_range_test(bound_expr, bound_high, bound_low, negated)?;
    let combine_op = if negated {
        BinaryOp::And
    } else {
        BinaryOp::Or
    };
    Ok(
        ScalarExpr::Binary {
            op: combine_op,
            left: Box::new(forward),
            right: Box::new(reversed),
            data_type: DataType::Bool,
        },
    )
}

/// Whether two types can be compared does not depend on their order.
pub proof fn comparable_is_symmetric(a: DataTypeView, b: DataTypeView)
    ensures
        comparable_types(a, b) == comparable_types(b, a),
{
}

/// A `BETWEEN` test on bound operands is the conjunction of the two explicit
/// comparisons, and fails exactly when one of them does.
pub proof fn between_is_two_comparisons(
    e: ScalarExprView,
    low: ScalarExprView,
    high: ScalarExprView,
)
    ensures
        between_test(e, low, high, false, false) == (match (
            typed_binary(BinaryOp::GtEq, e, low),
            typed_binary(BinaryOp::LtEq, e, high),
        ) {
            (Err(err), _) => Err(err),
            (_, Err(err)) => Err(err),
            (Ok(lo), Ok(hi)) => typed_binary(BinaryOp::And, lo, hi),
        }),
{
}

/// A negated `BETWEEN` test on bound operands is the disjunction of the two
/// opposite comparisons, and fails exactly when one of them does.
pub proof fn not_between_is_two_comparisons(
    e: ScalarExprView,
    low: ScalarExprView,
    high: ScalarExprView,
)
    ensures
        between_test(e, low, high, true, false) == (match (
            typed_binary(BinaryOp::Lt, e, low),
            typed_binary(BinaryOp::Gt, e, high),
        ) {
            (Err(err), _) => Err(err),
            (_, Err(err)) => Err(err),
            (Ok(lo), Ok(hi)) => typed_binary(BinaryOp::Or, lo, hi),
        }),
{
}

/// The symmetric test does not fail unless the plain one does, and combines the
/// plain tests of both orders of the bounds.
pub proof fn symmetric_between_combines_both_orders(
    e: ScalarExprView,
    low: ScalarExprView,
    high: ScalarExprView,
    negated: bool,
)
    ensures
        between_test(e, low, high, negated, true) is Ok <==> between_test(
            e,
            low,
            high,
            negated,
            false,
        ) is Ok,
        between_test(e, low, high, negated, true) matches Ok(t) ==> t
            == (ScalarExprView::Binary {
            op: if negated {
                BinaryOp::And
            } else {
                BinaryOp::Or
            },
            left: Box::new(between_test(e, low, high, negated, false)->Ok_0),
            right: Box::new(between_test(e, high, low, negated, false)->Ok_0),
            data_type: DataTypeView::Bool,
        }),
{
}

/// A `BETWEEN` test binds exactly when both bounds can be compared with the
/// tested expression, and is then boolean, negated and symmetric or not.
pub proof fn between_binds_comparable_bounds(
    e: ScalarExprView,
    low: ScalarExprView,
    high: ScalarExprView,
    negated: bool,
    symmetric: bool,
)
    ensures
        ({
            let made = between_test(e, low, high, negated, symmetric);
            let fits = comparable_types(query::scalar_type(e), query::scalar_type(low))
                && comparable_types(query::scalar_type(e), query::scalar_type(high));
            &&& made is Ok <==> fits
            &&& made matches Ok(x) ==> query::scalar_type(x) is Bool
            &&& made matches Err(err) ==> err is TypeMismatch
        }),
{
}

/// An integer literal has the narrowest type of 32 and 64 bits that holds its
/// value, and keeps the value.
pub proof fn integer_literals_are_narrow(s: Seq<char>)
    ensures
        text::int_value(s) matches Some(v) ==> {
            &&& i32::MIN <= v <= i32::MAX ==> integer_literal(s) == (
                ValueView::Int32(v as i32),
                DataTypeView::Int32,
            )
            &&& !(i32::MIN <= v <= i32::MAX) && i64::MIN <= v <= i64::MAX ==> integer_literal(s)
                == (ValueView::Int64(v as i64), DataTypeView::Int64)
            &&& !(i64::MIN <= v <= i64::MAX) ==> integer_literal(s).1 is Decimal
        },
{
}

/// An operation on two nulls always has a type.
pub proof fn nulls_fit_every_operation(op: BinaryOp)
    ensures
        operation_type(op, DataTypeView::Null, DataTypeView::Null) is Ok,
{
}

} // verus!
