//! Columns and operations on bound operands.
use crate::ast::{BinaryOp, ObjectName, UnaryOp};
use crate::binder::names::last_part_text;
use crate::binder::relation::column_of;
use crate::binder::typing::{comparable, type_error};
use crate::binder::{names, relation, soundness, typing};
use crate::catalog::{Catalog, CatalogView};
use crate::datatype::{DataType, DataTypeView};
use crate::dialect::builtin::{
    builtin_return_type, coerce_args_to_common_type, coerce_common_builtin_args,
    common_scalar_return_type, timezone_return_type, validate_builtin_args,
};
use crate::dialect::coerce::{
    array_dimensions, coerce_literal_to_bit_string, coerce_literal_to_bpchar,
    coerce_literal_to_match, coerce_literal_to_oid_alias_with_catalog, coerce_literal_to_type,
};
use crate::dialect::literal::try_fold_literal_binary;
use crate::dialect::number::fold_signed_literal;
use crate::dialect::reading::{Readings, ReadingsView};
use crate::dialect::typename::cast_result_matches;
use crate::dialect::{builtin, coerce, literal, number, typename};
use crate::error::{PlanError, PlanErrorView};
use crate::query::{ScalarExpr, ScalarExprView};
use crate::render::display_unary;
use crate::schema::{FieldView, Schema, SchemaView};
use crate::scope::ScopeStack;
use crate::text::{cat2, cat3, cat4, chars_of, eq_fold, owned, show_usize, text_eq, text_of};
use crate::value::{Value, ValueView};
use crate::{datatype, error, query, render, schema, scope, text, value};
use vstd::prelude::*;

verus! {

/// The last two parts of a name with a point between them.
pub open spec fn qualified_name(name: ObjectName) -> Option<Seq<char>> {
    let n = name.parts@.len() as int;
    if n >= 2 {
        Some(name.parts@[n - 2].value@ + "."@ + name.parts@[n - 1].value@)
    } else {
        None
    }
}

/// An optional text as a model.
pub open spec fn text_view(s: Option<String>) -> Option<Seq<char>> {
    match s {
        Some(x) => Some(x@),
        None => None,
    }
}

/// The last two parts of a name with a point between them.
pub fn qualified_column_name(name: &ObjectName) -> (out: Option<String>)
    ensures
        text_view(out) == qualified_name(*name),
{
    let n: usize = name.parts.len();
    if n >= 2 {
        Some(cat3(name.parts[n - 2].value.as_str(), ".", name.parts[n - 1].value.as_str()))
    } else {
        None
    }
}

/// The place of the last point among the first `n` characters.
pub open spec fn last_point(s: Seq<char>, n: int) -> Option<int>
    decreases n,
{
    if n <= 0 {
        None
    } else if s[n - 1] == '.' {
        Some(n - 1)
    } else {
        last_point(s, n - 1)
    }
}

/// What stands behind the last point of a name is the given name, up to case.
pub open spec fn ends_in(s: Seq<char>, col: Seq<char>) -> bool {
    match last_point(s, s.len() as int) {
        Some(p) => text::same_fold(s.subrange(p + 1, s.len() as int), col),
        None => false,
    }
}

fn name_ends_in(s: &str, col: &str) -> (yes: bool)
    ensures
        yes == ends_in(s@, col@),
{
    let chars = chars_of(s);
    let mut n: usize = chars.len();
    while n > 0
        invariant
            n <= chars.len(),
            chars@ == s@,
            last_point(s@, n as int) == last_point(s@, s@.len() as int),
        decreases n,
    {
        if chars[n - 1] == '.' {
            let suffix = text_of(&chars, n, chars.len());
            return eq_fold(suffix.as_str(), col);
        }
        n = n - 1;
    }
    false
}

/// The first field, from the `i`-th on, whose name ends in the given name.
pub open spec fn suffix_from(fields: Seq<FieldView>, col: Seq<char>, i: int) -> Option<int>
    decreases fields.len() - i,
{
    if i < 0 || i >= fields.len() {
        None
    } else if ends_in(fields[i].name, col) {
        Some(i)
    } else {
        suffix_from(fields, col, i + 1)
    }
}

fn find_suffix(s: &Schema, col: &str, from: usize) -> (at: Option<usize>)
    ensures
        (match at {
            Some(i) => Some(i as int),
            None => None,
        }) == suffix_from(s@.fields, col@, from as int),
        at matches Some(i) ==> i < s.fields.len(),
{
    let mut i: usize = from;
    while i < s.fields.len()
        invariant
            suffix_from(s@.fields, col@, i as int) == suffix_from(s@.fields, col@, from as int),
        decreases s.fields.len() - i,
    {
        if name_ends_in(s.fields[i].name.as_str(), col) {
            return Some(i);
        }
        i = i + 1;
    }
    None
}

/// A column of an enclosing query.
pub open spec fn outer_column(name: Seq<char>, r: scope::OuterRefView) -> ScalarExprView {
    ScalarExprView::OuterColumn {
        name,
        frame_depth: r.frame_depth,
        column_index: r.column_index,
        data_type: r.data_type,
    }
}

/// Whether a name stands for the session, where there is no row.
pub open spec fn session_name(col: Seq<char>) -> bool {
    col == "current_catalog"@ || col == "current_user"@ || col == "session_user"@
}

/// What a name without the part before the last refers to.
pub open spec fn simple_column(
    col: Seq<char>,
    alone: bool,
    input: SchemaView,
    scope: Seq<SchemaView>,
) -> Result<ScalarExprView, PlanErrorView> {
    match schema::find_field(input, col) {
        Some(i) => if schema::find_from(input.fields, col, i + 1) is Some {
            Err(PlanErrorView::Ambiguous(col))
        } else {
            Ok(relation::column_at(input, i))
        },
        None => match suffix_from(input.fields, col, 0) {
            Some(i) => if suffix_from(input.fields, col, i + 1) is Some {
                Err(PlanErrorView::Ambiguous(col))
            } else {
                Ok(
                    ScalarExprView::Column {
                        name: col,
                        index: i as usize,
                        data_type: input.fields[i].data_type,
                    },
                )
            },
            None => match scope::resolve_outer(scope, col) {
                Some(r) => Ok(outer_column(col, r)),
                None => if input.fields.len() == 0 && alone && session_name(col) {
                    Ok(
                        ScalarExprView::FunctionCall {
                            name: col,
                            args: Seq::empty(),
                            data_type: DataTypeView::Text { max_len: None },
                        },
                    )
                } else {
                    Err(PlanErrorView::ColumnNotFound(col))
                },
            },
        },
    }
}

/// What a column name refers to: the column of that full name in the row or in
/// an enclosing query, or else the one column that its last part alone stands
/// for.
pub open spec fn resolved_column(
    name: ObjectName,
    input: SchemaView,
    scope: Seq<SchemaView>,
) -> Result<
    ScalarExprView,
    PlanErrorView,
> {
    let col = names::last_part(name);
    let simple = simple_column(col, name.parts@.len() == 1, input, scope);
    match qualified_name(name) {
        None => simple,
        Some(q) => match schema::find_field(input, q) {
            Some(i) => Ok(relation::column_at(input, i)),
            None => match scope::resolve_outer(scope, q) {
                Some(r) => Ok(outer_column(q, r)),
                None => if suffix_from(input.fields, col, 0) is Some {
                    Err(PlanErrorView::ColumnNotFound(q))
                } else {
                    simple
                },
            },
        },
    }
}

fn resolve_simple_column(
    col: String,
    alone: bool,
    input: &Schema,
    scope: &ScopeStack,
) -> (made: Result<
    ScalarExpr,
    PlanError,
>)
    ensures
        error::scalar_outcome(made) == simple_column(col@, alone, input@, scope.rows()),
{
    if let Some(i) = input.find(col.as_str()) {
        assert(i < input.fields.len());
        if input.find_after(col.as_str(), i + 1).is_some() {
            return Err(PlanError::Ambiguous(col));
        }
        return Ok(column_of(input, i));
    }
    if let Some(i) = find_suffix(input, col.as_str(), 0) {
        if find_suffix(input, col.as_str(), i + 1).is_some() {
            return Err(PlanError::Ambiguous(col));
        }
        let data_type = input.field_at(i).data_type.duplicate();
        return Ok(ScalarExpr::Column { name: col, index: i, data_type });
    }
    if let Some(r) = scope.resolve(col.as_str()) {
        return Ok(
            ScalarExpr::OuterColumn {
                name: col,
                frame_depth: r.frame_depth,
                column_index: r.column_index,
                data_type: r.data_type,
            },
        );
    }
    let named = text_eq(col.as_str(), "current_catalog") || text_eq(col.as_str(), "current_user")
        || text_eq(col.as_str(), "session_user");
    if input.is_empty() && alone && named {
        let args: Vec<ScalarExpr> = Vec::new();
        assert(query::scalars_view(args@) =~= Seq::empty());
        return Ok(
            ScalarExpr::FunctionCall {
                name: col,
                args,
                data_type: DataType::Text { max_len: None },
            },
        );
    }
    Err(PlanError::ColumnNotFound(col))
}

/// Resolves a column reference.
pub fn bind_column(name: &ObjectName, input: &Schema, scope: &ScopeStack) -> (made: Result<
    ScalarExpr,
    PlanError,
>)
    ensures
        error::scalar_outcome(made) == resolved_column(*name, input@, scope.rows()),
{
    let col = last_part_text(name);
    if let Some(q) = qualified_column_name(name) {
        if let Some(i) = input.find(q.as_str()) {
            return Ok(column_of(input, i));
        }
        if let Some(r) = scope.resolve(q.as_str()) {
            return Ok(
                ScalarExpr::OuterColumn {
                    name: q,
                    frame_depth: r.frame_depth,
                    column_index: r.column_index,
                    data_type: r.data_type,
                },
            );
        }
        if find_suffix(input, col.as_str(), 0).is_some() {
            return Err(PlanError::ColumnNotFound(q));
        }
    }
    resolve_simple_column(col, name.parts.len() == 1, input, scope)
}

/// The type of a unary operation on an operand of the given type.
pub open spec fn unary_operation_type(op: UnaryOp, t: DataTypeView) -> Result<
    DataTypeView,
    PlanErrorView,
> {
    match op {
        UnaryOp::Not => if t is Bool || t is Null {
            Ok(DataTypeView::Bool)
        } else {
            Err(typing::type_mismatch("NOT on non-boolean type "@, t))
        },
        UnaryOp::BitNot => if datatype::integral(t) || datatype::bit_string(t)
            || datatype::network_address(t) || t is Null {
            Ok(t)
        } else {
            Err(
                typing::type_mismatch(
                    "bitwise NOT (~) requires integer, bit string, or network operand, got "@,
                    t,
                ),
            )
        },
        _ => if datatype::numeric(t) || t is Money || t is Null {
            Ok(t)
        } else {
            Err(
                typing::type_mismatch(
                    "unary "@ + render::unary_text(op) + " on non-numeric type "@,
                    t,
                ),
            )
        },
    }
}

fn resolve_unary_type(op: UnaryOp, t: DataType) -> (made: Result<DataType, PlanError>)
    ensures
        error::type_outcome(made) == unary_operation_type(op, t@),
{
    match op {
        UnaryOp::Not => if t.is_bool() || t.is_null() {
            Ok(DataType::Bool)
        } else {
            Err(type_error("NOT on non-boolean type ", &t))
        },
        UnaryOp::BitNot => if t.is_integer() || t.is_bit_string() || t.is_network_address()
            || t.is_null() {
            Ok(t)
        } else {
            Err(
                type_error(
                    "bitwise NOT (~) requires integer, bit string, or network operand, got ",
                    &t,
                ),
            )
        },
        _ => if t.is_numeric() || matches!(t, DataType::Money) || t.is_null() {
            Ok(t)
        } else {
            let label = cat3("unary ", display_unary(op), " on non-numeric type ");
            Err(type_error(label.as_str(), &t))
        },
    }
}

/// A unary operation on a bound operand; the sign of a number becomes part of
/// it.
pub open spec fn unary_operation(op: UnaryOp, x: ScalarExprView) -> Result<
    ScalarExprView,
    PlanErrorView,
> {
    match unary_operation_type(op, query::scalar_type(x)) {
        Err(e) => Err(e),
        Ok(t) => Ok(
            number::sign_folded(ScalarExprView::Unary { op, expr: Box::new(x), data_type: t }),
        ),
    }
}

/// Makes a unary operation of a bound operand.
pub fn make_unary(op: UnaryOp, bound: ScalarExpr) -> (made: Result<ScalarExpr, PlanError>)
    ensures
        error::scalar_outcome(made) == unary_operation(op, bound@),
{
    let data_type = resolve_unary_type(op, bound.data_type())?;
    let mut made = ScalarExpr::Unary { op, expr: Box::new(bound), data_type };
    fold_signed_literal(&mut made);
    Ok(made)
}

/// The operators whose right operand is a pattern, taken as it is.
pub fn binary_operator_uses_raw_text_pattern(op: BinaryOp) -> (yes: bool)
    ensures
        yes == typing::pattern_match(op),
{
    matches!(
        op,
        BinaryOp::Like | BinaryOp::NotLike | BinaryOp::Ilike | BinaryOp::NotIlike
        | BinaryOp::RegexMatch | BinaryOp::RegexIMatch | BinaryOp::RegexNotMatch
        | BinaryOp::RegexNotIMatch
    )
}

/// Money is multiplied and divided by numbers, not by money.
pub open spec fn keeps_money(op: BinaryOp, l: DataTypeView, r: DataTypeView) -> bool {
    (op is Mul || op is Div) && (l is Money || r is Money)
}

/// Money is multiplied and divided by numbers, not by money.
pub fn money_scalar_arithmetic_keeps_operand_types(
    op: BinaryOp,
    left: &ScalarExpr,
    right: &ScalarExpr,
) -> (yes: bool)
    ensures
        yes == keeps_money(op, query::scalar_type(left@), query::scalar_type(right@)),
{
    matches!(op, BinaryOp::Mul | BinaryOp::Div) && (matches!(left.data_type(), DataType::Money)
        || matches!(right.data_type(), DataType::Money))
}

/// The operands of an operation, each literal coerced to the type of the other
/// operand unless the operator takes them as they are.
pub open spec fn matched(op: BinaryOp, l: ScalarExprView, x: ScalarExprView, r: ReadingsView) -> (
    ScalarExprView,
    ScalarExprView,
) {
    if typing::pattern_match(op) || keeps_money(op, query::scalar_type(l), query::scalar_type(x)) {
        (l, x)
    } else {
        (coerce::coerced(l, query::scalar_type(x), r), coerce::coerced(x, query::scalar_type(l), r))
    }
}

/// Coerces the literals among the operands of an operation.
pub fn coerce_binary_literals(
    op: BinaryOp,
    left: &mut ScalarExpr,
    right: &mut ScalarExpr,
    readings: &Readings,
)
    ensures
        (final(left)@, final(right)@) == matched(op, old(left)@, old(right)@, readings@),
{
    if binary_operator_uses_raw_text_pattern(op) || money_scalar_arithmetic_keeps_operand_types(
        op,
        left,
        right,
    ) {
        return ;
    }
    coerce_literal_to_match(left, right, readings);
}

/// A binary operation on bound operands after their literals were coerced.
pub open spec fn binary_operation(
    op: BinaryOp,
    l: ScalarExprView,
    x: ScalarExprView,
    r: ReadingsView,
) -> Result<
    ScalarExprView,
    PlanErrorView,
> {
    let (a, b) = matched(op, l, x, r);
    typing::typed_binary(op, a, b)
}

/// Makes a binary operation of bound operands.
pub fn make_binary(op: BinaryOp, left: ScalarExpr, right: ScalarExpr, readings: &Readings) -> (made:
    Result<ScalarExpr, PlanError>)
    ensures
        error::scalar_outcome(made) == binary_operation(op, left@, right@, readings@),
{
    let mut l = left;
    let mut r = right;
    coerce_binary_literals(op, &mut l, &mut r, readings);
    typing::make_binary(op, l, r)
}

/// A binary operation on bound operands; an operation on literals is computed
/// where that needs no row.
pub open spec fn folded_operation(
    op: BinaryOp,
    l: ScalarExprView,
    x: ScalarExprView,
    r: ReadingsView,
) -> Result<
    ScalarExprView,
    PlanErrorView,
> {
    let (a, b) = matched(op, l, x, r);
    match literal::literals_folded(op, a, b, r) {
        Err(e) => Err(e),
        Ok(Some(e)) => Ok(e),
        Ok(None) => typing::typed_binary(op, a, b),
    }
}

/// Makes a binary operation of bound operands, or computes it.
pub fn make_folded(op: BinaryOp, left: ScalarExpr, right: ScalarExpr, readings: &Readings) -> (made:
    Result<ScalarExpr, PlanError>)
    ensures
        error::scalar_outcome(made) == folded_operation(op, left@, right@, readings@),
{
    let mut l = left;
    let mut r = right;
    coerce_binary_literals(op, &mut l, &mut r, readings);
    match try_fold_literal_binary(op, &l, &r, readings)? {
        Some(folded) => Ok(folded),
        None => typing::make_binary(op, l, r),
    }
}

/// `a op b` of truth values.
pub open spec fn truth_operation(
    op: BinaryOp,
    l: ScalarExprView,
    x: ScalarExprView,
) -> ScalarExprView {
    ScalarExprView::Binary {
        op,
        left: Box::new(l),
        right: Box::new(x),
        data_type: DataTypeView::Bool,
    }
}

fn make_truth_operation(op: BinaryOp, l: ScalarExpr, x: ScalarExpr) -> (made: ScalarExpr)
    ensures
        made@ == truth_operation(op, l@, x@),
{
    ScalarExpr::Binary { op, left: Box::new(l), right: Box::new(x), data_type: DataType::Bool }
}

/// `expr >= low AND expr <= high`, or `expr < low OR expr > high` when negated.
pub open spec fn within_range(
    e: ScalarExprView,
    low: ScalarExprView,
    high: ScalarExprView,
    negated: bool,
    r: ReadingsView,
) -> Result<ScalarExprView, PlanErrorView> {
    let lo_op = if negated {
        BinaryOp::Lt
    } else {
        BinaryOp::GtEq
    };
    let hi_op = if negated {
        BinaryOp::Gt
    } else {
        BinaryOp::LtEq
    };
    let connect = if negated {
        BinaryOp::Or
    } else {
        BinaryOp::And
    };
    match binary_operation(lo_op, e, low, r) {
        Err(err) => Err(err),
        Ok(lo) => match binary_operation(hi_op, e, high, r) {
            Err(err) => Err(err),
            Ok(hi) => Ok(truth_operation(connect, lo, hi)),
        },
    }
}

/// Makes one range test of bound operands.
pub fn make_range_test(
    bound_expr: ScalarExpr,
    bound_low: ScalarExpr,
    bound_high: ScalarExpr,
    negated: bool,
    readings: &Readings,
) -> (made: Result<ScalarExpr, PlanError>)
    ensures
        error::scalar_outcome(made) == within_range(
            bound_expr@,
            bound_low@,
            bound_high@,
            negated,
            readings@,
        ),
{
    let lo_op = if negated {
        BinaryOp::Lt
    } else {
        BinaryOp::GtEq
    };
    let hi_op = if negated {
        BinaryOp::Gt
    } else {
        BinaryOp::LtEq
    };
    let connect = if negated {
        BinaryOp::Or
    } else {
        BinaryOp::And
    };
    let lo = make_binary(lo_op, bound_expr.duplicate(), bound_low, readings)?;
    let hi = make_binary(hi_op, bound_expr, bound_high, readings)?;
    Ok(make_truth_operation(connect, lo, hi))
}

/// The boolean tree that a `BETWEEN` test on bound operands stands for: one
/// range test, and when symmetric also the one with the bounds exchanged.
pub open spec fn between(
    e: ScalarExprView,
    low: ScalarExprView,
    high: ScalarExprView,
    negated: bool,
    symmetric: bool,
    r: ReadingsView,
) -> Result<ScalarExprView, PlanErrorView> {
    match within_range(e, low, high, negated, r) {
        Err(err) => Err(err),
        Ok(forward) => if !symmetric {
            Ok(forward)
        } else {
            match within_range(e, high, low, negated, r) {
                Err(err) => Err(err),
                Ok(reversed) => Ok(
                    truth_operation(
                        if negated {
                            BinaryOp::And
                        } else {
                            BinaryOp::Or
                        },
                        forward,
                        reversed,
                    ),
                ),
            }
        },
    }
}

/// Makes a `BETWEEN` test of bound operands.
pub fn make_between(
    bound_expr: ScalarExpr,
    bound_low: ScalarExpr,
    bound_high: ScalarExpr,
    negated: bool,
    symmetric: bool,
    readings: &Readings,
) -> (made: Result<ScalarExpr, PlanError>)
    ensures
        error::scalar_outcome(made) == between(
            bound_expr@,
            bound_low@,
            bound_high@,
            negated,
            symmetric,
            readings@,
        ),
{
    let forward = make_range_test(
        bound_expr.duplicate(),
        bound_low.duplicate(),
        bound_high.duplicate(),
        negated,
        readings,
    )?;
    if !symmetric {
        return Ok(forward);
    }
    let reversed = make_range_test(bound_expr, bound_high, bound_low, negated, readings)?;
    let op = if negated {
        BinaryOp::And
    } else {
        BinaryOp::Or
    };
    Ok(make_truth_operation(op, forward, reversed))
}

/// A call with one argument.
pub open spec fn call1(name: Seq<char>, a: ScalarExprView, t: DataTypeView) -> ScalarExprView {
    ScalarExprView::FunctionCall { name, args: seq![a], data_type: t }
}

/// A call with two arguments.
pub open spec fn call2(
    name: Seq<char>,
    a: ScalarExprView,
    b: ScalarExprView,
    t: DataTypeView,
) -> ScalarExprView {
    ScalarExprView::FunctionCall { name, args: seq![a, b], data_type: t }
}

/// A call with three arguments.
pub open spec fn call3(
    name: Seq<char>,
    a: ScalarExprView,
    b: ScalarExprView,
    c: ScalarExprView,
    t: DataTypeView,
) -> ScalarExprView {
    ScalarExprView::FunctionCall { name, args: seq![a, b, c], data_type: t }
}

pub fn make_call1(name: &str, a: ScalarExpr, t: DataType) -> (made: ScalarExpr)
    ensures
        made@ == call1(name@, a@, t@),
{
    let mut args: Vec<ScalarExpr> = Vec::new();
    args.push(a);
    assert(query::scalars_view(args@) =~= seq![a@]);
    ScalarExpr::FunctionCall { name: owned(name), args, data_type: t }
}

pub fn make_call2(name: &str, a: ScalarExpr, b: ScalarExpr, t: DataType) -> (made: ScalarExpr)
    ensures
        made@ == call2(name@, a@, b@, t@),
{
    let mut args: Vec<ScalarExpr> = Vec::new();
    args.push(a);
    args.push(b);
    assert(query::scalars_view(args@) =~= seq![a@, b@]);
    ScalarExpr::FunctionCall { name: owned(name), args, data_type: t }
}

pub fn make_call3(name: &str, a: ScalarExpr, b: ScalarExpr, c: ScalarExpr, t: DataType) -> (made:
    ScalarExpr)
    ensures
        made@ == call3(name@, a@, b@, c@, t@),
{
    let mut args: Vec<ScalarExpr> = Vec::new();
    args.push(a);
    args.push(b);
    args.push(c);
    assert(query::scalars_view(args@) =~= seq![a@, b@, c@]);
    ScalarExpr::FunctionCall { name: owned(name), args, data_type: t }
}

/// The function that converts to an integer or floating-point type at run time.
pub open spec fn number_cast(target: DataTypeView, actual: DataTypeView) -> Option<Seq<char>> {
    let whole = datatype::integral(actual) || datatype::textlike(actual);
    let number = datatype::numeric(actual) || datatype::textlike(actual);
    match target {
        DataTypeView::Int16 if whole => Some("__ultrasql_cast_int2"@),
        DataTypeView::Int32 if whole => Some("__ultrasql_cast_int4"@),
        DataTypeView::Int64 if whole => Some("__ultrasql_cast_int8"@),
        DataTypeView::Float32 if number => Some("__ultrasql_cast_float4"@),
        DataTypeView::Float64 if number => Some("__ultrasql_cast_float8"@),
        DataTypeView::Money if whole || actual is Decimal => Some("__ultrasql_cast_money"@),
        DataTypeView::Decimal { .. } if number || actual is Money => Some(
            "__ultrasql_cast_numeric"@,
        ),
        _ => None,
    }
}

/// The function that reads a text at run time.
pub open spec fn text_cast(target: DataTypeView) -> Option<Seq<char>> {
    match target {
        DataTypeView::Bool => Some("__ultrasql_cast_bool"@),
        DataTypeView::Date => Some("__ultrasql_cast_date"@),
        DataTypeView::Time => Some("__ultrasql_cast_time"@),
        DataTypeView::Timestamp => Some("__ultrasql_cast_timestamp"@),
        DataTypeView::TimestampTz => Some("__ultrasql_cast_timestamptz"@),
        DataTypeView::TimeTz => Some("__ultrasql_cast_timetz"@),
        DataTypeView::Uuid => Some("__ultrasql_cast_uuid"@),
        DataTypeView::Json => Some("__ultrasql_cast_json"@),
        DataTypeView::Jsonb => Some("__ultrasql_cast_jsonb"@),
        DataTypeView::Xml => Some("__ultrasql_cast_xml"@),
        _ => None,
    }
}

/// The function that converts to an object identifier at run time.
pub open spec fn oid_cast(target: DataTypeView) -> Option<Seq<char>> {
    match target {
        DataTypeView::Oid => Some("__ultrasql_cast_oid"@),
        DataTypeView::RegClass => Some("__ultrasql_cast_regclass"@),
        DataTypeView::RegType => Some("__ultrasql_cast_regtype"@),
        _ => None,
    }
}

/// The function that converts to a type at run time, where there is one.
pub open spec fn runtime_cast_name(
    target: DataTypeView,
    actual: DataTypeView,
) -> Option<Seq<char>> {
    if target is Text {
        Some("__ultrasql_cast_text"@)
    } else if text_cast(target) is Some {
        if datatype::textlike(actual) {
            text_cast(target)
        } else {
            None
        }
    } else if oid_cast(target) is Some {
        if datatype::oid_alias(actual) || datatype::integral(actual) {
            oid_cast(target)
        } else {
            None
        }
    } else {
        number_cast(target, actual)
    }
}

fn find_number_cast(target: &DataType, actual: &DataType) -> (out: Option<String>)
    ensures
        text_view(out) == number_cast(target@, actual@),
{
    let whole = actual.is_integer() || actual.is_textlike();
    let number = actual.is_numeric() || actual.is_textlike();
    match target {
        DataType::Int16 if whole => Some(owned("__ultrasql_cast_int2")),
        DataType::Int32 if whole => Some(owned("__ultrasql_cast_int4")),
        DataType::Int64 if whole => Some(owned("__ultrasql_cast_int8")),
        DataType::Float32 if number => Some(owned("__ultrasql_cast_float4")),
        DataType::Float64 if number => Some(owned("__ultrasql_cast_float8")),
        DataType::Money if whole || matches!(actual, DataType::Decimal { .. }) => Some(
            owned("__ultrasql_cast_money"),
        ),
        DataType::Decimal { .. } if number || matches!(actual, DataType::Money) => Some(
            owned("__ultrasql_cast_numeric"),
        ),
        _ => None,
    }
}

fn find_text_cast(target: &DataType) -> (out: Option<String>)
    ensures
        text_view(out) == text_cast(target@),
{
    match target {
        DataType::Bool => Some(owned("__ultrasql_cast_bool")),
        DataType::Date => Some(owned("__ultrasql_cast_date")),
        DataType::Time => Some(owned("__ultrasql_cast_time")),
        DataType::Timestamp => Some(owned("__ultrasql_cast_timestamp")),
        DataType::TimestampTz => Some(owned("__ultrasql_cast_timestamptz")),
        DataType::TimeTz => Some(owned("__ultrasql_cast_timetz")),
        DataType::Uuid => Some(owned("__ultrasql_cast_uuid")),
        DataType::Json => Some(owned("__ultrasql_cast_json")),
        DataType::Jsonb => Some(owned("__ultrasql_cast_jsonb")),
        DataType::Xml => Some(owned("__ultrasql_cast_xml")),
        _ => None,
    }
}

fn find_oid_cast(target: &DataType) -> (out: Option<String>)
    ensures
        text_view(out) == oid_cast(target@),
{
    match target {
        DataType::Oid => Some(owned("__ultrasql_cast_oid")),
        DataType::RegClass => Some(owned("__ultrasql_cast_regclass")),
        DataType::RegType => Some(owned("__ultrasql_cast_regtype")),
        _ => None,
    }
}

fn find_runtime_cast(target: &DataType, actual: &DataType) -> (out: Option<String>)
    ensures
        text_view(out) == runtime_cast_name(target@, actual@),
{
    if matches!(target, DataType::Text { .. }) {
        return Some(owned("__ultrasql_cast_text"));
    }
    if let Some(name) = find_text_cast(target) {
        return if actual.is_textlike() {
            Some(name)
        } else {
            None
        };
    }
    if let Some(name) = find_oid_cast(target) {
        return if actual.is_oid_alias() || actual.is_integer() {
            Some(name)
        } else {
            None
        };
    }
    find_number_cast(target, actual)
}

/// A type modifier as an argument of a conversion.
pub open spec fn modifier_argument(n: Option<i32>) -> ScalarExprView {
    match n {
        Some(v) => typing::constant(ValueView::Int32(v), DataTypeView::Int32),
        None => typing::null_constant(),
    }
}

/// A type modifier as an argument of a conversion.
pub fn runtime_typmod_i32(value: Option<i32>) -> (made: ScalarExpr)
    ensures
        made@ == modifier_argument(value),
{
    match value {
        Some(v) => ScalarExpr::Literal { value: Value::Int32(v), data_type: DataType::Int32 },
        None => ScalarExpr::Literal { value: Value::Null, data_type: DataType::Null },
    }
}

/// A precision as a signed modifier, where it is one.
pub open spec fn signed_precision(p: Option<u32>) -> Option<i32> {
    match p {
        Some(n) => if n <= i32::MAX {
            Some(n as i32)
        } else {
            None
        },
        None => None,
    }
}

/// The conversion of a bound operand to a type at run time, where there is one.
pub open spec fn runtime_cast(
    e: ScalarExprView,
    target: DataTypeView,
    actual: DataTypeView,
) -> Option<
    ScalarExprView,
> {
    match runtime_cast_name(target, actual) {
        None => None,
        Some(name) => match target {
            DataTypeView::Decimal { precision, scale } => Some(
                call3(
                    name,
                    e,
                    modifier_argument(signed_precision(precision)),
                    modifier_argument(scale),
                    if precision is None && scale is None && actual is Money {
                        DataTypeView::Decimal { precision: None, scale: Some(2) }
                    } else {
                        target
                    },
                ),
            ),
            _ => Some(call1(name, e, target)),
        },
    }
}

/// Makes the conversion of a bound operand to a type at run time.
pub fn bind_runtime_cast(expr: ScalarExpr, target_type: &DataType, actual_type: &DataType) -> (made:
    Option<ScalarExpr>)
    ensures
        literal::expr_of(made) == runtime_cast(expr@, target_type@, actual_type@),
{
    let name = match find_runtime_cast(target_type, actual_type) {
        Some(n) => n,
        None => return None,
    };
    match target_type {
        DataType::Decimal { precision, scale } => {
            let data_type = if precision.is_none() && scale.is_none() && matches!(
                actual_type,
                DataType::Money
            ) {
                DataType::Decimal { precision: None, scale: Some(2) }
            } else {
                target_type.duplicate()
            };
            let signed: Option<i32> = match precision {
                Some(n) => if *n <= 2_147_483_647 {
                    Some(*n as i32)
                } else {
                    None
                },
                None => None,
            };
            Some(
                make_call3(
                    name.as_str(),
                    expr,
                    runtime_typmod_i32(signed),
                    runtime_typmod_i32(*scale),
                    data_type,
                ),
            )
        },
        _ => Some(make_call1(name.as_str(), expr, target_type.duplicate())),
    }
}

/// A bound operand cast to a type after its literal was coerced.
pub open spec fn cast_rest(e: ScalarExprView, target: DataTypeView) -> Result<
    ScalarExprView,
    PlanErrorView,
> {
    let actual = query::scalar_type(e);
    match e {
        ScalarExprView::Parameter { index, .. } => Ok(
            ScalarExprView::Parameter { index, data_type: target },
        ),
        _ => if typename::cast_done(target, actual) || actual is Null {
            Ok(e)
        } else {
            match runtime_cast(e, target, actual) {
                Some(x) => Ok(x),
                None => if datatype::vector_family(target) {
                    Err(
                        PlanErrorView::TypeMismatch(
                            "cannot cast "@ + datatype::type_text(actual) + " to "@
                                + datatype::type_text(target),
                        ),
                    )
                } else {
                    Err(
                        PlanErrorView::NotSupported(
                            "non-literal CAST expressions are not implemented"@,
                        ),
                    )
                },
            }
        },
    }
}

fn finish_cast(e: ScalarExpr, target: &DataType) -> (made: Result<ScalarExpr, PlanError>)
    ensures
        error::scalar_outcome(made) == cast_rest(e@, target@),
{
    if let ScalarExpr::Parameter { index, .. } = &e {
        return Ok(ScalarExpr::Parameter { index: *index, data_type: target.duplicate() });
    }
    let actual = e.data_type();
    if cast_result_matches(target, &actual) || actual.is_null() {
        return Ok(e);
    }
    match bind_runtime_cast(e, target, &actual) {
        Some(x) => Ok(x),
        None => if target.is_vector_family() {
            Err(
                PlanError::TypeMismatch(
                    cat4(
                        "cannot cast ",
                        actual.sql_name().as_str(),
                        " to ",
                        target.sql_name().as_str(),
                    ),
                ),
            )
        } else {
            Err(PlanError::NotSupported("non-literal CAST expressions are not implemented"))
        },
    }
}

/// A bound operand cast to a type: literals are converted at once, anything
/// else at run time.
pub open spec fn cast_operation(
    e: ScalarExprView,
    target: DataTypeView,
    cat: CatalogView,
    r: ReadingsView,
) -> Result<ScalarExprView, PlanErrorView> {
    let (padded, is_padded) = coerce::cast_to_padded(e, target, true);
    let (bits, is_bits) = coerce::cast_to_bit_string(padded, target, true, r);
    let (oid, is_oid) = coerce::cast_to_oid_alias(bits, target, cat, r);
    if is_padded {
        Ok(padded)
    } else if is_bits {
        Ok(bits)
    } else if is_oid {
        Ok(oid)
    } else {
        cast_rest(coerce::coerced(oid, target, r), target)
    }
}

/// Casts a bound operand to a type.
pub fn make_cast<C: Catalog>(
    e: ScalarExpr,
    target: &DataType,
    catalog: &C,
    readings: &Readings,
) -> (made:
    Result<ScalarExpr, PlanError>)
    ensures
        error::scalar_outcome(made) == cast_operation(e@, target@, catalog.model(), readings@),
{
    let mut bound = e;
    if coerce_literal_to_bpchar(&mut bound, target, true) {
        return Ok(bound);
    }
    if coerce_literal_to_bit_string(&mut bound, target, true, readings) {
        return Ok(bound);
    }
    if coerce_literal_to_oid_alias_with_catalog(&mut bound, target, catalog, readings) {
        return Ok(bound);
    }
    coerce_literal_to_type(&mut bound, target, readings);
    finish_cast(bound, target)
}

/// `IS [NOT] TRUE`, `FALSE` or `UNKNOWN` of a bound operand.
pub open spec fn boolean_test(
    e: ScalarExprView,
    value: bool,
    is_unknown: bool,
    negated: bool,
    r: ReadingsView,
) -> Result<ScalarExprView, PlanErrorView> {
    let x = coerce::coerced(e, DataTypeView::Bool, r);
    let t = query::scalar_type(x);
    if !(t is Bool) && !(t is Null) {
        Err(typing::type_mismatch("IS boolean predicate requires boolean input, got "@, t))
    } else if is_unknown {
        Ok(ScalarExprView::IsNull { expr: Box::new(x), negated })
    } else {
        let name = if value {
            if negated {
                "is_not_true"@
            } else {
                "is_true"@
            }
        } else if negated {
            "is_not_false"@
        } else {
            "is_false"@
        };
        Ok(call1(name, x, DataTypeView::Bool))
    }
}

/// Makes a boolean test of a bound operand.
pub fn make_boolean_test(
    e: ScalarExpr,
    value: bool,
    is_unknown: bool,
    negated: bool,
    readings: &Readings,
) -> (made: Result<ScalarExpr, PlanError>)
    ensures
        error::scalar_outcome(made) == boolean_test(e@, value, is_unknown, negated, readings@),
{
    let mut x = e;
    coerce_literal_to_type(&mut x, &DataType::Bool, readings);
    let t = x.data_type();
    if !t.is_bool() && !t.is_null() {
        return Err(type_error("IS boolean predicate requires boolean input, got ", &t));
    }
    if is_unknown {
        return Ok(ScalarExpr::IsNull { expr: Box::new(x), negated });
    }
    let name = if value {
        if negated {
            "is_not_true"
        } else {
            "is_true"
        }
    } else if negated {
        "is_not_false"
    } else {
        "is_false"
    };
    Ok(make_call1(name, x, DataType::Bool))
}

/// Two operands coerced to each other, with the complaint when they cannot be
/// compared.
pub open spec fn compared(
    label: Seq<char>,
    a: ScalarExprView,
    b: ScalarExprView,
    r: ReadingsView,
) -> Result<(ScalarExprView, ScalarExprView), PlanErrorView> {
    let x = coerce::coerced(a, query::scalar_type(b), r);
    let y = coerce::coerced(b, query::scalar_type(a), r);
    let (s, t) = (query::scalar_type(x), query::scalar_type(y));
    if typing::comparable_types(s, t) {
        Ok((x, y))
    } else {
        Err(typing::pair_mismatch(label + ": cannot compare "@, s, t))
    }
}

/// Two expressions with their outcome as models.
pub open spec fn pair_outcome(r: Result<(ScalarExpr, ScalarExpr), PlanError>) -> Result<
    (ScalarExprView, ScalarExprView),
    PlanErrorView,
> {
    match r {
        Ok((a, b)) => Ok((a@, b@)),
        Err(e) => Err(e@),
    }
}

fn compare(label: &str, a: ScalarExpr, b: ScalarExpr, readings: &Readings) -> (made: Result<
    (ScalarExpr, ScalarExpr),
    PlanError,
>)
    ensures
        pair_outcome(made) == compared(label@, a@, b@, readings@),
{
    let mut x = a;
    let mut y = b;
    coerce_literal_to_match(&mut x, &mut y, readings);
    let s = x.data_type();
    let t = y.data_type();
    if comparable(&s, &t) {
        return Ok((x, y));
    }
    let head = cat2(label, ": cannot compare ");
    Err(
        PlanError::TypeMismatch(
            cat4(head.as_str(), s.sql_name().as_str(), " and ", t.sql_name().as_str()),
        ),
    )
}

/// `IS [NOT] DISTINCT FROM` of bound operands.
pub open spec fn distinct_test(
    a: ScalarExprView,
    b: ScalarExprView,
    negated: bool,
    r: ReadingsView,
) -> Result<
    ScalarExprView,
    PlanErrorView,
> {
    match compared("IS DISTINCT FROM"@, a, b, r) {
        Err(e) => Err(e),
        Ok((x, y)) => Ok(
            call2(
                if negated {
                    "is_not_distinct_from"@
                } else {
                    "is_distinct_from"@
                },
                x,
                y,
                DataTypeView::Bool,
            ),
        ),
    }
}

/// Makes an `IS [NOT] DISTINCT FROM` test of bound operands.
pub fn make_distinct_test(
    a: ScalarExpr,
    b: ScalarExpr,
    negated: bool,
    readings: &Readings,
) -> (made:
    Result<ScalarExpr, PlanError>)
    ensures
        error::scalar_outcome(made) == distinct_test(a@, b@, negated, readings@),
{
    let (x, y) = compare("IS DISTINCT FROM", a, b, readings)?;
    let name = if negated {
        "is_not_distinct_from"
    } else {
        "is_distinct_from"
    };
    Ok(make_call2(name, x, y, DataType::Bool))
}

/// `NULLIF` of bound operands.
pub open spec fn null_if(a: ScalarExprView, b: ScalarExprView, r: ReadingsView) -> Result<
    ScalarExprView,
    PlanErrorView,
> {
    match compared("nullif"@, a, b, r) {
        Err(e) => Err(e),
        Ok((x, y)) => Ok(call2("nullif"@, x, y, query::scalar_type(x))),
    }
}

/// Makes a `NULLIF` of bound operands.
pub fn make_null_if(a: ScalarExpr, b: ScalarExpr, readings: &Readings) -> (made: Result<
    ScalarExpr,
    PlanError,
>)
    ensures
        error::scalar_outcome(made) == null_if(a@, b@, readings@),
{
    let (x, y) = compare("nullif", a, b, readings)?;
    let t = x.data_type();
    Ok(make_call2("nullif", x, y, t))
}

/// A function that answers one of its arguments, which are coerced to their
/// common type.
pub open spec fn choice(f: Seq<char>, args: Seq<ScalarExprView>, r: ReadingsView) -> Result<
    ScalarExprView,
    PlanErrorView,
> {
    match builtin::common_type(f, builtin::types_of(args)) {
        Err(e) => Err(e),
        Ok(t) => Ok(
            ScalarExprView::FunctionCall {
                name: f,
                args: builtin::all_coerced(args, t, r),
                data_type: t,
            },
        ),
    }
}

/// Makes a call of a function that answers one of its arguments.
pub fn make_choice(func_name: &str, args: Vec<ScalarExpr>, readings: &Readings) -> (made: Result<
    ScalarExpr,
    PlanError,
>)
    ensures
        error::scalar_outcome(made) == choice(
            func_name@,
            query::scalars_view(args@),
            readings@,
        ),
{
    let mut bound = args;
    let data_type = common_scalar_return_type(func_name, &bound)?;
    coerce_args_to_common_type(&mut bound, &data_type, readings);
    Ok(ScalarExpr::FunctionCall { name: owned(func_name), args: bound, data_type })
}

/// A call of a builtin function on bound arguments.
pub open spec fn builtin_call(f: Seq<char>, args: Seq<ScalarExprView>, r: ReadingsView) -> Result<
    ScalarExprView,
    PlanErrorView,
> {
    let (checked, out) = builtin::args_checked(f, args, r);
    match checked {
        Err(e) => Err(e),
        Ok(_) => match builtin::answer_type(f, builtin::types_of(out)) {
            Err(e) => Err(e),
            Ok(t) => Ok(
                ScalarExprView::FunctionCall {
                    name: f,
                    args: if builtin::coerces_args(f) {
                        builtin::all_coerced(out, t, r)
                    } else {
                        out
                    },
                    data_type: t,
                },
            ),
        },
    }
}

/// Makes a call of a builtin function.
pub fn make_builtin_call(
    func_name: String,
    args: Vec<ScalarExpr>,
    readings: &Readings,
) -> (made: Result<
    ScalarExpr,
    PlanError,
>)
    ensures
        error::scalar_outcome(made) == builtin_call(
            func_name@,
            query::scalars_view(args@),
            readings@,
        ),
{
    let mut bound = args;
    validate_builtin_args(func_name.as_str(), &mut bound, readings)?;
    let data_type = builtin_return_type(func_name.as_str(), &bound)?;
    coerce_common_builtin_args(func_name.as_str(), &mut bound, &data_type, readings);
    Ok(ScalarExpr::FunctionCall { name: func_name, args: bound, data_type })
}

/// Whether a type is an integer type, or null.
pub open spec fn integer_or_null(t: DataTypeView) -> bool {
    t is Int16 || t is Int32 || t is Int64 || t is Null
}

fn is_integer_or_null(t: &DataType) -> (yes: bool)
    ensures
        yes == integer_or_null(t@),
{
    matches!(t, DataType::Int16 | DataType::Int32 | DataType::Int64 | DataType::Null)
}

/// An element of a bound array.
pub open spec fn subscript(a: ScalarExprView, i: ScalarExprView) -> Result<
    ScalarExprView,
    PlanErrorView,
> {
    match query::scalar_type(a) {
        DataTypeView::Array(element) => if integer_or_null(query::scalar_type(i)) {
            Ok(call2("__ultrasql_array_subscript"@, a, i, *element))
        } else {
            Err(
                typing::type_mismatch(
                    "array subscript index must be integer, got "@,
                    query::scalar_type(i),
                ),
            )
        },
        other => Err(typing::type_mismatch("array subscript requires array input, got "@, other)),
    }
}

/// Makes an element of a bound array.
pub fn make_subscript(array: ScalarExpr, index: ScalarExpr) -> (made: Result<ScalarExpr, PlanError>)
    ensures
        error::scalar_outcome(made) == subscript(array@, index@),
{
    let t = array.data_type();
    match t {
        DataType::Array(element) => {
            let it = index.data_type();
            if !is_integer_or_null(&it) {
                return Err(type_error("array subscript index must be integer, got ", &it));
            }
            Ok(make_call2("__ultrasql_array_subscript", array, index, *element))
        },
        other => Err(type_error("array subscript requires array input, got ", &other)),
    }
}

/// The complaint about the input of an array slice.
pub open spec fn slice_input(a: ScalarExprView) -> Result<DataTypeView, PlanErrorView> {
    let t = query::scalar_type(a);
    if t is Array {
        Ok(t)
    } else {
        Err(typing::type_mismatch("array slice requires array input, got "@, t))
    }
}

/// Checks the input of an array slice.
pub fn check_slice_input(array: &ScalarExpr) -> (made: Result<DataType, PlanError>)
    ensures
        error::type_outcome(made) == slice_input(array@),
{
    let t = array.data_type();
    if matches!(t, DataType::Array(_)) {
        Ok(t)
    } else {
        Err(type_error("array slice requires array input, got ", &t))
    }
}

/// A bound of an array slice.
pub open spec fn slice_bound(e: ScalarExprView) -> Result<ScalarExprView, PlanErrorView> {
    if integer_or_null(query::scalar_type(e)) {
        Ok(e)
    } else {
        Err(
            typing::type_mismatch(
                "array slice bound must be integer, got "@,
                query::scalar_type(e),
            ),
        )
    }
}

/// Checks a bound of an array slice.
pub fn check_slice_bound(e: ScalarExpr) -> (made: Result<ScalarExpr, PlanError>)
    ensures
        error::scalar_outcome(made) == slice_bound(e@),
{
    let t = e.data_type();
    if is_integer_or_null(&t) {
        Ok(e)
    } else {
        Err(type_error("array slice bound must be integer, got ", &t))
    }
}

/// A point in time seen from a zone.
pub open spec fn at_zone(source: ScalarExprView, zone: ScalarExprView, r: ReadingsView) -> Result<
    ScalarExprView,
    PlanErrorView,
> {
    let z = coerce::coerced(zone, DataTypeView::Text { max_len: None }, r);
    match builtin::zone_type(builtin::types_of(seq![z, source])) {
        Err(e) => Err(e),
        Ok(t) => Ok(call2("timezone"@, z, source, t)),
    }
}

/// Makes a point in time seen from a zone.
pub fn make_at_zone(source: ScalarExpr, zone: ScalarExpr, readings: &Readings) -> (made: Result<
    ScalarExpr,
    PlanError,
>)
    ensures
        error::scalar_outcome(made) == at_zone(source@, zone@, readings@),
{
    let mut z = zone;
    coerce_literal_to_type(&mut z, &DataType::Text { max_len: None }, readings);
    let mut args: Vec<ScalarExpr> = Vec::new();
    args.push(z);
    args.push(source);
    assert(query::scalars_view(args@) =~= seq![z@, source@]);
    let data_type = timezone_return_type(&args)?;
    Ok(ScalarExpr::FunctionCall { name: owned("timezone"), args, data_type })
}

/// `expr = ANY (array)` of bound operands.
pub open spec fn any_element(lhs: ScalarExprView, array: ScalarExprView) -> Result<
    ScalarExprView,
    PlanErrorView,
> {
    match query::scalar_type(array) {
        DataTypeView::Array(element) => if typing::comparable_types(
            query::scalar_type(lhs),
            *element,
        ) {
            Ok(call2("__ultrasql_eq_any_array"@, lhs, array, DataTypeView::Bool))
        } else {
            Err(
                PlanErrorView::TypeMismatch(
                    "= ANY array: left type "@ + datatype::type_text(query::scalar_type(lhs))
                        + " is not comparable to array element type "@ + datatype::type_text(
                        *element,
                    ),
                ),
            )
        },
        other => Err(
            typing::type_mismatch("= ANY array expression requires array argument, got "@, other),
        ),
    }
}

/// Makes an `expr = ANY (array)` test of bound operands.
pub fn make_any_element(lhs: ScalarExpr, array: ScalarExpr) -> (made: Result<ScalarExpr, PlanError>)
    ensures
        error::scalar_outcome(made) == any_element(lhs@, array@),
{
    let t = array.data_type();
    match t {
        DataType::Array(element) => {
            let s = lhs.data_type();
            if !comparable(&s, &element) {
                return Err(
                    PlanError::TypeMismatch(
                        cat4(
                            "= ANY array: left type ",
                            s.sql_name().as_str(),
                            " is not comparable to array element type ",
                            element.sql_name().as_str(),
                        ),
                    ),
                );
            }
            Ok(make_call2("__ultrasql_eq_any_array", lhs, array, DataType::Bool))
        },
        other => Err(
            type_error("= ANY array expression requires array argument, got ", &other),
        ),
    }
}

/// The tests of an `IN` list so far, with one more item.
pub open spec fn with_item(
    acc: Option<ScalarExprView>,
    subject: ScalarExprView,
    item: ScalarExprView,
    negated: bool,
) -> ScalarExprView {
    let test = truth_operation(
        if negated {
            BinaryOp::NotEq
        } else {
            BinaryOp::Eq
        },
        subject,
        item,
    );
    match acc {
        None => test,
        Some(before) => truth_operation(
            if negated {
                BinaryOp::And
            } else {
                BinaryOp::Or
            },
            before,
            test,
        ),
    }
}

/// Adds one item to the tests of an `IN` list.
pub fn add_item(
    acc: Option<ScalarExpr>,
    subject: &ScalarExpr,
    item: ScalarExpr,
    negated: bool,
) -> (made:
    ScalarExpr)
    ensures
        made@ == with_item(literal::expr_of(acc), subject@, item@, negated),
{
    let op = if negated {
        BinaryOp::NotEq
    } else {
        BinaryOp::Eq
    };
    let test = make_truth_operation(op, subject.duplicate(), item);
    match acc {
        None => test,
        Some(before) => {
            let connect = if negated {
                BinaryOp::And
            } else {
                BinaryOp::Or
            };
            make_truth_operation(connect, before, test)
        },
    }
}

/// The type of a row of the given expressions.
pub open spec fn row_type(args: Seq<ScalarExprView>) -> DataTypeView {
    DataTypeView::Record(
        Seq::new(
            args.len(),
            |i: int| ("f"@ + text::decimal((i + 1) as nat), query::scalar_type(args[i])),
        ),
    )
}

/// A row of bound expressions.
pub open spec fn row(args: Seq<ScalarExprView>) -> ScalarExprView {
    ScalarExprView::FunctionCall { name: "row"@, args, data_type: row_type(args) }
}

/// Finds the type of a row of the given expressions.
pub fn type_of_row(args: &Vec<ScalarExpr>) -> (t: DataType)
    ensures
        t@ == row_type(query::scalars_view(args@)),
{
    let mut fields: Vec<(String, DataType)> = Vec::new();
    let mut i: usize = 0;
    while i < args.len()
        invariant
            i <= args.len(),
            fields.len() == i,
            forall|j: int|
                0 <= j < i ==> (#[trigger] fields@[j]).0@ == "f"@ + text::decimal((j + 1) as nat)
                    && fields@[j].1@ == query::scalar_type(query::scalars_view(args@)[j]),
        decreases args.len() - i,
    {
        assert(i < usize::MAX);
        let name = cat2("f", show_usize(i + 1).as_str());
        fields.push((name, args[i].data_type()));
        i = i + 1;
    }
    let t = DataType::Record(fields);
    assert(datatype::record_fields_view(fields@) =~= row_type(query::scalars_view(args@))->Record_0);
    t
}

/// Makes a row of bound expressions.
pub fn make_row(args: Vec<ScalarExpr>) -> (made: ScalarExpr)
    ensures
        made@ == row(query::scalars_view(args@)),
{
    let data_type = type_of_row(&args);
    ScalarExpr::FunctionCall { name: owned("row"), args, data_type }
}

/// The type that elements of both types have in an array.
pub open spec fn element_type(
    l: DataTypeView,
    t: DataTypeView,
) -> Result<DataTypeView, PlanErrorView>
    decreases l,
{
    if l == t || t is Null {
        Ok(l)
    } else if l is Null {
        Ok(t)
    } else {
        let unlike = typing::pair_mismatch(
            "array literal elements must share a coercible type, got "@,
            l,
            t,
        );
        match (l, t) {
            (DataTypeView::Array(a), DataTypeView::Array(b)) => match element_type(*a, *b) {
                Err(e) => Err(e),
                Ok(x) => Ok(DataTypeView::Array(Box::new(x))),
            },
            _ => if l is Array || t is Array {
                Err(PlanErrorView::TypeMismatch("array literal dimensions must match"@))
            } else if datatype::numeric(l) && datatype::numeric(t) {
                match datatype::join_numeric(l, t) {
                    Some(x) => Ok(x),
                    None => Err(unlike),
                }
            } else if datatype::textlike(l) && datatype::textlike(t) {
                Ok(DataTypeView::Text { max_len: None })
            } else if l is Json && t is Jsonb || l is Jsonb && t is Json {
                Ok(DataTypeView::Jsonb)
            } else {
                Err(unlike)
            },
        }
    }
}

fn unlike_elements(l: &DataType, t: &DataType) -> (e: PlanError)
    ensures
        e@ == typing::pair_mismatch(
            "array literal elements must share a coercible type, got "@,
            l@,
            t@,
        ),
{
    PlanError::TypeMismatch(
        cat4(
            "array literal elements must share a coercible type, got ",
            l.sql_name().as_str(),
            " and ",
            t.sql_name().as_str(),
        ),
    )
}

/// Finds the type that elements of both types have in an array.
pub fn common_array_element_type(left: &DataType, right: &DataType) -> (made: Result<
    DataType,
    PlanError,
>)
    ensures
        error::type_outcome(made) == element_type(left@, right@),
    decreases left,
{
    if left.same(right) || right.is_null() {
        return Ok(left.duplicate());
    }
    if left.is_null() {
        return Ok(right.duplicate());
    }
    match (left, right) {
        (DataType::Array(a), DataType::Array(b)) => {
            let x = common_array_element_type(a, b)?;
            return Ok(DataType::Array(Box::new(x)));
        },
        _ => {},
    }
    if matches!(left, DataType::Array(_)) || matches!(right, DataType::Array(_)) {
        return Err(PlanError::TypeMismatch(owned("array literal dimensions must match")));
    }
    if left.is_numeric() && right.is_numeric() {
        return match left.numeric_join(right) {
            Some(t) => Ok(t),
            None => Err(unlike_elements(left, right)),
        };
    }
    if left.is_textlike() && right.is_textlike() {
        return Ok(DataType::Text { max_len: None });
    }
    match (left, right) {
        (DataType::Json, DataType::Jsonb) => Ok(DataType::Jsonb),
        (DataType::Jsonb, DataType::Json) => Ok(DataType::Jsonb),
        _ => Err(unlike_elements(left, right)),
    }
}

/// The complaint about an array element that is not a constant.
pub open spec fn not_constant() -> PlanErrorView {
    PlanErrorView::TypeMismatch("array literal elements must be constant expressions"@)
}

/// The type of the elements so far, with one more element.
pub open spec fn with_element(expected: Option<DataTypeView>, e: ScalarExprView) -> Result<
    Option<DataTypeView>,
    PlanErrorView,
> {
    match e {
        ScalarExprView::Literal { data_type, .. } => if data_type is Null {
            Ok(expected)
        } else {
            match expected {
                None => Ok(Some(data_type)),
                Some(t) => match element_type(t, data_type) {
                    Err(err) => Err(err),
                    Ok(x) => Ok(Some(x)),
                },
            }
        },
        _ => Err(not_constant()),
    }
}

/// An optional type with its outcome as models.
pub open spec fn option_type_outcome(r: Result<Option<DataType>, PlanError>) -> Result<
    Option<DataTypeView>,
    PlanErrorView,
> {
    match r {
        Ok(t) => Ok(typename::type_view(t)),
        Err(e) => Err(e@),
    }
}

/// Adds one element to the type of the elements so far.
pub fn add_element(expected: Option<DataType>, e: &ScalarExpr) -> (made: Result<
    Option<DataType>,
    PlanError,
>)
    ensures
        option_type_outcome(made) == with_element(typename::type_view(expected), e@),
{
    match e {
        ScalarExpr::Literal { data_type, .. } => {
            if data_type.is_null() {
                return Ok(expected);
            }
            match expected {
                None => Ok(Some(data_type.duplicate())),
                Some(t) => {
                    let x = common_array_element_type(&t, data_type)?;
                    Ok(Some(x))
                },
            }
        },
        _ => Err(
            PlanError::TypeMismatch(owned("array literal elements must be constant expressions")),
        ),
    }
}

/// The values of the elements from the `i`-th on, coerced to the type of the
/// array's elements.
pub open spec fn element_values(
    list: Seq<ScalarExprView>,
    i: int,
    acc: Seq<ValueView>,
    t: DataTypeView,
    r: ReadingsView,
) -> Result<Seq<ValueView>, PlanErrorView>
    decreases list.len() - i,
{
    if i < 0 || i >= list.len() {
        Ok(acc)
    } else {
        match coerce::coerced(list[i], t, r) {
            ScalarExprView::Literal { value, data_type } => if data_type is Null || data_type
                == t {
                element_values(list, i + 1, acc.push(value), t, r)
            } else {
                Err(
                    PlanErrorView::TypeMismatch("array literal elements must share one type"@),
                )
            },
            _ => Err(not_constant()),
        }
    }
}

/// Values with their outcome as models.
pub open spec fn values_outcome(r: Result<Vec<Value>, PlanError>) -> Result<
    Seq<ValueView>,
    PlanErrorView,
> {
    match r {
        Ok(x) => Ok(value::values_view(x@)),
        Err(e) => Err(e@),
    }
}

fn collect_values(list: &Vec<ScalarExpr>, t: &DataType, readings: &Readings) -> (made: Result<
    Vec<Value>,
    PlanError,
>)
    ensures
        values_outcome(made) == element_values(
            query::scalars_view(list@),
            0,
            Seq::empty(),
            t@,
            readings@,
        ),
{
    let ghost model = query::scalars_view(list@);
    let mut out: Vec<Value> = Vec::new();
    assert(value::values_view(out@) =~= Seq::empty());
    let mut i: usize = 0;
    while i < list.len()
        invariant
            i <= list.len(),
            model == query::scalars_view(list@),
            element_values(model, i as int, value::values_view(out@), t@, readings@)
                == element_values(model, 0, Seq::empty(), t@, readings@),
        decreases list.len() - i,
    {
        let mut e = list[i].duplicate();
        coerce_literal_to_type(&mut e, t, readings);
        match e {
            ScalarExpr::Literal { value, data_type } => {
                if !data_type.is_null() && !data_type.same(t) {
                    return Err(
                        PlanError::TypeMismatch(
                            owned("array literal elements must share one type"),
                        ),
                    );
                }
                proof {
                    value::lemma_values_push(out@, value);
                }
                out.push(value);
            },
            _ => return Err(
                PlanError::TypeMismatch(
                    owned("array literal elements must be constant expressions"),
                ),
            ),
        }
        i = i + 1;
    }
    Ok(out)
}

/// An array of bound constants whose common type is given, if they have one.
pub open spec fn array_constant(
    list: Seq<ScalarExprView>,
    t: Option<DataTypeView>,
    r: ReadingsView,
) -> Result<
    ScalarExprView,
    PlanErrorView,
> {
    let element = match t {
        Some(x) => x,
        None => DataTypeView::Null,
    };
    match element_values(list, 0, Seq::empty(), element, r) {
        Err(e) => Err(e),
        Ok(values) => {
            let v = ValueView::Array { element_type: element, elements: values };
            if coerce::array_dims(v) is None {
                Err(
                    PlanErrorView::TypeMismatch(
                        "multi-dimensional array literal must be rectangular"@,
                    ),
                )
            } else {
                Ok(typing::constant(v, DataTypeView::Array(Box::new(element))))
            }
        },
    }
}

/// Makes an array of bound constants.
pub fn make_array(
    list: &Vec<ScalarExpr>,
    t: Option<DataType>,
    readings: &Readings,
) -> (made: Result<
    ScalarExpr,
    PlanError,
>)
    ensures
        error::scalar_outcome(made) == array_constant(
            query::scalars_view(list@),
            typename::type_view(t),
            readings@,
        ),
{
    let element = match t {
        Some(x) => x,
        None => DataType::Null,
    };
    let elements = collect_values(list, &element, readings)?;
    let v = Value::Array { element_type: element.duplicate(), elements };
    if array_dimensions(&v).is_none() {
        return Err(
            PlanError::TypeMismatch(owned("multi-dimensional array literal must be rectangular")),
        );
    }
    Ok(ScalarExpr::Literal { value: v, data_type: DataType::Array(Box::new(element)) })
}

/// A `BETWEEN` test is the conjunction of the two explicit comparisons, a negated
/// one the disjunction of the two opposite comparisons. It fails exactly when
/// one of them does, and is boolean.
pub proof fn between_is_two_comparisons(
    e: ScalarExprView,
    low: ScalarExprView,
    high: ScalarExprView,
    r: ReadingsView,
)
    ensures
        between(e, low, high, false, false, r) == (match (
            binary_operation(BinaryOp::GtEq, e, low, r),
            binary_operation(BinaryOp::LtEq, e, high, r),
        ) {
            (Err(err), _) => Err(err),
            (_, Err(err)) => Err(err),
            (Ok(lo), Ok(hi)) => Ok(truth_operation(BinaryOp::And, lo, hi)),
        }),
        between(e, low, high, true, false, r) == (match (
            binary_operation(BinaryOp::Lt, e, low, r),
            binary_operation(BinaryOp::Gt, e, high, r),
        ) {
            (Err(err), _) => Err(err),
            (_, Err(err)) => Err(err),
            (Ok(lo), Ok(hi)) => Ok(truth_operation(BinaryOp::Or, lo, hi)),
        }),
{
}

/// A symmetric `BETWEEN` test combines the plain tests of both orders of the
/// bounds, by `OR`, or by `AND` when it is negated.
pub proof fn symmetric_between_combines_both_orders(
    e: ScalarExprView,
    low: ScalarExprView,
    high: ScalarExprView,
    negated: bool,
    r: ReadingsView,
)
    ensures
        between(e, low, high, negated, true, r) == (match (
            between(e, low, high, negated, false, r),
            between(e, high, low, negated, false, r),
        ) {
            (Err(err), _) => Err(err),
            (_, Err(err)) => Err(err),
            (Ok(one), Ok(other)) => Ok(
                truth_operation(
                    if negated {
                        BinaryOp::And
                    } else {
                        BinaryOp::Or
                    },
                    one,
                    other,
                ),
            ),
        }),
{
}

proof fn suffix_is_found(fields: Seq<FieldView>, col: Seq<char>, i: int)
    requires
        0 <= i,
    ensures
        match suffix_from(fields, col, i) {
            Some(k) => i <= k < fields.len() && ends_in(fields[k].name, col),
            None => forall|k: int| i <= k < fields.len() ==> !ends_in(#[trigger] fields[k].name, col),
        },
    decreases fields.len() - i,
{
    if i < fields.len() {
        suffix_is_found(fields, col, i + 1);
    }
}

/// A column reference stands for a column of its row or of an enclosing query,
/// with its type; only where there is no row may it stand for the session.
pub proof fn resolved_columns_exist(name: ObjectName, input: SchemaView, scope: Seq<SchemaView>)
    ensures
        resolved_column(name, input, scope) matches Ok(x) ==> match x {
            ScalarExprView::Column { index, data_type, .. } => soundness::has_column(
                input,
                index,
                data_type,
            ),
            ScalarExprView::OuterColumn { frame_depth, column_index, data_type, .. } =>
                soundness::has_outer_column(scope, frame_depth, column_index, data_type),
            ScalarExprView::FunctionCall { name: called, args, .. } => input.fields.len() == 0
                && session_name(called) && args.len() == 0,
            _ => false,
        },
{
    let col = names::last_part(name);
    schema::find_gives_first(input.fields, col, 0);
    suffix_is_found(input.fields, col, 0);
    soundness::outer_columns_exist(scope, col, 0);
    if let Some(i) = schema::find_field(input, col) {
        assert(input.fields[i].data_type == input.fields[i].data_type);
    }
    if let Some(i) = suffix_from(input.fields, col, 0) {
        assert(input.fields[i].data_type == input.fields[i].data_type);
    }
    if let Some(q) = qualified_name(name) {
        schema::find_gives_first(input.fields, q, 0);
        soundness::outer_columns_exist(scope, q, 0);
        if let Some(i) = schema::find_field(input, q) {
            assert(input.fields[i].data_type == input.fields[i].data_type);
        }
    }
}

} // verus!
