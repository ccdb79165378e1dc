//! What bound operations, calls and coercions do with their operands.
use crate::ast::{BinaryOp, Expr, Literal, UnaryOp};
use crate::binder::{meaning, names, sources};
use crate::catalog::CatalogView;
use crate::datatype::DataTypeView;
use crate::dialect::reading::ReadingsView;
use crate::dialect::{aggregate_call, builtin, clock, coerce, expr, literal, number, operation};
use crate::error::PlanErrorView;
use crate::query::ScalarExprView;
use crate::schema::SchemaView;
use crate::value::{FloatValueView, ValueView};
use crate::{query, schema, text};
use vstd::prelude::*;

verus! {

/// The digits of an exact number and its places behind the point.
pub open spec fn exactly(v: ValueView) -> Option<(int, int)> {
    match v {
        ValueView::Int16(n) => Some((n as int, 0)),
        ValueView::Int32(n) => Some((n as int, 0)),
        ValueView::Int64(n) => Some((n as int, 0)),
        ValueView::Decimal { value, scale } => Some((value as int, scale as int)),
        ValueView::Money(n) => Some((n as int, 2)),
        _ => None,
    }
}

/// The sign before an exact number gives the opposite number, of the same type.
/// It has none only where the opposite of the smallest number does not fit.
pub proof fn signs_give_opposite_numbers(v: ValueView)
    ensures
        number::negated(v) matches Some(u) ==> {
            &&& exactly(v) matches Some((n, s)) ==> exactly(u) == Some((-n, s))
            &&& v is Int16 <==> u is Int16
            &&& v is Int32 <==> u is Int32
            &&& v is Int64 <==> u is Int64
            &&& v is Decimal <==> u is Decimal
            &&& v matches ValueView::Float64(x) ==> u == ValueView::Float64(
                FloatValueView::Negated(Box::new(x)),
            )
        },
        number::negated(v) is None && exactly(v) is Some ==> {
            ||| v == ValueView::Int16(i16::MIN)
            ||| v == ValueView::Int32(i32::MIN)
            ||| v == ValueView::Int64(i64::MIN)
            ||| exactly(v)->Some_0.0 == i64::MIN
        },
{
}

/// Whether an expression is another one under a unary operator. The sign of a
/// number is taken into the number.
pub open spec fn under_sign(op: UnaryOp, y: ScalarExprView, x: ScalarExprView) -> bool {
    ||| {
        &&& x matches ScalarExprView::Unary { op: kept, expr: z, data_type }
        &&& kept == op && *z == y
        &&& op is Not ==> data_type is Bool
        &&& !(op is Not) ==> data_type == query::scalar_type(y)
    }
    ||| op is Pos && y is Literal && x == y
    ||| {
        &&& op is Neg
        &&& y matches ScalarExprView::Literal { value: v, data_type: t }
        &&& x matches ScalarExprView::Literal { value: u, data_type: s }
        &&& s == t && number::negated(v) == Some(u)
    }
}

/// A unary operation keeps its operator and its operand, and the sign of a number
/// becomes part of it. The smallest number of 64 bits is written with its sign.
pub proof fn unary_operations_keep_their_operand(
    e: Expr,
    row: SchemaView,
    cat: CatalogView,
    ctes: expr::Ctes,
    rows: Seq<SchemaView>,
    r: ReadingsView,
)
    requires
        e is Unary,
    ensures
        expr::bound_value(e, row, cat, ctes, rows, r) matches Ok(x) ==> {
            ||| (expr::bound_value(*e->Unary_expr, row, cat, ctes, rows, r) matches Ok(y)
                && under_sign(e->Unary_op, y, x))
            ||| {
                &&& e->Unary_op is Neg
                &&& *e->Unary_expr matches Expr::Literal(Literal::Integer { text: s })
                &&& text::natural_value(number::without_underscores(s@)) == Some(
                    0x8000_0000_0000_0000int,
                )
                &&& x matches ScalarExprView::Literal { value, data_type }
                &&& value == ValueView::Int64(i64::MIN) && data_type is Int64
            }
        },
{
}

/// Whether two operands are those of an operation: as they are for a pattern and
/// where money is multiplied or divided, else with a literal among the two of the
/// type of the other.
pub open spec fn operands(
    op: BinaryOp,
    l: ScalarExprView,
    m: ScalarExprView,
    a: ScalarExprView,
    b: ScalarExprView,
    r: ReadingsView,
) -> bool {
    let pattern = op is Like || op is NotLike || op is Ilike || op is NotIlike || op is RegexMatch
        || op is RegexIMatch || op is RegexNotMatch || op is RegexNotIMatch;
    let money = (op is Mul || op is Div) && (query::scalar_type(l) is Money || query::scalar_type(
        m,
    ) is Money);
    if pattern || money {
        a == l && b == m
    } else {
        a == coerce::coerced(l, query::scalar_type(m), r) && b == coerce::coerced(
            m,
            query::scalar_type(l),
            r,
        )
    }
}

/// Whether an expression is an operation on two operands, or what the operation
/// on two literals gives: a date moved by an interval, or a float.
pub open spec fn operates(
    op: BinaryOp,
    a: ScalarExprView,
    b: ScalarExprView,
    x: ScalarExprView,
    r: ReadingsView,
) -> bool {
    ||| {
        &&& x matches ScalarExprView::Binary { op: kept, left, right, data_type }
        &&& kept == op && *left == a && *right == b
        &&& meaning::gives_type(op, query::scalar_type(a), query::scalar_type(b), data_type)
    }
    ||| {
        &&& a matches ScalarExprView::Literal { value: v, .. }
        &&& b matches ScalarExprView::Literal { value: u, .. }
        &&& literal::values_folded(op, v, u, r) == Ok::<_, PlanErrorView>(Some(x))
    }
}

/// A binary operation keeps its operator and its operands, in order.
pub proof fn binary_operations_keep_their_operands(
    op: BinaryOp,
    l: ScalarExprView,
    m: ScalarExprView,
    r: ReadingsView,
)
    ensures
        operation::folded_operation(op, l, m, r) matches Ok(x) ==> exists|
            a: ScalarExprView,
            b: ScalarExprView,
        | #[trigger]
            operands(op, l, m, a, b, r) && operates(op, a, b, x, r),
        operation::binary_operation(op, l, m, r) matches Ok(x) ==> exists|
            a: ScalarExprView,
            b: ScalarExprView,
        | #[trigger]
            operands(op, l, m, a, b, r) && operates(op, a, b, x, r),
{
    let (a, b) = operation::matched(op, l, m, r);
    assert(operands(op, l, m, a, b, r));
    meaning::operations_are_typed(op, query::scalar_type(a), query::scalar_type(b));
}

/// A bound binary operation is the operation on what its operands are bound to.
pub proof fn bound_operations_keep_their_operands(
    e: Expr,
    row: SchemaView,
    cat: CatalogView,
    ctes: expr::Ctes,
    rows: Seq<SchemaView>,
    r: ReadingsView,
)
    requires
        e is Binary,
    ensures
        expr::bound_value(e, row, cat, ctes, rows, r) matches Ok(x) ==> {
            &&& expr::bound_value(*e->Binary_left, row, cat, ctes, rows, r) matches Ok(l)
            &&& expr::bound_value(*e->Binary_right, row, cat, ctes, rows, r) matches Ok(m)
            &&& exists|a: ScalarExprView, b: ScalarExprView| #[trigger]
                operands(e->Binary_op, l, m, a, b, r) && operates(e->Binary_op, a, b, x, r)
        },
{
    if let Ok(x) = expr::bound_value(e, row, cat, ctes, rows, r) {
        let l = expr::bound_value(*e->Binary_left, row, cat, ctes, rows, r)->Ok_0;
        let m = expr::bound_value(*e->Binary_right, row, cat, ctes, rows, r)->Ok_0;
        binary_operations_keep_their_operands(e->Binary_op, l, m, r);
    }
}

/// Whether a floating-point number is another number.
pub open spec fn as_float(v: ValueView, x: FloatValueView) -> bool {
    match v {
        ValueView::Int16(n) => x == FloatValueView::Integer(n as i64),
        ValueView::Int32(n) => x == FloatValueView::Integer(n as i64),
        ValueView::Int64(n) => x == FloatValueView::Integer(n),
        ValueView::Float32(y) => x == FloatValueView::Single(Box::new(y)),
        ValueView::Float64(y) => x == y,
        ValueView::Decimal { value, scale } => x == (FloatValueView::Decimal { value, scale }),
        _ => false,
    }
}

/// Arithmetic on literals of which one is a float is the arithmetic of its
/// operator on both numbers, in order. Nothing else but dates and intervals is
/// computed.
pub proof fn computed_floats_are_their_operation(
    op: BinaryOp,
    v: ValueView,
    u: ValueView,
    r: ReadingsView,
)
    requires
        !(v is Date) && !(u is Date),
    ensures
        literal::values_folded(op, v, u, r) matches Ok(Some(x)) ==> {
            &&& v is Float32 || v is Float64 || u is Float32 || u is Float64
            &&& x matches ScalarExprView::Literal { value: ValueView::Float64(y), data_type }
            &&& data_type is Float64
            &&& match (op, y) {
                (BinaryOp::Add, FloatValueView::Sum(a, b)) => as_float(v, *a) && as_float(u, *b),
                (BinaryOp::Sub, FloatValueView::Difference(a, b)) => as_float(v, *a) && as_float(
                    u,
                    *b,
                ),
                (BinaryOp::Mul, FloatValueView::Product(a, b)) => as_float(v, *a) && as_float(
                    u,
                    *b,
                ),
                (BinaryOp::Div, FloatValueView::Quotient(a, b)) => as_float(v, *a) && as_float(
                    u,
                    *b,
                ),
                _ => false,
            }
        },
{
}

/// Coercing a whole number to an integer type keeps the number where it fits, and
/// leaves it as it is where it does not. Coercing it to a floating-point type
/// gives that number, and coercing it to a decimal type gives its digits followed
/// by as many zeros as the type has places.
pub proof fn coercions_keep_whole_numbers(
    v: ValueView,
    t: DataTypeView,
    target: DataTypeView,
    r: ReadingsView,
)
    requires
        v is Int16 || v is Int32 || v is Int64,
        t != target,
    ensures
        ({
            let n = exactly(v)->Some_0.0;
            let (u, s) = coerce::coerced_literal(v, t, target, r);
            &&& target is Int16 ==> if i16::MIN <= n <= i16::MAX && !(v is Int16) {
                u == ValueView::Int16(n as i16) && s == target
            } else {
                u == v && s == t
            }
            &&& target is Int32 ==> if i32::MIN <= n <= i32::MAX && !(v is Int32) {
                u == ValueView::Int32(n as i32) && s == target
            } else {
                u == v && s == t
            }
            &&& target is Int64 && !(v is Int64) ==> u == ValueView::Int64(n as i64) && s == target
            &&& target is Float64 ==> u == ValueView::Float64(FloatValueView::Integer(n as i64))
                && s == target
            &&& target is Float32 ==> u == ValueView::Float32(FloatValueView::Integer(n as i64))
                && s == target
            &&& target is Decimal ==> {
                ||| u == v && s == t
                ||| {
                    &&& s is Decimal
                    &&& u matches ValueView::Decimal { value, scale }
                    &&& value == n * clock::ten_to(scale as int)
                    &&& target->Decimal_scale matches Some(k) ==> scale == k
                    &&& s->Decimal_scale == Some(scale)
                }
            }
            &&& target is Bool || target is Text || target is Date ==> u == v && s == t
        }),
{
}

/// Coercing a text to an integer type gives the number that it spells, where the
/// type holds it, and leaves the text as it is otherwise.
pub proof fn coercions_read_whole_numbers(
    s: Seq<char>,
    t: DataTypeView,
    target: DataTypeView,
    r: ReadingsView,
)
    requires
        target is Int16 || target is Int32 || target is Int64,
        t != target,
    ensures
        ({
            let (u, made) = coerce::coerced_literal(ValueView::Text(s), t, target, r);
            match text::int_value(s) {
                Some(n) => if target is Int16 && i16::MIN <= n <= i16::MAX || target is Int32
                    && i32::MIN <= n <= i32::MAX || target is Int64 && i64::MIN <= n <= i64::MAX {
                    exactly(u) == Some((n, 0int)) && made == target
                } else {
                    u == ValueView::Text(s) && made == t
                },
                None => u == ValueView::Text(s) && made == t,
            }
        }),
{
}

/// Coercion changes literals only, with the sign before them.
pub proof fn coercion_changes_literals_only(
    e: ScalarExprView,
    target: DataTypeView,
    r: ReadingsView,
)
    ensures
        !(e is Literal) && !(e is Unary) ==> coerce::coerced(e, target, r) == e,
        e matches ScalarExprView::Unary { op, expr, .. } ==> !(*expr is Literal) || op is Not
            || op is BitNot ==> coerce::coerced(e, target, r) == e,
        e is Literal ==> coerce::coerced(e, target, r) is Literal,
{
}

/// A call of a function keeps its name and its arguments, in order. Only literals
/// among the arguments can be coerced.
pub proof fn calls_keep_their_arguments(f: Seq<char>, list: Seq<ScalarExprView>, r: ReadingsView)
    ensures
        operation::builtin_call(f, list, r) matches Ok(x) ==> {
            &&& x matches ScalarExprView::FunctionCall { name, args, .. }
            &&& name == f
            &&& args.len() == list.len()
            &&& forall|k: int|
                0 <= k < list.len() && !(#[trigger] list[k] is Literal) && !(list[k] is Unary)
                    ==> args[k] == list[k]
        },
{
    if let Ok(x) = operation::builtin_call(f, list, r) {
        let args = x->FunctionCall_args;
        let out = builtin::args_checked(f, list, r).1;
        assert(out.len() == list.len());
        assert forall|k: int|
            0 <= k < list.len() && !(#[trigger] list[k] is Literal) && !(list[k] is Unary) implies
            args[k] == list[k] by {
            assert(out[k] == list[k]);
        }
    }
}

/// A bound call is a call of its function on what its arguments are bound to. A
/// call of an aggregate stands for the column that is named after the call, or
/// else after its function.
pub proof fn bound_calls_keep_their_arguments(
    e: Expr,
    row: SchemaView,
    cat: CatalogView,
    ctes: expr::Ctes,
    rows: Seq<SchemaView>,
    r: ReadingsView,
)
    requires
        e is Call,
    ensures
        expr::bound_value(e, row, cat, ctes, rows, r) matches Ok(x) ==> {
            let func = text::lower(names::last_part(e->Call_name));
            ||| {
                &&& x matches ScalarExprView::FunctionCall { name, args, .. }
                &&& name == func
                &&& expr::bound_values(
                    e->Call_args@,
                    0,
                    Seq::empty(),
                    row,
                    cat,
                    ctes,
                    rows,
                    r,
                ) matches Ok(list)
                &&& args.len() == list.len()
                &&& forall|k: int|
                    0 <= k < list.len() && !(#[trigger] list[k] is Literal) && !(list[k] is Unary)
                        ==> args[k] == list[k]
            }
            ||| {
                let full = aggregate_call::agg_output_name(
                    func,
                    e->Call_args@,
                    aggregate_call::keys_of(e->Call_within_group),
                );
                &&& x matches ScalarExprView::Column { name, index, data_type }
                &&& exists|i: int|
                    {
                        &&& #[trigger] sources::first_named(row, i, name)
                        &&& index == i as usize && row.fields[i].name == name
                        &&& data_type == row.fields[i].data_type
                        &&& text::same_fold(name, full) || text::same_fold(name, func)
                    }
            }
        },
{
    if let Ok(x) = expr::bound_value(e, row, cat, ctes, rows, r) {
        let func = text::lower(names::last_part(e->Call_name));
        let full = aggregate_call::agg_output_name(
            func,
            e->Call_args@,
            aggregate_call::keys_of(e->Call_within_group),
        );
        if let ScalarExprView::Column { name, .. } = x {
            schema::find_gives_first(row.fields, full, 0);
            schema::find_gives_first(row.fields, func, 0);
            let i = match schema::find_field(row, full) {
                Some(i) => i,
                None => schema::find_field(row, func)->Some_0,
            };
            assert(sources::first_named(row, i, name));
        } else {
            let list = expr::bound_values(
                e->Call_args@,
                0,
                Seq::empty(),
                row,
                cat,
                ctes,
                rows,
                r,
            )->Ok_0;
            calls_keep_their_arguments(func, list, r);
        }
    }
}

} // verus!
