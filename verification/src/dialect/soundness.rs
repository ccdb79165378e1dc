//! What holds of every bound expression.
use crate::ast::{BinaryOp, Expr, Identifier, Literal, ObjectName};
use crate::binder::{names, relation, soundness};
use crate::catalog::CatalogView;
use crate::datatype::DataTypeView;
use crate::dialect::reading::ReadingsView;
use crate::dialect::expr::Ctes;
use crate::dialect::{
    aggregate_call, builtin, coerce, expr, literal, number, operation, typename,
};
use crate::query;
use crate::query::ScalarExprView;
use crate::schema;
use crate::schema::SchemaView;
use vstd::prelude::*;

verus! {

/// Whether an expression refers only to columns that its row or the rows of
/// enclosing queries have, with their types. Of a subquery it tells whether it
/// is correlated.
pub open spec fn stands_within(x: ScalarExprView, row: SchemaView, rows: Seq<SchemaView>) -> bool
    decreases x, 0int,
{
    match x {
        ScalarExprView::Literal { .. } => true,
        ScalarExprView::Parameter { .. } => true,
        ScalarExprView::Column { index, data_type, .. } => soundness::has_column(
            row,
            index,
            data_type,
        ),
        ScalarExprView::OuterColumn { frame_depth, column_index, data_type, .. } =>
            soundness::has_outer_column(rows, frame_depth, column_index, data_type),
        ScalarExprView::Unary { expr, .. } => stands_within(*expr, row, rows),
        ScalarExprView::Binary { left, right, .. } => stands_within(*left, row, rows)
            && stands_within(*right, row, rows),
        ScalarExprView::IsNull { expr, .. } => stands_within(*expr, row, rows),
        ScalarExprView::FunctionCall { args, .. } => all_stand_within(args, row, rows),
        ScalarExprView::ScalarSubquery { subplan, correlated, .. } => correlated
            == query::query_has_outer(*subplan),
        ScalarExprView::Exists { subplan, correlated, .. } => correlated == query::query_has_outer(
            *subplan,
        ),
        ScalarExprView::InSubquery { expr, subplan, correlated, .. } => stands_within(
            *expr,
            row,
            rows,
        ) && correlated == query::query_has_outer(*subplan),
    }
}

/// Whether all expressions of a list refer only to columns that there are.
pub open spec fn all_stand_within(
    s: Seq<ScalarExprView>,
    row: SchemaView,
    rows: Seq<SchemaView>,
) -> bool
    decreases s, 1int,
{
    forall|i: int| 0 <= i < s.len() ==> stands_within(#[trigger] s[i], row, rows)
}

proof fn conversions_stand_within(
    e: ScalarExprView,
    target: DataTypeView,
    cat: CatalogView,
    explicit: bool,
    row: SchemaView,
    rows: Seq<SchemaView>,
    r: ReadingsView,
)
    requires
        stands_within(e, row, rows),
    ensures
        stands_within(number::sign_folded(e), row, rows),
        stands_within(coerce::coerced(e, target, r), row, rows),
        stands_within(coerce::cast_to_padded(e, target, explicit).0, row, rows),
        stands_within(coerce::cast_to_bit_string(e, target, explicit, r).0, row, rows),
        stands_within(coerce::cast_to_oid_alias(e, target, cat, r).0, row, rows),
{
}

proof fn coerced_lists_stand_within(
    args: Seq<ScalarExprView>,
    target: DataTypeView,
    cat: CatalogView,
    row: SchemaView,
    rows: Seq<SchemaView>,
    r: ReadingsView,
)
    requires
        all_stand_within(args, row, rows),
    ensures
        all_stand_within(builtin::all_coerced(args, target, r), row, rows),
{
    let out = builtin::all_coerced(args, target, r);
    assert forall|i: int| 0 <= i < out.len() implies stands_within(#[trigger] out[i], row, rows) by {
        conversions_stand_within(args[i], target, cat, false, row, rows, r);
    }
}

proof fn operations_stand_within(
    op: BinaryOp,
    l: ScalarExprView,
    x: ScalarExprView,
    cat: CatalogView,
    row: SchemaView,
    rows: Seq<SchemaView>,
    r: ReadingsView,
)
    requires
        stands_within(l, row, rows),
        stands_within(x, row, rows),
    ensures
        operation::binary_operation(op, l, x, r) matches Ok(made) ==> stands_within(made, row, rows),
        operation::folded_operation(op, l, x, r) matches Ok(made) ==> stands_within(made, row, rows),
{
    conversions_stand_within(l, query::scalar_type(x), cat, false, row, rows, r);
    conversions_stand_within(x, query::scalar_type(l), cat, false, row, rows, r);
}

proof fn ranges_stand_within(
    e: ScalarExprView,
    low: ScalarExprView,
    high: ScalarExprView,
    negated: bool,
    symmetric: bool,
    cat: CatalogView,
    row: SchemaView,
    rows: Seq<SchemaView>,
    r: ReadingsView,
)
    requires
        stands_within(e, row, rows),
        stands_within(low, row, rows),
        stands_within(high, row, rows),
    ensures
        operation::between(e, low, high, negated, symmetric, r) matches Ok(made) ==> stands_within(
            made,
            row,
            rows,
        ),
{
    let ops = if negated {
        (BinaryOp::Lt, BinaryOp::Gt)
    } else {
        (BinaryOp::GtEq, BinaryOp::LtEq)
    };
    operations_stand_within(ops.0, e, low, cat, row, rows, r);
    operations_stand_within(ops.1, e, high, cat, row, rows, r);
    operations_stand_within(ops.0, e, high, cat, row, rows, r);
    operations_stand_within(ops.1, e, low, cat, row, rows, r);
    reveal_with_fuel(stands_within, 3);
}

proof fn casts_stand_within(
    e: ScalarExprView,
    target: DataTypeView,
    cat: CatalogView,
    row: SchemaView,
    rows: Seq<SchemaView>,
    r: ReadingsView,
)
    requires
        stands_within(e, row, rows),
    ensures
        operation::cast_operation(e, target, cat, r) matches Ok(made) ==> stands_within(
            made,
            row,
            rows,
        ),
{
    conversions_stand_within(e, target, cat, true, row, rows, r);
    let padded = coerce::cast_to_padded(e, target, true).0;
    conversions_stand_within(padded, target, cat, true, row, rows, r);
    let bits = coerce::cast_to_bit_string(padded, target, true, r).0;
    conversions_stand_within(bits, target, cat, true, row, rows, r);
    let oid = coerce::cast_to_oid_alias(bits, target, cat, r).0;
    conversions_stand_within(oid, target, cat, true, row, rows, r);
    let last = coerce::coerced(oid, target, r);
    if let Some(made) = operation::runtime_cast(last, target, query::scalar_type(last)) {
        if let ScalarExprView::FunctionCall { args, .. } = made {
            calls_stand_within(made, args, row, rows);
            assert(args[0] == last);
            assert forall|i: int| 0 <= i < args.len() implies stands_within(
                #[trigger] args[i],
                row,
                rows,
            ) by {}
        }
    }
}

proof fn calls_stand_within(
    x: ScalarExprView,
    args: Seq<ScalarExprView>,
    row: SchemaView,
    rows: Seq<SchemaView>,
)
    requires
        x matches ScalarExprView::FunctionCall { args: own, .. } && own == args,
    ensures
        stands_within(x, row, rows) <==> all_stand_within(args, row, rows),
{
}

proof fn short_calls_stand_within(
    name: Seq<char>,
    a: ScalarExprView,
    b: ScalarExprView,
    c: ScalarExprView,
    t: DataTypeView,
    row: SchemaView,
    rows: Seq<SchemaView>,
)
    requires
        stands_within(a, row, rows),
        stands_within(b, row, rows),
        stands_within(c, row, rows),
    ensures
        stands_within(operation::call1(name, a, t), row, rows),
        stands_within(operation::call2(name, a, b, t), row, rows),
        stands_within(operation::call3(name, a, b, c, t), row, rows),
{
    calls_stand_within(operation::call1(name, a, t), seq![a], row, rows);
    calls_stand_within(operation::call2(name, a, b, t), seq![a, b], row, rows);
    calls_stand_within(operation::call3(name, a, b, c, t), seq![a, b, c], row, rows);
}

proof fn builtins_stand_within(
    f: Seq<char>,
    args: Seq<ScalarExprView>,
    cat: CatalogView,
    row: SchemaView,
    rows: Seq<SchemaView>,
    r: ReadingsView,
)
    requires
        all_stand_within(args, row, rows),
    ensures
        operation::builtin_call(f, args, r) matches Ok(made) ==> stands_within(made, row, rows),
        operation::choice(f, args, r) matches Ok(made) ==> stands_within(made, row, rows),
{
    let (checked, out) = builtin::args_checked(f, args, r);
    if checked is Ok {
        assert(all_stand_within(out, row, rows)) by {
            if builtin::metric_builtin(f) {
                conversions_stand_within(args[1], query::scalar_type(args[0]), cat, false, row, rows, r);
                conversions_stand_within(args[0], query::scalar_type(args[1]), cat, false, row, rows, r);
            } else if f == "hybrid_search"@ {
                conversions_stand_within(args[3], query::scalar_type(args[2]), cat, false, row, rows, r);
                conversions_stand_within(args[2], query::scalar_type(args[3]), cat, false, row, rows, r);
            }
        }
        if let Ok(t) = builtin::answer_type(f, builtin::types_of(out)) {
            coerced_lists_stand_within(out, t, cat, row, rows, r);
        }
    }
    if let Ok(t) = builtin::common_type(f, builtin::types_of(args)) {
        coerced_lists_stand_within(args, t, cat, row, rows, r);
    }
}

proof fn comparisons_stand_within(
    label: Seq<char>,
    a: ScalarExprView,
    b: ScalarExprView,
    cat: CatalogView,
    row: SchemaView,
    rows: Seq<SchemaView>,
    r: ReadingsView,
)
    requires
        stands_within(a, row, rows),
        stands_within(b, row, rows),
    ensures
        operation::compared(label, a, b, r) matches Ok((x, y)) ==> stands_within(x, row, rows)
            && stands_within(y, row, rows),
{
    conversions_stand_within(a, query::scalar_type(b), cat, false, row, rows, r);
    conversions_stand_within(b, query::scalar_type(a), cat, false, row, rows, r);
}

proof fn distinct_tests_stand_within(
    a: ScalarExprView,
    b: ScalarExprView,
    negated: bool,
    cat: CatalogView,
    row: SchemaView,
    rows: Seq<SchemaView>,
    r: ReadingsView,
)
    requires
        stands_within(a, row, rows),
        stands_within(b, row, rows),
    ensures
        operation::distinct_test(a, b, negated, r) matches Ok(made) ==> stands_within(
            made,
            row,
            rows,
        ),
        operation::null_if(a, b, r) matches Ok(made) ==> stands_within(made, row, rows),
{
    comparisons_stand_within("IS DISTINCT FROM"@, a, b, cat, row, rows, r);
    comparisons_stand_within("nullif"@, a, b, cat, row, rows, r);
    if let Ok((x, y)) = operation::compared("IS DISTINCT FROM"@, a, b, r) {
        let name = if negated {
            "is_not_distinct_from"@
        } else {
            "is_distinct_from"@
        };
        short_calls_stand_within(name, x, y, y, DataTypeView::Bool, row, rows);
    }
    if let Ok((x, y)) = operation::compared("nullif"@, a, b, r) {
        short_calls_stand_within("nullif"@, x, y, y, query::scalar_type(x), row, rows);
    }
}

proof fn zones_stand_within(
    source: ScalarExprView,
    zone: ScalarExprView,
    cat: CatalogView,
    row: SchemaView,
    rows: Seq<SchemaView>,
    r: ReadingsView,
)
    requires
        stands_within(source, row, rows),
        stands_within(zone, row, rows),
    ensures
        operation::at_zone(source, zone, r) matches Ok(made) ==> stands_within(made, row, rows),
{
    let text = DataTypeView::Text { max_len: None };
    conversions_stand_within(zone, text, cat, false, row, rows, r);
    let z = coerce::coerced(zone, text, r);
    if let Ok(t) = builtin::zone_type(builtin::types_of(seq![z, source])) {
        short_calls_stand_within("timezone"@, z, source, source, t, row, rows);
    }
}

proof fn elements_stand_within(
    a: ScalarExprView,
    b: ScalarExprView,
    row: SchemaView,
    rows: Seq<SchemaView>,
)
    requires
        stands_within(a, row, rows),
        stands_within(b, row, rows),
    ensures
        operation::any_element(a, b) matches Ok(made) ==> stands_within(made, row, rows),
        operation::subscript(a, b) matches Ok(made) ==> stands_within(made, row, rows),
{
    short_calls_stand_within("__ultrasql_eq_any_array"@, a, b, b, DataTypeView::Bool, row, rows);
    if let DataTypeView::Array(element) = query::scalar_type(a) {
        short_calls_stand_within("__ultrasql_array_subscript"@, a, b, b, *element, row, rows);
    }
}

proof fn truth_tests_stand_within(
    e: ScalarExprView,
    value: bool,
    is_unknown: bool,
    negated: bool,
    cat: CatalogView,
    row: SchemaView,
    rows: Seq<SchemaView>,
    r: ReadingsView,
)
    requires
        stands_within(e, row, rows),
    ensures
        operation::boolean_test(e, value, is_unknown, negated, r) matches Ok(made)
            ==> stands_within(made, row, rows),
{
    conversions_stand_within(e, DataTypeView::Bool, cat, false, row, rows, r);
    let x = coerce::coerced(e, DataTypeView::Bool, r);
    let name = if value {
        if negated {
            "is_not_true"@
        } else {
            "is_true"@
        }
    } else if negated {
        "is_not_false"@
    } else {
        "is_false"@
    };
    short_calls_stand_within(name, x, x, x, DataTypeView::Bool, row, rows);
}

/// Whether what an expression is bound to refers only to columns that there are.
#[verifier::opaque]
spec fn sound(
    e: Expr,
    row: SchemaView,
    cat: CatalogView,
    ctes: Ctes,
    rows: Seq<SchemaView>,
    r: ReadingsView,
) -> bool {
    expr::bound_value(e, row, cat, ctes, rows, r) matches Ok(x) ==> stands_within(x, row, rows)
}

proof fn value_of_sound(
    e: Expr,
    row: SchemaView,
    cat: CatalogView,
    ctes: Ctes,
    rows: Seq<SchemaView>,
    r: ReadingsView,
)
    requires
        sound(e, row, cat, ctes, rows, r),
    ensures
        expr::bound_value(e, row, cat, ctes, rows, r) matches Ok(x) ==> stands_within(x, row, rows),
{
    reveal(sound);
}

proof fn values_stand_within(
    list: Seq<Expr>,
    i: int,
    acc: Seq<ScalarExprView>,
    row: SchemaView,
    cat: CatalogView,
    ctes: Ctes,
    rows: Seq<SchemaView>,
    r: ReadingsView,
)
    requires
        0 <= i,
        all_stand_within(acc, row, rows),
        forall|k: int| 0 <= k < list.len() ==> sound(#[trigger] list[k], row, cat, ctes, rows, r),
    ensures
        expr::bound_values(list, i, acc, row, cat, ctes, rows, r) matches Ok(out)
            ==> all_stand_within(out, row, rows),
    decreases list.len() - i,
{
    if i < list.len() {
        value_of_sound(list[i], row, cat, ctes, rows, r);
        if let Ok(x) = expr::bound_value(list[i], row, cat, ctes, rows, r) {
            values_stand_within(list, i + 1, acc.push(x), row, cat, ctes, rows, r);
        }
    }
}

proof fn branches_stand_within(
    list: Seq<(Expr, Expr)>,
    i: int,
    acc: Seq<ScalarExprView>,
    t: DataTypeView,
    row: SchemaView,
    cat: CatalogView,
    ctes: Ctes,
    rows: Seq<SchemaView>,
    r: ReadingsView,
)
    requires
        0 <= i,
        all_stand_within(acc, row, rows),
        forall|k: int|
            0 <= k < list.len() ==> sound((#[trigger] list[k]).0, row, cat, ctes, rows, r) && sound(
                list[k].1,
                row,
                cat,
                ctes,
                rows,
                r,
            ),
    ensures
        expr::bound_branches(list, i, acc, t, row, cat, ctes, rows, r) matches Ok((out, _))
            ==> all_stand_within(out, row, rows),
    decreases list.len() - i,
{
    if i < list.len() {
        value_of_sound(list[i].0, row, cat, ctes, rows, r);
        value_of_sound(list[i].1, row, cat, ctes, rows, r);
        if let Ok((when, result)) = expr::bound_branch(list[i], row, cat, ctes, rows, r) {
            branches_stand_within(
                list,
                i + 1,
                acc.push(when).push(result),
                expr::first_known(t, query::scalar_type(result)),
                row,
                cat,
                ctes,
                rows,
                r,
            );
        }
    }
}

proof fn items_stand_within(
    list: Seq<Expr>,
    i: int,
    acc: Option<ScalarExprView>,
    subject: ScalarExprView,
    negated: bool,
    row: SchemaView,
    cat: CatalogView,
    ctes: Ctes,
    rows: Seq<SchemaView>,
    r: ReadingsView,
)
    requires
        0 <= i,
        acc matches Some(x) ==> stands_within(x, row, rows),
        stands_within(subject, row, rows),
        forall|k: int| 0 <= k < list.len() ==> sound(#[trigger] list[k], row, cat, ctes, rows, r),
    ensures
        expr::bound_items(list, i, acc, subject, negated, row, cat, ctes, rows, r) matches Ok(
            Some(x),
        ) ==> stands_within(x, row, rows),
    decreases list.len() - i,
{
    if i < list.len() {
        value_of_sound(list[i], row, cat, ctes, rows, r);
        if let Ok(x) = expr::bound_value(list[i], row, cat, ctes, rows, r) {
            let made = operation::with_item(acc, subject, x, negated);
            assert(stands_within(made, row, rows)) by {
                reveal_with_fuel(stands_within, 3);
            }
            items_stand_within(
                list,
                i + 1,
                Some(made),
                subject,
                negated,
                row,
                cat,
                ctes,
                rows,
                r,
            );
        }
    }
}

proof fn columns_stand_within(name: Seq<char>, row: SchemaView, rows: Seq<SchemaView>)
    ensures
        schema::find_field(row, name) matches Some(i) ==> stands_within(
            relation::column_at(row, i),
            row,
            rows,
        ),
{
    schema::find_gives_first(row.fields, name, 0);
    if let Some(i) = schema::find_field(row, name) {
        assert(row.fields[i].data_type == row.fields[i].data_type);
    }
}

proof fn wrapped_is_sound(
    e: Expr,
    row: SchemaView,
    cat: CatalogView,
    ctes: Ctes,
    rows: Seq<SchemaView>,
    r: ReadingsView,
)
    requires
        e matches Expr::Paren { expr } && {
            &&& sound(*expr, row, cat, ctes, rows, r)
        },
    ensures
        sound(e, row, cat, ctes, rows, r),
{
    reveal(sound);
}

proof fn collated_is_sound(
    e: Expr,
    row: SchemaView,
    cat: CatalogView,
    ctes: Ctes,
    rows: Seq<SchemaView>,
    r: ReadingsView,
)
    requires
        e matches Expr::Collate { expr, .. } && {
            &&& sound(*expr, row, cat, ctes, rows, r)
        },
    ensures
        sound(e, row, cat, ctes, rows, r),
{
    reveal(sound);
}

proof fn null_test_is_sound(
    e: Expr,
    row: SchemaView,
    cat: CatalogView,
    ctes: Ctes,
    rows: Seq<SchemaView>,
    r: ReadingsView,
)
    requires
        e matches Expr::IsNull { expr, .. } && {
            &&& sound(*expr, row, cat, ctes, rows, r)
        },
    ensures
        sound(e, row, cat, ctes, rows, r),
{
    reveal(sound);
}

proof fn membership_is_sound(
    e: Expr,
    row: SchemaView,
    cat: CatalogView,
    ctes: Ctes,
    rows: Seq<SchemaView>,
    r: ReadingsView,
)
    requires
        e matches Expr::InSubquery { expr, .. } && {
            &&& sound(*expr, row, cat, ctes, rows, r)
        },
    ensures
        sound(e, row, cat, ctes, rows, r),
{
    reveal(sound);
}

proof fn any_test_is_sound(
    e: Expr,
    row: SchemaView,
    cat: CatalogView,
    ctes: Ctes,
    rows: Seq<SchemaView>,
    r: ReadingsView,
)
    requires
        e matches Expr::Any { expr, .. } && {
            &&& sound(*expr, row, cat, ctes, rows, r)
        },
    ensures
        sound(e, row, cat, ctes, rows, r),
{
    reveal(sound);
}

proof fn zone_is_sound(
    e: Expr,
    row: SchemaView,
    cat: CatalogView,
    ctes: Ctes,
    rows: Seq<SchemaView>,
    r: ReadingsView,
)
    requires
        e matches Expr::AtTimeZone { expr, zone } && {
            &&& sound(*expr, row, cat, ctes, rows, r)
            &&& sound(*zone, row, cat, ctes, rows, r)
        },
    ensures
        sound(e, row, cat, ctes, rows, r),
{
    reveal(sound);
    if let Expr::AtTimeZone { expr, zone } = e {
        match (
            expr::bound_value(*expr, row, cat, ctes, rows, r),
            expr::bound_value(*zone, row, cat, ctes, rows, r),
        ) {
            (Ok(a), Ok(b)) => zones_stand_within(a, b, cat, row, rows, r),
            _ => {},
        }
    }
}

proof fn subscript_is_sound(
    e: Expr,
    row: SchemaView,
    cat: CatalogView,
    ctes: Ctes,
    rows: Seq<SchemaView>,
    r: ReadingsView,
)
    requires
        e matches Expr::ArraySubscript { expr, index } && {
            &&& sound(*expr, row, cat, ctes, rows, r)
            &&& sound(*index, row, cat, ctes, rows, r)
        },
    ensures
        sound(e, row, cat, ctes, rows, r),
{
    reveal(sound);
    if let Expr::ArraySubscript { expr, index } = e {
        match (
            expr::bound_value(*expr, row, cat, ctes, rows, r),
            expr::bound_value(*index, row, cat, ctes, rows, r),
        ) {
            (Ok(a), Ok(b)) => elements_stand_within(a, b, row, rows),
            _ => {},
        }
    }
}

proof fn any_array_is_sound(
    e: Expr,
    row: SchemaView,
    cat: CatalogView,
    ctes: Ctes,
    rows: Seq<SchemaView>,
    r: ReadingsView,
)
    requires
        e matches Expr::AnyArray { expr, array, .. } && {
            &&& sound(*expr, row, cat, ctes, rows, r)
            &&& sound(*array, row, cat, ctes, rows, r)
        },
    ensures
        sound(e, row, cat, ctes, rows, r),
{
    reveal(sound);
    if let Expr::AnyArray { expr, array, .. } = e {
        match (
            expr::bound_value(*expr, row, cat, ctes, rows, r),
            expr::bound_value(*array, row, cat, ctes, rows, r),
        ) {
            (Ok(a), Ok(b)) => elements_stand_within(a, b, row, rows),
            _ => {},
        }
    }
}

proof fn null_if_is_sound(
    e: Expr,
    row: SchemaView,
    cat: CatalogView,
    ctes: Ctes,
    rows: Seq<SchemaView>,
    r: ReadingsView,
)
    requires
        e matches Expr::NullIf { a: first, b: second } && {
            &&& sound(*first, row, cat, ctes, rows, r)
            &&& sound(*second, row, cat, ctes, rows, r)
        },
    ensures
        sound(e, row, cat, ctes, rows, r),
{
    reveal(sound);
    if let Expr::NullIf { a: first, b: second } = e {
        match (
            expr::bound_value(*first, row, cat, ctes, rows, r),
            expr::bound_value(*second, row, cat, ctes, rows, r),
        ) {
            (Ok(a), Ok(b)) => distinct_tests_stand_within(a, b, false, cat, row, rows, r),
            _ => {},
        }
    }
}

proof fn distinct_test_is_sound(
    e: Expr,
    row: SchemaView,
    cat: CatalogView,
    ctes: Ctes,
    rows: Seq<SchemaView>,
    r: ReadingsView,
)
    requires
        e matches Expr::IsDistinctFrom { left, right, negated } && {
            &&& sound(*left, row, cat, ctes, rows, r)
            &&& sound(*right, row, cat, ctes, rows, r)
        },
    ensures
        sound(e, row, cat, ctes, rows, r),
{
    reveal(sound);
    if let Expr::IsDistinctFrom { left, right, negated } = e {
        match (
            expr::bound_value(*left, row, cat, ctes, rows, r),
            expr::bound_value(*right, row, cat, ctes, rows, r),
        ) {
            (Ok(a), Ok(b)) => distinct_tests_stand_within(a, b, negated, cat, row, rows, r),
            _ => {},
        }
    }
}

proof fn operation_is_sound(
    e: Expr,
    row: SchemaView,
    cat: CatalogView,
    ctes: Ctes,
    rows: Seq<SchemaView>,
    r: ReadingsView,
)
    requires
        e matches Expr::Binary { op, left, right } && {
            &&& sound(*left, row, cat, ctes, rows, r)
            &&& sound(*right, row, cat, ctes, rows, r)
        },
    ensures
        sound(e, row, cat, ctes, rows, r),
{
    reveal(sound);
    if let Expr::Binary { op, left, right } = e {
        match (
            expr::bound_value(*left, row, cat, ctes, rows, r),
            expr::bound_value(*right, row, cat, ctes, rows, r),
        ) {
            (Ok(a), Ok(b)) => operations_stand_within(op, a, b, cat, row, rows, r),
            _ => {},
        }
    }
}

proof fn sign_is_sound(
    e: Expr,
    row: SchemaView,
    cat: CatalogView,
    ctes: Ctes,
    rows: Seq<SchemaView>,
    r: ReadingsView,
)
    requires
        e matches Expr::Unary { op, expr } && {
            &&& sound(*expr, row, cat, ctes, rows, r)
        },
    ensures
        sound(e, row, cat, ctes, rows, r),
{
    reveal(sound);
    if let Expr::Unary { op, expr } = e {
        if let Ok(x) = expr::bound_value(*expr, row, cat, ctes, rows, r) {
            if let Ok(t) = operation::unary_operation_type(op, query::scalar_type(x)) {
                let made = ScalarExprView::Unary { op, expr: Box::new(x), data_type: t };
                assert(stands_within(made, row, rows));
                conversions_stand_within(made, t, cat, false, row, rows, r);
            }
        }
    }
}

#[verifier::rlimit(60)]
proof fn cast_values_stand_within(
    e: Expr,
    target: Identifier,
    row: SchemaView,
    cat: CatalogView,
    ctes: Ctes,
    rows: Seq<SchemaView>,
    r: ReadingsView,
)
    requires
        sound(e, row, cat, ctes, rows, r),
    ensures
        expr::bound_cast(e, target, row, cat, ctes, rows, r) matches Ok(x) ==> stands_within(x, row, rows),
{
    value_of_sound(e, row, cat, ctes, rows, r);
    if let Some(t) = typename::cast_type_in(target.value@, cat) {
        if let Ok(x) = expr::bound_value(e, row, cat, ctes, rows, r) {
            casts_stand_within(x, t, cat, row, rows, r);
        }
    }
}

proof fn cast_is_sound(
    e: Expr,
    row: SchemaView,
    cat: CatalogView,
    ctes: Ctes,
    rows: Seq<SchemaView>,
    r: ReadingsView,
)
    requires
        e matches Expr::Cast { expr, target } && {
            &&& sound(*expr, row, cat, ctes, rows, r)
        },
    ensures
        sound(e, row, cat, ctes, rows, r),
{
    reveal(sound);
    if let Expr::Cast { expr, target } = e {
        cast_values_stand_within(*expr, target, row, cat, ctes, rows, r);
    }
}

proof fn postfix_cast_is_sound(
    e: Expr,
    row: SchemaView,
    cat: CatalogView,
    ctes: Ctes,
    rows: Seq<SchemaView>,
    r: ReadingsView,
)
    requires
        e matches Expr::PostfixCast { expr, target } && {
            &&& sound(*expr, row, cat, ctes, rows, r)
        },
    ensures
        sound(e, row, cat, ctes, rows, r),
{
    reveal(sound);
    if let Expr::PostfixCast { expr, target } = e {
        cast_values_stand_within(*expr, target, row, cat, ctes, rows, r);
    }
}

proof fn truth_test_is_sound(
    e: Expr,
    row: SchemaView,
    cat: CatalogView,
    ctes: Ctes,
    rows: Seq<SchemaView>,
    r: ReadingsView,
)
    requires
        e matches Expr::IsBoolean { expr, value, is_unknown, negated } && {
            &&& sound(*expr, row, cat, ctes, rows, r)
        },
    ensures
        sound(e, row, cat, ctes, rows, r),
{
    reveal(sound);
    if let Expr::IsBoolean { expr, value, is_unknown, negated } = e {
        if let Ok(x) = expr::bound_value(*expr, row, cat, ctes, rows, r) {
            truth_tests_stand_within(x, value, is_unknown, negated, cat, row, rows, r);
        }
    }
}

proof fn range_is_sound(
    e: Expr,
    row: SchemaView,
    cat: CatalogView,
    ctes: Ctes,
    rows: Seq<SchemaView>,
    r: ReadingsView,
)
    requires
        e matches Expr::Between { expr, low, high, negated, symmetric } && {
            &&& sound(*expr, row, cat, ctes, rows, r)
            &&& sound(*low, row, cat, ctes, rows, r)
            &&& sound(*high, row, cat, ctes, rows, r)
        },
    ensures
        sound(e, row, cat, ctes, rows, r),
{
    reveal(sound);
    if let Expr::Between { expr, low, high, negated, symmetric } = e {
        match (
            expr::bound_value(*expr, row, cat, ctes, rows, r),
            expr::bound_value(*low, row, cat, ctes, rows, r),
            expr::bound_value(*high, row, cat, ctes, rows, r),
        ) {
            (Ok(x), Ok(l), Ok(h)) => {
                ranges_stand_within(x, l, h, negated, symmetric, cat, row, rows, r);
            },
            _ => {},
        }
    }
}

proof fn slice_is_sound(
    e: Expr,
    row: SchemaView,
    cat: CatalogView,
    ctes: Ctes,
    rows: Seq<SchemaView>,
    r: ReadingsView,
)
    requires
        e matches Expr::ArraySlice { expr, lower, upper } && {
            &&& sound(*expr, row, cat, ctes, rows, r)
            &&& lower matches Some(x) ==> sound(*x, row, cat, ctes, rows, r)
            &&& upper matches Some(x) ==> sound(*x, row, cat, ctes, rows, r)
        },
    ensures
        sound(e, row, cat, ctes, rows, r),
{
    reveal(sound);
    if let Expr::ArraySlice { expr, lower, upper } = e {
        match (
            expr::bound_value(*expr, row, cat, ctes, rows, r),
            expr::bound_slice_end(lower, row, cat, ctes, rows, r),
            expr::bound_slice_end(upper, row, cat, ctes, rows, r),
        ) {
            (Ok(a), Ok(lo), Ok(hi)) => {
                short_calls_stand_within(
                    "__ultrasql_array_slice"@,
                    a,
                    lo,
                    hi,
                    query::scalar_type(a),
                    row,
                    rows,
                );
            },
            _ => {},
        }
    }
}

proof fn row_is_sound(
    e: Expr,
    row: SchemaView,
    cat: CatalogView,
    ctes: Ctes,
    rows: Seq<SchemaView>,
    r: ReadingsView,
)
    requires
        e matches Expr::Row { fields } && {
            &&& forall|k: int|
                0 <= k < fields@.len() ==> sound(#[trigger] fields@[k], row, cat, ctes, rows, r)
        },
    ensures
        sound(e, row, cat, ctes, rows, r),
{
    reveal(sound);
    if let Expr::Row { fields } = e {
        values_stand_within(fields@, 0, Seq::empty(), row, cat, ctes, rows, r);
    }
}

proof fn coalesce_is_sound(
    e: Expr,
    row: SchemaView,
    cat: CatalogView,
    ctes: Ctes,
    rows: Seq<SchemaView>,
    r: ReadingsView,
)
    requires
        e matches Expr::Coalesce { args } && {
            &&& forall|k: int|
                0 <= k < args@.len() ==> sound(#[trigger] args@[k], row, cat, ctes, rows, r)
        },
    ensures
        sound(e, row, cat, ctes, rows, r),
{
    reveal(sound);
    if let Expr::Coalesce { args } = e {
        values_stand_within(args@, 0, Seq::empty(), row, cat, ctes, rows, r);
        if let Ok(list) = expr::bound_values(args@, 0, Seq::empty(), row, cat, ctes, rows, r) {
            builtins_stand_within("coalesce"@, list, cat, row, rows, r);
        }
    }
}

proof fn greatest_is_sound(
    e: Expr,
    row: SchemaView,
    cat: CatalogView,
    ctes: Ctes,
    rows: Seq<SchemaView>,
    r: ReadingsView,
)
    requires
        e matches Expr::Greatest { args } && {
            &&& forall|k: int|
                0 <= k < args@.len() ==> sound(#[trigger] args@[k], row, cat, ctes, rows, r)
        },
    ensures
        sound(e, row, cat, ctes, rows, r),
{
    reveal(sound);
    if let Expr::Greatest { args } = e {
        values_stand_within(args@, 0, Seq::empty(), row, cat, ctes, rows, r);
        if let Ok(list) = expr::bound_values(args@, 0, Seq::empty(), row, cat, ctes, rows, r) {
            builtins_stand_within("greatest"@, list, cat, row, rows, r);
        }
    }
}

proof fn least_is_sound(
    e: Expr,
    row: SchemaView,
    cat: CatalogView,
    ctes: Ctes,
    rows: Seq<SchemaView>,
    r: ReadingsView,
)
    requires
        e matches Expr::Least { args } && {
            &&& forall|k: int|
                0 <= k < args@.len() ==> sound(#[trigger] args@[k], row, cat, ctes, rows, r)
        },
    ensures
        sound(e, row, cat, ctes, rows, r),
{
    reveal(sound);
    if let Expr::Least { args } = e {
        values_stand_within(args@, 0, Seq::empty(), row, cat, ctes, rows, r);
        if let Ok(list) = expr::bound_values(args@, 0, Seq::empty(), row, cat, ctes, rows, r) {
            builtins_stand_within("least"@, list, cat, row, rows, r);
        }
    }
}

proof fn call_is_sound(
    e: Expr,
    row: SchemaView,
    cat: CatalogView,
    ctes: Ctes,
    rows: Seq<SchemaView>,
    r: ReadingsView,
)
    requires
        e matches Expr::Call { args, .. } && {
            &&& forall|k: int|
                0 <= k < args@.len() ==> sound(#[trigger] args@[k], row, cat, ctes, rows, r)
        },
    ensures
        sound(e, row, cat, ctes, rows, r),
{
    reveal(sound);
    if let Expr::Call { name, args, within_group, .. } = e {
        let func = names::simple_name(name);
        let keys = aggregate_call::keys_of(within_group);
        columns_stand_within(func, row, rows);
        columns_stand_within(aggregate_call::agg_output_name(func, args@, keys), row, rows);
        values_stand_within(args@, 0, Seq::empty(), row, cat, ctes, rows, r);
        if let Ok(list) = expr::bound_values(args@, 0, Seq::empty(), row, cat, ctes, rows, r) {
            builtins_stand_within(func, list, cat, row, rows, r);
        }
    }
}

proof fn list_test_is_sound(
    e: Expr,
    row: SchemaView,
    cat: CatalogView,
    ctes: Ctes,
    rows: Seq<SchemaView>,
    r: ReadingsView,
)
    requires
        e matches Expr::InList { expr, items, negated } && {
            &&& sound(*expr, row, cat, ctes, rows, r)
            &&& forall|k: int|
                0 <= k < items@.len() ==> sound(#[trigger] items@[k], row, cat, ctes, rows, r)
        },
    ensures
        sound(e, row, cat, ctes, rows, r),
{
    reveal(sound);
    if let Expr::InList { expr, items, negated } = e {
        if let Ok(x) = expr::bound_value(*expr, row, cat, ctes, rows, r) {
            items_stand_within(items@, 0, None, x, negated, row, cat, ctes, rows, r);
        }
    }
}

proof fn operands_stand_within(
    operand: Option<Box<Expr>>,
    row: SchemaView,
    cat: CatalogView,
    ctes: Ctes,
    rows: Seq<SchemaView>,
    r: ReadingsView,
)
    requires
        operand matches Some(x) ==> sound(*x, row, cat, ctes, rows, r),
    ensures
        expr::bound_operand(operand, row, cat, ctes, rows, r) matches Ok(start) ==> all_stand_within(
            start,
            row,
            rows,
        ),
        expr::bound_otherwise(operand, row, cat, ctes, rows, r) matches Ok(x) ==> stands_within(x, row, rows),
{
    if let Some(x) = operand {
        value_of_sound(*x, row, cat, ctes, rows, r);
    }
}

proof fn case_calls_stand_within(
    simple: bool,
    args: Seq<ScalarExprView>,
    t: DataTypeView,
    otherwise: ScalarExprView,
    row: SchemaView,
    rows: Seq<SchemaView>,
)
    requires
        all_stand_within(args, row, rows),
        stands_within(otherwise, row, rows),
    ensures
        stands_within(expr::case_call(simple, args, t, otherwise), row, rows),
{
    let all = args.push(otherwise);
    assert(all_stand_within(all, row, rows));
    calls_stand_within(expr::case_call(simple, args, t, otherwise), all, row, rows);
}

proof fn case_parts_stand_within(
    operand: Option<Box<Expr>>,
    branches: Seq<(Expr, Expr)>,
    else_expr: Option<Box<Expr>>,
    row: SchemaView,
    cat: CatalogView,
    ctes: Ctes,
    rows: Seq<SchemaView>,
    r: ReadingsView,
)
    requires
        operand matches Some(x) ==> sound(*x, row, cat, ctes, rows, r),
        else_expr matches Some(x) ==> sound(*x, row, cat, ctes, rows, r),
        forall|k: int|
            0 <= k < branches.len() ==> sound((#[trigger] branches[k]).0, row, cat, ctes, rows, r) && sound(
                branches[k].1,
                row,
                cat,
                ctes,
                rows,
                r,
            ),
    ensures
        expr::bound_operand(operand, row, cat, ctes, rows, r) matches Ok(start) ==> expr::bound_branches(
            branches,
            0,
            start,
            DataTypeView::Null,
            row,
            cat,
            ctes,
            rows,
            r,
        ) matches Ok((args, t)) ==> expr::bound_otherwise(else_expr, row, cat, ctes, rows, r) matches Ok(otherwise)
            ==> stands_within(expr::case_call(operand is Some, args, t, otherwise), row, rows),
{
    operands_stand_within(operand, row, cat, ctes, rows, r);
    operands_stand_within(else_expr, row, cat, ctes, rows, r);
    if let Ok(start) = expr::bound_operand(operand, row, cat, ctes, rows, r) {
        let start_type = DataTypeView::Null;
        branches_stand_within(branches, 0, start, start_type, row, cat, ctes, rows, r);
        if let Ok((args, t)) = expr::bound_branches(branches, 0, start, start_type, row, cat, ctes, rows, r) {
            if let Ok(otherwise) = expr::bound_otherwise(else_expr, row, cat, ctes, rows, r) {
                case_calls_stand_within(operand is Some, args, t, otherwise, row, rows);
            }
        }
    }
}

proof fn case_is_sound(
    e: Expr,
    row: SchemaView,
    cat: CatalogView,
    ctes: Ctes,
    rows: Seq<SchemaView>,
    r: ReadingsView,
)
    requires
        e matches Expr::Case { operand, branches, else_expr } && {
            &&& operand matches Some(x) ==> sound(*x, row, cat, ctes, rows, r)
            &&& else_expr matches Some(x) ==> sound(*x, row, cat, ctes, rows, r)
            &&& forall|k: int|
                0 <= k < branches@.len() ==> sound((#[trigger] branches@[k]).0, row, cat, ctes, rows, r) && sound(
                    branches@[k].1,
                    row,
                    cat,
                    ctes,
                    rows,
                    r,
                )
        },
    ensures
        sound(e, row, cat, ctes, rows, r),
{
    if let Expr::Case { operand, branches, else_expr } = e {
        case_parts_stand_within(operand, branches@, else_expr, row, cat, ctes, rows, r);
    }
    reveal(sound);
}

proof fn literals_are_constants(lit: Literal, r: ReadingsView)
    ensures
        literal::literal_value(lit, r) is Literal,
{
}

proof fn literal_is_sound(
    e: Expr,
    row: SchemaView,
    cat: CatalogView,
    ctes: Ctes,
    rows: Seq<SchemaView>,
    r: ReadingsView,
)
    requires
        e is Literal,
    ensures
        sound(e, row, cat, ctes, rows, r),
{
    reveal(sound);
    if let Expr::Literal(lit) = e {
        literals_are_constants(lit, r);
    }
}

proof fn resolved_columns_stand_within(
    name: ObjectName,
    row: SchemaView,
    rows: Seq<SchemaView>,
)
    ensures
        operation::resolved_column(name, row, rows) matches Ok(x) ==> stands_within(x, row, rows),
{
    operation::resolved_columns_exist(name, row, rows);
    if let Ok(x) = operation::resolved_column(name, row, rows) {
        if let ScalarExprView::FunctionCall { args, .. } = x {
            calls_stand_within(x, args, row, rows);
        }
    }
}

proof fn column_is_sound(
    e: Expr,
    row: SchemaView,
    cat: CatalogView,
    ctes: Ctes,
    rows: Seq<SchemaView>,
    r: ReadingsView,
)
    requires
        e is Column,
    ensures
        sound(e, row, cat, ctes, rows, r),
{
    reveal(sound);
    if let Expr::Column { name } = e {
        resolved_columns_stand_within(name, row, rows);
    }
}

proof fn array_is_sound(
    e: Expr,
    row: SchemaView,
    cat: CatalogView,
    ctes: Ctes,
    rows: Seq<SchemaView>,
    r: ReadingsView,
)
    requires
        e is ArrayLiteral,
    ensures
        sound(e, row, cat, ctes, rows, r),
{
    reveal(sound);
}

proof fn leaf_is_sound(
    e: Expr,
    row: SchemaView,
    cat: CatalogView,
    ctes: Ctes,
    rows: Seq<SchemaView>,
    r: ReadingsView,
)
    requires
        e is Parameter || e is Subquery || e is Exists || e is All || e is Default,
    ensures
        sound(e, row, cat, ctes, rows, r),
{
    reveal(sound);
}

proof fn lists_are_sound(
    list: Seq<Expr>,
    n: int,
    row: SchemaView,
    cat: CatalogView,
    ctes: Ctes,
    rows: Seq<SchemaView>,
    r: ReadingsView,
)
    requires
        0 <= n <= list.len(),
    ensures
        forall|k: int| 0 <= k < n ==> sound(#[trigger] list[k], row, cat, ctes, rows, r),
    decreases list, n,
{
    if n > 0 {
        lists_are_sound(list, n - 1, row, cat, ctes, rows, r);
        every_value_is_sound(list[n - 1], row, cat, ctes, rows, r);
    }
}

proof fn branch_lists_are_sound(
    list: Seq<(Expr, Expr)>,
    n: int,
    row: SchemaView,
    cat: CatalogView,
    ctes: Ctes,
    rows: Seq<SchemaView>,
    r: ReadingsView,
)
    requires
        0 <= n <= list.len(),
    ensures
        forall|k: int|
            0 <= k < n ==> sound((#[trigger] list[k]).0, row, cat, ctes, rows, r) && sound(
                list[k].1,
                row,
                cat,
                ctes,
                rows,
                r,
            ),
    decreases list, n,
{
    if n > 0 {
        branch_lists_are_sound(list, n - 1, row, cat, ctes, rows, r);
        every_value_is_sound(list[n - 1].0, row, cat, ctes, rows, r);
        every_value_is_sound(list[n - 1].1, row, cat, ctes, rows, r);
    }
}

proof fn every_value_is_sound(
    e: Expr,
    row: SchemaView,
    cat: CatalogView,
    ctes: Ctes,
    rows: Seq<SchemaView>,
    r: ReadingsView,
)
    ensures
        sound(e, row, cat, ctes, rows, r),
    decreases e, 0int,
{
    match e {
        Expr::Paren { expr } => {
            every_value_is_sound(*expr, row, cat, ctes, rows, r);
            wrapped_is_sound(e, row, cat, ctes, rows, r);
        },
        Expr::Collate { expr, .. } => {
            every_value_is_sound(*expr, row, cat, ctes, rows, r);
            collated_is_sound(e, row, cat, ctes, rows, r);
        },
        Expr::IsNull { expr, .. } => {
            every_value_is_sound(*expr, row, cat, ctes, rows, r);
            null_test_is_sound(e, row, cat, ctes, rows, r);
        },
        Expr::InSubquery { expr, .. } => {
            every_value_is_sound(*expr, row, cat, ctes, rows, r);
            membership_is_sound(e, row, cat, ctes, rows, r);
        },
        Expr::Any { expr, .. } => {
            every_value_is_sound(*expr, row, cat, ctes, rows, r);
            any_test_is_sound(e, row, cat, ctes, rows, r);
        },
        Expr::AtTimeZone { expr, zone } => {
            every_value_is_sound(*expr, row, cat, ctes, rows, r);
            every_value_is_sound(*zone, row, cat, ctes, rows, r);
            zone_is_sound(e, row, cat, ctes, rows, r);
        },
        Expr::ArraySubscript { expr, index } => {
            every_value_is_sound(*expr, row, cat, ctes, rows, r);
            every_value_is_sound(*index, row, cat, ctes, rows, r);
            subscript_is_sound(e, row, cat, ctes, rows, r);
        },
        Expr::AnyArray { expr, array, .. } => {
            every_value_is_sound(*expr, row, cat, ctes, rows, r);
            every_value_is_sound(*array, row, cat, ctes, rows, r);
            any_array_is_sound(e, row, cat, ctes, rows, r);
        },
        Expr::NullIf { a, b } => {
            every_value_is_sound(*a, row, cat, ctes, rows, r);
            every_value_is_sound(*b, row, cat, ctes, rows, r);
            null_if_is_sound(e, row, cat, ctes, rows, r);
        },
        Expr::IsDistinctFrom { left, right, .. } => {
            every_value_is_sound(*left, row, cat, ctes, rows, r);
            every_value_is_sound(*right, row, cat, ctes, rows, r);
            distinct_test_is_sound(e, row, cat, ctes, rows, r);
        },
        Expr::Binary { left, right, .. } => {
            every_value_is_sound(*left, row, cat, ctes, rows, r);
            every_value_is_sound(*right, row, cat, ctes, rows, r);
            operation_is_sound(e, row, cat, ctes, rows, r);
        },
        Expr::Unary { expr, .. } => {
            every_value_is_sound(*expr, row, cat, ctes, rows, r);
            sign_is_sound(e, row, cat, ctes, rows, r);
        },
        Expr::Cast { expr, .. } => {
            every_value_is_sound(*expr, row, cat, ctes, rows, r);
            cast_is_sound(e, row, cat, ctes, rows, r);
        },
        Expr::PostfixCast { expr, .. } => {
            every_value_is_sound(*expr, row, cat, ctes, rows, r);
            postfix_cast_is_sound(e, row, cat, ctes, rows, r);
        },
        Expr::IsBoolean { expr, .. } => {
            every_value_is_sound(*expr, row, cat, ctes, rows, r);
            truth_test_is_sound(e, row, cat, ctes, rows, r);
        },
        Expr::Between { expr, low, high, .. } => {
            every_value_is_sound(*expr, row, cat, ctes, rows, r);
            every_value_is_sound(*low, row, cat, ctes, rows, r);
            every_value_is_sound(*high, row, cat, ctes, rows, r);
            range_is_sound(e, row, cat, ctes, rows, r);
        },
        Expr::ArraySlice { expr, lower, upper } => {
            every_value_is_sound(*expr, row, cat, ctes, rows, r);
            if let Some(x) = lower {
                every_value_is_sound(*x, row, cat, ctes, rows, r);
            }
            if let Some(x) = upper {
                every_value_is_sound(*x, row, cat, ctes, rows, r);
            }
            slice_is_sound(e, row, cat, ctes, rows, r);
        },
        Expr::Row { fields } => {
            lists_are_sound(fields@, fields@.len() as int, row, cat, ctes, rows, r);
            row_is_sound(e, row, cat, ctes, rows, r);
        },
        Expr::Coalesce { args } => {
            lists_are_sound(args@, args@.len() as int, row, cat, ctes, rows, r);
            coalesce_is_sound(e, row, cat, ctes, rows, r);
        },
        Expr::Greatest { args } => {
            lists_are_sound(args@, args@.len() as int, row, cat, ctes, rows, r);
            greatest_is_sound(e, row, cat, ctes, rows, r);
        },
        Expr::Least { args } => {
            lists_are_sound(args@, args@.len() as int, row, cat, ctes, rows, r);
            least_is_sound(e, row, cat, ctes, rows, r);
        },
        Expr::Call { args, .. } => {
            lists_are_sound(args@, args@.len() as int, row, cat, ctes, rows, r);
            call_is_sound(e, row, cat, ctes, rows, r);
        },
        Expr::InList { expr, items, .. } => {
            every_value_is_sound(*expr, row, cat, ctes, rows, r);
            lists_are_sound(items@, items@.len() as int, row, cat, ctes, rows, r);
            list_test_is_sound(e, row, cat, ctes, rows, r);
        },
        Expr::Case { operand, branches, else_expr } => {
            if let Some(x) = operand {
                every_value_is_sound(*x, row, cat, ctes, rows, r);
            }
            if let Some(x) = else_expr {
                every_value_is_sound(*x, row, cat, ctes, rows, r);
            }
            branch_lists_are_sound(branches@, branches@.len() as int, row, cat, ctes, rows, r);
            case_is_sound(e, row, cat, ctes, rows, r);
        },
        Expr::Literal(_) => literal_is_sound(e, row, cat, ctes, rows, r),
        Expr::Column { .. } => column_is_sound(e, row, cat, ctes, rows, r),
        Expr::ArrayLiteral { .. } => array_is_sound(e, row, cat, ctes, rows, r),
        _ => leaf_is_sound(e, row, cat, ctes, rows, r),
    }
}

/// A bound expression refers only to columns that there are, with their types.
pub proof fn bound_values_stand_within(
    e: Expr,
    row: SchemaView,
    cat: CatalogView,
    ctes: Ctes,
    rows: Seq<SchemaView>,
    r: ReadingsView,
)
    ensures
        expr::bound_value(e, row, cat, ctes, rows, r) matches Ok(x) ==> stands_within(x, row, rows),
{
    every_value_is_sound(e, row, cat, ctes, rows, r);
    value_of_sound(e, row, cat, ctes, rows, r);
}

} // verus!
