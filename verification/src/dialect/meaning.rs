//! What bound expressions mean.
use crate::ast::{Expr, SelectStmt};
use crate::binder::meaning::Truth;
use crate::binder::meaning;
use crate::binder::bound;
use crate::catalog::CatalogView;
use crate::datatype::DataTypeView;
use crate::dialect::reading::ReadingsView;
use crate::dialect::{coerce, expr, literal, number, operation};
use crate::error::PlanErrorView;
use crate::query::{QueryPlanView, ScalarExprView};
use crate::schema::SchemaView;
use crate::query;
use vstd::prelude::*;

verus! {

/// Whether bound expressions are those of a list, in order.
pub open spec fn binds_each(
    list: Seq<Expr>,
    out: Seq<ScalarExprView>,
    row: SchemaView,
    cat: CatalogView,
    ctes: expr::Ctes,
    rows: Seq<SchemaView>,
    r: ReadingsView,
) -> bool {
    &&& out.len() == list.len()
    &&& forall|k: int|
        0 <= k < list.len() ==> expr::bound_value(list[k], row, cat, ctes, rows, r) == Ok::<
            _,
            PlanErrorView,
        >(#[trigger] out[k])
}

proof fn bound_lists_follow(
    list: Seq<Expr>,
    i: int,
    acc: Seq<ScalarExprView>,
    row: SchemaView,
    cat: CatalogView,
    ctes: expr::Ctes,
    rows: Seq<SchemaView>,
    r: ReadingsView,
)
    requires
        0 <= i <= list.len(),
        acc.len() == i,
        forall|k: int|
            0 <= k < i ==> expr::bound_value(list[k], row, cat, ctes, rows, r) == Ok::<
                _,
                PlanErrorView,
            >(#[trigger] acc[k]),
    ensures
        expr::bound_values(list, i, acc, row, cat, ctes, rows, r) matches Ok(out) ==> binds_each(
            list,
            out,
            row,
            cat,
            ctes,
            rows,
            r,
        ),
    decreases list.len() - i,
{
    if i < list.len() {
        if let Ok(x) = expr::bound_value(list[i], row, cat, ctes, rows, r) {
            bound_lists_follow(list, i + 1, acc.push(x), row, cat, ctes, rows, r);
        }
    }
}

/// The bound expressions of a list follow the list.
pub proof fn lists_are_bound_in_order(
    list: Seq<Expr>,
    row: SchemaView,
    cat: CatalogView,
    ctes: expr::Ctes,
    rows: Seq<SchemaView>,
    r: ReadingsView,
)
    ensures
        expr::bound_values(list, 0, Seq::empty(), row, cat, ctes, rows, r) matches Ok(out)
            ==> binds_each(list, out, row, cat, ctes, rows, r),
{
    bound_lists_follow(list, 0, Seq::empty(), row, cat, ctes, rows, r);
}

/// Whether one of some items is equal to an operand.
pub open spec fn equals_one(x: ScalarExprView, items: Seq<ScalarExprView>, w: Truth) -> bool {
    exists|k: int| 0 <= k < items.len() && (w.order)(x, #[trigger] items[k]) == 0
}

proof fn items_are_tested(
    list: Seq<Expr>,
    i: int,
    acc: Option<ScalarExprView>,
    made: Seq<ScalarExprView>,
    x: ScalarExprView,
    negated: bool,
    row: SchemaView,
    cat: CatalogView,
    ctes: expr::Ctes,
    rows: Seq<SchemaView>,
    r: ReadingsView,
)
    requires
        0 <= i <= list.len(),
        made.len() == i,
        acc is Some <==> i > 0,
        forall|k: int|
            0 <= k < i ==> expr::bound_value(list[k], row, cat, ctes, rows, r) == Ok::<
                _,
                PlanErrorView,
            >(#[trigger] made[k]),
        acc matches Some(t) ==> forall|w: Truth|
            meaning::holds(t, w) <==> negated != #[trigger] equals_one(x, made, w),
    ensures
        expr::bound_items(list, i, acc, x, negated, row, cat, ctes, rows, r) matches Ok(out) ==> {
            &&& out is Some <==> list.len() > 0
            &&& exists|items: Seq<ScalarExprView>|
                {
                    &&& #[trigger] binds_each(list, items, row, cat, ctes, rows, r)
                    &&& out matches Some(t) ==> forall|w: Truth|
                        meaning::holds(t, w) <==> negated != #[trigger] equals_one(x, items, w)
                }
        },
    decreases list.len() - i,
{
    if i < list.len() {
        if let Ok(y) = expr::bound_value(list[i], row, cat, ctes, rows, r) {
            let more = made.push(y);
            let t = operation::with_item(acc, x, y, negated);
            assert forall|w: Truth|
                meaning::holds(t, w) <==> negated != #[trigger] equals_one(x, more, w) by {
                reveal_with_fuel(meaning::holds, 2);
                assert(more[i] == y);
                if equals_one(x, made, w) {
                    let k = choose|k: int|
                        0 <= k < made.len() && (w.order)(x, #[trigger] made[k]) == 0;
                    assert(more[k] == made[k]);
                }
                if equals_one(x, more, w) && (w.order)(x, y) != 0 {
                    let k = choose|k: int|
                        0 <= k < more.len() && (w.order)(x, #[trigger] more[k]) == 0;
                    assert(more[k] == made[k]);
                }
                if let Some(before) = acc {
                    assert(meaning::holds(before, w) <==> negated != equals_one(x, made, w));
                }
            }
            items_are_tested(
                list,
                i + 1,
                Some(t),
                more,
                x,
                negated,
                row,
                cat,
                ctes,
                rows,
                r,
            );
        }
    } else {
        assert(binds_each(list, made, row, cat, ctes, rows, r));
    }
}

/// A bound `x IN (items)` holds exactly for the rows where `x` equals one of the
/// items, a bound `x NOT IN (items)` exactly for those where it differs from all
/// of them. No value is in an empty list.
pub proof fn in_lists_hold_for_their_items(
    e: Expr,
    row: SchemaView,
    cat: CatalogView,
    ctes: expr::Ctes,
    rows: Seq<SchemaView>,
    r: ReadingsView,
)
    requires
        e is InList,
    ensures
        expr::bound_value(e, row, cat, ctes, rows, r) matches Ok(t) ==> {
            &&& expr::bound_value(*e->InList_expr, row, cat, ctes, rows, r) matches Ok(x)
            &&& exists|items: Seq<ScalarExprView>|
                {
                    &&& #[trigger] binds_each(e->InList_items@, items, row, cat, ctes, rows, r)
                    &&& forall|w: Truth|
                        meaning::holds(t, w) <==> e->InList_negated != #[trigger] equals_one(
                            x,
                            items,
                            w,
                        )
                }
        },
{
    if let Ok(t) = expr::bound_value(e, row, cat, ctes, rows, r) {
        let x = expr::bound_value(*e->InList_expr, row, cat, ctes, rows, r)->Ok_0;
        let list = e->InList_items@;
        let negated = e->InList_negated;
        items_are_tested(
            list,
            0,
            None,
            Seq::empty(),
            x,
            negated,
            row,
            cat,
            ctes,
            rows,
            r,
        );
        let made = expr::bound_items(list, 0, None, x, negated, row, cat, ctes, rows, r)->Ok_0;
        let items = choose|items: Seq<ScalarExprView>|
            {
                &&& #[trigger] binds_each(list, items, row, cat, ctes, rows, r)
                &&& made matches Some(t) ==> forall|w: Truth|
                    meaning::holds(t, w) <==> negated != #[trigger] equals_one(x, items, w)
            };
        assert(binds_each(list, items, row, cat, ctes, rows, r));
        assert forall|w: Truth|
            meaning::holds(t, w) <==> negated != #[trigger] equals_one(x, items, w) by {
            if made is None {
                assert(items.len() == 0);
            }
        }
    }
}

/// A `BETWEEN` test holds exactly for the rows whose operand lies between its
/// bounds, in either order of them when it is symmetric. A negated one holds
/// exactly for the other rows. Before an operand is compared with a bound, a
/// literal among the two takes the type of the other.
pub proof fn between_holds_within_bounds(
    x: ScalarExprView,
    low: ScalarExprView,
    high: ScalarExprView,
    negated: bool,
    symmetric: bool,
    r: ReadingsView,
    w: Truth,
)
    ensures
        operation::between(x, low, high, negated, symmetric, r) matches Ok(t) ==> {
            let above_low = compared(x, low, r, w) >= 0;
            let below_high = compared(x, high, r, w) <= 0;
            let above_high = compared(x, high, r, w) >= 0;
            let below_low = compared(x, low, r, w) <= 0;
            meaning::holds(t, w) <==> (negated != (above_low && below_high || symmetric
                && above_high && below_low))
        },
{
    reveal_with_fuel(meaning::holds, 4);
}

/// How an operand and another one are ordered when a literal among the two has
/// taken the type of the other.
pub open spec fn compared(
    x: ScalarExprView,
    y: ScalarExprView,
    r: ReadingsView,
    w: Truth,
) -> int {
    (w.order)(
        coerce::coerced(x, query::scalar_type(y), r),
        coerce::coerced(y, query::scalar_type(x), r),
    )
}

/// A bound `BETWEEN` is the test on what its operands are bound to.
pub proof fn bound_betweens_hold_within_bounds(
    e: Expr,
    row: SchemaView,
    cat: CatalogView,
    ctes: expr::Ctes,
    rows: Seq<SchemaView>,
    r: ReadingsView,
    w: Truth,
)
    requires
        e is Between,
    ensures
        expr::bound_value(e, row, cat, ctes, rows, r) matches Ok(t) ==> {
            &&& expr::bound_value(*e->Between_expr, row, cat, ctes, rows, r) matches Ok(x)
            &&& expr::bound_value(*e->Between_low, row, cat, ctes, rows, r) matches Ok(l)
            &&& expr::bound_value(*e->Between_high, row, cat, ctes, rows, r) matches Ok(h)
            &&& meaning::holds(t, w) <==> (e->Between_negated != (compared(x, l, r, w) >= 0
                && compared(x, h, r, w) <= 0 || e->Between_symmetric && compared(x, h, r, w) >= 0
                && compared(x, l, r, w) <= 0))
        },
{
    if let Ok(t) = expr::bound_value(e, row, cat, ctes, rows, r) {
        let x = expr::bound_value(*e->Between_expr, row, cat, ctes, rows, r)->Ok_0;
        let l = expr::bound_value(*e->Between_low, row, cat, ctes, rows, r)->Ok_0;
        let h = expr::bound_value(*e->Between_high, row, cat, ctes, rows, r)->Ok_0;
        between_holds_within_bounds(x, l, h, e->Between_negated, e->Between_symmetric, r, w);
    }
}

/// Whether the arguments of a call are those of the branches of a `CASE` from the
/// `i`-th on: the condition and then the result of each, from the `at`-th
/// argument on.
pub open spec fn branches_stand(
    list: Seq<(Expr, Expr)>,
    i: int,
    args: Seq<ScalarExprView>,
    at: int,
    row: SchemaView,
    cat: CatalogView,
    ctes: expr::Ctes,
    rows: Seq<SchemaView>,
    r: ReadingsView,
) -> bool {
    forall|k: int| i <= k < list.len() ==> #[trigger] branch_stands(
        list[k],
        args[at + 2 * (k - i)],
        args[at + 2 * (k - i) + 1],
        row,
        cat,
        ctes,
        rows,
        r,
    )
}

/// Whether two arguments are the condition and the result of a branch.
pub open spec fn branch_stands(
    branch: (Expr, Expr),
    when: ScalarExprView,
    result: ScalarExprView,
    row: SchemaView,
    cat: CatalogView,
    ctes: expr::Ctes,
    rows: Seq<SchemaView>,
    r: ReadingsView,
) -> bool {
    &&& expr::bound_value(branch.0, row, cat, ctes, rows, r) == Ok::<_, PlanErrorView>(when)
    &&& expr::bound_value(branch.1, row, cat, ctes, rows, r) == Ok::<_, PlanErrorView>(result)
}

proof fn branches_follow(
    list: Seq<(Expr, Expr)>,
    i: int,
    acc: Seq<ScalarExprView>,
    t: DataTypeView,
    row: SchemaView,
    cat: CatalogView,
    ctes: expr::Ctes,
    rows: Seq<SchemaView>,
    r: ReadingsView,
)
    requires
        0 <= i <= list.len(),
    ensures
        expr::bound_branches(list, i, acc, t, row, cat, ctes, rows, r) matches Ok((args, u)) ==> {
            &&& args.len() == acc.len() + 2 * (list.len() - i)
            &&& args.take(acc.len() as int) == acc
            &&& branches_stand(list, i, args, acc.len() as int, row, cat, ctes, rows, r)
            &&& !(t is Null) ==> u == t
            &&& t is Null ==> (u is Null || exists|k: int|
                i <= k < list.len() && u == query::scalar_type(
                    #[trigger] args[acc.len() + 2 * (k - i) + 1],
                ))
        },
    decreases list.len() - i,
{
    if i < list.len() {
        if let Ok((when, result)) = expr::bound_branch(list[i], row, cat, ctes, rows, r) {
            let more = acc.push(when).push(result);
            let v = expr::first_known(t, query::scalar_type(result));
            branches_follow(list, i + 1, more, v, row, cat, ctes, rows, r);
            if let Ok((args, u)) = expr::bound_branches(
                list,
                i,
                acc,
                t,
                row,
                cat,
                ctes,
                rows,
                r,
            ) {
                let n = acc.len() as int;
                assert(args.take(n) =~= args.take(n + 2).take(n));
                assert(more.take(n) =~= acc);
                assert(args.take(n + 2)[n] == args[n]);
                assert(args.take(n + 2)[n + 1] == args[n + 1]);
                assert forall|k: int| i <= k < list.len() implies #[trigger] branch_stands(
                    list[k],
                    args[n + 2 * (k - i)],
                    args[n + 2 * (k - i) + 1],
                    row,
                    cat,
                    ctes,
                    rows,
                    r,
                ) by {
                    if k > i {
                        assert(n + 2 + 2 * (k - (i + 1)) == n + 2 * (k - i));
                        assert(branch_stands(
                            list[k],
                            args[n + 2 + 2 * (k - (i + 1))],
                            args[n + 2 + 2 * (k - (i + 1)) + 1],
                            row,
                            cat,
                            ctes,
                            rows,
                            r,
                        ));
                    }
                }
                if t is Null && !(u is Null) {
                    if v is Null {
                        let k = choose|k: int|
                            i + 1 <= k < list.len() && u == query::scalar_type(
                                #[trigger] args[more.len() + 2 * (k - (i + 1)) + 1],
                            );
                        assert(more.len() + 2 * (k - (i + 1)) + 1 == n + 2 * (k - i) + 1);
                        assert(u == query::scalar_type(args[n + 2 * (k - i) + 1]));
                    } else {
                        assert(u == query::scalar_type(args[n + 2 * (i - i) + 1]));
                    }
                }
            }
        }
    } else {
        assert(acc.take(acc.len() as int) =~= acc);
    }
}

/// A bound `CASE` has its operand first, where it has one, then the condition and
/// the result of each branch in order, and last its `ELSE`, which is null where
/// there is none.
pub proof fn cases_keep_their_branches(
    e: Expr,
    row: SchemaView,
    cat: CatalogView,
    ctes: expr::Ctes,
    rows: Seq<SchemaView>,
    r: ReadingsView,
)
    requires
        e is Case,
    ensures
        expr::bound_value(e, row, cat, ctes, rows, r) matches Ok(x) ==> {
            let n = e->Case_branches@.len();
            let at: int = if e->Case_operand is Some {
                1
            } else {
                0
            };
            &&& x matches ScalarExprView::FunctionCall { name, args, .. }
            &&& e->Case_operand is Some ==> name == "case_simple"@
            &&& e->Case_operand is None ==> name == "case_searched"@
            &&& args.len() == at + 2 * n + 1
            &&& e->Case_operand matches Some(o) ==> expr::bound_value(
                *o,
                row,
                cat,
                ctes,
                rows,
                r,
            ) == Ok::<_, PlanErrorView>(args[0])
            &&& branches_stand(e->Case_branches@, 0, args, at, row, cat, ctes, rows, r)
            &&& e->Case_else_expr matches Some(o) ==> expr::bound_value(
                *o,
                row,
                cat,
                ctes,
                rows,
                r,
            ) == Ok::<_, PlanErrorView>(args.last())
            &&& e->Case_else_expr is None ==> (args.last() matches ScalarExprView::Literal {
                value,
                data_type,
            } && value is Null && data_type is Null)
        },
{
    if let Ok(x) = expr::bound_value(e, row, cat, ctes, rows, r) {
        let list = e->Case_branches@;
        let start = expr::bound_operand(e->Case_operand, row, cat, ctes, rows, r)->Ok_0;
        branches_follow(list, 0, start, DataTypeView::Null, row, cat, ctes, rows, r);
        let (args, t) = expr::bound_branches(
            list,
            0,
            start,
            DataTypeView::Null,
            row,
            cat,
            ctes,
            rows,
            r,
        )->Ok_0;
        let all = x->FunctionCall_args;
        let otherwise = expr::bound_otherwise(e->Case_else_expr, row, cat, ctes, rows, r)->Ok_0;
        assert(all == args.push(otherwise));
        let at = start.len() as int;
        assert forall|k: int| 0 <= k < list.len() implies #[trigger] branch_stands(
            list[k],
            all[at + 2 * (k - 0)],
            all[at + 2 * (k - 0) + 1],
            row,
            cat,
            ctes,
            rows,
            r,
        ) by {
            assert(branch_stands(
                list[k],
                args[at + 2 * (k - 0)],
                args[at + 2 * (k - 0) + 1],
                row,
                cat,
                ctes,
                rows,
                r,
            ));
        }
        if e->Case_operand is Some {
            assert(args.take(1)[0] == args[0]);
        }
    }
}

/// Whether a plan is what a subquery is bound to below a row.
pub open spec fn subplan_of(
    select: SelectStmt,
    p: QueryPlanView,
    row: SchemaView,
    cat: CatalogView,
    ctes: expr::Ctes,
    rows: Seq<SchemaView>,
) -> bool {
    bound::bound_select_with_ctes(select, cat, ctes, rows.push(row)) == Ok::<_, PlanErrorView>(p)
}

/// Subqueries keep their operand, their query and their negation. What is compared
/// with a subquery is compared with its only column.
pub proof fn subqueries_keep_their_test(
    e: Expr,
    row: SchemaView,
    cat: CatalogView,
    ctes: expr::Ctes,
    rows: Seq<SchemaView>,
    r: ReadingsView,
)
    ensures
        expr::bound_value(e, row, cat, ctes, rows, r) matches Ok(x) ==> match e {
            Expr::Subquery { select } => {
                &&& x matches ScalarExprView::ScalarSubquery { subplan, data_type, .. }
                &&& subplan_of(*select, *subplan, row, cat, ctes, rows)
                &&& query::query_schema(*subplan).fields.len() == 1
                &&& data_type == query::query_schema(*subplan).fields[0].data_type
            },
            Expr::Exists { select, negated } => {
                &&& x matches ScalarExprView::Exists { subplan, negated: kept, .. }
                &&& kept == negated
                &&& subplan_of(*select, *subplan, row, cat, ctes, rows)
            },
            Expr::InSubquery { expr, select, negated } => {
                &&& x matches ScalarExprView::InSubquery { expr: y, subplan, negated: kept, .. }
                &&& kept == negated
                &&& expr::bound_value(*expr, row, cat, ctes, rows, r) == Ok::<_, PlanErrorView>(*y)
                &&& subplan_of(*select, *subplan, row, cat, ctes, rows)
                &&& query::query_schema(*subplan).fields.len() == 1
            },
            Expr::Any { expr, op, select } => {
                &&& op is Eq
                &&& x matches ScalarExprView::InSubquery { expr: y, subplan, negated, .. }
                &&& !negated
                &&& expr::bound_value(*expr, row, cat, ctes, rows, r) == Ok::<_, PlanErrorView>(*y)
                &&& subplan_of(*select, *subplan, row, cat, ctes, rows)
                &&& query::query_schema(*subplan).fields.len() == 1
            },
            Expr::All { .. } => false,
            _ => true,
        },
{
}

/// Whether an expression is a call of a function of a name with two arguments.
pub open spec fn calls2(
    x: ScalarExprView,
    name: Seq<char>,
    a: ScalarExprView,
    b: ScalarExprView,
) -> bool {
    &&& x matches ScalarExprView::FunctionCall { name: called, args, .. }
    &&& called == name && args.len() == 2 && args[0] == a && args[1] == b
}

/// A null test and a test for a truth value keep their operand and their negation.
pub proof fn truth_tests_keep_their_operand(
    e: Expr,
    row: SchemaView,
    cat: CatalogView,
    ctes: expr::Ctes,
    rows: Seq<SchemaView>,
    r: ReadingsView,
)
    requires
        e is IsNull || e is IsBoolean,
    ensures
        expr::bound_value(e, row, cat, ctes, rows, r) matches Ok(x) ==> match e {
            Expr::IsNull { expr, negated } => {
                &&& x matches ScalarExprView::IsNull { expr: y, negated: kept }
                &&& kept == negated
                &&& expr::bound_value(*expr, row, cat, ctes, rows, r) == Ok::<_, PlanErrorView>(*y)
            },
            Expr::IsBoolean { expr, value, is_unknown, negated } => {
                &&& expr::bound_value(*expr, row, cat, ctes, rows, r) matches Ok(y)
                &&& is_unknown ==> (x matches ScalarExprView::IsNull { expr: z, negated: kept }
                    && kept == negated && *z == coerce::coerced(y, DataTypeView::Bool, r))
                &&& !is_unknown ==> {
                    &&& x matches ScalarExprView::FunctionCall { name, args, .. }
                    &&& args.len() == 1 && args[0] == coerce::coerced(y, DataTypeView::Bool, r)
                    &&& value && !negated ==> name == "is_true"@
                    &&& value && negated ==> name == "is_not_true"@
                    &&& !value && !negated ==> name == "is_false"@
                    &&& !value && negated ==> name == "is_not_false"@
                }
            },
            _ => true,
        },
{
}

/// A test for distinctness and `NULLIF` keep their operands, in order, and the
/// negation. Before they are compared, a literal among the two takes the type of
/// the other.
pub proof fn comparing_calls_keep_their_operands(
    e: Expr,
    row: SchemaView,
    cat: CatalogView,
    ctes: expr::Ctes,
    rows: Seq<SchemaView>,
    r: ReadingsView,
)
    requires
        e is IsDistinctFrom || e is NullIf,
    ensures
        expr::bound_value(e, row, cat, ctes, rows, r) matches Ok(x) ==> match e {
            Expr::IsDistinctFrom { left, right, negated } => {
                &&& expr::bound_value(*left, row, cat, ctes, rows, r) matches Ok(a)
                &&& expr::bound_value(*right, row, cat, ctes, rows, r) matches Ok(b)
                &&& calls2(
                    x,
                    if negated {
                        "is_not_distinct_from"@
                    } else {
                        "is_distinct_from"@
                    },
                    coerce::coerced(a, query::scalar_type(b), r),
                    coerce::coerced(b, query::scalar_type(a), r),
                )
            },
            Expr::NullIf { a: left, b: right } => {
                &&& expr::bound_value(*left, row, cat, ctes, rows, r) matches Ok(a)
                &&& expr::bound_value(*right, row, cat, ctes, rows, r) matches Ok(b)
                &&& calls2(
                    x,
                    "nullif"@,
                    coerce::coerced(a, query::scalar_type(b), r),
                    coerce::coerced(b, query::scalar_type(a), r),
                )
            },
            _ => true,
        },
{
}

/// What is taken out of an array, or looked for in it, keeps the array and the
/// operand.
pub proof fn array_accesses_keep_their_operands(
    e: Expr,
    row: SchemaView,
    cat: CatalogView,
    ctes: expr::Ctes,
    rows: Seq<SchemaView>,
    r: ReadingsView,
)
    requires
        e is AnyArray || e is ArraySubscript,
    ensures
        expr::bound_value(e, row, cat, ctes, rows, r) matches Ok(x) ==> match e {
            Expr::AnyArray { expr, op, array } => {
                &&& op is Eq
                &&& expr::bound_value(*expr, row, cat, ctes, rows, r) matches Ok(a)
                &&& expr::bound_value(*array, row, cat, ctes, rows, r) matches Ok(b)
                &&& calls2(x, "__ultrasql_eq_any_array"@, a, b)
                &&& query::scalar_type(b) is Array
            },
            Expr::ArraySubscript { expr, index } => {
                &&& expr::bound_value(*expr, row, cat, ctes, rows, r) matches Ok(a)
                &&& expr::bound_value(*index, row, cat, ctes, rows, r) matches Ok(b)
                &&& calls2(x, "__ultrasql_array_subscript"@, a, b)
                &&& query::scalar_type(a) matches DataTypeView::Array(t) && query::scalar_type(x)
                    == *t
            },
            _ => true,
        },
{
}

proof fn slice_ends_are_bound(
    e: Option<Box<Expr>>,
    row: SchemaView,
    cat: CatalogView,
    ctes: expr::Ctes,
    rows: Seq<SchemaView>,
    r: ReadingsView,
)
    ensures
        expr::bound_slice_end(e, row, cat, ctes, rows, r) matches Ok(x) ==> slice_end(
            e,
            x,
            row,
            cat,
            ctes,
            rows,
            r,
        ),
{
    reveal(slice_end);
}

/// A slice keeps its array and its bounds.
pub proof fn slices_keep_their_bounds(
    e: Expr,
    row: SchemaView,
    cat: CatalogView,
    ctes: expr::Ctes,
    rows: Seq<SchemaView>,
    r: ReadingsView,
)
    requires
        e is ArraySlice,
    ensures
        expr::bound_value(e, row, cat, ctes, rows, r) matches Ok(x) ==> match e {
            Expr::ArraySlice { expr, lower, upper } => {
                &&& expr::bound_value(*expr, row, cat, ctes, rows, r) matches Ok(a)
                &&& x matches ScalarExprView::FunctionCall { name, args, data_type }
                &&& name == "__ultrasql_array_slice"@ && args.len() == 3 && args[0] == a
                &&& data_type == query::scalar_type(a) && data_type is Array
                &&& slice_end(lower, args[1], row, cat, ctes, rows, r)
                &&& slice_end(upper, args[2], row, cat, ctes, rows, r)
            },
            _ => true,
        },
{
    if let Expr::ArraySlice { lower, upper, .. } = e {
        slice_ends_are_bound(lower, row, cat, ctes, rows, r);
        slice_ends_are_bound(upper, row, cat, ctes, rows, r);
    }
}

/// Parentheses and collations leave an expression as it is, a parameter keeps its
/// number, and a point in time is seen from the stated zone.
pub proof fn other_forms_keep_their_operands(
    e: Expr,
    row: SchemaView,
    cat: CatalogView,
    ctes: expr::Ctes,
    rows: Seq<SchemaView>,
    r: ReadingsView,
)
    requires
        e is Paren || e is Collate || e is Parameter || e is AtTimeZone || e is Default,
    ensures
        expr::bound_value(e, row, cat, ctes, rows, r) matches Ok(x) ==> match e {
            Expr::Paren { expr } => expr::bound_value(*expr, row, cat, ctes, rows, r) == Ok::<
                _,
                PlanErrorView,
            >(x),
            Expr::Collate { expr, .. } => {
                &&& expr::bound_value(*expr, row, cat, ctes, rows, r) == Ok::<_, PlanErrorView>(x)
                &&& query::scalar_type(x) is Text || query::scalar_type(x) is Char
            },
            Expr::Parameter { index } => x == (ScalarExprView::Parameter {
                index,
                data_type: DataTypeView::Null,
            }),
            Expr::AtTimeZone { expr, zone } => {
                &&& expr::bound_value(*expr, row, cat, ctes, rows, r) matches Ok(a)
                &&& expr::bound_value(*zone, row, cat, ctes, rows, r) matches Ok(b)
                &&& calls2(
                    x,
                    "timezone"@,
                    coerce::coerced(b, DataTypeView::Text { max_len: None }, r),
                    a,
                )
            },
            Expr::Default => false,
            _ => true,
        },
{
}

/// Whether an argument is a bound of a slice: an integer, and null where there is
/// no bound.
#[verifier::opaque]
pub open spec fn slice_end(
    e: Option<Box<Expr>>,
    x: ScalarExprView,
    row: SchemaView,
    cat: CatalogView,
    ctes: expr::Ctes,
    rows: Seq<SchemaView>,
    r: ReadingsView,
) -> bool {
    match e {
        Some(b) => {
            let t = query::scalar_type(x);
            &&& expr::bound_value(*b, row, cat, ctes, rows, r) == Ok::<_, PlanErrorView>(x)
            &&& t is Int16 || t is Int32 || t is Int64 || t is Null
        },
        None => x matches ScalarExprView::Literal { value, data_type } && value is Null
            && data_type is Null,
    }
}

/// Whether the arguments of a call are those of a list, in order, each coerced to
/// the type of the call.
pub open spec fn chooses(
    x: ScalarExprView,
    name: Seq<char>,
    list: Seq<Expr>,
    row: SchemaView,
    cat: CatalogView,
    ctes: expr::Ctes,
    rows: Seq<SchemaView>,
    r: ReadingsView,
) -> bool {
    &&& x matches ScalarExprView::FunctionCall { name: called, args, data_type }
    &&& called == name
    &&& exists|made: Seq<ScalarExprView>|
        {
            &&& #[trigger] binds_each(list, made, row, cat, ctes, rows, r)
            &&& args.len() == made.len()
            &&& forall|k: int|
                0 <= k < args.len() ==> (#[trigger] args[k]) == coerce::coerced(
                    made[k],
                    data_type,
                    r,
                )
        }
}

/// `COALESCE`, `GREATEST` and `LEAST` keep their function and their arguments, in
/// order. A row keeps its fields.
pub proof fn choices_keep_their_arguments(
    e: Expr,
    row: SchemaView,
    cat: CatalogView,
    ctes: expr::Ctes,
    rows: Seq<SchemaView>,
    r: ReadingsView,
)
    ensures
        expr::bound_value(e, row, cat, ctes, rows, r) matches Ok(x) ==> match e {
            Expr::Coalesce { args } => chooses(x, "coalesce"@, args@, row, cat, ctes, rows, r),
            Expr::Greatest { args } => chooses(x, "greatest"@, args@, row, cat, ctes, rows, r),
            Expr::Least { args } => chooses(x, "least"@, args@, row, cat, ctes, rows, r),
            Expr::Row { fields } => {
                &&& x matches ScalarExprView::FunctionCall { name, args, .. }
                &&& name == "row"@
                &&& binds_each(fields@, args, row, cat, ctes, rows, r)
            },
            _ => true,
        },
{
    if let Ok(x) = expr::bound_value(e, row, cat, ctes, rows, r) {
        match e {
            Expr::Coalesce { args } => {
                choice_is_made("coalesce"@, x, args@, row, cat, ctes, rows, r);
            },
            Expr::Greatest { args } => {
                choice_is_made("greatest"@, x, args@, row, cat, ctes, rows, r);
            },
            Expr::Least { args } => {
                choice_is_made("least"@, x, args@, row, cat, ctes, rows, r);
            },
            Expr::Row { fields } => {
                lists_are_bound_in_order(fields@, row, cat, ctes, rows, r);
            },
            _ => {},
        }
    }
}

proof fn choice_is_made(
    name: Seq<char>,
    x: ScalarExprView,
    list: Seq<Expr>,
    row: SchemaView,
    cat: CatalogView,
    ctes: expr::Ctes,
    rows: Seq<SchemaView>,
    r: ReadingsView,
)
    requires
        expr::bound_values(list, 0, Seq::empty(), row, cat, ctes, rows, r) is Ok,
        operation::choice(
            name,
            expr::bound_values(list, 0, Seq::empty(), row, cat, ctes, rows, r)->Ok_0,
            r,
        ) == Ok::<_, PlanErrorView>(x),
    ensures
        chooses(x, name, list, row, cat, ctes, rows, r),
{
    lists_are_bound_in_order(list, row, cat, ctes, rows, r);
    let made = expr::bound_values(list, 0, Seq::empty(), row, cat, ctes, rows, r)->Ok_0;
    assert(binds_each(list, made, row, cat, ctes, rows, r));
}

} // verus!
