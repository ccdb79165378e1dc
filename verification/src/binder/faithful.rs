//! What plans keep of the statements that they are bound from.
use crate::ast::{CteDef, Expr, Identifier, ObjectName, SelectStmt, SetOp, SetOpTail, SetQuantifier};
use crate::binder::{aggregate, bound, names, relation, soundness};
use crate::catalog::CatalogView;
use crate::error::PlanErrorView;
use crate::query::{
    AggregateFunc, LogicalAggregateExprView, LogicalSetOp, LogicalSetQuantifier, QueryPlanView,
};
use crate::schema::SchemaView;
use crate::{query, text};
use vstd::prelude::*;

verus! {

/// Whether a bound set operation is the stated one.
pub open spec fn same_set_op(
    op: SetOp,
    quantifier: SetQuantifier,
    made: LogicalSetOp,
    kept: LogicalSetQuantifier,
) -> bool {
    &&& made is Union <==> op is Union
    &&& made is Intersect <==> op is Intersect
    &&& made is Except <==> op is Except
    &&& kept is All <==> quantifier is All
}

/// An accepted set operation keeps its operator, its quantifier and its sides. It
/// has the types of its left side, except that a side without a type gives way,
/// and any of its columns can be null.
pub proof fn set_operations_keep_their_operator(
    left: QueryPlanView,
    op: SetOp,
    quantifier: SetQuantifier,
    right: QueryPlanView,
)
    ensures
        relation::set_operation(left, op, quantifier, right) matches Ok(p) ==> {
            &&& p matches QueryPlanView::SetOp {
                op: made,
                quantifier: kept,
                left: l,
                right: r,
                schema,
            }
            &&& same_set_op(op, quantifier, made, kept)
            &&& *l == left && *r == right
            &&& forall|i: int|
                0 <= i < schema.fields.len() ==> {
                    let f = #[trigger] schema.fields[i];
                    let a = query::query_schema(left).fields[i].data_type;
                    let b = query::query_schema(right).fields[i].data_type;
                    &&& f.nullable
                    &&& a is Null ==> f.data_type == b
                    &&& b is Null ==> f.data_type == a
                    &&& a is Text || a is Bool || a is Date || a is Timestamp ==> f.data_type == a
                }
        },
{
}

/// Whether a plan is a body under the first `n` set operations of a list, the
/// last outermost, each with what its right side is bound to.
pub open spec fn combines(
    p: QueryPlanView,
    tails: Seq<SetOpTail>,
    n: int,
    body: QueryPlanView,
    cat: CatalogView,
    ctes: Seq<(Seq<char>, SchemaView)>,
    rows: Seq<SchemaView>,
) -> bool
    decreases n,
{
    if n <= 0 {
        p == body
    } else {
        match p {
            QueryPlanView::SetOp { op, quantifier, left, right, .. } => {
                &&& same_set_op(tails[n - 1].op, tails[n - 1].quantifier, op, quantifier)
                &&& bound::bound_select_with_ctes(*tails[n - 1].right, cat, ctes, rows) == Ok::<
                    _,
                    PlanErrorView,
                >(*right)
                &&& combines(*left, tails, n - 1, body, cat, ctes, rows)
            },
            _ => false,
        }
    }
}

proof fn set_operations_combine_on(
    tails: Seq<SetOpTail>,
    i: int,
    left: QueryPlanView,
    body: QueryPlanView,
    cat: CatalogView,
    ctes: Seq<(Seq<char>, SchemaView)>,
    rows: Seq<SchemaView>,
)
    requires
        0 <= i <= tails.len(),
        combines(left, tails, i, body, cat, ctes, rows),
    ensures
        bound::with_set_ops(tails, i, left, cat, ctes, rows) matches Ok(p) ==> combines(
            p,
            tails,
            tails.len() as int,
            body,
            cat,
            ctes,
            rows,
        ),
    decreases tails.len() - i,
{
    if i < tails.len() {
        if let Ok(right) = bound::bound_select_with_ctes(*tails[i].right, cat, ctes, rows) {
            if let Ok(p) = relation::set_operation(
                left,
                tails[i].op,
                tails[i].quantifier,
                right,
            ) {
                set_operations_keep_their_operator(
                    left,
                    tails[i].op,
                    tails[i].quantifier,
                    right,
                );
                assert(combines(p, tails, i + 1, body, cat, ctes, rows));
                set_operations_combine_on(tails, i + 1, p, body, cat, ctes, rows);
            }
        }
    }
}

/// A plan without its first `k` common table expressions.
pub open spec fn below_ctes(p: QueryPlanView, k: int) -> QueryPlanView
    decreases k,
{
    if k <= 0 {
        p
    } else {
        match p {
            QueryPlanView::Cte { body, .. } => below_ctes(*body, k - 1),
            _ => p,
        }
    }
}

proof fn below_ctes_step(p: QueryPlanView, k: int)
    requires
        0 <= k,
    ensures
        below_ctes(p, k) matches QueryPlanView::Cte { body, .. } ==> below_ctes(p, k + 1) == *body,
    decreases k,
{
    if k > 0 {
        if let QueryPlanView::Cte { body, .. } = p {
            below_ctes_step(*body, k - 1);
        }
    } else if let QueryPlanView::Cte { body, .. } = p {
        assert(below_ctes(*body, 0) == *body);
    }
}

proof fn wrapped_plans_are_found(
    plans: Seq<(Seq<char>, bool, QueryPlanView)>,
    n: int,
    body: QueryPlanView,
    k: int,
)
    requires
        0 <= k <= n <= plans.len(),
    ensures
        k == n ==> below_ctes(bound::wrapped_in_ctes(plans, n, body), k) == body,
        k < n ==> {
            &&& below_ctes(
                bound::wrapped_in_ctes(plans, n, body),
                k,
            ) matches QueryPlanView::Cte { name, recursive, definition, .. }
            &&& name == plans[k].0 && recursive == plans[k].1 && *definition == plans[k].2
        },
    decreases n,
{
    if n > 0 {
        let inner = QueryPlanView::Cte {
            name: plans[n - 1].0,
            recursive: plans[n - 1].1,
            definition: Box::new(plans[n - 1].2),
            body: Box::new(body),
            schema: query::query_schema(body),
        };
        if k < n {
            wrapped_plans_are_found(plans, n - 1, inner, k);
        } else {
            wrapped_plans_are_found(plans, n - 1, inner, n - 1);
            below_ctes_step(bound::wrapped_in_ctes(plans, n - 1, inner), n - 1);
        }
    }
}

proof fn ctes_see_those_before(
    defs: Seq<CteDef>,
    i: int,
    ctes: Seq<(Seq<char>, SchemaView)>,
    plans: Seq<(Seq<char>, bool, QueryPlanView)>,
    outer: int,
    cat: CatalogView,
    rows: Seq<SchemaView>,
)
    requires
        0 <= i <= defs.len(),
        plans.len() == i,
        ctes.len() == outer + i,
        0 <= outer,
    ensures
        bound::bound_ctes(defs, i, ctes, plans, cat, rows) matches Ok((visible, made)) ==> {
            &&& made.len() == defs.len()
            &&& visible.len() == outer + defs.len()
            &&& made.take(i) == plans
            &&& visible.take(outer + i) == ctes
            &&& forall|k: int| i <= k < defs.len() ==> #[trigger] cte_follows(
                defs,
                k,
                visible,
                outer,
                made[k],
                cat,
                rows,
            )
        },
    decreases defs.len() - i,
{
    if i < defs.len() {
        if let Ok(p) = bound::bound_select_with_ctes(*defs[i].query, cat, ctes, rows) {
            if let Ok(s) = relation::aliased_schema(
                query::query_schema(p),
                defs[i].column_aliases@,
            ) {
                let name = text::lower(defs[i].name.value@);
                let more = ctes.push((name, s));
                let plans2 = plans.push((name, defs[i].recursive, p));
                ctes_see_those_before(defs, i + 1, more, plans2, outer, cat, rows);
                if let Ok((visible, made)) = bound::bound_ctes(defs, i, ctes, plans, cat, rows) {
                    assert(made.take(i + 1)[i] == made[i]);
                    assert(visible.take(outer + i + 1)[outer + i] == visible[outer + i]);
                    assert(visible.take(outer + i) =~= visible.take(outer + i + 1).take(outer + i));
                    assert(more.take(outer + i) =~= ctes);
                    assert(made.take(i) =~= made.take(i + 1).take(i));
                    assert(plans2.take(i) =~= plans);
                    relation::aliases_keep_types(query::query_schema(p), defs[i].column_aliases@);
                    assert(cte_follows(defs, i, visible, outer, made[i], cat, rows));
                }
            }
        }
    }
}

/// Whether a bound common table expression is the `k`-th of a list. Its query
/// sees the `outer` expressions around the list and those before it, and it is
/// seen under its name in lower case, its columns under the listed names.
pub open spec fn cte_follows(
    defs: Seq<CteDef>,
    k: int,
    visible: Seq<(Seq<char>, SchemaView)>,
    outer: int,
    made: (Seq<char>, bool, QueryPlanView),
    cat: CatalogView,
    rows: Seq<SchemaView>,
) -> bool {
    let seen = visible[outer + k];
    let columns = query::query_schema(made.2).fields;
    let listed = defs[k].column_aliases@;
    &&& bound::bound_select_with_ctes(*defs[k].query, cat, visible.take(outer + k), rows) == Ok::<
        _,
        PlanErrorView,
    >(made.2)
    &&& made.0 == text::lower(defs[k].name.value@)
    &&& made.1 == defs[k].recursive
    &&& seen.0 == made.0
    &&& seen.1.fields.len() == columns.len()
    &&& forall|i: int|
        0 <= i < columns.len() ==> {
            let f = #[trigger] seen.1.fields[i];
            &&& f.data_type == columns[i].data_type && f.nullable == columns[i].nullable
            &&& f.name == if i < listed.len() {
                listed[i].value@
            } else {
                columns[i].name
            }
        }
}

/// The common table expressions of a `SELECT` stand on top of its plan, in
/// order, and each sees those before it. Below them stand its set operations,
/// the last outermost, and below those its body.
pub proof fn selects_are_combined_below_their_ctes(
    s: SelectStmt,
    cat: CatalogView,
    ctes: Seq<(Seq<char>, SchemaView)>,
    rows: Seq<SchemaView>,
)
    ensures
        bound::bound_select_with_ctes(s, cat, ctes, rows) matches Ok(p) ==> exists|
            visible: Seq<(Seq<char>, SchemaView)>,
            body: QueryPlanView,
        | #[trigger]
            select_combines(s, p, visible, body, cat, ctes, rows),
{
    ctes_see_those_before(s.ctes@, 0, ctes, Seq::empty(), ctes.len() as int, cat, rows);
    if let Ok((visible, plans)) = bound::bound_ctes(s.ctes@, 0, ctes, Seq::empty(), cat, rows) {
        if let Ok(body) = bound::bound_body(s, cat, visible, rows) {
            set_operations_combine_on(s.set_ops@, 0, body, body, cat, visible, rows);
            if let Ok(inner) = bound::with_set_ops(s.set_ops@, 0, body, cat, visible, rows) {
                let n = plans.len() as int;
                let p = bound::wrapped_in_ctes(plans, n, inner);
                assert(visible.take(ctes.len() as int) =~= ctes);
                assert forall|k: int| 0 <= k < n implies #[trigger] cte_stands(
                    p,
                    s.ctes@,
                    k,
                    visible,
                    ctes.len() as int,
                    cat,
                    rows,
                ) by {
                    wrapped_plans_are_found(plans, n, inner, k);
                    assert(cte_follows(
                        s.ctes@,
                        k,
                        visible,
                        ctes.len() as int,
                        plans[k],
                        cat,
                        rows,
                    ));
                }
                wrapped_plans_are_found(plans, n, inner, n);
                assert(select_combines(s, p, visible, body, cat, ctes, rows));
            }
        }
    }
}

/// Whether the `k`-th node of a plan is the `k`-th common table expression of a
/// list.
pub open spec fn cte_stands(
    p: QueryPlanView,
    defs: Seq<CteDef>,
    k: int,
    visible: Seq<(Seq<char>, SchemaView)>,
    outer: int,
    cat: CatalogView,
    rows: Seq<SchemaView>,
) -> bool {
    match below_ctes(p, k) {
        QueryPlanView::Cte { name, recursive, definition, .. } => cte_follows(
            defs,
            k,
            visible,
            outer,
            (name, recursive, *definition),
            cat,
            rows,
        ),
        _ => false,
    }
}

/// Whether a plan is that of a `SELECT` whose body is the given plan, with the
/// given common table expressions visible.
pub open spec fn select_combines(
    s: SelectStmt,
    p: QueryPlanView,
    visible: Seq<(Seq<char>, SchemaView)>,
    body: QueryPlanView,
    cat: CatalogView,
    ctes: Seq<(Seq<char>, SchemaView)>,
    rows: Seq<SchemaView>,
) -> bool {
    &&& visible.len() == ctes.len() + s.ctes@.len()
    &&& visible.take(ctes.len() as int) == ctes
    &&& forall|k: int| 0 <= k < s.ctes@.len() ==> #[trigger] cte_stands(
        p,
        s.ctes@,
        k,
        visible,
        ctes.len() as int,
        cat,
        rows,
    )
    &&& bound::bound_body(s, cat, visible, rows) == Ok::<_, PlanErrorView>(body)
    &&& combines(
        below_ctes(p, s.ctes@.len() as int),
        s.set_ops@,
        s.set_ops@.len() as int,
        body,
        cat,
        visible,
        rows,
    )
}

/// Whether an expression occurs in another one, outside of its subqueries.
pub open spec fn occurs(c: Expr, e: Expr) -> bool
    decreases e,
{
    c == e || match e {
        Expr::Paren { expr } => occurs(c, *expr),
        Expr::Unary { expr, .. } => occurs(c, *expr),
        Expr::Binary { left, right, .. } => occurs(c, *left) || occurs(c, *right),
        Expr::IsNull { expr, .. } => occurs(c, *expr),
        Expr::Between { expr, low, high, .. } => occurs(c, *expr) || occurs(c, *low) || occurs(
            c,
            *high,
        ),
        Expr::InSubquery { expr, .. } => occurs(c, *expr),
        Expr::Any { expr, .. } => occurs(c, *expr),
        _ => false,
    }
}

/// Whether a call has no argument, or the argument `*`.
pub open spec fn without_argument(args: Seq<Expr>) -> bool {
    args.len() == 0 || args.len() == 1 && (args[0] matches Expr::Column { name }
        && name.parts@.len() == 1 && name.parts@[0].value@ == "*"@)
}

/// Whether a function is that of a name, up to case. Counting without an argument
/// counts rows.
pub open spec fn function_of(name: Seq<char>, bare: bool, func: AggregateFunc) -> bool {
    let n = text::lower(name);
    match func {
        AggregateFunc::CountStar => n == "count"@ && bare,
        AggregateFunc::Count => n == "count"@ && !bare,
        AggregateFunc::Sum => n == "sum"@,
        AggregateFunc::Avg => n == "avg"@,
        AggregateFunc::Min => n == "min"@,
        AggregateFunc::Max => n == "max"@,
        AggregateFunc::BoolAnd => n == "bool_and"@,
        AggregateFunc::BoolOr => n == "bool_or"@,
        AggregateFunc::StringAgg => n == "string_agg"@,
        AggregateFunc::ArrayAgg => n == "array_agg"@,
        _ => false,
    }
}

/// Whether a planned aggregate is that of a call: it has the function and the
/// `DISTINCT` mark of the call, and its argument is what the first argument of
/// the call is bound to against the rows that are aggregated.
pub open spec fn plans_call(
    a: LogicalAggregateExprView,
    c: Expr,
    input: SchemaView,
    cat: CatalogView,
    rows: Seq<SchemaView>,
) -> bool {
    match c {
        Expr::Call { name, args, distinct, .. } => {
            let bare = without_argument(args@);
            &&& function_of(names::last_part(name), bare, a.func)
            &&& a.distinct == distinct
            &&& a.arg is None <==> bare
            &&& a.arg matches Some(x) ==> bound::bound_expr(args@[0], input, cat, rows) == Ok::<
                _,
                PlanErrorView,
            >(x)
            &&& a.direct_arg is None && a.order_by is None
            &&& returns_type(a.func, a.arg, a.data_type)
        },
        _ => false,
    }
}

/// Whether a type is what an aggregate returns: counts are 64 bits wide,
/// averages are doubles, sums widen, and the smallest and the largest value have
/// the type of the values.
pub open spec fn returns_type(
    func: AggregateFunc,
    arg: Option<query::ScalarExprView>,
    t: crate::datatype::DataTypeView,
) -> bool {
    match func {
        AggregateFunc::Count | AggregateFunc::CountStar => t is Int64,
        AggregateFunc::Avg => t is Float64,
        AggregateFunc::BoolAnd | AggregateFunc::BoolOr => t is Bool,
        AggregateFunc::StringAgg => t is Text,
        AggregateFunc::Min | AggregateFunc::Max => arg matches Some(x) ==> t == query::scalar_type(
            x,
        ),
        AggregateFunc::Sum => arg matches Some(x) ==> {
            let u = query::scalar_type(x);
            &&& u is Int16 || u is Int32 || u is Int64 ==> t is Int64
            &&& u is Float32 || u is Float64 ==> t is Float64
            &&& u is Decimal ==> t == u
        },
        AggregateFunc::ArrayAgg => arg matches Some(x) ==> (
        t matches crate::datatype::DataTypeView::Array(u) && *u == query::scalar_type(x)),
        _ => true,
    }
}

/// A name is that of an aggregate function exactly when it is that of one of
/// the functions, and then of no other one.
pub proof fn aggregate_functions_have_their_names(name: ObjectName, bare: bool)
    ensures
        aggregate::aggregate_of(names::simple_name(name), bare) matches Some(func) ==> function_of(
            names::last_part(name),
            bare,
            func,
        ),
        forall|func: AggregateFunc| #[trigger]
            function_of(names::last_part(name), bare, func) ==> aggregate::aggregate_of(
                names::simple_name(name),
                bare,
            ) == Some(func),
{
    text::lowering_again_changes_nothing(names::last_part(name));
    reveal_strlit("count");
    reveal_strlit("sum");
    reveal_strlit("avg");
    reveal_strlit("min");
    reveal_strlit("max");
    reveal_strlit("bool_and");
    reveal_strlit("bool_or");
    reveal_strlit("string_agg");
    reveal_strlit("array_agg");
    assert("count"@.len() == 5 && "sum"@.len() == 3 && "avg"@.len() == 3);
    assert("min"@.len() == 3 && "max"@.len() == 3 && "bool_and"@.len() == 8);
    assert("bool_or"@.len() == 7 && "string_agg"@.len() == 10 && "array_agg"@.len() == 9);
    assert("sum"@[0] == 's' && "avg"@[0] == 'a' && "min"@[0] == 'm' && "max"@[0] == 'm');
    assert("min"@[1] == 'i' && "max"@[1] == 'a');
}

/// Whether an aggregate of a function and output name is in a list.
pub open spec fn lists_call(
    list: Seq<LogicalAggregateExprView>,
    func: AggregateFunc,
    name: Seq<char>,
) -> bool {
    exists|k: int|
        0 <= k < list.len() && (#[trigger] list[k]).func == func && list[k].output_name == name
}

/// Collecting an aggregate call adds the aggregate that it stands for, under its
/// alias or else under the name of its function. Nothing is added where there is
/// an aggregate of that function and name.
pub proof fn collected_calls_keep_their_marks(
    e: Expr,
    alias: Option<Identifier>,
    input: SchemaView,
    acc: Seq<LogicalAggregateExprView>,
    cat: CatalogView,
    rows: Seq<SchemaView>,
)
    requires
        e is Call,
    ensures
        bound::collected(e, alias, input, acc, cat, rows) matches Ok(more) ==> exists|
            func: AggregateFunc,
        |
            {
                let name = match alias {
                    Some(a) => a.value@,
                    None => text::lower(names::last_part(e->Call_name)),
                };
                &&& #[trigger] function_of(
                    names::last_part(e->Call_name),
                    without_argument(e->Call_args@),
                    func,
                )
                &&& lists_call(acc, func, name) ==> more == acc
                &&& !lists_call(acc, func, name) ==> {
                    &&& more.len() == acc.len() + 1
                    &&& more.drop_last() == acc
                    &&& plans_call(more.last(), e, input, cat, rows)
                    &&& more.last().func == func && more.last().output_name == name
                }
            },
{
    let name = e->Call_name;
    let bare = without_argument(e->Call_args@);
    aggregate_functions_have_their_names(name, bare);
    if let Ok(more) = bound::collected(e, alias, input, acc, cat, rows) {
        let func = aggregate::aggregate_of(names::simple_name(name), bare)->Some_0;
        assert(function_of(names::last_part(name), bare, func));
        if more != acc {
            assert(more.drop_last() =~= acc);
        }
    }
}

/// Whether each aggregate from the `n`-th on is that of a call in an expression.
pub open spec fn calls_stem_from(
    list: Seq<LogicalAggregateExprView>,
    n: int,
    e: Expr,
    input: SchemaView,
    cat: CatalogView,
    rows: Seq<SchemaView>,
) -> bool {
    forall|k: int|
        n <= k < list.len() ==> #[trigger] call_stems_from(list[k], e, input, cat, rows)
}

/// Whether an aggregate is that of a call in an expression.
pub open spec fn call_stems_from(
    a: LogicalAggregateExprView,
    e: Expr,
    input: SchemaView,
    cat: CatalogView,
    rows: Seq<SchemaView>,
) -> bool {
    exists|c: Expr| #[trigger] occurs(c, e) && plans_call(a, c, input, cat, rows)
}

/// Whether a call has an aggregate of its function.
pub open spec fn call_is_listed(list: Seq<LogicalAggregateExprView>, c: Expr) -> bool {
    exists|k: int|
        0 <= k < list.len() && function_of(
            names::last_part(c->Call_name),
            without_argument(c->Call_args@),
            (#[trigger] list[k]).func,
        )
}

/// Whether each call in an expression has an aggregate of its function.
pub open spec fn calls_are_listed(list: Seq<LogicalAggregateExprView>, e: Expr) -> bool {
    forall|c: Expr| #[trigger] occurs(c, e) && c is Call ==> call_is_listed(list, c)
}

proof fn part_is_collected(
    acc: Seq<LogicalAggregateExprView>,
    a: Seq<LogicalAggregateExprView>,
    more: Seq<LogicalAggregateExprView>,
    part: Expr,
    e: Expr,
    input: SchemaView,
    cat: CatalogView,
    rows: Seq<SchemaView>,
)
    requires
        forall|c: Expr| occurs(c, part) ==> occurs(c, e),
        acc.len() <= a.len() <= more.len(),
        a.take(acc.len() as int) == acc,
        more.take(a.len() as int) == a,
        calls_stem_from(a, acc.len() as int, part, input, cat, rows),
        calls_are_listed(a, part),
    ensures
        more.take(acc.len() as int) == acc,
        forall|k: int|
            acc.len() <= k < a.len() ==> #[trigger] call_stems_from(more[k], e, input, cat, rows),
        calls_are_listed(more, part),
{
    assert(more.take(acc.len() as int) =~= more.take(a.len() as int).take(acc.len() as int));
    assert forall|k: int| acc.len() <= k < a.len() implies #[trigger] call_stems_from(
        more[k],
        e,
        input,
        cat,
        rows,
    ) by {
        assert(more.take(a.len() as int)[k] == more[k]);
        assert(call_stems_from(a[k], part, input, cat, rows));
        let c = choose|c: Expr| #[trigger]
            occurs(c, part) && plans_call(a[k], c, input, cat, rows);
        assert(occurs(c, e));
    }
    assert forall|c: Expr| #[trigger] occurs(c, part) && c is Call implies call_is_listed(
        more,
        c,
    ) by {
        assert(call_is_listed(a, c));
        let k = choose|k: int|
            0 <= k < a.len() && function_of(
                names::last_part(c->Call_name),
                without_argument(c->Call_args@),
                (#[trigger] a[k]).func,
            );
        assert(more.take(a.len() as int)[k] == more[k]);
    }
}

/// Collecting the aggregates of an expression adds only aggregates of calls in
/// it, and every call in it has an aggregate of its function then.
pub proof fn collected_calls_are_those_of_the_expression(
    e: Expr,
    alias: Option<Identifier>,
    input: SchemaView,
    acc: Seq<LogicalAggregateExprView>,
    cat: CatalogView,
    rows: Seq<SchemaView>,
)
    ensures
        bound::collected(e, alias, input, acc, cat, rows) matches Ok(more) ==> {
            &&& acc.len() <= more.len() && more.take(acc.len() as int) == acc
            &&& calls_stem_from(more, acc.len() as int, e, input, cat, rows)
            &&& calls_are_listed(more, e)
        },
    decreases e,
{
    soundness::collected_calls_are_distinct(e, alias, input, acc, cat, rows);
    if let Ok(more) = bound::collected(e, alias, input, acc, cat, rows) {
        match e {
            Expr::Call { name, .. } => {
                collected_calls_keep_their_marks(e, alias, input, acc, cat, rows);
                assert(occurs(e, e));
                if more.len() > acc.len() {
                    assert(call_stems_from(more.last(), e, input, cat, rows));
                    assert(more.drop_last().len() == acc.len());
                }
                assert(calls_stem_from(more, acc.len() as int, e, input, cat, rows));
                let bare = without_argument(e->Call_args@);
                let func = choose|func: AggregateFunc|
                    {
                        let name = match alias {
                            Some(a) => a.value@,
                            None => text::lower(names::last_part(e->Call_name)),
                        };
                        &&& #[trigger] function_of(names::last_part(e->Call_name), bare, func)
                        &&& lists_call(acc, func, name) ==> more == acc
                        &&& !lists_call(acc, func, name) ==> {
                            &&& more.len() == acc.len() + 1
                            &&& more.drop_last() == acc
                            &&& plans_call(more.last(), e, input, cat, rows)
                            &&& more.last().func == func && more.last().output_name == name
                        }
                    };
                let label = match alias {
                    Some(a) => a.value@,
                    None => text::lower(names::last_part(e->Call_name)),
                };
                let k = if lists_call(acc, func, label) {
                    choose|k: int|
                        0 <= k < acc.len() && (#[trigger] acc[k]).func == func
                            && acc[k].output_name == label
                } else {
                    acc.len() as int
                };
                assert(more[k].func == func);
                assert(function_of(names::last_part(e->Call_name), bare, more[k].func));
                assert(call_is_listed(more, e));
                assert(calls_are_listed(more, e));
            },
            Expr::Paren { expr } | Expr::Unary { expr, .. } => {
                collected_calls_are_those_of_the_expression(*expr, alias, input, acc, cat, rows);
                assert(more.take(more.len() as int) =~= more);
                part_is_collected(acc, more, more, *expr, e, input, cat, rows);
                assert forall|c: Expr| #[trigger] occurs(c, e) && c is Call implies call_is_listed(
                    more,
                    c,
                ) by {
                    assert(occurs(c, *expr));
                }
            },
            Expr::IsNull { expr, .. }
            | Expr::InSubquery { expr, .. }
            | Expr::Any { expr, .. } => {
                collected_calls_are_those_of_the_expression(*expr, None, input, acc, cat, rows);
                assert(more.take(more.len() as int) =~= more);
                part_is_collected(acc, more, more, *expr, e, input, cat, rows);
                assert forall|c: Expr| #[trigger] occurs(c, e) && c is Call implies call_is_listed(
                    more,
                    c,
                ) by {
                    assert(occurs(c, *expr));
                }
            },
            Expr::Binary { left, right, .. } => {
                collected_calls_are_those_of_the_expression(*left, None, input, acc, cat, rows);
                let a = bound::collected(*left, None, input, acc, cat, rows)->Ok_0;
                collected_calls_are_those_of_the_expression(*right, None, input, a, cat, rows);
                assert(more.take(more.len() as int) =~= more);
                part_is_collected(acc, a, more, *left, e, input, cat, rows);
                part_is_collected(a, more, more, *right, e, input, cat, rows);
                assert forall|c: Expr| #[trigger] occurs(c, e) && c is Call implies call_is_listed(
                    more,
                    c,
                ) by {
                    assert(occurs(c, *left) || occurs(c, *right));
                }
            },
            Expr::Between { expr, low, high, .. } => {
                collected_calls_are_those_of_the_expression(*expr, None, input, acc, cat, rows);
                let a = bound::collected(*expr, None, input, acc, cat, rows)->Ok_0;
                collected_calls_are_those_of_the_expression(*low, None, input, a, cat, rows);
                let b = bound::collected(*low, None, input, a, cat, rows)->Ok_0;
                collected_calls_are_those_of_the_expression(*high, None, input, b, cat, rows);
                assert(more.take(more.len() as int) =~= more);
                assert(more.take(a.len() as int) =~= more.take(b.len() as int).take(
                    a.len() as int,
                ));
                part_is_collected(acc, a, more, *expr, e, input, cat, rows);
                part_is_collected(a, b, more, *low, e, input, cat, rows);
                part_is_collected(b, more, more, *high, e, input, cat, rows);
                assert forall|c: Expr| #[trigger] occurs(c, e) && c is Call implies call_is_listed(
                    more,
                    c,
                ) by {
                    assert(occurs(c, *expr) || occurs(c, *low) || occurs(c, *high));
                }
            },
            _ => {
                assert(more.take(acc.len() as int) =~= acc);
            },
        }
    }
}

} // verus!
