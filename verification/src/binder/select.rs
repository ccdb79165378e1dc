//! Binding of expressions and of `SELECT` statements.
use crate::ast::{
    BinaryOp, CteDef, Distinct, Expr, Identifier, JoinCondition, Literal, NullsOrder, ObjectName,
    OrderItem, SelectItem, SelectStmt, SetOpTail, SortDirection, TableRef,
};
use crate::binder::aggregate::{
    aggregate_return_type, classify_aggregate, expr_has_aggregate, find_call, is_aggregate_name,
    is_collected, is_star_argument, projection_has_aggregate,
};
use crate::binder::names::{last_part_text, object_name_simple, output_column_name};
use crate::binder::relation::{
    apply_column_aliases, bind_set_op, build_unique_schema, build_using_schema, column_of,
    concat_schemas_cross, concat_schemas_for_join, logical_join_type, merge_scopes, move_entries,
    offer_columns,
    output_schema, push_all_columns, push_qualified, resolve_using_pairs, ScopeEntry,
    ScopeEntryView,
};
use crate::binder::typing::{
    bind_literal, comparable, make_between, make_binary, type_error, unary_result_type,
};
use crate::binder::{aggregate, bound, relation};
use crate::catalog::Catalog;
use crate::datatype::DataType;
use crate::error::{schema_or_mismatch, PlanError, PlanErrorView};
use crate::query::{
    query_contains_outer_column, LogicalAggregateExpr, LogicalJoinCondition,
    LogicalJoinConditionView, LogicalJoinType, QueryPlan, QueryPlanView, ScalarExpr, SortKey,
};
use crate::schema::{Field, Schema, SchemaView};
use crate::scope::{ScopeFrame, ScopeStack};
use crate::text::{cat2, cat4, eq_fold, owned, read_u64, show_usize, to_lower};
use crate::{error, query, schema, text};
use vstd::prelude::*;

verus! {

fn find_cte(ctes: &Vec<(String, Schema)>, name: &str) -> (at: Option<usize>)
    ensures
        (match at {
            Some(i) => Some(i as int),
            None => None,
        }) == bound::latest_cte(bound::ctes_view(ctes@), name@, ctes@.len() as int),
        at matches Some(i) ==> i < ctes.len(),
{
    let mut n: usize = ctes.len();
    while n > 0
        invariant
            n <= ctes.len(),
            bound::latest_cte(bound::ctes_view(ctes@), name@, n as int) == bound::latest_cte(
                bound::ctes_view(ctes@),
                name@,
                ctes@.len() as int,
            ),
        decreases n,
    {
        if eq_fold(ctes[n - 1].0.as_str(), name) {
            return Some(n - 1);
        }
        n = n - 1;
    }
    None
}

fn find_relation<C: Catalog>(
    name: &str,
    catalog: &C,
    ctes: &Vec<(String, Schema)>,
) -> (made: Result<
    Schema,
    PlanError,
>)
    ensures
        error::schema_outcome(made) == bound::relation_columns(name@, catalog.model(), bound::ctes_view(ctes@)),
{
    match find_cte(ctes, name) {
        Some(i) => Ok(ctes[i].1.duplicate()),
        None => match catalog.lookup_table(name) {
            Some(meta) => Ok(meta.schema),
            None => Err(PlanError::TableNotFound(owned(name))),
        },
    }
}

/// Resolves a column reference.
pub fn bind_column(name: &ObjectName, input: &Schema, scope: &ScopeStack) -> (made: Result<
    ScalarExpr,
    PlanError,
>)
    ensures
        error::scalar_outcome(made) == bound::bound_column(*name, input@, scope.rows()),
{
    let col = last_part_text(name);
    match input.find(col.as_str()) {
        Some(i) => {
            assert(i < input.fields.len());
            if input.find_after(col.as_str(), i + 1).is_some() {
                Err(PlanError::Ambiguous(col))
            } else {
                Ok(column_of(input, i))
            }
        },
        None => match scope.resolve(col.as_str()) {
            Some(r) => Ok(
                ScalarExpr::OuterColumn {
                    name: col,
                    frame_depth: r.frame_depth,
                    column_index: r.column_index,
                    data_type: r.data_type,
                },
            ),
            None => Err(PlanError::ColumnNotFound(col)),
        },
    }
}

/// The type of the only column of a subquery.
pub fn only_column_type(label: &str, p: &QueryPlan) -> (made: Result<DataType, PlanError>)
    ensures
        error::type_outcome(made) == bound::only_column(label@, p@),
{
    let s = p.schema();
    if s.len() != 1 {
        Err(PlanError::TypeMismatch(cat2(label, show_usize(s.len()).as_str())))
    } else {
        Ok(s.field_at(0).data_type.duplicate())
    }
}

/// Makes the scalar subquery of a plan.
pub fn make_subquery_value(p: QueryPlan) -> (made: Result<ScalarExpr, PlanError>)
    ensures
        error::scalar_outcome(made) == bound::subquery_value(p@),
{
    let data_type = only_column_type("scalar subquery must return exactly 1 column, got ", &p)?;
    let correlated = query_contains_outer_column(&p);
    Ok(ScalarExpr::ScalarSubquery { subplan: Box::new(p), correlated, data_type })
}

/// Makes the membership test of a bound expression in a plan.
pub fn make_membership(
    label: &str,
    lhs: ScalarExpr,
    p: QueryPlan,
    negated: bool,
    check_types: bool,
) -> (made:
    Result<ScalarExpr, PlanError>)
    ensures
        error::scalar_outcome(made) == bound::membership(label@, lhs@, p@, negated, check_types),
{
    let data_type = only_column_type(label, &p)?;
    if check_types {
        let lhs_type = lhs.data_type();
        if !comparable(&lhs_type, &data_type) {
            return Err(
                PlanError::TypeMismatch(
                    cat4(
                        "IN subquery: left type ",
                        lhs_type.sql_name().as_str(),
                        " is not comparable to subquery column type ",
                        data_type.sql_name().as_str(),
                    ),
                ),
            );
        }
    }
    let correlated = query_contains_outer_column(&p);
    Ok(
        ScalarExpr::InSubquery {
            expr: Box::new(lhs),
            subplan: Box::new(p),
            negated,
            correlated,
            data_type,
        },
    )
}

/// Checks that a bound predicate is boolean or null.
pub fn check_predicate(label: &str, e: ScalarExpr) -> (made: Result<ScalarExpr, PlanError>)
    ensures
        error::scalar_outcome(made) == bound::checked_predicate(label@, e@),
{
    let t = e.data_type();
    if t.is_bool() || t.is_null() {
        Ok(e)
    } else {
        Err(type_error(label, &t))
    }
}

/// Binds a subquery of an expression, whose row it can refer to.
fn bind_inner<C: Catalog>(
    select: &SelectStmt,
    input: &Schema,
    catalog: &C,
    scope: &mut ScopeStack,
) -> (made: Result<QueryPlan, PlanError>)
    ensures
        error::query_outcome(made) == bound::bound_select_with_ctes(
            *select,
            catalog.model(),
            Seq::empty(),
            old(scope).rows().push(input@),
        ),
        final(scope).frames@ == old(scope).frames@,
    decreases select, 10int,
{
    scope.push(ScopeFrame { schema: input.duplicate(), qualifier: None });
    let none: Vec<(String, Schema)> = Vec::new();
    assert(bound::ctes_view(none@) =~= Seq::empty());
    let made = bind_select_with_ctes(select, catalog, &none, scope);
    scope.pop();
    assert(scope.frames@ =~= old(scope).frames@);
    made
}

/// Binds an expression against a row.
pub fn bind_expr<C: Catalog>(
    expr: &Expr,
    input: &Schema,
    catalog: &C,
    scope: &mut ScopeStack,
) -> (made:
    Result<ScalarExpr, PlanError>)
    ensures
        error::scalar_outcome(made) == bound::bound_expr(
            *expr,
            input@,
            catalog.model(),
            old(scope).rows(),
        ),
        final(scope).frames@ == old(scope).frames@,
    decreases expr, 1int,
{
    match expr {
        Expr::Literal(lit) => Ok(bind_literal(lit)),
        Expr::Column { name } => bind_column(name, input, scope),
        Expr::Parameter { index } => Ok(
            ScalarExpr::Parameter { index: *index, data_type: DataType::Null },
        ),
        Expr::Paren { expr: inner } => bind_expr(inner, input, catalog, scope),
        Expr::Unary { op, expr: inner } => {
            let operand = bind_expr(inner, input, catalog, scope)?;
            let data_type = unary_result_type(*op, operand.data_type())?;
            Ok(ScalarExpr::Unary { op: *op, expr: Box::new(operand), data_type })
        },
        Expr::Binary { op, left, right } => {
            let l = bind_expr(left, input, catalog, scope)?;
            let r = bind_expr(right, input, catalog, scope)?;
            make_binary(*op, l, r)
        },
        Expr::IsNull { expr: inner, negated } => {
            let operand = bind_expr(inner, input, catalog, scope)?;
            Ok(ScalarExpr::IsNull { expr: Box::new(operand), negated: *negated })
        },
        Expr::Call { name, .. } => {
            let func = object_name_simple(name);
            if is_aggregate_name(func.as_str()) {
                match input.find(func.as_str()) {
                    Some(i) => Ok(column_of(input, i)),
                    None => Err(
                        PlanError::NotSupported("aggregate call outside aggregate context"),
                    ),
                }
            } else {
                Err(PlanError::NotSupported("non-aggregate function calls"))
            }
        },
        Expr::Cast { .. } => Err(PlanError::NotSupported("CAST expressions")),
        Expr::Subquery { select } => {
            let plan = bind_inner(select, input, catalog, scope)?;
            make_subquery_value(plan)
        },
        Expr::Exists { select, negated } => {
            let plan = bind_inner(select, input, catalog, scope)?;
            let correlated = query_contains_outer_column(&plan);
            Ok(ScalarExpr::Exists { subplan: Box::new(plan), negated: *negated, correlated })
        },
        Expr::InSubquery { expr: lhs, select, negated } => {
            let lhs = bind_expr(lhs, input, catalog, scope)?;
            let plan = bind_inner(select, input, catalog, scope)?;
            make_membership(
                "IN subquery must return exactly 1 column, got ",
                lhs,
                plan,
                *negated,
                true,
            )
        },
        Expr::Any { expr: lhs, op, select } => {
            if *op != BinaryOp::Eq {
                return Err(
                    PlanError::NotSupported(
                        "ANY with non-equality operator (only `= ANY` is supported)",
                    ),
                );
            }
            let lhs = bind_expr(lhs, input, catalog, scope)?;
            let plan = bind_inner(select, input, catalog, scope)?;
            make_membership(
                "= ANY subquery must return exactly 1 column, got ",
                lhs,
                plan,
                false,
                false,
            )
        },
        Expr::All { .. } => Err(
            PlanError::NotSupported("ALL subquery expressions are not supported"),
        ),
        Expr::Between { expr: subject, low, high, negated, symmetric } => {
            let e = bind_expr(subject, input, catalog, scope)?;
            let l = bind_expr(low, input, catalog, scope)?;
            let h = bind_expr(high, input, catalog, scope)?;
            make_between(e, l, h, *negated, *symmetric)
        },
        _ => Err(PlanError::NotSupported("expression variant")),
    }
}

/// Binds a list of expressions in order.
pub fn bind_exprs<C: Catalog>(
    list: &Vec<Expr>,
    input: &Schema,
    catalog: &C,
    scope: &mut ScopeStack,
) -> (made: Result<Vec<ScalarExpr>, PlanError>)
    ensures
        error::scalars_outcome(made) == bound::bound_exprs(
            list@,
            0,
            Seq::empty(),
            input@,
            catalog.model(),
            old(scope).rows(),
        ),
        final(scope).frames@ == old(scope).frames@,
    decreases list, 1int,
{
    let mut out: Vec<ScalarExpr> = Vec::new();
    assert(query::scalars_view(out@) =~= Seq::empty());
    let mut i: usize = 0;
    while i < list.len()
        invariant
            i <= list.len(),
            scope.frames@ == old(scope).frames@,
            bound::bound_exprs(
                list@,
                i as int,
                query::scalars_view(out@),
                input@,
                catalog.model(),
                old(scope).rows(),
            ) == bound::bound_exprs(
                list@,
                0,
                Seq::empty(),
                input@,
                catalog.model(),
                old(scope).rows(),
            ),
        decreases list.len() - i,
    {
        let e = bind_expr(&list[i], input, catalog, scope)?;
        proof {
            query::lemma_scalars_push(out@, e);
        }
        out.push(e);
        i = i + 1;
    }
    Ok(out)
}

/// Binds a `SELECT` statement.
pub fn bind_select<C: Catalog>(select: &SelectStmt, catalog: &C, scope: &mut ScopeStack) -> (made:
    Result<QueryPlan, PlanError>)
    ensures
        error::query_outcome(made) == bound::bound_select(*select, catalog.model(), old(scope).rows()),
        final(scope).frames@ == old(scope).frames@,
{
    if !allows_duplicates(&select.distinct) {
        return Err(PlanError::NotSupported("SELECT DISTINCT"));
    }
    let none: Vec<(String, Schema)> = Vec::new();
    assert(bound::ctes_view(none@) =~= Seq::empty());
    bind_select_with_ctes(select, catalog, &none, scope)
}

fn allows_duplicates(d: &Distinct) -> (yes: bool)
    ensures
        yes == bound::keeps_duplicates(*d),
{
    matches!(d, Distinct::Absent | Distinct::All)
}

/// The plans of common table expressions.
pub open spec fn cte_plans_view(s: Seq<(String, bool, QueryPlan)>) -> Seq<
    (Seq<char>, bool, QueryPlanView),
> {
    Seq::new(s.len(), |i: int| (s[i].0@, s[i].1, s[i].2@))
}

/// Common table expressions with their outcome as models.
pub open spec fn ctes_outcome(
    r: Result<(Vec<(String, Schema)>, Vec<(String, bool, QueryPlan)>), PlanError>,
) -> Result<
    (Seq<(Seq<char>, SchemaView)>, Seq<(Seq<char>, bool, QueryPlanView)>),
    PlanErrorView,
> {
    match r {
        Ok((ctes, plans)) => Ok((bound::ctes_view(ctes@), cte_plans_view(plans@))),
        Err(e) => Err(e@),
    }
}

fn duplicate_ctes(ctes: &Vec<(String, Schema)>) -> (copy: Vec<(String, Schema)>)
    ensures
        bound::ctes_view(copy@) == bound::ctes_view(ctes@),
{
    let mut copy: Vec<(String, Schema)> = Vec::new();
    let mut i: usize = 0;
    while i < ctes.len()
        invariant
            i <= ctes.len(),
            copy.len() == i,
            forall|j: int|
                0 <= j < i ==> (#[trigger] copy@[j]).0@ == ctes@[j].0@ && copy@[j].1@
                    == ctes@[j].1@,
        decreases ctes.len() - i,
    {
        copy.push((ctes[i].0.clone(), ctes[i].1.duplicate()));
        i = i + 1;
    }
    assert(bound::ctes_view(copy@) =~= bound::ctes_view(ctes@));
    copy
}

fn bind_ctes<C: Catalog>(
    defs: &Vec<CteDef>,
    catalog: &C,
    outer: &Vec<(String, Schema)>,
    scope: &mut ScopeStack,
) -> (made: Result<(Vec<(String, Schema)>, Vec<(String, bool, QueryPlan)>), PlanError>)
    ensures
        ctes_outcome(made) == bound::bound_ctes(
            defs@,
            0,
            bound::ctes_view(outer@),
            Seq::empty(),
            catalog.model(),
            old(scope).rows(),
        ),
        final(scope).frames@ == old(scope).frames@,
    decreases defs, 1int,
{
    let mut ctes = duplicate_ctes(outer);
    let mut plans: Vec<(String, bool, QueryPlan)> = Vec::new();
    assert(cte_plans_view(plans@) =~= Seq::empty());
    let mut i: usize = 0;
    while i < defs.len()
        invariant
            i <= defs.len(),
            scope.frames@ == old(scope).frames@,
            bound::bound_ctes(
                defs@,
                i as int,
                bound::ctes_view(ctes@),
                cte_plans_view(plans@),
                catalog.model(),
                old(scope).rows(),
            ) == bound::bound_ctes(
                defs@,
                0,
                bound::ctes_view(outer@),
                Seq::empty(),
                catalog.model(),
                old(scope).rows(),
            ),
        decreases defs.len() - i,
    {
        let plan = bind_select_with_ctes(&defs[i].query, catalog, &ctes, scope)?;
        let columns = apply_column_aliases(plan.schema(), &defs[i].column_aliases)?;
        let name = to_lower(defs[i].name.value.as_str());
        let ghost before = ctes@;
        let ghost plans_before = plans@;
        ctes.push((name.clone(), columns));
        plans.push((name, defs[i].recursive, plan));
        proof {
            assert(bound::ctes_view(ctes@) =~= bound::ctes_view(before).push((name@, columns@)));
            assert(cte_plans_view(plans@) =~= cte_plans_view(plans_before).push(
                (name@, defs@[i as int].recursive, plan@),
            ));
        }
        i = i + 1;
    }
    Ok((ctes, plans))
}

fn bind_set_ops<C: Catalog>(
    tails: &Vec<SetOpTail>,
    first: QueryPlan,
    catalog: &C,
    ctes: &Vec<(String, Schema)>,
    scope: &mut ScopeStack,
) -> (made: Result<QueryPlan, PlanError>)
    ensures
        error::query_outcome(made) == bound::with_set_ops(
            tails@,
            0,
            first@,
            catalog.model(),
            bound::ctes_view(ctes@),
            old(scope).rows(),
        ),
        final(scope).frames@ == old(scope).frames@,
    decreases tails, 1int,
{
    let mut plan = first;
    let mut i: usize = 0;
    while i < tails.len()
        invariant
            i <= tails.len(),
            scope.frames@ == old(scope).frames@,
            bound::with_set_ops(
                tails@,
                i as int,
                plan@,
                catalog.model(),
                bound::ctes_view(ctes@),
                old(scope).rows(),
            ) == bound::with_set_ops(
                tails@,
                0,
                first@,
                catalog.model(),
                bound::ctes_view(ctes@),
                old(scope).rows(),
            ),
        decreases tails.len() - i,
    {
        let right = bind_select_with_ctes(&tails[i].right, catalog, ctes, scope)?;
        plan = bind_set_op(plan, tails[i].op, tails[i].quantifier, right)?;
        i = i + 1;
    }
    Ok(plan)
}

fn wrap_in_ctes(plans: Vec<(String, bool, QueryPlan)>, body: QueryPlan) -> (plan: QueryPlan)
    ensures
        plan@ == bound::wrapped_in_ctes(
            cte_plans_view(plans@),
            plans@.len() as int,
            body@,
        ),
{
    let ghost all = cte_plans_view(plans@);
    let mut rest = plans;
    let mut plan = body;
    while rest.len() > 0
        invariant
            rest.len() <= all.len(),
            forall|j: int|
                0 <= j < rest.len() ==> ((#[trigger] rest@[j]).0@, rest@[j].1, rest@[j].2@)
                    == all[j],
            bound::wrapped_in_ctes(all, rest.len() as int, plan@) == bound::wrapped_in_ctes(
                all,
                all.len() as int,
                body@,
            ),
        decreases rest.len(),
    {
        let ghost n = rest.len() as int;
        match rest.pop() {
            Some(last) => {
                let schema = plan.schema().duplicate();
                plan = QueryPlan::Cte {
                    name: last.0,
                    recursive: last.1,
                    definition: Box::new(last.2),
                    body: Box::new(plan),
                    schema,
                };
            },
            None => {
            },
        }
    }
    plan
}

/// Binds a `SELECT` where the given common table expressions are visible.
pub fn bind_select_with_ctes<C: Catalog>(
    select: &SelectStmt,
    catalog: &C,
    outer: &Vec<(String, Schema)>,
    scope: &mut ScopeStack,
) -> (made: Result<QueryPlan, PlanError>)
    ensures
        error::query_outcome(made) == bound::bound_select_with_ctes(
            *select,
            catalog.model(),
            bound::ctes_view(outer@),
            old(scope).rows(),
        ),
        final(scope).frames@ == old(scope).frames@,
    decreases select, 9int,
{
    let (ctes, plans) = bind_ctes(&select.ctes, catalog, outer, scope)?;
    let body = bind_select_body(select, catalog, &ctes, scope)?;
    let plan = bind_set_ops(&select.set_ops, body, catalog, &ctes, scope)?;
    Ok(wrap_in_ctes(plans, plan))
}

/// Puts an optional filter above a plan.
pub fn bind_filter<C: Catalog>(
    label: &str,
    plan: QueryPlan,
    predicate: &Option<Expr>,
    catalog: &C,
    scope: &mut ScopeStack,
) -> (made: Result<QueryPlan, PlanError>)
    ensures
        error::query_outcome(made) == bound::filtered(
            label@,
            plan@,
            *predicate,
            catalog.model(),
            old(scope).rows(),
        ),
        final(scope).frames@ == old(scope).frames@,
    decreases predicate, 2int,
{
    match predicate {
        None => Ok(plan),
        Some(e) => {
            let bound = bind_expr(e, plan.schema(), catalog, scope)?;
            let predicate = check_predicate(label, bound)?;
            Ok(QueryPlan::Filter { input: Box::new(plan), predicate })
        },
    }
}

/// Makes a sort key of a bound expression. Nulls come last unless stated
/// otherwise or the order is descending.
pub fn sort_key(expr: ScalarExpr, direction: SortDirection, nulls: NullsOrder) -> (key: SortKey)
    ensures
        key@ == (query::SortKeyView {
            expr: expr@,
            asc: direction is Asc,
            nulls_first: bound::sorts_nulls_first(direction, nulls),
        }),
{
    let asc = matches!(direction, SortDirection::Asc);
    let nulls_first = match nulls {
        NullsOrder::First => true,
        NullsOrder::Last => false,
        NullsOrder::Default => !asc,
    };
    SortKey { expr, asc, nulls_first }
}

/// Binds the keys of an `ORDER BY` clause.
pub fn bind_order_by<C: Catalog>(
    items: &Vec<OrderItem>,
    input: &Schema,
    catalog: &C,
    scope: &mut ScopeStack,
) -> (made: Result<Vec<SortKey>, PlanError>)
    ensures
        (match made {
            Ok(keys) => Ok(query::sort_keys_view(keys@)),
            Err(e) => Err(e@),
        }) == bound::bound_order_by(
            items@,
            0,
            Seq::empty(),
            input@,
            catalog.model(),
            old(scope).rows(),
        ),
        final(scope).frames@ == old(scope).frames@,
    decreases items, 1int,
{
    let mut keys: Vec<SortKey> = Vec::new();
    assert(query::sort_keys_view(keys@) =~= Seq::empty());
    let mut i: usize = 0;
    while i < items.len()
        invariant
            i <= items.len(),
            scope.frames@ == old(scope).frames@,
            bound::bound_order_by(
                items@,
                i as int,
                query::sort_keys_view(keys@),
                input@,
                catalog.model(),
                old(scope).rows(),
            ) == bound::bound_order_by(
                items@,
                0,
                Seq::empty(),
                input@,
                catalog.model(),
                old(scope).rows(),
            ),
        decreases items.len() - i,
    {
        let expr = bind_expr(&items[i].expr, input, catalog, scope)?;
        let key = sort_key(expr, items[i].direction, items[i].nulls);
        proof {
            query::lemma_sort_keys_push(keys@, key);
        }
        keys.push(key);
        i = i + 1;
    }
    Ok(keys)
}

fn project<C: Catalog>(
    plan: QueryPlan,
    outs: Vec<(ScalarExpr, String)>,
    order_by: &Vec<OrderItem>,
    catalog: &C,
    scope: &mut ScopeStack,
) -> (made: Result<QueryPlan, PlanError>)
    ensures
        error::query_outcome(made) == bound::projected(
            plan@,
            query::outputs_view(outs@),
            order_by@,
            catalog.model(),
            old(scope).rows(),
        ),
        final(scope).frames@ == old(scope).frames@,
    decreases order_by, 2int,
{
    proof {
        reveal_with_fuel(QueryPlan::view, 3);
    }
    let schema = output_schema("projection: ", &outs)?;
    let keys = bind_order_by(order_by, plan.schema(), catalog, scope)?;
    let input = if keys.len() > 0 {
        QueryPlan::Sort { input: Box::new(plan), keys }
    } else {
        plan
    };
    Ok(QueryPlan::Project { input: Box::new(input), exprs: outs, schema })
}

/// Reads the row count of a `LIMIT` or `OFFSET` clause.
pub fn bind_unsigned_literal(expr: &Expr, label: &str) -> (made: Result<u64, PlanError>)
    ensures
        error::outcome(made) == bound::stated_count(*expr, label@),
    decreases expr,
{
    match expr {
        Expr::Literal(Literal::Integer { text }) => match read_u64(text.as_str()) {
            Some(n) => Ok(n),
            None => Err(
                PlanError::TypeMismatch(
                    cat4(label, " must be a non-negative integer, got '", text.as_str(), "'"),
                ),
            ),
        },
        Expr::Paren { expr: inner } => bind_unsigned_literal(inner, label),
        _ => Err(PlanError::NotSupported("non-literal LIMIT/OFFSET expressions")),
    }
}

fn bind_limit(plan: QueryPlan, limit: &Option<Expr>, offset: &Option<Expr>) -> (made: Result<
    QueryPlan,
    PlanError,
>)
    ensures
        error::query_outcome(made) == bound::limited(plan@, *limit, *offset),
{
    let n = match limit {
        Some(e) => Some(bind_unsigned_literal(e, "LIMIT")?),
        None => None,
    };
    let offset = match offset {
        Some(e) => bind_unsigned_literal(e, "OFFSET")?,
        None => 0,
    };
    match n {
        Some(n) => Ok(QueryPlan::Limit { input: Box::new(plan), n, offset }),
        None => if offset != 0 {
            Ok(QueryPlan::Limit { input: Box::new(plan), n: u64::MAX, offset })
        } else {
            Ok(plan)
        },
    }
}

/// Binds a `SELECT` without its common table expressions and set operations.
pub fn bind_select_body<C: Catalog>(
    select: &SelectStmt,
    catalog: &C,
    ctes: &Vec<(String, Schema)>,
    scope: &mut ScopeStack,
) -> (made: Result<QueryPlan, PlanError>)
    ensures
        error::query_outcome(made) == bound::bound_body(
            *select,
            catalog.model(),
            bound::ctes_view(ctes@),
            old(scope).rows(),
        ),
        final(scope).frames@ == old(scope).frames@,
    decreases select, 8int,
{
    if !allows_duplicates(&select.distinct) {
        return Err(PlanError::NotSupported("SELECT DISTINCT"));
    }
    let (source, entries) = bind_from(&select.from, catalog, ctes, scope)?;
    let plan = bind_filter(
        "WHERE predicate must be boolean, got ",
        source,
        &select.where_clause,
        catalog,
        scope,
    )?;
    let plan = bind_output(select, plan, &entries, catalog, scope)?;
    bind_limit(plan, &select.limit, &select.offset)
}

fn bind_output<C: Catalog>(
    select: &SelectStmt,
    plan: QueryPlan,
    entries: &Vec<ScopeEntry>,
    catalog: &C,
    scope: &mut ScopeStack,
) -> (made: Result<QueryPlan, PlanError>)
    ensures
        error::query_outcome(made) == bound::bound_output(
            *select,
            plan@,
            relation::entries_view(entries@),
            catalog.model(),
            old(scope).rows(),
        ),
        final(scope).frames@ == old(scope).frames@,
    decreases select, 7int,
{
    let having_aggregates = match &select.having {
        Some(e) => expr_has_aggregate(e),
        None => false,
    };
    if select.group_by.len() > 0 || projection_has_aggregate(&select.projection)
        || having_aggregates {
        let grouped = bind_aggregate(select, plan, catalog, scope)?;
        let aggs = copy_aggregates(&grouped);
        let groups: usize = select.group_by.len();
        let plan = filter_groups(grouped, &select.having, groups, &aggs, catalog, scope)?;
        let outs = bind_projection_agg(
            &select.projection,
            plan.schema(),
            groups,
            &aggs,
            catalog,
            scope,
        )?;
        project(plan, outs, &select.order_by, catalog, scope)
    } else {
        let outs = bind_projection_with_scope(
            &select.projection,
            plan.schema(),
            entries,
            catalog,
            scope,
        )?;
        project(plan, outs, &select.order_by, catalog, scope)
    }
}

/// A `FROM` clause with its outcome as models.
pub open spec fn from_outcome(r: Result<(QueryPlan, Vec<ScopeEntry>), PlanError>) -> Result<
    (QueryPlanView, Seq<ScopeEntryView>),
    PlanErrorView,
> {
    match r {
        Ok((p, entries)) => Ok((p@, relation::entries_view(entries@))),
        Err(e) => Err(e@),
    }
}

/// Binds a `FROM` list: items separated by commas are cross-joined.
pub fn bind_from<C: Catalog>(
    items: &Vec<TableRef>,
    catalog: &C,
    ctes: &Vec<(String, Schema)>,
    scope: &mut ScopeStack,
) -> (made: Result<(QueryPlan, Vec<ScopeEntry>), PlanError>)
    ensures
        from_outcome(made) == bound::bound_from(
            items@,
            catalog.model(),
            bound::ctes_view(ctes@),
            old(scope).rows(),
        ),
        made matches Ok((p, entries)) ==> relation::stand_within(
            relation::entries_view(entries@),
            query::query_schema(p@).fields.len(),
        ),
        final(scope).frames@ == old(scope).frames@,
    decreases items, 1int,
{
    if items.len() == 0 {
        let entries: Vec<ScopeEntry> = Vec::new();
        assert(relation::entries_view(entries@) =~= Seq::empty());
        return Ok((QueryPlan::Empty { schema: Schema::empty() }, entries));
    }
    let (first, first_entries) = bind_table_ref(&items[0], catalog, ctes, scope)?;
    let mut plan = first;
    let mut entries = first_entries;
    let mut i: usize = 1;
    while i < items.len()
        invariant
            1 <= i <= items.len(),
            scope.frames@ == old(scope).frames@,
            relation::stand_within(
                relation::entries_view(entries@),
                query::query_schema(plan@).fields.len(),
            ),
            bound::cross_joined(
                items@,
                i as int,
                plan@,
                relation::entries_view(entries@),
                catalog.model(),
                bound::ctes_view(ctes@),
                old(scope).rows(),
            ) == bound::bound_from(
                items@,
                catalog.model(),
                bound::ctes_view(ctes@),
                old(scope).rows(),
            ),
        decreases items.len() - i,
    {
        let (right, more) = bind_table_ref(&items[i], catalog, ctes, scope)?;
        let schema = concat_schemas_cross(plan.schema(), right.schema())?;
        let left_len: usize = plan.schema().len();
        entries = merge_joined(entries, more, left_len, right.schema(), &schema);
        plan =
        make_join(plan, right, LogicalJoinType::Cross, LogicalJoinCondition::Absent, schema);
        i = i + 1;
    }
    Ok((plan, entries))
}

/// Puts the columns of a subquery under the given schema.
pub fn rebuild_subquery_plan(inner: QueryPlan, columns: &Schema) -> (made: Result<
    QueryPlan,
    PlanError,
>)
    ensures
        error::query_outcome(made) == bound::renamed_subquery(inner@, columns@),
{
    let mut exprs: Vec<(ScalarExpr, String)> = Vec::new();
    assert(query::outputs_view(exprs@) =~= Seq::empty());
    push_all_columns(columns, &mut exprs);
    assert(query::outputs_view(exprs@) =~= relation::all_columns(columns@));
    let copy = columns.duplicate();
    let schema = schema_or_mismatch("subquery alias schema: ", copy.fields)?;
    Ok(QueryPlan::Project { input: Box::new(inner), exprs, schema })
}

/// Binds one item of a `FROM` list.
pub fn bind_table_ref<C: Catalog>(
    table: &TableRef,
    catalog: &C,
    ctes: &Vec<(String, Schema)>,
    scope: &mut ScopeStack,
) -> (made: Result<(QueryPlan, Vec<ScopeEntry>), PlanError>)
    ensures
        from_outcome(made) == bound::bound_table_ref(
            *table,
            catalog.model(),
            bound::ctes_view(ctes@),
            old(scope).rows(),
        ),
        made matches Ok((p, entries)) ==> relation::stand_within(
            relation::entries_view(entries@),
            query::query_schema(p@).fields.len(),
        ),
        final(scope).frames@ == old(scope).frames@,
    decreases table, 1int,
{
    match table {
        TableRef::Named { name, alias } => {
            let table = object_name_simple(name);
            let schema = find_relation(table.as_str(), catalog, ctes)?;
            let entries = match alias {
                Some(a) => offer_columns(a.value.as_str(), &schema),
                None => offer_columns(table.as_str(), &schema),
            };
            Ok((QueryPlan::Scan { table, schema, projection: None }, entries))
        },
        TableRef::Subquery { select, alias, column_aliases } => {
            let inner = bind_select_with_ctes(select, catalog, ctes, scope)?;
            let columns = apply_column_aliases(inner.schema(), column_aliases)?;
            let plan = rebuild_subquery_plan(inner, &columns)?;
            Ok((plan, offer_columns(alias.value.as_str(), &columns)))
        },
        TableRef::Join { left, op, right, condition } => {
            let (l, left_entries) = bind_table_ref(left, catalog, ctes, scope)?;
            let (r, right_entries) = bind_table_ref(right, catalog, ctes, scope)?;
            let plan = bind_explicit_join(
                condition,
                l,
                r,
                logical_join_type(*op),
                catalog,
                scope,
            )?;
            match plan {
                QueryPlan::Join { left, right, join_type, condition, schema } => {
                    let entries = offer_joined(
                        left_entries,
                        right_entries,
                        &left,
                        &right,
                        join_type,
                        &condition,
                        &schema,
                    );
                    Ok((QueryPlan::Join { left, right, join_type, condition, schema }, entries))
                },
                other => Ok((other, left_entries)),
            }
        },
    }
}

/// The columns of two `FROM` items in the row of their plain join.
fn merge_joined(
    left: Vec<ScopeEntry>,
    right: Vec<ScopeEntry>,
    left_len: usize,
    right_row: &Schema,
    row: &Schema,
) -> (out: Vec<ScopeEntry>)
    requires
        relation::stand_within(relation::entries_view(left@), left_len as nat),
        relation::stand_within(relation::entries_view(right@), right_row@.fields.len()),
        row@.fields.len() == left_len + right_row@.fields.len(),
    ensures
        relation::entries_view(out@) == relation::merged_entries(
            relation::entries_view(left@),
            relation::entries_view(right@),
            left_len as nat,
        ),
        relation::stand_within(relation::entries_view(out@), row@.fields.len()),
{
    assert forall|i: int| 0 <= i < right@.len() implies (#[trigger] right@[i]).field_index + left_len
        <= usize::MAX by {
        assert(relation::entries_view(right@)[i].field_index < right_row@.fields.len());
        assert(row@.fields.len() <= row.fields.len());
    }
    let ghost more = relation::entries_view(right@);
    let ghost first = relation::entries_view(left@);
    let out = merge_scopes(left, right, left_len);
    assert forall|i: int| 0 <= i < relation::entries_view(out@).len() implies (
    #[trigger] relation::entries_view(out@)[i]).field_index < row@.fields.len() by {
        if i < first.len() {
            assert(relation::entries_view(out@)[i] == first[i]);
        } else {
            assert(more[i - first.len()].field_index < right_row@.fields.len());
        }
    }
    out
}

/// Whether a plan joins two plans into a row of their columns.
spec fn joins_rows(p: QueryPlanView, l: QueryPlanView, r: QueryPlanView) -> bool {
    let ls = query::query_schema(l);
    let rs = query::query_schema(r);
    match p {
        QueryPlanView::Join { left, right, join_type, condition, schema } => {
            &&& *left == l
            &&& *right == r
            &&& match condition {
                LogicalJoinConditionView::Using(pairs) => schema.fields == relation::using_fields(
                    ls,
                    rs,
                    pairs,
                    join_type,
                ),
                _ => schema.fields.len() == ls.fields.len() + rs.fields.len(),
            }
        },
        _ => false,
    }
}

/// The columns that a join of two `FROM` items offers.
fn offer_joined(
    left_entries: Vec<ScopeEntry>,
    right_entries: Vec<ScopeEntry>,
    left: &QueryPlan,
    right: &QueryPlan,
    join_type: LogicalJoinType,
    condition: &LogicalJoinCondition,
    row: &Schema,
) -> (out: Vec<ScopeEntry>)
    requires
        relation::stand_within(
            relation::entries_view(left_entries@),
            query::query_schema(left@).fields.len(),
        ),
        relation::stand_within(
            relation::entries_view(right_entries@),
            query::query_schema(right@).fields.len(),
        ),
        joins_rows(
            QueryPlanView::Join {
                left: Box::new(left@),
                right: Box::new(right@),
                join_type,
                condition: condition@,
                schema: row@,
            },
            left@,
            right@,
        ),
    ensures
        relation::entries_view(out@) == bound::joined_entries(
            relation::entries_view(left_entries@),
            relation::entries_view(right_entries@),
            query::query_schema(left@).fields.len(),
            QueryPlanView::Join {
                left: Box::new(left@),
                right: Box::new(right@),
                join_type,
                condition: condition@,
                schema: row@,
            },
        ),
        relation::stand_within(relation::entries_view(out@), row@.fields.len()),
{
    let left_len: usize = left.schema().len();
    match condition {
        LogicalJoinCondition::Using(pairs) => {
            let ghost ls = query::query_schema(left@);
            let ghost rs = query::query_schema(right@);
            let ghost le = relation::entries_view(left_entries@);
            let ghost re = relation::entries_view(right_entries@);
            proof {
                assert forall|i: int| 0 <= i < le.len() implies 0 <= #[trigger] relation::using_place(
                    pairs@,
                    left_len as nat,
                    true,
                    le[i].field_index as int,
                ) < row@.fields.len() by {
                    relation::using_places_are_in_the_row(
                        ls,
                        rs,
                        pairs@,
                        join_type,
                        true,
                        le[i].field_index as int,
                    );
                }
                assert forall|i: int| 0 <= i < re.len() implies 0 <= #[trigger] relation::using_place(
                    pairs@,
                    left_len as nat,
                    false,
                    re[i].field_index as int,
                ) < row@.fields.len() by {
                    relation::using_places_are_in_the_row(
                        ls,
                        rs,
                        pairs@,
                        join_type,
                        false,
                        re[i].field_index as int,
                    );
                }
            }
            let mut out = move_entries(left_entries, pairs, left_len, true, row);
            let mut more = move_entries(right_entries, pairs, left_len, false, row);
            let ghost first = out@;
            let ghost second = more@;
            out.append(&mut more);
            assert(relation::entries_view(out@) =~= relation::entries_view(first)
                + relation::entries_view(second));
            assert(row@.fields.len() <= row.fields.len());
            assert forall|i: int| 0 <= i < relation::entries_view(out@).len() implies (
            #[trigger] relation::entries_view(out@)[i]).field_index < row@.fields.len() by {
                if i < le.len() {
                    assert(0 <= relation::using_place(
                        pairs@,
                        left_len as nat,
                        true,
                        le[i].field_index as int,
                    ) < row.fields.len());
                } else {
                    assert(0 <= relation::using_place(
                        pairs@,
                        left_len as nat,
                        false,
                        re[i - le.len()].field_index as int,
                    ) < row.fields.len());
                }
            }
            out
        },
        _ => merge_joined(left_entries, right_entries, left_len, right.schema(), row),
    }
}

fn make_join(
    left: QueryPlan,
    right: QueryPlan,
    join_type: LogicalJoinType,
    condition: LogicalJoinCondition,
    schema: Schema,
) -> (plan: QueryPlan)
    ensures
        plan@ == (QueryPlanView::Join {
            left: Box::new(left@),
            right: Box::new(right@),
            join_type,
            condition: condition@,
            schema: schema@,
        }),
{
    QueryPlan::Join {
        left: Box::new(left),
        right: Box::new(right),
        join_type,
        condition,
        schema,
    }
}

/// Joins two bound plans.
pub fn bind_explicit_join<C: Catalog>(
    condition: &JoinCondition,
    left: QueryPlan,
    right: QueryPlan,
    join_type: LogicalJoinType,
    catalog: &C,
    scope: &mut ScopeStack,
) -> (made: Result<QueryPlan, PlanError>)
    ensures
        error::query_outcome(made) == bound::bound_join(
            *condition,
            left@,
            right@,
            join_type,
            catalog.model(),
            old(scope).rows(),
        ),
        final(scope).frames@ == old(scope).frames@,
    decreases condition, 1int,
{
    match condition {
        JoinCondition::Absent => {
            let schema = concat_schemas_cross(left.schema(), right.schema())?;
            Ok(make_join(left, right, join_type, LogicalJoinCondition::Absent, schema))
        },
        JoinCondition::On(pred) => {
            let schema = concat_schemas_for_join(left.schema(), right.schema(), join_type)?;
            let bound = bind_expr(pred, &schema, catalog, scope)?;
            let predicate = check_predicate("JOIN ON predicate must be boolean, got ", bound)?;
            Ok(make_join(left, right, join_type, LogicalJoinCondition::On(predicate), schema))
        },
        JoinCondition::Using(cols) => {
            let pairs = resolve_using_pairs(cols, left.schema(), right.schema())?;
            let schema = build_using_schema(left.schema(), right.schema(), &pairs, join_type)?;
            Ok(make_join(left, right, join_type, LogicalJoinCondition::Using(pairs), schema))
        },
    }
}

/// Aggregates with their outcome as models: on success the list is extended.
pub open spec fn aggregates_outcome(
    r: Result<(), PlanError>,
    out: Seq<LogicalAggregateExpr>,
) -> Result<Seq<query::LogicalAggregateExprView>, PlanErrorView> {
    match r {
        Ok(_) => Ok(query::aggregate_exprs_view(out)),
        Err(e) => Err(e@),
    }
}

fn push_aggregate(
    out: &mut Vec<LogicalAggregateExpr>,
    func: query::AggregateFunc,
    arg: Option<ScalarExpr>,
    distinct: bool,
    output_name: String,
)
    ensures
        query::aggregate_exprs_view(final(out)@) == bound::with_aggregate(
            query::aggregate_exprs_view(old(out)@),
            func,
            match arg {
                Some(x) => Some(x@),
                None => None,
            },
            distinct,
            output_name@,
        ),
        aggregate::grown(old(out)@, final(out)@),
{
    broadcast use {aggregate::lemma_grown_itself, aggregate::lemma_grown_on};

    if is_collected(out, func, output_name.as_str()) {
        return ;
    }
    let arg_type = match &arg {
        Some(x) => x.data_type(),
        None => DataType::Null,
    };
    let data_type = aggregate_return_type(func, arg_type);
    let item = LogicalAggregateExpr {
        func,
        arg,
        direct_arg: None,
        order_by: None,
        distinct,
        output_name,
        data_type,
    };
    proof {
        aggregate::lemma_grown_with(out@, item);
    }
    out.push(item);
}

/// Collects the aggregate calls of an expression.
pub fn collect_aggregates<C: Catalog>(
    expr: &Expr,
    alias: &Option<Identifier>,
    input: &Schema,
    out: &mut Vec<LogicalAggregateExpr>,
    catalog: &C,
    scope: &mut ScopeStack,
) -> (made: Result<(), PlanError>)
    ensures
        aggregates_outcome(made, final(out)@) == bound::collected(
            *expr,
            *alias,
            input@,
            query::aggregate_exprs_view(old(out)@),
            catalog.model(),
            old(scope).rows(),
        ),
        aggregate::grown(old(out)@, final(out)@),
        final(scope).frames@ == old(scope).frames@,
    decreases expr, 2int,
{
    broadcast use {aggregate::lemma_grown_itself, aggregate::lemma_grown_on};

    match expr {
        Expr::Call { name, args, distinct, .. } => {
            let func_name = object_name_simple(name);
            let bare = args.len() == 0 || is_star_argument(args);
            let func = match classify_aggregate(func_name.as_str(), bare) {
                Some(func) => func,
                None => return Err(
                    PlanError::NotSupported("non-aggregate function calls in aggregation context"),
                ),
            };
            let output_name = match alias {
                Some(a) => a.value.clone(),
                None => func_name,
            };
            let arg = if bare {
                None
            } else {
                Some(bind_expr(&args[0], input, catalog, scope)?)
            };
            push_aggregate(out, func, arg, *distinct, output_name);
            Ok(())
        },
        Expr::Paren { expr: inner } => collect_aggregates(
            inner,
            alias,
            input,
            out,
            catalog,
            scope,
        ),
        Expr::Unary { expr: inner, .. } => collect_aggregates(
            inner,
            alias,
            input,
            out,
            catalog,
            scope,
        ),
        Expr::Binary { left, right, .. } => {
            collect_aggregates(left, &None, input, out, catalog, scope)?;
            collect_aggregates(right, &None, input, out, catalog, scope)
        },
        Expr::IsNull { expr: inner, .. } => collect_aggregates(
            inner,
            &None,
            input,
            out,
            catalog,
            scope,
        ),
        Expr::Between { expr: inner, low, high, .. } => {
            collect_aggregates(inner, &None, input, out, catalog, scope)?;
            collect_aggregates(low, &None, input, out, catalog, scope)?;
            collect_aggregates(high, &None, input, out, catalog, scope)
        },
        Expr::InSubquery { expr: inner, .. } => collect_aggregates(
            inner,
            &None,
            input,
            out,
            catalog,
            scope,
        ),
        Expr::Any { expr: inner, .. } => collect_aggregates(
            inner,
            &None,
            input,
            out,
            catalog,
            scope,
        ),
        _ => Ok(()),
    }
}

fn collect_items<C: Catalog>(
    items: &Vec<SelectItem>,
    input: &Schema,
    out: &mut Vec<LogicalAggregateExpr>,
    catalog: &C,
    scope: &mut ScopeStack,
) -> (made: Result<(), PlanError>)
    ensures
        aggregates_outcome(made, final(out)@) == bound::collected_items(
            items@,
            0,
            query::aggregate_exprs_view(old(out)@),
            input@,
            catalog.model(),
            old(scope).rows(),
        ),
        aggregate::grown(old(out)@, final(out)@),
        final(scope).frames@ == old(scope).frames@,
    decreases items, 3int,
{
    let ghost start = query::aggregate_exprs_view(out@);
    proof {
        aggregate::lemma_grown_itself(out@);
    }
    let mut i: usize = 0;
    while i < items.len()
        invariant
            i <= items.len(),
            scope.frames@ == old(scope).frames@,
            start == query::aggregate_exprs_view(old(out)@),
            aggregate::grown(old(out)@, out@),
            bound::collected_items(
                items@,
                i as int,
                query::aggregate_exprs_view(out@),
                input@,
                catalog.model(),
                old(scope).rows(),
            ) == bound::collected_items(
                items@,
                0,
                start,
                input@,
                catalog.model(),
                old(scope).rows(),
            ),
        decreases items.len() - i,
    {
        match &items[i] {
            SelectItem::Expr { expr, alias } => {
                let ghost so_far = out@;
                let made = collect_aggregates(expr, alias, input, out, catalog, scope);
                proof {
                    aggregate::lemma_grown_on(old(out)@, so_far, out@);
                }
                made?;
            },
            _ => {
            },
        }
        i = i + 1;
    }
    Ok(())
}

fn group_field(g: &ScalarExpr, i: usize) -> (f: Field)
    ensures
        f@ == schema::nullable_field(bound::group_name(g@, i as int), query::scalar_type(g@)),
{
    let name = match g {
        ScalarExpr::Column { name, .. } => name.clone(),
        _ => cat2("group", show_usize(i).as_str()),
    };
    Field::nullable(name, g.data_type())
}

fn make_aggregation(
    plan: QueryPlan,
    group_by: Vec<ScalarExpr>,
    aggregates: Vec<LogicalAggregateExpr>,
) -> (made: Result<QueryPlan, PlanError>)
    ensures
        error::query_outcome(made) == bound::aggregation(
            plan@,
            query::scalars_view(group_by@),
            query::aggregate_exprs_view(aggregates@),
        ),
{
    let ghost wanted = bound::aggregate_fields(
        query::scalars_view(group_by@),
        query::aggregate_exprs_view(aggregates@),
    );
    let mut fields: Vec<Field> = Vec::new();
    let mut i: usize = 0;
    while i < group_by.len()
        invariant
            i <= group_by.len(),
            fields.len() == i,
            wanted == bound::aggregate_fields(
                query::scalars_view(group_by@),
                query::aggregate_exprs_view(aggregates@),
            ),
            forall|j: int| 0 <= j < i ==> (#[trigger] fields@[j])@ == wanted[j],
        decreases group_by.len() - i,
    {
        fields.push(group_field(&group_by[i], i));
        i = i + 1;
    }
    let mut k: usize = 0;
    while k < aggregates.len()
        invariant
            k <= aggregates.len(),
            fields.len() == group_by.len() + k,
            wanted == bound::aggregate_fields(
                query::scalars_view(group_by@),
                query::aggregate_exprs_view(aggregates@),
            ),
            forall|j: int| 0 <= j < group_by.len() + k ==> (#[trigger] fields@[j])@ == wanted[j],
        decreases aggregates.len() - k,
    {
        fields.push(
            Field::nullable(
                aggregates[k].output_name.clone(),
                aggregates[k].data_type.duplicate(),
            ),
        );
        k = k + 1;
    }
    assert(schema::fields_view(fields@) =~= wanted);
    let schema = build_unique_schema(fields)?;
    Ok(QueryPlan::Aggregate { input: Box::new(plan), group_by, aggregates, schema })
}

/// Binds the grouping and the aggregate calls of a `SELECT`.
pub fn bind_aggregate<C: Catalog>(
    select: &SelectStmt,
    plan: QueryPlan,
    catalog: &C,
    scope: &mut ScopeStack,
) -> (made: Result<QueryPlan, PlanError>)
    ensures
        error::query_outcome(made) == bound::bound_aggregate(
            *select,
            plan@,
            catalog.model(),
            old(scope).rows(),
        ),
        final(scope).frames@ == old(scope).frames@,
    decreases select, 6int,
{
    let group_by = bind_exprs(&select.group_by, plan.schema(), catalog, scope)?;
    let mut aggregates: Vec<LogicalAggregateExpr> = Vec::new();
    assert(query::aggregate_exprs_view(aggregates@) =~= Seq::empty());
    collect_items(&select.projection, plan.schema(), &mut aggregates, catalog, scope)?;
    if let Some(having) = &select.having {
        collect_aggregates(having, &None, plan.schema(), &mut aggregates, catalog, scope)?;
    }
    make_aggregation(plan, group_by, aggregates)
}

/// Copies the aggregates of an aggregation.
fn copy_aggregates(p: &QueryPlan) -> (out: Vec<LogicalAggregateExpr>)
    ensures
        query::aggregate_exprs_view(out@) == bound::aggregates_of(p@),
{
    match p {
        QueryPlan::Aggregate { aggregates, .. } => query::duplicate_aggregate_exprs(aggregates),
        _ => {
            let none: Vec<LogicalAggregateExpr> = Vec::new();
            assert(query::aggregate_exprs_view(none@) =~= Seq::empty());
            none
        },
    }
}

fn find_aggregate_column(
    name: &ObjectName,
    args: &Vec<Expr>,
    alias: &Option<Identifier>,
    input: &Schema,
    groups: usize,
    aggs: &Vec<LogicalAggregateExpr>,
) -> (at: Option<usize>)
    ensures
        (match at {
            Some(i) => Some(i as int),
            None => None,
        }) == bound::aggregate_column(
            *name,
            args@,
            *alias,
            input@,
            groups as int,
            query::aggregate_exprs_view(aggs@),
        ),
        at matches Some(i) ==> i < input@.fields.len(),
{
    let func_name = object_name_simple(name);
    let bare = args.len() == 0 || is_star_argument(args);
    let func = match classify_aggregate(func_name.as_str(), bare) {
        Some(func) => func,
        None => return None,
    };
    let under_alias = match alias {
        Some(a) => find_call(aggs, func, a.value.as_str()),
        None => find_call(aggs, func, func_name.as_str()),
    };
    let place = match under_alias {
        Some(k) => Some(k),
        None => find_call(aggs, func, func_name.as_str()),
    };
    match place {
        Some(k) => if groups < input.len() && k < input.len() - groups {
            Some(groups + k)
        } else {
            None
        },
        None => None,
    }
}

/// Binds an expression over aggregated rows.
pub fn bind_expr_or_agg_ref<C: Catalog>(
    expr: &Expr,
    alias: &Option<Identifier>,
    input: &Schema,
    groups: usize,
    aggs: &Vec<LogicalAggregateExpr>,
    catalog: &C,
    scope: &mut ScopeStack,
) -> (made: Result<ScalarExpr, PlanError>)
    ensures
        error::scalar_outcome(made) == bound::bound_expr_or_agg(
            *expr,
            *alias,
            input@,
            groups as int,
            query::aggregate_exprs_view(aggs@),
            catalog.model(),
            old(scope).rows(),
        ),
        final(scope).frames@ == old(scope).frames@,
    decreases expr, 2int,
{
    match expr {
        Expr::Call { name, args, .. } => {
            match find_aggregate_column(name, args, alias, input, groups, aggs) {
                Some(i) => Ok(column_of(input, i)),
                None => bind_expr(expr, input, catalog, scope),
            }
        },
        Expr::Paren { expr: inner } => bind_expr_or_agg_ref(
            inner,
            alias,
            input,
            groups,
            aggs,
            catalog,
            scope,
        ),
        Expr::Unary { op, expr: inner } => {
            let operand = bind_expr_or_agg_ref(inner, alias, input, groups, aggs, catalog, scope)?;
            let data_type = unary_result_type(*op, operand.data_type())?;
            Ok(ScalarExpr::Unary { op: *op, expr: Box::new(operand), data_type })
        },
        Expr::Binary { op, left, right } => {
            let l = bind_expr_or_agg_ref(left, &None, input, groups, aggs, catalog, scope)?;
            let r = bind_expr_or_agg_ref(right, &None, input, groups, aggs, catalog, scope)?;
            make_binary(*op, l, r)
        },
        Expr::IsNull { expr: inner, negated } => {
            let operand = bind_expr_or_agg_ref(inner, &None, input, groups, aggs, catalog, scope)?;
            Ok(ScalarExpr::IsNull { expr: Box::new(operand), negated: *negated })
        },
        Expr::Between { expr: subject, low, high, negated, symmetric } => {
            let e = bind_expr_or_agg_ref(subject, &None, input, groups, aggs, catalog, scope)?;
            let l = bind_expr_or_agg_ref(low, &None, input, groups, aggs, catalog, scope)?;
            let h = bind_expr_or_agg_ref(high, &None, input, groups, aggs, catalog, scope)?;
            make_between(e, l, h, *negated, *symmetric)
        },
        Expr::InSubquery { expr: lhs, select, negated } => {
            let lhs = bind_expr_or_agg_ref(lhs, &None, input, groups, aggs, catalog, scope)?;
            let plan = bind_inner(select, input, catalog, scope)?;
            make_membership(
                "IN subquery must return exactly 1 column, got ",
                lhs,
                plan,
                *negated,
                true,
            )
        },
        Expr::Any { expr: lhs, op, select } => {
            if *op != BinaryOp::Eq {
                return Err(
                    PlanError::NotSupported(
                        "ANY with non-equality operator (only `= ANY` is supported)",
                    ),
                );
            }
            let lhs = bind_expr_or_agg_ref(lhs, &None, input, groups, aggs, catalog, scope)?;
            let plan = bind_inner(select, input, catalog, scope)?;
            make_membership(
                "= ANY subquery must return exactly 1 column, got ",
                lhs,
                plan,
                false,
                false,
            )
        },
        _ => bind_expr(expr, input, catalog, scope),
    }
}

fn filter_groups<C: Catalog>(
    plan: QueryPlan,
    having: &Option<Expr>,
    groups: usize,
    aggs: &Vec<LogicalAggregateExpr>,
    catalog: &C,
    scope: &mut ScopeStack,
) -> (made: Result<QueryPlan, PlanError>)
    requires
        query::aggregate_exprs_view(aggs@) == bound::aggregates_of(plan@),
    ensures
        error::query_outcome(made) == bound::filtered_groups(
            plan@,
            *having,
            groups as int,
            catalog.model(),
            old(scope).rows(),
        ),
        final(scope).frames@ == old(scope).frames@,
    decreases having, 3int,
{
    match having {
        None => Ok(plan),
        Some(e) => {
            let bound = bind_expr_or_agg_ref(
                e,
                &None,
                plan.schema(),
                groups,
                aggs,
                catalog,
                scope,
            )?;
            let predicate = check_predicate("HAVING predicate must be boolean, got ", bound)?;
            Ok(QueryPlan::Filter { input: Box::new(plan), predicate })
        },
    }
}

/// Binds a projection over aggregated rows.
pub fn bind_projection_agg<C: Catalog>(
    items: &Vec<SelectItem>,
    input: &Schema,
    groups: usize,
    aggs: &Vec<LogicalAggregateExpr>,
    catalog: &C,
    scope: &mut ScopeStack,
) -> (made: Result<Vec<(ScalarExpr, String)>, PlanError>)
    ensures
        error::outputs_outcome(made) == bound::bound_projection_agg(
            items@,
            0,
            Seq::empty(),
            input@,
            groups as int,
            query::aggregate_exprs_view(aggs@),
            catalog.model(),
            old(scope).rows(),
        ),
        final(scope).frames@ == old(scope).frames@,
    decreases items, 3int,
{
    let mut out: Vec<(ScalarExpr, String)> = Vec::new();
    assert(query::outputs_view(out@) =~= Seq::empty());
    let mut i: usize = 0;
    while i < items.len()
        invariant
            i <= items.len(),
            scope.frames@ == old(scope).frames@,
            bound::bound_projection_agg(
                items@,
                i as int,
                query::outputs_view(out@),
                input@,
                groups as int,
                query::aggregate_exprs_view(aggs@),
                catalog.model(),
                old(scope).rows(),
            ) == bound::bound_projection_agg(
                items@,
                0,
                Seq::empty(),
                input@,
                groups as int,
                query::aggregate_exprs_view(aggs@),
                catalog.model(),
                old(scope).rows(),
            ),
        decreases items.len() - i,
    {
        match &items[i] {
            SelectItem::Expr { expr, alias } => {
                let e = bind_expr_or_agg_ref(expr, alias, input, groups, aggs, catalog, scope)?;
                let name = output_column_name(expr, &e, alias);
                proof {
                    query::lemma_outputs_push(out@, (e, name));
                }
                out.push((e, name));
            },
            _ => {
                push_all_columns(input, &mut out);
            },
        }
        i = i + 1;
    }
    Ok(out)
}

/// Binds a projection; `*` and `t.*` stand for the columns of the `FROM` items.
pub fn bind_projection_with_scope<C: Catalog>(
    items: &Vec<SelectItem>,
    input: &Schema,
    entries: &Vec<ScopeEntry>,
    catalog: &C,
    scope: &mut ScopeStack,
) -> (made: Result<Vec<(ScalarExpr, String)>, PlanError>)
    ensures
        error::outputs_outcome(made) == bound::bound_projection(
            items@,
            0,
            Seq::empty(),
            input@,
            relation::entries_view(entries@),
            catalog.model(),
            old(scope).rows(),
        ),
        final(scope).frames@ == old(scope).frames@,
    decreases items, 3int,
{
    let mut out: Vec<(ScalarExpr, String)> = Vec::new();
    assert(query::outputs_view(out@) =~= Seq::empty());
    let mut i: usize = 0;
    while i < items.len()
        invariant
            i <= items.len(),
            scope.frames@ == old(scope).frames@,
            bound::bound_projection(
                items@,
                i as int,
                query::outputs_view(out@),
                input@,
                relation::entries_view(entries@),
                catalog.model(),
                old(scope).rows(),
            ) == bound::bound_projection(
                items@,
                0,
                Seq::empty(),
                input@,
                relation::entries_view(entries@),
                catalog.model(),
                old(scope).rows(),
            ),
        decreases items.len() - i,
    {
        match &items[i] {
            SelectItem::Wildcard => {
                if entries.len() == 0 {
                    push_all_columns(input, &mut out);
                } else {
                    let _ = push_qualified(entries, None, &mut out);
                }
            },
            SelectItem::QualifiedWildcard { qualifier } => {
                if !push_qualified(entries, Some(qualifier.value.as_str()), &mut out) {
                    return Err(PlanError::TableNotFound(qualifier.value.clone()));
                }
            },
            SelectItem::Expr { expr, alias } => {
                let e = bind_expr(expr, input, catalog, scope)?;
                let name = output_column_name(expr, &e, alias);
                proof {
                    query::lemma_outputs_push(out@, (e, name));
                }
                out.push((e, name));
            },
        }
        i = i + 1;
    }
    Ok(out)
}

} // verus!
