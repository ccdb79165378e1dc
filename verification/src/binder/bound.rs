//! What expressions and `SELECT` statements are bound to.
use crate::ast::{
    BinaryOp, CteDef, Distinct, Expr, Identifier, JoinCondition, Literal, NullsOrder, ObjectName,
    OrderItem, SelectItem, SelectStmt, SetOpTail, SortDirection, TableRef,
};
use crate::binder::relation::ScopeEntryView;
use crate::catalog::CatalogView;
use crate::datatype::DataTypeView;
use crate::error::PlanErrorView;
use crate::query::{
    AggregateFunc, LogicalAggregateExprView, LogicalJoinConditionView, LogicalJoinType,
    QueryPlanView, ScalarExprView, SortKeyView,
};
use crate::schema::{FieldView, Schema, SchemaView};
use crate::{binder, datatype, error, query, schema, scope, text};
use vstd::prelude::*;

verus! {

/// The visible common table expressions: each name with its columns.
pub open spec fn ctes_view(s: Seq<(String, Schema)>) -> Seq<(Seq<char>, SchemaView)> {
    Seq::new(s.len(), |i: int| (s[i].0@, s[i].1@))
}

/// The latest of the first `n` common table expressions of the given name.
pub open spec fn latest_cte(ctes: Seq<(Seq<char>, SchemaView)>, name: Seq<char>, n: int) -> Option<
    int,
>
    decreases n,
{
    if n <= 0 {
        None
    } else if text::same_fold(ctes[n - 1].0, name) {
        Some(n - 1)
    } else {
        latest_cte(ctes, name, n - 1)
    }
}

/// The columns of a table or common table expression of the given name.
pub open spec fn relation_columns(
    name: Seq<char>,
    cat: CatalogView,
    ctes: Seq<(Seq<char>, SchemaView)>,
) -> Result<SchemaView, PlanErrorView> {
    match latest_cte(ctes, name, ctes.len() as int) {
        Some(i) => Ok(ctes[i].1),
        None => match (cat.table)(name) {
            Some(meta) => Ok(meta.schema),
            None => Err(PlanErrorView::TableNotFound(name)),
        },
    }
}

/// What a column name refers to: the one column of that name in the row, or
/// else a column of an enclosing query.
pub open spec fn bound_column(
    name: ObjectName,
    input: SchemaView,
    scope: Seq<SchemaView>,
) -> Result<
    ScalarExprView,
    PlanErrorView,
> {
    let col = binder::names::last_part(name);
    match schema::find_field(input, col) {
        Some(i) => if schema::find_from(input.fields, col, i + 1) is Some {
            Err(PlanErrorView::Ambiguous(col))
        } else {
            Ok(binder::relation::column_at(input, i))
        },
        None => match scope::resolve_outer(scope, col) {
            Some(r) => Ok(
                ScalarExprView::OuterColumn {
                    name: col,
                    frame_depth: r.frame_depth,
                    column_index: r.column_index,
                    data_type: r.data_type,
                },
            ),
            None => Err(PlanErrorView::ColumnNotFound(col)),
        },
    }
}

/// The type of the only column of a subquery; `label` begins the complaint when
/// there is not exactly one.
pub open spec fn only_column(label: Seq<char>, p: QueryPlanView) -> Result<
    DataTypeView,
    PlanErrorView,
> {
    let s = query::query_schema(p);
    if s.fields.len() != 1 {
        Err(PlanErrorView::TypeMismatch(label + text::decimal(s.fields.len())))
    } else {
        Ok(s.fields[0].data_type)
    }
}

/// The scalar subquery of a plan.
pub open spec fn subquery_value(p: QueryPlanView) -> Result<ScalarExprView, PlanErrorView> {
    match only_column("scalar subquery must return exactly 1 column, got "@, p) {
        Err(e) => Err(e),
        Ok(t) => Ok(
            ScalarExprView::ScalarSubquery {
                subplan: Box::new(p),
                correlated: query::query_has_outer(p),
                data_type: t,
            },
        ),
    }
}

/// The membership test of a bound expression in a plan with one column.
pub open spec fn membership(
    label: Seq<char>,
    lhs: ScalarExprView,
    p: QueryPlanView,
    negated: bool,
    check_types: bool,
) -> Result<ScalarExprView, PlanErrorView> {
    match only_column(label, p) {
        Err(e) => Err(e),
        Ok(t) => if check_types && !binder::typing::comparable_types(query::scalar_type(lhs), t) {
            Err(
                PlanErrorView::TypeMismatch(
                    "IN subquery: left type "@ + datatype::type_text(query::scalar_type(lhs))
                        + " is not comparable to subquery column type "@ + datatype::type_text(t),
                ),
            )
        } else {
            Ok(
                ScalarExprView::InSubquery {
                    expr: Box::new(lhs),
                    subplan: Box::new(p),
                    negated,
                    correlated: query::query_has_outer(p),
                    data_type: t,
                },
            )
        },
    }
}

/// What an expression is bound to against a row, with the rows of enclosing
/// queries in `scope`.
pub open spec fn bound_expr(
    e: Expr,
    input: SchemaView,
    cat: CatalogView,
    scope: Seq<SchemaView>,
) -> Result<
    ScalarExprView,
    PlanErrorView,
>
    decreases e, 1int,
{
    match e {
        Expr::Literal(lit) => Ok(binder::typing::literal_constant(lit)),
        Expr::Column { name } => bound_column(name, input, scope),
        Expr::Parameter { index } => Ok(
            ScalarExprView::Parameter { index, data_type: DataTypeView::Null },
        ),
        Expr::Paren { expr } => bound_expr(*expr, input, cat, scope),
        Expr::Unary { op, expr } => match bound_expr(*expr, input, cat, scope) {
            Err(err) => Err(err),
            Ok(x) => match binder::typing::unary_type(op, query::scalar_type(x)) {
                Err(err) => Err(err),
                Ok(t) => Ok(ScalarExprView::Unary { op, expr: Box::new(x), data_type: t }),
            },
        },
        Expr::Binary { op, left, right } => match bound_expr(*left, input, cat, scope) {
            Err(err) => Err(err),
            Ok(l) => match bound_expr(*right, input, cat, scope) {
                Err(err) => Err(err),
                Ok(r) => binder::typing::typed_binary(op, l, r),
            },
        },
        Expr::IsNull { expr, negated } => match bound_expr(*expr, input, cat, scope) {
            Err(err) => Err(err),
            Ok(x) => Ok(ScalarExprView::IsNull { expr: Box::new(x), negated }),
        },
        Expr::Call { name, .. } => {
            let func = binder::names::simple_name(name);
            if binder::aggregate::names_aggregate(func) {
                match schema::find_field(input, func) {
                    Some(i) => Ok(binder::relation::column_at(input, i)),
                    None => Err(
                        PlanErrorView::NotSupported("aggregate call outside aggregate context"@),
                    ),
                }
            } else {
                Err(PlanErrorView::NotSupported("non-aggregate function calls"@))
            }
        },
        Expr::Cast { .. } => Err(PlanErrorView::NotSupported("CAST expressions"@)),
        Expr::Subquery { select } => match bound_select_with_ctes(
            *select,
            cat,
            Seq::empty(),
            scope.push(input),
        ) {
            Err(err) => Err(err),
            Ok(p) => subquery_value(p),
        },
        Expr::Exists { select, negated } => match bound_select_with_ctes(
            *select,
            cat,
            Seq::empty(),
            scope.push(input),
        ) {
            Err(err) => Err(err),
            Ok(p) => Ok(
                ScalarExprView::Exists {
                    subplan: Box::new(p),
                    negated,
                    correlated: query::query_has_outer(p),
                },
            ),
        },
        Expr::InSubquery { expr, select, negated } => match bound_expr(*expr, input, cat, scope) {
            Err(err) => Err(err),
            Ok(lhs) => match bound_select_with_ctes(
                *select,
                cat,
                Seq::empty(),
                scope.push(input),
            ) {
                Err(err) => Err(err),
                Ok(p) => membership(
                    "IN subquery must return exactly 1 column, got "@,
                    lhs,
                    p,
                    negated,
                    true,
                ),
            },
        },
        Expr::Any { expr, op, select } => if op != BinaryOp::Eq {
            Err(
                PlanErrorView::NotSupported(
                    "ANY with non-equality operator (only `= ANY` is supported)"@,
                ),
            )
        } else {
            match bound_expr(*expr, input, cat, scope) {
                Err(err) => Err(err),
                Ok(lhs) => match bound_select_with_ctes(
                    *select,
                    cat,
                    Seq::empty(),
                    scope.push(input),
                ) {
                    Err(err) => Err(err),
                    Ok(p) => membership(
                        "= ANY subquery must return exactly 1 column, got "@,
                        lhs,
                        p,
                        false,
                        false,
                    ),
                },
            }
        },
        Expr::All { .. } => Err(
            PlanErrorView::NotSupported("ALL subquery expressions are not supported"@),
        ),
        Expr::Between { expr, low, high, negated, symmetric } => match bound_expr(
            *expr,
            input,
            cat,
            scope,
        ) {
            Err(err) => Err(err),
            Ok(x) => match bound_expr(*low, input, cat, scope) {
                Err(err) => Err(err),
                Ok(l) => match bound_expr(*high, input, cat, scope) {
                    Err(err) => Err(err),
                    Ok(h) => binder::typing::between_test(x, l, h, negated, symmetric),
                },
            },
        },
        _ => Err(PlanErrorView::NotSupported("expression variant"@)),
    }
}

/// What the expressions from the `i`-th on are bound to, in order; the first
/// error counts.
pub open spec fn bound_exprs(
    list: Seq<Expr>,
    i: int,
    acc: Seq<ScalarExprView>,
    input: SchemaView,
    cat: CatalogView,
    scope: Seq<SchemaView>,
) -> Result<Seq<ScalarExprView>, PlanErrorView>
    decreases list, list.len() - i,
{
    if i < 0 || i >= list.len() {
        Ok(acc)
    } else {
        match bound_expr(list[i], input, cat, scope) {
            Err(e) => Err(e),
            Ok(x) => bound_exprs(list, i + 1, acc.push(x), input, cat, scope),
        }
    }
}

/// Whether a `SELECT` keeps duplicate rows.
pub open spec fn keeps_duplicates(d: Distinct) -> bool {
    d is Absent || d is All
}

/// What the common table expressions from the `i`-th on are bound to: the names
/// that they make visible, and their plans.
pub open spec fn bound_ctes(
    defs: Seq<CteDef>,
    i: int,
    ctes: Seq<(Seq<char>, SchemaView)>,
    plans: Seq<(Seq<char>, bool, QueryPlanView)>,
    cat: CatalogView,
    scope: Seq<SchemaView>,
) -> Result<
    (Seq<(Seq<char>, SchemaView)>, Seq<(Seq<char>, bool, QueryPlanView)>),
    PlanErrorView,
>
    decreases defs, defs.len() - i,
{
    if i < 0 || i >= defs.len() {
        Ok((ctes, plans))
    } else {
        match bound_select_with_ctes(*defs[i].query, cat, ctes, scope) {
            Err(e) => Err(e),
            Ok(p) => match binder::relation::aliased_schema(
                query::query_schema(p),
                defs[i].column_aliases@,
            ) {
                Err(e) => Err(e),
                Ok(s) => {
                    let name = text::lower(defs[i].name.value@);
                    bound_ctes(
                        defs,
                        i + 1,
                        ctes.push((name, s)),
                        plans.push((name, defs[i].recursive, p)),
                        cat,
                        scope,
                    )
                },
            },
        }
    }
}

/// A plan below the first `n` common table expressions, the first outermost.
pub open spec fn wrapped_in_ctes(
    plans: Seq<(Seq<char>, bool, QueryPlanView)>,
    n: int,
    body: QueryPlanView,
) -> QueryPlanView
    decreases n,
{
    if n <= 0 {
        body
    } else {
        wrapped_in_ctes(
            plans,
            n - 1,
            QueryPlanView::Cte {
                name: plans[n - 1].0,
                recursive: plans[n - 1].1,
                definition: Box::new(plans[n - 1].2),
                body: Box::new(body),
                schema: query::query_schema(body),
            },
        )
    }
}

/// A plan with the set operations from the `i`-th on applied, left to right.
pub open spec fn with_set_ops(
    tails: Seq<SetOpTail>,
    i: int,
    left: QueryPlanView,
    cat: CatalogView,
    ctes: Seq<(Seq<char>, SchemaView)>,
    scope: Seq<SchemaView>,
) -> Result<QueryPlanView, PlanErrorView>
    decreases tails, tails.len() - i,
{
    if i < 0 || i >= tails.len() {
        Ok(left)
    } else {
        match bound_select_with_ctes(*tails[i].right, cat, ctes, scope) {
            Err(e) => Err(e),
            Ok(right) => match binder::relation::set_operation(
                left,
                tails[i].op,
                tails[i].quantifier,
                right,
            ) {
                Err(e) => Err(e),
                Ok(p) => with_set_ops(tails, i + 1, p, cat, ctes, scope),
            },
        }
    }
}

/// What a `SELECT` is bound to where common table expressions are visible.
pub open spec fn bound_select_with_ctes(
    s: SelectStmt,
    cat: CatalogView,
    ctes: Seq<(Seq<char>, SchemaView)>,
    scope: Seq<SchemaView>,
) -> Result<QueryPlanView, PlanErrorView>
    decreases s, 9int,
{
    match bound_ctes(s.ctes@, 0, ctes, Seq::empty(), cat, scope) {
        Err(e) => Err(e),
        Ok((visible, plans)) => match bound_body(s, cat, visible, scope) {
            Err(e) => Err(e),
            Ok(body) => match with_set_ops(s.set_ops@, 0, body, cat, visible, scope) {
                Err(e) => Err(e),
                Ok(p) => Ok(wrapped_in_ctes(plans, plans.len() as int, p)),
            },
        },
    }
}

/// What a `SELECT` statement is bound to.
pub open spec fn bound_select(s: SelectStmt, cat: CatalogView, scope: Seq<SchemaView>) -> Result<
    QueryPlanView,
    PlanErrorView,
> {
    if !keeps_duplicates(s.distinct) {
        Err(PlanErrorView::NotSupported("SELECT DISTINCT"@))
    } else {
        bound_select_with_ctes(s, cat, Seq::empty(), scope)
    }
}

/// A bound predicate, which must be boolean or null; `label` begins the
/// complaint when it is neither.
pub open spec fn checked_predicate(label: Seq<char>, e: ScalarExprView) -> Result<
    ScalarExprView,
    PlanErrorView,
> {
    if binder::typing::truth_type(query::scalar_type(e)) {
        Ok(e)
    } else {
        Err(binder::typing::type_mismatch(label, query::scalar_type(e)))
    }
}

/// A plan under an optional filter.
pub open spec fn filtered(
    label: Seq<char>,
    p: QueryPlanView,
    pred: Option<Expr>,
    cat: CatalogView,
    scope: Seq<SchemaView>,
) -> Result<QueryPlanView, PlanErrorView>
    decreases pred, 0int,
{
    match pred {
        None => Ok(p),
        Some(e) => match bound_expr(e, query::query_schema(p), cat, scope) {
            Err(err) => Err(err),
            Ok(x) => match checked_predicate(label, x) {
                Err(err) => Err(err),
                Ok(predicate) => Ok(QueryPlanView::Filter { input: Box::new(p), predicate }),
            },
        },
    }
}

/// Whether nulls sort first under a sort order: as stated, else exactly when
/// the order is descending.
pub open spec fn sorts_nulls_first(direction: SortDirection, nulls: NullsOrder) -> bool {
    match nulls {
        NullsOrder::First => true,
        NullsOrder::Last => false,
        NullsOrder::Default => direction is Desc,
    }
}

/// The sort keys from the `i`-th on.
pub open spec fn bound_order_by(
    items: Seq<OrderItem>,
    i: int,
    acc: Seq<SortKeyView>,
    input: SchemaView,
    cat: CatalogView,
    scope: Seq<SchemaView>,
) -> Result<Seq<SortKeyView>, PlanErrorView>
    decreases items, items.len() - i,
{
    if i < 0 || i >= items.len() {
        Ok(acc)
    } else {
        match bound_expr(items[i].expr, input, cat, scope) {
            Err(e) => Err(e),
            Ok(x) => bound_order_by(
                items,
                i + 1,
                acc.push(
                    SortKeyView {
                        expr: x,
                        asc: items[i].direction is Asc,
                        nulls_first: sorts_nulls_first(items[i].direction, items[i].nulls),
                    },
                ),
                input,
                cat,
                scope,
            ),
        }
    }
}

/// A plan sorted by the given keys and projected to the given expressions.
pub open spec fn projected(
    p: QueryPlanView,
    outs: Seq<(ScalarExprView, Seq<char>)>,
    order_by: Seq<OrderItem>,
    cat: CatalogView,
    scope: Seq<SchemaView>,
) -> Result<QueryPlanView, PlanErrorView>
    decreases order_by, order_by.len() + 1,
{
    match error::labelled_schema("projection: "@, binder::relation::output_fields(outs)) {
        Err(e) => Err(e),
        Ok(schema) => match bound_order_by(
            order_by,
            0,
            Seq::empty(),
            query::query_schema(p),
            cat,
            scope,
        ) {
            Err(e) => Err(e),
            Ok(keys) => Ok(
                QueryPlanView::Project {
                    input: Box::new(
                        if keys.len() > 0 {
                            QueryPlanView::Sort { input: Box::new(p), keys }
                        } else {
                            p
                        },
                    ),
                    exprs: outs,
                    schema,
                },
            ),
        },
    }
}

/// The row count that a `LIMIT` or `OFFSET` states.
pub open spec fn stated_count(e: Expr, label: Seq<char>) -> Result<u64, PlanErrorView>
    decreases e,
{
    match e {
        Expr::Literal(Literal::Integer { text }) => match text::within(
            text::natural_value(text@),
            0,
            u64::MAX as int,
        ) {
            Some(v) => Ok(v as u64),
            None => Err(
                PlanErrorView::TypeMismatch(
                    label + " must be a non-negative integer, got '"@ + text@ + "'"@,
                ),
            ),
        },
        Expr::Paren { expr } => stated_count(*expr, label),
        _ => Err(PlanErrorView::NotSupported("non-literal LIMIT/OFFSET expressions"@)),
    }
}

/// A plan under its `LIMIT` and `OFFSET`. A lone nonzero offset limits to the
/// largest count.
pub open spec fn limited(p: QueryPlanView, limit: Option<Expr>, offset: Option<Expr>) -> Result<
    QueryPlanView,
    PlanErrorView,
> {
    let n = match limit {
        Some(e) => match stated_count(e, "LIMIT"@) {
            Ok(v) => Ok(Some(v)),
            Err(err) => Err(err),
        },
        None => Ok(None),
    };
    let skip = match offset {
        Some(e) => stated_count(e, "OFFSET"@),
        None => Ok(0u64),
    };
    match n {
        Err(err) => Err(err),
        Ok(n) => match skip {
            Err(err) => Err(err),
            Ok(offset) => match n {
                Some(n) => Ok(QueryPlanView::Limit { input: Box::new(p), n, offset }),
                None => if offset != 0 {
                    Ok(QueryPlanView::Limit { input: Box::new(p), n: u64::MAX, offset })
                } else {
                    Ok(p)
                },
            },
        },
    }
}

/// Whether a `SELECT` aggregates: it groups, or an aggregate occurs in its
/// projection or in its `HAVING` clause.
pub open spec fn aggregates(s: SelectStmt) -> bool {
    ||| s.group_by@.len() > 0
    ||| binder::aggregate::any_item_has_aggregate(s.projection@)
    ||| match s.having {
        Some(e) => binder::aggregate::has_aggregate(e),
        None => false,
    }
}

/// What a `SELECT` is bound to without its common table expressions and set
/// operations.
pub open spec fn bound_body(
    s: SelectStmt,
    cat: CatalogView,
    ctes: Seq<(Seq<char>, SchemaView)>,
    scope: Seq<SchemaView>,
) -> Result<QueryPlanView, PlanErrorView>
    decreases s, 8int,
{
    if !keeps_duplicates(s.distinct) {
        Err(PlanErrorView::NotSupported("SELECT DISTINCT"@))
    } else {
        match bound_from(s.from@, cat, ctes, scope) {
            Err(e) => Err(e),
            Ok((source, entries)) => match filtered(
                "WHERE predicate must be boolean, got "@,
                source,
                s.where_clause,
                cat,
                scope,
            ) {
                Err(e) => Err(e),
                Ok(p) => match bound_output(s, p, entries, cat, scope) {
                    Err(e) => Err(e),
                    Ok(p) => limited(p, s.limit, s.offset),
                },
            },
        }
    }
}

/// A filtered source with the grouping, the projection and the order of a
/// `SELECT` applied.
pub open spec fn bound_output(
    s: SelectStmt,
    p: QueryPlanView,
    entries: Seq<ScopeEntryView>,
    cat: CatalogView,
    scope: Seq<SchemaView>,
) -> Result<QueryPlanView, PlanErrorView>
    decreases s, 7int,
{
    if aggregates(s) {
        match bound_aggregate(s, p, cat, scope) {
            Err(e) => Err(e),
            Ok(grouped) => match filtered_groups(
                grouped,
                s.having,
                s.group_by@.len() as int,
                cat,
                scope,
            ) {
                Err(e) => Err(e),
                Ok(p) => match bound_projection_agg(
                    s.projection@,
                    0,
                    Seq::empty(),
                    query::query_schema(p),
                    s.group_by@.len() as int,
                    aggregates_of(grouped),
                    cat,
                    scope,
                ) {
                    Err(e) => Err(e),
                    Ok(outs) => projected(p, outs, s.order_by@, cat, scope),
                },
            },
        }
    } else {
        match bound_projection(
            s.projection@,
            0,
            Seq::empty(),
            query::query_schema(p),
            entries,
            cat,
            scope,
        ) {
            Err(e) => Err(e),
            Ok(outs) => projected(p, outs, s.order_by@, cat, scope),
        }
    }
}

/// The plan and the offered columns of a `FROM` list.
pub open spec fn bound_from(
    items: Seq<TableRef>,
    cat: CatalogView,
    ctes: Seq<(Seq<char>, SchemaView)>,
    scope: Seq<SchemaView>,
) -> Result<(QueryPlanView, Seq<ScopeEntryView>), PlanErrorView>
    decreases items, items.len() + 1,
{
    if items.len() == 0 {
        Ok((QueryPlanView::Empty { schema: schema::empty_schema() }, Seq::empty()))
    } else {
        match bound_table_ref(items[0], cat, ctes, scope) {
            Err(e) => Err(e),
            Ok((p, entries)) => cross_joined(items, 1, p, entries, cat, ctes, scope),
        }
    }
}

/// A plan cross-joined with the `FROM` items from the `i`-th on.
pub open spec fn cross_joined(
    items: Seq<TableRef>,
    i: int,
    p: QueryPlanView,
    entries: Seq<ScopeEntryView>,
    cat: CatalogView,
    ctes: Seq<(Seq<char>, SchemaView)>,
    scope: Seq<SchemaView>,
) -> Result<(QueryPlanView, Seq<ScopeEntryView>), PlanErrorView>
    decreases items, items.len() - i,
{
    if i < 0 || i >= items.len() {
        Ok((p, entries))
    } else {
        match bound_table_ref(items[i], cat, ctes, scope) {
            Err(e) => Err(e),
            Ok((right, more)) => match binder::relation::join_schema(
                query::query_schema(p),
                query::query_schema(right),
                LogicalJoinType::Cross,
            ) {
                Err(e) => Err(e),
                Ok(schema) => cross_joined(
                    items,
                    i + 1,
                    QueryPlanView::Join {
                        left: Box::new(p),
                        right: Box::new(right),
                        join_type: LogicalJoinType::Cross,
                        condition: LogicalJoinConditionView::Absent,
                        schema,
                    },
                    binder::relation::merged_entries(
                        entries,
                        more,
                        query::query_schema(p).fields.len(),
                    ),
                    cat,
                    ctes,
                    scope,
                ),
            },
        }
    }
}

/// A subquery under the given columns.
pub open spec fn renamed_subquery(p: QueryPlanView, s: SchemaView) -> Result<
    QueryPlanView,
    PlanErrorView,
> {
    match error::labelled_schema("subquery alias schema: "@, s.fields) {
        Err(e) => Err(e),
        Ok(schema) => Ok(
            QueryPlanView::Project {
                input: Box::new(p),
                exprs: binder::relation::all_columns(s),
                schema,
            },
        ),
    }
}

/// The plan and the offered columns of a `FROM` item.
pub open spec fn bound_table_ref(
    t: TableRef,
    cat: CatalogView,
    ctes: Seq<(Seq<char>, SchemaView)>,
    scope: Seq<SchemaView>,
) -> Result<(QueryPlanView, Seq<ScopeEntryView>), PlanErrorView>
    decreases t, 0int,
{
    match t {
        TableRef::Named { name, alias } => {
            let table = binder::names::simple_name(name);
            let qualifier = match alias {
                Some(a) => a.value@,
                None => table,
            };
            match relation_columns(table, cat, ctes) {
                Err(e) => Err(e),
                Ok(schema) => Ok(
                    (
                        QueryPlanView::Scan { table, schema, projection: None },
                        binder::relation::entries_of(qualifier, schema),
                    ),
                ),
            }
        },
        TableRef::Subquery { select, alias, column_aliases } => match bound_select_with_ctes(
            *select,
            cat,
            ctes,
            scope,
        ) {
            Err(e) => Err(e),
            Ok(inner) => match binder::relation::aliased_schema(
                query::query_schema(inner),
                column_aliases@,
            ) {
                Err(e) => Err(e),
                Ok(s) => match renamed_subquery(inner, s) {
                    Err(e) => Err(e),
                    Ok(p) => Ok((p, binder::relation::entries_of(alias.value@, s))),
                },
            },
        },
        TableRef::Join { left, op, right, condition } => match bound_table_ref(
            *left,
            cat,
            ctes,
            scope,
        ) {
            Err(e) => Err(e),
            Ok((l, le)) => match bound_table_ref(*right, cat, ctes, scope) {
                Err(e) => Err(e),
                Ok((r, re)) => match bound_join(
                    condition,
                    l,
                    r,
                    binder::relation::join_type_of(op),
                    cat,
                    scope,
                ) {
                    Err(e) => Err(e),
                    Ok(p) => Ok(
                        (p, joined_entries(le, re, query::query_schema(l).fields.len(), p)),
                    ),
                },
            },
        },
    }
}

/// The columns that a join offers: those of both sides, at their places in the
/// row of the join.
pub open spec fn joined_entries(
    le: Seq<ScopeEntryView>,
    re: Seq<ScopeEntryView>,
    left_len: nat,
    p: QueryPlanView,
) -> Seq<ScopeEntryView> {
    match p {
        QueryPlanView::Join { condition: LogicalJoinConditionView::Using(pairs), schema, .. } =>
            binder::relation::moved_entries(le, pairs, left_len, true, schema)
            + binder::relation::moved_entries(re, pairs, left_len, false, schema),
        _ => binder::relation::merged_entries(le, re, left_len),
    }
}

/// The join of two plans. A join without a condition keeps the nullability of
/// both sides.
pub open spec fn bound_join(
    condition: JoinCondition,
    l: QueryPlanView,
    r: QueryPlanView,
    join_type: LogicalJoinType,
    cat: CatalogView,
    scope: Seq<SchemaView>,
) -> Result<QueryPlanView, PlanErrorView>
    decreases condition, 0int,
{
    let ls = query::query_schema(l);
    let rs = query::query_schema(r);
    match condition {
        JoinCondition::Absent => match binder::relation::join_schema(
            ls,
            rs,
            LogicalJoinType::Cross,
        ) {
            Err(e) => Err(e),
            Ok(schema) => Ok(
                QueryPlanView::Join {
                    left: Box::new(l),
                    right: Box::new(r),
                    join_type,
                    condition: LogicalJoinConditionView::Absent,
                    schema,
                },
            ),
        },
        JoinCondition::On(pred) => match binder::relation::join_schema(ls, rs, join_type) {
            Err(e) => Err(e),
            Ok(schema) => match bound_expr(pred, schema, cat, scope) {
                Err(e) => Err(e),
                Ok(x) => match checked_predicate("JOIN ON predicate must be boolean, got "@, x) {
                    Err(e) => Err(e),
                    Ok(predicate) => Ok(
                        QueryPlanView::Join {
                            left: Box::new(l),
                            right: Box::new(r),
                            join_type,
                            condition: LogicalJoinConditionView::On(predicate),
                            schema,
                        },
                    ),
                },
            },
        },
        JoinCondition::Using(cols) => match binder::relation::using_pairs(
            cols@,
            0,
            Seq::empty(),
            ls,
            rs,
        ) {
            Err(e) => Err(e),
            Ok(pairs) => match binder::relation::using_schema(ls, rs, pairs, join_type) {
                Err(e) => Err(e),
                Ok(schema) => Ok(
                    QueryPlanView::Join {
                        left: Box::new(l),
                        right: Box::new(r),
                        join_type,
                        condition: LogicalJoinConditionView::Using(pairs),
                        schema,
                    },
                ),
            },
        },
    }
}

/// Aggregates with one more call, unless a call of the same function and output
/// name is among them.
pub open spec fn with_aggregate(
    acc: Seq<LogicalAggregateExprView>,
    func: AggregateFunc,
    arg: Option<ScalarExprView>,
    distinct: bool,
    name: Seq<char>,
) -> Seq<LogicalAggregateExprView> {
    if binder::aggregate::already_collected(acc, func, name) {
        acc
    } else {
        acc.push(
            LogicalAggregateExprView {
                func,
                arg,
                direct_arg: None,
                order_by: None,
                distinct,
                output_name: name,
                data_type: binder::aggregate::aggregate_type(
                    func,
                    match arg {
                        Some(x) => query::scalar_type(x),
                        None => DataTypeView::Null,
                    },
                ),
            },
        )
    }
}

/// The aggregates collected from an expression, after those in `acc`.
pub open spec fn collected(
    e: Expr,
    alias: Option<Identifier>,
    input: SchemaView,
    acc: Seq<LogicalAggregateExprView>,
    cat: CatalogView,
    scope: Seq<SchemaView>,
) -> Result<Seq<LogicalAggregateExprView>, PlanErrorView>
    decreases e, 2int,
{
    match e {
        Expr::Call { name, args, distinct, .. } => {
            let func_name = binder::names::simple_name(name);
            let bare = args@.len() == 0 || binder::aggregate::star_argument(args@);
            match binder::aggregate::aggregate_of(func_name, bare) {
                None => Err(
                    PlanErrorView::NotSupported(
                        "non-aggregate function calls in aggregation context"@,
                    ),
                ),
                Some(func) => {
                    let output = binder::aggregate::collected_name(func_name, alias);
                    if bare {
                        Ok(with_aggregate(acc, func, None, distinct, output))
                    } else {
                        match bound_expr(args@[0], input, cat, scope) {
                            Err(err) => Err(err),
                            Ok(x) => Ok(with_aggregate(acc, func, Some(x), distinct, output)),
                        }
                    }
                },
            }
        },
        Expr::Paren { expr } => collected(*expr, alias, input, acc, cat, scope),
        Expr::Unary { expr, .. } => collected(*expr, alias, input, acc, cat, scope),
        Expr::Binary { left, right, .. } => match collected(*left, None, input, acc, cat, scope) {
            Err(err) => Err(err),
            Ok(acc) => collected(*right, None, input, acc, cat, scope),
        },
        Expr::IsNull { expr, .. } => collected(*expr, None, input, acc, cat, scope),
        Expr::Between { expr, low, high, .. } => match collected(
            *expr,
            None,
            input,
            acc,
            cat,
            scope,
        ) {
            Err(err) => Err(err),
            Ok(acc) => match collected(*low, None, input, acc, cat, scope) {
                Err(err) => Err(err),
                Ok(acc) => collected(*high, None, input, acc, cat, scope),
            },
        },
        Expr::InSubquery { expr, .. } => collected(*expr, None, input, acc, cat, scope),
        Expr::Any { expr, .. } => collected(*expr, None, input, acc, cat, scope),
        _ => Ok(acc),
    }
}

/// The aggregates collected from the projection items from the `i`-th on.
pub open spec fn collected_items(
    items: Seq<SelectItem>,
    i: int,
    acc: Seq<LogicalAggregateExprView>,
    input: SchemaView,
    cat: CatalogView,
    scope: Seq<SchemaView>,
) -> Result<Seq<LogicalAggregateExprView>, PlanErrorView>
    decreases items, items.len() - i,
{
    if i < 0 || i >= items.len() {
        Ok(acc)
    } else {
        match items[i] {
            SelectItem::Expr { expr, alias } => match collected(
                expr,
                alias,
                input,
                acc,
                cat,
                scope,
            ) {
                Err(e) => Err(e),
                Ok(acc) => collected_items(items, i + 1, acc, input, cat, scope),
            },
            _ => collected_items(items, i + 1, acc, input, cat, scope),
        }
    }
}

/// The name of the `i`-th grouping column: a column keeps its name.
pub open spec fn group_name(g: ScalarExprView, i: int) -> Seq<char> {
    match g {
        ScalarExprView::Column { name, .. } => name,
        _ => "group"@ + text::decimal(i as nat),
    }
}

/// The columns that an aggregation produces: its groups, then its aggregates.
pub open spec fn aggregate_fields(
    groups: Seq<ScalarExprView>,
    aggs: Seq<LogicalAggregateExprView>,
) -> Seq<FieldView> {
    Seq::new(
        groups.len(),
        |i: int| schema::nullable_field(group_name(groups[i], i), query::scalar_type(groups[i])),
    ) + Seq::new(
        aggs.len(),
        |i: int| schema::nullable_field(aggs[i].output_name, aggs[i].data_type),
    )
}

/// The aggregation of a plan by given groups and aggregates.
pub open spec fn aggregation(
    p: QueryPlanView,
    group_by: Seq<ScalarExprView>,
    aggregates: Seq<LogicalAggregateExprView>,
) -> Result<QueryPlanView, PlanErrorView> {
    match error::labelled_schema(
        "aggregate schema: "@,
        binder::relation::unique_fields(aggregate_fields(group_by, aggregates)),
    ) {
        Err(e) => Err(e),
        Ok(schema) => Ok(
            QueryPlanView::Aggregate { input: Box::new(p), group_by, aggregates, schema },
        ),
    }
}

/// The aggregation that a `SELECT` makes of a plan.
pub open spec fn bound_aggregate(
    s: SelectStmt,
    p: QueryPlanView,
    cat: CatalogView,
    scope: Seq<SchemaView>,
) -> Result<QueryPlanView, PlanErrorView>
    decreases s, 6int,
{
    let input = query::query_schema(p);
    match bound_exprs(s.group_by@, 0, Seq::empty(), input, cat, scope) {
        Err(e) => Err(e),
        Ok(groups) => match collected_items(s.projection@, 0, Seq::empty(), input, cat, scope) {
            Err(e) => Err(e),
            Ok(acc) => {
                let aggs = match s.having {
                    Some(h) => collected(h, None, input, acc, cat, scope),
                    None => Ok(acc),
                };
                match aggs {
                    Err(e) => Err(e),
                    Ok(aggs) => aggregation(p, groups, aggs),
                }
            },
        },
    }
}

/// The aggregates of an aggregation, and none of another plan.
pub open spec fn aggregates_of(p: QueryPlanView) -> Seq<LogicalAggregateExprView> {
    match p {
        QueryPlanView::Aggregate { aggregates, .. } => aggregates,
        _ => Seq::empty(),
    }
}

/// The column of rows aggregated by `groups` grouping columns that holds an
/// aggregate call: the one collected under the alias of the call, or else under
/// the name of its function. Grouping columns are not looked at.
pub open spec fn aggregate_column(
    name: ObjectName,
    args: Seq<Expr>,
    alias: Option<Identifier>,
    input: SchemaView,
    groups: int,
    aggs: Seq<LogicalAggregateExprView>,
) -> Option<int> {
    let func_name = binder::names::simple_name(name);
    let bare = args.len() == 0 || binder::aggregate::star_argument(args);
    match binder::aggregate::aggregate_of(func_name, bare) {
        None => None,
        Some(func) => {
            let under_alias = binder::aggregate::call_place(
                aggs,
                func,
                binder::aggregate::collected_name(func_name, alias),
                0,
            );
            let place = match under_alias {
                Some(k) => Some(k),
                None => binder::aggregate::call_place(aggs, func, func_name, 0),
            };
            match place {
                Some(k) => if 0 <= groups && groups + k < input.fields.len() {
                    Some(groups + k)
                } else {
                    None
                },
                None => None,
            }
        },
    }
}

/// What an expression over rows aggregated by `groups` grouping columns is bound
/// to: an aggregate call is a reference to its column, where there is one.
pub open spec fn bound_expr_or_agg(
    e: Expr,
    alias: Option<Identifier>,
    input: SchemaView,
    groups: int,
    aggs: Seq<LogicalAggregateExprView>,
    cat: CatalogView,
    scope: Seq<SchemaView>,
) -> Result<ScalarExprView, PlanErrorView>
    decreases e, 2int,
{
    match e {
        Expr::Call { name, args, .. } => match aggregate_column(
            name,
            args@,
            alias,
            input,
            groups,
            aggs,
        ) {
            Some(i) => Ok(binder::relation::column_at(input, i)),
            None => bound_expr(e, input, cat, scope),
        },
        Expr::Paren { expr } => bound_expr_or_agg(*expr, alias, input, groups, aggs, cat, scope),
        Expr::Unary { op, expr } => match bound_expr_or_agg(
            *expr,
            alias,
            input,
            groups,
            aggs,
            cat,
            scope,
        ) {
            Err(err) => Err(err),
            Ok(x) => match binder::typing::unary_type(op, query::scalar_type(x)) {
                Err(err) => Err(err),
                Ok(t) => Ok(ScalarExprView::Unary { op, expr: Box::new(x), data_type: t }),
            },
        },
        Expr::Binary { op, left, right } => match bound_expr_or_agg(
            *left,
            None,
            input,
            groups,
            aggs,
            cat,
            scope,
        ) {
            Err(err) => Err(err),
            Ok(l) => match bound_expr_or_agg(*right, None, input, groups, aggs, cat, scope) {
                Err(err) => Err(err),
                Ok(r) => binder::typing::typed_binary(op, l, r),
            },
        },
        Expr::IsNull { expr, negated } => match bound_expr_or_agg(
            *expr,
            None,
            input,
            groups,
            aggs,
            cat,
            scope,
        ) {
            Err(err) => Err(err),
            Ok(x) => Ok(ScalarExprView::IsNull { expr: Box::new(x), negated }),
        },
        Expr::Between { expr, low, high, negated, symmetric } => match bound_expr_or_agg(
            *expr,
            None,
            input,
            groups,
            aggs,
            cat,
            scope,
        ) {
            Err(err) => Err(err),
            Ok(x) => match bound_expr_or_agg(*low, None, input, groups, aggs, cat, scope) {
                Err(err) => Err(err),
                Ok(l) => match bound_expr_or_agg(*high, None, input, groups, aggs, cat, scope) {
                    Err(err) => Err(err),
                    Ok(h) => binder::typing::between_test(x, l, h, negated, symmetric),
                },
            },
        },
        Expr::InSubquery { expr, select, negated } => match bound_expr_or_agg(
            *expr,
            None,
            input,
            groups,
            aggs,
            cat,
            scope,
        ) {
            Err(err) => Err(err),
            Ok(lhs) => match bound_select_with_ctes(
                *select,
                cat,
                Seq::empty(),
                scope.push(input),
            ) {
                Err(err) => Err(err),
                Ok(p) => membership(
                    "IN subquery must return exactly 1 column, got "@,
                    lhs,
                    p,
                    negated,
                    true,
                ),
            },
        },
        Expr::Any { expr, op, select } => if op != BinaryOp::Eq {
            Err(
                PlanErrorView::NotSupported(
                    "ANY with non-equality operator (only `= ANY` is supported)"@,
                ),
            )
        } else {
            match bound_expr_or_agg(*expr, None, input, groups, aggs, cat, scope) {
                Err(err) => Err(err),
                Ok(lhs) => match bound_select_with_ctes(
                    *select,
                    cat,
                    Seq::empty(),
                    scope.push(input),
                ) {
                    Err(err) => Err(err),
                    Ok(p) => membership(
                        "= ANY subquery must return exactly 1 column, got "@,
                        lhs,
                        p,
                        false,
                        false,
                    ),
                },
            }
        },
        _ => bound_expr(e, input, cat, scope),
    }
}

/// Aggregated rows under the `HAVING` predicate, where there is one.
pub open spec fn filtered_groups(
    p: QueryPlanView,
    having: Option<Expr>,
    groups: int,
    cat: CatalogView,
    scope: Seq<SchemaView>,
) -> Result<QueryPlanView, PlanErrorView>
    decreases having, 0int,
{
    match having {
        None => Ok(p),
        Some(e) => match bound_expr_or_agg(
            e,
            None,
            query::query_schema(p),
            groups,
            aggregates_of(p),
            cat,
            scope,
        ) {
            Err(err) => Err(err),
            Ok(x) => match checked_predicate("HAVING predicate must be boolean, got "@, x) {
                Err(err) => Err(err),
                Ok(predicate) => Ok(QueryPlanView::Filter { input: Box::new(p), predicate }),
            },
        },
    }
}

/// The named expressions of a projection over aggregated rows with `groups`
/// grouping columns, from the `i`-th item on. A wildcard stands for all columns.
pub open spec fn bound_projection_agg(
    items: Seq<SelectItem>,
    i: int,
    acc: Seq<(ScalarExprView, Seq<char>)>,
    input: SchemaView,
    groups: int,
    aggs: Seq<LogicalAggregateExprView>,
    cat: CatalogView,
    scope: Seq<SchemaView>,
) -> Result<Seq<(ScalarExprView, Seq<char>)>, PlanErrorView>
    decreases items, items.len() - i,
{
    if i < 0 || i >= items.len() {
        Ok(acc)
    } else {
        match items[i] {
            SelectItem::Expr { expr, alias } => match bound_expr_or_agg(
                expr,
                alias,
                input,
                groups,
                aggs,
                cat,
                scope,
            ) {
                Err(e) => Err(e),
                Ok(x) => bound_projection_agg(
                    items,
                    i + 1,
                    acc.push((x, binder::names::named_output(expr, x, alias))),
                    input,
                    groups,
                    aggs,
                    cat,
                    scope,
                ),
            },
            _ => bound_projection_agg(
                items,
                i + 1,
                acc + binder::relation::all_columns(input),
                input,
                groups,
                aggs,
                cat,
                scope,
            ),
        }
    }
}

/// The columns that `*` stands for: those offered by the `FROM` items, or all
/// columns of the row where there is no item.
pub open spec fn wildcard_columns(input: SchemaView, entries: Seq<ScopeEntryView>) -> Seq<
    (ScalarExprView, Seq<char>),
> {
    if entries.len() == 0 {
        binder::relation::all_columns(input)
    } else {
        binder::relation::qualified_columns(entries, None, 0)
    }
}

/// The named expressions of a projection, from the `i`-th item on.
pub open spec fn bound_projection(
    items: Seq<SelectItem>,
    i: int,
    acc: Seq<(ScalarExprView, Seq<char>)>,
    input: SchemaView,
    entries: Seq<ScopeEntryView>,
    cat: CatalogView,
    scope: Seq<SchemaView>,
) -> Result<Seq<(ScalarExprView, Seq<char>)>, PlanErrorView>
    decreases items, items.len() - i,
{
    if i < 0 || i >= items.len() {
        Ok(acc)
    } else {
        match items[i] {
            SelectItem::Wildcard => bound_projection(
                items,
                i + 1,
                acc + wildcard_columns(input, entries),
                input,
                entries,
                cat,
                scope,
            ),
            SelectItem::QualifiedWildcard { qualifier } => {
                let found = binder::relation::qualified_columns(entries, Some(qualifier.value@), 0);
                if found.len() == 0 {
                    Err(PlanErrorView::TableNotFound(qualifier.value@))
                } else {
                    bound_projection(items, i + 1, acc + found, input, entries, cat, scope)
                }
            },
            SelectItem::Expr { expr, alias } => match bound_expr(expr, input, cat, scope) {
                Err(e) => Err(e),
                Ok(x) => bound_projection(
                    items,
                    i + 1,
                    acc.push((x, binder::names::named_output(expr, x, alias))),
                    input,
                    entries,
                    cat,
                    scope,
                ),
            },
        }
    }
}

} // verus!
