//! What holds of every bound expression and of every bound `SELECT`.
use crate::ast::{
    CteDef, Expr, Identifier, JoinCondition, ObjectName, OrderItem, SelectItem, SelectStmt,
    TableRef,
};
use crate::binder::relation::ScopeEntryView;
use crate::binder::{aggregate, bound, dml, names, relation, typing};
use crate::catalog::CatalogView;
use crate::datatype::DataTypeView;
use crate::error::PlanErrorView;
use crate::query::{
    AggregateFunc, LogicalAggregateExprView, LogicalJoinConditionView, LogicalJoinType, QueryPlanView,
    ScalarExprView, SortKeyView,
};
use crate::schema::SchemaView;
use crate::{query, schema, scope, text};
use vstd::prelude::*;

verus! {

/// Whether a row has a column at a position, of a type.
pub open spec fn has_column(row: SchemaView, index: usize, data_type: DataTypeView) -> bool {
    exists|i: int|
        0 <= i < row.fields.len() && index == i as usize && (#[trigger] row.fields[i]).data_type
            == data_type
}

/// Whether an enclosing query has a column at a position, of a type.
pub open spec fn has_outer_column(
    rows: Seq<SchemaView>,
    depth: usize,
    index: usize,
    data_type: DataTypeView,
) -> bool {
    exists|skipped: int|
        0 <= skipped < rows.len() && depth == (skipped + 1) as usize && has_column(
            #[trigger] rows[rows.len() - 1 - skipped],
            index,
            data_type,
        )
}

/// Whether an expression refers only to columns that its row or the rows of
/// enclosing queries have, with their types, and every operation has the type
/// that its operands give it. Of a subquery it tells the number and the type of
/// the columns, and whether it is correlated.
pub open spec fn refers_within(x: ScalarExprView, row: SchemaView, rows: Seq<SchemaView>) -> bool
    decreases x,
{
    match x {
        ScalarExprView::Literal { .. } => true,
        ScalarExprView::Parameter { .. } => true,
        ScalarExprView::Column { index, data_type, .. } => has_column(row, index, data_type),
        ScalarExprView::OuterColumn { frame_depth, column_index, data_type, .. } =>
            has_outer_column(rows, frame_depth, column_index, data_type),
        ScalarExprView::Unary { op, expr, data_type } => refers_within(*expr, row, rows)
            && typing::unary_type(op, query::scalar_type(*expr)) == Ok::<_, PlanErrorView>(data_type),
        ScalarExprView::Binary { op, left, right, data_type } => refers_within(*left, row, rows)
            && refers_within(*right, row, rows) && typing::operation_type(
            op,
            query::scalar_type(*left),
            query::scalar_type(*right),
        ) == Ok::<_, PlanErrorView>(data_type),
        ScalarExprView::IsNull { expr, .. } => refers_within(*expr, row, rows),
        ScalarExprView::FunctionCall { .. } => false,
        ScalarExprView::ScalarSubquery { subplan, correlated, data_type } => {
            &&& correlated == query::query_has_outer(*subplan)
            &&& query::query_schema(*subplan).fields.len() == 1
            &&& query::query_schema(*subplan).fields[0].data_type == data_type
        },
        ScalarExprView::Exists { subplan, correlated, .. } => correlated == query::query_has_outer(
            *subplan,
        ),
        ScalarExprView::InSubquery { expr, subplan, correlated, data_type, .. } => {
            &&& refers_within(*expr, row, rows)
            &&& correlated == query::query_has_outer(*subplan)
            &&& query::query_schema(*subplan).fields.len() == 1
            &&& query::query_schema(*subplan).fields[0].data_type == data_type
        },
    }
}

/// What a name refers to in the enclosing queries is a column of one of them. A
/// name that refers to nothing is the name of none of their columns.
pub proof fn outer_columns_exist(rows: Seq<SchemaView>, name: Seq<char>, skipped: int)
    requires
        0 <= skipped,
    ensures
        match scope::resolve_past(rows, name, skipped) {
            Some(r) => has_outer_column(rows, r.frame_depth, r.column_index, r.data_type),
            None => forall|k: int, i: int|
                skipped <= k < rows.len() && 0 <= i < rows[rows.len() - 1 - k].fields.len()
                    ==> !text::same_fold(
                    (#[trigger] rows[rows.len() - 1 - k].fields[i]).name,
                    name,
                ),
        },
    decreases rows.len() - skipped,
{
    if skipped < rows.len() {
        let frame = rows[rows.len() - 1 - skipped];
        schema::find_gives_first(frame.fields, name, 0);
        match schema::find_field(frame, name) {
            Some(i) => {
                assert(frame.fields[i].data_type == frame.fields[i].data_type);
                assert(has_column(frame, i as usize, frame.fields[i].data_type));
            },
            None => {
                outer_columns_exist(rows, name, skipped + 1);
            },
        }
    }
}

/// A column name is ambiguous exactly when two columns of the row have it, and
/// unknown exactly when neither the row nor an enclosing query has it. A column
/// of the row hides those of enclosing queries.
pub proof fn column_names_are_resolved(name: ObjectName, row: SchemaView, rows: Seq<SchemaView>)
    ensures
        ({
            let col = names::last_part(name);
            let made = bound::bound_column(name, row, rows);
            let here = exists|i: int|
                0 <= i < row.fields.len() && text::same_fold(#[trigger] row.fields[i].name, col);
            let twice = exists|i: int, j: int|
                0 <= i < j < row.fields.len() && text::same_fold(#[trigger] row.fields[i].name, col)
                    && text::same_fold(#[trigger] row.fields[j].name, col);
            let outside = exists|k: int, i: int|
                0 <= k < rows.len() && 0 <= i < rows[rows.len() - 1 - k].fields.len()
                    && text::same_fold((#[trigger] rows[rows.len() - 1 - k].fields[i]).name, col);
            &&& made == Err::<ScalarExprView, _>(PlanErrorView::Ambiguous(col)) <==> twice
            &&& made == Err::<ScalarExprView, _>(PlanErrorView::ColumnNotFound(col)) <==> !here
                && !outside
            &&& made is Ok <==> (here && !twice) || (!here && outside)
            &&& made matches Ok(x) ==> (x is Column <==> here) && refers_within(x, row, rows)
        }),
{
    let col = names::last_part(name);
    schema::find_gives_first(row.fields, col, 0);
    outer_columns_exist(rows, col, 0);
    match schema::find_field(row, col) {
        Some(i) => {
            schema::find_gives_first(row.fields, col, i + 1);
            assert(row.fields[i].data_type == row.fields[i].data_type);
            match schema::find_from(row.fields, col, i + 1) {
                Some(j) => {
                    assert(text::same_fold(row.fields[j].name, col));
                },
                None => {
                    assert forall|a: int, b: int|
                        0 <= a < b < row.fields.len() && text::same_fold(
                            #[trigger] row.fields[a].name,
                            col,
                        ) implies !text::same_fold(#[trigger] row.fields[b].name, col) by {
                        assert(a == i);
                    }
                },
            }
        },
        None => {
            if scope::resolve_outer(rows, col) is Some {
                outer_match(rows, col, 0);
            }
        },
    }
}

proof fn outer_match(rows: Seq<SchemaView>, name: Seq<char>, skipped: int)
    requires
        0 <= skipped,
        scope::resolve_past(rows, name, skipped) is Some,
    ensures
        exists|k: int, i: int|
            0 <= k < rows.len() && 0 <= i < rows[rows.len() - 1 - k].fields.len()
                && text::same_fold((#[trigger] rows[rows.len() - 1 - k].fields[i]).name, name),
    decreases rows.len() - skipped,
{
    let frame = rows[rows.len() - 1 - skipped];
    schema::find_gives_first(frame.fields, name, 0);
    match schema::find_field(frame, name) {
        Some(i) => {
            assert(text::same_fold(rows[rows.len() - 1 - skipped].fields[i].name, name));
        },
        None => {
            outer_match(rows, name, skipped + 1);
        },
    }
}

proof fn field_refers_within(row: SchemaView, name: Seq<char>, rows: Seq<SchemaView>)
    ensures
        schema::find_field(row, name) matches Some(i) ==> refers_within(
            relation::column_at(row, i),
            row,
            rows,
        ),
{
    schema::find_gives_first(row.fields, name, 0);
    if let Some(i) = schema::find_field(row, name) {
        assert(row.fields[i].data_type == row.fields[i].data_type);
    }
}

/// A bound expression refers only to columns that there are, and is typed by
/// its operands throughout.
pub proof fn bound_expressions_refer_within(
    e: Expr,
    row: SchemaView,
    cat: CatalogView,
    rows: Seq<SchemaView>,
)
    ensures
        bound::bound_expr(e, row, cat, rows) matches Ok(x) ==> refers_within(x, row, rows),
    decreases e,
{
    match e {
        Expr::Column { name } => {
            column_names_are_resolved(name, row, rows);
        },
        Expr::Paren { expr } => {
            bound_expressions_refer_within(*expr, row, cat, rows);
        },
        Expr::Unary { expr, .. } => {
            bound_expressions_refer_within(*expr, row, cat, rows);
        },
        Expr::IsNull { expr, .. } => {
            bound_expressions_refer_within(*expr, row, cat, rows);
        },
        Expr::Binary { left, right, .. } => {
            bound_expressions_refer_within(*left, row, cat, rows);
            bound_expressions_refer_within(*right, row, cat, rows);
        },
        Expr::Call { name, .. } => {
            field_refers_within(row, names::simple_name(name), rows);
        },
        Expr::InSubquery { expr, .. } => {
            bound_expressions_refer_within(*expr, row, cat, rows);
        },
        Expr::Any { expr, .. } => {
            bound_expressions_refer_within(*expr, row, cat, rows);
        },
        Expr::Between { expr, low, high, negated, symmetric } => {
            bound_expressions_refer_within(*expr, row, cat, rows);
            bound_expressions_refer_within(*low, row, cat, rows);
            bound_expressions_refer_within(*high, row, cat, rows);
            reveal_with_fuel(refers_within, 4);
        },
        _ => {},
    }
}

/// Whether all expressions of a list refer within a row.
pub open spec fn all_refer_within(
    list: Seq<ScalarExprView>,
    row: SchemaView,
    rows: Seq<SchemaView>,
) -> bool {
    forall|i: int| 0 <= i < list.len() ==> refers_within(#[trigger] list[i], row, rows)
}

/// Whether all named expressions refer within a row.
pub open spec fn outputs_refer_within(
    outs: Seq<(ScalarExprView, Seq<char>)>,
    row: SchemaView,
    rows: Seq<SchemaView>,
) -> bool {
    forall|i: int| 0 <= i < outs.len() ==> refers_within((#[trigger] outs[i]).0, row, rows)
}

/// Whether all sort keys refer within a row.
pub open spec fn keys_refer_within(
    keys: Seq<SortKeyView>,
    row: SchemaView,
    rows: Seq<SchemaView>,
) -> bool {
    forall|i: int| 0 <= i < keys.len() ==> refers_within((#[trigger] keys[i]).expr, row, rows)
}

/// Whether the arguments of all aggregates refer within a row, and each has the
/// type that its argument gives it.
pub open spec fn aggregates_refer_within(
    aggs: Seq<LogicalAggregateExprView>,
    row: SchemaView,
    rows: Seq<SchemaView>,
) -> bool {
    forall|i: int|
        0 <= i < aggs.len() ==> {
            let a = #[trigger] aggs[i];
            match a.arg {
                Some(x) => refers_within(x, row, rows) && a.data_type == aggregate::aggregate_type(
                    a.func,
                    query::scalar_type(x),
                ),
                None => a.data_type == aggregate::aggregate_type(a.func, DataTypeView::Null),
            }
        }
}

proof fn lists_refer_within(
    list: Seq<Expr>,
    i: int,
    acc: Seq<ScalarExprView>,
    row: SchemaView,
    cat: CatalogView,
    rows: Seq<SchemaView>,
)
    requires
        0 <= i,
        all_refer_within(acc, row, rows),
    ensures
        bound::bound_exprs(list, i, acc, row, cat, rows) matches Ok(out) ==> all_refer_within(
            out,
            row,
            rows,
        ),
    decreases list.len() - i,
{
    if i < list.len() {
        if let Ok(x) = bound::bound_expr(list[i], row, cat, rows) {
            bound_expressions_refer_within(list[i], row, cat, rows);
            lists_refer_within(list, i + 1, acc.push(x), row, cat, rows);
        }
    }
}

proof fn orders_refer_within(
    items: Seq<OrderItem>,
    i: int,
    acc: Seq<SortKeyView>,
    row: SchemaView,
    cat: CatalogView,
    rows: Seq<SchemaView>,
)
    requires
        0 <= i <= items.len(),
        keys_refer_within(acc, row, rows),
    ensures
        bound::bound_order_by(items, i, acc, row, cat, rows) matches Ok(out) ==> keys_refer_within(
            out,
            row,
            rows,
        ) && out.len() == acc.len() + items.len() - i,
    decreases items.len() - i,
{
    if i < items.len() {
        if let Ok(x) = bound::bound_expr(items[i].expr, row, cat, rows) {
            bound_expressions_refer_within(items[i].expr, row, cat, rows);
            orders_refer_within(
                items,
                i + 1,
                acc.push(
                    SortKeyView {
                        expr: x,
                        asc: items[i].direction is Asc,
                        nulls_first: bound::sorts_nulls_first(items[i].direction, items[i].nulls),
                    },
                ),
                row,
                cat,
                rows,
            );
        }
    }
}

proof fn collected_refer_within(
    e: Expr,
    alias: Option<Identifier>,
    row: SchemaView,
    acc: Seq<LogicalAggregateExprView>,
    cat: CatalogView,
    rows: Seq<SchemaView>,
)
    requires
        aggregates_refer_within(acc, row, rows),
    ensures
        bound::collected(e, alias, row, acc, cat, rows) matches Ok(out) ==> aggregates_refer_within(
            out,
            row,
            rows,
        ),
    decreases e,
{
    match e {
        Expr::Call { name, args, distinct, .. } => {
            let bare = args@.len() == 0 || aggregate::star_argument(args@);
            if !bare {
                bound_expressions_refer_within(args@[0], row, cat, rows);
            }
        },
        Expr::Paren { expr } => {
            collected_refer_within(*expr, alias, row, acc, cat, rows);
        },
        Expr::Unary { expr, .. } => {
            collected_refer_within(*expr, alias, row, acc, cat, rows);
        },
        Expr::Binary { left, right, .. } => {
            collected_refer_within(*left, None, row, acc, cat, rows);
            if let Ok(more) = bound::collected(*left, None, row, acc, cat, rows) {
                collected_refer_within(*right, None, row, more, cat, rows);
            }
        },
        Expr::IsNull { expr, .. } => {
            collected_refer_within(*expr, None, row, acc, cat, rows);
        },
        Expr::Between { expr, low, high, .. } => {
            collected_refer_within(*expr, None, row, acc, cat, rows);
            if let Ok(more) = bound::collected(*expr, None, row, acc, cat, rows) {
                collected_refer_within(*low, None, row, more, cat, rows);
                if let Ok(most) = bound::collected(*low, None, row, more, cat, rows) {
                    collected_refer_within(*high, None, row, most, cat, rows);
                }
            }
        },
        Expr::InSubquery { expr, .. } => {
            collected_refer_within(*expr, None, row, acc, cat, rows);
        },
        Expr::Any { expr, .. } => {
            collected_refer_within(*expr, None, row, acc, cat, rows);
        },
        _ => {},
    }
}

proof fn collected_items_refer_within(
    items: Seq<SelectItem>,
    i: int,
    acc: Seq<LogicalAggregateExprView>,
    row: SchemaView,
    cat: CatalogView,
    rows: Seq<SchemaView>,
)
    requires
        0 <= i,
        aggregates_refer_within(acc, row, rows),
    ensures
        bound::collected_items(items, i, acc, row, cat, rows) matches Ok(out)
            ==> aggregates_refer_within(out, row, rows),
    decreases items.len() - i,
{
    if i < items.len() {
        match items[i] {
            SelectItem::Expr { expr, alias } => {
                collected_refer_within(expr, alias, row, acc, cat, rows);
                if let Ok(more) = bound::collected(expr, alias, row, acc, cat, rows) {
                    collected_items_refer_within(items, i + 1, more, row, cat, rows);
                }
            },
            _ => {
                collected_items_refer_within(items, i + 1, acc, row, cat, rows);
            },
        }
    }
}

/// An aggregation produces its groups and then its aggregates, each with its
/// type, and all of them refer to the rows that it aggregates.
pub proof fn aggregations_give_groups_then_aggregates(
    s: SelectStmt,
    p: QueryPlanView,
    cat: CatalogView,
    rows: Seq<SchemaView>,
)
    ensures
        bound::bound_aggregate(s, p, cat, rows) matches Ok(made) ==> {
            &&& made matches QueryPlanView::Aggregate { input, group_by, aggregates, schema }
            &&& *input == p
            &&& group_by.len() == s.group_by@.len()
            &&& all_refer_within(group_by, query::query_schema(p), rows)
            &&& aggregates_refer_within(aggregates, query::query_schema(p), rows)
            &&& schema.fields.len() == group_by.len() + aggregates.len()
            &&& forall|i: int|
                0 <= i < group_by.len() ==> (#[trigger] schema.fields[i]).data_type
                    == query::scalar_type(group_by[i])
            &&& forall|i: int|
                0 <= i < aggregates.len() ==> (#[trigger] aggregates[i]).data_type
                    == schema.fields[group_by.len() + i].data_type
        },
{
    let row = query::query_schema(p);
    lists_refer_within(s.group_by@, 0, Seq::empty(), row, cat, rows);
    dml::bound_exprs_length(s.group_by@, 0, Seq::empty(), row, cat, rows);
    collected_items_refer_within(s.projection@, 0, Seq::empty(), row, cat, rows);
    if let Ok(acc) = bound::collected_items(s.projection@, 0, Seq::empty(), row, cat, rows) {
        if let Some(h) = s.having {
            collected_refer_within(h, None, row, acc, cat, rows);
        }
    }
}

/// Whether every offered column stands in a row at the place that it states,
/// with its type.
pub open spec fn offers_row(entries: Seq<ScopeEntryView>, row: SchemaView) -> bool {
    forall|i: int|
        0 <= i < entries.len() ==> (#[trigger] entries[i]).field_index < row.fields.len()
            && entries[i].field.data_type == row.fields[entries[i].field_index as int].data_type
}

proof fn merged_offers_row(
    le: Seq<ScopeEntryView>,
    re: Seq<ScopeEntryView>,
    l: SchemaView,
    r: SchemaView,
    t: LogicalJoinType,
)
    requires
        offers_row(le, l),
        offers_row(re, r),
        l.fields.len() + r.fields.len() <= usize::MAX,
    ensures
        relation::join_schema(l, r, t) matches Ok(s) ==> offers_row(
            relation::merged_entries(le, re, l.fields.len()),
            s,
        ),
{
    if let Ok(s) = relation::join_schema(l, r, t) {
        relation::joins_keep_columns(l, r, t);
        let all = relation::merged_entries(le, re, l.fields.len());
        assert forall|i: int| 0 <= i < all.len() implies (#[trigger] all[i]).field_index
            < s.fields.len() && all[i].field.data_type
            == s.fields[all[i].field_index as int].data_type by {
            if i < le.len() {
                assert(all[i] == le[i]);
            } else {
                let e = re[i - le.len()];
                assert(e.field_index < r.fields.len());
                assert(r.fields[e.field_index as int].data_type == e.field.data_type);
            }
        }
    }
}

proof fn moved_offers_row(
    entries: Seq<ScopeEntryView>,
    pairs: Seq<(usize, usize)>,
    l: SchemaView,
    r: SchemaView,
    t: LogicalJoinType,
    on_left: bool,
)
    requires
        offers_row(
            entries,
            if on_left {
                l
            } else {
                r
            },
        ),
        relation::using_fields(l, r, pairs, t).len() <= usize::MAX,
    ensures
        ({
            let row = SchemaView { fields: relation::using_fields(l, r, pairs, t) };
            offers_row(
                relation::moved_entries(entries, pairs, l.fields.len(), on_left, row),
                row,
            )
        }),
{
    let row = SchemaView { fields: relation::using_fields(l, r, pairs, t) };
    let all = relation::moved_entries(entries, pairs, l.fields.len(), on_left, row);
    assert forall|i: int| 0 <= i < all.len() implies (#[trigger] all[i]).field_index
        < row.fields.len() && all[i].field.data_type
        == row.fields[all[i].field_index as int].data_type by {
        assert(entries[i].field_index < if on_left {
            l.fields.len()
        } else {
            r.fields.len()
        });
        relation::using_places_are_in_the_row(
            l,
            r,
            pairs,
            t,
            on_left,
            entries[i].field_index as int,
        );
    }
}

proof fn joins_offer_their_rows(
    condition: JoinCondition,
    l: QueryPlanView,
    r: QueryPlanView,
    kind: LogicalJoinType,
    le: Seq<ScopeEntryView>,
    re: Seq<ScopeEntryView>,
    cat: CatalogView,
    rows: Seq<SchemaView>,
)
    requires
        query::query_schema(l).fields.len() <= usize::MAX ==> offers_row(
            le,
            query::query_schema(l),
        ),
        query::query_schema(r).fields.len() <= usize::MAX ==> offers_row(
            re,
            query::query_schema(r),
        ),
        query::query_schema(l).fields.len() + query::query_schema(r).fields.len() <= usize::MAX,
    ensures
        bound::bound_join(condition, l, r, kind, cat, rows) matches Ok(p)
            ==> query::query_schema(p).fields.len() <= usize::MAX ==> offers_row(
            bound::joined_entries(le, re, query::query_schema(l).fields.len(), p),
            query::query_schema(p),
        ),
{
    let ls = query::query_schema(l);
    let rs = query::query_schema(r);
    if let Ok(p) = bound::bound_join(condition, l, r, kind, cat, rows) {
        if let JoinCondition::Using(cols) = condition {
            let pairs = relation::using_pairs(cols@, 0, Seq::empty(), ls, rs)->Ok_0;
            let row = query::query_schema(p);
            assert(row.fields == relation::using_fields(ls, rs, pairs, kind));
            if row.fields.len() <= usize::MAX {
                moved_offers_row(le, pairs, ls, rs, kind, true);
                moved_offers_row(re, pairs, ls, rs, kind, false);
                assert(row == SchemaView { fields: relation::using_fields(ls, rs, pairs, kind) });
            }
        } else {
            let t = if condition is Absent {
                LogicalJoinType::Cross
            } else {
                kind
            };
            merged_offers_row(le, re, ls, rs, t);
        }
    }
}

/// Whether the rows of a `FROM` item and of the items that it joins fit into
/// memory.
pub open spec fn rows_fit(
    t: TableRef,
    cat: CatalogView,
    ctes: Seq<(Seq<char>, SchemaView)>,
    rows: Seq<SchemaView>,
) -> bool
    decreases t,
{
    match t {
        TableRef::Join { left, right, .. } => {
            &&& rows_fit(*left, cat, ctes, rows)
            &&& rows_fit(*right, cat, ctes, rows)
            &&& match (
                bound::bound_table_ref(*left, cat, ctes, rows),
                bound::bound_table_ref(*right, cat, ctes, rows),
            ) {
                (Ok((l, _)), Ok((r, _))) => query::query_schema(l).fields.len()
                    + query::query_schema(r).fields.len() <= usize::MAX,
                _ => true,
            }
        },
        _ => true,
    }
}

/// A `FROM` item offers columns of the row that it produces, so that a wildcard
/// stands for them. The rows fit into memory.
pub proof fn items_offer_their_rows(
    t: TableRef,
    cat: CatalogView,
    ctes: Seq<(Seq<char>, SchemaView)>,
    rows: Seq<SchemaView>,
)
    requires
        rows_fit(t, cat, ctes, rows),
    ensures
        bound::bound_table_ref(t, cat, ctes, rows) matches Ok((p, entries))
            ==> query::query_schema(p).fields.len() <= usize::MAX ==> offers_row(
            entries,
            query::query_schema(p),
        ),
    decreases t,
{
    match t {
        TableRef::Join { left, op, right, condition } => {
            items_offer_their_rows(*left, cat, ctes, rows);
            items_offer_their_rows(*right, cat, ctes, rows);
            match (
                bound::bound_table_ref(*left, cat, ctes, rows),
                bound::bound_table_ref(*right, cat, ctes, rows),
            ) {
                (Ok((l, le)), Ok((r, re))) => {
                    joins_offer_their_rows(
                        condition,
                        l,
                        r,
                        relation::join_type_of(op),
                        le,
                        re,
                        cat,
                        rows,
                    );
                },
                _ => {},
            }
        },
        _ => {},
    }
}

proof fn cross_joins_offer_their_rows(
    items: Seq<TableRef>,
    i: int,
    p: QueryPlanView,
    entries: Seq<ScopeEntryView>,
    cat: CatalogView,
    ctes: Seq<(Seq<char>, SchemaView)>,
    rows: Seq<SchemaView>,
)
    requires
        0 <= i,
        forall|k: int| 0 <= k < items.len() ==> rows_fit(#[trigger] items[k], cat, ctes, rows),
        query::query_schema(p).fields.len() <= usize::MAX ==> offers_row(
            entries,
            query::query_schema(p),
        ),
    ensures
        bound::cross_joined(items, i, p, entries, cat, ctes, rows) matches Ok((made, offered))
            ==> query::query_schema(made).fields.len() <= usize::MAX ==> offers_row(
            offered,
            query::query_schema(made),
        ),
    decreases items.len() - i,
{
    if i < items.len() {
        items_offer_their_rows(items[i], cat, ctes, rows);
        if let Ok((right, more)) = bound::bound_table_ref(items[i], cat, ctes, rows) {
            let ls = query::query_schema(p);
            let rs = query::query_schema(right);
            if let Ok(schema) = relation::join_schema(ls, rs, LogicalJoinType::Cross) {
                relation::joins_keep_columns(ls, rs, LogicalJoinType::Cross);
                if ls.fields.len() + rs.fields.len() <= usize::MAX {
                    merged_offers_row(entries, more, ls, rs, LogicalJoinType::Cross);
                }
                cross_joins_offer_their_rows(
                    items,
                    i + 1,
                    QueryPlanView::Join {
                        left: Box::new(p),
                        right: Box::new(right),
                        join_type: LogicalJoinType::Cross,
                        condition: LogicalJoinConditionView::Absent,
                        schema,
                    },
                    relation::merged_entries(entries, more, ls.fields.len()),
                    cat,
                    ctes,
                    rows,
                );
            }
        }
    }
}

/// A `FROM` list offers columns of the row that it produces. The rows fit into
/// memory.
pub proof fn from_lists_offer_their_rows(
    items: Seq<TableRef>,
    cat: CatalogView,
    ctes: Seq<(Seq<char>, SchemaView)>,
    rows: Seq<SchemaView>,
)
    requires
        forall|k: int| 0 <= k < items.len() ==> rows_fit(#[trigger] items[k], cat, ctes, rows),
    ensures
        bound::bound_from(items, cat, ctes, rows) matches Ok((p, entries))
            ==> query::query_schema(p).fields.len() <= usize::MAX ==> offers_row(
            entries,
            query::query_schema(p),
        ),
{
    if items.len() > 0 {
        items_offer_their_rows(items[0], cat, ctes, rows);
        if let Ok((p, entries)) = bound::bound_table_ref(items[0], cat, ctes, rows) {
            cross_joins_offer_their_rows(items, 1, p, entries, cat, ctes, rows);
        }
    }
}

/// The condition of a join refers to the row that the join produces, and is a
/// truth value.
pub proof fn join_conditions_refer_within(
    condition: JoinCondition,
    l: QueryPlanView,
    r: QueryPlanView,
    kind: LogicalJoinType,
    cat: CatalogView,
    rows: Seq<SchemaView>,
)
    ensures
        bound::bound_join(condition, l, r, kind, cat, rows) matches Ok(made) ==> {
            &&& made matches QueryPlanView::Join { left, right, join_type, condition: on, schema }
            &&& *left == l && *right == r && join_type == kind
            &&& on matches LogicalJoinConditionView::On(x) ==> refers_within(x, schema, rows)
                && typing::truth_type(query::scalar_type(x))
        },
{
    if let JoinCondition::On(pred) = condition {
        if let Ok(schema) = relation::join_schema(
            query::query_schema(l),
            query::query_schema(r),
            kind,
        ) {
            bound_expressions_refer_within(pred, schema, cat, rows);
        }
    }
}

proof fn qualified_refer_within(
    entries: Seq<ScopeEntryView>,
    qualifier: Option<Seq<char>>,
    i: int,
    row: SchemaView,
    rows: Seq<SchemaView>,
)
    requires
        0 <= i,
        offers_row(entries, row),
    ensures
        outputs_refer_within(relation::qualified_columns(entries, qualifier, i), row, rows),
    decreases entries.len() - i,
{
    if i < entries.len() {
        qualified_refer_within(entries, qualifier, i + 1, row, rows);
        let first = relation::entry_output(entries[i]);
        assert(row.fields[entries[i].field_index as int].data_type
            == entries[i].field.data_type);
        assert(refers_within(first.0, row, rows));
        let rest = relation::qualified_columns(entries, qualifier, i + 1);
        assert forall|k: int| 0 <= k < (seq![first] + rest).len() implies refers_within(
            (#[trigger] (seq![first] + rest)[k]).0,
            row,
            rows,
        ) by {
            if k > 0 {
                assert((seq![first] + rest)[k] == rest[k - 1]);
            }
        }
    }
}

proof fn all_columns_refer_within(row: SchemaView, rows: Seq<SchemaView>)
    ensures
        outputs_refer_within(relation::all_columns(row), row, rows),
{
    let outs = relation::all_columns(row);
    assert forall|i: int| 0 <= i < outs.len() implies refers_within(
        (#[trigger] outs[i]).0,
        row,
        rows,
    ) by {
        assert(row.fields[i].data_type == row.fields[i].data_type);
    }
}

/// What a projection names refers to columns of its row, where the row is what
/// the `FROM` items offer.
pub proof fn projections_refer_within(
    items: Seq<SelectItem>,
    i: int,
    acc: Seq<(ScalarExprView, Seq<char>)>,
    row: SchemaView,
    entries: Seq<ScopeEntryView>,
    cat: CatalogView,
    rows: Seq<SchemaView>,
)
    requires
        0 <= i,
        offers_row(entries, row),
        outputs_refer_within(acc, row, rows),
    ensures
        bound::bound_projection(items, i, acc, row, entries, cat, rows) matches Ok(outs)
            ==> outputs_refer_within(outs, row, rows),
    decreases items.len() - i,
{
    if i < items.len() {
        match items[i] {
            SelectItem::Wildcard => {
                all_columns_refer_within(row, rows);
                qualified_refer_within(entries, None, 0, row, rows);
                let found = bound::wildcard_columns(row, entries);
                assert(outputs_refer_within(acc + found, row, rows));
                projections_refer_within(items, i + 1, acc + found, row, entries, cat, rows);
            },
            SelectItem::QualifiedWildcard { qualifier } => {
                qualified_refer_within(entries, Some(qualifier.value@), 0, row, rows);
                let found = relation::qualified_columns(entries, Some(qualifier.value@), 0);
                assert(outputs_refer_within(acc + found, row, rows));
                projections_refer_within(items, i + 1, acc + found, row, entries, cat, rows);
            },
            SelectItem::Expr { expr, alias } => {
                bound_expressions_refer_within(expr, row, cat, rows);
                if let Ok(x) = bound::bound_expr(expr, row, cat, rows) {
                    let more = acc.push((x, names::named_output(expr, x, alias)));
                    assert(outputs_refer_within(more, row, rows));
                    projections_refer_within(items, i + 1, more, row, entries, cat, rows);
                }
            },
        }
    }
}

/// What an expression over aggregated rows is bound to refers within them.
pub proof fn grouped_expressions_refer_within(
    e: Expr,
    alias: Option<Identifier>,
    row: SchemaView,
    groups: int,
    aggs: Seq<LogicalAggregateExprView>,
    cat: CatalogView,
    rows: Seq<SchemaView>,
)
    ensures
        bound::bound_expr_or_agg(e, alias, row, groups, aggs, cat, rows) matches Ok(x)
            ==> refers_within(x, row, rows),
    decreases e,
{
    match e {
        Expr::Call { name, args, .. } => {
            bound_expressions_refer_within(e, row, cat, rows);
            aggregate_columns_are_in_the_row(name, args@, alias, row, groups, aggs);
            if let Some(i) = bound::aggregate_column(name, args@, alias, row, groups, aggs) {
                assert(row.fields[i].data_type == row.fields[i].data_type);
            }
        },
        Expr::Paren { expr } => {
            grouped_expressions_refer_within(*expr, alias, row, groups, aggs, cat, rows);
        },
        Expr::Unary { expr, .. } => {
            grouped_expressions_refer_within(*expr, alias, row, groups, aggs, cat, rows);
        },
        Expr::Binary { left, right, .. } => {
            grouped_expressions_refer_within(*left, None, row, groups, aggs, cat, rows);
            grouped_expressions_refer_within(*right, None, row, groups, aggs, cat, rows);
        },
        Expr::IsNull { expr, .. } => {
            grouped_expressions_refer_within(*expr, None, row, groups, aggs, cat, rows);
        },
        Expr::Between { expr, low, high, negated, symmetric } => {
            grouped_expressions_refer_within(*expr, None, row, groups, aggs, cat, rows);
            grouped_expressions_refer_within(*low, None, row, groups, aggs, cat, rows);
            grouped_expressions_refer_within(*high, None, row, groups, aggs, cat, rows);
            reveal_with_fuel(refers_within, 4);
        },
        Expr::InSubquery { expr, .. } => {
            grouped_expressions_refer_within(*expr, None, row, groups, aggs, cat, rows);
        },
        Expr::Any { expr, .. } => {
            grouped_expressions_refer_within(*expr, None, row, groups, aggs, cat, rows);
        },
        _ => {
            bound_expressions_refer_within(e, row, cat, rows);
        },
    }
}

proof fn call_places_are_in_the_list(
    aggs: Seq<LogicalAggregateExprView>,
    func: AggregateFunc,
    name: Seq<char>,
    i: int,
)
    requires
        0 <= i,
    ensures
        aggregate::call_place(aggs, func, name, i) matches Some(k) ==> {
            &&& i <= k < aggs.len()
            &&& aggs[k].func == func
            &&& aggs[k].output_name == name
        },
        aggregate::call_place(aggs, func, name, i) is None ==> forall|k: int|
            i <= k < aggs.len() ==> !((#[trigger] aggs[k]).func == func && aggs[k].output_name
                == name),
    decreases aggs.len() - i,
{
    if i < aggs.len() {
        call_places_are_in_the_list(aggs, func, name, i + 1);
    }
}

/// An aggregate call over aggregated rows stands behind the grouping columns, in
/// the column of an aggregate of its own function. Where an aggregate of its
/// function was collected under its alias, that is the one.
pub proof fn aggregate_columns_are_in_the_row(
    name: ObjectName,
    args: Seq<Expr>,
    alias: Option<Identifier>,
    row: SchemaView,
    groups: int,
    aggs: Seq<LogicalAggregateExprView>,
)
    ensures
        bound::aggregate_column(name, args, alias, row, groups, aggs) matches Some(i) ==> {
            let func = aggregate::aggregate_of(
                names::simple_name(name),
                args.len() == 0 || aggregate::star_argument(args),
            );
            &&& 0 <= groups <= i < row.fields.len()
            &&& i - groups < aggs.len()
            &&& func == Some(aggs[i - groups].func)
            &&& alias matches Some(a) ==> aggregate::already_collected(
                aggs,
                aggs[i - groups].func,
                a.value@,
            ) ==> aggs[i - groups].output_name == a.value@
        },
{
    let func_name = names::simple_name(name);
    let bare = args.len() == 0 || aggregate::star_argument(args);
    if let Some(func) = aggregate::aggregate_of(func_name, bare) {
        let wanted = aggregate::collected_name(func_name, alias);
        call_places_are_in_the_list(aggs, func, wanted, 0);
        call_places_are_in_the_list(aggs, func, func_name, 0);
    }
}

proof fn grouped_projections_refer_within(
    items: Seq<SelectItem>,
    i: int,
    acc: Seq<(ScalarExprView, Seq<char>)>,
    row: SchemaView,
    groups: int,
    aggs: Seq<LogicalAggregateExprView>,
    cat: CatalogView,
    rows: Seq<SchemaView>,
)
    requires
        0 <= i,
        outputs_refer_within(acc, row, rows),
    ensures
        bound::bound_projection_agg(items, i, acc, row, groups, aggs, cat, rows) matches Ok(outs)
            ==> outputs_refer_within(outs, row, rows),
    decreases items.len() - i,
{
    if i < items.len() {
        match items[i] {
            SelectItem::Expr { expr, alias } => {
                grouped_expressions_refer_within(expr, alias, row, groups, aggs, cat, rows);
                if let Ok(x) = bound::bound_expr_or_agg(expr, alias, row, groups, aggs, cat, rows) {
                    let more = acc.push((x, names::named_output(expr, x, alias)));
                    assert(outputs_refer_within(more, row, rows));
                    grouped_projections_refer_within(items, i + 1, more, row, groups, aggs, cat, rows);
                }
            },
            _ => {
                all_columns_refer_within(row, rows);
                let more = acc + relation::all_columns(row);
                assert(outputs_refer_within(more, row, rows));
                grouped_projections_refer_within(items, i + 1, more, row, groups, aggs, cat, rows);
            },
        }
    }
}

/// Whether a plan is a source under filters, aggregations, sorts, projections
/// and limits, each of which refers to columns of the rows below it: filters by
/// truth values, projections under the types of their expressions.
pub open spec fn layered_over(
    p: QueryPlanView,
    source: QueryPlanView,
    rows: Seq<SchemaView>,
) -> bool
    decreases p,
{
    p == source || match p {
        QueryPlanView::Filter { input, predicate } => {
            &&& layered_over(*input, source, rows)
            &&& refers_within(predicate, query::query_schema(*input), rows)
            &&& typing::truth_type(query::scalar_type(predicate))
        },
        QueryPlanView::Aggregate { input, group_by, aggregates, .. } => {
            &&& layered_over(*input, source, rows)
            &&& all_refer_within(group_by, query::query_schema(*input), rows)
            &&& aggregates_refer_within(aggregates, query::query_schema(*input), rows)
        },
        QueryPlanView::Sort { input, keys } => {
            &&& layered_over(*input, source, rows)
            &&& keys_refer_within(keys, query::query_schema(*input), rows)
        },
        QueryPlanView::Project { input, exprs, schema } => {
            &&& layered_over(*input, source, rows)
            &&& outputs_refer_within(exprs, query::query_schema(*input), rows)
            &&& schema.fields == relation::output_fields(exprs)
        },
        QueryPlanView::Limit { input, .. } => layered_over(*input, source, rows),
        _ => false,
    }
}

proof fn filters_layer(
    label: Seq<char>,
    p: QueryPlanView,
    pred: Option<Expr>,
    source: QueryPlanView,
    cat: CatalogView,
    rows: Seq<SchemaView>,
)
    requires
        layered_over(p, source, rows),
    ensures
        bound::filtered(label, p, pred, cat, rows) matches Ok(made) ==> {
            &&& layered_over(made, source, rows)
            &&& query::query_schema(made) == query::query_schema(p)
            &&& made is Filter || made == p
        },
{
    if let Some(e) = pred {
        bound_expressions_refer_within(e, query::query_schema(p), cat, rows);
    }
}

proof fn group_filters_layer(
    p: QueryPlanView,
    having: Option<Expr>,
    groups: int,
    source: QueryPlanView,
    cat: CatalogView,
    rows: Seq<SchemaView>,
)
    requires
        layered_over(p, source, rows),
    ensures
        bound::filtered_groups(p, having, groups, cat, rows) matches Ok(made) ==> {
            &&& layered_over(made, source, rows)
            &&& query::query_schema(made) == query::query_schema(p)
        },
{
    if let Some(e) = having {
        let row = query::query_schema(p);
        let aggs = bound::aggregates_of(p);
        grouped_expressions_refer_within(e, None, row, groups, aggs, cat, rows);
    }
}

proof fn projections_layer(
    p: QueryPlanView,
    outs: Seq<(ScalarExprView, Seq<char>)>,
    order_by: Seq<OrderItem>,
    source: QueryPlanView,
    cat: CatalogView,
    rows: Seq<SchemaView>,
)
    requires
        layered_over(p, source, rows),
        outputs_refer_within(outs, query::query_schema(p), rows),
    ensures
        bound::projected(p, outs, order_by, cat, rows) matches Ok(made) ==> layered_over(
            made,
            source,
            rows,
        ) && made is Project,
{
    orders_refer_within(order_by, 0, Seq::empty(), query::query_schema(p), cat, rows);
    if let Ok(keys) = bound::bound_order_by(
        order_by,
        0,
        Seq::empty(),
        query::query_schema(p),
        cat,
        rows,
    ) {
        let sorted = QueryPlanView::Sort { input: Box::new(p), keys };
        assert(layered_over(sorted, source, rows));
    }
}

/// The plan of a `SELECT` without common table expressions and set operations
/// is its `FROM` source under well-referring layers, with the projection on
/// top, or a limit of it. The source rows fit into memory.
pub proof fn selects_are_layered(
    s: SelectStmt,
    cat: CatalogView,
    ctes: Seq<(Seq<char>, SchemaView)>,
    rows: Seq<SchemaView>,
)
    requires
        forall|k: int|
            0 <= k < s.from@.len() ==> rows_fit(#[trigger] s.from@[k], cat, ctes, rows),
        bound::bound_from(s.from@, cat, ctes, rows) matches Ok((source, _))
            ==> query::query_schema(source).fields.len() <= usize::MAX,
    ensures
        bound::bound_body(s, cat, ctes, rows) matches Ok(p) ==> {
            &&& bound::bound_from(s.from@, cat, ctes, rows) matches Ok((source, _))
            &&& layered_over(p, source, rows)
            &&& s.limit is None && s.offset is None ==> p is Project
            &&& p is Project || (p matches QueryPlanView::Limit { input, .. } && *input is Project)
        },
{
    from_lists_offer_their_rows(s.from@, cat, ctes, rows);
    if let Ok((source, entries)) = bound::bound_from(s.from@, cat, ctes, rows) {
        let label = "WHERE predicate must be boolean, got "@;
        filters_layer(label, source, s.where_clause, source, cat, rows);
        if let Ok(p) = bound::filtered(label, source, s.where_clause, cat, rows) {
            outputs_are_layered(s, p, entries, source, cat, rows);
        }
    }
}

proof fn outputs_are_layered(
    s: SelectStmt,
    p: QueryPlanView,
    entries: Seq<ScopeEntryView>,
    source: QueryPlanView,
    cat: CatalogView,
    rows: Seq<SchemaView>,
)
    requires
        layered_over(p, source, rows),
        offers_row(entries, query::query_schema(p)),
    ensures
        bound::bound_output(s, p, entries, cat, rows) matches Ok(made) ==> layered_over(
            made,
            source,
            rows,
        ) && made is Project,
{
    if bound::aggregates(s) {
        aggregations_give_groups_then_aggregates(s, p, cat, rows);
        if let Ok(grouped) = bound::bound_aggregate(s, p, cat, rows) {
            let groups = s.group_by@.len() as int;
            let aggs = bound::aggregates_of(grouped);
            group_filters_layer(grouped, s.having, groups, source, cat, rows);
            if let Ok(q) = bound::filtered_groups(grouped, s.having, groups, cat, rows) {
                let row = query::query_schema(q);
                grouped_projections_refer_within(
                    s.projection@,
                    0,
                    Seq::empty(),
                    row,
                    groups,
                    aggs,
                    cat,
                    rows,
                );
                if let Ok(outs) = bound::bound_projection_agg(
                    s.projection@,
                    0,
                    Seq::empty(),
                    row,
                    groups,
                    aggs,
                    cat,
                    rows,
                ) {
                    projections_layer(q, outs, s.order_by@, source, cat, rows);
                }
            }
        }
    } else {
        let row = query::query_schema(p);
        projections_refer_within(s.projection@, 0, Seq::empty(), row, entries, cat, rows);
        if let Ok(outs) = bound::bound_projection(
            s.projection@,
            0,
            Seq::empty(),
            row,
            entries,
            cat,
            rows,
        ) {
            projections_layer(p, outs, s.order_by@, source, cat, rows);
        }
    }
}

/// A row count limits the plan that it is put on, and keeps its columns.
pub proof fn limits_keep_columns(p: QueryPlanView, limit: Option<Expr>, offset: Option<Expr>)
    ensures
        bound::limited(p, limit, offset) matches Ok(made) ==> {
            &&& query::query_schema(made) == query::query_schema(p)
            &&& limit is None && offset is None ==> made == p
            &&& limit matches Some(e) ==> made matches QueryPlanView::Limit { input, n, .. }
                && *input == p && bound::stated_count(e, "LIMIT"@) == Ok::<_, PlanErrorView>(n)
        },
{
}

proof fn wrapping_keeps_columns(
    plans: Seq<(Seq<char>, bool, QueryPlanView)>,
    n: int,
    body: QueryPlanView,
)
    requires
        0 <= n <= plans.len(),
    ensures
        ({
            let p = bound::wrapped_in_ctes(plans, n, body);
            &&& query::query_schema(p) == query::query_schema(body)
            &&& n == 0 ==> p == body
            &&& n > 0 ==> {
                &&& p matches QueryPlanView::Cte { name, recursive, definition, .. }
                &&& name == plans[0].0
                &&& recursive == plans[0].1
                &&& *definition == plans[0].2
            }
        }),
    decreases n,
{
    if n > 0 {
        wrapping_keeps_columns(
            plans,
            n - 1,
            QueryPlanView::Cte {
                name: plans[n - 1].0,
                recursive: plans[n - 1].1,
                definition: Box::new(plans[n - 1].2),
                body: Box::new(body),
                schema: query::query_schema(body),
            },
        );
    }
}

proof fn ctes_follow_definitions(
    defs: Seq<CteDef>,
    i: int,
    ctes: Seq<(Seq<char>, SchemaView)>,
    plans: Seq<(Seq<char>, bool, QueryPlanView)>,
    cat: CatalogView,
    rows: Seq<SchemaView>,
)
    requires
        0 <= i <= defs.len(),
        i == plans.len(),
        forall|k: int|
            0 <= k < i ==> (#[trigger] plans[k]).0 == text::lower(defs[k].name.value@) && plans[k].1
                == defs[k].recursive,
    ensures
        bound::bound_ctes(defs, i, ctes, plans, cat, rows) matches Ok((visible, made)) ==> {
            &&& made.len() == defs.len()
            &&& visible.len() == ctes.len() + defs.len() - i
            &&& forall|k: int|
                0 <= k < defs.len() ==> (#[trigger] made[k]).0 == text::lower(defs[k].name.value@)
                    && made[k].1 == defs[k].recursive
        },
    decreases defs.len() - i,
{
    if i < defs.len() {
        if let Ok(p) = bound::bound_select_with_ctes(*defs[i].query, cat, ctes, rows) {
            if let Ok(s) = relation::aliased_schema(
                query::query_schema(p),
                defs[i].column_aliases@,
            ) {
                let name = text::lower(defs[i].name.value@);
                ctes_follow_definitions(
                    defs,
                    i + 1,
                    ctes.push((name, s)),
                    plans.push((name, defs[i].recursive, p)),
                    cat,
                    rows,
                );
            }
        }
    }
}

/// The first common table expression of a `SELECT` is the outermost node of its
/// plan, under its lowercase name and with its `RECURSIVE` mark. Without one
/// and without set operations the plan is that of the body.
pub proof fn first_cte_is_outermost(
    s: SelectStmt,
    cat: CatalogView,
    ctes: Seq<(Seq<char>, SchemaView)>,
    rows: Seq<SchemaView>,
)
    ensures
        bound::bound_select_with_ctes(s, cat, ctes, rows) matches Ok(p) ==> {
            &&& s.ctes@.len() > 0 ==> {
                &&& p matches QueryPlanView::Cte { name, recursive, .. }
                &&& name == text::lower(s.ctes@[0].name.value@)
                &&& recursive == s.ctes@[0].recursive
            }
            &&& s.ctes@.len() == 0 && s.set_ops@.len() == 0 ==> bound::bound_body(
                s,
                cat,
                ctes,
                rows,
            ) == Ok::<_, PlanErrorView>(p)
        },
{
    ctes_follow_definitions(s.ctes@, 0, ctes, Seq::empty(), cat, rows);
    if let Ok((visible, plans)) = bound::bound_ctes(s.ctes@, 0, ctes, Seq::empty(), cat, rows) {
        if let Ok(body) = bound::bound_body(s, cat, visible, rows) {
            if let Ok(p) = bound::with_set_ops(s.set_ops@, 0, body, cat, visible, rows) {
                wrapping_keeps_columns(plans, plans.len() as int, p);
            }
        }
    }
}

/// A subquery under an alias has the columns of the subquery under the listed
/// names, with their types.
pub proof fn aliased_subqueries_keep_types(
    select: SelectStmt,
    alias: Identifier,
    column_aliases: Vec<Identifier>,
    cat: CatalogView,
    ctes: Seq<(Seq<char>, SchemaView)>,
    rows: Seq<SchemaView>,
)
    ensures
        bound::bound_table_ref(
            TableRef::Subquery { select: Box::new(select), alias, column_aliases },
            cat,
            ctes,
            rows,
        ) matches Ok((p, entries)) ==> {
            &&& bound::bound_select_with_ctes(select, cat, ctes, rows) matches Ok(inner)
            &&& query::query_schema(p).fields == relation::renamed_fields(
                query::query_schema(inner).fields,
                column_aliases@,
            )
        },
{
    if let Ok(inner) = bound::bound_select_with_ctes(select, cat, ctes, rows) {
        let fields = query::query_schema(inner).fields;
        if column_aliases@.len() == 0 {
            assert(relation::renamed_fields(fields, column_aliases@) =~= fields);
        }
    }
}

/// The sort of a `SELECT` has as many keys as its `ORDER BY` list. Nulls sort
/// as stated, else first exactly in descending order.
pub proof fn sort_keys_follow_order_by(
    items: Seq<OrderItem>,
    row: SchemaView,
    cat: CatalogView,
    rows: Seq<SchemaView>,
)
    ensures
        bound::bound_order_by(items, 0, Seq::empty(), row, cat, rows) matches Ok(keys) ==> {
            &&& keys.len() == items.len()
            &&& forall|i: int|
                0 <= i < keys.len() ==> {
                    let k = #[trigger] keys[i];
                    &&& k.asc == (items[i].direction is Asc)
                    &&& k.nulls_first == bound::sorts_nulls_first(
                        items[i].direction,
                        items[i].nulls,
                    )
                    &&& bound::bound_expr(items[i].expr, row, cat, rows) == Ok::<
                        _,
                        PlanErrorView,
                    >(k.expr)
                }
        },
{
    keys_follow_items(items, 0, Seq::empty(), row, cat, rows);
}

proof fn keys_follow_items(
    items: Seq<OrderItem>,
    i: int,
    acc: Seq<SortKeyView>,
    row: SchemaView,
    cat: CatalogView,
    rows: Seq<SchemaView>,
)
    requires
        i == acc.len(),
        i <= items.len(),
        forall|j: int|
            0 <= j < i ==> {
                let k = #[trigger] acc[j];
                &&& k.asc == (items[j].direction is Asc)
                &&& k.nulls_first == bound::sorts_nulls_first(items[j].direction, items[j].nulls)
                &&& bound::bound_expr(items[j].expr, row, cat, rows) == Ok::<_, PlanErrorView>(
                    k.expr,
                )
            },
    ensures
        bound::bound_order_by(items, i, acc, row, cat, rows) matches Ok(keys) ==> {
            &&& keys.len() == items.len()
            &&& forall|j: int|
                0 <= j < keys.len() ==> {
                    let k = #[trigger] keys[j];
                    &&& k.asc == (items[j].direction is Asc)
                    &&& k.nulls_first == bound::sorts_nulls_first(
                        items[j].direction,
                        items[j].nulls,
                    )
                    &&& bound::bound_expr(items[j].expr, row, cat, rows) == Ok::<
                        _,
                        PlanErrorView,
                    >(k.expr)
                }
        },
    decreases items.len() - i,
{
    if i < items.len() {
        if let Ok(x) = bound::bound_expr(items[i].expr, row, cat, rows) {
            let key = SortKeyView {
                expr: x,
                asc: items[i].direction is Asc,
                nulls_first: bound::sorts_nulls_first(items[i].direction, items[i].nulls),
            };
            keys_follow_items(items, i + 1, acc.push(key), row, cat, rows);
        }
    }
}

/// Collecting the aggregates of an expression keeps those collected before first
/// and unchanged, and collects no function and output name twice.
pub proof fn collected_calls_are_distinct(
    e: Expr,
    alias: Option<Identifier>,
    input: SchemaView,
    acc: Seq<LogicalAggregateExprView>,
    cat: CatalogView,
    rows: Seq<SchemaView>,
)
    ensures
        bound::collected(e, alias, input, acc, cat, rows) matches Ok(more)
            ==> aggregate::continues(acc, more),
    decreases e,
{
    aggregate::lemma_continues_itself(acc);
    match e {
        Expr::Call { name, args, distinct, .. } => {
            if let Ok(more) = bound::collected(e, alias, input, acc, cat, rows) {
                if more != acc {
                    aggregate::lemma_continues_with(acc, more.last());
                }
            }
        },
        Expr::Paren { expr } => collected_calls_are_distinct(*expr, alias, input, acc, cat, rows),
        Expr::Unary { expr, .. } => collected_calls_are_distinct(
            *expr,
            alias,
            input,
            acc,
            cat,
            rows,
        ),
        Expr::Binary { left, right, .. } => {
            collected_calls_are_distinct(*left, None, input, acc, cat, rows);
            if let Ok(more) = bound::collected(*left, None, input, acc, cat, rows) {
                collected_calls_are_distinct(*right, None, input, more, cat, rows);
                if let Ok(all) = bound::collected(*right, None, input, more, cat, rows) {
                    aggregate::lemma_continues_on(acc, more, all);
                }
            }
        },
        Expr::IsNull { expr, .. } => collected_calls_are_distinct(
            *expr,
            None,
            input,
            acc,
            cat,
            rows,
        ),
        Expr::Between { expr, low, high, .. } => {
            collected_calls_are_distinct(*expr, None, input, acc, cat, rows);
            if let Ok(more) = bound::collected(*expr, None, input, acc, cat, rows) {
                collected_calls_are_distinct(*low, None, input, more, cat, rows);
                if let Ok(most) = bound::collected(*low, None, input, more, cat, rows) {
                    aggregate::lemma_continues_on(acc, more, most);
                    collected_calls_are_distinct(*high, None, input, most, cat, rows);
                    if let Ok(all) = bound::collected(*high, None, input, most, cat, rows) {
                        aggregate::lemma_continues_on(acc, most, all);
                    }
                }
            }
        },
        Expr::InSubquery { expr, .. } => collected_calls_are_distinct(
            *expr,
            None,
            input,
            acc,
            cat,
            rows,
        ),
        Expr::Any { expr, .. } => collected_calls_are_distinct(*expr, None, input, acc, cat, rows),
        _ => {},
    }
}

/// Collecting the aggregates of a projection keeps those collected before first
/// and unchanged, and collects no function and output name twice.
pub proof fn projected_calls_are_distinct(
    items: Seq<SelectItem>,
    i: int,
    acc: Seq<LogicalAggregateExprView>,
    input: SchemaView,
    cat: CatalogView,
    rows: Seq<SchemaView>,
)
    ensures
        bound::collected_items(items, i, acc, input, cat, rows) matches Ok(more)
            ==> aggregate::continues(acc, more),
    decreases items.len() - i,
{
    aggregate::lemma_continues_itself(acc);
    if 0 <= i < items.len() {
        match items[i] {
            SelectItem::Expr { expr, alias } => {
                collected_calls_are_distinct(expr, alias, input, acc, cat, rows);
                if let Ok(more) = bound::collected(expr, alias, input, acc, cat, rows) {
                    projected_calls_are_distinct(items, i + 1, more, input, cat, rows);
                    if let Ok(all) = bound::collected_items(
                        items,
                        i + 1,
                        more,
                        input,
                        cat,
                        rows,
                    ) {
                        aggregate::lemma_continues_on(acc, more, all);
                    }
                }
            },
            _ => projected_calls_are_distinct(items, i + 1, acc, input, cat, rows),
        }
    }
}

} // verus!
