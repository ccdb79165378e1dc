//! The shape of the plan that a `SELECT` is bound to.
use crate::ast::{Expr, Literal, OrderItem, SelectItem, SelectStmt};
use crate::binder::relation::ScopeEntryView;
use crate::binder::{aggregate, bound, faithful, names, relation, soundness};
use crate::catalog::CatalogView;
use crate::error::PlanErrorView;
use crate::query::{LogicalAggregateExprView, QueryPlanView, ScalarExprView, SortKeyView};
use crate::schema::SchemaView;
use crate::{query, render, schema, text};
use vstd::prelude::*;

verus! {

/// Whether a plan is another one under an optional predicate, which is a truth
/// value over the rows of the other plan.
pub open spec fn narrowed(
    p: QueryPlanView,
    source: QueryPlanView,
    pred: Option<Expr>,
    cat: CatalogView,
    rows: Seq<SchemaView>,
) -> bool {
    match pred {
        None => p == source,
        Some(e) => match p {
            QueryPlanView::Filter { input, predicate } => {
                &&& *input == source
                &&& bound::bound_expr(e, query::query_schema(source), cat, rows) == Ok::<
                    _,
                    PlanErrorView,
                >(predicate)
                &&& query::scalar_type(predicate) is Bool || query::scalar_type(predicate) is Null
            },
            _ => false,
        },
    }
}

/// Whether a sort key is that of an item of an `ORDER BY` list. Nulls sort as
/// stated, else first exactly in descending order.
pub open spec fn sorts_by(
    key: SortKeyView,
    item: OrderItem,
    row: SchemaView,
    cat: CatalogView,
    rows: Seq<SchemaView>,
) -> bool {
    &&& bound::bound_expr(item.expr, row, cat, rows) == Ok::<_, PlanErrorView>(key.expr)
    &&& key.asc <==> item.direction is Asc
    &&& item.nulls is First ==> key.nulls_first
    &&& item.nulls is Last ==> !key.nulls_first
    &&& item.nulls is Default ==> (key.nulls_first <==> item.direction is Desc)
}

proof fn keys_sort_by_their_items(
    items: Seq<OrderItem>,
    i: int,
    acc: Seq<SortKeyView>,
    row: SchemaView,
    cat: CatalogView,
    rows: Seq<SchemaView>,
)
    requires
        0 <= i <= items.len(),
        acc.len() == i,
        forall|k: int| 0 <= k < i ==> sorts_by(#[trigger] acc[k], items[k], row, cat, rows),
    ensures
        bound::bound_order_by(items, i, acc, row, cat, rows) matches Ok(keys) ==> {
            &&& keys.len() == items.len()
            &&& forall|k: int|
                0 <= k < keys.len() ==> sorts_by(#[trigger] keys[k], items[k], row, cat, rows)
        },
    decreases items.len() - i,
{
    if i < items.len() {
        if let Ok(x) = bound::bound_expr(items[i].expr, row, cat, rows) {
            let key = SortKeyView {
                expr: x,
                asc: items[i].direction is Asc,
                nulls_first: bound::sorts_nulls_first(items[i].direction, items[i].nulls),
            };
            keys_sort_by_their_items(items, i + 1, acc.push(key), row, cat, rows);
        }
    }
}

/// Whether a plan is another one in the order of an `ORDER BY` list.
pub open spec fn ordered(
    p: QueryPlanView,
    core: QueryPlanView,
    items: Seq<OrderItem>,
    cat: CatalogView,
    rows: Seq<SchemaView>,
) -> bool {
    if items.len() == 0 {
        p == core
    } else {
        match p {
            QueryPlanView::Sort { input, keys } => {
                &&& *input == core
                &&& keys.len() == items.len()
                &&& forall|k: int|
                    0 <= k < keys.len() ==> sorts_by(
                        #[trigger] keys[k],
                        items[k],
                        query::query_schema(core),
                        cat,
                        rows,
                    )
            },
            _ => false,
        }
    }
}

/// Whether an output column is that of a bound expression: it has the alias for a
/// name, else the name of a column as written, else the text of the expression.
pub open spec fn outputs(
    out: (ScalarExprView, Seq<char>),
    made: Result<ScalarExprView, PlanErrorView>,
    item: SelectItem,
) -> bool {
    match item {
        SelectItem::Expr { expr, alias } => {
            &&& made == Ok::<_, PlanErrorView>(out.0)
            &&& alias matches Some(a) ==> out.1 == a.value@
            &&& alias is None ==> match expr {
                Expr::Column { name } => out.1 == names::last_part(name),
                _ => out.1 == render::scalar_text(out.0),
            }
        },
        _ => false,
    }
}

/// Whether an output column is the `k`-th column of a row under its own name.
pub open spec fn outputs_column(
    out: (ScalarExprView, Seq<char>),
    row: SchemaView,
    k: int,
) -> bool {
    &&& out.0 matches ScalarExprView::Column { name, index, data_type }
    &&& index == k as usize && name == row.fields[k].name && data_type == row.fields[k].data_type
    &&& out.1 == name
}

/// Whether an output column is an offered one under its own name.
pub open spec fn outputs_entry(out: (ScalarExprView, Seq<char>), e: ScopeEntryView) -> bool {
    &&& out.0 matches ScalarExprView::Column { name, index, data_type }
    &&& index == e.field_index && name == e.field.name && data_type == e.field.data_type
    &&& out.1 == name
}

/// Whether the output columns from the `j`-th on are those of the offered columns
/// from the `i`-th on with a qualifier, or of all of them, and the output columns
/// go on with the `end`-th.
pub open spec fn outputs_entries(
    outs: Seq<(ScalarExprView, Seq<char>)>,
    j: int,
    end: int,
    entries: Seq<ScopeEntryView>,
    qualifier: Option<Seq<char>>,
    i: int,
) -> bool
    decreases entries.len() - i,
{
    if i < 0 || i >= entries.len() {
        j == end
    } else if qualifier matches Some(q) && !text::same_fold(entries[i].qualifier, q) {
        outputs_entries(outs, j, end, entries, qualifier, i + 1)
    } else {
        &&& 0 <= j < outs.len()
        &&& outputs_entry(outs[j], entries[i])
        &&& outputs_entries(outs, j + 1, end, entries, qualifier, i + 1)
    }
}

/// Whether output columns are those of the items of a projection from the `i`-th
/// on, where the first of them is the `j`-th output column.
pub open spec fn projects(
    items: Seq<SelectItem>,
    i: int,
    outs: Seq<(ScalarExprView, Seq<char>)>,
    j: int,
    row: SchemaView,
    entries: Seq<ScopeEntryView>,
    cat: CatalogView,
    rows: Seq<SchemaView>,
) -> bool
    decreases items.len() - i,
{
    if i < 0 || i >= items.len() {
        j == outs.len()
    } else {
        match items[i] {
            SelectItem::Expr { expr, .. } => {
                &&& 0 <= j < outs.len()
                &&& outputs(outs[j], bound::bound_expr(expr, row, cat, rows), items[i])
                &&& projects(items, i + 1, outs, j + 1, row, entries, cat, rows)
            },
            SelectItem::Wildcard => if entries.len() == 0 {
                &&& 0 <= j && j + row.fields.len() <= outs.len()
                &&& forall|k: int|
                    0 <= k < row.fields.len() ==> outputs_column(#[trigger] outs[j + k], row, k)
                &&& projects(
                    items,
                    i + 1,
                    outs,
                    (j + row.fields.len()) as int,
                    row,
                    entries,
                    cat,
                    rows,
                )
            } else {
                &&& outputs_entries(
                    outs,
                    j,
                    (j + entries.len()) as int,
                    entries,
                    None,
                    0,
                )
                &&& projects(
                    items,
                    i + 1,
                    outs,
                    (j + entries.len()) as int,
                    row,
                    entries,
                    cat,
                    rows,
                )
            },
            SelectItem::QualifiedWildcard { qualifier } => exists|end: int|
                {
                    &&& j < end
                    &&& #[trigger] outputs_entries(
                        outs,
                        j,
                        end,
                        entries,
                        Some(qualifier.value@),
                        0,
                    )
                    &&& projects(items, i + 1, outs, end, row, entries, cat, rows)
                },
        }
    }
}

/// The columns that are offered under a qualifier, or all of them, are output in
/// order.
pub proof fn offered_columns_are_output(
    outs: Seq<(ScalarExprView, Seq<char>)>,
    j: int,
    entries: Seq<ScopeEntryView>,
    qualifier: Option<Seq<char>>,
    i: int,
)
    requires
        0 <= i,
        0 <= j,
        ({
            let found = relation::qualified_columns(entries, qualifier, i);
            j + found.len() <= outs.len() && outs.subrange(j, j + found.len()) == found
        }),
    ensures
        ({
            let found = relation::qualified_columns(entries, qualifier, i);
            &&& outputs_entries(outs, j, (j + found.len()) as int, entries, qualifier, i)
            &&& qualifier is None && i <= entries.len() ==> found.len() == entries.len() - i
        }),
    decreases entries.len() - i,
{
    if i < entries.len() {
        let found = relation::qualified_columns(entries, qualifier, i);
        let rest = relation::qualified_columns(entries, qualifier, i + 1);
        if qualifier is None || text::same_fold(entries[i].qualifier, qualifier->Some_0) {
            assert(found == seq![relation::entry_output(entries[i])] + rest);
            assert(found[0] == outs.subrange(j, j + found.len())[0]);
            assert(outs.subrange(j + 1, j + 1 + rest.len()) =~= rest) by {
                assert forall|k: int| 0 <= k < rest.len() implies outs[j + 1 + k] == rest[k] by {
                    assert(outs.subrange(j, j + found.len())[k + 1] == found[k + 1]);
                }
            }
            offered_columns_are_output(outs, j + 1, entries, qualifier, i + 1);
        } else {
            offered_columns_are_output(outs, j, entries, qualifier, i + 1);
        }
    }
}

proof fn projection_keeps_outputs(
    items: Seq<SelectItem>,
    i: int,
    acc: Seq<(ScalarExprView, Seq<char>)>,
    row: SchemaView,
    entries: Seq<ScopeEntryView>,
    cat: CatalogView,
    rows: Seq<SchemaView>,
)
    requires
        0 <= i,
    ensures
        bound::bound_projection(items, i, acc, row, entries, cat, rows) matches Ok(outs) ==> {
            &&& acc.len() <= outs.len()
            &&& outs.take(acc.len() as int) == acc
            &&& projects(items, i, outs, acc.len() as int, row, entries, cat, rows)
        },
    decreases items.len() - i,
{
    if i < items.len() {
        let n = acc.len() as int;
        match items[i] {
            SelectItem::Wildcard => {
                let found = bound::wildcard_columns(row, entries);
                projection_keeps_outputs(items, i + 1, acc + found, row, entries, cat, rows);
                if let Ok(outs) = bound::bound_projection(
                    items,
                    i,
                    acc,
                    row,
                    entries,
                    cat,
                    rows,
                ) {
                    prefix_parts(outs, acc, found);
                    if entries.len() == 0 {
                        assert forall|k: int| 0 <= k < row.fields.len() implies outputs_column(
                            #[trigger] outs[n + k],
                            row,
                            k,
                        ) by {
                            assert(outs.subrange(n, n + found.len())[k] == found[k]);
                        }
                    } else {
                        offered_columns_are_output(outs, n, entries, None, 0);
                    }
                }
            },
            SelectItem::QualifiedWildcard { qualifier } => {
                let q = Some(qualifier.value@);
                let found = relation::qualified_columns(entries, q, 0);
                if found.len() > 0 {
                    projection_keeps_outputs(items, i + 1, acc + found, row, entries, cat, rows);
                    if let Ok(outs) = bound::bound_projection(
                        items,
                        i,
                        acc,
                        row,
                        entries,
                        cat,
                        rows,
                    ) {
                        prefix_parts(outs, acc, found);
                        offered_columns_are_output(outs, n, entries, q, 0);
                        assert(outputs_entries(
                            outs,
                            n,
                            (n + found.len()) as int,
                            entries,
                            q,
                            0,
                        ));
                    }
                }
            },
            SelectItem::Expr { expr, alias } => {
                if let Ok(x) = bound::bound_expr(expr, row, cat, rows) {
                    let out = (x, names::named_output(expr, x, alias));
                    projection_keeps_outputs(items, i + 1, acc.push(out), row, entries, cat, rows);
                    if let Ok(outs) = bound::bound_projection(
                        items,
                        i,
                        acc,
                        row,
                        entries,
                        cat,
                        rows,
                    ) {
                        assert(acc.push(out) =~= acc + seq![out]);
                        prefix_parts(outs, acc, seq![out]);
                        assert(outs.subrange(n, n + 1)[0] == outs[n]);
                    }
                }
            },
        }
    } else {
        assert(acc.take(acc.len() as int) =~= acc);
    }
}

proof fn prefix_parts<A>(outs: Seq<A>, a: Seq<A>, b: Seq<A>)
    requires
        a.len() + b.len() <= outs.len(),
        outs.take((a + b).len() as int) == a + b,
    ensures
        outs.take(a.len() as int) == a,
        outs.subrange(a.len() as int, (a.len() + b.len()) as int) == b,
{
    let p = outs.take((a + b).len() as int);
    assert(outs.take(a.len() as int) =~= p.take(a.len() as int));
    assert((a + b).take(a.len() as int) =~= a);
    assert(outs.subrange(a.len() as int, (a.len() + b.len()) as int) =~= p.subrange(
        a.len() as int,
        (a.len() + b.len()) as int,
    ));
    assert((a + b).subrange(a.len() as int, (a.len() + b.len()) as int) =~= b);
}

/// The columns that a projection outputs are those of its items, in order. A
/// wildcard stands for all offered columns, a qualified one for those with its
/// qualifier, of which there is at least one.
pub proof fn projections_output_their_items(
    items: Seq<SelectItem>,
    row: SchemaView,
    entries: Seq<ScopeEntryView>,
    cat: CatalogView,
    rows: Seq<SchemaView>,
)
    ensures
        bound::bound_projection(items, 0, Seq::empty(), row, entries, cat, rows) matches Ok(outs)
            ==> projects(items, 0, outs, 0, row, entries, cat, rows),
{
    projection_keeps_outputs(items, 0, Seq::empty(), row, entries, cat, rows);
}

/// Whether output columns are those of the items of a projection over aggregated
/// rows from the `i`-th on, where the first of them is the `j`-th output column.
/// A wildcard stands for all columns.
pub open spec fn projects_groups(
    items: Seq<SelectItem>,
    i: int,
    outs: Seq<(ScalarExprView, Seq<char>)>,
    j: int,
    row: SchemaView,
    groups: int,
    aggs: Seq<LogicalAggregateExprView>,
    cat: CatalogView,
    rows: Seq<SchemaView>,
) -> bool
    decreases items.len() - i,
{
    if i < 0 || i >= items.len() {
        j == outs.len()
    } else {
        match items[i] {
            SelectItem::Expr { expr, alias } => {
                &&& 0 <= j < outs.len()
                &&& outputs(
                    outs[j],
                    bound::bound_expr_or_agg(expr, alias, row, groups, aggs, cat, rows),
                    items[i],
                )
                &&& projects_groups(items, i + 1, outs, j + 1, row, groups, aggs, cat, rows)
            },
            _ => {
                &&& 0 <= j && j + row.fields.len() <= outs.len()
                &&& forall|k: int|
                    0 <= k < row.fields.len() ==> outputs_column(#[trigger] outs[j + k], row, k)
                &&& projects_groups(
                    items,
                    i + 1,
                    outs,
                    (j + row.fields.len()) as int,
                    row,
                    groups,
                    aggs,
                    cat,
                    rows,
                )
            },
        }
    }
}

proof fn group_projection_keeps_outputs(
    items: Seq<SelectItem>,
    i: int,
    acc: Seq<(ScalarExprView, Seq<char>)>,
    row: SchemaView,
    groups: int,
    aggs: Seq<LogicalAggregateExprView>,
    cat: CatalogView,
    rows: Seq<SchemaView>,
)
    requires
        0 <= i,
    ensures
        bound::bound_projection_agg(items, i, acc, row, groups, aggs, cat, rows) matches Ok(outs)
            ==> {
            &&& acc.len() <= outs.len()
            &&& outs.take(acc.len() as int) == acc
            &&& projects_groups(
                items,
                i,
                outs,
                acc.len() as int,
                row,
                groups,
                aggs,
                cat,
                rows,
            )
        },
    decreases items.len() - i,
{
    if i < items.len() {
        let n = acc.len() as int;
        let made = bound::bound_projection_agg(items, i, acc, row, groups, aggs, cat, rows);
        match items[i] {
            SelectItem::Expr { expr, alias } => {
                if let Ok(x) = bound::bound_expr_or_agg(
                    expr,
                    alias,
                    row,
                    groups,
                    aggs,
                    cat,
                    rows,
                ) {
                    let out = (x, names::named_output(expr, x, alias));
                    group_projection_keeps_outputs(
                        items,
                        i + 1,
                        acc.push(out),
                        row,
                        groups,
                        aggs,
                        cat,
                        rows,
                    );
                    if let Ok(outs) = made {
                        assert(acc.push(out) =~= acc + seq![out]);
                        prefix_parts(outs, acc, seq![out]);
                        assert(outs.subrange(n, n + 1)[0] == outs[n]);
                    }
                }
            },
            _ => {
                let found = relation::all_columns(row);
                group_projection_keeps_outputs(
                    items,
                    i + 1,
                    acc + found,
                    row,
                    groups,
                    aggs,
                    cat,
                    rows,
                );
                if let Ok(outs) = made {
                    prefix_parts(outs, acc, found);
                    assert forall|k: int| 0 <= k < row.fields.len() implies outputs_column(
                        #[trigger] outs[n + k],
                        row,
                        k,
                    ) by {
                        assert(outs.subrange(n, n + found.len())[k] == found[k]);
                    }
                }
            },
        }
    } else {
        assert(acc.take(acc.len() as int) =~= acc);
    }
}

/// Whether an expression states a row count, perhaps in parentheses.
pub open spec fn states_count(e: Expr, n: u64) -> bool
    decreases e,
{
    match e {
        Expr::Literal(Literal::Integer { text }) => text::natural_value(text@) == Some(n as int),
        Expr::Paren { expr } => states_count(*expr, n),
        _ => false,
    }
}

proof fn counts_are_stated(e: Expr, label: Seq<char>)
    ensures
        bound::stated_count(e, label) matches Ok(n) ==> states_count(e, n),
    decreases e,
{
    if let Expr::Paren { expr } = e {
        counts_are_stated(*expr, label);
    }
}

/// Whether a plan is another one under the row counts of a `LIMIT` and an
/// `OFFSET`. Without a `LIMIT` as many rows as there are follow the skipped ones,
/// and a plan without skipped rows is the other one itself.
pub open spec fn limited_to(
    p: QueryPlanView,
    core: QueryPlanView,
    limit: Option<Expr>,
    offset: Option<Expr>,
) -> bool {
    ||| p == core && limit is None && (offset matches Some(e) ==> states_count(e, 0))
    ||| {
        &&& p matches QueryPlanView::Limit { input, n, offset: skipped }
        &&& *input == core
        &&& match limit {
            Some(e) => states_count(e, n),
            None => n == u64::MAX && skipped != 0,
        }
        &&& match offset {
            Some(e) => states_count(e, skipped),
            None => skipped == 0,
        }
    }
}

/// A `LIMIT` keeps as many rows as it states, behind as many skipped ones as the
/// `OFFSET` states.
pub proof fn limits_state_their_counts(p: QueryPlanView, limit: Option<Expr>, offset: Option<Expr>)
    ensures
        bound::limited(p, limit, offset) matches Ok(made) ==> limited_to(made, p, limit, offset),
{
    if let Some(e) = limit {
        counts_are_stated(e, "LIMIT"@);
    }
    if let Some(e) = offset {
        counts_are_stated(e, "OFFSET"@);
    }
}

proof fn bound_lists_follow(
    list: Seq<Expr>,
    i: int,
    acc: Seq<ScalarExprView>,
    row: SchemaView,
    cat: CatalogView,
    rows: Seq<SchemaView>,
)
    requires
        0 <= i <= list.len(),
        acc.len() == i,
        forall|k: int|
            0 <= k < i ==> bound::bound_expr(list[k], row, cat, rows) == Ok::<_, PlanErrorView>(
                #[trigger] acc[k],
            ),
    ensures
        bound::bound_exprs(list, i, acc, row, cat, rows) matches Ok(out) ==> binds_each(
            list,
            out,
            row,
            cat,
            rows,
        ),
    decreases list.len() - i,
{
    if i < list.len() {
        if let Ok(x) = bound::bound_expr(list[i], row, cat, rows) {
            bound_lists_follow(list, i + 1, acc.push(x), row, cat, rows);
        }
    }
}

/// Whether bound expressions are those of a list, in order.
pub open spec fn binds_each(
    list: Seq<Expr>,
    out: Seq<ScalarExprView>,
    row: SchemaView,
    cat: CatalogView,
    rows: Seq<SchemaView>,
) -> bool {
    &&& out.len() == list.len()
    &&& forall|k: int|
        0 <= k < list.len() ==> bound::bound_expr(list[k], row, cat, rows) == Ok::<
            _,
            PlanErrorView,
        >(#[trigger] out[k])
}

/// The bound expressions of a list follow the list.
pub proof fn lists_are_bound_in_order(
    list: Seq<Expr>,
    row: SchemaView,
    cat: CatalogView,
    rows: Seq<SchemaView>,
)
    ensures
        bound::bound_exprs(list, 0, Seq::empty(), row, cat, rows) matches Ok(out) ==> binds_each(
            list,
            out,
            row,
            cat,
            rows,
        ),
{
    bound_lists_follow(list, 0, Seq::empty(), row, cat, rows);
}

/// Whether an aggregate is that of a call in the projection or in the `HAVING`
/// clause of a `SELECT`.
pub open spec fn called_in(
    a: LogicalAggregateExprView,
    s: SelectStmt,
    row: SchemaView,
    cat: CatalogView,
    rows: Seq<SchemaView>,
) -> bool {
    ||| called_in_items(a, s.projection@, row, cat, rows)
    ||| (s.having matches Some(h) && faithful::call_stems_from(a, h, row, cat, rows))
}

/// Whether an aggregate is that of a call in a projection.
pub open spec fn called_in_items(
    a: LogicalAggregateExprView,
    items: Seq<SelectItem>,
    row: SchemaView,
    cat: CatalogView,
    rows: Seq<SchemaView>,
) -> bool {
    exists|k: int|
        0 <= k < items.len() && called_in_item(a, #[trigger] items[k], row, cat, rows)
}

/// Whether an aggregate is that of a call in a projection item.
pub open spec fn called_in_item(
    a: LogicalAggregateExprView,
    item: SelectItem,
    row: SchemaView,
    cat: CatalogView,
    rows: Seq<SchemaView>,
) -> bool {
    item matches SelectItem::Expr { expr, .. } && faithful::call_stems_from(
        a,
        expr,
        row,
        cat,
        rows,
    )
}

proof fn collected_items_are_called(
    items: Seq<SelectItem>,
    i: int,
    acc: Seq<LogicalAggregateExprView>,
    row: SchemaView,
    cat: CatalogView,
    rows: Seq<SchemaView>,
)
    requires
        0 <= i,
    ensures
        bound::collected_items(items, i, acc, row, cat, rows) matches Ok(more) ==> {
            &&& acc.len() <= more.len()
            &&& more.take(acc.len() as int) == acc
            &&& forall|k: int|
                acc.len() <= k < more.len() ==> called_in_items(
                    #[trigger] more[k],
                    items,
                    row,
                    cat,
                    rows,
                )
            &&& forall|j: int|
                i <= j < items.len() ==> (#[trigger] items[j] matches SelectItem::Expr { expr, .. }
                    ==> faithful::calls_are_listed(more, expr))
        },
    decreases items.len() - i,
{
    if i < items.len() {
        if let SelectItem::Expr { expr, alias } = items[i] {
            faithful::collected_calls_are_those_of_the_expression(
                expr,
                alias,
                row,
                acc,
                cat,
                rows,
            );
            if let Ok(a) = bound::collected(expr, alias, row, acc, cat, rows) {
                collected_items_are_called(items, i + 1, a, row, cat, rows);
                if let Ok(more) = bound::collected_items(items, i, acc, row, cat, rows) {
                    assert(more.take(acc.len() as int) =~= more.take(a.len() as int).take(
                        acc.len() as int,
                    ));
                    assert forall|k: int| acc.len() <= k < more.len() implies called_in_items(
                        #[trigger] more[k],
                        items,
                        row,
                        cat,
                        rows,
                    ) by {
                        if k < a.len() {
                            assert(more.take(a.len() as int)[k] == more[k]);
                            assert(faithful::call_stems_from(a[k], expr, row, cat, rows));
                            assert(called_in_item(more[k], items[i], row, cat, rows));
                        }
                    }
                    listed_in_longer(a, more, expr);
                }
            }
        } else {
            collected_items_are_called(items, i + 1, acc, row, cat, rows);
        }
    } else {
        assert(acc.take(acc.len() as int) =~= acc);
    }
}

proof fn listed_in_longer(
    a: Seq<LogicalAggregateExprView>,
    more: Seq<LogicalAggregateExprView>,
    e: Expr,
)
    requires
        faithful::calls_are_listed(a, e),
        a.len() <= more.len(),
        more.take(a.len() as int) == a,
    ensures
        faithful::calls_are_listed(more, e),
{
    assert forall|c: Expr| #[trigger] faithful::occurs(c, e) && c is Call implies
        faithful::call_is_listed(more, c) by {
        assert(faithful::call_is_listed(a, c));
        let k = choose|k: int|
            0 <= k < a.len() && faithful::function_of(
                names::last_part(c->Call_name),
                faithful::without_argument(c->Call_args@),
                (#[trigger] a[k]).func,
            );
        assert(more.take(a.len() as int)[k] == more[k]);
    }
}

/// Whether every call in a `SELECT` has an aggregate of its function.
pub open spec fn all_called(aggs: Seq<LogicalAggregateExprView>, s: SelectStmt) -> bool {
    &&& forall|j: int|
        0 <= j < s.projection@.len() ==> (
        #[trigger] s.projection@[j] matches SelectItem::Expr { expr, .. }
            ==> faithful::calls_are_listed(aggs, expr))
    &&& s.having matches Some(h) ==> faithful::calls_are_listed(aggs, h)
}

/// Whether a plan groups the rows of another one as a `SELECT` says: by what its
/// grouping expressions are bound to, in order, with the aggregates that it
/// calls. Grouping columns keep their names.
pub open spec fn grouped(
    g: QueryPlanView,
    fed: QueryPlanView,
    s: SelectStmt,
    cat: CatalogView,
    rows: Seq<SchemaView>,
) -> bool {
    match g {
        QueryPlanView::Aggregate { input, group_by, aggregates, schema } => {
            let row = query::query_schema(fed);
            &&& *input == fed
            &&& binds_each(s.group_by@, group_by, row, cat, rows)
            &&& forall|k: int|
                0 <= k < aggregates.len() ==> called_in(#[trigger] aggregates[k], s, row, cat, rows)
            &&& all_called(aggregates, s)
            &&& schema.fields.len() == group_by.len() + aggregates.len()
        },
        _ => false,
    }
}

/// An aggregation groups the rows that it is given as its `SELECT` says, and has
/// the aggregates of the calls in it.
pub proof fn aggregations_group_as_stated(
    s: SelectStmt,
    p: QueryPlanView,
    cat: CatalogView,
    rows: Seq<SchemaView>,
)
    ensures
        bound::bound_aggregate(s, p, cat, rows) matches Ok(g) ==> grouped(g, p, s, cat, rows),
{
    let row = query::query_schema(p);
    lists_are_bound_in_order(s.group_by@, row, cat, rows);
    collected_items_are_called(s.projection@, 0, Seq::empty(), row, cat, rows);
    soundness::aggregations_give_groups_then_aggregates(s, p, cat, rows);
    if let Ok(g) = bound::bound_aggregate(s, p, cat, rows) {
        let acc = bound::collected_items(s.projection@, 0, Seq::empty(), row, cat, rows)->Ok_0;
        let aggs = g->Aggregate_aggregates;
        if let Some(h) = s.having {
            faithful::collected_calls_are_those_of_the_expression(h, None, row, acc, cat, rows);
            assert forall|j: int| 0 <= j < s.projection@.len() implies (
            #[trigger] s.projection@[j] matches SelectItem::Expr { expr, .. }
                ==> faithful::calls_are_listed(aggs, expr)) by {
                if let SelectItem::Expr { expr, .. } = s.projection@[j] {
                    listed_in_longer(acc, aggs, expr);
                }
            }
        }
        assert forall|k: int| 0 <= k < aggs.len() implies called_in(
            #[trigger] aggs[k],
            s,
            row,
            cat,
            rows,
        ) by {
            if k < acc.len() {
                assert(aggs.take(acc.len() as int)[k] == acc[k] || aggs == acc);
                assert(called_in_items(acc[k], s.projection@, row, cat, rows));
            } else {
                assert(faithful::call_stems_from(aggs[k], s.having->Some_0, row, cat, rows));
            }
        }
    }
}

/// Whether a plan is that of grouped rows under an optional `HAVING` predicate.
pub open spec fn narrowed_groups(
    p: QueryPlanView,
    g: QueryPlanView,
    having: Option<Expr>,
    groups: int,
    cat: CatalogView,
    rows: Seq<SchemaView>,
) -> bool {
    match having {
        None => p == g,
        Some(e) => match p {
            QueryPlanView::Filter { input, predicate } => {
                &&& *input == g
                &&& bound::bound_expr_or_agg(
                    e,
                    None,
                    query::query_schema(g),
                    groups,
                    g->Aggregate_aggregates,
                    cat,
                    rows,
                ) == Ok::<_, PlanErrorView>(predicate)
                &&& query::scalar_type(predicate) is Bool || query::scalar_type(predicate) is Null
            },
            _ => false,
        },
    }
}

/// Whether an aggregate call occurs in an expression.
pub open spec fn calls_aggregate(e: Expr) -> bool {
    exists|c: Expr, func: query::AggregateFunc|
        {
            &&& #[trigger] faithful::occurs(c, e)
            &&& c is Call
            &&& #[trigger] faithful::function_of(
                names::last_part(c->Call_name),
                faithful::without_argument(c->Call_args@),
                func,
            )
        }
}

proof fn calls_are_seen(e: Expr, c: Expr, func: query::AggregateFunc)
    requires
        faithful::occurs(c, e),
        c is Call,
        faithful::function_of(
            names::last_part(c->Call_name),
            faithful::without_argument(c->Call_args@),
            func,
        ),
    ensures
        aggregate::has_aggregate(e),
    decreases e,
{
    if c == e {
        let bare = faithful::without_argument(c->Call_args@);
        faithful::aggregate_functions_have_their_names(c->Call_name, bare);
        aggregate::aggregate_names_are_classified(names::simple_name(c->Call_name), bare);
        text::lowering_again_changes_nothing(names::last_part(c->Call_name));
    } else {
        match e {
            Expr::Paren { expr }
            | Expr::Unary { expr, .. }
            | Expr::IsNull { expr, .. }
            | Expr::InSubquery { expr, .. }
            | Expr::Any { expr, .. } => {
                calls_are_seen(*expr, c, func);
            },
            Expr::Binary { left, right, .. } => {
                if faithful::occurs(c, *left) {
                    calls_are_seen(*left, c, func);
                } else {
                    calls_are_seen(*right, c, func);
                }
            },
            Expr::Between { expr, low, high, .. } => {
                if faithful::occurs(c, *expr) {
                    calls_are_seen(*expr, c, func);
                } else if faithful::occurs(c, *low) {
                    calls_are_seen(*low, c, func);
                } else {
                    calls_are_seen(*high, c, func);
                }
            },
            _ => {},
        }
    }
}

proof fn seen_calls_occur(e: Expr)
    requires
        aggregate::has_aggregate(e),
    ensures
        calls_aggregate(e),
    decreases e,
{
    match e {
        Expr::Call { name, args, .. } => {
            let bare = faithful::without_argument(args@);
            text::lowering_again_changes_nothing(names::last_part(name));
            aggregate::aggregate_names_are_classified(names::simple_name(name), bare);
            faithful::aggregate_functions_have_their_names(name, bare);
            let func = aggregate::aggregate_of(names::simple_name(name), bare)->Some_0;
            assert(faithful::occurs(e, e));
            assert(faithful::function_of(
                names::last_part(e->Call_name),
                faithful::without_argument(e->Call_args@),
                func,
            ));
        },
        Expr::Paren { expr }
        | Expr::Unary { expr, .. }
        | Expr::IsNull { expr, .. }
        | Expr::InSubquery { expr, .. }
        | Expr::Any { expr, .. } => {
            seen_calls_occur(*expr);
            calls_occur_in_larger(*expr, e);
        },
        Expr::Binary { left, right, .. } => {
            let part = if aggregate::has_aggregate(*left) {
                *left
            } else {
                *right
            };
            seen_calls_occur(part);
            calls_occur_in_larger(part, e);
        },
        Expr::Between { expr, low, high, .. } => {
            let part = if aggregate::has_aggregate(*expr) {
                *expr
            } else if aggregate::has_aggregate(*low) {
                *low
            } else {
                *high
            };
            seen_calls_occur(part);
            calls_occur_in_larger(part, e);
        },
        _ => {},
    }
}

proof fn calls_occur_in_larger(part: Expr, e: Expr)
    requires
        calls_aggregate(part),
        forall|c: Expr| faithful::occurs(c, part) ==> faithful::occurs(c, e),
    ensures
        calls_aggregate(e),
{
    let (c, func) = choose|c: Expr, func: query::AggregateFunc|
        {
            &&& #[trigger] faithful::occurs(c, part)
            &&& c is Call
            &&& #[trigger] faithful::function_of(
                names::last_part(c->Call_name),
                faithful::without_argument(c->Call_args@),
                func,
            )
        };
    assert(faithful::occurs(c, e));
}

/// Whether a `SELECT` groups, or calls an aggregate in its projection or in its
/// `HAVING` clause.
pub open spec fn groups_rows(s: SelectStmt) -> bool {
    ||| s.group_by@.len() > 0
    ||| exists|k: int|
        0 <= k < s.projection@.len() && (#[trigger] s.projection@[k] matches SelectItem::Expr {
            expr,
            ..
        } && calls_aggregate(expr))
    ||| (s.having matches Some(h) && calls_aggregate(h))
}

proof fn grouping_is_seen(s: SelectStmt)
    ensures
        bound::aggregates(s) <==> groups_rows(s),
{
    if let Some(h) = s.having {
        expression_calls_are_seen(h);
    }
    assert forall|k: int| 0 <= k < s.projection@.len() implies (
    #[trigger] s.projection@[k] matches SelectItem::Expr { expr, .. } ==> (calls_aggregate(expr)
        <==> aggregate::has_aggregate(expr))) by {
        if let SelectItem::Expr { expr, .. } = s.projection@[k] {
            expression_calls_are_seen(expr);
        }
    }
    if bound::aggregates(s) && aggregate::any_item_has_aggregate(s.projection@) {
        let k = choose|k: int|
            0 <= k < s.projection@.len() && aggregate::item_has_aggregate(
                #[trigger] s.projection@[k],
            );
        assert(s.projection@[k] is Expr);
    }
    if groups_rows(s) && s.group_by@.len() == 0 && !(s.having matches Some(h)
        && calls_aggregate(h)) {
        let k = choose|k: int|
            0 <= k < s.projection@.len() && (
            #[trigger] s.projection@[k] matches SelectItem::Expr { expr, .. } && calls_aggregate(
                expr,
            ));
        assert(aggregate::item_has_aggregate(s.projection@[k]));
    }
}

proof fn expression_calls_are_seen(e: Expr)
    ensures
        calls_aggregate(e) <==> aggregate::has_aggregate(e),
{
    if calls_aggregate(e) {
        let (c, func) = choose|c: Expr, func: query::AggregateFunc|
            {
                &&& #[trigger] faithful::occurs(c, e)
                &&& c is Call
                &&& #[trigger] faithful::function_of(
                    names::last_part(c->Call_name),
                    faithful::without_argument(c->Call_args@),
                    func,
                )
            };
        calls_are_seen(e, c, func);
    }
    if aggregate::has_aggregate(e) {
        seen_calls_occur(e);
    }
}

/// Whether a plan is the body of a `SELECT`: over the `FROM` source, what `WHERE`
/// lets pass, grouped and under `HAVING` where the `SELECT` groups, in the stated
/// order, projected to its items, under its row counts.
pub open spec fn select_body(
    s: SelectStmt,
    p: QueryPlanView,
    source: QueryPlanView,
    entries: Seq<ScopeEntryView>,
    fed: QueryPlanView,
    g: QueryPlanView,
    core: QueryPlanView,
    top: QueryPlanView,
    cat: CatalogView,
    rows: Seq<SchemaView>,
) -> bool {
    let groups = s.group_by@.len() as int;
    &&& narrowed(fed, source, s.where_clause, cat, rows)
    &&& !groups_rows(s) ==> core == fed
    &&& groups_rows(s) ==> grouped(g, fed, s, cat, rows) && narrowed_groups(
        core,
        g,
        s.having,
        groups,
        cat,
        rows,
    )
    &&& top matches QueryPlanView::Project { input, exprs, schema }
    &&& ordered(*input, core, s.order_by@, cat, rows)
    &&& !groups_rows(s) ==> projects(
        s.projection@,
        0,
        exprs,
        0,
        query::query_schema(core),
        entries,
        cat,
        rows,
    )
    &&& groups_rows(s) ==> projects_groups(
        s.projection@,
        0,
        exprs,
        0,
        query::query_schema(core),
        groups,
        g->Aggregate_aggregates,
        cat,
        rows,
    )
    &&& schema.fields.len() == exprs.len()
    &&& forall|k: int|
        0 <= k < exprs.len() ==> {
            &&& (#[trigger] schema.fields[k]).name == exprs[k].1
            &&& schema.fields[k].data_type == query::scalar_type(exprs[k].0)
        }
    &&& limited_to(p, top, s.limit, s.offset)
}

/// The body of a `SELECT` has all the clauses of the `SELECT`, each at its place.
pub proof fn selects_keep_their_clauses(
    s: SelectStmt,
    cat: CatalogView,
    ctes: Seq<(Seq<char>, SchemaView)>,
    rows: Seq<SchemaView>,
)
    ensures
        bound::bound_body(s, cat, ctes, rows) matches Ok(p) ==> {
            &&& s.distinct is Absent || s.distinct is All
            &&& bound::bound_from(s.from@, cat, ctes, rows) matches Ok((source, entries))
            &&& exists|
                fed: QueryPlanView,
                g: QueryPlanView,
                core: QueryPlanView,
                top: QueryPlanView,
            | #[trigger]
                select_body(s, p, source, entries, fed, g, core, top, cat, rows)
        },
{
    grouping_is_seen(s);
    if let Ok(p) = bound::bound_body(s, cat, ctes, rows) {
        let (source, entries) = bound::bound_from(s.from@, cat, ctes, rows)->Ok_0;
        let fed = bound::filtered(
            "WHERE predicate must be boolean, got "@,
            source,
            s.where_clause,
            cat,
            rows,
        )->Ok_0;
        let top = bound::bound_output(s, fed, entries, cat, rows)->Ok_0;
        limits_state_their_counts(top, s.limit, s.offset);
        assert(narrowed(fed, source, s.where_clause, cat, rows));
        if bound::aggregates(s) {
            aggregations_group_as_stated(s, fed, cat, rows);
            let g = bound::bound_aggregate(s, fed, cat, rows)->Ok_0;
            let groups = s.group_by@.len() as int;
            let core = bound::filtered_groups(g, s.having, groups, cat, rows)->Ok_0;
            assert(narrowed_groups(core, g, s.having, groups, cat, rows));
            keys_sort_by_their_items(
                s.order_by@,
                0,
                Seq::empty(),
                query::query_schema(core),
                cat,
                rows,
            );
            group_projection_keeps_outputs(
                s.projection@,
                0,
                Seq::empty(),
                query::query_schema(core),
                groups,
                g->Aggregate_aggregates,
                cat,
                rows,
            );
            assert(select_body(s, p, source, entries, fed, g, core, top, cat, rows));
        } else {
            keys_sort_by_their_items(
                s.order_by@,
                0,
                Seq::empty(),
                query::query_schema(fed),
                cat,
                rows,
            );
            projections_output_their_items(
                s.projection@,
                query::query_schema(fed),
                entries,
                cat,
                rows,
            );
            assert(select_body(s, p, source, entries, fed, fed, fed, top, cat, rows));
        }
    }
}

} // verus!
