//! What the output columns of a projection, and expressions over groups, stand for.
use crate::ast::{Expr, Identifier, SelectItem};
use crate::binder::relation::ScopeEntryView;
use crate::binder::{bound, headings, names, relation, shape, sources};
use crate::catalog::CatalogView;
use crate::dialect::meaning;
use crate::dialect::reading::ReadingsView;
use crate::dialect::{aggregate, aggregate_call, coerce, expr};
use crate::error::PlanErrorView;
use crate::query;
use crate::query::{LogicalAggregateExprView, QueryPlanView, ScalarExprView};
use crate::schema;
use crate::schema::SchemaView;
use crate::text;
use vstd::prelude::*;

verus! {

/// Whether an expression over groups is bound to another one.
#[verifier::opaque]
pub open spec fn grouped_to(
    e: Expr,
    x: ScalarExprView,
    row: SchemaView,
    cat: CatalogView,
    ctes: expr::Ctes,
    rows: Seq<SchemaView>,
    r: ReadingsView,
) -> bool {
    aggregate::bound_or_agg(e, None, row, cat, ctes, rows, r) == Ok::<_, PlanErrorView>(x)
}

/// Whether expressions over groups are bound to others, in order.
pub open spec fn grouped_each(
    list: Seq<Expr>,
    n: int,
    out: Seq<ScalarExprView>,
    row: SchemaView,
    cat: CatalogView,
    ctes: expr::Ctes,
    rows: Seq<SchemaView>,
    r: ReadingsView,
) -> bool {
    &&& out.len() == n
    &&& forall|k: int|
        0 <= k < n ==> grouped_to(list[k], #[trigger] out[k], row, cat, ctes, rows, r)
}

/// Lists of expressions over groups are bound in order.
pub proof fn grouped_lists_are_bound_in_order(
    list: Seq<Expr>,
    i: int,
    acc: Seq<ScalarExprView>,
    row: SchemaView,
    cat: CatalogView,
    ctes: expr::Ctes,
    rows: Seq<SchemaView>,
    r: ReadingsView,
)
    requires
        0 <= i <= list.len(),
        grouped_each(list, i, acc, row, cat, ctes, rows, r),
    ensures
        aggregate::bound_or_aggs(list, i, acc, row, cat, ctes, rows, r) matches Ok(out)
            ==> grouped_each(list, list.len() as int, out, row, cat, ctes, rows, r),
    decreases list.len() - i,
{
    if i < list.len() {
        if let Ok(x) = aggregate::bound_or_agg(list[i], None, row, cat, ctes, rows, r) {
            assert(grouped_to(list[i], x, row, cat, ctes, rows, r)) by {
                reveal(grouped_to);
            }
            let next = acc.push(x);
            assert forall|k: int| 0 <= k < i + 1 implies grouped_to(
                list[k],
                #[trigger] next[k],
                row,
                cat,
                ctes,
                rows,
                r,
            ) by {
                if k < i {
                    assert(next[k] == acc[k]);
                }
            }
            grouped_lists_are_bound_in_order(list, i + 1, next, row, cat, ctes, rows, r);
        }
    }
}

/// Operations over groups keep their operator and their operands, in order.
pub proof fn grouped_operations_keep_their_operands(
    e: Expr,
    alias: Option<Seq<char>>,
    row: SchemaView,
    cat: CatalogView,
    ctes: expr::Ctes,
    rows: Seq<SchemaView>,
    r: ReadingsView,
)
    requires
        e is Binary || e is Unary || e is Paren || e is Collate || e is NullIf,
    ensures
        aggregate::bound_or_agg(e, alias, row, cat, ctes, rows, r) matches Ok(x) ==> match e {
            Expr::Binary { op, left, right } => {
                &&& aggregate::bound_or_agg(*left, None, row, cat, ctes, rows, r) matches Ok(a)
                &&& aggregate::bound_or_agg(*right, None, row, cat, ctes, rows, r) matches Ok(b)
                &&& x matches ScalarExprView::Binary { op: kept, left: l, right: m, .. }
                &&& kept == op
                &&& *l == coerce::coerced(a, query::scalar_type(b), r)
                &&& *m == coerce::coerced(b, query::scalar_type(a), r)
            },
            Expr::Unary { op, expr } => {
                &&& x matches ScalarExprView::Unary { op: kept, expr: y, data_type }
                &&& kept == op && data_type == query::scalar_type(*y)
                &&& aggregate::bound_or_agg(*expr, None, row, cat, ctes, rows, r) == Ok::<
                    _,
                    PlanErrorView,
                >(*y)
            },
            Expr::Paren { expr } => aggregate::bound_or_agg(
                *expr,
                alias,
                row,
                cat,
                ctes,
                rows,
                r,
            ) == Ok::<_, PlanErrorView>(x),
            Expr::Collate { expr, .. } => aggregate::bound_or_agg(
                *expr,
                alias,
                row,
                cat,
                ctes,
                rows,
                r,
            ) == Ok::<_, PlanErrorView>(x),
            Expr::NullIf { a: left, b: right } => {
                &&& aggregate::bound_or_agg(*left, None, row, cat, ctes, rows, r) matches Ok(a)
                &&& aggregate::bound_or_agg(*right, None, row, cat, ctes, rows, r) matches Ok(b)
                &&& meaning::calls2(
                    x,
                    "nullif"@,
                    coerce::coerced(a, query::scalar_type(b), r),
                    coerce::coerced(b, query::scalar_type(a), r),
                )
            },
            _ => true,
        },
{
}

/// An aggregate call over groups reads the column of its alias, where there is one,
/// or else that of its text. A column has the name, the place and the type of the
/// row's.
pub proof fn aggregate_calls_read_their_column(
    e: Expr,
    alias: Option<Seq<char>>,
    row: SchemaView,
)
    ensures
        aggregate::ready_column(e, alias, row) matches Some(x) ==> {
            &&& e matches Expr::Call { name, args, within_group, .. }
            &&& exists|i: int, key: Seq<char>|
                {
                    &&& #[trigger] sources::first_named(row, i, key)
                    &&& alias == Some(key) || key == aggregate_call::agg_output_name(
                        text::lower(names::last_part(name)),
                        args@,
                        aggregate_call::keys_of(within_group),
                    )
                    &&& x == (ScalarExprView::Column {
                        name: row.fields[i].name,
                        index: i as usize,
                        data_type: row.fields[i].data_type,
                    })
                }
        },
{
    if let Expr::Call { name, args, within_group, .. } = e {
        let full = aggregate_call::agg_output_name(
            names::simple_name(name),
            args@,
            aggregate_call::keys_of(within_group),
        );
        schema::find_gives_first(row.fields, full, 0);
        if let Some(i) = schema::find_field(row, full) {
            assert(sources::first_named(row, i, full));
        }
        if let Some(a) = alias {
            schema::find_gives_first(row.fields, a, 0);
            if let Some(i) = schema::find_field(row, a) {
                assert(sources::first_named(row, i, a));
            }
        }
    }
}

/// Every other expression over groups is bound as over any row.
pub proof fn other_grouped_expressions_are_plain(
    e: Expr,
    alias: Option<Seq<char>>,
    row: SchemaView,
    cat: CatalogView,
    ctes: expr::Ctes,
    rows: Seq<SchemaView>,
    r: ReadingsView,
)
    requires
        !(e is Call || e is Binary || e is Unary || e is Paren || e is Collate || e is NullIf
            || e is Coalesce || e is Greatest || e is Least),
    ensures
        aggregate::bound_or_agg(e, alias, row, cat, ctes, rows, r) == expr::bound_value(
            e,
            row,
            cat,
            ctes,
            rows,
            r,
        ),
{
}

/// Whether an output column has the alias of its item for a name, else the name of a
/// column as written, else the text of the expression.
pub open spec fn named_by(item: SelectItem, out: (ScalarExprView, Seq<char>)) -> bool {
    match item {
        SelectItem::Expr { expr, alias } => {
            &&& alias matches Some(a) ==> out.1 == a.value@
            &&& alias is None ==> match expr {
                Expr::Column { name } => out.1 == names::last_part(name),
                _ => out.1 == crate::render::scalar_text(out.0),
            }
        },
        _ => false,
    }
}

/// Whether an output column over groups is that of an item.
#[verifier::opaque]
pub open spec fn outputs_group(
    item: SelectItem,
    out: (ScalarExprView, Seq<char>),
    row: SchemaView,
    cat: CatalogView,
    ctes: expr::Ctes,
    rows: Seq<SchemaView>,
    r: ReadingsView,
) -> bool {
    &&& named_by(item, out)
    &&& item matches SelectItem::Expr { expr, alias }
    &&& aggregate::bound_or_agg(
        expr,
        match alias {
            Some(a) => Some(a.value@),
            None => None,
        },
        row,
        cat,
        ctes,
        rows,
        r,
    ) == Ok::<_, PlanErrorView>(out.0)
}

/// Whether output columns over groups are those of the first `n` items of a
/// projection, in order. A wildcard stands for all columns.
pub open spec fn projects_groups(
    items: Seq<SelectItem>,
    n: int,
    outs: Seq<(ScalarExprView, Seq<char>)>,
    row: SchemaView,
    cat: CatalogView,
    ctes: expr::Ctes,
    rows: Seq<SchemaView>,
    r: ReadingsView,
) -> bool
    decreases n,
{
    if n <= 0 {
        outs.len() == 0
    } else if items[n - 1] is Expr {
        &&& outs.len() > 0
        &&& outputs_group(items[n - 1], outs.last(), row, cat, ctes, rows, r)
        &&& projects_groups(items, n - 1, outs.drop_last(), row, cat, ctes, rows, r)
    } else {
        let m = row.fields.len() as int;
        &&& outs.len() >= m
        &&& forall|k: int|
            0 <= k < m ==> shape::outputs_column(#[trigger] outs[outs.len() - m + k], row, k)
        &&& projects_groups(items, n - 1, outs.take(outs.len() - m), row, cat, ctes, rows, r)
    }
}

/// A projection over groups outputs its items, in order.
pub proof fn grouped_projections_output_their_items(
    items: Seq<SelectItem>,
    i: int,
    acc: Seq<(ScalarExprView, Seq<char>)>,
    row: SchemaView,
    cat: CatalogView,
    ctes: expr::Ctes,
    rows: Seq<SchemaView>,
    r: ReadingsView,
)
    requires
        0 <= i <= items.len(),
        projects_groups(items, i, acc, row, cat, ctes, rows, r),
    ensures
        aggregate::bound_projection_agg(items, i, acc, row, cat, ctes, rows, r) matches Ok(outs)
            ==> projects_groups(items, items.len() as int, outs, row, cat, ctes, rows, r),
    decreases items.len() - i,
{
    if i < items.len() {
        match items[i] {
            SelectItem::Expr { expr, alias } => {
                let name = match alias {
                    Some(a) => Some(a.value@),
                    None => None,
                };
                if let Ok(x) = aggregate::bound_or_agg(expr, name, row, cat, ctes, rows, r) {
                    let out = (x, names::named_output(expr, x, alias));
                    assert(outputs_group(items[i], out, row, cat, ctes, rows, r)) by {
                        reveal(outputs_group);
                    }
                    let next = acc.push(out);
                    assert(next.drop_last() =~= acc);
                    grouped_projections_output_their_items(
                        items,
                        i + 1,
                        next,
                        row,
                        cat,
                        ctes,
                        rows,
                        r,
                    );
                }
            },
            _ => {
                let cols = relation::all_columns(row);
                let m = row.fields.len() as int;
                let next = acc + cols;
                assert(cols.len() == m);
                assert(next.take(next.len() - m) =~= acc);
                assert forall|k: int| 0 <= k < m implies shape::outputs_column(
                    #[trigger] next[next.len() - m + k],
                    row,
                    k,
                ) by {
                    assert(next[acc.len() + k] == cols[k]);
                }
                grouped_projections_output_their_items(
                    items,
                    i + 1,
                    next,
                    row,
                    cat,
                    ctes,
                    rows,
                    r,
                );
            },
        }
    }
}

/// Whether an output column is that of an item over a row.
#[verifier::opaque]
pub open spec fn outputs_item(
    item: SelectItem,
    out: (ScalarExprView, Seq<char>),
    row: SchemaView,
    entries: Seq<ScopeEntryView>,
    cat: CatalogView,
    ctes: expr::Ctes,
    rows: Seq<SchemaView>,
    r: ReadingsView,
) -> bool {
    &&& named_by(item, out)
    &&& item matches SelectItem::Expr { expr, .. }
    &&& {
        ||| expr::bound_value(expr, row, cat, ctes, rows, r) == Ok::<_, PlanErrorView>(out.0)
        ||| aggregate::whole_row(expr, entries) == Some(out.0)
    }
}

/// Whether the `k`-th of output columns is that of the `k`-th item.
pub open spec fn outputs_each(
    items: Seq<SelectItem>,
    n: int,
    outs: Seq<(ScalarExprView, Seq<char>)>,
    row: SchemaView,
    entries: Seq<ScopeEntryView>,
    cat: CatalogView,
    ctes: expr::Ctes,
    rows: Seq<SchemaView>,
    r: ReadingsView,
) -> bool {
    &&& outs.len() == n
    &&& forall|k: int|
        0 <= k < n ==> outputs_item(items[k], #[trigger] outs[k], row, entries, cat, ctes, rows, r)
}

/// A projection without wildcards outputs its items, in order.
pub proof fn projections_output_their_items(
    items: Seq<SelectItem>,
    i: int,
    acc: Seq<(ScalarExprView, Seq<char>)>,
    input: SchemaView,
    row: SchemaView,
    entries: Seq<ScopeEntryView>,
    cat: CatalogView,
    ctes: expr::Ctes,
    rows: Seq<SchemaView>,
    r: ReadingsView,
)
    requires
        0 <= i <= items.len(),
        forall|k: int| 0 <= k < items.len() ==> #[trigger] items[k] is Expr,
        outputs_each(items, i, acc, row, entries, cat, ctes, rows, r),
    ensures
        aggregate::bound_projection_items(
            items,
            i,
            acc,
            input,
            row,
            entries,
            cat,
            ctes,
            rows,
            r,
        ) matches Ok(outs) ==> outputs_each(
            items,
            items.len() as int,
            outs,
            row,
            entries,
            cat,
            ctes,
            rows,
            r,
        ),
    decreases items.len() - i,
{
    if i < items.len() {
        assert(items[i] is Expr);
        if let SelectItem::Expr { expr, alias } = items[i] {
            if let Ok(x) = aggregate::bound_item(expr, row, entries, cat, ctes, rows, r) {
                let out = (x, names::named_output(expr, x, alias));
                assert(outputs_item(items[i], out, row, entries, cat, ctes, rows, r)) by {
                    reveal(outputs_item);
                }
                let next = acc.push(out);
                assert forall|k: int| 0 <= k < i + 1 implies outputs_item(
                    items[k],
                    #[trigger] next[k],
                    row,
                    entries,
                    cat,
                    ctes,
                    rows,
                    r,
                ) by {
                    if k < i {
                        assert(next[k] == acc[k]);
                    }
                }
                projections_output_their_items(
                    items,
                    i + 1,
                    next,
                    input,
                    row,
                    entries,
                    cat,
                    ctes,
                    rows,
                    r,
                );
            }
        }
    }
}

/// A lone wildcard outputs all columns that are offered, and those of its row where
/// none is; one with a qualifier outputs those that are offered under it.
pub proof fn wildcards_output_their_columns(
    item: SelectItem,
    input: SchemaView,
    row: SchemaView,
    entries: Seq<ScopeEntryView>,
    cat: CatalogView,
    ctes: expr::Ctes,
    rows: Seq<SchemaView>,
    r: ReadingsView,
)
    requires
        !(item is Expr),
    ensures
        aggregate::bound_projection_items(
            seq![item],
            0,
            Seq::empty(),
            input,
            row,
            entries,
            cat,
            ctes,
            rows,
            r,
        ) matches Ok(outs) ==> match item {
            SelectItem::QualifiedWildcard { qualifier } => {
                &&& outs.len() > 0
                &&& shape::outputs_entries(
                    outs,
                    0,
                    outs.len() as int,
                    entries,
                    Some(qualifier.value@),
                    0,
                )
            },
            _ => {
                &&& entries.len() == 0 ==> outs.len() == input.fields.len() && forall|k: int|
                    0 <= k < outs.len() ==> shape::outputs_column(#[trigger] outs[k], input, k)
                &&& entries.len() > 0 ==> shape::outputs_entries(
                    outs,
                    0,
                    outs.len() as int,
                    entries,
                    None,
                    0,
                )
            },
        },
{
    reveal_with_fuel(aggregate::bound_projection_items, 3);
    let none = Seq::<(ScalarExprView, Seq<char>)>::empty();
    match item {
        SelectItem::QualifiedWildcard { qualifier } => {
            let found = relation::qualified_columns(entries, Some(qualifier.value@), 0);
            assert(none + found =~= found);
            assert(found.subrange(0, found.len() as int) =~= found);
            shape::offered_columns_are_output(found, 0, entries, Some(qualifier.value@), 0);
        },
        _ => {
            let found = bound::wildcard_columns(input, entries);
            assert(none + found =~= found);
            if entries.len() > 0 {
                assert(found.subrange(0, found.len() as int) =~= found);
                shape::offered_columns_are_output(found, 0, entries, None, 0);
            }
        },
    }
}

/// Whether an aggregate call occurs in an expression, as itself or in its parts. A
/// call of `min` or `max` on several values is none.
pub open spec fn calls_aggregate(e: Expr) -> bool
    decreases e,
{
    match e {
        Expr::Call { name, args, distinct, within_group, over } => {
            let n = text::lower(names::last_part(name));
            ||| {
                &&& aggregate_call::names_aggregate(names::last_part(name))
                &&& !((n == "min"@ || n == "max"@) && args@.len() > 1 && !distinct
                    && within_group is None && over is None)
            }
            ||| exists|k: int| 0 <= k < args@.len() && calls_aggregate(#[trigger] args@[k])
        },
        Expr::Unary { expr, .. } => calls_aggregate(*expr),
        Expr::Paren { expr } => calls_aggregate(*expr),
        Expr::IsNull { expr, .. } => calls_aggregate(*expr),
        Expr::Collate { expr, .. } => calls_aggregate(*expr),
        Expr::Coalesce { args } => exists|k: int|
            0 <= k < args@.len() && calls_aggregate(#[trigger] args@[k]),
        Expr::Greatest { args } => exists|k: int|
            0 <= k < args@.len() && calls_aggregate(#[trigger] args@[k]),
        Expr::Least { args } => exists|k: int|
            0 <= k < args@.len() && calls_aggregate(#[trigger] args@[k]),
        Expr::NullIf { a, b } => calls_aggregate(*a) || calls_aggregate(*b),
        Expr::Binary { left, right, .. } => calls_aggregate(*left) || calls_aggregate(*right),
        _ => false,
    }
}

/// An expression has an aggregate exactly where an aggregate call occurs in it.
pub proof fn aggregate_calls_are_noticed(e: Expr)
    ensures
        aggregate_call::has_aggregate(e) == calls_aggregate(e),
    decreases e, 0int,
{
    match e {
        Expr::Call { args, .. } => {
            listed_calls_are_noticed(args@, args@.len() as int);
        },
        Expr::Unary { expr, .. } => {
            aggregate_calls_are_noticed(*expr);
        },
        Expr::Paren { expr } => {
            aggregate_calls_are_noticed(*expr);
        },
        Expr::IsNull { expr, .. } => {
            aggregate_calls_are_noticed(*expr);
        },
        Expr::Collate { expr, .. } => {
            aggregate_calls_are_noticed(*expr);
        },
        Expr::Coalesce { args } => {
            listed_calls_are_noticed(args@, args@.len() as int);
        },
        Expr::Greatest { args } => {
            listed_calls_are_noticed(args@, args@.len() as int);
        },
        Expr::Least { args } => {
            listed_calls_are_noticed(args@, args@.len() as int);
        },
        Expr::NullIf { a, b } => {
            aggregate_calls_are_noticed(*a);
            aggregate_calls_are_noticed(*b);
        },
        Expr::Binary { left, right, .. } => {
            aggregate_calls_are_noticed(*left);
            aggregate_calls_are_noticed(*right);
        },
        _ => {},
    }
}

proof fn listed_calls_are_noticed(s: Seq<Expr>, n: int)
    requires
        0 <= n <= s.len(),
    ensures
        aggregate_call::any_has_aggregate(s, n) == exists|k: int|
            0 <= k < n && calls_aggregate(#[trigger] s[k]),
    decreases s, n,
{
    if n > 0 {
        aggregate_calls_are_noticed(s[n - 1]);
        listed_calls_are_noticed(s, n - 1);
        assert(aggregate_call::any_has_aggregate(s, n) == (aggregate_call::has_aggregate(s[n - 1])
            || aggregate_call::any_has_aggregate(s, n - 1)));
        if aggregate_call::any_has_aggregate(s, n - 1) {
            let k = choose|k: int| 0 <= k < n - 1 && calls_aggregate(#[trigger] s[k]);
            assert(0 <= k < n && calls_aggregate(s[k]));
        }
    }
}

/// Collecting the aggregate calls of an expression keeps those that were there, in
/// their places.
pub proof fn collecting_keeps_what_was_there(
    e: Expr,
    alias: Option<Identifier>,
    row: SchemaView,
    acc: Seq<LogicalAggregateExprView>,
    cat: CatalogView,
    ctes: expr::Ctes,
    rows: Seq<SchemaView>,
    r: ReadingsView,
)
    ensures
        aggregate::collected(e, alias, row, acc, cat, ctes, rows, r) matches Ok(more) ==> {
            &&& more.len() >= acc.len()
            &&& forall|k: int| 0 <= k < acc.len() ==> more[k] == #[trigger] acc[k]
        },
    decreases e, 0int,
{
    match e {
        Expr::Call { args, .. } => {
            collecting_lists_keeps_what_was_there(args@, 0, row, acc, cat, ctes, rows, r);
        },
        Expr::Paren { expr } => {
            collecting_keeps_what_was_there(*expr, alias, row, acc, cat, ctes, rows, r);
        },
        Expr::Unary { expr, .. } => {
            collecting_keeps_what_was_there(*expr, alias, row, acc, cat, ctes, rows, r);
        },
        Expr::Collate { expr, .. } => {
            collecting_keeps_what_was_there(*expr, alias, row, acc, cat, ctes, rows, r);
        },
        Expr::Coalesce { args } => {
            collecting_lists_keeps_what_was_there(args@, 0, row, acc, cat, ctes, rows, r);
        },
        Expr::Greatest { args } => {
            collecting_lists_keeps_what_was_there(args@, 0, row, acc, cat, ctes, rows, r);
        },
        Expr::Least { args } => {
            collecting_lists_keeps_what_was_there(args@, 0, row, acc, cat, ctes, rows, r);
        },
        Expr::NullIf { a, b } => {
            collecting_keeps_what_was_there(*a, None, row, acc, cat, ctes, rows, r);
            if let Ok(more) = aggregate::collected(*a, None, row, acc, cat, ctes, rows, r) {
                collecting_keeps_what_was_there(*b, None, row, more, cat, ctes, rows, r);
            }
        },
        Expr::Binary { left, right, .. } => {
            collecting_keeps_what_was_there(*left, None, row, acc, cat, ctes, rows, r);
            if let Ok(more) = aggregate::collected(*left, None, row, acc, cat, ctes, rows, r) {
                collecting_keeps_what_was_there(*right, None, row, more, cat, ctes, rows, r);
            }
        },
        _ => {},
    }
}

proof fn collecting_lists_keeps_what_was_there(
    list: Seq<Expr>,
    i: int,
    row: SchemaView,
    acc: Seq<LogicalAggregateExprView>,
    cat: CatalogView,
    ctes: expr::Ctes,
    rows: Seq<SchemaView>,
    r: ReadingsView,
)
    requires
        0 <= i <= list.len(),
    ensures
        aggregate::collected_args(list, i, acc, row, cat, ctes, rows, r) matches Ok(more) ==> {
            &&& more.len() >= acc.len()
            &&& forall|k: int| 0 <= k < acc.len() ==> more[k] == #[trigger] acc[k]
        },
    decreases list, list.len() - i,
{
    if i < list.len() {
        collecting_keeps_what_was_there(list[i], None, row, acc, cat, ctes, rows, r);
        if let Ok(more) = aggregate::collected(list[i], None, row, acc, cat, ctes, rows, r) {
            collecting_lists_keeps_what_was_there(list, i + 1, row, more, cat, ctes, rows, r);
        }
    }
}

/// An aggregation that knows aliases gives its groups, under their aliases where they
/// have any, and then its aggregates, each under its name.
pub proof fn aliased_aggregations_name_their_columns(
    p: QueryPlanView,
    groups: Seq<ScalarExprView>,
    aliases: Seq<Option<Seq<char>>>,
    aggs: Seq<LogicalAggregateExprView>,
)
    requires
        aliases.len() == groups.len(),
    ensures
        ({
            let fields = aggregate::aggregate_fields(groups, aliases, aggs);
            &&& fields.len() == groups.len() + aggs.len()
            &&& forall|i: int|
                0 <= i < groups.len() ==> {
                    &&& aliases[i] matches Some(a) ==> (#[trigger] fields[i]).name == a
                    &&& aliases[i] is None ==> headings::names_group(groups[i], i, fields[i].name)
                    &&& fields[i].data_type == query::scalar_type(groups[i])
                }
            &&& forall|i: int|
                groups.len() <= i < fields.len() ==> {
                    &&& (#[trigger] fields[i]).name == aggs[i - groups.len()].output_name
                    &&& fields[i].data_type == aggs[i - groups.len()].data_type
                }
            &&& aggregate::aggregation(p, groups, aliases, aggs) matches Ok(q)
                ==> query::query_schema(q).fields == relation::unique_fields(fields)
        }),
{
}

/// An alias is given to the groups that are its expression, unless they are columns or
/// have one, and to no other.
pub proof fn aliases_are_given_to_their_groups(
    groups: Seq<ScalarExprView>,
    aliases: Seq<Option<Seq<char>>>,
    x: ScalarExprView,
    alias: Seq<char>,
)
    requires
        aliases.len() == groups.len(),
    ensures
        ({
            let out = aggregate::with_alias(groups, aliases, x, alias);
            &&& out.len() == groups.len()
            &&& forall|i: int|
                0 <= i < groups.len() ==> {
                    &&& groups[i] != x || groups[i] is Column || aliases[i] is Some ==> (
                    #[trigger] out[i]) == aliases[i]
                    &&& groups[i] == x && !(groups[i] is Column) && aliases[i] is None ==> out[i]
                        == Some(alias)
                }
        }),
{
}

} // verus!
