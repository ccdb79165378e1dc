//! What the items of a `FROM` list are bound to.
use crate::ast::{Identifier, JoinCondition, JoinOp, TableRef};
use crate::binder::relation::ScopeEntryView;
use crate::binder::{bound, names, relation};
use crate::catalog::CatalogView;
use crate::error::PlanErrorView;
use crate::query::{LogicalJoinConditionView, LogicalJoinType, QueryPlanView, ScalarExprView};
use crate::schema::SchemaView;
use crate::{query, schema, text};
use vstd::prelude::*;

verus! {

/// Whether columns are those that a name refers to: those of the latest visible
/// common table expression of that name, or else of the table.
pub open spec fn known_as(
    name: Seq<char>,
    columns: SchemaView,
    cat: CatalogView,
    ctes: Seq<(Seq<char>, SchemaView)>,
) -> bool {
    ||| exists|i: int|
        {
            &&& 0 <= i < ctes.len()
            &&& text::same_fold((#[trigger] ctes[i]).0, name)
            &&& columns == ctes[i].1
            &&& forall|j: int| i < j < ctes.len() ==> !text::same_fold((#[trigger] ctes[j]).0, name)
        }
    ||| {
        &&& forall|j: int| 0 <= j < ctes.len() ==> !text::same_fold((#[trigger] ctes[j]).0, name)
        &&& (cat.table)(name) matches Some(meta)
        &&& columns == meta.schema
    }
}

proof fn latest_is_found(ctes: Seq<(Seq<char>, SchemaView)>, name: Seq<char>, n: int)
    requires
        0 <= n <= ctes.len(),
    ensures
        match bound::latest_cte(ctes, name, n) {
            Some(i) => {
                &&& 0 <= i < n
                &&& text::same_fold(ctes[i].0, name)
                &&& forall|j: int| i < j < n ==> !text::same_fold((#[trigger] ctes[j]).0, name)
            },
            None => forall|j: int| 0 <= j < n ==> !text::same_fold((#[trigger] ctes[j]).0, name),
        },
    decreases n,
{
    if n > 0 {
        latest_is_found(ctes, name, n - 1);
    }
}

/// A name in a `FROM` list refers to the latest common table expression of that
/// name, or else to the table. It is unknown exactly when there is neither.
pub proof fn names_refer_to_known_columns(
    name: Seq<char>,
    cat: CatalogView,
    ctes: Seq<(Seq<char>, SchemaView)>,
)
    ensures
        match bound::relation_columns(name, cat, ctes) {
            Ok(columns) => known_as(name, columns, cat, ctes),
            Err(e) => {
                &&& e == PlanErrorView::TableNotFound(name)
                &&& forall|columns: SchemaView| !known_as(name, columns, cat, ctes)
            },
        },
{
    latest_is_found(ctes, name, ctes.len() as int);
}

/// Whether offered columns are all columns of a row under one qualifier.
pub open spec fn offers_all(
    entries: Seq<ScopeEntryView>,
    qualifier: Seq<char>,
    row: SchemaView,
) -> bool {
    &&& entries.len() == row.fields.len()
    &&& forall|k: int|
        0 <= k < entries.len() ==> {
            let e = #[trigger] entries[k];
            e.qualifier == qualifier && e.field_index == k as usize && e.field == row.fields[k]
        }
}

/// A named `FROM` item reads all columns of what its name refers to, and offers
/// them under its alias or else under the name.
pub proof fn named_items_read_their_table(
    t: TableRef,
    cat: CatalogView,
    ctes: Seq<(Seq<char>, SchemaView)>,
    rows: Seq<SchemaView>,
)
    requires
        t is Named,
    ensures
        bound::bound_table_ref(t, cat, ctes, rows) matches Ok((p, entries)) ==> {
            &&& p matches QueryPlanView::Scan { table, schema, projection }
            &&& table == text::lower(names::last_part(t->Named_name))
            &&& known_as(table, schema, cat, ctes)
            &&& projection is None
            &&& offers_all(
                entries,
                match t->Named_alias {
                    Some(a) => a.value@,
                    None => table,
                },
                schema,
            )
        },
{
    names_refer_to_known_columns(text::lower(names::last_part(t->Named_name)), cat, ctes);
}

/// A subquery in a `FROM` list gives the columns of the subquery in order, under
/// the listed names, and offers them under its alias.
pub proof fn subqueries_give_their_columns(
    t: TableRef,
    cat: CatalogView,
    ctes: Seq<(Seq<char>, SchemaView)>,
    rows: Seq<SchemaView>,
)
    requires
        t is Subquery,
    ensures
        bound::bound_table_ref(t, cat, ctes, rows) matches Ok((p, entries)) ==> {
            &&& p matches QueryPlanView::Project { input, exprs, schema }
            &&& bound::bound_select_with_ctes(*t->Subquery_select, cat, ctes, rows) == Ok::<
                _,
                PlanErrorView,
            >(*input)
            &&& exprs.len() == query::query_schema(*input).fields.len()
            &&& schema.fields.len() == exprs.len()
            &&& forall|k: int|
                0 <= k < exprs.len() ==> {
                    let inner = query::query_schema(*input).fields[k];
                    let listed = t->Subquery_column_aliases@;
                    &&& (#[trigger] exprs[k]).0 matches ScalarExprView::Column {
                        name,
                        index,
                        data_type,
                    }
                    &&& index == k as usize && data_type == inner.data_type
                    &&& name == schema.fields[k].name && exprs[k].1 == name
                    &&& name == if k < listed.len() {
                        listed[k].value@
                    } else {
                        inner.name
                    }
                    &&& schema.fields[k].data_type == inner.data_type
                    &&& schema.fields[k].nullable == inner.nullable
                }
            &&& offers_all(entries, t->Subquery_alias.value@, schema)
        },
{
    if let Ok((p, entries)) = bound::bound_table_ref(t, cat, ctes, rows) {
        let inner = bound::bound_select_with_ctes(*t->Subquery_select, cat, ctes, rows)->Ok_0;
        relation::aliases_keep_types(query::query_schema(inner), t->Subquery_column_aliases@);
    }
}

/// Whether a bound join type is the stated one.
pub open spec fn same_join(op: JoinOp, made: LogicalJoinType) -> bool {
    &&& made is Inner <==> op is Inner
    &&& made is LeftOuter <==> op is LeftOuter
    &&& made is RightOuter <==> op is RightOuter
    &&& made is FullOuter <==> op is FullOuter
    &&& made is Cross <==> op is Cross
}

/// Whether a column is the first one of a name in a row.
pub open spec fn first_named(row: SchemaView, i: int, name: Seq<char>) -> bool {
    &&& 0 <= i < row.fields.len()
    &&& text::same_fold(row.fields[i].name, name)
    &&& forall|j: int|
        0 <= j < i ==> !text::same_fold((#[trigger] row.fields[j]).name, name)
}

/// Whether a bound condition is the stated one: over the row of the join, or of
/// the first columns of each listed name on both sides.
pub open spec fn same_condition(
    condition: JoinCondition,
    made: LogicalJoinConditionView,
    left: SchemaView,
    right: SchemaView,
    row: SchemaView,
    cat: CatalogView,
    rows: Seq<SchemaView>,
) -> bool {
    match condition {
        JoinCondition::Absent => made is Absent,
        JoinCondition::On(e) => match made {
            LogicalJoinConditionView::On(x) => {
                &&& bound::bound_expr(e, row, cat, rows) == Ok::<_, PlanErrorView>(x)
                &&& query::scalar_type(x) is Bool || query::scalar_type(x) is Null
            },
            _ => false,
        },
        JoinCondition::Using(cols) => match made {
            LogicalJoinConditionView::Using(pairs) => {
                &&& pairs.len() == cols@.len()
                &&& forall|k: int|
                    0 <= k < pairs.len() ==> {
                        &&& first_named(left, (#[trigger] pairs[k]).0 as int, cols@[k].value@)
                        &&& first_named(right, pairs[k].1 as int, cols@[k].value@)
                    }
            },
            _ => false,
        },
    }
}

/// Whether the columns of a join without `USING` are those of its left side and
/// then those of its right side. A right column whose name the left side has
/// gets a suffix, and the side that an outer join fills up can be null.
pub open spec fn side_by_side(
    row: SchemaView,
    left: SchemaView,
    right: SchemaView,
    fills_left: bool,
    fills_right: bool,
) -> bool {
    let n = left.fields.len();
    &&& row.fields.len() == n + right.fields.len()
    &&& forall|k: int|
        0 <= k < n ==> {
            let f = #[trigger] row.fields[k];
            &&& f.name == left.fields[k].name && f.data_type == left.fields[k].data_type
            &&& f.nullable <==> left.fields[k].nullable || fills_left
        }
    &&& forall|k: int|
        0 <= k < right.fields.len() ==> {
            let f = row.fields[n + k];
            let own = #[trigger] right.fields[k];
            let taken = exists|j: int|
                0 <= j < n && text::same_fold((#[trigger] left.fields[j]).name, own.name);
            &&& f.data_type == own.data_type
            &&& f.nullable <==> own.nullable || fills_right
            &&& !taken ==> f.name == own.name
            &&& taken ==> f.name == own.name + "_1"@
        }
}

proof fn pairs_are_first(
    cols: Seq<Identifier>,
    i: int,
    acc: Seq<(usize, usize)>,
    left: SchemaView,
    right: SchemaView,
)
    requires
        0 <= i <= cols.len(),
        acc.len() == i,
        left.fields.len() <= usize::MAX,
        right.fields.len() <= usize::MAX,
        forall|k: int|
            0 <= k < i ==> {
                &&& first_named(left, (#[trigger] acc[k]).0 as int, cols[k].value@)
                &&& first_named(right, acc[k].1 as int, cols[k].value@)
            },
    ensures
        relation::using_pairs(cols, i, acc, left, right) matches Ok(pairs) ==> {
            &&& pairs.len() == cols.len()
            &&& forall|k: int|
                0 <= k < pairs.len() ==> {
                    &&& first_named(left, (#[trigger] pairs[k]).0 as int, cols[k].value@)
                    &&& first_named(right, pairs[k].1 as int, cols[k].value@)
                }
        },
    decreases cols.len() - i,
{
    if i < cols.len() {
        let name = cols[i].value@;
        first_is_found(left, name);
        first_is_found(right, name);
        match (schema::find_field(left, name), schema::find_field(right, name)) {
            (Some(l), Some(r)) => {
                pairs_are_first(cols, i + 1, acc.push((l as usize, r as usize)), left, right);
            },
            _ => {},
        }
    }
}

proof fn first_is_found(row: SchemaView, name: Seq<char>)
    ensures
        schema::find_field(row, name) matches Some(i) ==> first_named(row, i, name),
{
    schema::find_gives_first(row.fields, name, 0);
}

proof fn joined_rows_stand_side_by_side(l: SchemaView, r: SchemaView, t: LogicalJoinType)
    ensures
        relation::join_schema(l, r, t) matches Ok(row) ==> side_by_side(
            row,
            l,
            r,
            t is RightOuter || t is FullOuter,
            t is LeftOuter || t is FullOuter,
        ),
{
    if let Ok(row) = relation::join_schema(l, r, t) {
        let n = l.fields.len();
        assert forall|k: int| 0 <= k < r.fields.len() implies ({
            let f = row.fields[n + k];
            let own = #[trigger] r.fields[k];
            let taken = exists|j: int|
                0 <= j < n && text::same_fold((#[trigger] l.fields[j]).name, own.name);
            &&& f.data_type == own.data_type
            &&& f.nullable <==> own.nullable || t is LeftOuter || t is FullOuter
            &&& !taken ==> f.name == own.name
            &&& taken ==> f.name == own.name + "_1"@
        }) by {
            let f = row.fields[n + k];
            let own = r.fields[k];
            assert(f == relation::right_field(l, own, relation::nulls_right(t)));
            if exists|j: int|
                0 <= j < n && text::same_fold((#[trigger] l.fields[j]).name, own.name) {
                let j = choose|j: int|
                    0 <= j < n && text::same_fold((#[trigger] l.fields[j]).name, own.name);
                assert(text::same_fold(l.fields[j].name, own.name));
            }
            if relation::has_name(l, own.name) {
                let j = choose|j: int|
                    0 <= j < n && text::same_fold(#[trigger] l.fields[j].name, own.name);
                assert(text::same_fold((l.fields[j]).name, own.name));
            }
        }
    }
}

proof fn bound_joins_keep_their_condition(
    condition: JoinCondition,
    l: QueryPlanView,
    r: QueryPlanView,
    op: JoinOp,
    cat: CatalogView,
    rows: Seq<SchemaView>,
)
    requires
        query::query_schema(l).fields.len() <= usize::MAX,
        query::query_schema(r).fields.len() <= usize::MAX,
    ensures
        bound::bound_join(condition, l, r, relation::join_type_of(op), cat, rows) matches Ok(p)
            ==> joins(p, condition, l, r, op, cat, rows),
{
    let ls = query::query_schema(l);
    let rs = query::query_schema(r);
    joined_rows_stand_side_by_side(ls, rs, LogicalJoinType::Cross);
    joined_rows_stand_side_by_side(ls, rs, relation::join_type_of(op));
    if let JoinCondition::Using(cols) = condition {
        pairs_are_first(cols@, 0, Seq::empty(), ls, rs);
    }
}

/// Whether a plan is the stated join of two plans. Without `USING` its row is
/// that of both sides; a join without a condition leaves their columns as they
/// are.
pub open spec fn joins(
    p: QueryPlanView,
    stated: JoinCondition,
    l: QueryPlanView,
    r: QueryPlanView,
    op: JoinOp,
    cat: CatalogView,
    rows: Seq<SchemaView>,
) -> bool {
    match p {
        QueryPlanView::Join { left, right, join_type, condition, schema } => {
            let ls = query::query_schema(l);
            let rs = query::query_schema(r);
            &&& *left == l && *right == r
            &&& same_join(op, join_type)
            &&& same_condition(stated, condition, ls, rs, schema, cat, rows)
            &&& stated is Absent ==> side_by_side(schema, ls, rs, false, false)
            &&& stated is On ==> side_by_side(
                schema,
                ls,
                rs,
                op is RightOuter || op is FullOuter,
                op is LeftOuter || op is FullOuter,
            )
        },
        _ => false,
    }
}

/// A join keeps its sides, its type and its condition, and offers the columns of
/// both sides. The rows of both sides fit into memory.
pub proof fn joins_keep_their_condition(
    t: TableRef,
    cat: CatalogView,
    ctes: Seq<(Seq<char>, SchemaView)>,
    rows: Seq<SchemaView>,
)
    requires
        t is Join,
        bound::bound_table_ref(*t->Join_left, cat, ctes, rows) matches Ok((l, _))
            ==> query::query_schema(l).fields.len() <= usize::MAX,
        bound::bound_table_ref(*t->Join_right, cat, ctes, rows) matches Ok((r, _))
            ==> query::query_schema(r).fields.len() <= usize::MAX,
    ensures
        bound::bound_table_ref(t, cat, ctes, rows) matches Ok((p, entries)) ==> {
            &&& bound::bound_table_ref(*t->Join_left, cat, ctes, rows) matches Ok((l, le))
            &&& bound::bound_table_ref(*t->Join_right, cat, ctes, rows) matches Ok((r, re))
            &&& joins(p, t->Join_condition, l, r, t->Join_op, cat, rows)
            &&& !(t->Join_condition is Using) ==> offers_both(
                entries,
                le,
                re,
                query::query_schema(l).fields.len() as int,
            )
        },
{
    if let Ok((p, entries)) = bound::bound_table_ref(t, cat, ctes, rows) {
        let l = bound::bound_table_ref(*t->Join_left, cat, ctes, rows)->Ok_0.0;
        let r = bound::bound_table_ref(*t->Join_right, cat, ctes, rows)->Ok_0.0;
        bound_joins_keep_their_condition(t->Join_condition, l, r, t->Join_op, cat, rows);
    }
}

/// Whether offered columns are those of two sides, the right ones at places
/// behind the left row.
pub open spec fn offers_both(
    entries: Seq<ScopeEntryView>,
    left: Seq<ScopeEntryView>,
    right: Seq<ScopeEntryView>,
    width: int,
) -> bool {
    &&& entries.len() == left.len() + right.len()
    &&& forall|k: int| 0 <= k < left.len() ==> #[trigger] entries[k] == left[k]
    &&& forall|k: int|
        0 <= k < right.len() ==> {
            let e = entries[left.len() + k];
            let own = #[trigger] right[k];
            &&& e.qualifier == own.qualifier && e.field == own.field
            &&& e.field_index == (own.field_index + width) as usize
        }
}

/// Whether a plan is the first `n` items of a `FROM` list side by side.
pub open spec fn crosses(
    p: QueryPlanView,
    items: Seq<TableRef>,
    n: int,
    cat: CatalogView,
    ctes: Seq<(Seq<char>, SchemaView)>,
    rows: Seq<SchemaView>,
) -> bool
    decreases n,
{
    if n <= 0 {
        p matches QueryPlanView::Empty { schema } && schema.fields.len() == 0
    } else if n == 1 {
        bound::bound_table_ref(items[0], cat, ctes, rows) matches Ok((q, _)) && p == q
    } else {
        match p {
            QueryPlanView::Join { left, right, join_type, condition, schema } => {
                &&& join_type is Cross && condition is Absent
                &&& bound::bound_table_ref(items[n - 1], cat, ctes, rows) matches Ok((q, _))
                &&& *right == q
                &&& side_by_side(
                    schema,
                    query::query_schema(*left),
                    query::query_schema(*right),
                    false,
                    false,
                )
                &&& crosses(*left, items, n - 1, cat, ctes, rows)
            },
            _ => false,
        }
    }
}

proof fn crossing_goes_on(
    items: Seq<TableRef>,
    i: int,
    p: QueryPlanView,
    entries: Seq<ScopeEntryView>,
    cat: CatalogView,
    ctes: Seq<(Seq<char>, SchemaView)>,
    rows: Seq<SchemaView>,
)
    requires
        1 <= i <= items.len(),
        crosses(p, items, i, cat, ctes, rows),
    ensures
        bound::cross_joined(items, i, p, entries, cat, ctes, rows) matches Ok((made, _))
            ==> crosses(made, items, items.len() as int, cat, ctes, rows),
    decreases items.len() - i,
{
    if i < items.len() {
        if let Ok((right, more)) = bound::bound_table_ref(items[i], cat, ctes, rows) {
            if let Ok(row) = relation::join_schema(
                query::query_schema(p),
                query::query_schema(right),
                LogicalJoinType::Cross,
            ) {
                let made = QueryPlanView::Join {
                    left: Box::new(p),
                    right: Box::new(right),
                    join_type: LogicalJoinType::Cross,
                    condition: LogicalJoinConditionView::Absent,
                    schema: row,
                };
                joined_rows_stand_side_by_side(
                    query::query_schema(p),
                    query::query_schema(right),
                    LogicalJoinType::Cross,
                );
                assert(crosses(made, items, i + 1, cat, ctes, rows));
                crossing_goes_on(
                    items,
                    i + 1,
                    made,
                    relation::merged_entries(
                        entries,
                        more,
                        query::query_schema(p).fields.len(),
                    ),
                    cat,
                    ctes,
                    rows,
                );
            }
        }
    }
}

/// A `FROM` list is all its items side by side, and no rows' columns where it is
/// empty.
pub proof fn from_lists_cross_their_items(
    items: Seq<TableRef>,
    cat: CatalogView,
    ctes: Seq<(Seq<char>, SchemaView)>,
    rows: Seq<SchemaView>,
)
    ensures
        bound::bound_from(items, cat, ctes, rows) matches Ok((p, entries)) ==> {
            &&& crosses(p, items, items.len() as int, cat, ctes, rows)
            &&& items.len() == 1 ==> bound::bound_table_ref(items[0], cat, ctes, rows) == Ok::<
                _,
                PlanErrorView,
            >((p, entries))
        },
{
    if items.len() > 0 {
        if let Ok((p, entries)) = bound::bound_table_ref(items[0], cat, ctes, rows) {
            crossing_goes_on(items, 1, p, entries, cat, ctes, rows);
        }
    }
}

} // verus!
