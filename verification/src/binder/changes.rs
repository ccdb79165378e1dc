//! What plans keep of the statements that change tables.
use crate::ast::{
    Assignment, DeleteStmt, Expr, Identifier, InsertSource, InsertStmt, OnConflict, SelectItem,
    Statement, TruncateStmt, UpdateStmt,
};
use crate::binder::{bound, bound_statement, dml, names, shape, sources};
use crate::catalog::CatalogView;
use crate::error::PlanErrorView;
use crate::plan::{LogicalOnConflictView, LogicalPlanView};
use crate::query::{QueryPlanView, ScalarExprView};
use crate::schema::SchemaView;
use crate::{query, schema, text};
use vstd::prelude::*;

verus! {

/// Whether a place is that of the first column of a name.
pub open spec fn place_of(table: SchemaView, name: Seq<char>, place: usize) -> bool {
    exists|i: int| place == i as usize && #[trigger] sources::first_named(table, i, name)
}

/// Whether places are those of listed columns in a table: for each name the first
/// column that has it.
pub open spec fn places_of(cols: Seq<Identifier>, places: Seq<usize>, table: SchemaView) -> bool {
    &&& places.len() == cols.len()
    &&& forall|k: int|
        0 <= k < cols.len() ==> place_of(table, cols[k].value@, #[trigger] places[k])
}

/// Whether places are those that an `INSERT` fills: the listed columns, or all
/// columns of the table in order where none is listed.
pub open spec fn fills(cols: Seq<Identifier>, places: Seq<usize>, table: SchemaView) -> bool {
    if cols.len() == 0 {
        &&& places.len() == table.fields.len()
        &&& forall|k: int| 0 <= k < places.len() ==> (#[trigger] places[k]) == k as usize
    } else {
        &&& places_of(cols, places, table)
        &&& forall|i: int, j: int|
            0 <= i < j < cols.len() ==> !text::same_fold(
                (#[trigger] cols[i]).value@,
                (#[trigger] cols[j]).value@,
            )
    }
}

proof fn found_places(
    cols: Seq<Identifier>,
    i: int,
    acc: Seq<usize>,
    table: SchemaView,
)
    requires
        0 <= i <= cols.len(),
        places_of(cols.take(i), acc, table),
    ensures
        dml::conflict_columns(cols, i, acc, table) matches Ok(out) ==> places_of(cols, out, table),
        (forall|a: int, b: int|
            0 <= a < b < i ==> !text::same_fold(
                (#[trigger] cols[a]).value@,
                (#[trigger] cols[b]).value@,
            )) ==> (dml::distinct_columns(cols, i, acc, table) matches Ok(out) ==> {
            &&& places_of(cols, out, table)
            &&& forall|a: int, b: int|
                0 <= a < b < cols.len() ==> !text::same_fold(
                    (#[trigger] cols[a]).value@,
                    (#[trigger] cols[b]).value@,
                )
        }),
    decreases cols.len() - i,
{
    if i < cols.len() {
        let name = cols[i].value@;
        schema::find_gives_first(table.fields, name, 0);
        if let Some(at) = schema::find_field(table, name) {
            assert(sources::first_named(table, at, name));
            let more = acc.push(at as usize);
            assert forall|k: int| 0 <= k < i + 1 implies place_of(
                table,
                cols.take(i + 1)[k].value@,
                #[trigger] more[k],
            ) by {
                assert(cols.take(i + 1)[k] == cols[k]);
                if k < i {
                    assert(cols.take(i)[k] == cols[k]);
                    assert(place_of(table, cols.take(i)[k].value@, acc[k]));
                } else {
                    assert(sources::first_named(table, at, cols[k].value@));
                }
            }
            found_places(cols, i + 1, more, table);
            if !dml::listed_before(cols, i) {
                assert forall|a: int, b: int|
                    0 <= a < b < i + 1 && (forall|a: int, b: int|
                        0 <= a < b < i ==> !text::same_fold(
                            (#[trigger] cols[a]).value@,
                            (#[trigger] cols[b]).value@,
                        )) implies !text::same_fold(
                    (#[trigger] cols[a]).value@,
                    (#[trigger] cols[b]).value@,
                ) by {
                    if b == i {
                        assert(!text::same_fold(cols[a].value@, cols[i].value@));
                    }
                }
            }
        }
    } else {
        assert(cols.take(i) =~= cols);
    }
}

/// An `INSERT` fills the listed columns, no name twice, or all columns. The target
/// of a conflict is the listed columns.
pub proof fn lists_place_their_columns(cols: Seq<Identifier>, table: SchemaView)
    ensures
        dml::target_columns(cols, table) matches Ok(out) ==> fills(cols, out, table),
        dml::conflict_columns(cols, 0, Seq::empty(), table) matches Ok(out) ==> places_of(
            cols,
            out,
            table,
        ),
{
    assert(cols.take(0) =~= Seq::empty());
    found_places(cols, 0, Seq::empty(), table);
}

/// Whether assignments are those of a `SET` list, in order: each to the first
/// column of its name, with what its value is bound to.
pub open spec fn assigns(
    set: Seq<Assignment>,
    made: Seq<(usize, ScalarExprView)>,
    table: SchemaView,
    cat: CatalogView,
    rows: Seq<SchemaView>,
) -> bool {
    &&& made.len() == set.len()
    &&& forall|k: int| 0 <= k < set.len() ==> #[trigger] assigns_one(
        set[k],
        made[k],
        table,
        cat,
        rows,
    )
}

/// Whether an assignment is the stated one.
pub open spec fn assigns_one(
    a: Assignment,
    made: (usize, ScalarExprView),
    table: SchemaView,
    cat: CatalogView,
    rows: Seq<SchemaView>,
) -> bool {
    &&& place_of(table, a.target.value@, made.0)
    &&& bound::bound_expr(a.value, table, cat, rows) == Ok::<_, PlanErrorView>(made.1)
}

proof fn assignments_are_made(
    set: Seq<Assignment>,
    i: int,
    acc: Seq<(usize, ScalarExprView)>,
    table: SchemaView,
    cat: CatalogView,
    rows: Seq<SchemaView>,
)
    requires
        0 <= i <= set.len(),
        acc.len() == i,
        forall|k: int| 0 <= k < i ==> #[trigger] assigns_one(set[k], acc[k], table, cat, rows),
    ensures
        dml::bound_assignments(set, i, acc, table, cat, rows) matches Ok(out) ==> assigns(
            set,
            out,
            table,
            cat,
            rows,
        ),
    decreases set.len() - i,
{
    if i < set.len() {
        schema::find_gives_first(table.fields, set[i].target.value@, 0);
        if let Some(at) = schema::find_field(table, set[i].target.value@) {
            if let Ok(x) = bound::bound_expr(set[i].value, table, cat, rows) {
                assert(sources::first_named(table, at, set[i].target.value@));
                let more = acc.push((at as usize, x));
                assert forall|k: int| 0 <= k < i + 1 implies #[trigger] assigns_one(
                    set[k],
                    more[k],
                    table,
                    cat,
                    rows,
                ) by {
                    if k < i {
                        assert(assigns_one(set[k], acc[k], table, cat, rows));
                    }
                }
                assignments_are_made(set, i + 1, more, table, cat, rows);
            }
        }
    }
}

/// Whether output columns are those of a `RETURNING` list, in order.
#[verifier::opaque]
pub open spec fn answers(
    items: Seq<SelectItem>,
    outs: Seq<(ScalarExprView, Seq<char>)>,
    row: SchemaView,
    cat: CatalogView,
    rows: Seq<SchemaView>,
) -> bool {
    &&& outs.len() == items.len()
    &&& forall|k: int|
        0 <= k < items.len() ==> (#[trigger] items[k]) is Expr && shape::outputs(
            outs[k],
            bound::bound_expr(items[k]->Expr_expr, row, cat, rows),
            items[k],
        )
}

proof fn returned_items_are_output(
    items: Seq<SelectItem>,
    i: int,
    acc: Seq<(ScalarExprView, Seq<char>)>,
    row: SchemaView,
    cat: CatalogView,
    rows: Seq<SchemaView>,
)
    requires
        0 <= i <= items.len(),
        answers(items.take(i), acc, row, cat, rows),
    ensures
        dml::bound_returning(items, i, acc, row, cat, rows) matches Ok(outs) ==> answers(
            items,
            outs,
            row,
            cat,
            rows,
        ),
    decreases items.len() - i,
{
    reveal(answers);
    if i < items.len() {
        if let SelectItem::Expr { expr, alias } = items[i] {
            if let Ok(x) = bound::bound_expr(expr, row, cat, rows) {
                let out = (x, names::named_output(expr, x, alias));
                let more = acc.push(out);
                let part = items.take(i + 1);
                assert forall|k: int| 0 <= k < i + 1 implies (#[trigger] part[k]) is Expr
                    && shape::outputs(
                    more[k],
                    bound::bound_expr(part[k]->Expr_expr, row, cat, rows),
                    part[k],
                ) by {
                    if k < i {
                        assert(items.take(i)[k] == items[k]);
                    }
                }
                returned_items_are_output(items, i + 1, more, row, cat, rows);
            }
        }
    } else {
        assert(items.take(i) =~= items);
    }
}

/// A `RETURNING` list answers its expressions, in order and under their names and
/// types.
pub proof fn returned_rows_are_those_listed(
    items: Seq<SelectItem>,
    row: SchemaView,
    cat: CatalogView,
    rows: Seq<SchemaView>,
)
    ensures
        dml::bound_output_row(items, row, cat, rows) matches Ok((outs, schema)) ==> {
            &&& answers(items, outs, row, cat, rows)
            &&& schema.fields.len() == outs.len()
            &&& forall|k: int|
                0 <= k < outs.len() ==> {
                    &&& (#[trigger] schema.fields[k]).name == outs[k].1
                    &&& schema.fields[k].data_type == query::scalar_type(outs[k].0)
                }
        },
{
    reveal(answers);
    assert(items.take(0) =~= Seq::empty());
    returned_items_are_output(items, 0, Seq::empty(), row, cat, rows);
}

/// Whether a plan reads a table, as far as a predicate lets it.
pub open spec fn reads(
    p: QueryPlanView,
    table: Seq<char>,
    row: SchemaView,
    pred: Option<Expr>,
    cat: CatalogView,
    rows: Seq<SchemaView>,
) -> bool {
    shape::narrowed(
        p,
        QueryPlanView::Scan { table, schema: row, projection: None },
        pred,
        cat,
        rows,
    )
}

/// An `UPDATE` assigns what its `SET` list says to the rows of its table that its
/// `WHERE` clause selects, and answers its `RETURNING` list.
pub proof fn updates_keep_their_clauses(s: UpdateStmt, cat: CatalogView, rows: Seq<SchemaView>)
    ensures
        dml::bound_update(s, cat, rows) matches Ok(p) ==> {
            &&& p matches LogicalPlanView::Update { table, assignments, input, returning, .. }
            &&& table == text::lower(names::last_part(s.table))
            &&& (cat.table)(table) matches Some(meta)
            &&& assigns(s.set@, assignments, meta.schema, cat, rows)
            &&& reads(input, table, meta.schema, s.where_clause, cat, rows)
            &&& answers(s.returning@, returning, meta.schema, cat, rows)
        },
{
    let table = text::lower(names::last_part(s.table));
    if let Some(meta) = (cat.table)(table) {
        assignments_are_made(s.set@, 0, Seq::empty(), meta.schema, cat, rows);
        returned_rows_are_those_listed(s.returning@, meta.schema, cat, rows);
    }
}

/// A `DELETE` removes the rows of its table that its `WHERE` clause selects, and
/// answers its `RETURNING` list.
pub proof fn deletes_keep_their_clauses(s: DeleteStmt, cat: CatalogView, rows: Seq<SchemaView>)
    ensures
        dml::bound_delete(s, cat, rows) matches Ok(p) ==> {
            &&& p matches LogicalPlanView::Delete { table, input, returning, .. }
            &&& table == text::lower(names::last_part(s.table))
            &&& (cat.table)(table) matches Some(meta)
            &&& reads(input, table, meta.schema, s.where_clause, cat, rows)
            &&& answers(s.returning@, returning, meta.schema, cat, rows)
        },
{
    let table = text::lower(names::last_part(s.table));
    if let Some(meta) = (cat.table)(table) {
        returned_rows_are_those_listed(s.returning@, meta.schema, cat, rows);
    }
}

/// Whether cells are those of a `VALUES` row, in order. They see no column.
pub open spec fn cells_of(
    row: Seq<Expr>,
    cells: Seq<ScalarExprView>,
    cat: CatalogView,
    rows: Seq<SchemaView>,
) -> bool {
    shape::binds_each(row, cells, schema::empty_schema(), cat, rows)
}

proof fn value_rows_follow(
    list: Seq<Vec<Expr>>,
    i: int,
    acc: Seq<Seq<ScalarExprView>>,
    arity: nat,
    cat: CatalogView,
    rows: Seq<SchemaView>,
)
    requires
        0 <= i <= list.len(),
        acc.len() == i,
        forall|k: int| 0 <= k < i ==> cells_of(list[k]@, #[trigger] acc[k], cat, rows),
    ensures
        dml::bound_rows(list, i, acc, arity, cat, rows) matches Ok(out) ==> {
            &&& out.len() == list.len()
            &&& forall|k: int|
                0 <= k < out.len() ==> cells_of(list[k]@, #[trigger] out[k], cat, rows)
        },
    decreases list.len() - i,
{
    if i < list.len() {
        shape::lists_are_bound_in_order(list[i]@, schema::empty_schema(), cat, rows);
        if let Ok(cells) = bound::bound_exprs(
            list[i]@,
            0,
            Seq::empty(),
            schema::empty_schema(),
            cat,
            rows,
        ) {
            value_rows_follow(list, i + 1, acc.push(cells), arity, cat, rows);
        }
    }
}

/// Whether a plan is the stated source of rows for as many columns: one row of
/// defaults, the rows of a `VALUES` list, or what a `SELECT` is bound to.
pub open spec fn feeds(
    source: InsertSource,
    p: QueryPlanView,
    width: nat,
    cat: CatalogView,
    rows: Seq<SchemaView>,
) -> bool {
    match source {
        InsertSource::DefaultValues => {
            &&& p matches QueryPlanView::Values { rows: cells, schema }
            &&& cells.len() == 1 && cells[0].len() == 0 && schema.fields.len() == 0
        },
        InsertSource::Values(list) => {
            &&& p matches QueryPlanView::Values { rows: cells, .. }
            &&& cells.len() == list@.len()
            &&& forall|k: int|
                0 <= k < cells.len() ==> cells_of(list@[k]@, #[trigger] cells[k], cat, rows)
                    && cells[k].len() == width
        },
        InsertSource::Select(select) => {
            &&& bound::bound_select(*select, cat, rows) == Ok::<_, PlanErrorView>(p)
            &&& query::query_schema(p).fields.len() == width
        },
    }
}

/// Whether a bound conflict clause is the stated one.
pub open spec fn settles(
    stated: Option<OnConflict>,
    made: Option<LogicalOnConflictView>,
    table: SchemaView,
    cat: CatalogView,
    rows: Seq<SchemaView>,
) -> bool {
    match (stated, made) {
        (None, None) => true,
        (
            Some(OnConflict::DoNothing { target }),
            Some(LogicalOnConflictView::DoNothing { target: kept }),
        ) => match (target, kept) {
            (None, None) => true,
            (Some(t), Some(k)) => places_of(t.columns@, k.columns, table),
            _ => false,
        },
        (
            Some(OnConflict::DoUpdate { target, set, where_clause }),
            Some(LogicalOnConflictView::DoUpdate { target: kept, assignments, where_clause: pred }),
        ) => {
            &&& places_of(target.columns@, kept.columns, table)
            &&& assigns(set@, assignments, table, cat, rows)
            &&& where_clause is Some <==> pred is Some
            &&& where_clause matches Some(e) ==> bound::bound_expr(e, table, cat, rows) == Ok::<
                _,
                PlanErrorView,
            >(pred->Some_0) && (query::scalar_type(pred->Some_0) is Bool || query::scalar_type(
                pred->Some_0,
            ) is Null)
        },
        _ => false,
    }
}

/// An `INSERT` puts the rows of its source into the columns that it lists, settles
/// conflicts as stated, and answers its `RETURNING` list.
pub proof fn inserts_keep_their_clauses(s: InsertStmt, cat: CatalogView, rows: Seq<SchemaView>)
    ensures
        dml::bound_insert(s, cat, rows) matches Ok(p) ==> {
            &&& p matches LogicalPlanView::Insert {
                table,
                columns,
                source,
                on_conflict,
                returning,
                ..
            }
            &&& table == text::lower(names::last_part(s.table))
            &&& (cat.table)(table) matches Some(meta)
            &&& fills(s.columns@, columns, meta.schema)
            &&& feeds(s.source, source, columns.len(), cat, rows)
            &&& settles(s.on_conflict, on_conflict, meta.schema, cat, rows)
            &&& answers(s.returning@, returning, meta.schema, cat, rows)
        },
{
    let table = text::lower(names::last_part(s.table));
    if let Some(meta) = (cat.table)(table) {
        lists_place_their_columns(s.columns@, meta.schema);
        returned_rows_are_those_listed(s.returning@, meta.schema, cat, rows);
        if let InsertSource::Values(list) = s.source {
            if let Ok(columns) = dml::target_columns(s.columns@, meta.schema) {
                value_rows_follow(list@, 0, Seq::empty(), columns.len(), cat, rows);
                dml::values_are_rectangular(list@, columns.len(), cat, rows);
            }
        }
        if let Some(oc) = s.on_conflict {
            match oc {
                OnConflict::DoNothing { target } => {
                    if let Some(t) = target {
                        lists_place_their_columns(t.columns@, meta.schema);
                    }
                },
                OnConflict::DoUpdate { target, set, .. } => {
                    lists_place_their_columns(target.columns@, meta.schema);
                    assignments_are_made(set@, 0, Seq::empty(), meta.schema, cat, rows);
                },
            }
        }
    }
}

/// A `TRUNCATE` keeps its options.
pub proof fn truncations_keep_their_options(s: TruncateStmt, cat: CatalogView)
    ensures
        dml::bound_truncate(s, cat) matches Ok(p) ==> {
            &&& p matches LogicalPlanView::Truncate { tables, restart_identity, cascade, .. }
            &&& restart_identity == s.restart_identity
            &&& cascade == s.cascade
            &&& tables.len() == s.tables@.len()
            &&& forall|k: int|
                0 <= k < tables.len() ==> (#[trigger] tables[k]) == text::lower(
                    names::last_part(s.tables@[k]),
                )
        },
{
    dml::truncate_needs_known_tables(s, cat);
}

/// A statement that controls a transaction is accepted as what it is, and names
/// the savepoint or the prepared transaction that it is about.
pub proof fn transaction_statements_are_kept(stmt: Statement, cat: CatalogView)
    ensures
        match stmt {
            Statement::Begin => bound_statement(stmt, cat) matches Ok(p) && p is Begin,
            Statement::Commit => bound_statement(stmt, cat) matches Ok(p) && p is Commit,
            Statement::Rollback => bound_statement(stmt, cat) matches Ok(p) && p is Rollback,
            Statement::Savepoint(s) => {
                &&& bound_statement(stmt, cat) matches Ok(p)
                &&& p matches LogicalPlanView::Savepoint { name, .. }
                &&& name == text::lower(s.name.value@)
            },
            Statement::RollbackToSavepoint(s) => {
                &&& bound_statement(stmt, cat) matches Ok(p)
                &&& p matches LogicalPlanView::RollbackToSavepoint { name, .. }
                &&& name == text::lower(s.name.value@)
            },
            Statement::ReleaseSavepoint(s) => {
                &&& bound_statement(stmt, cat) matches Ok(p)
                &&& p matches LogicalPlanView::ReleaseSavepoint { name, .. }
                &&& name == text::lower(s.name.value@)
            },
            Statement::PrepareTransaction { gid } => {
                &&& bound_statement(stmt, cat) matches Ok(p)
                &&& p matches LogicalPlanView::PrepareTransaction { gid: kept, .. }
                &&& kept == gid@
            },
            Statement::CommitPrepared { gid } => {
                &&& bound_statement(stmt, cat) matches Ok(p)
                &&& p matches LogicalPlanView::CommitPrepared { gid: kept, .. }
                &&& kept == gid@
            },
            Statement::RollbackPrepared { gid } => {
                &&& bound_statement(stmt, cat) matches Ok(p)
                &&& p matches LogicalPlanView::RollbackPrepared { gid: kept, .. }
                &&& kept == gid@
            },
            _ => true,
        },
{
}

/// A statement is bound to a plan of its own kind.
pub proof fn statements_keep_their_kind(stmt: Statement, cat: CatalogView)
    ensures
        bound_statement(stmt, cat) matches Ok(p) ==> {
            &&& stmt is Select <==> p is Query
            &&& stmt is Insert <==> p is Insert
            &&& stmt is Update <==> p is Update
            &&& stmt is Delete <==> p is Delete
            &&& stmt is Truncate <==> p is Truncate
            &&& stmt is CreateTable <==> p is CreateTable
            &&& stmt is CreateIndex <==> p is CreateIndex
            &&& stmt is DropTable <==> p is DropTable
            &&& stmt is AlterTable <==> p is AlterTable
        },
{
}

} // verus!
