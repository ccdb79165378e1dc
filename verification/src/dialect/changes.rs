//! What plans keep of the statements that change tables.
use crate::ast::{
    Assignment, DeleteStmt, Expr, InsertSource, InsertStmt, MergeAction, MergeClause, MergeStmt,
    ObjectName, OnConflict, UpdateStmt,
};
use crate::binder::dml as core_dml;
use crate::binder::{bound, changes, names};
use crate::catalog::CatalogView;
use crate::datatype::DataTypeView;
use crate::dialect::reading::ReadingsView;
use crate::dialect::{coerce, dml, expr};
use crate::error::PlanErrorView;
use crate::plan::{
    LogicalMergeActionView, LogicalMergeClauseView, LogicalOnConflictView, LogicalPlanView,
};
use crate::query::{QueryPlanView, ScalarExprView};
use crate::schema::SchemaView;
use crate::{query, schema, text};
use vstd::prelude::*;

verus! {

/// Whether a name refers to a table: on the search path, or in the namespace that
/// the name states.
pub open spec fn refers_to(
    name: ObjectName,
    table: Seq<char>,
    row: SchemaView,
    cat: CatalogView,
) -> bool {
    let n = name.parts@.len() as int;
    let simple = text::lower(names::last_part(name));
    if n < 2 {
        &&& table == simple
        &&& (cat.table)(simple) matches Some(meta) && meta.schema == row
    } else {
        let space = text::lower(name.parts@[n - 2].value@);
        &&& table == space + "."@ + simple
        &&& (cat.table_in)(space, simple) matches Some(meta) && meta.schema == row
    }
}

/// A statement changes the table that its name refers to.
pub proof fn targets_are_the_named_tables(name: ObjectName, cat: CatalogView)
    ensures
        dml::target_table(name, cat) matches Ok((table, row)) ==> refers_to(name, table, row, cat),
{
}

/// Whether an expression is what a predicate is bound to against a row, and is a
/// truth value.
#[verifier::opaque]
pub open spec fn tests(
    e: Expr,
    x: ScalarExprView,
    row: SchemaView,
    cat: CatalogView,
    rows: Seq<SchemaView>,
    r: ReadingsView,
) -> bool {
    &&& expr::bound_value(e, row, cat, Seq::empty(), rows, r) == Ok::<_, PlanErrorView>(x)
    &&& query::scalar_type(x) is Bool || query::scalar_type(x) is Null
}

/// Whether a bound condition is the stated one, where there is one.
pub open spec fn tests_as_stated(
    e: Option<Expr>,
    x: Option<ScalarExprView>,
    row: SchemaView,
    cat: CatalogView,
    rows: Seq<SchemaView>,
    r: ReadingsView,
) -> bool {
    match (e, x) {
        (None, None) => true,
        (Some(e), Some(x)) => tests(e, x, row, cat, rows, r),
        _ => false,
    }
}

/// Whether a plan reads a table, as far as a predicate lets it.
pub open spec fn reads(
    p: QueryPlanView,
    table: Seq<char>,
    row: SchemaView,
    pred: Option<Expr>,
    cat: CatalogView,
    rows: Seq<SchemaView>,
    r: ReadingsView,
) -> bool {
    let scan = QueryPlanView::Scan { table, schema: row, projection: None };
    match pred {
        None => p == scan,
        Some(e) => match p {
            QueryPlanView::Filter { input, predicate } => *input == scan && tests(
                e,
                predicate,
                row,
                cat,
                rows,
                r,
            ),
            _ => false,
        },
    }
}

/// Whether an expression is another one as a value of a type: coerced to it,
/// where the current time can lose its zone.
pub open spec fn stored_as(
    x: ScalarExprView,
    y: ScalarExprView,
    t: DataTypeView,
    r: ReadingsView,
) -> bool {
    let c = coerce::coerced(x, t, r);
    ||| y == c
    ||| {
        &&& c matches ScalarExprView::FunctionCall { name, args, data_type }
        &&& y matches ScalarExprView::FunctionCall { name: kept, args: same, data_type: u }
        &&& kept == name && same == args
        &&& name == "now"@ || name == "current_timestamp"@
        &&& data_type is TimestampTz && u is Timestamp && t is Timestamp
    }
}

/// Whether an assignment is the stated one: to the first column of its name, of
/// what its value is bound to against a row.
pub open spec fn assigns_one(
    a: Assignment,
    made: (usize, ScalarExprView),
    table: SchemaView,
    row: SchemaView,
    cat: CatalogView,
    rows: Seq<SchemaView>,
    r: ReadingsView,
) -> bool {
    &&& changes::place_of(table, a.target.value@, made.0)
    &&& expr::bound_value(a.value, row, cat, Seq::empty(), rows, r) matches Ok(x)
    &&& table.fields.len() <= usize::MAX ==> stored_as(
        x,
        made.1,
        table.fields[made.0 as int].data_type,
        r,
    )
}

/// Whether assignments are those of a `SET` list, in order.
pub open spec fn assigns(
    set: Seq<Assignment>,
    made: Seq<(usize, ScalarExprView)>,
    table: SchemaView,
    row: SchemaView,
    cat: CatalogView,
    rows: Seq<SchemaView>,
    r: ReadingsView,
) -> bool {
    &&& made.len() == set.len()
    &&& forall|k: int| 0 <= k < set.len() ==> #[trigger] assigns_one(
        set[k],
        made[k],
        table,
        row,
        cat,
        rows,
        r,
    )
}

proof fn assignments_are_made(
    set: Seq<Assignment>,
    i: int,
    acc: Seq<(usize, ScalarExprView)>,
    table: SchemaView,
    row: SchemaView,
    cat: CatalogView,
    rows: Seq<SchemaView>,
    r: ReadingsView,
)
    requires
        0 <= i <= set.len(),
        acc.len() == i,
        forall|k: int| 0 <= k < i ==> #[trigger] assigns_one(
            set[k],
            acc[k],
            table,
            row,
            cat,
            rows,
            r,
        ),
    ensures
        dml::bound_assignments(set, i, acc, table, row, cat, rows, r) matches Ok(out) ==> assigns(
            set,
            out,
            table,
            row,
            cat,
            rows,
            r,
        ),
    decreases set.len() - i,
{
    if i < set.len() {
        let name = set[i].target.value@;
        schema::find_gives_first(table.fields, name, 0);
        if let Some(at) = schema::find_field(table, name) {
            if let Ok(x) = expr::bound_value(set[i].value, row, cat, Seq::empty(), rows, r) {
                assert(crate::binder::sources::first_named(table, at, name));
                let made = (at as usize, dml::assigned_value(x, table.fields[at].data_type, r));
                let more = acc.push(made);
                assert(changes::place_of(table, name, made.0));
                assert(assigns_one(set[i], made, table, row, cat, rows, r));
                assert forall|k: int| 0 <= k < i + 1 implies #[trigger] assigns_one(
                    set[k],
                    more[k],
                    table,
                    row,
                    cat,
                    rows,
                    r,
                ) by {
                    if k < i {
                        assert(assigns_one(set[k], acc[k], table, row, cat, rows, r));
                    }
                }
                assignments_are_made(set, i + 1, more, table, row, cat, rows, r);
            }
        }
    }
}

/// A `SET` list assigns its values to its columns, in order.
pub proof fn assignments_keep_their_values(
    set: Seq<Assignment>,
    table: SchemaView,
    row: SchemaView,
    cat: CatalogView,
    rows: Seq<SchemaView>,
    r: ReadingsView,
)
    ensures
        dml::bound_assignments(set, 0, Seq::empty(), table, row, cat, rows, r) matches Ok(out)
            ==> assigns(set, out, table, row, cat, rows, r),
{
    assignments_are_made(set, 0, Seq::empty(), table, row, cat, rows, r);
}

proof fn scans_are_read(
    table: Seq<char>,
    row: SchemaView,
    pred: Option<Expr>,
    cat: CatalogView,
    rows: Seq<SchemaView>,
    r: ReadingsView,
)
    ensures
        dml::filtered_scan(table, row, pred, cat, rows, r) matches Ok(p) ==> reads(
            p,
            table,
            row,
            pred,
            cat,
            rows,
            r,
        ),
{
    reveal(tests);
}

/// An `UPDATE` assigns what its `SET` list says to the rows of its table that its
/// `WHERE` clause selects, and answers its `RETURNING` list.
pub proof fn updates_keep_their_clauses(
    s: UpdateStmt,
    cat: CatalogView,
    rows: Seq<SchemaView>,
    r: ReadingsView,
)
    ensures
        dml::bound_update(s, cat, rows, r) matches Ok(p) ==> {
            &&& s.from@.len() == 0
            &&& p matches LogicalPlanView::Update { table, assignments, input, returning, .. }
            &&& dml::target_table(s.table, cat) matches Ok((named, row))
            &&& table == named && refers_to(s.table, named, row, cat)
            &&& reads(input, table, row, s.where_clause, cat, rows, r)
            &&& assigns(s.set@, assignments, row, row, cat, rows, r)
            &&& changes::answers(s.returning@, returning, row, cat, rows)
        },
{
    targets_are_the_named_tables(s.table, cat);
    if let Ok((table, row)) = dml::target_table(s.table, cat) {
        scans_are_read(table, row, s.where_clause, cat, rows, r);
        assignments_keep_their_values(s.set@, row, row, cat, rows, r);
        changes::returned_rows_are_those_listed(s.returning@, row, cat, rows);
    }
}

/// A `DELETE` removes the rows of its table that its `WHERE` clause selects, and
/// answers its `RETURNING` list.
pub proof fn deletes_keep_their_clauses(
    s: DeleteStmt,
    cat: CatalogView,
    rows: Seq<SchemaView>,
    r: ReadingsView,
)
    ensures
        dml::bound_delete(s, cat, rows, r) matches Ok(p) ==> {
            &&& s.using@.len() == 0
            &&& p matches LogicalPlanView::Delete { table, input, returning, .. }
            &&& dml::target_table(s.table, cat) matches Ok((named, row))
            &&& table == named && refers_to(s.table, named, row, cat)
            &&& reads(input, table, row, s.where_clause, cat, rows, r)
            &&& changes::answers(s.returning@, returning, row, cat, rows)
        },
{
    targets_are_the_named_tables(s.table, cat);
    if let Ok((table, row)) = dml::target_table(s.table, cat) {
        scans_are_read(table, row, s.where_clause, cat, rows, r);
        changes::returned_rows_are_those_listed(s.returning@, row, cat, rows);
    }
}

/// Whether a cell of a `VALUES` list is the stated one, which sees no column. A
/// default is a call without arguments until it is known.
pub open spec fn cell_of(
    e: Expr,
    x: ScalarExprView,
    cat: CatalogView,
    rows: Seq<SchemaView>,
    r: ReadingsView,
) -> bool {
    if e is Default {
        &&& x matches ScalarExprView::FunctionCall { name, args, .. }
        &&& name == "__ultrasql_insert_default"@ && args.len() == 0
    } else {
        expr::bound_value(e, schema::empty_schema(), cat, Seq::empty(), rows, r) == Ok::<
            _,
            PlanErrorView,
        >(x)
    }
}

proof fn cells_follow(
    list: Seq<Expr>,
    i: int,
    acc: Seq<ScalarExprView>,
    cat: CatalogView,
    rows: Seq<SchemaView>,
    r: ReadingsView,
)
    requires
        0 <= i <= list.len(),
        acc.len() == i,
        forall|k: int| 0 <= k < i ==> cell_of(list[k], #[trigger] acc[k], cat, rows, r),
    ensures
        dml::bound_cells(list, i, acc, cat, rows, r) matches Ok(out) ==> {
            &&& out.len() == list.len()
            &&& forall|k: int|
                0 <= k < out.len() ==> cell_of(list[k], #[trigger] out[k], cat, rows, r)
        },
    decreases list.len() - i,
{
    if i < list.len() {
        if let Ok(x) = dml::bound_cell(list[i], cat, rows, r) {
            cells_follow(list, i + 1, acc.push(x), cat, rows, r);
        }
    }
}

/// Whether cells are those of a `VALUES` row, in order.
pub open spec fn cells_of(
    row: Seq<Expr>,
    cells: Seq<ScalarExprView>,
    cat: CatalogView,
    rows: Seq<SchemaView>,
    r: ReadingsView,
) -> bool {
    &&& cells.len() == row.len()
    &&& forall|k: int| 0 <= k < cells.len() ==> cell_of(row[k], #[trigger] cells[k], cat, rows, r)
}

proof fn value_rows_follow(
    list: Seq<Vec<Expr>>,
    i: int,
    acc: Seq<Seq<ScalarExprView>>,
    arity: nat,
    cat: CatalogView,
    rows: Seq<SchemaView>,
    r: ReadingsView,
)
    requires
        0 <= i <= list.len(),
        acc.len() == i,
        forall|k: int|
            0 <= k < i ==> cells_of(list[k]@, #[trigger] acc[k], cat, rows, r) && acc[k].len()
                == arity,
    ensures
        dml::bound_rows(list, i, acc, arity, cat, rows, r) matches Ok(out) ==> {
            &&& out.len() == list.len()
            &&& forall|k: int|
                0 <= k < out.len() ==> cells_of(list[k]@, #[trigger] out[k], cat, rows, r)
                    && out[k].len() == arity
        },
    decreases list.len() - i,
{
    if i < list.len() {
        cells_follow(list[i]@, 0, Seq::empty(), cat, rows, r);
        if let Ok(cells) = dml::bound_cells(list[i]@, 0, Seq::empty(), cat, rows, r) {
            if list[i]@.len() == arity {
                value_rows_follow(list, i + 1, acc.push(cells), arity, cat, rows, r);
            }
        }
    }
}

/// Whether a plan is the stated source of rows for columns of a table: one row of
/// defaults, the rows of a `VALUES` list with each cell coerced to the type of its
/// column, or what a `SELECT` is bound to.
pub open spec fn feeds(
    source: InsertSource,
    p: QueryPlanView,
    columns: Seq<usize>,
    table: SchemaView,
    cat: CatalogView,
    rows: Seq<SchemaView>,
    r: ReadingsView,
) -> bool {
    match source {
        InsertSource::DefaultValues => {
            &&& p matches QueryPlanView::Values { rows: cells, schema }
            &&& cells.len() == 1 && cells[0].len() == 0 && schema.fields.len() == 0
        },
        InsertSource::Values(list) => {
            &&& p matches QueryPlanView::Values { rows: cells, schema }
            &&& cells.len() == list@.len()
            &&& forall|k: int|
                0 <= k < cells.len() ==> #[trigger] fills_row(
                    list@[k]@,
                    cells[k],
                    columns,
                    table,
                    cat,
                    rows,
                    r,
                )
            &&& schema.fields.len() == columns.len()
            &&& forall|c: int|
                0 <= c < columns.len() ==> (#[trigger] schema.fields[c]).data_type
                    == table.fields[columns[c] as int].data_type
        },
        InsertSource::Select(select) => {
            &&& bound::bound_select(*select, cat, rows) == Ok::<_, PlanErrorView>(p)
            &&& query::query_schema(p).fields.len() == columns.len()
        },
    }
}

/// Whether the cells of a row are the stated ones, each coerced to the type of its
/// column.
pub open spec fn fills_row(
    row: Seq<Expr>,
    cells: Seq<ScalarExprView>,
    columns: Seq<usize>,
    table: SchemaView,
    cat: CatalogView,
    rows: Seq<SchemaView>,
    r: ReadingsView,
) -> bool {
    &&& cells.len() == row.len() && row.len() == columns.len()
    &&& exists|made: Seq<ScalarExprView>|
        {
            &&& #[trigger] cells_of(row, made, cat, rows, r)
            &&& forall|c: int|
                0 <= c < cells.len() ==> (#[trigger] cells[c]) == coerce::coerced(
                    made[c],
                    table.fields[columns[c] as int].data_type,
                    r,
                )
        }
}

/// Whether the row of a conflict is that of a table, and then that of the row
/// proposed for insertion under `excluded`.
pub open spec fn both_rows(row: SchemaView, table: SchemaView) -> bool {
    let n = table.fields.len();
    &&& row.fields.len() == n + n
    &&& forall|k: int|
        0 <= k < n ==> {
            let f = #[trigger] table.fields[k];
            let proposed = row.fields[n + k];
            &&& row.fields[k] == f
            &&& proposed.name == "excluded."@ + f.name
            &&& proposed.data_type == f.data_type && proposed.nullable == f.nullable
        }
}

/// Whether a bound conflict clause is the stated one. A `DO UPDATE` sees both rows.
pub open spec fn settles(
    stated: Option<OnConflict>,
    made: Option<LogicalOnConflictView>,
    table: SchemaView,
    cat: CatalogView,
    rows: Seq<SchemaView>,
    r: ReadingsView,
) -> bool {
    match (stated, made) {
        (None, None) => true,
        (
            Some(OnConflict::DoNothing { target }),
            Some(LogicalOnConflictView::DoNothing { target: kept }),
        ) => match (target, kept) {
            (None, None) => true,
            (Some(t), Some(k)) => changes::places_of(t.columns@, k.columns, table),
            _ => false,
        },
        (
            Some(OnConflict::DoUpdate { target, set, where_clause }),
            Some(LogicalOnConflictView::DoUpdate { target: kept, assignments, where_clause: pred }),
        ) => {
            &&& changes::places_of(target.columns@, kept.columns, table)
            &&& exists|row: SchemaView|
                {
                    &&& #[trigger] both_rows(row, table)
                    &&& assigns(set@, assignments, table, row, cat, rows, r)
                    &&& tests_as_stated(where_clause, pred, row, cat, rows, r)
                }
        },
        _ => false,
    }
}

proof fn conflicts_are_settled(
    oc: OnConflict,
    table: SchemaView,
    cat: CatalogView,
    rows: Seq<SchemaView>,
    r: ReadingsView,
)
    ensures
        dml::bound_conflict(oc, table, cat, rows, r) matches Ok(made) ==> settles(
            Some(oc),
            Some(made),
            table,
            cat,
            rows,
            r,
        ),
{
    reveal(tests);
    match oc {
        OnConflict::DoNothing { target } => {
            if let Some(t) = target {
                changes::lists_place_their_columns(t.columns@, table);
            }
        },
        OnConflict::DoUpdate { target, set, where_clause } => {
            changes::lists_place_their_columns(target.columns@, table);
            if let Ok(row) = dml::conflict_schema(table) {
                assert(both_rows(row, table)) by {
                    assert(row.fields == dml::conflict_fields(table));
                }
                assignments_keep_their_values(set@, table, row, cat, rows, r);
            }
        },
    }
}

/// A conflict clause is settled as stated.
pub proof fn conflict_clauses_are_kept(
    oc: OnConflict,
    table: SchemaView,
    cat: CatalogView,
    rows: Seq<SchemaView>,
    r: ReadingsView,
)
    ensures
        dml::bound_conflict(oc, table, cat, rows, r) matches Ok(made) ==> settles(
            Some(oc),
            Some(made),
            table,
            cat,
            rows,
            r,
        ),
{
    conflicts_are_settled(oc, table, cat, rows, r);
}

proof fn sources_are_fed(
    source: InsertSource,
    columns: Seq<usize>,
    table: SchemaView,
    cat: CatalogView,
    rows: Seq<SchemaView>,
    r: ReadingsView,
)
    ensures
        dml::bound_source(source, columns, table, cat, rows, r) matches Ok(p) ==> feeds(
            source,
            p,
            columns,
            table,
            cat,
            rows,
            r,
        ),
{
    if let InsertSource::Values(list) = source {
        value_rows_follow(list@, 0, Seq::empty(), columns.len(), cat, rows, r);
        if let Ok(p) = dml::bound_source(source, columns, table, cat, rows, r) {
            let made = dml::bound_rows(
                list@,
                0,
                Seq::empty(),
                columns.len(),
                cat,
                rows,
                r,
            )->Ok_0;
            let cells = p->Values_rows;
            assert(cells == dml::filled_rows(made, columns, table, r));
            assert forall|k: int| 0 <= k < cells.len() implies #[trigger] fills_row(
                list@[k]@,
                cells[k],
                columns,
                table,
                cat,
                rows,
                r,
            ) by {
                assert(cells_of(list@[k]@, made[k], cat, rows, r));
                assert(cells[k] == dml::filled_row(made[k], columns, table, r));
            }
        }
    }
}

/// An `INSERT` puts the rows of its source into the columns that it lists, settles
/// conflicts as stated, and answers its `RETURNING` list.
pub proof fn inserts_keep_their_clauses(
    s: InsertStmt,
    cat: CatalogView,
    rows: Seq<SchemaView>,
    r: ReadingsView,
)
    ensures
        dml::bound_insert(s, cat, rows, r) matches Ok(p) ==> {
            &&& p matches LogicalPlanView::Insert {
                table,
                columns,
                source,
                on_conflict,
                returning,
                ..
            }
            &&& dml::target_table(s.table, cat) matches Ok((named, row))
            &&& table == named && refers_to(s.table, named, row, cat)
            &&& changes::fills(s.columns@, columns, row)
            &&& feeds(s.source, source, columns, row, cat, rows, r)
            &&& settles(s.on_conflict, on_conflict, row, cat, rows, r)
            &&& changes::answers(s.returning@, returning, row, cat, rows)
        },
{
    if let Ok((table, row)) = dml::target_table(s.table, cat) {
        targets_are_the_named_tables(s.table, cat);
        changes::lists_place_their_columns(s.columns@, row);
        changes::returned_rows_are_those_listed(s.returning@, row, cat, rows);
        if let Ok(columns) = core_dml::target_columns(s.columns@, row) {
            sources_are_fed(s.source, columns, row, cat, rows, r);
        }
        if let Some(oc) = s.on_conflict {
            conflicts_are_settled(oc, row, cat, rows, r);
        }
    }
}

/// Whether values are the stated ones, in order, each as a value of its column.
pub open spec fn stores_each(
    list: Seq<Expr>,
    made: Seq<ScalarExprView>,
    columns: Seq<usize>,
    table: SchemaView,
    row: SchemaView,
    cat: CatalogView,
    rows: Seq<SchemaView>,
    r: ReadingsView,
) -> bool {
    &&& made.len() == list.len()
    &&& forall|k: int| 0 <= k < list.len() ==> #[trigger] stores_one(
        list[k],
        made[k],
        table.fields[columns[k] as int].data_type,
        row,
        cat,
        rows,
        r,
    )
}

/// Whether a value is the stated one, as a value of a type.
pub open spec fn stores_one(
    e: Expr,
    y: ScalarExprView,
    t: DataTypeView,
    row: SchemaView,
    cat: CatalogView,
    rows: Seq<SchemaView>,
    r: ReadingsView,
) -> bool {
    &&& expr::bound_value(e, row, cat, Seq::empty(), rows, r) matches Ok(x)
    &&& stored_as(x, y, t, r)
}

proof fn merged_values_follow(
    values: Seq<Expr>,
    i: int,
    acc: Seq<ScalarExprView>,
    columns: Seq<usize>,
    table: SchemaView,
    row: SchemaView,
    cat: CatalogView,
    rows: Seq<SchemaView>,
    r: ReadingsView,
)
    requires
        0 <= i <= values.len(),
        acc.len() == i,
        forall|k: int| 0 <= k < i ==> #[trigger] stores_one(
            values[k],
            acc[k],
            table.fields[columns[k] as int].data_type,
            row,
            cat,
            rows,
            r,
        ),
    ensures
        dml::merged_values(values, i, acc, columns, table, row, cat, rows, r) matches Ok(out)
            ==> stores_each(values, out, columns, table, row, cat, rows, r),
    decreases values.len() - i,
{
    if i < values.len() {
        if let Ok(x) = expr::bound_value(values[i], row, cat, Seq::empty(), rows, r) {
            let t = table.fields[columns[i] as int].data_type;
            let more = acc.push(dml::assigned_value(x, t, r));
            assert(stores_one(values[i], more[i], t, row, cat, rows, r));
            assert forall|k: int| 0 <= k < i + 1 implies #[trigger] stores_one(
                values[k],
                more[k],
                table.fields[columns[k] as int].data_type,
                row,
                cat,
                rows,
                r,
            ) by {
                if k < i {
                    assert(stores_one(
                        values[k],
                        acc[k],
                        table.fields[columns[k] as int].data_type,
                        row,
                        cat,
                        rows,
                        r,
                    ));
                }
            }
            merged_values_follow(values, i + 1, more, columns, table, row, cat, rows, r);
        }
    }
}

/// Whether a bound branch of a `MERGE` is the stated one: it is for the same rows,
/// has a condition exactly where one is stated, and does what is stated, with all
/// expressions bound against the joined row.
pub open spec fn branches(
    stated: MergeClause,
    made: LogicalMergeClauseView,
    table: SchemaView,
    row: SchemaView,
    cat: CatalogView,
    rows: Seq<SchemaView>,
    r: ReadingsView,
) -> bool {
    &&& made.kind is Matched <==> stated.kind is Matched
    &&& made.kind is NotMatched <==> stated.kind is NotMatched
    &&& tests_as_stated(stated.condition, made.condition, row, cat, rows, r)
    &&& match (stated.action, made.action) {
        (
            MergeAction::Update { set },
            LogicalMergeActionView::Update { assignments },
        ) => stated.kind is Matched && assigns(set@, assignments, table, row, cat, rows, r),
        (MergeAction::Delete, LogicalMergeActionView::Delete) => stated.kind is Matched,
        (
            MergeAction::Insert { columns, values },
            LogicalMergeActionView::Insert { columns: places, values: stored },
        ) => {
            &&& stated.kind is NotMatched
            &&& changes::fills(columns@, places, table)
            &&& places.len() == values@.len()
            &&& stores_each(values@, stored, places, table, row, cat, rows, r)
        },
        _ => false,
    }
}

proof fn branches_are_kept(
    clause: MergeClause,
    table: SchemaView,
    row: SchemaView,
    cat: CatalogView,
    rows: Seq<SchemaView>,
    r: ReadingsView,
)
    ensures
        dml::merge_clause(clause, table, row, cat, rows, r) matches Ok(made) ==> branches(
            clause,
            made,
            table,
            row,
            cat,
            rows,
            r,
        ),
{
    reveal(tests);
    match clause.action {
        MergeAction::Update { set } => {
            assignments_keep_their_values(set@, table, row, cat, rows, r);
        },
        MergeAction::Insert { columns, values } => {
            changes::lists_place_their_columns(columns@, table);
            if let Ok(places) = core_dml::target_columns(columns@, table) {
                merged_values_follow(
                    values@,
                    0,
                    Seq::empty(),
                    places,
                    table,
                    row,
                    cat,
                    rows,
                    r,
                );
            }
        },
        _ => {},
    }
}

proof fn all_branches_are_kept(
    clauses: Seq<MergeClause>,
    i: int,
    acc: Seq<LogicalMergeClauseView>,
    table: SchemaView,
    row: SchemaView,
    cat: CatalogView,
    rows: Seq<SchemaView>,
    r: ReadingsView,
)
    requires
        0 <= i <= clauses.len(),
        acc.len() == i,
        forall|k: int|
            0 <= k < i ==> branches(clauses[k], #[trigger] acc[k], table, row, cat, rows, r),
    ensures
        dml::merge_clauses(clauses, i, acc, table, row, cat, rows, r) matches Ok(out) ==> {
            &&& out.len() == clauses.len()
            &&& forall|k: int|
                0 <= k < out.len() ==> branches(
                    clauses[k],
                    #[trigger] out[k],
                    table,
                    row,
                    cat,
                    rows,
                    r,
                )
        },
    decreases clauses.len() - i,
{
    if i < clauses.len() {
        branches_are_kept(clauses[i], table, row, cat, rows, r);
        if let Ok(c) = dml::merge_clause(clauses[i], table, row, cat, rows, r) {
            all_branches_are_kept(clauses, i + 1, acc.push(c), table, row, cat, rows, r);
        }
    }
}

/// A `MERGE` has one bound branch per stated branch, in order, each for the same
/// rows, under the same condition and with the same action. Its expressions see
/// the columns of its target and then those of its source.
pub proof fn merges_keep_their_branches(
    s: MergeStmt,
    cat: CatalogView,
    rows: Seq<SchemaView>,
    r: ReadingsView,
)
    ensures
        dml::bound_merge(s, cat, rows, r) matches Ok(p) ==> {
            &&& p matches LogicalPlanView::Merge {
                target,
                target_alias,
                target_schema,
                source,
                on,
                clauses,
                ..
            }
            &&& refers_to(s.target, target, target_schema, cat)
            &&& target_alias is Some <==> s.target_alias is Some
            &&& s.target_alias matches Some(a) ==> target_alias == Some(a.value@)
            &&& bound::bound_table_ref(s.source, cat, Seq::empty(), rows) matches Ok((q, _))
            &&& source == q
            &&& exists|row: SchemaView|
                {
                    &&& #[trigger] tests(s.on, on, row, cat, rows, r)
                    &&& row.fields.len() == target_schema.fields.len() + query::query_schema(
                        source,
                    ).fields.len()
                    &&& clauses.len() == s.clauses@.len()
                    &&& forall|k: int|
                        0 <= k < clauses.len() ==> branches(
                            s.clauses@[k],
                            #[trigger] clauses[k],
                            target_schema,
                            row,
                            cat,
                            rows,
                            r,
                        )
                }
        },
{
    if let Ok(p) = dml::bound_merge(s, cat, rows, r) {
        targets_are_the_named_tables(s.target, cat);
        let table = dml::target_table(s.target, cat)->Ok_0.1;
        let (source, row) = dml::merge_source(s, table, cat, rows)->Ok_0;
        reveal(tests);
        assert(tests(s.on, p->Merge_on, row, cat, rows, r));
        all_branches_are_kept(s.clauses@, 0, Seq::empty(), table, row, cat, rows, r);
    }
}

} // verus!
