//! Binding of `INSERT`, `UPDATE`, `DELETE` and `MERGE`.
use crate::ast::{
    Assignment, DeleteStmt, Expr, InsertSource, InsertStmt, MergeAction, MergeClause,
    MergeMatchKind, MergeStmt, ObjectName, OnConflict, UpdateStmt,
};
use crate::binder::dml::{
    bind_conflict_target, bind_returning, build_returning_schema, column_type, is_assigned,
    resolve_target_columns,
};
use crate::binder::names::{object_name_explicit_namespace, object_name_simple};
use crate::binder::relation::offer_columns;
use crate::binder::select::{bind_select, bind_table_ref};
use crate::binder::{bound, dml, names, relation, select, typing};
use crate::catalog::{Catalog, CatalogView, TableMeta, TableMetaView};
use crate::datatype::{DataType, DataTypeView};
use crate::dialect::aggregate::schema_for_qualified_binding;
use crate::dialect::coerce::coerce_literal_to_type;
use crate::dialect::expr::bind_expr;
use crate::dialect::reading::{Readings, ReadingsView};
use crate::dialect::{aggregate, coerce, expr, literal};
use crate::error::{schema_or_mismatch, PlanError, PlanErrorView};
use crate::plan::{
    ConflictTargetView, LogicalMergeAction, LogicalMergeActionView, LogicalMergeClause,
    LogicalMergeClauseView, LogicalMergeMatchKind, LogicalOnConflict, LogicalOnConflictView,
    LogicalPlan, LogicalPlanView,
};
use crate::query::{QueryPlan, QueryPlanView, ScalarExpr, ScalarExprView};
use crate::schema::{Field, FieldView, Schema, SchemaView};
use crate::scope::ScopeStack;
use crate::text::{cat2, cat3, cat5, cat6, owned, show_usize, text_eq};
use crate::{error, plan, query, schema, text};
use vstd::prelude::*;

verus! {

/// The table that a name refers to: the name for plans, and what is known of it.
pub open spec fn named_table(name: ObjectName, cat: CatalogView) -> Result<
    (Seq<char>, TableMetaView),
    PlanErrorView,
> {
    let simple = names::simple_name(name);
    match names::explicit_namespace_of(name) {
        None => match (cat.table)(simple) {
            Some(meta) => Ok((simple, meta)),
            None => Err(PlanErrorView::TableNotFound(simple)),
        },
        Some(ns) => match (cat.table_in)(ns, simple) {
            Some(meta) => Ok((ns + "."@ + simple, meta)),
            None => Err(PlanErrorView::TableNotFound(ns + "."@ + simple)),
        },
    }
}

/// What is known of a table, with its outcome as models.
pub open spec fn meta_outcome(r: Result<(String, TableMeta), PlanError>) -> Result<
    (Seq<char>, TableMetaView),
    PlanErrorView,
> {
    match r {
        Ok((n, m)) => Ok((n@, m@)),
        Err(e) => Err(e@),
    }
}

/// Looks up the table that a name refers to.
pub fn lookup_table_reference<C: Catalog>(catalog: &C, name: &ObjectName) -> (made: Result<
    (String, TableMeta),
    PlanError,
>)
    ensures
        meta_outcome(made) == named_table(*name, catalog.model()),
{
    let simple = object_name_simple(name);
    match object_name_explicit_namespace(name) {
        None => match catalog.lookup_table(simple.as_str()) {
            Some(meta) => Ok((simple, meta)),
            None => Err(PlanError::TableNotFound(simple)),
        },
        Some(ns) => {
            let full = cat3(ns.as_str(), ".", simple.as_str());
            match catalog.lookup_table_in_schema(ns.as_str(), simple.as_str()) {
                Some(meta) => Ok((full, meta)),
                None => Err(PlanError::TableNotFound(full)),
            }
        },
    }
}

/// The table that a name refers to: its name in plans, and its columns. A name
/// with a stated namespace is looked up there, any other on the search path.
pub open spec fn target_table(name: ObjectName, cat: CatalogView) -> Result<
    (Seq<char>, SchemaView),
    PlanErrorView,
> {
    match named_table(name, cat) {
        Ok((n, meta)) => Ok((n, meta.schema)),
        Err(e) => Err(e),
    }
}

/// A table with its outcome as models.
pub open spec fn table_outcome(r: Result<(String, Schema), PlanError>) -> Result<
    (Seq<char>, SchemaView),
    PlanErrorView,
> {
    match r {
        Ok((n, s)) => Ok((n@, s@)),
        Err(e) => Err(e@),
    }
}

/// Looks up the table that a statement changes.
pub fn lookup_target_table<C: Catalog>(catalog: &C, name: &ObjectName) -> (made: Result<
    (String, Schema),
    PlanError,
>)
    ensures
        table_outcome(made) == target_table(*name, catalog.model()),
{
    let (plan_name, meta) = lookup_table_reference(catalog, name)?;
    Ok((plan_name, meta.schema))
}

/// The call that stands for the default of a column, until it is known.
pub open spec fn default_cell() -> ScalarExprView {
    ScalarExprView::FunctionCall {
        name: "__ultrasql_insert_default"@,
        args: Seq::empty(),
        data_type: DataTypeView::Null,
    }
}

fn make_default_cell() -> (made: ScalarExpr)
    ensures
        made@ == default_cell(),
{
    let args: Vec<ScalarExpr> = Vec::new();
    assert(query::scalars_view(args@) =~= Seq::empty());
    ScalarExpr::FunctionCall {
        name: owned("__ultrasql_insert_default"),
        args,
        data_type: DataType::Null,
    }
}

/// What a cell of a `VALUES` list is bound to. It refers to no column.
pub open spec fn bound_cell(
    e: Expr,
    cat: CatalogView,
    scope: Seq<SchemaView>,
    r: ReadingsView,
) -> Result<
    ScalarExprView,
    PlanErrorView,
> {
    match e {
        Expr::Default => Ok(default_cell()),
        _ => expr::bound_value(e, schema::empty_schema(), cat, Seq::empty(), scope, r),
    }
}

/// What the cells from the `i`-th on are bound to.
pub open spec fn bound_cells(
    list: Seq<Expr>,
    i: int,
    acc: Seq<ScalarExprView>,
    cat: CatalogView,
    scope: Seq<SchemaView>,
    r: ReadingsView,
) -> Result<Seq<ScalarExprView>, PlanErrorView>
    decreases list.len() - i,
{
    if i < 0 || i >= list.len() {
        Ok(acc)
    } else {
        match bound_cell(list[i], cat, scope, r) {
            Err(e) => Err(e),
            Ok(x) => bound_cells(list, i + 1, acc.push(x), cat, scope, r),
        }
    }
}

/// A row is bound to as many cells as it has.
pub proof fn bound_cells_length(
    list: Seq<Expr>,
    i: int,
    acc: Seq<ScalarExprView>,
    cat: CatalogView,
    scope: Seq<SchemaView>,
    r: ReadingsView,
)
    requires
        0 <= i <= list.len(),
    ensures
        bound_cells(list, i, acc, cat, scope, r) matches Ok(out) ==> out.len() == acc.len()
            + list.len() - i,
    decreases list.len() - i,
{
    if i < list.len() {
        match bound_cell(list[i], cat, scope, r) {
            Err(_) => {},
            Ok(x) => bound_cells_length(list, i + 1, acc.push(x), cat, scope, r),
        }
    }
}

fn bind_cells<C: Catalog>(
    list: &Vec<Expr>,
    catalog: &C,
    scope: &mut ScopeStack,
    readings: &Readings,
) -> (made:
    Result<Vec<ScalarExpr>, PlanError>)
    ensures
        error::scalars_outcome(made) == bound_cells(
            list@,
            0,
            Seq::empty(),
            catalog.model(),
            old(scope).rows(),
            readings@,
        ),
        final(scope).frames@ == old(scope).frames@,
{
    let empty = Schema::empty();
    let mut out: Vec<ScalarExpr> = Vec::new();
    assert(query::scalars_view(out@) =~= Seq::empty());
    let mut i: usize = 0;
    while i < list.len()
        invariant
            i <= list.len(),
            scope.frames@ == old(scope).frames@,
            empty@ == schema::empty_schema(),
            bound_cells(
                list@,
                i as int,
                query::scalars_view(out@),
                catalog.model(),
                old(scope).rows(),
                readings@,
            ) == bound_cells(list@, 0, Seq::empty(), catalog.model(), old(scope).rows(), readings@),
        decreases list.len() - i,
    {
        let e = match &list[i] {
            Expr::Default => make_default_cell(),
            _ => bind_expr(&list[i], &empty, catalog, scope, readings)?,
        };
        proof {
            query::lemma_scalars_push(out@, e);
        }
        out.push(e);
        i = i + 1;
    }
    Ok(out)
}

/// The bound rows of a `VALUES` list from the `i`-th on. Each has the given
/// number of cells.
pub open spec fn bound_rows(
    rows: Seq<Vec<Expr>>,
    i: int,
    acc: Seq<Seq<ScalarExprView>>,
    arity: nat,
    cat: CatalogView,
    scope: Seq<SchemaView>,
    r: ReadingsView,
) -> Result<Seq<Seq<ScalarExprView>>, PlanErrorView>
    decreases rows.len() - i,
{
    if i < 0 || i >= rows.len() {
        Ok(acc)
    } else if rows[i]@.len() != arity {
        Err(
            PlanErrorView::TypeMismatch(
                "VALUES row "@ + text::decimal((i + 1) as nat) + " has "@ + text::decimal(
                    rows[i]@.len(),
                ) + " column(s), expected "@ + text::decimal(arity),
            ),
        )
    } else {
        match bound_cells(rows[i]@, 0, Seq::empty(), cat, scope, r) {
            Err(e) => Err(e),
            Ok(cells) => bound_rows(rows, i + 1, acc.push(cells), arity, cat, scope, r),
        }
    }
}

/// Rows with their outcome as models.
pub open spec fn rows_outcome(r: Result<Vec<Vec<ScalarExpr>>, PlanError>) -> Result<
    Seq<Seq<ScalarExprView>>,
    PlanErrorView,
> {
    match r {
        Ok(x) => Ok(query::rows_view(x@)),
        Err(e) => Err(e@),
    }
}

fn bind_rows<C: Catalog>(
    rows: &Vec<Vec<Expr>>,
    arity: usize,
    catalog: &C,
    scope: &mut ScopeStack,
    readings: &Readings,
) -> (made: Result<Vec<Vec<ScalarExpr>>, PlanError>)
    ensures
        rows_outcome(made) == bound_rows(
            rows@,
            0,
            Seq::empty(),
            arity as nat,
            catalog.model(),
            old(scope).rows(),
            readings@,
        ),
        made matches Ok(out) ==> forall|j: int|
            0 <= j < out@.len() ==> (#[trigger] out@[j])@.len() == arity,
        final(scope).frames@ == old(scope).frames@,
{
    let mut out: Vec<Vec<ScalarExpr>> = Vec::new();
    assert(query::rows_view(out@) =~= Seq::empty());
    let mut i: usize = 0;
    while i < rows.len()
        invariant
            i <= rows.len(),
            scope.frames@ == old(scope).frames@,
            out.len() == i,
            forall|j: int| 0 <= j < i ==> (#[trigger] out@[j])@.len() == arity,
            bound_rows(
                rows@,
                i as int,
                query::rows_view(out@),
                arity as nat,
                catalog.model(),
                old(scope).rows(),
                readings@,
            ) == bound_rows(
                rows@,
                0,
                Seq::empty(),
                arity as nat,
                catalog.model(),
                old(scope).rows(),
                readings@,
            ),
        decreases rows.len() - i,
    {
        let row = &rows[i];
        if row.len() != arity {
            return Err(
                PlanError::TypeMismatch(
                    cat6(
                        "VALUES row ",
                        show_usize(i + 1).as_str(),
                        " has ",
                        show_usize(row.len()).as_str(),
                        " column(s), expected ",
                        show_usize(arity).as_str(),
                    ),
                ),
            );
        }
        let cells = bind_cells(row, catalog, scope, readings)?;
        proof {
            bound_cells_length(
                row@,
                0,
                Seq::empty(),
                catalog.model(),
                old(scope).rows(),
                readings@,
            );
            query::lemma_rows_push(out@, cells);
        }
        out.push(cells);
        i = i + 1;
    }
    Ok(out)
}

/// What a `VALUES` list is bound to: its rows, with a type for each column that
/// its cells have in common.
pub open spec fn bound_values(
    rows: Seq<Vec<Expr>>,
    arity: nat,
    cat: CatalogView,
    scope: Seq<SchemaView>,
    r: ReadingsView,
) -> Result<(Seq<Seq<ScalarExprView>>, SchemaView), PlanErrorView> {
    match bound_rows(rows, 0, Seq::empty(), arity, cat, scope, r) {
        Err(e) => Err(e),
        Ok(cells) => match error::labelled_schema(
            "VALUES schema: "@,
            dml::values_fields(cells, arity),
        ) {
            Err(e) => Err(e),
            Ok(schema) => Ok((cells, schema)),
        },
    }
}

/// A `VALUES` list with its outcome as models.
pub open spec fn values_outcome(r: Result<(Vec<Vec<ScalarExpr>>, Schema), PlanError>) -> Result<
    (Seq<Seq<ScalarExprView>>, SchemaView),
    PlanErrorView,
> {
    match r {
        Ok((rows, s)) => Ok((query::rows_view(rows@), s@)),
        Err(e) => Err(e@),
    }
}

/// Binds the rows of a `VALUES` list.
pub fn bind_values_rows<C: Catalog>(
    rows: &Vec<Vec<Expr>>,
    arity: usize,
    catalog: &C,
    scope: &mut ScopeStack,
    readings: &Readings,
) -> (made: Result<(Vec<Vec<ScalarExpr>>, Schema), PlanError>)
    ensures
        values_outcome(made) == bound_values(
            rows@,
            arity as nat,
            catalog.model(),
            old(scope).rows(),
            readings@,
        ),
        made matches Ok((out, _)) ==> forall|j: int|
            0 <= j < out@.len() ==> (#[trigger] out@[j])@.len() == arity,
        final(scope).frames@ == old(scope).frames@,
{
    let out = bind_rows(rows, arity, catalog, scope, readings)?;
    let ghost wanted = dml::values_fields(query::rows_view(out@), arity as nat);
    let mut fields: Vec<Field> = Vec::new();
    let mut c: usize = 0;
    while c < arity
        invariant
            c <= arity,
            fields.len() == c,
            wanted == dml::values_fields(query::rows_view(out@), arity as nat),
            forall|j: int| 0 <= j < out@.len() ==> (#[trigger] out@[j])@.len() == arity,
            forall|j: int| 0 <= j < c ==> (#[trigger] fields@[j])@ == wanted[j],
        decreases arity - c,
    {
        let name = cat2("column", show_usize(c + 1).as_str());
        fields.push(Field::nullable(name, column_type(&out, c, arity)));
        c = c + 1;
    }
    assert(schema::fields_view(fields@) =~= wanted);
    let schema = schema_or_mismatch("VALUES schema: ", fields)?;
    Ok((out, schema))
}

/// The cells of a row, each coerced to the type of the column that it fills.
pub open spec fn filled_row(
    row: Seq<ScalarExprView>,
    columns: Seq<usize>,
    table: SchemaView,
    r: ReadingsView,
) -> Seq<ScalarExprView> {
    Seq::new(
        row.len(),
        |j: int| coerce::coerced(row[j], table.fields[columns[j] as int].data_type, r),
    )
}

/// The cells of all rows, each coerced to the type of the column that it fills.
pub open spec fn filled_rows(
    rows: Seq<Seq<ScalarExprView>>,
    columns: Seq<usize>,
    table: SchemaView,
    r: ReadingsView,
) -> Seq<Seq<ScalarExprView>> {
    Seq::new(rows.len(), |i: int| filled_row(rows[i], columns, table, r))
}

/// The columns of a `VALUES` list under the types of the columns that it fills.
pub open spec fn filled_fields(columns: Seq<usize>, table: SchemaView) -> Seq<FieldView> {
    Seq::new(
        columns.len(),
        |c: int|
            schema::nullable_field(
                "column"@ + text::decimal((c + 1) as nat),
                table.fields[columns[c] as int].data_type,
            ),
    )
}

fn fill_row(
    row: &Vec<ScalarExpr>,
    columns: &Vec<usize>,
    table: &Schema,
    readings: &Readings,
) -> (out: Vec<
    ScalarExpr,
>)
    requires
        row.len() == columns.len(),
        forall|j: int| 0 <= j < columns@.len() ==> (#[trigger] columns@[j]) < table@.fields.len(),
    ensures
        query::scalars_view(out@) == filled_row(
            query::scalars_view(row@),
            columns@,
            table@,
            readings@,
        ),
{
    let ghost wanted = filled_row(query::scalars_view(row@), columns@, table@, readings@);
    let mut out: Vec<ScalarExpr> = Vec::new();
    let mut j: usize = 0;
    while j < row.len()
        invariant
            j <= row.len(),
            row.len() == columns.len(),
            out.len() == j,
            forall|k: int|
                0 <= k < columns@.len() ==> (#[trigger] columns@[k]) < table@.fields.len(),
            wanted == filled_row(query::scalars_view(row@), columns@, table@, readings@),
            forall|k: int| 0 <= k < j ==> (#[trigger] out@[k])@ == wanted[k],
        decreases row.len() - j,
    {
        let mut cell = row[j].duplicate();
        coerce_literal_to_type(&mut cell, &table.field_at(columns[j]).data_type, readings);
        out.push(cell);
        j = j + 1;
    }
    assert(query::scalars_view(out@) =~= wanted);
    out
}

fn fill_rows(
    rows: &Vec<Vec<ScalarExpr>>,
    columns: &Vec<usize>,
    table: &Schema,
    readings: &Readings,
) -> (out: Vec<Vec<ScalarExpr>>)
    requires
        forall|i: int| 0 <= i < rows@.len() ==> (#[trigger] rows@[i])@.len() == columns@.len(),
        forall|j: int| 0 <= j < columns@.len() ==> (#[trigger] columns@[j]) < table@.fields.len(),
    ensures
        query::rows_view(out@) == filled_rows(
            query::rows_view(rows@),
            columns@,
            table@,
            readings@,
        ),
{
    let ghost wanted = filled_rows(query::rows_view(rows@), columns@, table@, readings@);
    let mut out: Vec<Vec<ScalarExpr>> = Vec::new();
    let mut i: usize = 0;
    while i < rows.len()
        invariant
            i <= rows.len(),
            out.len() == i,
            forall|k: int|
                0 <= k < rows@.len() ==> (#[trigger] rows@[k])@.len() == columns@.len(),
            forall|k: int|
                0 <= k < columns@.len() ==> (#[trigger] columns@[k]) < table@.fields.len(),
            wanted == filled_rows(query::rows_view(rows@), columns@, table@, readings@),
            forall|k: int|
                0 <= k < i ==> query::scalars_view((#[trigger] out@[k])@) == wanted[k],
        decreases rows.len() - i,
    {
        let row = fill_row(&rows[i], columns, table, readings);
        assert(query::rows_view(rows@)[i as int] == query::scalars_view(rows@[i as int]@));
        out.push(row);
        i = i + 1;
    }
    assert(query::rows_view(out@) =~= wanted);
    out
}

fn fill_fields(columns: &Vec<usize>, table: &Schema) -> (fields: Vec<Field>)
    requires
        forall|j: int| 0 <= j < columns@.len() ==> (#[trigger] columns@[j]) < table@.fields.len(),
    ensures
        schema::fields_view(fields@) == filled_fields(columns@, table@),
{
    let ghost wanted = filled_fields(columns@, table@);
    let mut fields: Vec<Field> = Vec::new();
    let mut c: usize = 0;
    while c < columns.len()
        invariant
            c <= columns.len(),
            fields.len() == c,
            forall|k: int|
                0 <= k < columns@.len() ==> (#[trigger] columns@[k]) < table@.fields.len(),
            wanted == filled_fields(columns@, table@),
            forall|k: int| 0 <= k < c ==> (#[trigger] fields@[k])@ == wanted[k],
        decreases columns.len() - c,
    {
        assert(c < usize::MAX);
        let name = cat2("column", show_usize(c + 1).as_str());
        fields.push(Field::nullable(name, table.field_at(columns[c]).data_type.duplicate()));
        c = c + 1;
    }
    assert(schema::fields_view(fields@) =~= wanted);
    fields
}

/// The rows that an `INSERT` takes from a `VALUES` list.
pub open spec fn inserted_values(
    rows: Seq<Vec<Expr>>,
    columns: Seq<usize>,
    table: SchemaView,
    cat: CatalogView,
    scope: Seq<SchemaView>,
    r: ReadingsView,
) -> Result<QueryPlanView, PlanErrorView> {
    match bound_values(rows, columns.len(), cat, scope, r) {
        Err(e) => Err(e),
        Ok((cells, _)) => match error::labelled_schema(
            "INSERT VALUES schema coercion: "@,
            filled_fields(columns, table),
        ) {
            Err(e) => Err(e),
            Ok(schema) => Ok(
                QueryPlanView::Values { rows: filled_rows(cells, columns, table, r), schema },
            ),
        },
    }
}

/// The row source of an `INSERT`.
pub open spec fn bound_source(
    source: InsertSource,
    columns: Seq<usize>,
    table: SchemaView,
    cat: CatalogView,
    scope: Seq<SchemaView>,
    r: ReadingsView,
) -> Result<QueryPlanView, PlanErrorView> {
    match source {
        InsertSource::DefaultValues => Ok(
            QueryPlanView::Values { rows: seq![Seq::empty()], schema: schema::empty_schema() },
        ),
        InsertSource::Values(rows) => inserted_values(rows@, columns, table, cat, scope, r),
        InsertSource::Select(select) => match bound::bound_select(*select, cat, scope) {
            Err(e) => Err(e),
            Ok(p) => {
                let n = query::query_schema(p).fields.len();
                if n != columns.len() {
                    Err(
                        PlanErrorView::TypeMismatch(
                            "INSERT column count ("@ + text::decimal(columns.len())
                                + ") does not match SELECT arity ("@ + text::decimal(n) + ")"@,
                        ),
                    )
                } else {
                    Ok(p)
                }
            },
        },
    }
}

fn bind_source<C: Catalog>(
    source: &InsertSource,
    columns: &Vec<usize>,
    table: &Schema,
    catalog: &C,
    scope: &mut ScopeStack,
    readings: &Readings,
) -> (made: Result<QueryPlan, PlanError>)
    requires
        forall|j: int| 0 <= j < columns@.len() ==> (#[trigger] columns@[j]) < table@.fields.len(),
    ensures
        error::query_outcome(made) == bound_source(
            *source,
            columns@,
            table@,
            catalog.model(),
            old(scope).rows(),
            readings@,
        ),
        final(scope).frames@ == old(scope).frames@,
{
    match source {
        InsertSource::DefaultValues => {
            let row: Vec<ScalarExpr> = Vec::new();
            let mut rows: Vec<Vec<ScalarExpr>> = Vec::new();
            assert(query::scalars_view(row@) =~= Seq::empty());
            proof {
                query::lemma_rows_push(rows@, row);
            }
            rows.push(row);
            assert(query::rows_view(rows@) =~= seq![Seq::<ScalarExprView>::empty()]);
            Ok(QueryPlan::Values { rows, schema: Schema::empty() })
        },
        InsertSource::Values(rows) => {
            let (cells, _) = bind_values_rows(rows, columns.len(), catalog, scope, readings)?;
            let fields = fill_fields(columns, table);
            let schema = schema_or_mismatch("INSERT VALUES schema coercion: ", fields)?;
            let rows = fill_rows(&cells, columns, table, readings);
            Ok(QueryPlan::Values { rows, schema })
        },
        InsertSource::Select(select) => {
            let plan = bind_select(select, catalog, scope)?;
            let n: usize = plan.schema().len();
            if n != columns.len() {
                return Err(
                    PlanError::TypeMismatch(
                        cat5(
                            "INSERT column count (",
                            show_usize(columns.len()).as_str(),
                            ") does not match SELECT arity (",
                            show_usize(n).as_str(),
                            ")",
                        ),
                    ),
                );
            }
            Ok(plan)
        },
    }
}

/// An assigned value coerced to the type of its column. The current time
/// becomes a time without zone where the column holds those.
pub open spec fn assigned_value(
    e: ScalarExprView,
    target: DataTypeView,
    r: ReadingsView,
) -> ScalarExprView {
    match coerce::coerced(e, target, r) {
        ScalarExprView::FunctionCall { name, args, data_type } => {
            ScalarExprView::FunctionCall {
                name,
                args,
                data_type: if target is Timestamp && (name == "now"@ || name
                    == "current_timestamp"@) && data_type is TimestampTz {
                    DataTypeView::Timestamp
                } else {
                    data_type
                },
            }
        },
        x => x,
    }
}

/// Coerces an assigned value to the type of its column.
pub fn coerce_assignment_expr_to_type(
    e: ScalarExpr,
    target: &DataType,
    readings: &Readings,
) -> (made:
    ScalarExpr)
    ensures
        made@ == assigned_value(e@, target@, readings@),
{
    let mut x = e;
    coerce_literal_to_type(&mut x, target, readings);
    match x {
        ScalarExpr::FunctionCall { name, args, data_type } => {
            let data_type = if matches!(target, DataType::Timestamp) && (text_eq(
                name.as_str(),
                "now",
            ) || text_eq(name.as_str(), "current_timestamp")) && matches!(
                data_type,
                DataType::TimestampTz
            ) {
                DataType::Timestamp
            } else {
                data_type
            };
            ScalarExpr::FunctionCall { name, args, data_type }
        },
        other => other,
    }
}

/// The assignments of a `SET` list from the `i`-th on. Columns are those of the
/// table, values are bound against `row`. No column is assigned twice.
pub open spec fn bound_assignments(
    set: Seq<Assignment>,
    i: int,
    acc: Seq<(usize, ScalarExprView)>,
    table: SchemaView,
    row: SchemaView,
    cat: CatalogView,
    scope: Seq<SchemaView>,
    r: ReadingsView,
) -> Result<Seq<(usize, ScalarExprView)>, PlanErrorView>
    decreases set.len() - i,
{
    if i < 0 || i >= set.len() {
        Ok(acc)
    } else {
        match schema::find_field(table, set[i].target.value@) {
            None => Err(PlanErrorView::ColumnNotFound(set[i].target.value@)),
            Some(at) => if dml::assigned(acc, at as usize) {
                Err(PlanErrorView::DuplicateColumn(set[i].target.value@))
            } else {
                match expr::bound_value(set[i].value, row, cat, Seq::empty(), scope, r) {
                    Err(e) => Err(e),
                    Ok(x) => bound_assignments(
                        set,
                        i + 1,
                        acc.push(
                            (
                                at as usize,
                                assigned_value(x, table.fields[at].data_type, r),
                            ),
                        ),
                        table,
                        row,
                        cat,
                        scope,
                        r,
                    ),
                }
            },
        }
    }
}

/// Binds the assignments of a `SET` list.
pub fn bind_assignments<C: Catalog>(
    set: &Vec<Assignment>,
    table: &Schema,
    row: &Schema,
    catalog: &C,
    scope: &mut ScopeStack,
    readings: &Readings,
) -> (made: Result<Vec<(usize, ScalarExpr)>, PlanError>)
    ensures
        dml::assignments_outcome(made) == bound_assignments(
            set@,
            0,
            Seq::empty(),
            table@,
            row@,
            catalog.model(),
            old(scope).rows(),
            readings@,
        ),
        final(scope).frames@ == old(scope).frames@,
{
    let mut out: Vec<(usize, ScalarExpr)> = Vec::new();
    assert(plan::assignments_view(out@) =~= Seq::empty());
    let mut i: usize = 0;
    while i < set.len()
        invariant
            i <= set.len(),
            scope.frames@ == old(scope).frames@,
            bound_assignments(
                set@,
                i as int,
                plan::assignments_view(out@),
                table@,
                row@,
                catalog.model(),
                old(scope).rows(),
                readings@,
            ) == bound_assignments(
                set@,
                0,
                Seq::empty(),
                table@,
                row@,
                catalog.model(),
                old(scope).rows(),
                readings@,
            ),
        decreases set.len() - i,
    {
        let target = &set[i].target.value;
        let at: usize = match table.find(target.as_str()) {
            Some(at) => at,
            None => return Err(PlanError::ColumnNotFound(target.clone())),
        };
        if is_assigned(&out, at) {
            return Err(PlanError::DuplicateColumn(target.clone()));
        }
        let bound = bind_expr(&set[i].value, row, catalog, scope, readings)?;
        let value = coerce_assignment_expr_to_type(
            bound,
            &table.field_at(at).data_type,
            readings,
        );
        proof {
            plan::lemma_assignments_push(out@, (at, value));
        }
        out.push((at, value));
        i = i + 1;
    }
    Ok(out)
}

/// The columns of the table, then those of the row proposed for insertion under
/// the name `excluded`.
pub open spec fn conflict_fields(table: SchemaView) -> Seq<FieldView> {
    table.fields + Seq::new(
        table.fields.len(),
        |i: int|
            FieldView { name: "excluded."@ + table.fields[i].name, ..table.fields[i] },
    )
}

/// The row of a `DO UPDATE` branch.
pub open spec fn conflict_schema(table: SchemaView) -> Result<SchemaView, PlanErrorView> {
    match schema::schema_of(conflict_fields(table)) {
        Ok(s) => Ok(s),
        Err(e) => Err(PlanErrorView::TypeMismatch(e)),
    }
}

/// Makes the row of a `DO UPDATE` branch.
pub fn conflict_update_schema(table: &Schema) -> (made: Result<Schema, PlanError>)
    ensures
        error::schema_outcome(made) == conflict_schema(table@),
{
    let ghost wanted = conflict_fields(table@);
    let mut fields = schema::duplicate_fields(&table.fields);
    assert(schema::fields_view(fields@) =~= table@.fields);
    assert forall|k: int| 0 <= k < fields@.len() implies (#[trigger] fields@[k])@ == wanted[k] by {
        assert(schema::fields_view(fields@)[k] == fields@[k]@);
    }
    let mut i: usize = 0;
    while i < table.fields.len()
        invariant
            i <= table.fields.len(),
            fields.len() == table.fields.len() + i,
            wanted == conflict_fields(table@),
            forall|k: int|
                0 <= k < table.fields.len() + i ==> (#[trigger] fields@[k])@ == wanted[k],
        decreases table.fields.len() - i,
    {
        let mut f = table.fields[i].duplicate();
        f.name = cat2("excluded.", table.fields[i].name.as_str());
        fields.push(f);
        i = i + 1;
    }
    assert(schema::fields_view(fields@) =~= wanted);
    match Schema::new(fields) {
        Ok(s) => Ok(s),
        Err(e) => Err(PlanError::TypeMismatch(e)),
    }
}

/// The predicate of a `DO UPDATE` branch.
pub open spec fn conflict_predicate(
    pred: Option<Expr>,
    row: SchemaView,
    cat: CatalogView,
    scope: Seq<SchemaView>,
    r: ReadingsView,
) -> Result<Option<ScalarExprView>, PlanErrorView> {
    match pred {
        None => Ok(None),
        Some(e) => match expr::bound_value(e, row, cat, Seq::empty(), scope, r) {
            Err(err) => Err(err),
            Ok(x) => if typing::truth_type(query::scalar_type(x)) {
                Ok(Some(x))
            } else {
                Err(
                    PlanErrorView::TypeMismatch(
                        "ON CONFLICT DO UPDATE WHERE predicate must be boolean"@,
                    ),
                )
            },
        },
    }
}

fn bind_conflict_predicate<C: Catalog>(
    pred: &Option<Expr>,
    row: &Schema,
    catalog: &C,
    scope: &mut ScopeStack,
    readings: &Readings,
) -> (made: Result<Option<ScalarExpr>, PlanError>)
    ensures
        literal::option_outcome(made) == conflict_predicate(
            *pred,
            row@,
            catalog.model(),
            old(scope).rows(),
            readings@,
        ),
        final(scope).frames@ == old(scope).frames@,
{
    match pred {
        None => Ok(None),
        Some(e) => {
            let x = bind_expr(e, row, catalog, scope, readings)?;
            let t = x.data_type();
            if !t.is_bool() && !t.is_null() {
                return Err(
                    PlanError::TypeMismatch(
                        owned("ON CONFLICT DO UPDATE WHERE predicate must be boolean"),
                    ),
                );
            }
            Ok(Some(x))
        },
    }
}

/// What an `ON CONFLICT` clause is bound to. Within `DO UPDATE`, `excluded`
/// names the row proposed for insertion.
pub open spec fn bound_conflict(
    oc: OnConflict,
    table: SchemaView,
    cat: CatalogView,
    scope: Seq<SchemaView>,
    r: ReadingsView,
) -> Result<LogicalOnConflictView, PlanErrorView> {
    match oc {
        OnConflict::DoNothing { target } => match target {
            None => Ok(LogicalOnConflictView::DoNothing { target: None }),
            Some(ct) => match dml::conflict_columns(ct.columns@, 0, Seq::empty(), table) {
                Err(e) => Err(e),
                Ok(columns) => Ok(
                    LogicalOnConflictView::DoNothing {
                        target: Some(ConflictTargetView { columns }),
                    },
                ),
            },
        },
        OnConflict::DoUpdate { target, set, where_clause } => match dml::conflict_columns(
            target.columns@,
            0,
            Seq::empty(),
            table,
        ) {
            Err(e) => Err(e),
            Ok(columns) => match conflict_schema(table) {
                Err(e) => Err(e),
                Ok(row) => match bound_assignments(
                    set@,
                    0,
                    Seq::empty(),
                    table,
                    row,
                    cat,
                    scope,
                    r,
                ) {
                    Err(e) => Err(e),
                    Ok(assignments) => match conflict_predicate(
                        where_clause,
                        row,
                        cat,
                        scope,
                        r,
                    ) {
                        Err(e) => Err(e),
                        Ok(where_clause) => Ok(
                            LogicalOnConflictView::DoUpdate {
                                target: ConflictTargetView { columns },
                                assignments,
                                where_clause,
                            },
                        ),
                    },
                },
            },
        },
    }
}

/// Binds an `ON CONFLICT` clause.
pub fn bind_on_conflict<C: Catalog>(
    oc: &OnConflict,
    table: &Schema,
    catalog: &C,
    scope: &mut ScopeStack,
    readings: &Readings,
) -> (made: Result<LogicalOnConflict, PlanError>)
    ensures
        dml::conflict_outcome(made) == bound_conflict(
            *oc,
            table@,
            catalog.model(),
            old(scope).rows(),
            readings@,
        ),
        final(scope).frames@ == old(scope).frames@,
{
    match oc {
        OnConflict::DoNothing { target } => match target {
            None => Ok(LogicalOnConflict::DoNothing { target: None }),
            Some(ct) => {
                let target = bind_conflict_target(ct, table)?;
                Ok(LogicalOnConflict::DoNothing { target: Some(target) })
            },
        },
        OnConflict::DoUpdate { target, set, where_clause } => {
            let target = bind_conflict_target(target, table)?;
            let row = conflict_update_schema(table)?;
            let assignments = bind_assignments(set, table, &row, catalog, scope, readings)?;
            let predicate = bind_conflict_predicate(where_clause, &row, catalog, scope, readings)?;
            Ok(LogicalOnConflict::DoUpdate { target, assignments, where_clause: predicate })
        },
    }
}

/// What an optional `ON CONFLICT` clause is bound to.
pub open spec fn some_conflict(
    oc: Option<OnConflict>,
    table: SchemaView,
    cat: CatalogView,
    scope: Seq<SchemaView>,
    r: ReadingsView,
) -> Result<Option<LogicalOnConflictView>, PlanErrorView> {
    match oc {
        None => Ok(None),
        Some(x) => match bound_conflict(x, table, cat, scope, r) {
            Err(e) => Err(e),
            Ok(y) => Ok(Some(y)),
        },
    }
}

/// What an `INSERT` is bound to.
pub open spec fn bound_insert(
    s: InsertStmt,
    cat: CatalogView,
    scope: Seq<SchemaView>,
    r: ReadingsView,
) -> Result<LogicalPlanView, PlanErrorView> {
    match target_table(s.table, cat) {
        Err(e) => Err(e),
        Ok((table, row)) => match dml::target_columns(s.columns@, row) {
            Err(e) => Err(e),
            Ok(columns) => match bound_source(s.source, columns, row, cat, scope, r) {
                Err(e) => Err(e),
                Ok(source) => match some_conflict(s.on_conflict, row, cat, scope, r) {
                    Err(e) => Err(e),
                    Ok(on_conflict) => match dml::bound_output_row(
                        s.returning@,
                        row,
                        cat,
                        scope,
                    ) {
                        Err(e) => Err(e),
                        Ok((returning, schema)) => Ok(
                            LogicalPlanView::Insert {
                                table,
                                columns,
                                source,
                                on_conflict,
                                returning,
                                schema,
                            },
                        ),
                    },
                },
            },
        },
    }
}

/// Binds an `INSERT` statement.
pub fn bind_insert<C: Catalog>(
    s: &InsertStmt,
    catalog: &C,
    scope: &mut ScopeStack,
    readings: &Readings,
) -> (made: Result<LogicalPlan, PlanError>)
    ensures
        error::plan_outcome(made) == bound_insert(
            *s,
            catalog.model(),
            old(scope).rows(),
            readings@,
        ),
        final(scope).frames@ == old(scope).frames@,
{
    let (table, row) = lookup_target_table(catalog, &s.table)?;
    let columns = resolve_target_columns(&s.columns, &row)?;
    assert(row@.fields.len() == row.fields.len());
    proof {
        dml::insert_columns_are_distinct(s.columns@, row@);
    }
    let source = bind_source(&s.source, &columns, &row, catalog, scope, readings)?;
    let on_conflict = match &s.on_conflict {
        None => None,
        Some(oc) => Some(bind_on_conflict(oc, &row, catalog, scope, readings)?),
    };
    let returning = bind_returning(&s.returning, &row, catalog, scope)?;
    let schema = build_returning_schema(&returning)?;
    Ok(LogicalPlan::Insert { table, columns, source, on_conflict, returning, schema })
}

/// A bound predicate of the given name.
pub open spec fn truth_value(
    label: Seq<char>,
    e: Expr,
    input: SchemaView,
    cat: CatalogView,
    scope: Seq<SchemaView>,
    r: ReadingsView,
) -> Result<ScalarExprView, PlanErrorView> {
    match expr::bound_value(e, input, cat, Seq::empty(), scope, r) {
        Err(err) => Err(err),
        Ok(x) => bound::checked_predicate(label + " predicate must be boolean, got "@, x),
    }
}

/// Binds a predicate of the given name.
pub fn bind_bool_expr<C: Catalog>(
    e: &Expr,
    input: &Schema,
    catalog: &C,
    scope: &mut ScopeStack,
    readings: &Readings,
    label: &str,
) -> (made: Result<ScalarExpr, PlanError>)
    ensures
        error::scalar_outcome(made) == truth_value(
            label@,
            *e,
            input@,
            catalog.model(),
            old(scope).rows(),
            readings@,
        ),
        final(scope).frames@ == old(scope).frames@,
{
    let x = bind_expr(e, input, catalog, scope, readings)?;
    let full = cat2(label, " predicate must be boolean, got ");
    select::check_predicate(full.as_str(), x)
}

/// The scan of a table under an optional filter.
pub open spec fn filtered_scan(
    table: Seq<char>,
    row: SchemaView,
    pred: Option<Expr>,
    cat: CatalogView,
    scope: Seq<SchemaView>,
    r: ReadingsView,
) -> Result<QueryPlanView, PlanErrorView> {
    let scan = QueryPlanView::Scan { table, schema: row, projection: None };
    match pred {
        None => Ok(scan),
        Some(e) => match truth_value("WHERE"@, e, row, cat, scope, r) {
            Err(err) => Err(err),
            Ok(predicate) => Ok(QueryPlanView::Filter { input: Box::new(scan), predicate }),
        },
    }
}

fn bind_filtered_scan<C: Catalog>(
    table: &str,
    row: &Schema,
    pred: &Option<Expr>,
    catalog: &C,
    scope: &mut ScopeStack,
    readings: &Readings,
) -> (made: Result<QueryPlan, PlanError>)
    ensures
        error::query_outcome(made) == filtered_scan(
            table@,
            row@,
            *pred,
            catalog.model(),
            old(scope).rows(),
            readings@,
        ),
        final(scope).frames@ == old(scope).frames@,
{
    let scan = QueryPlan::Scan { table: owned(table), schema: row.duplicate(), projection: None };
    match pred {
        None => Ok(scan),
        Some(e) => {
            let predicate = bind_bool_expr(e, row, catalog, scope, readings, "WHERE")?;
            proof {
                reveal_with_fuel(QueryPlan::view, 2);
            }
            Ok(QueryPlan::Filter { input: Box::new(scan), predicate })
        },
    }
}

/// What an `UPDATE` is bound to.
pub open spec fn bound_update(
    s: UpdateStmt,
    cat: CatalogView,
    scope: Seq<SchemaView>,
    r: ReadingsView,
) -> Result<LogicalPlanView, PlanErrorView> {
    if s.from@.len() > 0 {
        Err(
            PlanErrorView::NotSupported(
                "UPDATE … FROM other_table (join binding lands in wave 3)"@,
            ),
        )
    } else {
        match target_table(s.table, cat) {
            Err(e) => Err(e),
            Ok((table, row)) => match filtered_scan(table, row, s.where_clause, cat, scope, r) {
                Err(e) => Err(e),
                Ok(input) => match bound_assignments(
                    s.set@,
                    0,
                    Seq::empty(),
                    row,
                    row,
                    cat,
                    scope,
                    r,
                ) {
                    Err(e) => Err(e),
                    Ok(assignments) => match dml::bound_output_row(
                        s.returning@,
                        row,
                        cat,
                        scope,
                    ) {
                        Err(e) => Err(e),
                        Ok((returning, schema)) => Ok(
                            LogicalPlanView::Update {
                                table,
                                assignments,
                                input,
                                returning,
                                schema,
                            },
                        ),
                    },
                },
            },
        }
    }
}

/// Binds an `UPDATE` statement.
pub fn bind_update<C: Catalog>(
    s: &UpdateStmt,
    catalog: &C,
    scope: &mut ScopeStack,
    readings: &Readings,
) -> (made: Result<LogicalPlan, PlanError>)
    ensures
        error::plan_outcome(made) == bound_update(
            *s,
            catalog.model(),
            old(scope).rows(),
            readings@,
        ),
        final(scope).frames@ == old(scope).frames@,
{
    if s.from.len() > 0 {
        return Err(
            PlanError::NotSupported("UPDATE … FROM other_table (join binding lands in wave 3)"),
        );
    }
    let (table, row) = lookup_target_table(catalog, &s.table)?;
    let input = bind_filtered_scan(
        table.as_str(),
        &row,
        &s.where_clause,
        catalog,
        scope,
        readings,
    )?;
    let assignments = bind_assignments(&s.set, &row, &row, catalog, scope, readings)?;
    let returning = bind_returning(&s.returning, &row, catalog, scope)?;
    let schema = build_returning_schema(&returning)?;
    Ok(LogicalPlan::Update { table, assignments, input, returning, schema })
}

/// What a `DELETE` is bound to.
pub open spec fn bound_delete(
    s: DeleteStmt,
    cat: CatalogView,
    scope: Seq<SchemaView>,
    r: ReadingsView,
) -> Result<LogicalPlanView, PlanErrorView> {
    if s.using@.len() > 0 {
        Err(
            PlanErrorView::NotSupported(
                "DELETE … USING other_table (join binding lands in wave 3)"@,
            ),
        )
    } else {
        match target_table(s.table, cat) {
            Err(e) => Err(e),
            Ok((table, row)) => match filtered_scan(table, row, s.where_clause, cat, scope, r) {
                Err(e) => Err(e),
                Ok(input) => match dml::bound_output_row(s.returning@, row, cat, scope) {
                    Err(e) => Err(e),
                    Ok((returning, schema)) => Ok(
                        LogicalPlanView::Delete { table, input, returning, schema },
                    ),
                },
            },
        }
    }
}

/// Binds a `DELETE` statement.
pub fn bind_delete<C: Catalog>(
    s: &DeleteStmt,
    catalog: &C,
    scope: &mut ScopeStack,
    readings: &Readings,
) -> (made: Result<LogicalPlan, PlanError>)
    ensures
        error::plan_outcome(made) == bound_delete(
            *s,
            catalog.model(),
            old(scope).rows(),
            readings@,
        ),
        final(scope).frames@ == old(scope).frames@,
{
    if s.using.len() > 0 {
        return Err(
            PlanError::NotSupported("DELETE … USING other_table (join binding lands in wave 3)"),
        );
    }
    let (table, row) = lookup_target_table(catalog, &s.table)?;
    let input = bind_filtered_scan(
        table.as_str(),
        &row,
        &s.where_clause,
        catalog,
        scope,
        readings,
    )?;
    let returning = bind_returning(&s.returning, &row, catalog, scope)?;
    let schema = build_returning_schema(&returning)?;
    Ok(LogicalPlan::Delete { table, input, returning, schema })
}

/// Two rows side by side.
pub open spec fn joined_row(left: SchemaView, right: SchemaView) -> Result<
    SchemaView,
    PlanErrorView,
> {
    error::labelled_schema("MERGE binding schema: "@, left.fields + right.fields)
}

/// Puts two rows side by side.
pub fn concat_binding_schemas(left: &Schema, right: &Schema) -> (made: Result<Schema, PlanError>)
    ensures
        error::schema_outcome(made) == joined_row(left@, right@),
{
    let ghost wanted = left@.fields + right@.fields;
    let mut fields = schema::duplicate_fields(&left.fields);
    assert forall|k: int| 0 <= k < fields@.len() implies (#[trigger] fields@[k])@ == wanted[k] by {
        assert(schema::fields_view(fields@)[k] == fields@[k]@);
    }
    assert(schema::fields_view(fields@).len() == left.fields.len());
    let mut i: usize = 0;
    while i < right.fields.len()
        invariant
            i <= right.fields.len(),
            fields.len() == left.fields.len() + i,
            wanted == left@.fields + right@.fields,
            forall|k: int|
                0 <= k < left.fields.len() + i ==> (#[trigger] fields@[k])@ == wanted[k],
        decreases right.fields.len() - i,
    {
        fields.push(right.fields[i].duplicate());
        i = i + 1;
    }
    assert(schema::fields_view(fields@) =~= wanted);
    schema_or_mismatch("MERGE binding schema: ", fields)
}

/// The row of a table under a qualifier.
pub open spec fn qualified_row(table: SchemaView, qualifier: Seq<char>) -> Result<
    SchemaView,
    PlanErrorView,
> {
    aggregate::binding_schema(table, relation::entries_of(qualifier, table))
}

/// Makes the row of a table under a qualifier.
pub fn qualified_table_schema(table: &Schema, qualifier: &str) -> (made: Result<Schema, PlanError>)
    ensures
        error::schema_outcome(made) == qualified_row(table@, qualifier@),
{
    let entries = offer_columns(qualifier, table);
    schema_for_qualified_binding(table, &entries)
}

/// The values that a `MERGE` inserts from the `i`-th on, each coerced to the type
/// of its column.
pub open spec fn merged_values(
    values: Seq<Expr>,
    i: int,
    acc: Seq<ScalarExprView>,
    columns: Seq<usize>,
    table: SchemaView,
    row: SchemaView,
    cat: CatalogView,
    scope: Seq<SchemaView>,
    r: ReadingsView,
) -> Result<Seq<ScalarExprView>, PlanErrorView>
    decreases values.len() - i,
{
    if i < 0 || i >= values.len() {
        Ok(acc)
    } else {
        match expr::bound_value(values[i], row, cat, Seq::empty(), scope, r) {
            Err(e) => Err(e),
            Ok(x) => merged_values(
                values,
                i + 1,
                acc.push(assigned_value(x, table.fields[columns[i] as int].data_type, r)),
                columns,
                table,
                row,
                cat,
                scope,
                r,
            ),
        }
    }
}

fn bind_merged_values<C: Catalog>(
    values: &Vec<Expr>,
    columns: &Vec<usize>,
    table: &Schema,
    row: &Schema,
    catalog: &C,
    scope: &mut ScopeStack,
    readings: &Readings,
) -> (made: Result<Vec<ScalarExpr>, PlanError>)
    requires
        values.len() == columns.len(),
        forall|j: int| 0 <= j < columns@.len() ==> (#[trigger] columns@[j]) < table@.fields.len(),
    ensures
        error::scalars_outcome(made) == merged_values(
            values@,
            0,
            Seq::empty(),
            columns@,
            table@,
            row@,
            catalog.model(),
            old(scope).rows(),
            readings@,
        ),
        final(scope).frames@ == old(scope).frames@,
{
    let mut out: Vec<ScalarExpr> = Vec::new();
    assert(query::scalars_view(out@) =~= Seq::empty());
    let mut i: usize = 0;
    while i < values.len()
        invariant
            i <= values.len(),
            values.len() == columns.len(),
            scope.frames@ == old(scope).frames@,
            forall|j: int|
                0 <= j < columns@.len() ==> (#[trigger] columns@[j]) < table@.fields.len(),
            merged_values(
                values@,
                i as int,
                query::scalars_view(out@),
                columns@,
                table@,
                row@,
                catalog.model(),
                old(scope).rows(),
                readings@,
            ) == merged_values(
                values@,
                0,
                Seq::empty(),
                columns@,
                table@,
                row@,
                catalog.model(),
                old(scope).rows(),
                readings@,
            ),
        decreases values.len() - i,
    {
        let x = bind_expr(&values[i], row, catalog, scope, readings)?;
        let value = coerce_assignment_expr_to_type(
            x,
            &table.field_at(columns[i]).data_type,
            readings,
        );
        proof {
            query::lemma_scalars_push(out@, value);
        }
        out.push(value);
        i = i + 1;
    }
    Ok(out)
}

/// What a branch of a `MERGE` does. Only matched rows can be changed or removed,
/// and only other rows can be inserted.
pub open spec fn merge_action(
    kind: MergeMatchKind,
    action: MergeAction,
    table: SchemaView,
    row: SchemaView,
    cat: CatalogView,
    scope: Seq<SchemaView>,
    r: ReadingsView,
) -> Result<LogicalMergeActionView, PlanErrorView> {
    match (kind, action) {
        (MergeMatchKind::Matched, MergeAction::Update { set }) => match bound_assignments(
            set@,
            0,
            Seq::empty(),
            table,
            row,
            cat,
            scope,
            r,
        ) {
            Err(e) => Err(e),
            Ok(assignments) => Ok(LogicalMergeActionView::Update { assignments }),
        },
        (MergeMatchKind::Matched, MergeAction::Delete) => Ok(LogicalMergeActionView::Delete),
        (MergeMatchKind::NotMatched, MergeAction::Insert { columns, values }) => {
            match dml::target_columns(columns@, table) {
                Err(e) => Err(e),
                Ok(at) => if values@.len() != at.len() {
                    Err(
                        PlanErrorView::TypeMismatch(
                            "MERGE INSERT column count ("@ + text::decimal(at.len())
                                + ") does not match VALUES arity ("@ + text::decimal(
                                values@.len(),
                            ) + ")"@,
                        ),
                    )
                } else {
                    match merged_values(
                        values@,
                        0,
                        Seq::empty(),
                        at,
                        table,
                        row,
                        cat,
                        scope,
                        r,
                    ) {
                        Err(e) => Err(e),
                        Ok(values) => Ok(LogicalMergeActionView::Insert { columns: at, values }),
                    }
                },
            }
        },
        (MergeMatchKind::Matched, MergeAction::Insert { .. }) => Err(
            PlanErrorView::NotSupported(
                "MERGE WHEN MATCHED THEN INSERT has no source-only target row"@,
            ),
        ),
        (MergeMatchKind::NotMatched, MergeAction::Update { .. }) => Err(
            PlanErrorView::NotSupported("MERGE WHEN NOT MATCHED THEN UPDATE has no target row"@),
        ),
        (MergeMatchKind::NotMatched, MergeAction::Delete) => Err(
            PlanErrorView::NotSupported("MERGE WHEN NOT MATCHED THEN DELETE has no target row"@),
        ),
    }
}

/// What a branch does, with its outcome as models.
pub open spec fn action_outcome(r: Result<LogicalMergeAction, PlanError>) -> Result<
    LogicalMergeActionView,
    PlanErrorView,
> {
    match r {
        Ok(x) => Ok(x@),
        Err(e) => Err(e@),
    }
}

fn bind_merge_action<C: Catalog>(
    kind: MergeMatchKind,
    action: &MergeAction,
    table: &Schema,
    row: &Schema,
    catalog: &C,
    scope: &mut ScopeStack,
    readings: &Readings,
) -> (made: Result<LogicalMergeAction, PlanError>)
    ensures
        action_outcome(made) == merge_action(
            kind,
            *action,
            table@,
            row@,
            catalog.model(),
            old(scope).rows(),
            readings@,
        ),
        final(scope).frames@ == old(scope).frames@,
{
    match (kind, action) {
        (MergeMatchKind::Matched, MergeAction::Update { set }) => {
            let assignments = bind_assignments(set, table, row, catalog, scope, readings)?;
            Ok(LogicalMergeAction::Update { assignments })
        },
        (MergeMatchKind::Matched, MergeAction::Delete) => Ok(LogicalMergeAction::Delete),
        (MergeMatchKind::NotMatched, MergeAction::Insert { columns, values }) => {
            let at = resolve_target_columns(columns, table)?;
            if values.len() != at.len() {
                return Err(
                    PlanError::TypeMismatch(
                        cat5(
                            "MERGE INSERT column count (",
                            show_usize(at.len()).as_str(),
                            ") does not match VALUES arity (",
                            show_usize(values.len()).as_str(),
                            ")",
                        ),
                    ),
                );
            }
            assert(table@.fields.len() == table.fields.len());
            proof {
                dml::insert_columns_are_distinct(columns@, table@);
            }
            let values = bind_merged_values(
                values,
                &at,
                table,
                row,
                catalog,
                scope,
                readings,
            )?;
            Ok(LogicalMergeAction::Insert { columns: at, values })
        },
        (MergeMatchKind::Matched, MergeAction::Insert { .. }) => Err(
            PlanError::NotSupported(
                "MERGE WHEN MATCHED THEN INSERT has no source-only target row",
            ),
        ),
        (MergeMatchKind::NotMatched, MergeAction::Update { .. }) => Err(
            PlanError::NotSupported("MERGE WHEN NOT MATCHED THEN UPDATE has no target row"),
        ),
        (MergeMatchKind::NotMatched, MergeAction::Delete) => Err(
            PlanError::NotSupported("MERGE WHEN NOT MATCHED THEN DELETE has no target row"),
        ),
    }
}

/// Which rows a branch is for.
pub open spec fn match_kind(kind: MergeMatchKind) -> LogicalMergeMatchKind {
    match kind {
        MergeMatchKind::Matched => LogicalMergeMatchKind::Matched,
        MergeMatchKind::NotMatched => LogicalMergeMatchKind::NotMatched,
    }
}

/// The condition of a branch.
pub open spec fn merge_condition(
    e: Option<Expr>,
    row: SchemaView,
    cat: CatalogView,
    scope: Seq<SchemaView>,
    r: ReadingsView,
) -> Result<Option<ScalarExprView>, PlanErrorView> {
    match e {
        None => Ok(None),
        Some(x) => match truth_value("MERGE WHEN"@, x, row, cat, scope, r) {
            Err(err) => Err(err),
            Ok(y) => Ok(Some(y)),
        },
    }
}

/// What a branch of a `MERGE` is bound to.
pub open spec fn merge_clause(
    clause: MergeClause,
    table: SchemaView,
    row: SchemaView,
    cat: CatalogView,
    scope: Seq<SchemaView>,
    r: ReadingsView,
) -> Result<LogicalMergeClauseView, PlanErrorView> {
    match merge_condition(clause.condition, row, cat, scope, r) {
        Err(e) => Err(e),
        Ok(condition) => match merge_action(
            clause.kind,
            clause.action,
            table,
            row,
            cat,
            scope,
            r,
        ) {
            Err(e) => Err(e),
            Ok(action) => Ok(
                LogicalMergeClauseView { kind: match_kind(clause.kind), condition, action },
            ),
        },
    }
}

/// A branch with its outcome as models.
pub open spec fn clause_outcome(r: Result<LogicalMergeClause, PlanError>) -> Result<
    LogicalMergeClauseView,
    PlanErrorView,
> {
    match r {
        Ok(x) => Ok(x@),
        Err(e) => Err(e@),
    }
}

fn bind_merge_clause<C: Catalog>(
    clause: &MergeClause,
    table: &Schema,
    row: &Schema,
    catalog: &C,
    scope: &mut ScopeStack,
    readings: &Readings,
) -> (made: Result<LogicalMergeClause, PlanError>)
    ensures
        clause_outcome(made) == merge_clause(
            *clause,
            table@,
            row@,
            catalog.model(),
            old(scope).rows(),
            readings@,
        ),
        final(scope).frames@ == old(scope).frames@,
{
    let kind = match clause.kind {
        MergeMatchKind::Matched => LogicalMergeMatchKind::Matched,
        MergeMatchKind::NotMatched => LogicalMergeMatchKind::NotMatched,
    };
    let condition = match &clause.condition {
        None => None,
        Some(e) => Some(bind_bool_expr(e, row, catalog, scope, readings, "MERGE WHEN")?),
    };
    let action = bind_merge_action(
        clause.kind,
        &clause.action,
        table,
        row,
        catalog,
        scope,
        readings,
    )?;
    Ok(LogicalMergeClause { kind, condition, action })
}

/// The branches of a `MERGE` from the `i`-th on.
pub open spec fn merge_clauses(
    clauses: Seq<MergeClause>,
    i: int,
    acc: Seq<LogicalMergeClauseView>,
    table: SchemaView,
    row: SchemaView,
    cat: CatalogView,
    scope: Seq<SchemaView>,
    r: ReadingsView,
) -> Result<Seq<LogicalMergeClauseView>, PlanErrorView>
    decreases clauses.len() - i,
{
    if i < 0 || i >= clauses.len() {
        Ok(acc)
    } else {
        match merge_clause(clauses[i], table, row, cat, scope, r) {
            Err(e) => Err(e),
            Ok(c) => merge_clauses(clauses, i + 1, acc.push(c), table, row, cat, scope, r),
        }
    }
}

fn bind_merge_clauses<C: Catalog>(
    clauses: &Vec<MergeClause>,
    table: &Schema,
    row: &Schema,
    catalog: &C,
    scope: &mut ScopeStack,
    readings: &Readings,
) -> (made: Result<Vec<LogicalMergeClause>, PlanError>)
    ensures
        (match made {
            Ok(x) => Ok(plan::merge_clauses_view(x@)),
            Err(e) => Err(e@),
        }) == merge_clauses(
            clauses@,
            0,
            Seq::empty(),
            table@,
            row@,
            catalog.model(),
            old(scope).rows(),
            readings@,
        ),
        final(scope).frames@ == old(scope).frames@,
{
    let mut out: Vec<LogicalMergeClause> = Vec::new();
    assert(plan::merge_clauses_view(out@) =~= Seq::empty());
    let mut i: usize = 0;
    while i < clauses.len()
        invariant
            i <= clauses.len(),
            scope.frames@ == old(scope).frames@,
            merge_clauses(
                clauses@,
                i as int,
                plan::merge_clauses_view(out@),
                table@,
                row@,
                catalog.model(),
                old(scope).rows(),
                readings@,
            ) == merge_clauses(
                clauses@,
                0,
                Seq::empty(),
                table@,
                row@,
                catalog.model(),
                old(scope).rows(),
                readings@,
            ),
        decreases clauses.len() - i,
    {
        let clause = bind_merge_clause(&clauses[i], table, row, catalog, scope, readings)?;
        proof {
            plan::lemma_merge_clauses_push(out@, clause);
        }
        out.push(clause);
        i = i + 1;
    }
    Ok(out)
}

/// The name by which the target of a `MERGE` can be qualified.
pub open spec fn target_qualifier(s: MergeStmt) -> Seq<char> {
    match s.target_alias {
        Some(a) => a.value@,
        None => names::simple_name(s.target),
    }
}

/// The plan of the source of a `MERGE`, and the row of its target and its source
/// side by side.
pub open spec fn merge_source(
    s: MergeStmt,
    table: SchemaView,
    cat: CatalogView,
    scope: Seq<SchemaView>,
) -> Result<(QueryPlanView, SchemaView), PlanErrorView> {
    match qualified_row(table, target_qualifier(s)) {
        Err(e) => Err(e),
        Ok(left) => match bound::bound_table_ref(s.source, cat, Seq::empty(), scope) {
            Err(e) => Err(e),
            Ok((source, entries)) => match aggregate::binding_schema(
                query::query_schema(source),
                entries,
            ) {
                Err(e) => Err(e),
                Ok(right) => match joined_row(left, right) {
                    Err(e) => Err(e),
                    Ok(row) => Ok((source, row)),
                },
            },
        },
    }
}

fn bind_merge_source<C: Catalog>(
    s: &MergeStmt,
    table: &Schema,
    catalog: &C,
    scope: &mut ScopeStack,
) -> (made: Result<(QueryPlan, Schema), PlanError>)
    ensures
        (match made {
            Ok((p, row)) => Ok((p@, row@)),
            Err(e) => Err(e@),
        }) == merge_source(*s, table@, catalog.model(), old(scope).rows()),
        final(scope).frames@ == old(scope).frames@,
{
    let qualifier = match &s.target_alias {
        Some(a) => a.value.clone(),
        None => object_name_simple(&s.target),
    };
    let left = qualified_table_schema(table, qualifier.as_str())?;
    let none: Vec<(String, Schema)> = Vec::new();
    assert(bound::ctes_view(none@) =~= Seq::empty());
    let (source, entries) = bind_table_ref(&s.source, catalog, &none, scope)?;
    let right = schema_for_qualified_binding(source.schema(), &entries)?;
    let row = concat_binding_schemas(&left, &right)?;
    Ok((source, row))
}

/// What a `MERGE` is bound to. Its expressions see the columns of the target,
/// then those of the source, each under its qualifier.
pub open spec fn bound_merge(
    s: MergeStmt,
    cat: CatalogView,
    scope: Seq<SchemaView>,
    r: ReadingsView,
) -> Result<LogicalPlanView, PlanErrorView> {
    match target_table(s.target, cat) {
        Err(e) => Err(e),
        Ok((target, table)) => match merge_source(s, table, cat, scope) {
            Err(e) => Err(e),
            Ok((source, row)) => match truth_value("MERGE ON"@, s.on, row, cat, scope, r) {
                Err(e) => Err(e),
                Ok(on) => match merge_clauses(
                    s.clauses@,
                    0,
                    Seq::empty(),
                    table,
                    row,
                    cat,
                    scope,
                    r,
                ) {
                    Err(e) => Err(e),
                    Ok(clauses) => Ok(
                        LogicalPlanView::Merge {
                            target,
                            target_alias: match s.target_alias {
                                Some(a) => Some(a.value@),
                                None => None,
                            },
                            target_schema: table,
                            source,
                            on,
                            clauses,
                            schema: schema::empty_schema(),
                        },
                    ),
                },
            },
        },
    }
}

/// Binds a `MERGE` statement.
pub fn bind_merge<C: Catalog>(
    s: &MergeStmt,
    catalog: &C,
    scope: &mut ScopeStack,
    readings: &Readings,
) -> (made: Result<LogicalPlan, PlanError>)
    ensures
        error::plan_outcome(made) == bound_merge(*s, catalog.model(), old(scope).rows(), readings@),
        final(scope).frames@ == old(scope).frames@,
{
    let (target, table) = lookup_target_table(catalog, &s.target)?;
    let (source, row) = bind_merge_source(s, &table, catalog, scope)?;
    let on = bind_bool_expr(&s.on, &row, catalog, scope, readings, "MERGE ON")?;
    let clauses = bind_merge_clauses(&s.clauses, &table, &row, catalog, scope, readings)?;
    let target_alias = match &s.target_alias {
        Some(a) => Some(a.value.clone()),
        None => None,
    };
    Ok(
        LogicalPlan::Merge {
            target,
            target_alias,
            target_schema: table,
            source,
            on,
            clauses,
            schema: Schema::empty(),
        },
    )
}

/// A branch of a `MERGE` is accepted only where its action suits its rows:
/// matched rows are changed or removed, other rows are inserted.
pub proof fn merge_actions_suit_their_rows(
    kind: MergeMatchKind,
    action: MergeAction,
    table: SchemaView,
    row: SchemaView,
    cat: CatalogView,
    scope: Seq<SchemaView>,
    r: ReadingsView,
)
    ensures
        merge_action(kind, action, table, row, cat, scope, r) is Ok ==> (action is Insert <==> kind
            is NotMatched),
{
}

proof fn lemma_assignments(
    set: Seq<Assignment>,
    i: int,
    acc: Seq<(usize, ScalarExprView)>,
    table: SchemaView,
    row: SchemaView,
    cat: CatalogView,
    scope: Seq<SchemaView>,
    r: ReadingsView,
)
    requires
        0 <= i <= set.len(),
        table.fields.len() <= usize::MAX,
        acc.len() == i,
        forall|k: int| 0 <= k < i ==> (#[trigger] acc[k]).0 < table.fields.len(),
        forall|j: int, k: int| 0 <= j < k < i ==> acc[j].0 != acc[k].0,
    ensures
        bound_assignments(set, i, acc, table, row, cat, scope, r) matches Ok(out) ==> {
            &&& out.len() == set.len()
            &&& forall|k: int| 0 <= k < out.len() ==> (#[trigger] out[k]).0 < table.fields.len()
            &&& forall|j: int, k: int| 0 <= j < k < out.len() ==> out[j].0 != out[k].0
        },
    decreases set.len() - i,
{
    if i < set.len() {
        schema::find_gives_first(table.fields, set[i].target.value@, 0);
        match schema::find_field(table, set[i].target.value@) {
            None => {},
            Some(at) => match expr::bound_value(set[i].value, row, cat, Seq::empty(), scope, r) {
                Err(_) => {},
                Ok(x) => if !dml::assigned(acc, at as usize) {
                    lemma_assignments(
                        set,
                        i + 1,
                        acc.push((at as usize, assigned_value(x, table.fields[at].data_type, r))),
                        table,
                        row,
                        cat,
                        scope,
                        r,
                    );
                },
            },
        }
    }
}

/// An accepted `SET` list assigns every column at most once, and only columns
/// of the table.
pub proof fn assignments_are_distinct(
    set: Seq<Assignment>,
    table: SchemaView,
    row: SchemaView,
    cat: CatalogView,
    scope: Seq<SchemaView>,
    r: ReadingsView,
)
    requires
        table.fields.len() <= usize::MAX,
    ensures
        bound_assignments(set, 0, Seq::empty(), table, row, cat, scope, r) matches Ok(out) ==> {
            &&& out.len() == set.len()
            &&& forall|k: int| 0 <= k < out.len() ==> (#[trigger] out[k]).0 < table.fields.len()
            &&& forall|j: int, k: int| 0 <= j < k < out.len() ==> out[j].0 != out[k].0
        },
{
    lemma_assignments(set, 0, Seq::empty(), table, row, cat, scope, r);
}

} // verus!
