//! Binding of `INSERT`, `UPDATE`, `DELETE` and `TRUNCATE`.
use crate::ast::{
    Assignment, ConflictColumns, DeleteStmt, Expr, Identifier, InsertSource, InsertStmt, ObjectName,
    OnConflict, SelectItem, TruncateStmt, UpdateStmt,
};
use crate::binder::excluded::{names_in, names_in_clause};
use crate::binder::names::{object_name_simple, output_column_name};
use crate::binder::relation::output_schema;
use crate::binder::select::{bind_expr, bind_exprs, bind_filter, bind_select};
use crate::binder::{bound, excluded, names, relation};
use crate::catalog::{Catalog, CatalogView};
use crate::datatype::{DataType, DataTypeView};
use crate::error::{schema_or_mismatch, PlanError, PlanErrorView};
use crate::plan::{
    ConflictTarget, ConflictTargetView, LogicalOnConflict, LogicalOnConflictView, LogicalPlan,
    LogicalPlanView,
};
use crate::query::{QueryPlan, QueryPlanView, ScalarExpr, ScalarExprView};
use crate::schema::{Field, FieldView, Schema, SchemaView};
use crate::scope::ScopeStack;
use crate::text::{cat2, cat5, cat6, eq_fold, show_usize};
use crate::{binder, datatype, error, list, plan, query, schema, text};
use vstd::prelude::*;

verus! {

/// The columns of the table of the given name.
pub open spec fn table_columns(name: Seq<char>, cat: CatalogView) -> Result<
    SchemaView,
    PlanErrorView,
> {
    match (cat.table)(name) {
        Some(meta) => Ok(meta.schema),
        None => Err(PlanErrorView::TableNotFound(name)),
    }
}

/// Looks a table up.
pub fn find_table<C: Catalog>(name: &str, catalog: &C) -> (made: Result<Schema, PlanError>)
    ensures
        error::schema_outcome(made) == table_columns(name@, catalog.model()),
{
    match catalog.lookup_table(name) {
        Some(meta) => Ok(meta.schema),
        None => Err(PlanError::TableNotFound(text::owned(name))),
    }
}

/// Whether an earlier name of the list is the `i`-th one up to case.
pub open spec fn listed_before(cols: Seq<Identifier>, i: int) -> bool {
    exists|j: int| 0 <= j < i && text::same_fold(#[trigger] cols[j].value@, cols[i].value@)
}

/// The positions of the columns from the `i`-th name on. No name may repeat.
pub open spec fn distinct_columns(
    cols: Seq<Identifier>,
    i: int,
    acc: Seq<usize>,
    s: SchemaView,
) -> Result<Seq<usize>, PlanErrorView>
    decreases cols.len() - i,
{
    if i < 0 || i >= cols.len() {
        Ok(acc)
    } else if listed_before(cols, i) {
        Err(PlanErrorView::DuplicateColumn(cols[i].value@))
    } else {
        match schema::find_field(s, cols[i].value@) {
            Some(at) => distinct_columns(cols, i + 1, acc.push(at as usize), s),
            None => Err(PlanErrorView::ColumnNotFound(cols[i].value@)),
        }
    }
}

/// The positions of the columns that an `INSERT` fills: the listed ones, or all
/// columns where none is listed.
pub open spec fn target_columns(cols: Seq<Identifier>, s: SchemaView) -> Result<
    Seq<usize>,
    PlanErrorView,
> {
    if cols.len() == 0 {
        Ok(Seq::new(s.fields.len(), |i: int| i as usize))
    } else {
        distinct_columns(cols, 0, Seq::empty(), s)
    }
}

fn is_listed_before(cols: &Vec<Identifier>, i: usize) -> (yes: bool)
    requires
        i < cols.len(),
    ensures
        yes == listed_before(cols@, i as int),
{
    let mut j: usize = 0;
    while j < i
        invariant
            j <= i < cols.len(),
            forall|k: int|
                0 <= k < j ==> !text::same_fold(
                    #[trigger] cols@[k].value@,
                    cols@[i as int].value@,
                ),
        decreases i - j,
    {
        if eq_fold(cols[j].value.as_str(), cols[i].value.as_str()) {
            assert(text::same_fold(cols@[j as int].value@, cols@[i as int].value@));
            return true;
        }
        j = j + 1;
    }
    false
}

/// Resolves a column list without repetitions.
pub fn resolve_distinct_columns(cols: &Vec<Identifier>, s: &Schema) -> (made: Result<
    Vec<usize>,
    PlanError,
>)
    ensures
        error::list_outcome(made) == distinct_columns(cols@, 0, Seq::empty(), s@),
{
    let mut out: Vec<usize> = Vec::new();
    let mut i: usize = 0;
    while i < cols.len()
        invariant
            i <= cols.len(),
            distinct_columns(cols@, i as int, out@, s@) == distinct_columns(
                cols@,
                0,
                Seq::empty(),
                s@,
            ),
        decreases cols.len() - i,
    {
        if is_listed_before(cols, i) {
            return Err(PlanError::DuplicateColumn(cols[i].value.clone()));
        }
        match s.find(cols[i].value.as_str()) {
            Some(at) => out.push(at),
            None => return Err(PlanError::ColumnNotFound(cols[i].value.clone())),
        }
        i = i + 1;
    }
    Ok(out)
}

/// Resolves the column list of an `INSERT`.
pub fn resolve_target_columns(cols: &Vec<Identifier>, s: &Schema) -> (made: Result<
    Vec<usize>,
    PlanError,
>)
    ensures
        error::list_outcome(made) == target_columns(cols@, s@),
{
    if cols.len() > 0 {
        return resolve_distinct_columns(cols, s);
    }
    let mut out: Vec<usize> = Vec::new();
    let mut i: usize = 0;
    while i < s.len()
        invariant
            i <= s@.fields.len(),
            out.len() == i,
            forall|j: int| 0 <= j < i ==> #[trigger] out@[j] == j,
        decreases s@.fields.len() - i,
    {
        out.push(i);
        i = i + 1;
    }
    assert(out@ =~= Seq::new(s@.fields.len(), |i: int| i as usize));
    Ok(out)
}

/// The bound rows of a `VALUES` list from the `i`-th on. Each has the given
/// number of cells, none of which refers to a column.
pub open spec fn bound_rows(
    rows: Seq<Vec<Expr>>,
    i: int,
    acc: Seq<Seq<ScalarExprView>>,
    arity: nat,
    cat: CatalogView,
    scope: Seq<SchemaView>,
) -> Result<Seq<Seq<ScalarExprView>>, PlanErrorView>
    decreases rows.len() - i,
{
    if i < 0 || i >= rows.len() {
        Ok(acc)
    } else if rows[i]@.len() != arity {
        Err(
            PlanErrorView::TypeMismatch(
                "VALUES row "@ + text::decimal((i + 1) as nat) + " has "@ + text::decimal(
                    rows[i]@.len(),
                ) + " column(s), expected "@ + text::decimal(arity),
            ),
        )
    } else {
        match bound::bound_exprs(rows[i]@, 0, Seq::empty(), schema::empty_schema(), cat, scope) {
            Err(e) => Err(e),
            Ok(cells) => bound_rows(rows, i + 1, acc.push(cells), arity, cat, scope),
        }
    }
}

/// The type of a column that holds cells of both types: a null type yields to
/// the other, numbers widen, and else the earlier type stays.
pub open spec fn merged_type(current: DataTypeView, cell: DataTypeView) -> DataTypeView {
    if current is Null {
        cell
    } else if cell is Null {
        current
    } else if datatype::numeric(current) && datatype::numeric(cell) {
        match datatype::join_numeric(current, cell) {
            Some(t) => t,
            None => current,
        }
    } else {
        current
    }
}

/// The type of the `c`-th column over the first `n` rows.
pub open spec fn cell_type(rows: Seq<Seq<ScalarExprView>>, c: int, n: int) -> DataTypeView
    decreases n,
{
    if n <= 0 {
        DataTypeView::Null
    } else {
        merged_type(cell_type(rows, c, n - 1), query::scalar_type(rows[n - 1][c]))
    }
}

/// The columns of a `VALUES` list.
pub open spec fn values_fields(rows: Seq<Seq<ScalarExprView>>, arity: nat) -> Seq<FieldView> {
    Seq::new(
        arity,
        |c: int|
            schema::nullable_field(
                "column"@ + text::decimal((c + 1) as nat),
                cell_type(rows, c, rows.len() as int),
            ),
    )
}

/// What a `VALUES` list is bound to.
pub open spec fn bound_values(
    rows: Seq<Vec<Expr>>,
    arity: nat,
    cat: CatalogView,
    scope: Seq<SchemaView>,
) -> Result<QueryPlanView, PlanErrorView> {
    match bound_rows(rows, 0, Seq::empty(), arity, cat, scope) {
        Err(e) => Err(e),
        Ok(rows) => match error::labelled_schema("VALUES schema: "@, values_fields(rows, arity)) {
            Err(e) => Err(e),
            Ok(schema) => Ok(QueryPlanView::Values { rows, schema }),
        },
    }
}

fn merge_types(current: DataType, cell: DataType) -> (t: DataType)
    ensures
        t@ == merged_type(current@, cell@),
{
    if current.is_null() {
        cell
    } else if cell.is_null() {
        current
    } else if current.is_numeric() && cell.is_numeric() {
        match current.numeric_join(&cell) {
            Some(t) => t,
            None => current,
        }
    } else {
        current
    }
}

/// Finds the type of a column over all rows.
pub fn column_type(rows: &Vec<Vec<ScalarExpr>>, c: usize, arity: usize) -> (t: DataType)
    requires
        c < arity,
        forall|i: int| 0 <= i < rows@.len() ==> (#[trigger] rows@[i])@.len() == arity,
    ensures
        t@ == cell_type(query::rows_view(rows@), c as int, rows@.len() as int),
{
    let mut t = DataType::Null;
    let mut n: usize = 0;
    while n < rows.len()
        invariant
            n <= rows.len(),
            c < arity,
            forall|i: int| 0 <= i < rows@.len() ==> (#[trigger] rows@[i])@.len() == arity,
            t@ == cell_type(query::rows_view(rows@), c as int, n as int),
        decreases rows.len() - n,
    {
        assert(query::rows_view(rows@)[n as int] == query::scalars_view(rows@[n as int]@));
        t = merge_types(t, rows[n][c].data_type());
        n = n + 1;
    }
    t
}

/// Binds the rows of a `VALUES` list.
pub fn bind_values_rows<C: Catalog>(
    rows: &Vec<Vec<Expr>>,
    arity: usize,
    catalog: &C,
    scope: &mut ScopeStack,
) -> (made: Result<QueryPlan, PlanError>)
    ensures
        error::query_outcome(made) == bound_values(
            rows@,
            arity as nat,
            catalog.model(),
            old(scope).rows(),
        ),
        final(scope).frames@ == old(scope).frames@,
{
    let empty = Schema::empty();
    let mut out: Vec<Vec<ScalarExpr>> = Vec::new();
    assert(query::rows_view(out@) =~= Seq::empty());
    let mut i: usize = 0;
    while i < rows.len()
        invariant
            i <= rows.len(),
            scope.frames@ == old(scope).frames@,
            empty@ == schema::empty_schema(),
            out.len() == i,
            forall|j: int| 0 <= j < i ==> (#[trigger] out@[j])@.len() == arity,
            bound_rows(
                rows@,
                i as int,
                query::rows_view(out@),
                arity as nat,
                catalog.model(),
                old(scope).rows(),
            ) == bound_rows(
                rows@,
                0,
                Seq::empty(),
                arity as nat,
                catalog.model(),
                old(scope).rows(),
            ),
        decreases rows.len() - i,
    {
        let row = &rows[i];
        if row.len() != arity {
            return Err(
                PlanError::TypeMismatch(
                    cat6(
                        "VALUES row ",
                        show_usize(i + 1).as_str(),
                        " has ",
                        show_usize(row.len()).as_str(),
                        " column(s), expected ",
                        show_usize(arity).as_str(),
                    ),
                ),
            );
        }
        let cells = bind_exprs(row, &empty, catalog, scope)?;
        proof {
            bound_exprs_length(
                row@,
                0,
                Seq::empty(),
                empty@,
                catalog.model(),
                old(scope).rows(),
            );
            query::lemma_rows_push(out@, cells);
        }
        out.push(cells);
        i = i + 1;
    }
    let ghost wanted = values_fields(query::rows_view(out@), arity as nat);
    let mut fields: Vec<Field> = Vec::new();
    let mut c: usize = 0;
    while c < arity
        invariant
            c <= arity,
            fields.len() == c,
            wanted == values_fields(query::rows_view(out@), arity as nat),
            forall|j: int| 0 <= j < out@.len() ==> (#[trigger] out@[j])@.len() == arity,
            forall|j: int| 0 <= j < c ==> (#[trigger] fields@[j])@ == wanted[j],
        decreases arity - c,
    {
        let name = cat2("column", show_usize(c + 1).as_str());
        fields.push(Field::nullable(name, column_type(&out, c, arity)));
        c = c + 1;
    }
    assert(schema::fields_view(fields@) =~= wanted);
    let schema = schema_or_mismatch("VALUES schema: ", fields)?;
    Ok(QueryPlan::Values { rows: out, schema })
}

/// A list of expressions is bound to as many expressions.
pub proof fn bound_exprs_length(
    list: Seq<Expr>,
    i: int,
    acc: Seq<ScalarExprView>,
    input: SchemaView,
    cat: CatalogView,
    scope: Seq<SchemaView>,
)
    requires
        0 <= i <= list.len(),
    ensures
        bound::bound_exprs(list, i, acc, input, cat, scope) matches Ok(out) ==> out.len()
            == acc.len() + list.len() - i,
    decreases list.len() - i,
{
    if i < list.len() {
        match bound::bound_expr(list[i], input, cat, scope) {
            Err(_) => {},
            Ok(x) => bound_exprs_length(list, i + 1, acc.push(x), input, cat, scope),
        }
    }
}

/// The row source of an `INSERT`.
pub open spec fn bound_source(
    source: InsertSource,
    arity: nat,
    cat: CatalogView,
    scope: Seq<SchemaView>,
) -> Result<QueryPlanView, PlanErrorView> {
    match source {
        InsertSource::DefaultValues => Ok(
            QueryPlanView::Values { rows: seq![Seq::empty()], schema: schema::empty_schema() },
        ),
        InsertSource::Values(rows) => bound_values(rows@, arity, cat, scope),
        InsertSource::Select(select) => match bound::bound_select(*select, cat, scope) {
            Err(e) => Err(e),
            Ok(p) => {
                let n = query::query_schema(p).fields.len();
                if n != arity {
                    Err(
                        PlanErrorView::TypeMismatch(
                            "INSERT column count ("@ + text::decimal(arity)
                                + ") does not match SELECT arity ("@ + text::decimal(n) + ")"@,
                        ),
                    )
                } else {
                    Ok(p)
                }
            },
        },
    }
}

fn bind_source<C: Catalog>(
    source: &InsertSource,
    arity: usize,
    catalog: &C,
    scope: &mut ScopeStack,
) -> (made: Result<QueryPlan, PlanError>)
    ensures
        error::query_outcome(made) == bound_source(
            *source,
            arity as nat,
            catalog.model(),
            old(scope).rows(),
        ),
        final(scope).frames@ == old(scope).frames@,
{
    match source {
        InsertSource::DefaultValues => {
            let row: Vec<ScalarExpr> = Vec::new();
            let mut rows: Vec<Vec<ScalarExpr>> = Vec::new();
            assert(query::scalars_view(row@) =~= Seq::empty());
            proof {
                query::lemma_rows_push(rows@, row);
            }
            rows.push(row);
            assert(query::rows_view(rows@) =~= seq![Seq::<ScalarExprView>::empty()]);
            Ok(QueryPlan::Values { rows, schema: Schema::empty() })
        },
        InsertSource::Values(rows) => bind_values_rows(rows, arity, catalog, scope),
        InsertSource::Select(select) => {
            let plan = bind_select(select, catalog, scope)?;
            let n: usize = plan.schema().len();
            if n != arity {
                return Err(
                    PlanError::TypeMismatch(
                        cat5(
                            "INSERT column count (",
                            show_usize(arity).as_str(),
                            ") does not match SELECT arity (",
                            show_usize(n).as_str(),
                            ")",
                        ),
                    ),
                );
            }
            Ok(plan)
        },
    }
}

/// The positions of the columns of a conflict target from the `i`-th on.
pub open spec fn conflict_columns(
    cols: Seq<Identifier>,
    i: int,
    acc: Seq<usize>,
    s: SchemaView,
) -> Result<Seq<usize>, PlanErrorView>
    decreases cols.len() - i,
{
    if i < 0 || i >= cols.len() {
        Ok(acc)
    } else {
        match schema::find_field(s, cols[i].value@) {
            Some(at) => conflict_columns(cols, i + 1, acc.push(at as usize), s),
            None => Err(PlanErrorView::ColumnNotFound(cols[i].value@)),
        }
    }
}

/// A conflict target with its outcome as models.
pub open spec fn target_outcome(r: Result<ConflictTarget, PlanError>) -> Result<
    Seq<usize>,
    PlanErrorView,
> {
    match r {
        Ok(t) => Ok(t.columns@),
        Err(e) => Err(e@),
    }
}

/// Resolves the columns of a conflict target.
pub fn bind_conflict_target(ct: &ConflictColumns, s: &Schema) -> (made: Result<
    ConflictTarget,
    PlanError,
>)
    ensures
        target_outcome(made) == conflict_columns(ct.columns@, 0, Seq::empty(), s@),
{
    let mut columns: Vec<usize> = Vec::new();
    let mut i: usize = 0;
    while i < ct.columns.len()
        invariant
            i <= ct.columns.len(),
            conflict_columns(ct.columns@, i as int, columns@, s@) == conflict_columns(
                ct.columns@,
                0,
                Seq::empty(),
                s@,
            ),
        decreases ct.columns.len() - i,
    {
        match s.find(ct.columns[i].value.as_str()) {
            Some(at) => columns.push(at),
            None => return Err(PlanError::ColumnNotFound(ct.columns[i].value.clone())),
        }
        i = i + 1;
    }
    Ok(ConflictTarget { columns })
}

/// Whether an assignment to the given column is among the given ones.
pub open spec fn assigned(acc: Seq<(usize, ScalarExprView)>, at: usize) -> bool {
    exists|k: int| 0 <= k < acc.len() && (#[trigger] acc[k]).0 == at
}

/// The assignments of a `SET` list from the `i`-th on. No column is assigned
/// twice.
pub open spec fn bound_assignments(
    set: Seq<Assignment>,
    i: int,
    acc: Seq<(usize, ScalarExprView)>,
    s: SchemaView,
    cat: CatalogView,
    scope: Seq<SchemaView>,
) -> Result<Seq<(usize, ScalarExprView)>, PlanErrorView>
    decreases set.len() - i,
{
    if i < 0 || i >= set.len() {
        Ok(acc)
    } else {
        match schema::find_field(s, set[i].target.value@) {
            None => Err(PlanErrorView::ColumnNotFound(set[i].target.value@)),
            Some(at) => if assigned(acc, at as usize) {
                Err(PlanErrorView::DuplicateColumn(set[i].target.value@))
            } else {
                match bound::bound_expr(set[i].value, s, cat, scope) {
                    Err(e) => Err(e),
                    Ok(x) => bound_assignments(
                        set,
                        i + 1,
                        acc.push((at as usize, x)),
                        s,
                        cat,
                        scope,
                    ),
                }
            },
        }
    }
}

/// Assignments with their outcome as models.
pub open spec fn assignments_outcome(r: Result<Vec<(usize, ScalarExpr)>, PlanError>) -> Result<
    Seq<(usize, ScalarExprView)>,
    PlanErrorView,
> {
    match r {
        Ok(x) => Ok(plan::assignments_view(x@)),
        Err(e) => Err(e@),
    }
}

/// Tells whether an assignment to the given column is among the given ones.
pub fn is_assigned(out: &Vec<(usize, ScalarExpr)>, at: usize) -> (yes: bool)
    ensures
        yes == assigned(plan::assignments_view(out@), at),
{
    let mut k: usize = 0;
    while k < out.len()
        invariant
            k <= out.len(),
            forall|j: int| 0 <= j < k ==> (#[trigger] plan::assignments_view(out@)[j]).0 != at,
        decreases out.len() - k,
    {
        if out[k].0 == at {
            assert(plan::assignments_view(out@)[k as int].0 == at);
            return true;
        }
        k = k + 1;
    }
    false
}

/// Binds the assignments of a `SET` list.
pub fn bind_assignments<C: Catalog>(
    set: &Vec<Assignment>,
    s: &Schema,
    catalog: &C,
    scope: &mut ScopeStack,
) -> (made: Result<Vec<(usize, ScalarExpr)>, PlanError>)
    ensures
        assignments_outcome(made) == bound_assignments(
            set@,
            0,
            Seq::empty(),
            s@,
            catalog.model(),
            old(scope).rows(),
        ),
        final(scope).frames@ == old(scope).frames@,
{
    let mut out: Vec<(usize, ScalarExpr)> = Vec::new();
    assert(plan::assignments_view(out@) =~= Seq::empty());
    let mut i: usize = 0;
    while i < set.len()
        invariant
            i <= set.len(),
            scope.frames@ == old(scope).frames@,
            bound_assignments(
                set@,
                i as int,
                plan::assignments_view(out@),
                s@,
                catalog.model(),
                old(scope).rows(),
            ) == bound_assignments(
                set@,
                0,
                Seq::empty(),
                s@,
                catalog.model(),
                old(scope).rows(),
            ),
        decreases set.len() - i,
    {
        let target = &set[i].target.value;
        let at: usize = match s.find(target.as_str()) {
            Some(at) => at,
            None => return Err(PlanError::ColumnNotFound(target.clone())),
        };
        if is_assigned(&out, at) {
            return Err(PlanError::DuplicateColumn(target.clone()));
        }
        let expr = bind_expr(&set[i].value, s, catalog, scope)?;
        proof {
            plan::lemma_assignments_push(out@, (at, expr));
        }
        out.push((at, expr));
        i = i + 1;
    }
    Ok(out)
}

/// Whether a `DO UPDATE` branch refers to the row proposed for insertion.
pub open spec fn update_names_excluded(set: Seq<Assignment>, pred: Option<Expr>) -> bool {
    ||| exists|i: int| 0 <= i < set.len() && excluded::refers(#[trigger] set[i].value)
    ||| excluded::clause_names(pred)
}

fn branch_names_excluded(set: &Vec<Assignment>, pred: &Option<Expr>) -> (yes: bool)
    ensures
        yes == update_names_excluded(set@, *pred),
{
    let mut i: usize = 0;
    while i < set.len()
        invariant
            i <= set.len(),
            forall|j: int| 0 <= j < i ==> !excluded::refers(#[trigger] set@[j].value),
        decreases set.len() - i,
    {
        if names_in(&set[i].value) {
            return true;
        }
        i = i + 1;
    }
    names_in_clause(pred)
}

/// The predicate of a `DO UPDATE` branch.
pub open spec fn conflict_predicate(
    pred: Option<Expr>,
    s: SchemaView,
    cat: CatalogView,
    scope: Seq<SchemaView>,
) -> Result<Option<ScalarExprView>, PlanErrorView> {
    match pred {
        None => Ok(None),
        Some(e) => match bound::bound_expr(e, s, cat, scope) {
            Err(err) => Err(err),
            Ok(x) => if binder::typing::truth_type(query::scalar_type(x)) {
                Ok(Some(x))
            } else {
                Err(
                    PlanErrorView::TypeMismatch(
                        "ON CONFLICT DO UPDATE WHERE predicate must be boolean"@,
                    ),
                )
            },
        },
    }
}

/// What an `ON CONFLICT` clause is bound to.
pub open spec fn bound_conflict(
    oc: OnConflict,
    s: SchemaView,
    cat: CatalogView,
    scope: Seq<SchemaView>,
) -> Result<LogicalOnConflictView, PlanErrorView> {
    match oc {
        OnConflict::DoNothing { target } => match target {
            None => Ok(LogicalOnConflictView::DoNothing { target: None }),
            Some(ct) => match conflict_columns(ct.columns@, 0, Seq::empty(), s) {
                Err(e) => Err(e),
                Ok(columns) => Ok(
                    LogicalOnConflictView::DoNothing {
                        target: Some(ConflictTargetView { columns }),
                    },
                ),
            },
        },
        OnConflict::DoUpdate { target, set, where_clause } => match conflict_columns(
            target.columns@,
            0,
            Seq::empty(),
            s,
        ) {
            Err(e) => Err(e),
            Ok(columns) => if update_names_excluded(set@, where_clause) {
                Err(PlanErrorView::NotSupported("EXCLUDED in ON CONFLICT DO UPDATE"@))
            } else {
                match bound_assignments(set@, 0, Seq::empty(), s, cat, scope) {
                    Err(e) => Err(e),
                    Ok(assignments) => match conflict_predicate(where_clause, s, cat, scope) {
                        Err(e) => Err(e),
                        Ok(where_clause) => Ok(
                            LogicalOnConflictView::DoUpdate {
                                target: ConflictTargetView { columns },
                                assignments,
                                where_clause,
                            },
                        ),
                    },
                }
            },
        },
    }
}

/// An `ON CONFLICT` clause with its outcome as models.
pub open spec fn conflict_outcome(r: Result<LogicalOnConflict, PlanError>) -> Result<
    LogicalOnConflictView,
    PlanErrorView,
> {
    match r {
        Ok(x) => Ok(x@),
        Err(e) => Err(e@),
    }
}

/// Binds an `ON CONFLICT` clause.
pub fn bind_on_conflict<C: Catalog>(
    oc: &OnConflict,
    s: &Schema,
    catalog: &C,
    scope: &mut ScopeStack,
) -> (made: Result<LogicalOnConflict, PlanError>)
    ensures
        conflict_outcome(made) == bound_conflict(*oc, s@, catalog.model(), old(scope).rows()),
        final(scope).frames@ == old(scope).frames@,
{
    match oc {
        OnConflict::DoNothing { target } => match target {
            None => Ok(LogicalOnConflict::DoNothing { target: None }),
            Some(ct) => {
                let target = bind_conflict_target(ct, s)?;
                Ok(LogicalOnConflict::DoNothing { target: Some(target) })
            },
        },
        OnConflict::DoUpdate { target, set, where_clause } => {
            let target = bind_conflict_target(target, s)?;
            if branch_names_excluded(set, where_clause) {
                return Err(PlanError::NotSupported("EXCLUDED in ON CONFLICT DO UPDATE"));
            }
            let assignments = bind_assignments(set, s, catalog, scope)?;
            let predicate = match where_clause {
                None => None,
                Some(e) => {
                    let x = bind_expr(e, s, catalog, scope)?;
                    let t = x.data_type();
                    if !t.is_bool() && !t.is_null() {
                        return Err(
                            PlanError::TypeMismatch(
                                text::owned(
                                    "ON CONFLICT DO UPDATE WHERE predicate must be boolean",
                                ),
                            ),
                        );
                    }
                    Some(x)
                },
            };
            Ok(LogicalOnConflict::DoUpdate { target, assignments, where_clause: predicate })
        },
    }
}

/// The named expressions of a `RETURNING` list from the `i`-th item on.
pub open spec fn bound_returning(
    items: Seq<SelectItem>,
    i: int,
    acc: Seq<(ScalarExprView, Seq<char>)>,
    s: SchemaView,
    cat: CatalogView,
    scope: Seq<SchemaView>,
) -> Result<Seq<(ScalarExprView, Seq<char>)>, PlanErrorView>
    decreases items.len() - i,
{
    if i < 0 || i >= items.len() {
        Ok(acc)
    } else {
        match items[i] {
            SelectItem::Expr { expr, alias } => match bound::bound_expr(expr, s, cat, scope) {
                Err(e) => Err(e),
                Ok(x) => bound_returning(
                    items,
                    i + 1,
                    acc.push((x, names::named_output(expr, x, alias))),
                    s,
                    cat,
                    scope,
                ),
            },
            _ => Err(PlanErrorView::NotSupported("wildcard in RETURNING clause"@)),
        }
    }
}

/// Binds a `RETURNING` list.
pub fn bind_returning<C: Catalog>(
    items: &Vec<SelectItem>,
    s: &Schema,
    catalog: &C,
    scope: &mut ScopeStack,
) -> (made: Result<Vec<(ScalarExpr, String)>, PlanError>)
    ensures
        error::outputs_outcome(made) == bound_returning(
            items@,
            0,
            Seq::empty(),
            s@,
            catalog.model(),
            old(scope).rows(),
        ),
        final(scope).frames@ == old(scope).frames@,
{
    let mut out: Vec<(ScalarExpr, String)> = Vec::new();
    assert(query::outputs_view(out@) =~= Seq::empty());
    let mut i: usize = 0;
    while i < items.len()
        invariant
            i <= items.len(),
            scope.frames@ == old(scope).frames@,
            bound_returning(
                items@,
                i as int,
                query::outputs_view(out@),
                s@,
                catalog.model(),
                old(scope).rows(),
            ) == bound_returning(
                items@,
                0,
                Seq::empty(),
                s@,
                catalog.model(),
                old(scope).rows(),
            ),
        decreases items.len() - i,
    {
        match &items[i] {
            SelectItem::Expr { expr, alias } => {
                let e = bind_expr(expr, s, catalog, scope)?;
                let name = output_column_name(expr, &e, alias);
                proof {
                    query::lemma_outputs_push(out@, (e, name));
                }
                out.push((e, name));
            },
            _ => return Err(PlanError::NotSupported("wildcard in RETURNING clause")),
        }
        i = i + 1;
    }
    Ok(out)
}

/// The columns of a `RETURNING` list.
pub open spec fn returning_schema(outs: Seq<(ScalarExprView, Seq<char>)>) -> Result<
    SchemaView,
    PlanErrorView,
> {
    error::labelled_schema("RETURNING schema: "@, relation::output_fields(outs))
}

/// Makes the columns of a `RETURNING` list.
pub fn build_returning_schema(outs: &Vec<(ScalarExpr, String)>) -> (made: Result<
    Schema,
    PlanError,
>)
    ensures
        error::schema_outcome(made) == returning_schema(query::outputs_view(outs@)),
{
    output_schema("RETURNING schema: ", outs)
}

/// A `RETURNING` list with its columns.
pub open spec fn bound_output_row(
    items: Seq<SelectItem>,
    s: SchemaView,
    cat: CatalogView,
    scope: Seq<SchemaView>,
) -> Result<(Seq<(ScalarExprView, Seq<char>)>, SchemaView), PlanErrorView> {
    match bound_returning(items, 0, Seq::empty(), s, cat, scope) {
        Err(e) => Err(e),
        Ok(outs) => match returning_schema(outs) {
            Err(e) => Err(e),
            Ok(schema) => Ok((outs, schema)),
        },
    }
}

/// What an `INSERT` is bound to.
pub open spec fn bound_insert(s: InsertStmt, cat: CatalogView, scope: Seq<SchemaView>) -> Result<
    LogicalPlanView,
    PlanErrorView,
> {
    let table = names::simple_name(s.table);
    match table_columns(table, cat) {
        Err(e) => Err(e),
        Ok(row) => match target_columns(s.columns@, row) {
            Err(e) => Err(e),
            Ok(columns) => match bound_source(s.source, columns.len(), cat, scope) {
                Err(e) => Err(e),
                Ok(source) => {
                    let on_conflict = match s.on_conflict {
                        None => Ok(None),
                        Some(oc) => match bound_conflict(oc, row, cat, scope) {
                            Err(e) => Err(e),
                            Ok(x) => Ok(Some(x)),
                        },
                    };
                    match on_conflict {
                        Err(e) => Err(e),
                        Ok(on_conflict) => match bound_output_row(
                            s.returning@,
                            row,
                            cat,
                            scope,
                        ) {
                            Err(e) => Err(e),
                            Ok((returning, schema)) => Ok(
                                LogicalPlanView::Insert {
                                    table,
                                    columns,
                                    source,
                                    on_conflict,
                                    returning,
                                    schema,
                                },
                            ),
                        },
                    }
                },
            },
        },
    }
}

/// Binds an `INSERT` statement.
pub fn bind_insert<C: Catalog>(
    s: &InsertStmt,
    catalog: &C,
    scope: &mut ScopeStack,
) -> (made: Result<
    LogicalPlan,
    PlanError,
>)
    ensures
        error::plan_outcome(made) == bound_insert(*s, catalog.model(), old(scope).rows()),
        final(scope).frames@ == old(scope).frames@,
{
    let table = object_name_simple(&s.table);
    let row = find_table(table.as_str(), catalog)?;
    let columns = resolve_target_columns(&s.columns, &row)?;
    let source = bind_source(&s.source, columns.len(), catalog, scope)?;
    let on_conflict = match &s.on_conflict {
        None => None,
        Some(oc) => Some(bind_on_conflict(oc, &row, catalog, scope)?),
    };
    let returning = bind_returning(&s.returning, &row, catalog, scope)?;
    let schema = build_returning_schema(&returning)?;
    Ok(LogicalPlan::Insert { table, columns, source, on_conflict, returning, schema })
}

/// The scan of a table under an optional filter.
pub open spec fn filtered_scan(
    table: Seq<char>,
    row: SchemaView,
    pred: Option<Expr>,
    cat: CatalogView,
    scope: Seq<SchemaView>,
) -> Result<QueryPlanView, PlanErrorView> {
    bound::filtered(
        "WHERE predicate must be boolean, got "@,
        QueryPlanView::Scan { table, schema: row, projection: None },
        pred,
        cat,
        scope,
    )
}

fn bind_filtered_scan<C: Catalog>(
    table: &str,
    row: &Schema,
    pred: &Option<Expr>,
    catalog: &C,
    scope: &mut ScopeStack,
) -> (made: Result<QueryPlan, PlanError>)
    ensures
        error::query_outcome(made) == filtered_scan(
            table@,
            row@,
            *pred,
            catalog.model(),
            old(scope).rows(),
        ),
        final(scope).frames@ == old(scope).frames@,
{
    let scan = QueryPlan::Scan {
        table: text::owned(table),
        schema: row.duplicate(),
        projection: None,
    };
    bind_filter("WHERE predicate must be boolean, got ", scan, pred, catalog, scope)
}

/// What an `UPDATE` is bound to.
pub open spec fn bound_update(s: UpdateStmt, cat: CatalogView, scope: Seq<SchemaView>) -> Result<
    LogicalPlanView,
    PlanErrorView,
> {
    let table = names::simple_name(s.table);
    if s.from@.len() > 0 {
        Err(
            PlanErrorView::NotSupported(
                "UPDATE … FROM other_table (join binding lands in wave 3)"@,
            ),
        )
    } else {
        match table_columns(table, cat) {
            Err(e) => Err(e),
            Ok(row) => match filtered_scan(table, row, s.where_clause, cat, scope) {
                Err(e) => Err(e),
                Ok(input) => match bound_assignments(s.set@, 0, Seq::empty(), row, cat, scope) {
                    Err(e) => Err(e),
                    Ok(assignments) => match bound_output_row(s.returning@, row, cat, scope) {
                        Err(e) => Err(e),
                        Ok((returning, schema)) => Ok(
                            LogicalPlanView::Update {
                                table,
                                assignments,
                                input,
                                returning,
                                schema,
                            },
                        ),
                    },
                },
            },
        }
    }
}

/// Binds an `UPDATE` statement.
pub fn bind_update<C: Catalog>(
    s: &UpdateStmt,
    catalog: &C,
    scope: &mut ScopeStack,
) -> (made: Result<
    LogicalPlan,
    PlanError,
>)
    ensures
        error::plan_outcome(made) == bound_update(*s, catalog.model(), old(scope).rows()),
        final(scope).frames@ == old(scope).frames@,
{
    if s.from.len() > 0 {
        return Err(
            PlanError::NotSupported("UPDATE … FROM other_table (join binding lands in wave 3)"),
        );
    }
    let table = object_name_simple(&s.table);
    let row = find_table(table.as_str(), catalog)?;
    let input = bind_filtered_scan(table.as_str(), &row, &s.where_clause, catalog, scope)?;
    let assignments = bind_assignments(&s.set, &row, catalog, scope)?;
    let returning = bind_returning(&s.returning, &row, catalog, scope)?;
    let schema = build_returning_schema(&returning)?;
    Ok(LogicalPlan::Update { table, assignments, input, returning, schema })
}

/// What a `DELETE` is bound to.
pub open spec fn bound_delete(s: DeleteStmt, cat: CatalogView, scope: Seq<SchemaView>) -> Result<
    LogicalPlanView,
    PlanErrorView,
> {
    let table = names::simple_name(s.table);
    if s.using@.len() > 0 {
        Err(
            PlanErrorView::NotSupported(
                "DELETE … USING other_table (join binding lands in wave 3)"@,
            ),
        )
    } else {
        match table_columns(table, cat) {
            Err(e) => Err(e),
            Ok(row) => match filtered_scan(table, row, s.where_clause, cat, scope) {
                Err(e) => Err(e),
                Ok(input) => match bound_output_row(s.returning@, row, cat, scope) {
                    Err(e) => Err(e),
                    Ok((returning, schema)) => Ok(
                        LogicalPlanView::Delete { table, input, returning, schema },
                    ),
                },
            },
        }
    }
}

/// Binds a `DELETE` statement.
pub fn bind_delete<C: Catalog>(
    s: &DeleteStmt,
    catalog: &C,
    scope: &mut ScopeStack,
) -> (made: Result<
    LogicalPlan,
    PlanError,
>)
    ensures
        error::plan_outcome(made) == bound_delete(*s, catalog.model(), old(scope).rows()),
        final(scope).frames@ == old(scope).frames@,
{
    if s.using.len() > 0 {
        return Err(
            PlanError::NotSupported("DELETE … USING other_table (join binding lands in wave 3)"),
        );
    }
    let table = object_name_simple(&s.table);
    let row = find_table(table.as_str(), catalog)?;
    let input = bind_filtered_scan(table.as_str(), &row, &s.where_clause, catalog, scope)?;
    let returning = bind_returning(&s.returning, &row, catalog, scope)?;
    let schema = build_returning_schema(&returning)?;
    Ok(LogicalPlan::Delete { table, input, returning, schema })
}

/// The tables of the given names from the `i`-th on, all of which exist.
pub open spec fn known_tables(
    names: Seq<ObjectName>,
    i: int,
    acc: Seq<Seq<char>>,
    cat: CatalogView,
) -> Result<Seq<Seq<char>>, PlanErrorView>
    decreases names.len() - i,
{
    if i < 0 || i >= names.len() {
        Ok(acc)
    } else {
        let name = names::simple_name(names[i]);
        if (cat.table)(name) is None {
            Err(PlanErrorView::TableNotFound(name))
        } else {
            known_tables(names, i + 1, acc.push(name), cat)
        }
    }
}

/// What a `TRUNCATE` is bound to.
pub open spec fn bound_truncate(s: TruncateStmt, cat: CatalogView) -> Result<
    LogicalPlanView,
    PlanErrorView,
> {
    match known_tables(s.tables@, 0, Seq::empty(), cat) {
        Err(e) => Err(e),
        Ok(tables) => Ok(
            LogicalPlanView::Truncate {
                tables,
                restart_identity: s.restart_identity,
                cascade: s.cascade,
                schema: schema::empty_schema(),
            },
        ),
    }
}

/// Binds a `TRUNCATE` statement.
pub fn bind_truncate<C: Catalog>(s: &TruncateStmt, catalog: &C) -> (made: Result<
    LogicalPlan,
    PlanError,
>)
    ensures
        error::plan_outcome(made) == bound_truncate(*s, catalog.model()),
{
    let mut tables: Vec<String> = Vec::new();
    assert(list::strings_view(tables@) =~= Seq::empty());
    let mut i: usize = 0;
    while i < s.tables.len()
        invariant
            i <= s.tables.len(),
            known_tables(
                s.tables@,
                i as int,
                list::strings_view(tables@),
                catalog.model(),
            ) == known_tables(s.tables@, 0, Seq::empty(), catalog.model()),
        decreases s.tables.len() - i,
    {
        let name = object_name_simple(&s.tables[i]);
        if catalog.lookup_table(name.as_str()).is_none() {
            return Err(PlanError::TableNotFound(name));
        }
        proof {
            list::lemma_strings_push(tables@, name);
        }
        tables.push(name);
        i = i + 1;
    }
    Ok(
        LogicalPlan::Truncate {
            tables,
            restart_identity: s.restart_identity,
            cascade: s.cascade,
            schema: Schema::empty(),
        },
    )
}

/// What is known of the first `i` columns of a list that was accepted so far.
spec fn resolved_so_far(cols: Seq<Identifier>, i: int, acc: Seq<usize>, s: SchemaView) -> bool {
    &&& acc.len() == i
    &&& forall|j: int|
        0 <= j < i ==> (#[trigger] acc[j]) < s.fields.len() && text::same_fold(
            s.fields[acc[j] as int].name,
            cols[j].value@,
        )
    &&& forall|j: int, k: int|
        0 <= j < k < i ==> !text::same_fold(
            (#[trigger] cols[j]).value@,
            (#[trigger] cols[k]).value@,
        )
}

proof fn lemma_distinct_columns(
    cols: Seq<Identifier>,
    i: int,
    acc: Seq<usize>,
    s: SchemaView,
) -> (out: Seq<usize>)
    requires
        0 <= i <= cols.len(),
        s.fields.len() <= usize::MAX,
        resolved_so_far(cols, i, acc, s),
        distinct_columns(cols, i, acc, s) is Ok,
    ensures
        distinct_columns(cols, i, acc, s) == Ok::<Seq<usize>, PlanErrorView>(out),
        resolved_so_far(cols, cols.len() as int, out, s),
    decreases cols.len() - i,
{
    if i == cols.len() {
        acc
    } else {
        schema::find_gives_first(s.fields, cols[i].value@, 0);
        let at = schema::find_field(s, cols[i].value@)->Some_0;
        let next = acc.push(at as usize);
        assert forall|j: int, k: int| 0 <= j < k < i + 1 implies !text::same_fold(
            (#[trigger] cols[j]).value@,
            (#[trigger] cols[k]).value@,
        ) by {
            if k == i {
                assert(!text::same_fold(cols[j].value@, cols[i].value@));
            }
        }
        lemma_distinct_columns(cols, i + 1, next, s)
    }
}

/// The columns that an accepted `INSERT` fills are distinct columns of its
/// table, as many as were listed.
pub proof fn insert_columns_are_distinct(cols: Seq<Identifier>, s: SchemaView)
    requires
        s.fields.len() <= usize::MAX,
    ensures
        target_columns(cols, s) matches Ok(out) ==> {
            &&& out.len() == if cols.len() == 0 {
                s.fields.len()
            } else {
                cols.len()
            }
            &&& forall|i: int| 0 <= i < out.len() ==> (#[trigger] out[i]) < s.fields.len()
            &&& forall|i: int, j: int| 0 <= i < j < out.len() ==> out[i] != out[j]
        },
{
    if cols.len() > 0 && target_columns(cols, s) is Ok {
        let out = lemma_distinct_columns(cols, 0, Seq::empty(), s);
        assert forall|i: int, j: int| 0 <= i < j < out.len() implies out[i] != out[j] by {
            assert(!text::same_fold(cols[i].value@, cols[j].value@));
        }
    }
}

proof fn lemma_assignments(
    set: Seq<Assignment>,
    i: int,
    acc: Seq<(usize, ScalarExprView)>,
    s: SchemaView,
    cat: CatalogView,
    scope: Seq<SchemaView>,
)
    requires
        0 <= i <= set.len(),
        s.fields.len() <= usize::MAX,
        acc.len() == i,
        forall|k: int| 0 <= k < i ==> (#[trigger] acc[k]).0 < s.fields.len(),
        forall|j: int, k: int| 0 <= j < k < i ==> acc[j].0 != acc[k].0,
    ensures
        bound_assignments(set, i, acc, s, cat, scope) matches Ok(out) ==> {
            &&& out.len() == set.len()
            &&& forall|k: int| 0 <= k < out.len() ==> (#[trigger] out[k]).0 < s.fields.len()
            &&& forall|j: int, k: int| 0 <= j < k < out.len() ==> out[j].0 != out[k].0
        },
    decreases set.len() - i,
{
    if i < set.len() {
        schema::find_gives_first(s.fields, set[i].target.value@, 0);
        match schema::find_field(s, set[i].target.value@) {
            None => {},
            Some(at) => match bound::bound_expr(set[i].value, s, cat, scope) {
                Err(_) => {},
                Ok(x) => if !assigned(acc, at as usize) {
                    lemma_assignments(set, i + 1, acc.push((at as usize, x)), s, cat, scope);
                },
            },
        }
    }
}

/// An accepted `SET` list assigns every column at most once, and only columns
/// of the table.
pub proof fn assignments_are_distinct(
    set: Seq<Assignment>,
    s: SchemaView,
    cat: CatalogView,
    scope: Seq<SchemaView>,
)
    requires
        s.fields.len() <= usize::MAX,
    ensures
        bound_assignments(set, 0, Seq::empty(), s, cat, scope) matches Ok(out) ==> {
            &&& out.len() == set.len()
            &&& forall|k: int| 0 <= k < out.len() ==> (#[trigger] out[k]).0 < s.fields.len()
            &&& forall|j: int, k: int| 0 <= j < k < out.len() ==> out[j].0 != out[k].0
        },
{
    lemma_assignments(set, 0, Seq::empty(), s, cat, scope);
}

proof fn lemma_rows(
    rows: Seq<Vec<Expr>>,
    i: int,
    acc: Seq<Seq<ScalarExprView>>,
    arity: nat,
    cat: CatalogView,
    scope: Seq<SchemaView>,
)
    requires
        0 <= i <= rows.len(),
        acc.len() == i,
        forall|k: int| 0 <= k < i ==> (#[trigger] acc[k]).len() == arity,
    ensures
        bound_rows(rows, i, acc, arity, cat, scope) matches Ok(out) ==> {
            &&& out.len() == rows.len()
            &&& forall|k: int| 0 <= k < out.len() ==> (#[trigger] out[k]).len() == arity
        },
    decreases rows.len() - i,
{
    if i < rows.len() && rows[i]@.len() == arity {
        bound_exprs_length(rows[i]@, 0, Seq::empty(), schema::empty_schema(), cat, scope);
        match bound::bound_exprs(rows[i]@, 0, Seq::empty(), schema::empty_schema(), cat, scope) {
            Err(_) => {},
            Ok(cells) => lemma_rows(rows, i + 1, acc.push(cells), arity, cat, scope),
        }
    }
}

/// The rows of an accepted `VALUES` list all have the demanded number of cells,
/// and the list has as many columns.
pub proof fn values_are_rectangular(
    rows: Seq<Vec<Expr>>,
    arity: nat,
    cat: CatalogView,
    scope: Seq<SchemaView>,
)
    ensures
        bound_values(rows, arity, cat, scope) matches Ok(p) ==> {
            &&& p matches QueryPlanView::Values { rows: cells, schema }
            &&& cells.len() == rows.len()
            &&& forall|k: int| 0 <= k < cells.len() ==> (#[trigger] cells[k]).len() == arity
            &&& schema.fields.len() == arity
        },
{
    lemma_rows(rows, 0, Seq::empty(), arity, cat, scope);
}

proof fn lemma_known_tables(
    names: Seq<ObjectName>,
    i: int,
    acc: Seq<Seq<char>>,
    cat: CatalogView,
)
    requires
        0 <= i <= names.len(),
        acc =~= Seq::new(i as nat, |k: int| names::simple_name(names[k])),
        forall|k: int| 0 <= k < i ==> (cat.table)(names::simple_name(#[trigger] names[k])) is Some,
    ensures
        match known_tables(names, i, acc, cat) {
            Ok(out) => {
                &&& out == Seq::new(names.len(), |k: int| names::simple_name(names[k]))
                &&& forall|k: int|
                    0 <= k < names.len() ==> (cat.table)(
                        names::simple_name(#[trigger] names[k]),
                    ) is Some
            },
            Err(_) => exists|k: int|
                0 <= k < names.len() && (cat.table)(names::simple_name(#[trigger] names[k])) is None,
        },
    decreases names.len() - i,
{
    if i < names.len() {
        let name = names::simple_name(names[i]);
        if (cat.table)(name) is Some {
            lemma_known_tables(names, i + 1, acc.push(name), cat);
        }
    }
}

/// A `TRUNCATE` is accepted exactly when all its tables exist, and then names
/// them all in order.
pub proof fn truncate_needs_known_tables(s: TruncateStmt, cat: CatalogView)
    ensures
        bound_truncate(s, cat) is Ok <==> forall|k: int|
            0 <= k < s.tables@.len() ==> (cat.table)(
                names::simple_name(#[trigger] s.tables@[k]),
            ) is Some,
        bound_truncate(s, cat) matches Ok(p) ==> {
            &&& p matches LogicalPlanView::Truncate { tables, .. }
            &&& tables == Seq::new(s.tables@.len(), |k: int| names::simple_name(s.tables@[k]))
        },
{
    lemma_known_tables(s.tables@, 0, Seq::empty(), cat);
}

/// An `UPDATE` from other tables and a `DELETE` using other tables are refused.
pub proof fn other_tables_are_refused(
    update: UpdateStmt,
    delete: DeleteStmt,
    cat: CatalogView,
    scope: Seq<SchemaView>,
)
    ensures
        update.from@.len() > 0 ==> (bound_update(update, cat, scope) matches Err(e)
            && e is NotSupported),
        delete.using@.len() > 0 ==> (bound_delete(delete, cat, scope) matches Err(e)
            && e is NotSupported),
{
}

/// Whether a plan is the scan of a table, under a filter where there is a
/// predicate.
pub open spec fn scans_table(
    p: QueryPlanView,
    table: Seq<char>,
    row: SchemaView,
    filtered: bool,
) -> bool {
    let scan = QueryPlanView::Scan { table, schema: row, projection: None };
    if filtered {
        p matches QueryPlanView::Filter { input, .. } && *input == scan
    } else {
        p == scan
    }
}

/// An `UPDATE` and a `DELETE` read the table that they change, all of it or
/// what their `WHERE` clause selects.
pub proof fn changes_scan_their_table(
    update: UpdateStmt,
    delete: DeleteStmt,
    cat: CatalogView,
    scope: Seq<SchemaView>,
)
    ensures
        bound_update(update, cat, scope) matches Ok(p) ==> {
            &&& p matches LogicalPlanView::Update { table, input, .. }
            &&& table == names::simple_name(update.table)
            &&& (cat.table)(table) matches Some(meta)
            &&& scans_table(input, table, meta.schema, update.where_clause is Some)
        },
        bound_delete(delete, cat, scope) matches Ok(p) ==> {
            &&& p matches LogicalPlanView::Delete { table, input, .. }
            &&& table == names::simple_name(delete.table)
            &&& (cat.table)(table) matches Some(meta)
            &&& scans_table(input, table, meta.schema, delete.where_clause is Some)
        },
{
}

/// The source of an accepted `INSERT` has as many columns as the `INSERT`
/// fills, unless it inserts the default values.
pub proof fn inserted_rows_fit_their_columns(
    s: InsertStmt,
    cat: CatalogView,
    scope: Seq<SchemaView>,
)
    ensures
        bound_insert(s, cat, scope) matches Ok(p) ==> {
            &&& p matches LogicalPlanView::Insert { columns, source, .. }
            &&& s.source is DefaultValues || query::query_schema(source).fields.len()
                == columns.len()
        },
{
    let table = names::simple_name(s.table);
    if let Ok(row) = table_columns(table, cat) {
        if let Ok(columns) = target_columns(s.columns@, row) {
            if let InsertSource::Values(rows) = s.source {
                values_are_rectangular(rows@, columns.len(), cat, scope);
            }
        }
    }
}

/// A `DO UPDATE` branch that refers to the row proposed for insertion, in an
/// assignment or in its predicate, is refused.
pub proof fn excluded_rows_are_refused(
    target: ConflictColumns,
    set: Vec<Assignment>,
    where_clause: Option<Expr>,
    s: SchemaView,
    cat: CatalogView,
    scope: Seq<SchemaView>,
)
    requires
        update_names_excluded(set@, where_clause),
    ensures
        bound_conflict(
            OnConflict::DoUpdate { target, set, where_clause },
            s,
            cat,
            scope,
        ) is Err,
        conflict_columns(target.columns@, 0, Seq::empty(), s) is Ok ==> bound_conflict(
            OnConflict::DoUpdate { target, set, where_clause },
            s,
            cat,
            scope,
        ) == Err::<LogicalOnConflictView, _>(
            PlanErrorView::NotSupported("EXCLUDED in ON CONFLICT DO UPDATE"@),
        ),
{
}

} // verus!
