//! Binding of `CREATE TABLE`, `CREATE INDEX`, `DROP TABLE` and `ALTER TABLE`.
use crate::ast::{
    AlterTableAction, AlterTableStmt, ColumnConstraint, ColumnDef, CreateIndexStmt, CreateTableStmt,
    DropTableStmt, Expr, IndexKey, ObjectName, TypeName,
};
use crate::binder::names;
use crate::binder::names::{object_name_namespace, object_name_simple};
use crate::catalog::{Catalog, CatalogView};
use crate::datatype::{DataType, DataTypeView};
use crate::error::{PlanError, PlanErrorView};
use crate::plan::{
    CreateIndexPlan, CreateIndexPlanView, CreateTablePlan, CreateTablePlanView,
    LogicalAlterTableAction, LogicalAlterTableActionView, LogicalIndexMethod, LogicalPlan,
    LogicalPlanView,
};
use crate::schema::{name_taken, Field, FieldView, Schema, SchemaView};
use crate::text::{cat2, cat3, eq_fold, owned, text_eq, to_lower};
use crate::{error, list, schema, text};
use vstd::prelude::*;

verus! {

/// The type that a name stands for. The length of a character type is its first
/// modifier.
pub open spec fn named_type(t: TypeName) -> Result<DataTypeView, PlanErrorView> {
    let n = t.name.value@;
    let max_len = if t.type_modifiers@.len() > 0 {
        Some(t.type_modifiers@[0])
    } else {
        None
    };
    if t.is_array {
        Err(PlanErrorView::NotSupported("CREATE TABLE: ARRAY column types"@))
    } else if n == "int"@ || n == "integer"@ || n == "int4"@ {
        Ok(DataTypeView::Int32)
    } else if n == "bigint"@ || n == "int8"@ {
        Ok(DataTypeView::Int64)
    } else if n == "smallint"@ || n == "int2"@ {
        Ok(DataTypeView::Int16)
    } else if n == "bool"@ || n == "boolean"@ {
        Ok(DataTypeView::Bool)
    } else if n == "real"@ || n == "float4"@ {
        Ok(DataTypeView::Float32)
    } else if n == "double"@ || n == "double precision"@ || n == "float"@ || n == "float8"@ {
        Ok(DataTypeView::Float64)
    } else if n == "text"@ {
        Ok(DataTypeView::Text { max_len: None })
    } else if n == "varchar"@ || n == "character varying"@ || n == "char"@ || n == "character"@
        || n == "bpchar"@ {
        Ok(DataTypeView::Text { max_len })
    } else if n == "bytea"@ {
        Ok(DataTypeView::Bytea)
    } else {
        Err(PlanErrorView::NotSupported("CREATE TABLE: column type not implemented in v0.5"@))
    }
}

/// Resolves the name of a column type.
pub fn resolve_type_name(t: &TypeName) -> (made: Result<DataType, PlanError>)
    ensures
        error::type_outcome(made) == named_type(*t),
{
    if t.is_array {
        return Err(PlanError::NotSupported("CREATE TABLE: ARRAY column types"));
    }
    let n = t.name.value.as_str();
    let max_len = if t.type_modifiers.len() > 0 {
        Some(t.type_modifiers[0])
    } else {
        None
    };
    if text_eq(n, "int") || text_eq(n, "integer") || text_eq(n, "int4") {
        Ok(DataType::Int32)
    } else if text_eq(n, "bigint") || text_eq(n, "int8") {
        Ok(DataType::Int64)
    } else if text_eq(n, "smallint") || text_eq(n, "int2") {
        Ok(DataType::Int16)
    } else if text_eq(n, "bool") || text_eq(n, "boolean") {
        Ok(DataType::Bool)
    } else if text_eq(n, "real") || text_eq(n, "float4") {
        Ok(DataType::Float32)
    } else if text_eq(n, "double") || text_eq(n, "double precision") || text_eq(n, "float")
        || text_eq(n, "float8") {
        Ok(DataType::Float64)
    } else if text_eq(n, "text") {
        Ok(DataType::Text { max_len: None })
    } else if text_eq(n, "varchar") || text_eq(n, "character varying") || text_eq(n, "char")
        || text_eq(n, "character") || text_eq(n, "bpchar") {
        Ok(DataType::Text { max_len })
    } else if text_eq(n, "bytea") {
        Ok(DataType::Bytea)
    } else {
        Err(PlanError::NotSupported("CREATE TABLE: column type not implemented in v0.5"))
    }
}

/// Whether the constraints from the `i`-th on let a column hold nulls: `NOT NULL`
/// and a primary key do not, whatever else is stated.
pub open spec fn nullability(constraints: Seq<ColumnConstraint>, i: int, nullable: bool) -> Result<
    bool,
    PlanErrorView,
>
    decreases constraints.len() - i,
{
    if i < 0 || i >= constraints.len() {
        Ok(nullable)
    } else {
        match constraints[i] {
            ColumnConstraint::NotNull => nullability(constraints, i + 1, false),
            ColumnConstraint::PrimaryKey { .. } => nullability(constraints, i + 1, false),
            ColumnConstraint::Null => nullability(constraints, i + 1, nullable),
            _ => Err(
                PlanErrorView::NotSupported(
                    "CREATE TABLE: only NULL / NOT NULL / PRIMARY KEY column constraints in v0.5"@,
                ),
            ),
        }
    }
}

/// Tells whether the constraints of a column let it hold nulls.
pub fn resolve_column_nullability(constraints: &Vec<ColumnConstraint>) -> (made: Result<
    bool,
    PlanError,
>)
    ensures
        error::outcome(made) == nullability(constraints@, 0, true),
{
    let mut nullable = true;
    let mut i: usize = 0;
    while i < constraints.len()
        invariant
            i <= constraints.len(),
            nullability(constraints@, i as int, nullable) == nullability(constraints@, 0, true),
        decreases constraints.len() - i,
    {
        match &constraints[i] {
            ColumnConstraint::NotNull => nullable = false,
            ColumnConstraint::PrimaryKey { .. } => nullable = false,
            ColumnConstraint::Null => {},
            _ => return Err(
                PlanError::NotSupported(
                    "CREATE TABLE: only NULL / NOT NULL / PRIMARY KEY column constraints in v0.5",
                ),
            ),
        }
        i = i + 1;
    }
    Ok(nullable)
}

/// The column that a definition makes.
pub open spec fn defined_column(c: ColumnDef) -> Result<FieldView, PlanErrorView> {
    match named_type(c.data_type) {
        Err(e) => Err(e),
        Ok(data_type) => match nullability(c.constraints@, 0, true) {
            Err(e) => Err(e),
            Ok(nullable) => Ok(FieldView { name: c.name.value@, data_type, nullable }),
        },
    }
}

/// A column with its outcome as models.
pub open spec fn field_outcome(r: Result<Field, PlanError>) -> Result<FieldView, PlanErrorView> {
    match r {
        Ok(f) => Ok(f@),
        Err(e) => Err(e@),
    }
}

fn define_column(c: &ColumnDef) -> (made: Result<Field, PlanError>)
    ensures
        field_outcome(made) == defined_column(*c),
{
    let data_type = resolve_type_name(&c.data_type)?;
    let nullable = resolve_column_nullability(&c.constraints)?;
    Ok(Field { name: c.name.value.clone(), data_type, nullable })
}

/// Whether a column has the given name up to case.
pub open spec fn column_named(fields: Seq<FieldView>, name: Seq<char>) -> bool {
    exists|j: int| 0 <= j < fields.len() && text::same_fold(#[trigger] fields[j].name, name)
}

/// The columns that definitions make, from the `i`-th on.
pub open spec fn defined_columns(cols: Seq<ColumnDef>, i: int, acc: Seq<FieldView>) -> Result<
    Seq<FieldView>,
    PlanErrorView,
>
    decreases cols.len() - i,
{
    if i < 0 || i >= cols.len() {
        Ok(acc)
    } else if column_named(acc, cols[i].name.value@) {
        Err(PlanErrorView::DuplicateColumn(cols[i].name.value@))
    } else {
        match defined_column(cols[i]) {
            Err(e) => Err(e),
            Ok(f) => defined_columns(cols, i + 1, acc.push(f)),
        }
    }
}

/// Columns with their outcome as models.
pub open spec fn fields_outcome(r: Result<Vec<Field>, PlanError>) -> Result<
    Seq<FieldView>,
    PlanErrorView,
> {
    match r {
        Ok(f) => Ok(schema::fields_view(f@)),
        Err(e) => Err(e@),
    }
}

fn define_columns(cols: &Vec<ColumnDef>) -> (made: Result<Vec<Field>, PlanError>)
    ensures
        fields_outcome(made) == defined_columns(cols@, 0, Seq::empty()),
{
    let mut fields: Vec<Field> = Vec::new();
    assert(schema::fields_view(fields@) =~= Seq::empty());
    let mut i: usize = 0;
    while i < cols.len()
        invariant
            i <= cols.len(),
            defined_columns(cols@, i as int, schema::fields_view(fields@)) == defined_columns(
                cols@,
                0,
                Seq::empty(),
            ),
        decreases cols.len() - i,
    {
        if name_taken(&fields, fields.len(), cols[i].name.value.as_str()) {
            return Err(PlanError::DuplicateColumn(cols[i].name.value.clone()));
        }
        let field = define_column(&cols[i])?;
        proof {
            schema::lemma_fields_push(fields@, field);
        }
        fields.push(field);
        i = i + 1;
    }
    Ok(fields)
}

/// A table of the given columns without any further constraint.
pub open spec fn plain_table(
    table_name: Seq<char>,
    namespace: Seq<char>,
    columns: SchemaView,
    if_not_exists: bool,
) -> CreateTablePlanView {
    CreateTablePlanView {
        table_name,
        namespace,
        columns,
        column_collations: Seq::empty(),
        defaults: Seq::empty(),
        sequence_defaults: Seq::empty(),
        sequence_options: Seq::empty(),
        identity_always: Seq::empty(),
        generated_stored: Seq::empty(),
        checks: Seq::empty(),
        unique_constraints: Seq::empty(),
        foreign_keys: Seq::empty(),
        exclusion_constraints: Seq::empty(),
        partition: None,
        if_not_exists,
        schema: schema::empty_schema(),
    }
}

fn make_plain_table(
    table_name: String,
    namespace: String,
    columns: Schema,
    if_not_exists: bool,
) -> (made: CreateTablePlan)
    ensures
        made@ == plain_table(table_name@, namespace@, columns@, if_not_exists),
{
    let made = CreateTablePlan {
        table_name,
        namespace,
        columns,
        column_collations: Vec::new(),
        defaults: Vec::new(),
        sequence_defaults: Vec::new(),
        sequence_options: Vec::new(),
        identity_always: Vec::new(),
        generated_stored: Vec::new(),
        checks: Vec::new(),
        unique_constraints: Vec::new(),
        foreign_keys: Vec::new(),
        exclusion_constraints: Vec::new(),
        partition: None,
        if_not_exists,
        schema: Schema::empty(),
    };
    assert(made@.defaults =~= Seq::empty());
    assert(made@.sequence_defaults =~= Seq::empty());
    assert(made@.generated_stored =~= Seq::empty());
    assert(made@.checks =~= Seq::empty());
    assert(made@.unique_constraints =~= Seq::empty());
    assert(made@.foreign_keys =~= Seq::empty());
    assert(made@.exclusion_constraints =~= Seq::empty());
    made
}

/// What a `CREATE TABLE` is bound to.
pub open spec fn bound_create_table(s: CreateTableStmt, cat: CatalogView) -> Result<
    LogicalPlanView,
    PlanErrorView,
> {
    let table_name = names::simple_name(s.name);
    if s.table_constraints@.len() > 0 {
        Err(PlanErrorView::NotSupported("CREATE TABLE: table-level constraints"@))
    } else if !s.if_not_exists && (cat.table)(table_name) is Some {
        Err(PlanErrorView::DuplicateTable(table_name))
    } else if s.columns@.len() == 0 {
        Err(PlanErrorView::NotSupported("CREATE TABLE: zero columns"@))
    } else {
        match defined_columns(s.columns@, 0, Seq::empty()) {
            Err(e) => Err(e),
            Ok(fields) => Ok(
                LogicalPlanView::CreateTable(
                    plain_table(
                        table_name,
                        names::namespace_of(s.name),
                        SchemaView { fields },
                        s.if_not_exists,
                    ),
                ),
            ),
        }
    }
}

/// Binds a `CREATE TABLE` statement.
pub fn bind_create_table<C: Catalog>(s: &CreateTableStmt, catalog: &C) -> (made: Result<
    LogicalPlan,
    PlanError,
>)
    ensures
        error::plan_outcome(made) == bound_create_table(*s, catalog.model()),
{
    if s.table_constraints.len() > 0 {
        return Err(PlanError::NotSupported("CREATE TABLE: table-level constraints"));
    }
    let table_name = object_name_simple(&s.name);
    let namespace = object_name_namespace(&s.name);
    if !s.if_not_exists && catalog.lookup_table(table_name.as_str()).is_some() {
        return Err(PlanError::DuplicateTable(table_name));
    }
    if s.columns.len() == 0 {
        return Err(PlanError::NotSupported("CREATE TABLE: zero columns"));
    }
    let fields = define_columns(&s.columns)?;
    let columns = Schema { fields };
    Ok(
        LogicalPlan::CreateTable(
            make_plain_table(table_name, namespace, columns, s.if_not_exists),
        ),
    )
}

/// The column that an index key names: a bare column reference.
pub open spec fn key_column(k: IndexKey) -> Option<Seq<char>> {
    match k.expr {
        Expr::Column { name } => if name.parts@.len() == 1 {
            Some(name.parts@[0].value@)
        } else {
            None
        },
        _ => None,
    }
}

/// The positions and folded names of the key columns from the `i`-th on.
pub open spec fn key_columns(
    keys: Seq<IndexKey>,
    i: int,
    at: Seq<usize>,
    folded: Seq<Seq<char>>,
    s: SchemaView,
) -> Result<(Seq<usize>, Seq<Seq<char>>), PlanErrorView>
    decreases keys.len() - i,
{
    if i < 0 || i >= keys.len() {
        Ok((at, folded))
    } else {
        match key_column(keys[i]) {
            None => Err(
                PlanErrorView::NotSupported(
                    "CREATE INDEX: only bare column-reference keys are supported"@,
                ),
            ),
            Some(name) => match schema::find_field(s, text::lower(name)) {
                None => Err(PlanErrorView::ColumnNotFound(name)),
                Some(j) => key_columns(
                    keys,
                    i + 1,
                    at.push(j as usize),
                    folded.push(text::lower(name)),
                    s,
                ),
            },
        }
    }
}

/// A name and the first `n` column names, each after an underscore.
pub open spec fn joined_names(table: Seq<char>, columns: Seq<Seq<char>>, n: int) -> Seq<char>
    decreases n,
{
    if n <= 0 {
        table
    } else {
        joined_names(table, columns, n - 1) + "_"@ + columns[n - 1]
    }
}

/// The name of an index that is not named: the table, the columns and `idx`,
/// joined by underscores.
pub open spec fn default_index_name(table: Seq<char>, columns: Seq<Seq<char>>) -> Seq<char> {
    joined_names(table, columns, columns.len() as int) + "_idx"@
}

/// Makes the name of an index that is not named.
pub fn synthesise_index_name(table: &str, columns: &Vec<String>) -> (name: String)
    ensures
        name@ == default_index_name(table@, list::strings_view(columns@)),
{
    let ghost model = list::strings_view(columns@);
    let mut name = owned(table);
    let mut i: usize = 0;
    while i < columns.len()
        invariant
            i <= columns.len(),
            model == list::strings_view(columns@),
            name@ == joined_names(table@, model, i as int),
        decreases columns.len() - i,
    {
        name = cat3(name.as_str(), "_", columns[i].as_str());
        i = i + 1;
    }
    cat2(name.as_str(), "_idx")
}

/// A B-tree index over columns of a table.
pub open spec fn plain_index(
    index_name: Seq<char>,
    index_namespace: Seq<char>,
    table_name: Seq<char>,
    columns: Seq<usize>,
    unique: bool,
    if_not_exists: bool,
) -> CreateIndexPlanView {
    CreateIndexPlanView {
        index_name,
        index_namespace,
        table_name,
        columns,
        key_exprs: Seq::empty(),
        opclasses: Seq::empty(),
        index_options: Seq::empty(),
        covering_columns: Seq::empty(),
        predicate: None,
        method: LogicalIndexMethod::Btree,
        aggregating: None,
        unique,
        primary_key: false,
        concurrently: false,
        if_not_exists,
        schema: schema::empty_schema(),
    }
}

fn make_plain_index(
    index_name: String,
    index_namespace: String,
    table_name: String,
    columns: Vec<usize>,
    unique: bool,
    if_not_exists: bool,
) -> (made: CreateIndexPlan)
    ensures
        made@ == plain_index(
            index_name@,
            index_namespace@,
            table_name@,
            columns@,
            unique,
            if_not_exists,
        ),
{
    let made = CreateIndexPlan {
        index_name,
        index_namespace,
        table_name,
        columns,
        key_exprs: Vec::new(),
        opclasses: Vec::new(),
        index_options: Vec::new(),
        covering_columns: Vec::new(),
        predicate: None,
        method: LogicalIndexMethod::Btree,
        aggregating: None,
        unique,
        primary_key: false,
        concurrently: false,
        if_not_exists,
        schema: Schema::empty(),
    };
    assert(made@.key_exprs =~= Seq::empty());
    assert(made@.opclasses =~= Seq::empty());
    assert(made@.index_options =~= Seq::empty());
    made
}

/// What a `CREATE INDEX` is bound to. The index is made in the schema of its
/// table.
pub open spec fn bound_create_index(s: CreateIndexStmt, cat: CatalogView) -> Result<
    LogicalPlanView,
    PlanErrorView,
> {
    let table_name = names::simple_name(s.table);
    match (cat.table)(table_name) {
        None => Err(PlanErrorView::TableNotFound(table_name)),
        Some(meta) => if s.where_clause is Some {
            Err(PlanErrorView::NotSupported("CREATE INDEX: WHERE (partial index)"@))
        } else if s.covering@.len() > 0 {
            Err(PlanErrorView::NotSupported("CREATE INDEX: INCLUDE (covering columns)"@))
        } else if s.method is Some && !text::same_fold(s.method->Some_0.value@, "btree"@) {
            Err(PlanErrorView::NotSupported("CREATE INDEX: only btree method is supported"@))
        } else if s.columns@.len() == 0 {
            Err(PlanErrorView::NotSupported("CREATE INDEX: zero key columns"@))
        } else {
            match key_columns(s.columns@, 0, Seq::empty(), Seq::empty(), meta.schema) {
                Err(e) => Err(e),
                Ok((columns, folded)) => Ok(
                    LogicalPlanView::CreateIndex(
                        plain_index(
                            match s.name {
                                Some(name) => text::lower(name.value@),
                                None => default_index_name(table_name, folded),
                            },
                            meta.schema_name,
                            table_name,
                            columns,
                            s.unique,
                            s.if_not_exists,
                        ),
                    ),
                ),
            }
        },
    }
}

/// Key columns with their outcome as models.
pub open spec fn keys_outcome(r: Result<(Vec<usize>, Vec<String>), PlanError>) -> Result<
    (Seq<usize>, Seq<Seq<char>>),
    PlanErrorView,
> {
    match r {
        Ok((at, folded)) => Ok((at@, list::strings_view(folded@))),
        Err(e) => Err(e@),
    }
}

fn resolve_key_columns(keys: &Vec<IndexKey>, s: &Schema) -> (made: Result<
    (Vec<usize>, Vec<String>),
    PlanError,
>)
    ensures
        keys_outcome(made) == key_columns(keys@, 0, Seq::empty(), Seq::empty(), s@),
{
    let mut at: Vec<usize> = Vec::new();
    let mut folded: Vec<String> = Vec::new();
    assert(list::strings_view(folded@) =~= Seq::empty());
    let mut i: usize = 0;
    while i < keys.len()
        invariant
            i <= keys.len(),
            key_columns(keys@, i as int, at@, list::strings_view(folded@), s@) == key_columns(
                keys@,
                0,
                Seq::empty(),
                Seq::empty(),
                s@,
            ),
        decreases keys.len() - i,
    {
        let name = match &keys[i].expr {
            Expr::Column { name } if name.parts.len() == 1 => name.parts[0].value.as_str(),
            _ => return Err(
                PlanError::NotSupported(
                    "CREATE INDEX: only bare column-reference keys are supported",
                ),
            ),
        };
        let lower = to_lower(name);
        match s.find(lower.as_str()) {
            Some(j) => {
                at.push(j);
                proof {
                    list::lemma_strings_push(folded@, lower);
                }
                folded.push(lower);
            },
            None => return Err(PlanError::ColumnNotFound(owned(name))),
        }
        i = i + 1;
    }
    Ok((at, folded))
}

/// Binds a `CREATE INDEX` statement.
pub fn bind_create_index<C: Catalog>(s: &CreateIndexStmt, catalog: &C) -> (made: Result<
    LogicalPlan,
    PlanError,
>)
    ensures
        error::plan_outcome(made) == bound_create_index(*s, catalog.model()),
{
    let table_name = object_name_simple(&s.table);
    let meta = match catalog.lookup_table(table_name.as_str()) {
        Some(meta) => meta,
        None => return Err(PlanError::TableNotFound(table_name)),
    };
    if s.where_clause.is_some() {
        return Err(PlanError::NotSupported("CREATE INDEX: WHERE (partial index)"));
    }
    if s.covering.len() > 0 {
        return Err(PlanError::NotSupported("CREATE INDEX: INCLUDE (covering columns)"));
    }
    if let Some(method) = &s.method {
        if !eq_fold(method.value.as_str(), "btree") {
            return Err(PlanError::NotSupported("CREATE INDEX: only btree method is supported"));
        }
    }
    if s.columns.len() == 0 {
        return Err(PlanError::NotSupported("CREATE INDEX: zero key columns"));
    }
    let (columns, folded) = resolve_key_columns(&s.columns, &meta.schema)?;
    let index_name = match &s.name {
        Some(name) => to_lower(name.value.as_str()),
        None => synthesise_index_name(table_name.as_str(), &folded),
    };
    Ok(
        LogicalPlan::CreateIndex(
            make_plain_index(
                index_name,
                meta.schema_name,
                table_name,
                columns,
                s.unique,
                s.if_not_exists,
            ),
        ),
    )
}

/// The existing tables of the given names from the `i`-th on. A missing one is
/// left out where that is allowed.
pub open spec fn existing_tables(
    names: Seq<ObjectName>,
    i: int,
    acc: Seq<Seq<char>>,
    if_exists: bool,
    cat: CatalogView,
) -> Result<Seq<Seq<char>>, PlanErrorView>
    decreases names.len() - i,
{
    if i < 0 || i >= names.len() {
        Ok(acc)
    } else {
        let name = names::simple_name(names[i]);
        if (cat.table)(name) is Some {
            existing_tables(names, i + 1, acc.push(name), if_exists, cat)
        } else if if_exists {
            existing_tables(names, i + 1, acc, if_exists, cat)
        } else {
            Err(PlanErrorView::TableNotFound(name))
        }
    }
}

/// What a `DROP TABLE` is bound to.
pub open spec fn bound_drop_table(s: DropTableStmt, cat: CatalogView) -> Result<
    LogicalPlanView,
    PlanErrorView,
> {
    match existing_tables(s.names@, 0, Seq::empty(), s.if_exists, cat) {
        Err(e) => Err(e),
        Ok(tables) => Ok(
            LogicalPlanView::DropTable {
                tables,
                if_exists: s.if_exists,
                cascade: s.cascade,
                schema: schema::empty_schema(),
            },
        ),
    }
}

/// Binds a `DROP TABLE` statement.
pub fn bind_drop_table<C: Catalog>(s: &DropTableStmt, catalog: &C) -> (made: Result<
    LogicalPlan,
    PlanError,
>)
    ensures
        error::plan_outcome(made) == bound_drop_table(*s, catalog.model()),
{
    let mut tables: Vec<String> = Vec::new();
    assert(list::strings_view(tables@) =~= Seq::empty());
    let mut i: usize = 0;
    while i < s.names.len()
        invariant
            i <= s.names.len(),
            existing_tables(
                s.names@,
                i as int,
                list::strings_view(tables@),
                s.if_exists,
                catalog.model(),
            ) == existing_tables(s.names@, 0, Seq::empty(), s.if_exists, catalog.model()),
        decreases s.names.len() - i,
    {
        let name = object_name_simple(&s.names[i]);
        if catalog.lookup_table(name.as_str()).is_some() {
            proof {
                list::lemma_strings_push(tables@, name);
            }
            tables.push(name);
        } else if !s.if_exists {
            return Err(PlanError::TableNotFound(name));
        }
        i = i + 1;
    }
    Ok(
        LogicalPlan::DropTable {
            tables,
            if_exists: s.if_exists,
            cascade: s.cascade,
            schema: Schema::empty(),
        },
    )
}

/// The change that an `ALTER TABLE` action makes.
pub open spec fn bound_change(action: AlterTableAction, s: SchemaView) -> Result<
    LogicalAlterTableActionView,
    PlanErrorView,
> {
    match action {
        AlterTableAction::AddColumn { column } => if schema::find_field(
            s,
            text::lower(column.name.value@),
        ) is Some {
            Err(PlanErrorView::DuplicateColumn(column.name.value@))
        } else {
            match defined_column(column) {
                Err(e) => Err(e),
                Ok(column) => Ok(LogicalAlterTableActionView::AddColumn { column, default: None }),
            }
        },
        AlterTableAction::DropColumn { .. } => Err(
            PlanErrorView::NotSupported("ALTER TABLE: DROP COLUMN not yet supported"@),
        ),
        AlterTableAction::RenameColumn { .. } => Err(
            PlanErrorView::NotSupported("ALTER TABLE: RENAME COLUMN not yet supported"@),
        ),
        AlterTableAction::RenameTable { .. } => Err(
            PlanErrorView::NotSupported("ALTER TABLE: RENAME TO not yet supported"@),
        ),
        AlterTableAction::AddConstraint { .. } => Err(
            PlanErrorView::NotSupported("ALTER TABLE: ADD CONSTRAINT not yet supported"@),
        ),
        AlterTableAction::DropConstraint { .. } => Err(
            PlanErrorView::NotSupported("ALTER TABLE: DROP CONSTRAINT not yet supported"@),
        ),
        _ => Err(PlanErrorView::NotSupported("ALTER TABLE: action not yet supported"@)),
    }
}

/// A table change with its outcome as models.
pub open spec fn change_outcome(r: Result<LogicalAlterTableAction, PlanError>) -> Result<
    LogicalAlterTableActionView,
    PlanErrorView,
> {
    match r {
        Ok(x) => Ok(x@),
        Err(e) => Err(e@),
    }
}

fn bind_change(action: &AlterTableAction, s: &Schema) -> (made: Result<
    LogicalAlterTableAction,
    PlanError,
>)
    ensures
        change_outcome(made) == bound_change(*action, s@),
{
    match action {
        AlterTableAction::AddColumn { column } => {
            if s.find(to_lower(column.name.value.as_str()).as_str()).is_some() {
                return Err(PlanError::DuplicateColumn(column.name.value.clone()));
            }
            let column = define_column(column)?;
            Ok(LogicalAlterTableAction::AddColumn { column, default: None })
        },
        AlterTableAction::DropColumn { .. } => Err(
            PlanError::NotSupported("ALTER TABLE: DROP COLUMN not yet supported"),
        ),
        AlterTableAction::RenameColumn { .. } => Err(
            PlanError::NotSupported("ALTER TABLE: RENAME COLUMN not yet supported"),
        ),
        AlterTableAction::RenameTable { .. } => Err(
            PlanError::NotSupported("ALTER TABLE: RENAME TO not yet supported"),
        ),
        AlterTableAction::AddConstraint { .. } => Err(
            PlanError::NotSupported("ALTER TABLE: ADD CONSTRAINT not yet supported"),
        ),
        AlterTableAction::DropConstraint { .. } => Err(
            PlanError::NotSupported("ALTER TABLE: DROP CONSTRAINT not yet supported"),
        ),
        _ => Err(PlanError::NotSupported("ALTER TABLE: action not yet supported")),
    }
}

/// What an `ALTER TABLE` is bound to.
pub open spec fn bound_alter_table(s: AlterTableStmt, cat: CatalogView) -> Result<
    LogicalPlanView,
    PlanErrorView,
> {
    let table_name = names::simple_name(s.name);
    match (cat.table)(table_name) {
        None => Err(PlanErrorView::TableNotFound(table_name)),
        Some(meta) => match bound_change(s.action, meta.schema) {
            Err(e) => Err(e),
            Ok(change) => Ok(
                LogicalPlanView::AlterTable { table_name, change, schema: schema::empty_schema() },
            ),
        },
    }
}

/// Binds an `ALTER TABLE` statement.
pub fn bind_alter_table<C: Catalog>(s: &AlterTableStmt, catalog: &C) -> (made: Result<
    LogicalPlan,
    PlanError,
>)
    ensures
        error::plan_outcome(made) == bound_alter_table(*s, catalog.model()),
{
    let table_name = object_name_simple(&s.name);
    match catalog.lookup_table(table_name.as_str()) {
        Some(meta) => {
            let change = bind_change(&s.action, &meta.schema)?;
            Ok(LogicalPlan::AlterTable { table_name, change, schema: Schema::empty() })
        },
        None => Err(PlanError::TableNotFound(table_name)),
    }
}

proof fn lemma_defined_columns(cols: Seq<ColumnDef>, i: int, acc: Seq<FieldView>)
    requires
        0 <= i <= cols.len(),
        acc.len() == i,
        schema::schema_of(acc) is Ok,
        forall|k: int| 0 <= k < i ==> (#[trigger] acc[k]).name == cols[k].name.value@,
    ensures
        defined_columns(cols, i, acc) matches Ok(out) ==> {
            &&& out.len() == cols.len()
            &&& schema::schema_of(out) is Ok
            &&& forall|k: int|
                0 <= k < out.len() ==> (#[trigger] out[k]).name == cols[k].name.value@
        },
    decreases cols.len() - i,
{
    if i < cols.len() && !column_named(acc, cols[i].name.value@) {
        match defined_column(cols[i]) {
            Err(_) => {},
            Ok(f) => {
                schema::schema_needs_distinct_names(acc);
                schema::schema_needs_distinct_names(acc.push(f));
                lemma_defined_columns(cols, i + 1, acc.push(f));
            },
        }
    }
}

/// A table is created with one column per definition, in order and under its
/// name, and no two column names agree up to case.
pub proof fn created_columns_follow_definitions(s: CreateTableStmt, cat: CatalogView)
    ensures
        bound_create_table(s, cat) matches Ok(p) ==> {
            &&& p matches LogicalPlanView::CreateTable(t)
            &&& t.columns.fields.len() == s.columns@.len()
            &&& schema::schema_of(t.columns.fields) is Ok
            &&& forall|k: int|
                0 <= k < s.columns@.len() ==> (#[trigger] t.columns.fields[k]).name
                    == s.columns@[k].name.value@
        },
{
    schema::schema_needs_distinct_names(Seq::empty());
    lemma_defined_columns(s.columns@, 0, Seq::empty());
}

proof fn lemma_existing_tables(
    names: Seq<ObjectName>,
    i: int,
    acc: Seq<Seq<char>>,
    if_exists: bool,
    cat: CatalogView,
)
    requires
        0 <= i <= names.len(),
        forall|k: int| 0 <= k < acc.len() ==> (cat.table)(#[trigger] acc[k]) is Some,
    ensures
        match existing_tables(names, i, acc, if_exists, cat) {
            Ok(out) => {
                &&& forall|k: int| 0 <= k < out.len() ==> (cat.table)(#[trigger] out[k]) is Some
                &&& if_exists || forall|k: int|
                    i <= k < names.len() ==> (cat.table)(
                        names::simple_name(#[trigger] names[k]),
                    ) is Some
            },
            Err(_) => !if_exists && exists|k: int|
                i <= k < names.len() && (cat.table)(names::simple_name(#[trigger] names[k])) is None,
        },
    decreases names.len() - i,
{
    if i < names.len() {
        let name = names::simple_name(names[i]);
        if (cat.table)(name) is Some {
            lemma_existing_tables(names, i + 1, acc.push(name), if_exists, cat);
        } else if if_exists {
            lemma_existing_tables(names, i + 1, acc, if_exists, cat);
        }
    }
}

/// A `DROP TABLE` only names tables that exist. With `IF EXISTS` it is always
/// accepted, and without it exactly when all its tables exist.
pub proof fn dropped_tables_exist(s: DropTableStmt, cat: CatalogView)
    ensures
        bound_drop_table(s, cat) matches Ok(p) ==> {
            &&& p matches LogicalPlanView::DropTable { tables, .. }
            &&& forall|k: int| 0 <= k < tables.len() ==> (cat.table)(#[trigger] tables[k]) is Some
        },
        bound_drop_table(s, cat) is Ok <==> s.if_exists || forall|k: int|
            0 <= k < s.names@.len() ==> (cat.table)(
                names::simple_name(#[trigger] s.names@[k]),
            ) is Some,
{
    lemma_existing_tables(s.names@, 0, Seq::empty(), s.if_exists, cat);
}

proof fn stated_nullability(constraints: Seq<ColumnConstraint>, i: int, nullable: bool)
    requires
        0 <= i,
    ensures
        nullability(constraints, i, nullable) matches Ok(n) ==> n == (nullable && forall|k: int|
            i <= k < constraints.len() ==> !(#[trigger] constraints[k] is NotNull)
                && !(constraints[k] is PrimaryKey)),
    decreases constraints.len() - i,
{
    if i < constraints.len() {
        match constraints[i] {
            ColumnConstraint::NotNull => stated_nullability(constraints, i + 1, false),
            ColumnConstraint::PrimaryKey { .. } => stated_nullability(constraints, i + 1, false),
            ColumnConstraint::Null => stated_nullability(constraints, i + 1, nullable),
            _ => {},
        }
    }
}

/// A defined column holds nulls unless it is `NOT NULL` or a primary key.
pub proof fn defined_columns_hold_nulls(c: ColumnDef)
    ensures
        defined_column(c) matches Ok(f) ==> f.nullable == forall|k: int|
            0 <= k < c.constraints@.len() ==> !(#[trigger] c.constraints@[k] is NotNull)
                && !(c.constraints@[k] is PrimaryKey),
{
    stated_nullability(c.constraints@, 0, true);
}

/// An existing table is created anew only where `IF NOT EXISTS` says so; without
/// it the duplicate is refused, unless the table has constraints of its own.
pub proof fn duplicate_tables_are_refused(s: CreateTableStmt, cat: CatalogView)
    requires
        (cat.table)(names::simple_name(s.name)) is Some,
        !s.if_not_exists,
    ensures
        bound_create_table(s, cat) is Err,
        s.table_constraints@.len() == 0 ==> bound_create_table(s, cat) == Err::<
            LogicalPlanView,
            _,
        >(PlanErrorView::DuplicateTable(names::simple_name(s.name))),
{
}

proof fn lemma_key_columns(
    keys: Seq<IndexKey>,
    i: int,
    at: Seq<usize>,
    folded: Seq<Seq<char>>,
    s: SchemaView,
)
    requires
        i == at.len(),
        i == folded.len(),
        i <= keys.len(),
        s.fields.len() <= usize::MAX,
        forall|k: int|
            0 <= k < i ==> (#[trigger] at[k]) < s.fields.len() && text::same_fold(
                s.fields[at[k] as int].name,
                folded[k],
            ),
    ensures
        key_columns(keys, i, at, folded, s) matches Ok((columns, names)) ==> {
            &&& columns.len() == keys.len()
            &&& names.len() == keys.len()
            &&& forall|k: int|
                0 <= k < columns.len() ==> (#[trigger] columns[k]) < s.fields.len()
                    && text::same_fold(s.fields[columns[k] as int].name, names[k])
        },
    decreases keys.len() - i,
{
    if i < keys.len() {
        if let Some(name) = key_column(keys[i]) {
            schema::find_gives_first(s.fields, text::lower(name), 0);
            if let Some(j) = schema::find_field(s, text::lower(name)) {
                lemma_key_columns(
                    keys,
                    i + 1,
                    at.push(j as usize),
                    folded.push(text::lower(name)),
                    s,
                );
            }
        }
    }
}

/// An index is made over columns of its table, one per key.
pub proof fn index_keys_are_columns(s: CreateIndexStmt, cat: CatalogView)
    requires
        (cat.table)(names::simple_name(s.table)) matches Some(meta) ==> meta.schema.fields.len()
            <= usize::MAX,
    ensures
        bound_create_index(s, cat) matches Ok(p) ==> {
            &&& p matches LogicalPlanView::CreateIndex(index)
            &&& (cat.table)(index.table_name) matches Some(meta)
            &&& index.columns.len() == s.columns@.len()
            &&& forall|k: int|
                0 <= k < index.columns.len() ==> (#[trigger] index.columns[k])
                    < meta.schema.fields.len()
        },
{
    if let Some(meta) = (cat.table)(names::simple_name(s.table)) {
        lemma_key_columns(s.columns@, 0, Seq::empty(), Seq::empty(), meta.schema);
    }
}

/// An `ALTER TABLE` is accepted only where it adds a column whose name the
/// table does not have.
pub proof fn only_new_columns_are_added(s: AlterTableStmt, cat: CatalogView)
    ensures
        bound_alter_table(s, cat) is Ok ==> {
            &&& s.action matches AlterTableAction::AddColumn { column }
            &&& (cat.table)(names::simple_name(s.name)) matches Some(meta)
            &&& forall|i: int|
                0 <= i < meta.schema.fields.len() ==> !text::same_fold(
                    (#[trigger] meta.schema.fields[i]).name,
                    text::lower(column.name.value@),
                )
        },
{
    if let Some(meta) = (cat.table)(names::simple_name(s.name)) {
        if let AlterTableAction::AddColumn { column } = s.action {
            schema::find_gives_first(meta.schema.fields, text::lower(column.name.value@), 0);
        }
    }
}

} // verus!
