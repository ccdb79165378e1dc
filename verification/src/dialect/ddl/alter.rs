//! Binding of `ALTER TABLE` and `TRUNCATE`.
use crate::ast::{
    AlterTableAction, AlterTableStmt, ColumnConstraint, ColumnDef, Expr, Identifier, ObjectName,
    StorageOption, TableConstraint, TruncateStmt,
};
use crate::binder::names;
use crate::binder::names::object_name_simple;
use crate::catalog::{Catalog, CatalogView, TableMeta, TableMetaView};
use crate::datatype::DataTypeView;
use crate::dialect::ddl::shared::{
    all_lower_names, bind_condition, bind_default_value, column_default,
    index_option_value_to_string, named_or, resolve_column_nullability, unique_name,
};
use crate::dialect::ddl::typedef::resolve_type_name_with_catalog;
use crate::dialect::ddl::{shared, typedef};
use crate::dialect::dml;
use crate::dialect::dml::lookup_table_reference;
use crate::dialect::reading::{Readings, ReadingsView};
use crate::error::{PlanError, PlanErrorView};
use crate::plan::{
    LogicalAlterTableAction, LogicalAlterTableActionView, LogicalCheckConstraint,
    LogicalCheckConstraintView, LogicalPlan, LogicalPlanView, LogicalTableOption,
    LogicalTableOptionView, LogicalUniqueConstraint, LogicalUniqueConstraintView,
};
use crate::query::ScalarExprView;
use crate::schema::{Field, FieldView, Schema, SchemaView};
use crate::text::{cat2, cat3, text_eq, to_lower};
use crate::{error, list, plan, schema, text};
use vstd::prelude::*;

verus! {

/// Whether a constraint can be stated for a column that is added.
pub open spec fn addable(c: ColumnConstraint) -> bool {
    c is Null || c is NotNull || c is Default
}

/// Whether the constraints of an added column are supported, or the complaint.
pub open spec fn addable_rule(constraints: Seq<ColumnConstraint>) -> Result<(), PlanErrorView> {
    if forall|i: int| 0 <= i < constraints.len() ==> addable(#[trigger] constraints[i]) {
        Ok(())
    } else {
        Err(
            PlanErrorView::NotSupported(
                "ALTER TABLE ADD COLUMN currently supports only NULL, NOT NULL, and DEFAULT column constraints"@,
            ),
        )
    }
}

/// Checks that the constraints of an added column are supported.
pub fn reject_unsupported_alter_add_column_constraints(
    constraints: &Vec<ColumnConstraint>,
) -> (made:
    Result<(), PlanError>)
    ensures
        error::outcome(made) == addable_rule(constraints@),
{
    let mut i: usize = 0;
    while i < constraints.len()
        invariant
            i <= constraints.len(),
            forall|j: int| 0 <= j < i ==> addable(#[trigger] constraints@[j]),
        decreases constraints.len() - i,
    {
        let fits = matches!(
            &constraints[i],
            ColumnConstraint::Null | ColumnConstraint::NotNull | ColumnConstraint::Default { .. }
        );
        if !fits {
            assert(!addable(constraints@[i as int]));
            return Err(
                PlanError::NotSupported(
                    "ALTER TABLE ADD COLUMN currently supports only NULL, NOT NULL, and DEFAULT column constraints",
                ),
            );
        }
        i = i + 1;
    }
    Ok(())
}

/// An added column, and its default.
pub open spec fn added_column(
    c: ColumnDef,
    row: SchemaView,
    cat: CatalogView,
    r: ReadingsView,
) -> Result<
    LogicalAlterTableActionView,
    PlanErrorView,
> {
    let name = c.name.value@;
    if schema::find_field(row, name) is Some {
        Err(PlanErrorView::DuplicateColumn(name))
    } else {
        match addable_rule(c.constraints@) {
            Err(e) => Err(e),
            Ok(_) => match typedef::declared_type_in(c.data_type, cat) {
                Err(e) => Err(e),
                Ok(ty) => match added_default(c, ty, cat, r) {
                    Err(e) => Err(e),
                    Ok(default) => Ok(
                        LogicalAlterTableActionView::AddColumn {
                            column: FieldView {
                                name,
                                data_type: ty,
                                nullable: shared::takes_nulls(c.constraints@),
                            },
                            default,
                        },
                    ),
                },
            },
        }
    }
}

/// The default of an added column.
pub open spec fn added_default(
    c: ColumnDef,
    ty: DataTypeView,
    cat: CatalogView,
    r: ReadingsView,
) -> Result<
    Option<ScalarExprView>,
    PlanErrorView,
> {
    match shared::default_from(c.constraints@, 0, None) {
        Err(e) => Err(e),
        Ok(None) => Ok(None),
        Ok(Some(e)) => match shared::default_value(
            e,
            c.name.value@,
            ty,
            cat,
            r,
            "ALTER TABLE ADD COLUMN: DEFAULT may not refer to rows, parameters, or subqueries"@,
        ) {
            Err(e) => Err(e),
            Ok(v) => Ok(Some(v)),
        },
    }
}

/// A change of a table with its outcome as models.
pub open spec fn change_outcome(r: Result<LogicalAlterTableAction, PlanError>) -> Result<
    LogicalAlterTableActionView,
    PlanErrorView,
> {
    match r {
        Ok(x) => Ok(x@),
        Err(e) => Err(e@),
    }
}

fn bind_added_column<C: Catalog>(
    c: &ColumnDef,
    row: &Schema,
    catalog: &C,
    readings: &Readings,
) -> (made:
    Result<LogicalAlterTableAction, PlanError>)
    ensures
        change_outcome(made) == added_column(*c, row@, catalog.model(), readings@),
{
    let name = c.name.value.as_str();
    if row.find(name).is_some() {
        return Err(PlanError::DuplicateColumn(c.name.value.clone()));
    }
    reject_unsupported_alter_add_column_constraints(&c.constraints)?;
    let ty = resolve_type_name_with_catalog(&c.data_type, catalog)?;
    let nullable = resolve_column_nullability(&c.constraints);
    let default = match column_default(&c.constraints)? {
        None => None,
        Some(e) => {
            let v = bind_default_value(
                e,
                name,
                &ty,
                catalog,
                readings,
                "ALTER TABLE ADD COLUMN: DEFAULT may not refer to rows, parameters, or subqueries",
            )?;
            Some(v)
        },
    };
    Ok(
        LogicalAlterTableAction::AddColumn {
            column: Field { name: c.name.value.clone(), data_type: ty, nullable },
            default,
        },
    )
}

/// The position of the column that is changed.
pub open spec fn changed_column(
    row: SchemaView,
    column: Identifier,
) -> Result<usize, PlanErrorView> {
    match schema::find_field(row, column.value@) {
        None => Err(PlanErrorView::ColumnNotFound(column.value@)),
        Some(i) => Ok(i as usize),
    }
}

/// Finds the position of the column that is changed.
pub fn resolve_alter_column(table_schema: &Schema, column: &Identifier) -> (made: Result<
    usize,
    PlanError,
>)
    ensures
        error::outcome(made) == changed_column(table_schema@, *column),
        made matches Ok(i) ==> i < table_schema@.fields.len(),
{
    match table_schema.find(column.value.as_str()) {
        None => Err(PlanError::ColumnNotFound(column.value.clone())),
        Some(i) => Ok(i),
    }
}

/// Whether a table has an option of the given name, or the complaint.
pub open spec fn table_option_rule(name: Seq<char>) -> Result<(), PlanErrorView> {
    if name == "autovacuum_vacuum_threshold"@ || name == "autovacuum_vacuum_scale_factor"@ || name
        == "autovacuum_analyze_threshold"@ || name == "autovacuum_analyze_scale_factor"@ {
        Ok(())
    } else {
        Err(
            PlanErrorView::NotSupported("ALTER TABLE SET supports autovacuum reloptions only"@),
        )
    }
}

/// Checks that a table has an option of the given name.
pub fn validate_table_option_name(name: &str) -> (made: Result<(), PlanError>)
    ensures
        error::outcome(made) == table_option_rule(name@),
{
    if text_eq(name, "autovacuum_vacuum_threshold") || text_eq(
        name,
        "autovacuum_vacuum_scale_factor",
    ) || text_eq(name, "autovacuum_analyze_threshold") || text_eq(
        name,
        "autovacuum_analyze_scale_factor",
    ) {
        return Ok(());
    }
    Err(PlanError::NotSupported("ALTER TABLE SET supports autovacuum reloptions only"))
}

/// The options of a table from the `i`-th on.
pub open spec fn table_options_from(
    options: Seq<StorageOption>,
    i: int,
    acc: Seq<LogicalTableOptionView>,
) -> Result<
    Seq<LogicalTableOptionView>,
    PlanErrorView,
>
    decreases options.len() - i,
{
    if i < 0 || i >= options.len() {
        Ok(acc)
    } else {
        let name = text::lower(options[i].name.value@);
        match table_option_rule(name) {
            Err(e) => Err(e),
            Ok(_) => match shared::option_text(options[i].value) {
                Err(e) => Err(e),
                Ok(value) => table_options_from(
                    options,
                    i + 1,
                    acc.push(LogicalTableOptionView { name, value }),
                ),
            },
        }
    }
}

fn bind_table_options(options: &Vec<StorageOption>) -> (made: Result<
    Vec<LogicalTableOption>,
    PlanError,
>)
    ensures
        (match made {
            Ok(x) => Ok(plan::table_options_view(x@)),
            Err(e) => Err(e@),
        }) == table_options_from(options@, 0, Seq::empty()),
{
    let mut out: Vec<LogicalTableOption> = Vec::new();
    assert(plan::table_options_view(out@) =~= Seq::empty());
    let mut i: usize = 0;
    while i < options.len()
        invariant
            i <= options.len(),
            table_options_from(options@, i as int, plan::table_options_view(out@))
                == table_options_from(options@, 0, Seq::empty()),
        decreases options.len() - i,
    {
        let name = to_lower(options[i].name.value.as_str());
        validate_table_option_name(name.as_str())?;
        let value = index_option_value_to_string(&options[i].value)?;
        let option = LogicalTableOption { name, value };
        proof {
            plan::lemma_table_options_push(out@, option);
        }
        out.push(option);
        i = i + 1;
    }
    Ok(out)
}

/// The positions of the columns of an added key from the `i`-th on. The columns
/// of a primary key already refuse nulls.
pub open spec fn key_columns(
    columns: Seq<Identifier>,
    i: int,
    row: SchemaView,
    primary_key: bool,
    acc: Seq<usize>,
) -> Result<Seq<usize>, PlanErrorView>
    decreases columns.len() - i,
{
    if i < 0 || i >= columns.len() {
        Ok(acc)
    } else {
        match changed_column(row, columns[i]) {
            Err(e) => Err(e),
            Ok(k) => if primary_key && row.fields[k as int].nullable {
                Err(
                    PlanErrorView::NotSupported(
                        "ALTER TABLE: ADD PRIMARY KEY currently requires NOT NULL columns"@,
                    ),
                )
            } else {
                key_columns(columns, i + 1, row, primary_key, acc.push(k))
            },
        }
    }
}

fn find_key_columns(columns: &Vec<Identifier>, row: &Schema, primary_key: bool) -> (made: Result<
    Vec<usize>,
    PlanError,
>)
    ensures
        error::list_outcome(made) == key_columns(columns@, 0, row@, primary_key, Seq::empty()),
{
    let mut out: Vec<usize> = Vec::new();
    let mut i: usize = 0;
    while i < columns.len()
        invariant
            i <= columns.len(),
            key_columns(columns@, i as int, row@, primary_key, out@) == key_columns(
                columns@,
                0,
                row@,
                primary_key,
                Seq::empty(),
            ),
        decreases columns.len() - i,
    {
        let k = resolve_alter_column(row, &columns[i])?;
        if primary_key && row.field_at(k).nullable {
            return Err(
                PlanError::NotSupported(
                    "ALTER TABLE: ADD PRIMARY KEY currently requires NOT NULL columns",
                ),
            );
        }
        out.push(k);
        i = i + 1;
    }
    Ok(out)
}

/// An added key.
pub open spec fn added_key(
    table: Seq<char>,
    row: SchemaView,
    name: Option<Identifier>,
    columns: Seq<Identifier>,
    primary_key: bool,
) -> Result<LogicalUniqueConstraintView, PlanErrorView> {
    if columns.len() == 0 {
        Err(
            PlanErrorView::NotSupported("ALTER TABLE: empty unique constraints are not supported"@),
        )
    } else {
        match key_columns(columns, 0, row, primary_key, Seq::empty()) {
            Err(e) => Err(e),
            Ok(positions) => Ok(
                LogicalUniqueConstraintView {
                    name: shared::name_or(
                        name,
                        shared::default_unique_name(
                            table,
                            shared::lower_names(columns),
                            primary_key,
                        ),
                    ),
                    columns: positions,
                    primary_key,
                },
            ),
        }
    }
}

/// Binds an added key.
pub fn bind_alter_add_unique_constraint(
    table_name: &str,
    table_schema: &Schema,
    name: &Option<Identifier>,
    columns: &Vec<Identifier>,
    primary_key: bool,
) -> (made: Result<LogicalUniqueConstraint, PlanError>)
    ensures
        (match made {
            Ok(x) => Ok(x@),
            Err(e) => Err(e@),
        }) == added_key(table_name@, table_schema@, *name, columns@, primary_key),
{
    if columns.len() == 0 {
        return Err(
            PlanError::NotSupported("ALTER TABLE: empty unique constraints are not supported"),
        );
    }
    let positions = find_key_columns(columns, table_schema, primary_key)?;
    let folded = all_lower_names(columns);
    let fallback = unique_name(table_name, &folded, primary_key);
    Ok(LogicalUniqueConstraint { name: named_or(name, fallback), columns: positions, primary_key })
}

/// An added condition.
pub open spec fn added_check(
    table: Seq<char>,
    row: SchemaView,
    name: Option<Identifier>,
    e: Expr,
    cat: CatalogView,
    r: ReadingsView,
) -> Result<LogicalCheckConstraintView, PlanErrorView> {
    let check_name = shared::name_or(name, table + "_check"@);
    match shared::bound_condition(e, row, cat, r, "CHECK constraint '"@ + check_name + "'"@) {
        Err(e) => Err(e),
        Ok(expr) => Ok(LogicalCheckConstraintView { name: check_name, expr }),
    }
}

/// Binds an added condition.
pub fn bind_alter_add_check_constraint<C: Catalog>(
    table_name: &str,
    table_schema: &Schema,
    name: &Option<Identifier>,
    e: &Expr,
    catalog: &C,
    readings: &Readings,
) -> (made: Result<LogicalCheckConstraint, PlanError>)
    ensures
        (match made {
            Ok(x) => Ok(x@),
            Err(e) => Err(e@),
        }) == added_check(table_name@, table_schema@, *name, *e, catalog.model(), readings@),
{
    let fallback = cat2(table_name, "_check");
    let check_name = named_or(name, fallback);
    let subject = cat3("CHECK constraint '", check_name.as_str(), "'");
    let expr = bind_condition(e, table_schema, catalog, readings, subject.as_str())?;
    Ok(LogicalCheckConstraint { name: check_name, expr })
}

/// An added constraint.
pub open spec fn added_constraint(
    table: Seq<char>,
    row: SchemaView,
    c: TableConstraint,
    cat: CatalogView,
    r: ReadingsView,
) -> Result<LogicalAlterTableActionView, PlanErrorView> {
    match c {
        TableConstraint::PrimaryKey { name, columns } => match added_key(
            table,
            row,
            name,
            columns@,
            true,
        ) {
            Err(e) => Err(e),
            Ok(constraint) => Ok(LogicalAlterTableActionView::AddUniqueConstraint { constraint }),
        },
        TableConstraint::Unique { name, columns } => match added_key(
            table,
            row,
            name,
            columns@,
            false,
        ) {
            Err(e) => Err(e),
            Ok(constraint) => Ok(LogicalAlterTableActionView::AddUniqueConstraint { constraint }),
        },
        TableConstraint::Check { name, expr } => match added_check(table, row, name, expr, cat, r) {
            Err(e) => Err(e),
            Ok(constraint) => Ok(LogicalAlterTableActionView::AddCheckConstraint { constraint }),
        },
        TableConstraint::ForeignKey { .. } => Err(
            PlanErrorView::NotSupported(
                "ALTER TABLE: ADD CONSTRAINT FOREIGN KEY is not yet supported; declare the foreign key in CREATE TABLE instead"@,
            ),
        ),
        TableConstraint::Exclude { .. } => Err(
            PlanErrorView::NotSupported(
                "ALTER TABLE: ADD CONSTRAINT supports PRIMARY KEY, UNIQUE, and CHECK"@,
            ),
        ),
    }
}

fn bind_added_constraint<C: Catalog>(
    table: &str,
    row: &Schema,
    c: &TableConstraint,
    catalog: &C,
    readings: &Readings,
) -> (made: Result<LogicalAlterTableAction, PlanError>)
    ensures
        change_outcome(made) == added_constraint(table@, row@, *c, catalog.model(), readings@),
{
    match c {
        TableConstraint::PrimaryKey { name, columns } => {
            let constraint = bind_alter_add_unique_constraint(table, row, name, columns, true)?;
            Ok(LogicalAlterTableAction::AddUniqueConstraint { constraint })
        },
        TableConstraint::Unique { name, columns } => {
            let constraint = bind_alter_add_unique_constraint(table, row, name, columns, false)?;
            Ok(LogicalAlterTableAction::AddUniqueConstraint { constraint })
        },
        TableConstraint::Check { name, expr } => {
            let constraint = bind_alter_add_check_constraint(
                table,
                row,
                name,
                expr,
                catalog,
                readings,
            )?;
            Ok(LogicalAlterTableAction::AddCheckConstraint { constraint })
        },
        TableConstraint::ForeignKey { .. } => Err(
            PlanError::NotSupported(
                "ALTER TABLE: ADD CONSTRAINT FOREIGN KEY is not yet supported; declare the foreign key in CREATE TABLE instead",
            ),
        ),
        TableConstraint::Exclude { .. } => Err(
            PlanError::NotSupported(
                "ALTER TABLE: ADD CONSTRAINT supports PRIMARY KEY, UNIQUE, and CHECK",
            ),
        ),
    }
}

/// A dropped column. A table keeps at least one.
pub open spec fn dropped_column(row: SchemaView, name: Identifier) -> Result<
    LogicalAlterTableActionView,
    PlanErrorView,
> {
    match changed_column(row, name) {
        Err(e) => Err(e),
        Ok(column_index) => if row.fields.len() == 1 {
            Err(
                PlanErrorView::NotSupported(
                    "ALTER TABLE: cannot drop the last column of a table"@,
                ),
            )
        } else {
            Ok(LogicalAlterTableActionView::DropColumn { column_index, column_name: name.value@ })
        },
    }
}

fn bind_dropped_column(row: &Schema, name: &Identifier) -> (made: Result<
    LogicalAlterTableAction,
    PlanError,
>)
    ensures
        change_outcome(made) == dropped_column(row@, *name),
{
    let column_index = resolve_alter_column(row, name)?;
    if row.len() == 1 {
        return Err(
            PlanError::NotSupported("ALTER TABLE: cannot drop the last column of a table"),
        );
    }
    Ok(LogicalAlterTableAction::DropColumn { column_index, column_name: name.value.clone() })
}

/// A renamed column. The new name is not that of a column.
pub open spec fn renamed_column(
    row: SchemaView,
    old_name: Identifier,
    new_name: Identifier,
) -> Result<
    LogicalAlterTableActionView,
    PlanErrorView,
> {
    match changed_column(row, old_name) {
        Err(e) => Err(e),
        Ok(column_index) => if schema::find_field(row, new_name.value@) is Some {
            Err(PlanErrorView::DuplicateColumn(new_name.value@))
        } else {
            Ok(
                LogicalAlterTableActionView::RenameColumn {
                    column_index,
                    old_name: old_name.value@,
                    new_name: new_name.value@,
                },
            )
        },
    }
}

fn bind_renamed_column(row: &Schema, old_name: &Identifier, new_name: &Identifier) -> (made: Result<
    LogicalAlterTableAction,
    PlanError,
>)
    ensures
        change_outcome(made) == renamed_column(row@, *old_name, *new_name),
{
    let column_index = resolve_alter_column(row, old_name)?;
    if row.find(new_name.value.as_str()).is_some() {
        return Err(PlanError::DuplicateColumn(new_name.value.clone()));
    }
    Ok(
        LogicalAlterTableAction::RenameColumn {
            column_index,
            old_name: old_name.value.clone(),
            new_name: new_name.value.clone(),
        },
    )
}

/// A changed default.
pub open spec fn changed_default(
    row: SchemaView,
    column: Identifier,
    e: Expr,
    cat: CatalogView,
    r: ReadingsView,
) -> Result<LogicalAlterTableActionView, PlanErrorView> {
    match changed_column(row, column) {
        Err(e) => Err(e),
        Ok(column_index) => match shared::default_value(
            e,
            column.value@,
            row.fields[column_index as int].data_type,
            cat,
            r,
            "ALTER TABLE ALTER COLUMN SET DEFAULT: DEFAULT may not refer to rows, parameters, or subqueries"@,
        ) {
            Err(e) => Err(e),
            Ok(default) => Ok(
                LogicalAlterTableActionView::AlterColumnSetDefault {
                    column_index,
                    column_name: column.value@,
                    default,
                },
            ),
        },
    }
}

fn bind_changed_default<C: Catalog>(
    row: &Schema,
    column: &Identifier,
    e: &Expr,
    catalog: &C,
    readings: &Readings,
) -> (made: Result<LogicalAlterTableAction, PlanError>)
    ensures
        change_outcome(made) == changed_default(row@, *column, *e, catalog.model(), readings@),
{
    let column_index = resolve_alter_column(row, column)?;
    let default = bind_default_value(
        e,
        column.value.as_str(),
        &row.field_at(column_index).data_type,
        catalog,
        readings,
        "ALTER TABLE ALTER COLUMN SET DEFAULT: DEFAULT may not refer to rows, parameters, or subqueries",
    )?;
    Ok(
        LogicalAlterTableAction::AlterColumnSetDefault {
            column_index,
            column_name: column.value.clone(),
            default,
        },
    )
}

/// The change that an action makes to a table.
pub open spec fn table_change(
    action: AlterTableAction,
    table: Seq<char>,
    meta: TableMetaView,
    cat: CatalogView,
    r: ReadingsView,
) -> Result<LogicalAlterTableActionView, PlanErrorView> {
    let row = meta.schema;
    match action {
        AlterTableAction::AddColumn { column } => added_column(column, row, cat, r),
        AlterTableAction::DropColumn { name } => dropped_column(row, name),
        AlterTableAction::RenameColumn { old_name, new_name } => renamed_column(
            row,
            old_name,
            new_name,
        ),
        AlterTableAction::RenameTable { new_name } => if (cat.table_in)(
            meta.schema_name,
            new_name.value@,
        ) is Some {
            Err(PlanErrorView::DuplicateTable(new_name.value@))
        } else {
            Ok(LogicalAlterTableActionView::RenameTable { new_name: new_name.value@ })
        },
        AlterTableAction::EnableRowLevelSecurity => Ok(
            LogicalAlterTableActionView::EnableRowLevelSecurity,
        ),
        AlterTableAction::SetOptions { options } => match table_options_from(
            options@,
            0,
            Seq::empty(),
        ) {
            Err(e) => Err(e),
            Ok(options) => Ok(LogicalAlterTableActionView::SetOptions { options }),
        },
        AlterTableAction::AddConstraint { constraint } => added_constraint(
            table,
            row,
            constraint,
            cat,
            r,
        ),
        AlterTableAction::DropConstraint { name, if_exists, cascade } => Ok(
            LogicalAlterTableActionView::DropConstraint {
                name: text::lower(name.value@),
                if_exists,
                cascade,
            },
        ),
        AlterTableAction::AlterColumnSetNotNull { column } => match changed_column(row, column) {
            Err(e) => Err(e),
            Ok(column_index) => Ok(
                LogicalAlterTableActionView::AlterColumnSetNotNull {
                    column_index,
                    column_name: column.value@,
                },
            ),
        },
        AlterTableAction::AlterColumnDropNotNull { column } => match changed_column(row, column) {
            Err(e) => Err(e),
            Ok(column_index) => Ok(
                LogicalAlterTableActionView::AlterColumnDropNotNull {
                    column_index,
                    column_name: column.value@,
                },
            ),
        },
        AlterTableAction::AlterColumnSetDefault { column, expr } => changed_default(
            row,
            column,
            expr,
            cat,
            r,
        ),
        AlterTableAction::AlterColumnDropDefault { column } => match changed_column(row, column) {
            Err(e) => Err(e),
            Ok(column_index) => Ok(
                LogicalAlterTableActionView::AlterColumnDropDefault {
                    column_index,
                    column_name: column.value@,
                },
            ),
        },
    }
}

fn bind_table_change<C: Catalog>(
    action: &AlterTableAction,
    table: &str,
    meta: &TableMeta,
    catalog: &C,
    readings: &Readings,
) -> (made: Result<LogicalAlterTableAction, PlanError>)
    ensures
        change_outcome(made) == table_change(
            *action,
            table@,
            meta@,
            catalog.model(),
            readings@,
        ),
{
    let row = &meta.schema;
    match action {
        AlterTableAction::AddColumn { column } => bind_added_column(column, row, catalog, readings),
        AlterTableAction::DropColumn { name } => bind_dropped_column(row, name),
        AlterTableAction::RenameColumn { old_name, new_name } => bind_renamed_column(
            row,
            old_name,
            new_name,
        ),
        AlterTableAction::RenameTable { new_name } => {
            if catalog.lookup_table_in_schema(
                meta.schema_name.as_str(),
                new_name.value.as_str(),
            ).is_some() {
                return Err(PlanError::DuplicateTable(new_name.value.clone()));
            }
            Ok(LogicalAlterTableAction::RenameTable { new_name: new_name.value.clone() })
        },
        AlterTableAction::EnableRowLevelSecurity => Ok(
            LogicalAlterTableAction::EnableRowLevelSecurity,
        ),
        AlterTableAction::SetOptions { options } => {
            let options = bind_table_options(options)?;
            Ok(LogicalAlterTableAction::SetOptions { options })
        },
        AlterTableAction::AddConstraint { constraint } => bind_added_constraint(
            table,
            row,
            constraint,
            catalog,
            readings,
        ),
        AlterTableAction::DropConstraint { name, if_exists, cascade } => Ok(
            LogicalAlterTableAction::DropConstraint {
                name: to_lower(name.value.as_str()),
                if_exists: *if_exists,
                cascade: *cascade,
            },
        ),
        AlterTableAction::AlterColumnSetNotNull { column } => {
            let column_index = resolve_alter_column(row, column)?;
            Ok(
                LogicalAlterTableAction::AlterColumnSetNotNull {
                    column_index,
                    column_name: column.value.clone(),
                },
            )
        },
        AlterTableAction::AlterColumnDropNotNull { column } => {
            let column_index = resolve_alter_column(row, column)?;
            Ok(
                LogicalAlterTableAction::AlterColumnDropNotNull {
                    column_index,
                    column_name: column.value.clone(),
                },
            )
        },
        AlterTableAction::AlterColumnSetDefault { column, expr } => bind_changed_default(
            row,
            column,
            expr,
            catalog,
            readings,
        ),
        AlterTableAction::AlterColumnDropDefault { column } => {
            let column_index = resolve_alter_column(row, column)?;
            Ok(
                LogicalAlterTableAction::AlterColumnDropDefault {
                    column_index,
                    column_name: column.value.clone(),
                },
            )
        },
    }
}

/// What an `ALTER TABLE` is bound to.
pub open spec fn bound_alter_table(s: AlterTableStmt, cat: CatalogView, r: ReadingsView) -> Result<
    LogicalPlanView,
    PlanErrorView,
> {
    match dml::named_table(s.name, cat) {
        Err(e) => Err(e),
        Ok((table_name, meta)) => match table_change(
            s.action,
            names::simple_name(s.name),
            meta,
            cat,
            r,
        ) {
            Err(e) => Err(e),
            Ok(change) => Ok(
                LogicalPlanView::AlterTable { table_name, change, schema: schema::empty_schema() },
            ),
        },
    }
}

/// Binds an `ALTER TABLE` statement.
pub fn bind_alter_table<C: Catalog>(s: &AlterTableStmt, catalog: &C, readings: &Readings) -> (made:
    Result<LogicalPlan, PlanError>)
    ensures
        error::plan_outcome(made) == bound_alter_table(*s, catalog.model(), readings@),
{
    let (table_name, meta) = lookup_table_reference(catalog, &s.name)?;
    let simple = object_name_simple(&s.name);
    let change = bind_table_change(&s.action, simple.as_str(), &meta, catalog, readings)?;
    Ok(LogicalPlan::AlterTable { table_name, change, schema: Schema::empty() })
}

/// An added column never repeats the name of a column of its table, up to case.
pub proof fn added_columns_are_new(c: ColumnDef, row: SchemaView, cat: CatalogView, r: ReadingsView)
    ensures
        added_column(c, row, cat, r) is Ok ==> forall|i: int|
            0 <= i < row.fields.len() ==> !text::same_fold(
                (#[trigger] row.fields[i]).name,
                c.name.value@,
            ),
{
    schema::find_gives_first(row.fields, c.name.value@, 0);
}

/// The tables to empty from the `i`-th on. Each of them exists.
pub open spec fn emptied_tables(
    names: Seq<ObjectName>,
    i: int,
    cat: CatalogView,
    acc: Seq<Seq<char>>,
) -> Result<Seq<Seq<char>>, PlanErrorView>
    decreases names.len() - i,
{
    if i < 0 || i >= names.len() {
        Ok(acc)
    } else {
        match dml::named_table(names[i], cat) {
            Err(_) => Err(PlanErrorView::TableNotFound(names::simple_name(names[i]))),
            Ok((name, _)) => emptied_tables(names, i + 1, cat, acc.push(name)),
        }
    }
}

fn find_emptied_tables<C: Catalog>(names: &Vec<ObjectName>, catalog: &C) -> (made: Result<
    Vec<String>,
    PlanError,
>)
    ensures
        (match made {
            Ok(x) => Ok(list::strings_view(x@)),
            Err(e) => Err(e@),
        }) == emptied_tables(names@, 0, catalog.model(), Seq::empty()),
{
    let ghost cat = catalog.model();
    let mut out: Vec<String> = Vec::new();
    assert(list::strings_view(out@) =~= Seq::empty());
    let mut i: usize = 0;
    while i < names.len()
        invariant
            i <= names.len(),
            cat == catalog.model(),
            emptied_tables(names@, i as int, cat, list::strings_view(out@)) == emptied_tables(
                names@,
                0,
                cat,
                Seq::empty(),
            ),
        decreases names.len() - i,
    {
        match lookup_table_reference(catalog, &names[i]) {
            Err(_) => {
                return Err(PlanError::TableNotFound(object_name_simple(&names[i])));
            },
            Ok((name, _)) => {
                proof {
                    list::lemma_strings_push(out@, name);
                }
                out.push(name);
            },
        }
        i = i + 1;
    }
    Ok(out)
}

/// What a `TRUNCATE` is bound to.
pub open spec fn bound_truncate(s: TruncateStmt, cat: CatalogView) -> Result<
    LogicalPlanView,
    PlanErrorView,
> {
    match emptied_tables(s.tables@, 0, cat, Seq::empty()) {
        Err(e) => Err(e),
        Ok(tables) => Ok(
            LogicalPlanView::Truncate {
                tables,
                restart_identity: s.restart_identity,
                cascade: s.cascade,
                schema: schema::empty_schema(),
            },
        ),
    }
}

/// Binds a `TRUNCATE` statement.
pub fn bind_truncate<C: Catalog>(s: &TruncateStmt, catalog: &C) -> (made: Result<
    LogicalPlan,
    PlanError,
>)
    ensures
        error::plan_outcome(made) == bound_truncate(*s, catalog.model()),
{
    let tables = find_emptied_tables(&s.tables, catalog)?;
    Ok(
        LogicalPlan::Truncate {
            tables,
            restart_identity: s.restart_identity,
            cascade: s.cascade,
            schema: Schema::empty(),
        },
    )
}

} // verus!
