//! What the plan of an `ALTER TABLE` keeps of its action.
use crate::ast::{
    AlterTableAction, AlterTableStmt, ColumnDef, Expr, Identifier, Literal, StorageOption,
    TableConstraint,
};
use crate::binder::{names, sources};
use crate::catalog::{CatalogView, TableMetaView};
use crate::dialect::changes;
use crate::dialect::ddl::{alter, objects, rules, shared, tables};
use crate::dialect::dml;
use crate::dialect::reading::ReadingsView;
use crate::plan::{
    LogicalAlterTableActionView, LogicalCheckConstraintView, LogicalPlanView,
    LogicalTableOptionView, LogicalUniqueConstraintView,
};
use crate::schema::SchemaView;
use crate::{schema, text};
use vstd::prelude::*;

verus! {

/// Whether a place is that of the column which an identifier names.
pub open spec fn column_at(row: SchemaView, column: Identifier, index: usize) -> bool {
    sources::first_named(row, index as int, column.value@)
}

proof fn changed_columns_are_those_named(row: SchemaView, column: Identifier)
    requires
        row.fields.len() <= usize::MAX,
    ensures
        alter::changed_column(row, column) matches Ok(i) ==> column_at(row, column, i),
{
    schema::find_gives_first(row.fields, column.value@, 0);
    if let Some(i) = schema::find_field(row, column.value@) {
        assert(sources::first_named(row, i, column.value@));
    }
}

/// Whether an option has its stated value: the text of a number, of a text or of a
/// name, or the name of a truth value.
pub open spec fn option_value(e: Expr, value: Seq<char>) -> bool {
    match e {
        Expr::Literal(Literal::Integer { text }) => value == text@,
        Expr::Literal(Literal::Float { text, .. }) => value == text@,
        Expr::Literal(Literal::Text { value: stated }) => value == stated@,
        Expr::Literal(Literal::Typed { value: stated, .. }) => value == stated@,
        Expr::Literal(Literal::Bool { value: true }) => value == "true"@,
        Expr::Literal(Literal::Bool { value: false }) => value == "false"@,
        Expr::Column { name } => name.parts@.len() == 1 && value == name.parts@[0].value@,
        _ => false,
    }
}

/// The value of an option is the stated one.
pub proof fn option_values_are_those_stated(e: Expr)
    ensures
        shared::option_text(e) matches Ok(value) ==> option_value(e, value),
{
}

/// Whether options are those stated, in order, under their names in lower case.
pub open spec fn sets_options(
    stated: Seq<StorageOption>,
    options: Seq<LogicalTableOptionView>,
) -> bool {
    &&& options.len() == stated.len()
    &&& forall|k: int|
        0 <= k < options.len() ==> {
            &&& (#[trigger] options[k]).name == text::lower(stated[k].name.value@)
            &&& option_value(stated[k].value, options[k].value)
        }
}

proof fn table_options_are_those_stated(
    stated: Seq<StorageOption>,
    i: int,
    acc: Seq<LogicalTableOptionView>,
)
    requires
        0 <= i <= stated.len(),
        sets_options(stated.take(i), acc),
    ensures
        alter::table_options_from(stated, i, acc) matches Ok(out) ==> sets_options(stated, out),
    decreases stated.len() - i,
{
    if i < stated.len() {
        if let Ok(value) = shared::option_text(stated[i].value) {
            let made = LogicalTableOptionView { name: text::lower(stated[i].name.value@), value };
            let next = acc.push(made);
            option_values_are_those_stated(stated[i].value);
            assert forall|k: int| 0 <= k < next.len() implies {
                &&& (#[trigger] next[k]).name == text::lower(stated.take(i + 1)[k].name.value@)
                &&& option_value(stated.take(i + 1)[k].value, next[k].value)
            } by {
                if k < i {
                    assert(next[k] == acc[k]);
                    assert(stated.take(i)[k] == stated[k]);
                }
            }
            table_options_are_those_stated(stated, i + 1, next);
        }
    } else {
        assert(stated.take(i) =~= stated);
    }
}

/// Whether a key is the one added: over the columns of its names, of its kind, under
/// its name where it has one.
pub open spec fn adds_key(
    row: SchemaView,
    name: Option<Identifier>,
    columns: Seq<Identifier>,
    primary_key: bool,
    made: LogicalUniqueConstraintView,
) -> bool {
    &&& made.primary_key == primary_key
    &&& rules::keeps_name(name, made.name)
    &&& made.columns.len() == columns.len()
    &&& forall|k: int|
        0 <= k < columns.len() ==> column_at(row, columns[k], #[trigger] made.columns[k])
    &&& primary_key ==> forall|k: int|
        0 <= k < columns.len() ==> !row.fields[(#[trigger] made.columns[k]) as int].nullable
}

proof fn key_columns_are_those_named(
    columns: Seq<Identifier>,
    i: int,
    row: SchemaView,
    primary_key: bool,
    acc: Seq<usize>,
)
    requires
        0 <= i <= columns.len(),
        acc.len() == i,
        row.fields.len() <= usize::MAX,
        forall|k: int| 0 <= k < i ==> column_at(row, columns[k], #[trigger] acc[k]),
        primary_key ==> forall|k: int|
            0 <= k < i ==> !row.fields[(#[trigger] acc[k]) as int].nullable,
    ensures
        alter::key_columns(columns, i, row, primary_key, acc) matches Ok(out) ==> {
            &&& out.len() == columns.len()
            &&& forall|k: int|
                0 <= k < columns.len() ==> column_at(row, columns[k], #[trigger] out[k])
            &&& primary_key ==> forall|k: int|
                0 <= k < columns.len() ==> !row.fields[(#[trigger] out[k]) as int].nullable
        },
    decreases columns.len() - i,
{
    if i < columns.len() {
        changed_columns_are_those_named(row, columns[i]);
        if let Ok(c) = alter::changed_column(row, columns[i]) {
            if !(primary_key && row.fields[c as int].nullable) {
                let next = acc.push(c);
                assert forall|k: int| 0 <= k < i + 1 implies column_at(
                    row,
                    columns[k],
                    #[trigger] next[k],
                ) by {
                    if k < i {
                        assert(next[k] == acc[k]);
                    }
                }
                assert forall|k: int| primary_key && 0 <= k < i + 1 implies !row.fields[(
                #[trigger] next[k]) as int].nullable by {
                    if k < i {
                        assert(next[k] == acc[k]);
                    }
                }
                key_columns_are_those_named(columns, i + 1, row, primary_key, next);
            }
        }
    }
}

/// An added key is the stated one.
pub proof fn added_keys_are_those_stated(
    table: Seq<char>,
    row: SchemaView,
    name: Option<Identifier>,
    columns: Seq<Identifier>,
    primary_key: bool,
)
    requires
        row.fields.len() <= usize::MAX,
    ensures
        alter::added_key(table, row, name, columns, primary_key) matches Ok(made) ==> adds_key(
            row,
            name,
            columns,
            primary_key,
            made,
        ),
{
    key_columns_are_those_named(columns, 0, row, primary_key, Seq::empty());
}

/// Whether a check is the one added, bound against the row of its table.
pub open spec fn adds_check(
    row: SchemaView,
    name: Option<Identifier>,
    e: Expr,
    cat: CatalogView,
    r: ReadingsView,
    made: LogicalCheckConstraintView,
) -> bool {
    &&& rules::keeps_name(name, made.name)
    &&& changes::tests(e, made.expr, row, cat, Seq::empty(), r)
}

/// An added check is the stated one.
pub proof fn added_checks_are_those_stated(
    table: Seq<char>,
    row: SchemaView,
    name: Option<Identifier>,
    e: Expr,
    cat: CatalogView,
    r: ReadingsView,
)
    ensures
        alter::added_check(table, row, name, e, cat, r) matches Ok(made) ==> adds_check(
            row,
            name,
            e,
            cat,
            r,
            made,
        ),
{
    reveal(changes::tests);
}

/// Whether a change adds the stated constraint.
pub open spec fn adds_constraint(
    row: SchemaView,
    c: TableConstraint,
    cat: CatalogView,
    r: ReadingsView,
    change: LogicalAlterTableActionView,
) -> bool {
    match (c, change) {
        (
            TableConstraint::PrimaryKey { name, columns },
            LogicalAlterTableActionView::AddUniqueConstraint { constraint },
        ) => adds_key(row, name, columns@, true, constraint),
        (
            TableConstraint::Unique { name, columns },
            LogicalAlterTableActionView::AddUniqueConstraint { constraint },
        ) => adds_key(row, name, columns@, false, constraint),
        (
            TableConstraint::Check { name, expr },
            LogicalAlterTableActionView::AddCheckConstraint { constraint },
        ) => adds_check(row, name, expr, cat, r, constraint),
        _ => false,
    }
}

proof fn added_constraints_are_those_stated(
    table: Seq<char>,
    row: SchemaView,
    c: TableConstraint,
    cat: CatalogView,
    r: ReadingsView,
)
    requires
        row.fields.len() <= usize::MAX,
    ensures
        alter::added_constraint(table, row, c, cat, r) matches Ok(change) ==> adds_constraint(
            row,
            c,
            cat,
            r,
            change,
        ),
{
    match c {
        TableConstraint::PrimaryKey { name, columns } => {
            added_keys_are_those_stated(table, row, name, columns@, true);
        },
        TableConstraint::Unique { name, columns } => {
            added_keys_are_those_stated(table, row, name, columns@, false);
        },
        TableConstraint::Check { name, expr } => {
            added_checks_are_those_stated(table, row, name, expr, cat, r);
        },
        _ => {},
    }
}

/// Whether a change adds the stated column: a new name, without nulls exactly where
/// it says so, and with its default.
pub open spec fn adds_column(
    c: ColumnDef,
    row: SchemaView,
    cat: CatalogView,
    r: ReadingsView,
    change: LogicalAlterTableActionView,
) -> bool {
    &&& change matches LogicalAlterTableActionView::AddColumn { column, default }
    &&& column.name == c.name.value@
    &&& column.nullable <==> !tables::states_not_null(c)
    &&& tables::defaults_column(c, default, column.data_type, cat, r)
    &&& forall|k: int|
        0 <= k < row.fields.len() ==> !text::same_fold(
            (#[trigger] row.fields[k]).name,
            c.name.value@,
        )
}

proof fn added_columns_are_those_stated(
    c: ColumnDef,
    row: SchemaView,
    cat: CatalogView,
    r: ReadingsView,
)
    ensures
        alter::added_column(c, row, cat, r) matches Ok(change) ==> adds_column(
            c,
            row,
            cat,
            r,
            change,
        ),
{
    schema::find_gives_first(row.fields, c.name.value@, 0);
    tables::defaults_are_those_stated(c.constraints@, 0, None);
    if let Ok(change) = alter::added_column(c, row, cat, r) {
        if let LogicalAlterTableActionView::AddColumn { column, .. } = change {
            if let Ok(Some(e)) = shared::default_from(c.constraints@, 0, None) {
                tables::default_values_are_those_stated(
                    e,
                    c.name.value@,
                    column.data_type,
                    cat,
                    r,
                    "ALTER TABLE ADD COLUMN: DEFAULT may not refer to rows, parameters, or subqueries"@,
                );
            }
            if shared::takes_nulls(c.constraints@) {
                assert forall|k: int| 0 <= k < c.constraints@.len() implies !(
                #[trigger] c.constraints@[k] is NotNull) && !(c.constraints@[k] is PrimaryKey) by {
                    assert(!shared::refuses_nulls(c.constraints@[k]));
                }
            } else {
                let k = choose|k: int|
                    0 <= k < c.constraints@.len() && shared::refuses_nulls(
                        #[trigger] c.constraints@[k],
                    );
                assert(c.constraints@[k] is NotNull || c.constraints@[k] is PrimaryKey);
            }
        }
    }
}

/// Whether a change is what an action asks of a table.
pub open spec fn changes_table(
    action: AlterTableAction,
    meta: TableMetaView,
    cat: CatalogView,
    r: ReadingsView,
    change: LogicalAlterTableActionView,
) -> bool {
    let row = meta.schema;
    match action {
        AlterTableAction::AddColumn { column } => adds_column(column, row, cat, r, change),
        AlterTableAction::AddConstraint { constraint } => adds_constraint(
            row,
            constraint,
            cat,
            r,
            change,
        ),
        AlterTableAction::DropColumn { name } => {
            &&& change matches LogicalAlterTableActionView::DropColumn { column_index, column_name }
            &&& column_at(row, name, column_index) && column_name == name.value@
            &&& row.fields.len() > 1
        },
        AlterTableAction::RenameColumn { old_name, new_name } => {
            &&& change matches LogicalAlterTableActionView::RenameColumn {
                column_index,
                old_name: from,
                new_name: to,
            }
            &&& column_at(row, old_name, column_index)
            &&& from == old_name.value@ && to == new_name.value@
            &&& forall|k: int|
                0 <= k < row.fields.len() ==> !text::same_fold(
                    (#[trigger] row.fields[k]).name,
                    new_name.value@,
                )
        },
        AlterTableAction::RenameTable { new_name } => {
            &&& change matches LogicalAlterTableActionView::RenameTable { new_name: to }
            &&& to == new_name.value@
            &&& (cat.table_in)(meta.schema_name, to) is None
        },
        AlterTableAction::EnableRowLevelSecurity => change is EnableRowLevelSecurity,
        AlterTableAction::SetOptions { options } => {
            &&& change matches LogicalAlterTableActionView::SetOptions { options: kept }
            &&& sets_options(options@, kept)
        },
        AlterTableAction::DropConstraint { name, if_exists, cascade } => {
            &&& change matches LogicalAlterTableActionView::DropConstraint {
                name: kept,
                if_exists: e,
                cascade: c,
            }
            &&& kept == text::lower(name.value@) && e == if_exists && c == cascade
        },
        AlterTableAction::AlterColumnSetNotNull { column } => {
            &&& change matches LogicalAlterTableActionView::AlterColumnSetNotNull {
                column_index,
                column_name,
            }
            &&& column_at(row, column, column_index) && column_name == column.value@
        },
        AlterTableAction::AlterColumnDropNotNull { column } => {
            &&& change matches LogicalAlterTableActionView::AlterColumnDropNotNull {
                column_index,
                column_name,
            }
            &&& column_at(row, column, column_index) && column_name == column.value@
        },
        AlterTableAction::AlterColumnSetDefault { column, expr } => {
            &&& change matches LogicalAlterTableActionView::AlterColumnSetDefault {
                column_index,
                column_name,
                default,
            }
            &&& column_at(row, column, column_index) && column_name == column.value@
            &&& tables::fills(
                expr,
                default,
                row.fields[column_index as int].data_type,
                schema::empty_schema(),
                cat,
                r,
            )
        },
        AlterTableAction::AlterColumnDropDefault { column } => {
            &&& change matches LogicalAlterTableActionView::AlterColumnDropDefault {
                column_index,
                column_name,
            }
            &&& column_at(row, column, column_index) && column_name == column.value@
        },
    }
}

/// A change of a table is what its action asks.
pub proof fn changes_are_those_asked(
    action: AlterTableAction,
    table: Seq<char>,
    meta: TableMetaView,
    cat: CatalogView,
    r: ReadingsView,
)
    requires
        meta.schema.fields.len() <= usize::MAX,
    ensures
        alter::table_change(action, table, meta, cat, r) matches Ok(change) ==> changes_table(
            action,
            meta,
            cat,
            r,
            change,
        ),
{
    let row = meta.schema;
    match action {
        AlterTableAction::AddColumn { column } => {
            added_columns_are_those_stated(column, row, cat, r);
        },
        AlterTableAction::AddConstraint { constraint } => {
            added_constraints_are_those_stated(table, row, constraint, cat, r);
        },
        AlterTableAction::DropColumn { name } => {
            changed_columns_are_those_named(row, name);
        },
        AlterTableAction::RenameColumn { old_name, new_name } => {
            changed_columns_are_those_named(row, old_name);
            schema::find_gives_first(row.fields, new_name.value@, 0);
        },
        AlterTableAction::SetOptions { options } => {
            table_options_are_those_stated(options@, 0, Seq::empty());
        },
        AlterTableAction::AlterColumnSetNotNull { column } => {
            changed_columns_are_those_named(row, column);
        },
        AlterTableAction::AlterColumnDropNotNull { column } => {
            changed_columns_are_those_named(row, column);
        },
        AlterTableAction::AlterColumnSetDefault { column, expr } => {
            changed_columns_are_those_named(row, column);
            if let Ok(i) = alter::changed_column(row, column) {
                tables::default_values_are_those_stated(
                    expr,
                    column.value@,
                    row.fields[i as int].data_type,
                    cat,
                    r,
                    "ALTER TABLE ALTER COLUMN SET DEFAULT: DEFAULT may not refer to rows, parameters, or subqueries"@,
                );
            }
        },
        AlterTableAction::AlterColumnDropDefault { column } => {
            changed_columns_are_those_named(row, column);
        },
        _ => {},
    }
}

/// An `ALTER TABLE` changes the table that it names as its action asks.
pub proof fn alterations_keep_their_table(s: AlterTableStmt, cat: CatalogView, r: ReadingsView)
    requires
        dml::named_table(s.name, cat) matches Ok((_, meta)) ==> meta.schema.fields.len()
            <= usize::MAX,
    ensures
        alter::bound_alter_table(s, cat, r) matches Ok(p) ==> {
            &&& p matches LogicalPlanView::AlterTable { table_name, change, .. }
            &&& objects::is_table(s.name, table_name, cat)
            &&& dml::named_table(s.name, cat) matches Ok((_, meta))
            &&& changes::refers_to(s.name, table_name, meta.schema, cat)
            &&& changes_table(s.action, meta, cat, r, change)
        },
{
    if let Ok((_, meta)) = dml::named_table(s.name, cat) {
        changes_are_those_asked(s.action, names::simple_name(s.name), meta, cat, r);
    }
}

} // verus!
