//! What plans keep of the statements that define tables and indexes.
use crate::ast::{
    AlterTableAction, AlterTableStmt, ColumnDef, CreateIndexStmt, CreateTableStmt, DropTableStmt,
    Expr, IndexKey, ObjectName, TypeName,
};
use crate::binder::{changes, ddl, names, sources};
use crate::catalog::CatalogView;
use crate::datatype::DataTypeView;
use crate::plan::{LogicalAlterTableActionView, LogicalPlanView};
use crate::schema::{FieldView, SchemaView};
use crate::{schema, text};
use vstd::prelude::*;

verus! {

/// Whether a type is the one of a name. Only a character type keeps a length.
pub open spec fn named(t: TypeName, made: DataTypeView) -> bool {
    let n = t.name.value@;
    &&& !t.is_array
    &&& match made {
        DataTypeView::Int16 => n == "smallint"@ || n == "int2"@,
        DataTypeView::Int32 => n == "int"@ || n == "integer"@ || n == "int4"@,
        DataTypeView::Int64 => n == "bigint"@ || n == "int8"@,
        DataTypeView::Bool => n == "bool"@ || n == "boolean"@,
        DataTypeView::Float32 => n == "real"@ || n == "float4"@,
        DataTypeView::Float64 => {
            n == "double"@ || n == "double precision"@ || n == "float"@ || n == "float8"@
        },
        DataTypeView::Text { max_len } => {
            ||| n == "text"@ && max_len is None
            ||| {
                &&& n == "varchar"@ || n == "character varying"@ || n == "char"@ || n
                    == "character"@ || n == "bpchar"@
                &&& t.type_modifiers@.len() == 0 ==> max_len is None
                &&& t.type_modifiers@.len() > 0 ==> max_len == Some(t.type_modifiers@[0])
            }
        },
        DataTypeView::Bytea => n == "bytea"@,
        _ => false,
    }
}

/// Every type of a name is found, and it is the one of the name.
pub proof fn type_names_are_known(t: TypeName)
    ensures
        ddl::named_type(t) matches Ok(made) ==> named(t, made),
        (exists|made: DataTypeView| #[trigger] named(t, made)) ==> ddl::named_type(t) is Ok,
{
}

/// Whether a column is the defined one: it has the name and the type of its
/// definition, and holds nulls unless it is `NOT NULL` or a primary key.
pub open spec fn defines(c: ColumnDef, f: FieldView) -> bool {
    &&& f.name == c.name.value@
    &&& named(c.data_type, f.data_type)
    &&& f.nullable <==> forall|k: int|
        0 <= k < c.constraints@.len() ==> !(#[trigger] c.constraints@[k] is NotNull)
            && !(c.constraints@[k] is PrimaryKey)
}

/// A definition makes the column that it states.
pub proof fn columns_are_those_defined(c: ColumnDef)
    ensures
        ddl::defined_column(c) matches Ok(f) ==> defines(c, f),
{
    ddl::defined_columns_hold_nulls(c);
}

proof fn defined_columns_follow(cols: Seq<ColumnDef>, i: int, acc: Seq<FieldView>)
    requires
        0 <= i <= cols.len(),
        acc.len() == i,
        forall|k: int| 0 <= k < i ==> defines(cols[k], #[trigger] acc[k]),
    ensures
        ddl::defined_columns(cols, i, acc) matches Ok(out) ==> {
            &&& out.len() == cols.len()
            &&& forall|k: int| 0 <= k < out.len() ==> defines(cols[k], #[trigger] out[k])
        },
    decreases cols.len() - i,
{
    if i < cols.len() {
        columns_are_those_defined(cols[i]);
        if let Ok(f) = ddl::defined_column(cols[i]) {
            defined_columns_follow(cols, i + 1, acc.push(f));
        }
    }
}

/// A `CREATE TABLE` makes the table of its name, in the namespace that the name
/// states or else in `public`, with the defined columns in order, and keeps
/// `IF NOT EXISTS`. It has no further rules.
pub proof fn created_tables_are_those_defined(s: CreateTableStmt, cat: CatalogView)
    ensures
        ddl::bound_create_table(s, cat) matches Ok(p) ==> {
            let n = s.name.parts@.len() as int;
            &&& p matches LogicalPlanView::CreateTable(t)
            &&& t.table_name == text::lower(names::last_part(s.name))
            &&& n >= 2 ==> t.namespace == text::lower(s.name.parts@[n - 2].value@)
            &&& n < 2 ==> t.namespace == "public"@
            &&& t.if_not_exists == s.if_not_exists
            &&& t.columns.fields.len() == s.columns@.len() && s.columns@.len() > 0
            &&& forall|k: int|
                0 <= k < s.columns@.len() ==> defines(s.columns@[k], #[trigger] t.columns.fields[k])
            &&& t.defaults.len() == 0 && t.checks.len() == 0 && t.unique_constraints.len() == 0
            &&& t.foreign_keys.len() == 0 && t.exclusion_constraints.len() == 0
            &&& t.sequence_defaults.len() == 0 && t.generated_stored.len() == 0
            &&& t.partition is None
        },
{
    defined_columns_follow(s.columns@, 0, Seq::empty());
}

/// Whether a place is that of the column that an index key names.
pub open spec fn keyed(k: IndexKey, place: usize, table: SchemaView) -> bool {
    &&& k.expr matches Expr::Column { name }
    &&& name.parts@.len() == 1
    &&& changes::place_of(table, text::lower(name.parts@[0].value@), place)
}

proof fn keys_follow(
    keys: Seq<IndexKey>,
    i: int,
    at: Seq<usize>,
    folded: Seq<Seq<char>>,
    table: SchemaView,
)
    requires
        0 <= i <= keys.len(),
        at.len() == i,
        folded.len() == i,
        forall|k: int| 0 <= k < i ==> keyed(keys[k], #[trigger] at[k], table),
        forall|k: int|
            0 <= k < i ==> (#[trigger] folded[k]) == text::lower(
                keys[k].expr->Column_name.parts@[0].value@,
            ),
    ensures
        ddl::key_columns(keys, i, at, folded, table) matches Ok((out, texts)) ==> {
            &&& out.len() == keys.len() && texts.len() == keys.len()
            &&& forall|k: int| 0 <= k < keys.len() ==> keyed(keys[k], #[trigger] out[k], table)
            &&& forall|k: int|
                0 <= k < keys.len() ==> (#[trigger] texts[k]) == text::lower(
                    keys[k].expr->Column_name.parts@[0].value@,
                )
        },
    decreases keys.len() - i,
{
    if i < keys.len() {
        if let Some(name) = ddl::key_column(keys[i]) {
            schema::find_gives_first(table.fields, text::lower(name), 0);
            if let Some(j) = schema::find_field(table, text::lower(name)) {
                assert(sources::first_named(table, j, text::lower(name)));
                assert(keyed(keys[i], j as usize, table));
                keys_follow(
                    keys,
                    i + 1,
                    at.push(j as usize),
                    folded.push(text::lower(name)),
                    table,
                );
            }
        }
    }
}

/// A `CREATE INDEX` makes a B-tree over the columns that it lists, in order, in
/// the namespace of its table, and keeps its name, `UNIQUE` and `IF NOT EXISTS`.
/// Without a name it is named after its table and its columns.
pub proof fn created_indexes_are_those_defined(s: CreateIndexStmt, cat: CatalogView)
    ensures
        ddl::bound_create_index(s, cat) matches Ok(p) ==> {
            &&& p matches LogicalPlanView::CreateIndex(x)
            &&& x.table_name == text::lower(names::last_part(s.table))
            &&& (cat.table)(x.table_name) matches Some(meta)
            &&& x.index_namespace == meta.schema_name
            &&& s.name matches Some(n) ==> x.index_name == text::lower(n.value@)
            &&& s.name is None && s.columns@.len() == 1 ==> x.index_name == x.table_name + "_"@
                + text::lower(s.columns@[0].expr->Column_name.parts@[0].value@) + "_idx"@
            &&& x.columns.len() == s.columns@.len()
            &&& forall|k: int|
                0 <= k < x.columns.len() ==> keyed(
                    s.columns@[k],
                    #[trigger] x.columns[k],
                    meta.schema,
                )
            &&& x.unique == s.unique && x.if_not_exists == s.if_not_exists
            &&& x.method is Btree && x.predicate is None && !x.primary_key
            &&& x.covering_columns.len() == 0 && x.key_exprs.len() == 0 && x.aggregating is None
        },
{
    if let Some(meta) = (cat.table)(text::lower(names::last_part(s.table))) {
        keys_follow(s.columns@, 0, Seq::empty(), Seq::empty(), meta.schema);
        reveal_with_fuel(ddl::joined_names, 3);
    }
}

/// Whether names are those of the tables of a list that exist, in order.
pub open spec fn existing(
    list: Seq<ObjectName>,
    n: int,
    tables: Seq<Seq<char>>,
    cat: CatalogView,
) -> bool
    decreases n,
{
    if n <= 0 {
        tables.len() == 0
    } else {
        let name = text::lower(names::last_part(list[n - 1]));
        if (cat.table)(name) is Some {
            &&& tables.len() > 0 && tables.last() == name
            &&& existing(list, n - 1, tables.drop_last(), cat)
        } else {
            existing(list, n - 1, tables, cat)
        }
    }
}

proof fn existing_tables_follow(
    list: Seq<ObjectName>,
    i: int,
    acc: Seq<Seq<char>>,
    if_exists: bool,
    cat: CatalogView,
)
    requires
        0 <= i <= list.len(),
        existing(list, i, acc, cat),
    ensures
        ddl::existing_tables(list, i, acc, if_exists, cat) matches Ok(out) ==> existing(
            list,
            list.len() as int,
            out,
            cat,
        ),
    decreases list.len() - i,
{
    if i < list.len() {
        let name = names::simple_name(list[i]);
        if (cat.table)(name) is Some {
            assert(acc.push(name).drop_last() =~= acc);
            existing_tables_follow(list, i + 1, acc.push(name), if_exists, cat);
        } else {
            existing_tables_follow(list, i + 1, acc, if_exists, cat);
        }
    }
}

/// A `DROP TABLE` drops the tables that it lists, as far as they exist, in order,
/// and keeps its options.
pub proof fn drops_keep_their_tables(s: DropTableStmt, cat: CatalogView)
    ensures
        ddl::bound_drop_table(s, cat) matches Ok(p) ==> {
            &&& p matches LogicalPlanView::DropTable { tables, if_exists, cascade, .. }
            &&& existing(s.names@, s.names@.len() as int, tables, cat)
            &&& if_exists == s.if_exists && cascade == s.cascade
        },
{
    existing_tables_follow(s.names@, 0, Seq::empty(), s.if_exists, cat);
}

/// An `ALTER TABLE` adds the defined column to the table of its name.
pub proof fn added_columns_are_those_defined(s: AlterTableStmt, cat: CatalogView)
    ensures
        ddl::bound_alter_table(s, cat) matches Ok(p) ==> {
            &&& p matches LogicalPlanView::AlterTable { table_name, change, .. }
            &&& table_name == text::lower(names::last_part(s.name))
            &&& s.action matches AlterTableAction::AddColumn { column: stated }
            &&& change matches LogicalAlterTableActionView::AddColumn { column, default }
            &&& defines(stated, column) && default is None
        },
{
    if let AlterTableAction::AddColumn { column } = s.action {
        columns_are_those_defined(column);
    }
}

} // verus!
