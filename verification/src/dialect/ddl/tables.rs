//! What plans keep of the statements that create, change and drop tables.
use crate::ast::{
    ColumnConstraint, ColumnDef, CreateTableStmt, DropIndexStmt, DropTableStmt, Expr, ObjectName,
    TruncateStmt,
};
use crate::binder::names;
use crate::catalog::CatalogView;
use crate::datatype::DataTypeView;
use crate::dialect::changes;
use crate::dialect::ddl::{alter, index, objects, rules, sequence, shared, table, table_rule};
use crate::dialect::ddl::table::ColumnPlanView;
use crate::dialect::ddl::table_rule::TableRulesView;
use crate::dialect::reading::ReadingsView;
use crate::dialect::{dml, expr};
use crate::error::PlanErrorView;
use crate::plan::{LogicalPlanView, LogicalSequenceOptions};
use crate::query::ScalarExprView;
use crate::schema::{FieldView, SchemaView};
use crate::{schema, text};
use vstd::prelude::*;

verus! {

/// The default of a column is the one that it states, and it has none where it
/// states none.
pub proof fn defaults_are_those_stated(
    constraints: Seq<ColumnConstraint>,
    i: int,
    found: Option<Expr>,
)
    requires
        0 <= i <= constraints.len(),
    ensures
        shared::default_from(constraints, i, found) matches Ok(out) ==> {
            &&& found is Some ==> out == found
            &&& (forall|k: int|
                i <= k < constraints.len() ==> !(#[trigger] constraints[k] is Default)) ==> out
                == found
            &&& forall|k: int|
                i <= k < constraints.len() && #[trigger] constraints[k] is Default ==> out == Some(
                    constraints[k]->Default_expr,
                )
        },
    decreases constraints.len() - i,
{
    if i < constraints.len() {
        if let ColumnConstraint::Default { expr } = constraints[i] {
            defaults_are_those_stated(constraints, i + 1, Some(expr));
        } else {
            defaults_are_those_stated(constraints, i + 1, found);
        }
    }
}

/// The stored expression of a column is the one that it states, and it has none
/// where it states none.
pub proof fn stored_expressions_are_those_stated(
    constraints: Seq<ColumnConstraint>,
    i: int,
    found: Option<Expr>,
)
    requires
        0 <= i <= constraints.len(),
    ensures
        table::stored_from(constraints, i, found) matches Ok(out) ==> {
            &&& found is Some ==> out == found
            &&& (forall|k: int|
                i <= k < constraints.len() ==> !(#[trigger] constraints[k] is GeneratedStored))
                ==> out == found
            &&& forall|k: int|
                i <= k < constraints.len() && #[trigger] constraints[k] is GeneratedStored ==> out
                    == Some(constraints[k]->GeneratedStored_expr)
        },
    decreases constraints.len() - i,
{
    if i < constraints.len() {
        if let ColumnConstraint::GeneratedStored { expr } = constraints[i] {
            stored_expressions_are_those_stated(constraints, i + 1, Some(expr));
        } else {
            stored_expressions_are_those_stated(constraints, i + 1, found);
        }
    }
}

/// The identity of a column is the one that it states, with its options, and it has
/// none where it states none.
pub proof fn identities_are_those_stated(
    constraints: Seq<ColumnConstraint>,
    i: int,
    found: Option<(bool, LogicalSequenceOptions)>,
)
    requires
        0 <= i <= constraints.len(),
    ensures
        table::identity_from(constraints, i, found) matches Ok(out) ==> {
            &&& found is Some ==> out == found
            &&& (forall|k: int|
                i <= k < constraints.len() ==> !(#[trigger] constraints[k] is GeneratedIdentity))
                ==> out == found
            &&& forall|k: int|
                i <= k < constraints.len() && #[trigger] constraints[k] is GeneratedIdentity ==> (
                out matches Some((always, o)) && always == constraints[k]->GeneratedIdentity_always
                    && sequence::sequence_options(constraints[k]->GeneratedIdentity_options@)
                    == Ok::<LogicalSequenceOptions, PlanErrorView>(o))
        },
    decreases constraints.len() - i,
{
    if i < constraints.len() {
        if let ColumnConstraint::GeneratedIdentity { always, options } = constraints[i] {
            if let Ok(o) = sequence::sequence_options(options@) {
                identities_are_those_stated(constraints, i + 1, Some((always, o)));
            }
        } else {
            identities_are_those_stated(constraints, i + 1, found);
        }
    }
}

/// Whether a column states a constraint that does not allow nulls.
pub open spec fn states_not_null(c: ColumnDef) -> bool {
    exists|k: int|
        0 <= k < c.constraints@.len() && (#[trigger] c.constraints@[k] is NotNull
            || c.constraints@[k] is PrimaryKey)
}

/// Whether a column states an identity.
pub open spec fn states_identity(c: ColumnDef) -> bool {
    exists|k: int|
        0 <= k < c.constraints@.len() && #[trigger] c.constraints@[k] is GeneratedIdentity
}

/// Whether a column states a stored expression.
pub open spec fn states_stored(c: ColumnDef) -> bool {
    exists|k: int| 0 <= k < c.constraints@.len() && #[trigger] c.constraints@[k] is GeneratedStored
}

/// Whether a column states a default.
pub open spec fn states_default(c: ColumnDef) -> bool {
    exists|k: int| 0 <= k < c.constraints@.len() && #[trigger] c.constraints@[k] is Default
}

/// Whether the plan of a column is what the column states: its name, whether it
/// takes nulls, its identity and whether it is stored. A column with a sequence
/// takes no nulls, and its options are those of its identity.
pub open spec fn plans_column(c: ColumnDef, p: ColumnPlanView) -> bool {
    &&& p.field.name == c.name.value@
    &&& states_not_null(c) ==> !p.field.nullable
    &&& p.sequence is Some ==> !p.field.nullable
    &&& p.sequence is Some <==> p.options is Some
    &&& states_identity(c) ==> p.sequence is Some
    &&& p.identity_always ==> states_identity(c)
    &&& p.generated <==> states_stored(c)
    &&& c.collation is None ==> p.collation is None
    &&& c.collation is Some ==> p.collation is Some
    &&& forall|k: int|
        0 <= k < c.constraints@.len() && #[trigger] c.constraints@[k] is GeneratedIdentity ==> {
            &&& p.identity_always == c.constraints@[k]->GeneratedIdentity_always
            &&& p.options matches Some(o) && sequence::sequence_options(
                c.constraints@[k]->GeneratedIdentity_options@,
            ) == Ok::<LogicalSequenceOptions, PlanErrorView>(o)
        }
    &&& !states_not_null(c) && p.sequence is None && !(p.field.data_type is Domain)
        ==> p.field.nullable
}

/// The plan of a column is what the column states.
pub proof fn column_plans_are_those_stated(table: Seq<char>, c: ColumnDef, cat: CatalogView)
    ensures
        table::column_plan(table, c, cat) matches Ok(p) ==> plans_column(c, p),
{
    identities_are_those_stated(c.constraints@, 0, None);
    stored_expressions_are_those_stated(c.constraints@, 0, None);
    if let Ok(p) = table::column_plan(table, c, cat) {
        if shared::takes_nulls(c.constraints@) {
            assert forall|k: int| 0 <= k < c.constraints@.len() implies !(
            #[trigger] c.constraints@[k] is NotNull) && !(c.constraints@[k] is PrimaryKey) by {
                assert(!shared::refuses_nulls(c.constraints@[k]));
            }
        } else {
            let k = choose|k: int|
                0 <= k < c.constraints@.len() && shared::refuses_nulls(
                    #[trigger] c.constraints@[k],
                );
            assert(c.constraints@[k] is NotNull || c.constraints@[k] is PrimaryKey);
        }
    }
}

/// Whether an expression is the value that another one is bound to against a row,
/// as a value of a type.
#[verifier::opaque]
pub open spec fn fills(
    e: Expr,
    x: ScalarExprView,
    t: DataTypeView,
    row: SchemaView,
    cat: CatalogView,
    r: ReadingsView,
) -> bool {
    expr::bound_value(e, row, cat, Seq::empty(), Seq::empty(), r) matches Ok(bound)
        && changes::stored_as(bound, x, t, r)
}

/// A default is the stated expression, bound without a row, as a value of its type.
pub proof fn default_values_are_those_stated(
    e: Expr,
    name: Seq<char>,
    t: DataTypeView,
    cat: CatalogView,
    r: ReadingsView,
    refused: Seq<char>,
)
    ensures
        shared::default_value(e, name, t, cat, r, refused) matches Ok(x) ==> fills(
            e,
            x,
            t,
            schema::empty_schema(),
            cat,
            r,
        ),
{
    reveal(fills);
}

/// Whether the default of a column is the one that it states.
pub open spec fn defaults_column(
    c: ColumnDef,
    x: Option<ScalarExprView>,
    t: DataTypeView,
    cat: CatalogView,
    r: ReadingsView,
) -> bool {
    &&& states_default(c) <==> x is Some
    &&& forall|k: int|
        0 <= k < c.constraints@.len() && #[trigger] c.constraints@[k] is Default ==> (
        x matches Some(v) && fills(
            c.constraints@[k]->Default_expr,
            v,
            t,
            schema::empty_schema(),
            cat,
            r,
        ))
}

/// The default of a column of a new table is the one that it states.
pub proof fn column_defaults_are_those_stated(
    c: ColumnDef,
    f: FieldView,
    cat: CatalogView,
    r: ReadingsView,
)
    ensures
        table::column_default_value(c, f, cat, r) matches Ok(x) ==> defaults_column(
            c,
            x,
            f.data_type,
            cat,
            r,
        ),
{
    defaults_are_those_stated(c.constraints@, 0, None);
    if let Ok(Some(e)) = shared::default_from(c.constraints@, 0, None) {
        default_values_are_those_stated(
            e,
            f.name,
            f.data_type,
            cat,
            r,
            table::default_refused(),
        );
    }
}

/// Whether the stored expression of a column is the one that it states, bound
/// against the row of its table.
pub open spec fn stores_column(
    c: ColumnDef,
    x: Option<ScalarExprView>,
    t: DataTypeView,
    row: SchemaView,
    cat: CatalogView,
    r: ReadingsView,
) -> bool {
    &&& states_stored(c) <==> x is Some
    &&& forall|k: int|
        0 <= k < c.constraints@.len() && #[trigger] c.constraints@[k] is GeneratedStored ==> (
        x matches Some(v) && fills(c.constraints@[k]->GeneratedStored_expr, v, t, row, cat, r))
}

/// The stored expression of a column of a new table is the one that it states.
pub proof fn stored_columns_are_those_stated(
    c: ColumnDef,
    f: FieldView,
    row: SchemaView,
    flags: Seq<bool>,
    cat: CatalogView,
    r: ReadingsView,
)
    ensures
        table::stored_value(c, f, row, flags, cat, r) matches Ok(x) ==> stores_column(
            c,
            x,
            f.data_type,
            row,
            cat,
            r,
        ),
{
    stored_expressions_are_those_stated(c.constraints@, 0, None);
    reveal(fills);
}

proof fn plans_follow_their_columns(
    name: Seq<char>,
    cols: Seq<ColumnDef>,
    i: int,
    cat: CatalogView,
    plans: Seq<ColumnPlanView>,
    own: TableRulesView,
)
    requires
        0 <= i <= cols.len(),
        plans.len() == i,
        forall|k: int| 0 <= k < i ==> plans_column(cols[k], #[trigger] plans[k]),
    ensures
        table::columns_from(name, cols, i, cat, plans, own) matches Ok((out, all)) ==> {
            &&& out.len() == cols.len()
            &&& forall|k: int| 0 <= k < cols.len() ==> plans_column(cols[k], #[trigger] out[k])
            &&& rules::extends(own, all)
            &&& rules::rule_count(all) == rules::rule_count(own) + ruling_columns(cols, i)
        },
    decreases cols.len() - i,
{
    if i < cols.len() {
        column_plans_are_those_stated(name, cols[i], cat);
        let col = text::lower(cols[i].name.value@);
        rules::column_constraints_are_all_kept(own, name, col, cols[i].constraints@, 0);
        if let Ok(p) = table::column_plan(name, cols[i], cat) {
            if let Ok(next) = table_rule::column_rules(own, name, col, cols[i].constraints@, 0) {
                let more = plans.push(p);
                assert forall|k: int| 0 <= k < i + 1 implies plans_column(
                    cols[k],
                    #[trigger] more[k],
                ) by {
                    if k < i {
                        assert(more[k] == plans[k]);
                    }
                }
                plans_follow_their_columns(name, cols, i + 1, cat, more, next);
            }
        }
    }
}

/// The number of constraints of columns, from the `i`-th column on, that are rules
/// of their table.
pub open spec fn ruling_columns(cols: Seq<ColumnDef>, i: int) -> int
    decreases cols.len() - i,
{
    if i < 0 || i >= cols.len() {
        0
    } else {
        rules::ruling(cols[i].constraints@, 0) + ruling_columns(cols, i + 1)
    }
}

proof fn required_fields_keep_their_names(
    fields: Seq<FieldView>,
    names: Seq<Seq<char>>,
    i: int,
)
    requires
        0 <= i <= names.len(),
    ensures
        table::with_required(fields, names, i) matches Ok(out) ==> same_fields(fields, out),
    decreases names.len() - i,
{
    if i < names.len() {
        schema::find_gives_first(fields, names[i], 0);
        if let Some(k) = schema::find_from(fields, names[i], 0) {
            required_fields_keep_their_names(
                fields.update(k, table::required(fields[k])),
                names,
                i + 1,
            );
        }
    }
}

/// Whether columns are others, but for some that take no nulls any more.
pub open spec fn same_fields(before: Seq<FieldView>, after: Seq<FieldView>) -> bool {
    &&& after.len() == before.len()
    &&& forall|k: int|
        0 <= k < before.len() ==> {
            &&& (#[trigger] after[k]).name == before[k].name
            &&& after[k].data_type == before[k].data_type
            &&& after[k].nullable ==> before[k].nullable
        }
}

proof fn key_fields_keep_their_names(
    fields: Seq<FieldView>,
    keys: Seq<table_rule::UniqueKeyView>,
    i: int,
)
    requires
        0 <= i <= keys.len(),
    ensures
        table::with_keys_required(fields, keys, i) matches Ok(out) ==> same_fields(fields, out),
    decreases keys.len() - i,
{
    if i < keys.len() {
        if keys[i].primary_key {
            required_fields_keep_their_names(fields, keys[i].columns, 0);
            if let Ok(next) = table::with_required(fields, keys[i].columns, 0) {
                key_fields_keep_their_names(next, keys, i + 1);
            }
        } else {
            key_fields_keep_their_names(fields, keys, i + 1);
        }
    }
}

proof fn defaults_follow_their_columns(
    cols: Seq<ColumnDef>,
    i: int,
    row: SchemaView,
    cat: CatalogView,
    r: ReadingsView,
    acc: Seq<Option<ScalarExprView>>,
)
    requires
        0 <= i <= cols.len(),
        acc.len() == i,
        forall|k: int|
            0 <= k < i ==> defaults_column(
                cols[k],
                #[trigger] acc[k],
                row.fields[k].data_type,
                cat,
                r,
            ),
    ensures
        table::defaults_from(cols, i, row, cat, r, acc) matches Ok(out) ==> {
            &&& out.len() == cols.len()
            &&& forall|k: int|
                0 <= k < cols.len() ==> defaults_column(
                    cols[k],
                    #[trigger] out[k],
                    row.fields[k].data_type,
                    cat,
                    r,
                )
        },
    decreases cols.len() - i,
{
    if i < cols.len() {
        column_defaults_are_those_stated(cols[i], row.fields[i], cat, r);
        if let Ok(x) = table::column_default_value(cols[i], row.fields[i], cat, r) {
            let next = acc.push(x);
            assert forall|k: int| 0 <= k < i + 1 implies defaults_column(
                cols[k],
                #[trigger] next[k],
                row.fields[k].data_type,
                cat,
                r,
            ) by {
                if k < i {
                    assert(next[k] == acc[k]);
                }
            }
            defaults_follow_their_columns(cols, i + 1, row, cat, r, next);
        }
    }
}

proof fn stored_values_follow_their_columns(
    cols: Seq<ColumnDef>,
    i: int,
    row: SchemaView,
    flags: Seq<bool>,
    cat: CatalogView,
    r: ReadingsView,
    acc: Seq<Option<ScalarExprView>>,
)
    requires
        0 <= i <= cols.len(),
        acc.len() == i,
        forall|k: int|
            0 <= k < i ==> stores_column(
                cols[k],
                #[trigger] acc[k],
                row.fields[k].data_type,
                row,
                cat,
                r,
            ),
    ensures
        table::stored_values(cols, i, row, flags, cat, r, acc) matches Ok(out) ==> {
            &&& out.len() == cols.len()
            &&& forall|k: int|
                0 <= k < cols.len() ==> stores_column(
                    cols[k],
                    #[trigger] out[k],
                    row.fields[k].data_type,
                    row,
                    cat,
                    r,
                )
        },
    decreases cols.len() - i,
{
    if i < cols.len() {
        stored_columns_are_those_stated(cols[i], row.fields[i], row, flags, cat, r);
        if let Ok(x) = table::stored_value(cols[i], row.fields[i], row, flags, cat, r) {
            let next = acc.push(x);
            assert forall|k: int| 0 <= k < i + 1 implies stores_column(
                cols[k],
                #[trigger] next[k],
                row.fields[k].data_type,
                row,
                cat,
                r,
            ) by {
                if k < i {
                    assert(next[k] == acc[k]);
                }
            }
            stored_values_follow_their_columns(cols, i + 1, row, flags, cat, r, next);
        }
    }
}

/// The draft of a table has its columns in order, and the rules that its columns
/// and the table itself state, each once.
pub proof fn drafts_are_those_stated(name: Seq<char>, s: CreateTableStmt, cat: CatalogView)
    ensures
        table::table_draft(name, s, cat) matches Ok((plans, row, all)) ==> {
            &&& plans.len() == s.columns@.len() && row.fields.len() == s.columns@.len()
            &&& forall|k: int|
                0 <= k < plans.len() ==> plans_column(s.columns@[k], #[trigger] plans[k])
            &&& same_fields(table::plan_fields(plans), row.fields)
            &&& rules::rule_count(all) == ruling_columns(s.columns@, 0)
                + s.table_constraints@.len()
        },
{
    let none = table_rule::no_rules();
    plans_follow_their_columns(name, s.columns@, 0, cat, Seq::empty(), none);
    if let Ok((plans, own)) = table::columns_from(name, s.columns@, 0, cat, Seq::empty(), none) {
        rules::table_constraints_are_all_kept(own, name, s.table_constraints@, 0);
        if let Ok(all) = table_rule::table_rules(own, name, s.table_constraints@, 0) {
            key_fields_keep_their_names(table::plan_fields(plans), all.uniques, 0);
        }
    }
}

/// A `CREATE TABLE` makes the table of its name with its columns in order: each
/// under its name, without nulls where it says so, with its default, its stored
/// expression and its identity.
pub proof fn created_tables_are_those_stated(
    s: CreateTableStmt,
    cat: CatalogView,
    r: ReadingsView,
)
    ensures
        table::created_table(s, cat, r) matches Ok(p) ==> {
            let n = s.columns@.len();
            &&& p.table_name == text::lower(names::last_part(s.name))
            &&& objects::in_namespace(s.name, p.namespace)
            &&& p.if_not_exists == s.if_not_exists
            &&& p.columns.fields.len() == n && p.defaults.len() == n
            &&& p.generated_stored.len() == n && p.identity_always.len() == n
            &&& p.sequence_defaults.len() == n && p.sequence_options.len() == n
            &&& p.column_collations.len() == n
            &&& forall|k: int|
                0 <= k < n ==> {
                    let c = s.columns@[k];
                    let f = #[trigger] p.columns.fields[k];
                    &&& f.name == c.name.value@
                    &&& states_not_null(c) ==> !f.nullable
                    &&& defaults_column(c, p.defaults[k], f.data_type, cat, r)
                    &&& stores_column(
                        c,
                        p.generated_stored[k],
                        f.data_type,
                        p.columns,
                        cat,
                        r,
                    )
                    &&& p.identity_always[k] ==> states_identity(c)
                    &&& states_identity(c) ==> p.sequence_defaults[k] is Some
                    &&& p.column_collations[k] is Some <==> c.collation is Some
                    &&& forall|j: int|
                        0 <= j < c.constraints@.len()
                            && #[trigger] c.constraints@[j] is GeneratedIdentity
                            ==> p.identity_always[k]
                            == c.constraints@[j]->GeneratedIdentity_always
                }
        },
{
    let name = names::simple_name(s.name);
    drafts_are_those_stated(name, s, cat);
    if let Ok((plans, row, all)) = table::table_draft(name, s, cat) {
        defaults_follow_their_columns(s.columns@, 0, row, cat, r, Seq::empty());
        stored_values_follow_their_columns(
            s.columns@,
            0,
            row,
            table::generated_flags(plans),
            cat,
            r,
            Seq::empty(),
        );
        if let Ok(p) = table::finished_table(s, plans, row, all, cat, r) {
            assert forall|k: int| 0 <= k < s.columns@.len() implies {
                let c = s.columns@[k];
                let f = #[trigger] p.columns.fields[k];
                &&& f.name == c.name.value@
                &&& states_not_null(c) ==> !f.nullable
                &&& p.identity_always[k] ==> states_identity(c)
                &&& states_identity(c) ==> p.sequence_defaults[k] is Some
                &&& p.column_collations[k] is Some <==> c.collation is Some
            } by {
                assert(plans_column(s.columns@[k], plans[k]));
                assert(table::plan_fields(plans)[k] == plans[k].field);
            }
        }
    }
}

/// The rules of a new table are as many as its columns and itself state, and they
/// are bound from the rules of its draft.
pub proof fn created_rules_are_those_stated(
    s: CreateTableStmt,
    cat: CatalogView,
    r: ReadingsView,
)
    requires
        s.columns@.len() <= usize::MAX,
    ensures
        table::created_table(s, cat, r) matches Ok(p) ==> {
            &&& p.checks.len() + p.unique_constraints.len() + p.foreign_keys.len()
                + p.exclusion_constraints.len() == ruling_columns(s.columns@, 0)
                + s.table_constraints@.len()
            &&& s.partition_by is Some <==> p.partition is Some
            &&& table::table_draft(text::lower(names::last_part(s.name)), s, cat) matches Ok(
                (_, row, all),
            )
            &&& p.columns == row
            &&& forall|k: int|
                0 <= k < p.checks.len() ==> rules::checks_condition(
                    all.checks[k],
                    #[trigger] p.checks[k],
                    row,
                    cat,
                    r,
                )
            &&& forall|k: int|
                0 <= k < p.unique_constraints.len() ==> rules::is_key(
                    row,
                    all.uniques[k],
                    #[trigger] p.unique_constraints[k],
                )
            &&& forall|k: int|
                0 <= k < p.exclusion_constraints.len() ==> rules::is_exclusion(
                    row,
                    all.exclusions[k],
                    #[trigger] p.exclusion_constraints[k],
                )
        },
{
    let name = names::simple_name(s.name);
    drafts_are_those_stated(name, s, cat);
    if let Ok((plans, row, all)) = table::table_draft(name, s, cat) {
        rules::checks_are_those_stated(all.checks, 0, row, cat, r, Seq::empty());
        rules::keys_are_those_stated(row, all.uniques, 0, Seq::empty());
        rules::exclusions_are_those_stated(row, all.exclusions, 0, Seq::empty());
        references_are_counted(row, all.references, 0, cat, Seq::empty());
        rules::partitions_are_those_stated(row, s.partition_by);
    }
}

proof fn references_are_counted(
    row: SchemaView,
    s: Seq<table_rule::ReferenceView>,
    i: int,
    cat: CatalogView,
    acc: Seq<crate::plan::LogicalForeignKeyConstraintView>,
)
    requires
        0 <= i <= s.len(),
        acc.len() == i,
    ensures
        table_rule::bound_references(row, s, i, cat, acc) matches Ok(out) ==> out.len() == s.len(),
    decreases s.len() - i,
{
    if i < s.len() {
        if let Ok(made) = table_rule::bound_reference(row, s[i], cat) {
            references_are_counted(row, s, i + 1, cat, acc.push(made));
        }
    }
}

/// Whether names are those of the tables of a list that exist, in order.
pub open spec fn known(
    list: Seq<ObjectName>,
    n: int,
    tables: Seq<Seq<char>>,
    cat: CatalogView,
) -> bool
    decreases n,
{
    if n <= 0 {
        tables.len() == 0
    } else {
        ||| {
            &&& tables.len() > 0
            &&& objects::is_table(list[n - 1], tables.last(), cat)
            &&& known(list, n - 1, tables.drop_last(), cat)
        }
        ||| {
            &&& forall|t: Seq<char>| !#[trigger] objects::is_table(list[n - 1], t, cat)
            &&& known(list, n - 1, tables, cat)
        }
    }
}

proof fn named_tables_are_known(name: ObjectName, cat: CatalogView)
    ensures
        dml::named_table(name, cat) matches Ok((table, _)) ==> objects::is_table(name, table, cat),
        dml::named_table(name, cat) is Err ==> forall|t: Seq<char>|
            !#[trigger] objects::is_table(name, t, cat),
{
}

proof fn dropped_tables_are_known(
    list: Seq<ObjectName>,
    i: int,
    if_exists: bool,
    cat: CatalogView,
    acc: Seq<Seq<char>>,
)
    requires
        0 <= i <= list.len(),
        known(list, i, acc, cat),
        acc.len() <= i,
        !if_exists ==> acc.len() == i,
    ensures
        index::existing_tables(list, i, if_exists, cat, acc) matches Ok(out) ==> {
            &&& known(list, list.len() as int, out, cat)
            &&& !if_exists ==> out.len() == list.len()
        },
    decreases list.len() - i,
{
    if i < list.len() {
        named_tables_are_known(list[i], cat);
        if let Ok((name, _)) = dml::named_table(list[i], cat) {
            assert(acc.push(name).drop_last() =~= acc);
            dropped_tables_are_known(list, i + 1, if_exists, cat, acc.push(name));
        } else if if_exists {
            dropped_tables_are_known(list, i + 1, if_exists, cat, acc);
        }
    }
}

/// A `DROP TABLE` drops the tables that it lists, as far as they exist, in order,
/// and keeps its options.
pub proof fn drops_keep_their_tables(s: DropTableStmt, cat: CatalogView)
    ensures
        index::bound_drop_table(s, cat) matches Ok(p) ==> {
            &&& p matches LogicalPlanView::DropTable { tables, if_exists, cascade, .. }
            &&& known(s.names@, s.names@.len() as int, tables, cat)
            &&& !s.if_exists ==> tables.len() == s.names@.len()
            &&& if_exists == s.if_exists && cascade == s.cascade
        },
{
    dropped_tables_are_known(s.names@, 0, s.if_exists, cat, Seq::empty());
}

proof fn emptied_tables_are_known(
    list: Seq<ObjectName>,
    i: int,
    cat: CatalogView,
    acc: Seq<Seq<char>>,
)
    requires
        0 <= i <= list.len(),
        acc.len() == i,
        forall|k: int| 0 <= k < i ==> objects::is_table(list[k], #[trigger] acc[k], cat),
    ensures
        alter::emptied_tables(list, i, cat, acc) matches Ok(out) ==> {
            &&& out.len() == list.len()
            &&& forall|k: int|
                0 <= k < list.len() ==> objects::is_table(list[k], #[trigger] out[k], cat)
        },
    decreases list.len() - i,
{
    if i < list.len() {
        named_tables_are_known(list[i], cat);
        if let Ok((name, _)) = dml::named_table(list[i], cat) {
            let next = acc.push(name);
            assert forall|k: int| 0 <= k < i + 1 implies objects::is_table(
                list[k],
                #[trigger] next[k],
                cat,
            ) by {
                if k < i {
                    assert(next[k] == acc[k]);
                }
            }
            emptied_tables_are_known(list, i + 1, cat, next);
        }
    }
}

/// A `TRUNCATE` empties the tables that it lists, in order, and keeps its options.
pub proof fn truncations_keep_their_tables(s: TruncateStmt, cat: CatalogView)
    ensures
        alter::bound_truncate(s, cat) matches Ok(p) ==> {
            &&& p matches LogicalPlanView::Truncate { tables, restart_identity, cascade, .. }
            &&& tables.len() == s.tables@.len()
            &&& forall|k: int|
                0 <= k < tables.len() ==> objects::is_table(
                    s.tables@[k],
                    #[trigger] tables[k],
                    cat,
                )
            &&& restart_identity == s.restart_identity && cascade == s.cascade
        },
{
    emptied_tables_are_known(s.tables@, 0, cat, Seq::empty());
}

/// Whether an index of a name is known under a namespace, or under none where it is
/// public.
pub open spec fn is_index(
    name: ObjectName,
    found: Seq<char>,
    space: Option<Seq<char>>,
    cat: CatalogView,
) -> bool {
    let n = name.parts@.len() as int;
    &&& found == text::lower(names::last_part(name))
    &&& n >= 2 ==> {
        &&& space == Some(text::lower(name.parts@[n - 2].value@))
        &&& (cat.index_in)(space->Some_0, found)
    }
    &&& n < 2 ==> {
        &&& (cat.index_schema)(found) matches Some(own)
        &&& own == "public"@ ==> space is None
        &&& own != "public"@ ==> space == Some(own)
    }
}

proof fn located_indexes_are_known(name: ObjectName, cat: CatalogView)
    ensures
        index::located_index(name, cat) matches Ok((found, space)) ==> is_index(
            name,
            found,
            space,
            cat,
        ),
{
}

proof fn dropped_indexes_are_known(
    list: Seq<ObjectName>,
    i: int,
    if_exists: bool,
    cat: CatalogView,
    found: Seq<Seq<char>>,
    spaces: Seq<Option<Seq<char>>>,
)
    requires
        0 <= i <= list.len(),
        found.len() == spaces.len(),
        !if_exists ==> found.len() == i,
        !if_exists ==> forall|k: int|
            0 <= k < i ==> is_index(list[k], #[trigger] found[k], spaces[k], cat),
    ensures
        index::existing_indexes(list, i, if_exists, cat, found, spaces) matches Ok((out, at)) ==> {
            &&& out.len() == at.len()
            &&& !if_exists ==> out.len() == list.len()
            &&& !if_exists ==> forall|k: int|
                0 <= k < list.len() ==> is_index(list[k], #[trigger] out[k], at[k], cat)
        },
    decreases list.len() - i,
{
    if i < list.len() {
        located_indexes_are_known(list[i], cat);
        if let Ok((name, space)) = index::located_index(list[i], cat) {
            let more = found.push(name);
            let others = spaces.push(space);
            assert forall|k: int| !if_exists && 0 <= k < i + 1 implies is_index(
                list[k],
                #[trigger] more[k],
                others[k],
                cat,
            ) by {
                if k < i {
                    assert(more[k] == found[k] && others[k] == spaces[k]);
                }
            }
            dropped_indexes_are_known(list, i + 1, if_exists, cat, more, others);
        } else if if_exists {
            dropped_indexes_are_known(list, i + 1, if_exists, cat, found, spaces);
        }
    }
}

proof fn existing_indexes_are_dropped(
    list: Seq<ObjectName>,
    i: int,
    cat: CatalogView,
    found: Seq<Seq<char>>,
    spaces: Seq<Option<Seq<char>>>,
)
    requires
        0 <= i <= list.len(),
        forall|k: int| i <= k < list.len() ==> index::located_index(#[trigger] list[k], cat) is Ok,
    ensures
        index::existing_indexes(list, i, true, cat, found, spaces) == index::existing_indexes(
            list,
            i,
            false,
            cat,
            found,
            spaces,
        ),
    decreases list.len() - i,
{
    if i < list.len() {
        if let Ok((name, space)) = index::located_index(list[i], cat) {
            existing_indexes_are_dropped(list, i + 1, cat, found.push(name), spaces.push(space));
        }
    }
}

/// A `DROP INDEX` keeps its options and, where all of them must exist, drops the
/// indexes that it lists, in order. Where they need not but do, it drops the same.
pub proof fn drops_keep_their_indexes(s: DropIndexStmt, cat: CatalogView)
    ensures
        index::bound_drop_index(s, cat) matches Ok(p) ==> {
            &&& p matches LogicalPlanView::DropIndex {
                indexes,
                index_namespaces,
                if_exists,
                cascade,
                ..
            }
            &&& indexes.len() == index_namespaces.len()
            &&& if_exists == s.if_exists && cascade == s.cascade
            &&& !s.if_exists || (forall|k: int|
                0 <= k < s.names@.len() ==> index::located_index(#[trigger] s.names@[k], cat) is Ok)
                ==> {
                &&& indexes.len() == s.names@.len()
                &&& forall|k: int|
                    0 <= k < indexes.len() ==> is_index(
                        s.names@[k],
                        #[trigger] indexes[k],
                        index_namespaces[k],
                        cat,
                    )
            }
        },
{
    dropped_indexes_are_known(s.names@, 0, s.if_exists, cat, Seq::empty(), Seq::empty());
    dropped_indexes_are_known(s.names@, 0, false, cat, Seq::empty(), Seq::empty());
    if forall|k: int|
        0 <= k < s.names@.len() ==> index::located_index(#[trigger] s.names@[k], cat) is Ok {
        existing_indexes_are_dropped(s.names@, 0, cat, Seq::empty(), Seq::empty());
    }
}

} // verus!
