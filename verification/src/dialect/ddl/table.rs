//! Binding of `CREATE TABLE`.
use crate::ast::{ColumnConstraint, ColumnDef, CreateTableStmt, Expr, TablePartitionSpec};
use crate::binder::names;
use crate::binder::names::{object_name_namespace, object_name_simple};
use crate::catalog::{Catalog, CatalogView};
use crate::datatype::{DataType, DataTypeView};
use crate::dialect::ddl::sequence::bind_sequence_options;
use crate::dialect::ddl::shared::{
    bind_default_value, column_default, expr_references_generated_column, fit_value,
    is_generated_stored_safe, resolve_column_nullability,
};
use crate::dialect::ddl::table_rule::{
    bind_check_constraints, bind_exclusion_constraints, bind_foreign_key_constraints,
    bind_unique_constraints, collect_column_constraints, collect_table_constraints, TableRules,
    TableRulesView, UniqueKey, UniqueKeyView,
};
use crate::dialect::ddl::typedef::{bind_column_collation, resolve_column_type};
use crate::dialect::ddl::{sequence, shared, table_rule, typedef};
use crate::dialect::expr;
use crate::dialect::expr::bind_expr;
use crate::dialect::reading::{Readings, ReadingsView};
use crate::error::{schema_or_mismatch, PlanError, PlanErrorView};
use crate::plan::{
    CreateTablePlan, CreateTablePlanView, LogicalCheckConstraint, LogicalCheckConstraintView,
    LogicalExclusionConstraint, LogicalExclusionConstraintView, LogicalForeignKeyConstraint,
    LogicalForeignKeyConstraintView, LogicalPlan, LogicalPlanView, LogicalSequenceOptions,
    LogicalTimePartition, LogicalTimePartitionView, LogicalUniqueConstraint,
    LogicalUniqueConstraintView,
};
use crate::query::{ScalarExpr, ScalarExprView};
use crate::schema::{Field, FieldView, Schema, SchemaView};
use crate::scope::ScopeStack;
use crate::text::{cat3, cat4, eq_fold, to_lower};
use crate::{error, list, plan, schema, text};
use vstd::prelude::*;

verus! {

/// The identity clause among the constraints from the `i`-th on. There is at
/// most one.
pub open spec fn identity_from(
    constraints: Seq<ColumnConstraint>,
    i: int,
    found: Option<(bool, LogicalSequenceOptions)>,
) -> Result<Option<(bool, LogicalSequenceOptions)>, PlanErrorView>
    decreases constraints.len() - i,
{
    if i < 0 || i >= constraints.len() {
        Ok(found)
    } else {
        match constraints[i] {
            ColumnConstraint::GeneratedIdentity { always, options } => if found is Some {
                Err(
                    PlanErrorView::NotSupported(
                        "CREATE TABLE: multiple IDENTITY clauses on one column"@,
                    ),
                )
            } else {
                match sequence::sequence_options(options@) {
                    Err(e) => Err(e),
                    Ok(o) => identity_from(constraints, i + 1, Some((always, o))),
                }
            },
            _ => identity_from(constraints, i + 1, found),
        }
    }
}

/// Finds the identity clause among the constraints of a column.
pub fn column_identity(constraints: &Vec<ColumnConstraint>) -> (made: Result<
    Option<(bool, LogicalSequenceOptions)>,
    PlanError,
>)
    ensures
        error::outcome(made) == identity_from(constraints@, 0, None),
{
    let mut found: Option<(bool, LogicalSequenceOptions)> = None;
    let mut i: usize = 0;
    while i < constraints.len()
        invariant
            i <= constraints.len(),
            identity_from(constraints@, i as int, found) == identity_from(constraints@, 0, None),
        decreases constraints.len() - i,
    {
        match &constraints[i] {
            ColumnConstraint::GeneratedIdentity { always, options } => {
                if found.is_some() {
                    return Err(
                        PlanError::NotSupported(
                            "CREATE TABLE: multiple IDENTITY clauses on one column",
                        ),
                    );
                }
                let o = bind_sequence_options(options)?;
                found = Some((*always, o));
            },
            _ => {},
        }
        i = i + 1;
    }
    Ok(found)
}

/// The expression of a stored column among the constraints from the `i`-th on.
/// There is at most one.
pub open spec fn stored_from(
    constraints: Seq<ColumnConstraint>,
    i: int,
    found: Option<Expr>,
) -> Result<
    Option<Expr>,
    PlanErrorView,
>
    decreases constraints.len() - i,
{
    if i < 0 || i >= constraints.len() {
        Ok(found)
    } else {
        match constraints[i] {
            ColumnConstraint::GeneratedStored { expr } => if found is Some {
                Err(
                    PlanErrorView::NotSupported(
                        "CREATE TABLE: multiple generated stored clauses on one column"@,
                    ),
                )
            } else {
                stored_from(constraints, i + 1, Some(expr))
            },
            _ => stored_from(constraints, i + 1, found),
        }
    }
}

/// Finds the expression of a stored column among its constraints.
pub fn column_generated_stored(constraints: &Vec<ColumnConstraint>) -> (made: Result<
    Option<&Expr>,
    PlanError,
>)
    ensures
        (match made {
            Ok(e) => Ok(shared::written(e)),
            Err(err) => Err(err@),
        }) == stored_from(constraints@, 0, None),
{
    let mut found: Option<&Expr> = None;
    let mut i: usize = 0;
    while i < constraints.len()
        invariant
            i <= constraints.len(),
            stored_from(constraints@, i as int, shared::written(found)) == stored_from(
                constraints@,
                0,
                None,
            ),
        decreases constraints.len() - i,
    {
        match &constraints[i] {
            ColumnConstraint::GeneratedStored { expr } => {
                if found.is_some() {
                    return Err(
                        PlanError::NotSupported(
                            "CREATE TABLE: multiple generated stored clauses on one column",
                        ),
                    );
                }
                found = Some(expr);
            },
            _ => {},
        }
        i = i + 1;
    }
    Ok(found)
}

/// A column of a new table.
#[derive(Debug, PartialEq)]
pub struct ColumnPlan {
    pub field: Field,
    pub collation: Option<u32>,
    pub sequence: Option<String>,
    pub options: Option<LogicalSequenceOptions>,
    pub identity_always: bool,
    pub generated: bool,
}

/// The model of a [`ColumnPlan`].
pub struct ColumnPlanView {
    pub field: FieldView,
    pub collation: Option<u32>,
    pub sequence: Option<Seq<char>>,
    pub options: Option<LogicalSequenceOptions>,
    pub identity_always: bool,
    pub generated: bool,
}

impl ColumnPlan {
    pub open spec fn view(&self) -> ColumnPlanView {
        ColumnPlanView {
            field: self.field@,
            collation: self.collation,
            sequence: match self.sequence {
                Some(s) => Some(s@),
                None => None,
            },
            options: self.options,
            identity_always: self.identity_always,
            generated: self.generated,
        }
    }
}

/// The models of columns.
pub open spec fn column_plans_view(s: Seq<ColumnPlan>) -> Seq<ColumnPlanView> {
    Seq::new(s.len(), |i: int| s[i]@)
}

/// Appending a column appends its model.
pub proof fn lemma_column_plans_push(s: Seq<ColumnPlan>, e: ColumnPlan)
    ensures
        column_plans_view(s.push(e)) == column_plans_view(s).push(e@),
{
    assert(column_plans_view(s.push(e)) =~= column_plans_view(s).push(e@));
}

/// Whether a type can be that of an identity column.
pub open spec fn identity_type(t: DataTypeView) -> bool {
    t is Int16 || t is Int32 || t is Int64
}

/// Whether a type is a domain that refuses nulls.
pub open spec fn refuses_nulls(t: DataTypeView) -> bool {
    t matches DataTypeView::Domain { not_null, .. } && not_null
}

fn type_refuses_nulls(t: &DataType) -> (yes: bool)
    ensures
        yes == refuses_nulls(t@),
{
    match t {
        DataType::Domain { not_null, .. } => *not_null,
        _ => false,
    }
}

/// Whether the clauses of a column that fill it fit together, or the complaint.
pub open spec fn filling_rule(
    name: Seq<char>,
    ty: DataTypeView,
    serial: bool,
    identity: bool,
    generated: bool,
) -> Result<(), PlanErrorView> {
    if identity && serial {
        Err(
            PlanErrorView::NotSupported(
                "CREATE TABLE: SERIAL column may not also declare IDENTITY"@,
            ),
        )
    } else if generated && (identity || serial) {
        Err(
            PlanErrorView::NotSupported(
                "CREATE TABLE: generated stored column may not also declare SERIAL or IDENTITY"@,
            ),
        )
    } else if identity && !identity_type(ty) {
        Err(
            PlanErrorView::TypeMismatch(
                "IDENTITY column '"@ + name + "' must be SMALLINT, INTEGER, or BIGINT"@,
            ),
        )
    } else {
        Ok(())
    }
}

fn check_filling(name: &str, ty: &DataType, serial: bool, identity: bool, generated: bool) -> (made:
    Result<(), PlanError>)
    ensures
        error::outcome(made) == filling_rule(name@, ty@, serial, identity, generated),
{
    if identity && serial {
        return Err(
            PlanError::NotSupported("CREATE TABLE: SERIAL column may not also declare IDENTITY"),
        );
    }
    if generated && (identity || serial) {
        return Err(
            PlanError::NotSupported(
                "CREATE TABLE: generated stored column may not also declare SERIAL or IDENTITY",
            ),
        );
    }
    let whole = matches!(ty, DataType::Int16 | DataType::Int32 | DataType::Int64);
    if identity && !whole {
        return Err(
            PlanError::TypeMismatch(
                cat3("IDENTITY column '", name, "' must be SMALLINT, INTEGER, or BIGINT"),
            ),
        );
    }
    Ok(())
}

/// Whether a column may have a default, or the complaint.
pub open spec fn default_rule(default: bool, generated: bool, sequence: bool) -> Result<
    (),
    PlanErrorView,
> {
    if generated && default {
        Err(
            PlanErrorView::NotSupported(
                "CREATE TABLE: generated stored column may not also declare DEFAULT"@,
            ),
        )
    } else if sequence && default {
        Err(
            PlanErrorView::NotSupported(
                "CREATE TABLE: sequence-backed column may not also declare DEFAULT"@,
            ),
        )
    } else {
        Ok(())
    }
}

fn check_default(default: bool, generated: bool, sequence: bool) -> (made: Result<(), PlanError>)
    ensures
        error::outcome(made) == default_rule(default, generated, sequence),
{
    if generated && default {
        return Err(
            PlanError::NotSupported(
                "CREATE TABLE: generated stored column may not also declare DEFAULT",
            ),
        );
    }
    if sequence && default {
        return Err(
            PlanError::NotSupported(
                "CREATE TABLE: sequence-backed column may not also declare DEFAULT",
            ),
        );
    }
    Ok(())
}

/// A column that is filled by the given clauses.
pub open spec fn filled_column(
    table: Seq<char>,
    c: ColumnDef,
    ty: DataTypeView,
    collation: Option<u32>,
    serial: Option<Seq<char>>,
    identity: Option<(bool, LogicalSequenceOptions)>,
    generated: bool,
) -> ColumnPlanView {
    let sequence = if identity is Some {
        Some(typedef::serial_sequence(table, c.name.value@))
    } else {
        serial
    };
    ColumnPlanView {
        field: FieldView {
            name: c.name.value@,
            data_type: ty,
            nullable: shared::takes_nulls(c.constraints@)
                && sequence is None && !refuses_nulls(ty),
        },
        collation,
        sequence,
        options: match identity {
            Some((_, o)) => Some(o),
            None => if serial is Some {
                Some(sequence::plain_sequence())
            } else {
                None
            },
        },
        identity_always: identity matches Some((always, _)) && always,
        generated,
    }
}

fn fill_column(
    table: &str,
    c: &ColumnDef,
    ty: DataType,
    collation: Option<u32>,
    serial: Option<String>,
    identity: Option<(bool, LogicalSequenceOptions)>,
    generated: bool,
) -> (made: ColumnPlan)
    ensures
        made@ == filled_column(
            table@,
            *c,
            ty@,
            collation,
            match serial {
                Some(s) => Some(s@),
                None => None,
            },
            identity,
            generated,
        ),
{
    let (sequence, options, identity_always) = match identity {
        Some((always, o)) => {
            let t = to_lower(table);
            let n = to_lower(c.name.value.as_str());
            (Some(cat4(t.as_str(), "_", n.as_str(), "_seq")), Some(o), always)
        },
        None => {
            let options = if serial.is_some() {
                Some(
                    LogicalSequenceOptions {
                        start: 1,
                        increment: 1,
                        min: None,
                        max: None,
                        cache: 1,
                        cycle: false,
                    },
                )
            } else {
                None
            };
            (serial, options, false)
        },
    };
    let nullable = resolve_column_nullability(&c.constraints) && sequence.is_none()
        && !type_refuses_nulls(&ty);
    ColumnPlan {
        field: Field { name: c.name.value.clone(), data_type: ty, nullable },
        collation,
        sequence,
        options,
        identity_always,
        generated,
    }
}

/// A column of a new table, or the first complaint about it.
pub open spec fn column_plan(table: Seq<char>, c: ColumnDef, cat: CatalogView) -> Result<
    ColumnPlanView,
    PlanErrorView,
> {
    let name = c.name.value@;
    match typedef::column_type(table, name, c.data_type, cat) {
        Err(e) => Err(e),
        Ok((ty, serial)) => match typedef::column_collation(name, ty, c.collation) {
            Err(e) => Err(e),
            Ok(collation) => match identity_from(c.constraints@, 0, None) {
                Err(e) => Err(e),
                Ok(identity) => match stored_from(c.constraints@, 0, None) {
                    Err(e) => Err(e),
                    Ok(stored) => match filling_rule(
                        name,
                        ty,
                        serial is Some,
                        identity is Some,
                        stored is Some,
                    ) {
                        Err(e) => Err(e),
                        Ok(_) => match shared::default_from(c.constraints@, 0, None) {
                            Err(e) => Err(e),
                            Ok(default) => match default_rule(
                                default is Some,
                                stored is Some,
                                serial is Some || identity is Some,
                            ) {
                                Err(e) => Err(e),
                                Ok(_) => Ok(
                                    filled_column(
                                        table,
                                        c,
                                        ty,
                                        collation,
                                        serial,
                                        identity,
                                        stored is Some,
                                    ),
                                ),
                            },
                        },
                    },
                },
            },
        },
    }
}

fn bind_column_plan<C: Catalog>(table: &str, c: &ColumnDef, catalog: &C) -> (made: Result<
    ColumnPlan,
    PlanError,
>)
    ensures
        (match made {
            Ok(p) => Ok(p@),
            Err(e) => Err(e@),
        }) == column_plan(table@, *c, catalog.model()),
{
    let name = c.name.value.as_str();
    let (ty, serial) = resolve_column_type(table, name, &c.data_type, catalog)?;
    let collation = bind_column_collation(name, &ty, &c.collation)?;
    let identity = column_identity(&c.constraints)?;
    let stored = column_generated_stored(&c.constraints)?;
    let generated = stored.is_some();
    check_filling(name, &ty, serial.is_some(), identity.is_some(), generated)?;
    let default = column_default(&c.constraints)?;
    check_default(default.is_some(), generated, serial.is_some() || identity.is_some())?;
    Ok(fill_column(table, c, ty, collation, serial, identity, generated))
}

/// Whether a name is that of one of the columns, up to case.
pub open spec fn column_taken(s: Seq<ColumnPlanView>, name: Seq<char>) -> bool {
    exists|i: int| 0 <= i < s.len() && text::same_fold((#[trigger] s[i]).field.name, name)
}

fn is_column_taken(s: &Vec<ColumnPlan>, name: &str) -> (yes: bool)
    ensures
        yes == column_taken(column_plans_view(s@), name@),
{
    let ghost v = column_plans_view(s@);
    let mut i: usize = 0;
    while i < s.len()
        invariant
            i <= s.len(),
            v == column_plans_view(s@),
            forall|j: int|
                0 <= j < i ==> !text::same_fold((#[trigger] v[j]).field.name, name@),
        decreases s.len() - i,
    {
        if eq_fold(s[i].field.name.as_str(), name) {
            assert(text::same_fold(v[i as int].field.name, name@));
            return true;
        }
        i = i + 1;
    }
    false
}

/// The columns of a new table from the `i`-th on, and the constraints that they
/// state.
pub open spec fn columns_from(
    table: Seq<char>,
    cols: Seq<ColumnDef>,
    i: int,
    cat: CatalogView,
    plans: Seq<ColumnPlanView>,
    rules: TableRulesView,
) -> Result<(Seq<ColumnPlanView>, TableRulesView), PlanErrorView>
    decreases cols.len() - i,
{
    if i < 0 || i >= cols.len() {
        Ok((plans, rules))
    } else if column_taken(plans, cols[i].name.value@) {
        Err(PlanErrorView::DuplicateColumn(cols[i].name.value@))
    } else {
        match column_plan(table, cols[i], cat) {
            Err(e) => Err(e),
            Ok(p) => match table_rule::column_rules(
                rules,
                table,
                text::lower(cols[i].name.value@),
                cols[i].constraints@,
                0,
            ) {
                Err(e) => Err(e),
                Ok(next) => columns_from(table, cols, i + 1, cat, plans.push(p), next),
            },
        }
    }
}

fn bind_columns<'a, C: Catalog>(
    table: &str,
    cols: &'a Vec<ColumnDef>,
    catalog: &C,
) -> (made: Result<
    (Vec<ColumnPlan>, TableRules<'a>),
    PlanError,
>)
    ensures
        (match made {
            Ok((plans, rules)) => Ok((column_plans_view(plans@), rules@)),
            Err(e) => Err(e@),
        }) == columns_from(
            table@,
            cols@,
            0,
            catalog.model(),
            Seq::empty(),
            table_rule::no_rules(),
        ),
{
    let ghost cat = catalog.model();
    let mut plans: Vec<ColumnPlan> = Vec::new();
    assert(column_plans_view(plans@) =~= Seq::empty());
    let mut rules = TableRules::new();
    let mut i: usize = 0;
    while i < cols.len()
        invariant
            i <= cols.len(),
            cat == catalog.model(),
            columns_from(table@, cols@, i as int, cat, column_plans_view(plans@), rules@)
                == columns_from(table@, cols@, 0, cat, Seq::empty(), table_rule::no_rules()),
        decreases cols.len() - i,
    {
        let c = &cols[i];
        if is_column_taken(&plans, c.name.value.as_str()) {
            return Err(PlanError::DuplicateColumn(c.name.value.clone()));
        }
        let p = bind_column_plan(table, c, catalog)?;
        rules = collect_column_constraints(rules, table, &c.name, &c.constraints)?;
        proof {
            lemma_column_plans_push(plans@, p);
        }
        plans.push(p);
        i = i + 1;
    }
    Ok((plans, rules))
}

/// The columns of a row.
pub open spec fn plan_fields(plans: Seq<ColumnPlanView>) -> Seq<FieldView> {
    Seq::new(plans.len(), |i: int| plans[i].field)
}

/// A column that refuses nulls.
pub open spec fn required(f: FieldView) -> FieldView {
    FieldView { nullable: false, ..f }
}

/// The columns of a row, with those named from the `i`-th on refusing nulls.
pub open spec fn with_required(fields: Seq<FieldView>, names: Seq<Seq<char>>, i: int) -> Result<
    Seq<FieldView>,
    PlanErrorView,
>
    decreases names.len() - i,
{
    if i < 0 || i >= names.len() {
        Ok(fields)
    } else {
        match schema::find_from(fields, names[i], 0) {
            None => Err(PlanErrorView::ColumnNotFound(names[i])),
            Some(k) => with_required(fields.update(k, required(fields[k])), names, i + 1),
        }
    }
}

fn require_columns(row: Schema, names: &Vec<String>) -> (made: Result<Schema, PlanError>)
    ensures
        (match made {
            Ok(s) => Ok(s@.fields),
            Err(e) => Err(e@),
        }) == with_required(row@.fields, list::strings_view(names@), 0),
{
    let ghost s = list::strings_view(names@);
    let ghost start = row@.fields;
    let mut out = row;
    let mut i: usize = 0;
    while i < names.len()
        invariant
            i <= names.len(),
            start == row@.fields,
            s == list::strings_view(names@),
            with_required(out@.fields, s, i as int) == with_required(start, s, 0),
        decreases names.len() - i,
    {
        assert(s[i as int] == names@[i as int]@);
        match out.find(names[i].as_str()) {
            None => {
                return Err(PlanError::ColumnNotFound(names[i].clone()));
            },
            Some(k) => {
                let ghost before = out@.fields;
                let f = out.field_at(k);
                let tight = Field {
                    name: f.name.clone(),
                    data_type: f.data_type.duplicate(),
                    nullable: false,
                };
                out.fields.set(k, tight);
                assert(out@.fields =~= before.update(k as int, required(before[k as int])));
            },
        }
        i = i + 1;
    }
    Ok(out)
}

/// The columns of a row, with those of the primary key refusing nulls.
pub open spec fn with_keys_required(
    fields: Seq<FieldView>,
    keys: Seq<UniqueKeyView>,
    i: int,
) -> Result<
    Seq<FieldView>,
    PlanErrorView,
>
    decreases keys.len() - i,
{
    if i < 0 || i >= keys.len() {
        Ok(fields)
    } else if keys[i].primary_key {
        match with_required(fields, keys[i].columns, 0) {
            Err(e) => Err(e),
            Ok(next) => with_keys_required(next, keys, i + 1),
        }
    } else {
        with_keys_required(fields, keys, i + 1)
    }
}

fn require_keys(row: Schema, keys: &Vec<UniqueKey>) -> (made: Result<Schema, PlanError>)
    ensures
        (match made {
            Ok(s) => Ok(s@.fields),
            Err(e) => Err(e@),
        }) == with_keys_required(row@.fields, table_rule::unique_keys_view(keys@), 0),
{
    let ghost s = table_rule::unique_keys_view(keys@);
    let ghost start = row@.fields;
    let mut out = row;
    let mut i: usize = 0;
    while i < keys.len()
        invariant
            i <= keys.len(),
            start == row@.fields,
            s == table_rule::unique_keys_view(keys@),
            with_keys_required(out@.fields, s, i as int) == with_keys_required(start, s, 0),
        decreases keys.len() - i,
    {
        assert(s[i as int] == keys@[i as int]@);
        if keys[i].primary_key {
            out = require_columns(out, &keys[i].columns)?;
        }
        i = i + 1;
    }
    Ok(out)
}

/// The columns, the row and the constraints of a new table.
pub open spec fn table_draft(table: Seq<char>, s: CreateTableStmt, cat: CatalogView) -> Result<
    (Seq<ColumnPlanView>, SchemaView, TableRulesView),
    PlanErrorView,
> {
    match columns_from(table, s.columns@, 0, cat, Seq::empty(), table_rule::no_rules()) {
        Err(e) => Err(e),
        Ok((plans, own)) => match table_rule::table_rules(own, table, s.table_constraints@, 0) {
            Err(e) => Err(e),
            Ok(rules) => match with_keys_required(plan_fields(plans), rules.uniques, 0) {
                Err(e) => Err(e),
                Ok(fields) => match error::labelled_schema(""@, fields) {
                    Err(e) => Err(e),
                    Ok(row) => Ok((plans, row, rules)),
                },
            },
        },
    }
}

fn row_of(plans: &Vec<ColumnPlan>) -> (row: Schema)
    ensures
        row@.fields == plan_fields(column_plans_view(plans@)),
{
    let mut fields: Vec<Field> = Vec::new();
    let mut i: usize = 0;
    while i < plans.len()
        invariant
            i <= plans.len(),
            fields.len() == i,
            forall|j: int| 0 <= j < i ==> (#[trigger] fields@[j])@ == plans@[j].field@,
        decreases plans.len() - i,
    {
        fields.push(plans[i].field.duplicate());
        i = i + 1;
    }
    let row = Schema { fields };
    assert(row@.fields =~= plan_fields(column_plans_view(plans@)));
    row
}

fn bind_table_draft<'a, C: Catalog>(
    table: &str,
    s: &'a CreateTableStmt,
    catalog: &C,
) -> (made: Result<
    (Vec<ColumnPlan>, Schema, TableRules<'a>),
    PlanError,
>)
    ensures
        (match made {
            Ok((plans, row, rules)) => Ok((column_plans_view(plans@), row@, rules@)),
            Err(e) => Err(e@),
        }) == table_draft(table@, *s, catalog.model()),
{
    let (plans, own) = bind_columns(table, &s.columns, catalog)?;
    let rules = collect_table_constraints(own, table, &s.table_constraints)?;
    let loose = row_of(&plans);
    let tight = require_keys(loose, &rules.uniques)?;
    let row = schema_or_mismatch("", tight.fields)?;
    Ok((plans, row, rules))
}

/// What a default may not refer to.
pub open spec fn default_refused() -> Seq<char> {
    "CREATE TABLE: DEFAULT may not refer to rows, parameters, or subqueries"@
}

/// The default of a column of a new table.
pub open spec fn column_default_value(
    c: ColumnDef,
    f: FieldView,
    cat: CatalogView,
    r: ReadingsView,
) -> Result<
    Option<ScalarExprView>,
    PlanErrorView,
> {
    match shared::default_from(c.constraints@, 0, None) {
        Err(e) => Err(e),
        Ok(None) => Ok(None),
        Ok(Some(e)) => match shared::default_value(
            e,
            f.name,
            f.data_type,
            cat,
            r,
            default_refused(),
        ) {
            Err(e) => Err(e),
            Ok(v) => Ok(Some(v)),
        },
    }
}

/// An optional value with its outcome as models.
pub open spec fn optional_outcome(r: Result<Option<ScalarExpr>, PlanError>) -> Result<
    Option<ScalarExprView>,
    PlanErrorView,
> {
    match r {
        Ok(Some(x)) => Ok(Some(x@)),
        Ok(None) => Ok(None),
        Err(e) => Err(e@),
    }
}

fn bind_column_default<C: Catalog>(
    c: &ColumnDef,
    f: &Field,
    catalog: &C,
    readings: &Readings,
) -> (made:
    Result<Option<ScalarExpr>, PlanError>)
    ensures
        optional_outcome(made) == column_default_value(*c, f@, catalog.model(), readings@),
{
    match column_default(&c.constraints)? {
        None => Ok(None),
        Some(e) => {
            let v = bind_default_value(
                e,
                f.name.as_str(),
                &f.data_type,
                catalog,
                readings,
                "CREATE TABLE: DEFAULT may not refer to rows, parameters, or subqueries",
            )?;
            Ok(Some(v))
        },
    }
}

/// The defaults of the columns of a new table from the `i`-th on.
pub open spec fn defaults_from(
    cols: Seq<ColumnDef>,
    i: int,
    row: SchemaView,
    cat: CatalogView,
    r: ReadingsView,
    acc: Seq<Option<ScalarExprView>>,
) -> Result<Seq<Option<ScalarExprView>>, PlanErrorView>
    decreases cols.len() - i,
{
    if i < 0 || i >= cols.len() {
        Ok(acc)
    } else {
        match column_default_value(cols[i], row.fields[i], cat, r) {
            Err(e) => Err(e),
            Ok(v) => defaults_from(cols, i + 1, row, cat, r, acc.push(v)),
        }
    }
}

/// Optional values with their outcome as models.
pub open spec fn optionals_outcome(r: Result<Vec<Option<ScalarExpr>>, PlanError>) -> Result<
    Seq<Option<ScalarExprView>>,
    PlanErrorView,
> {
    match r {
        Ok(x) => Ok(plan::optional_scalars_view(x@)),
        Err(e) => Err(e@),
    }
}

fn bind_defaults<C: Catalog>(
    cols: &Vec<ColumnDef>,
    row: &Schema,
    catalog: &C,
    readings: &Readings,
) -> (made: Result<Vec<Option<ScalarExpr>>, PlanError>)
    requires
        cols@.len() == row@.fields.len(),
    ensures
        optionals_outcome(made) == defaults_from(
            cols@,
            0,
            row@,
            catalog.model(),
            readings@,
            Seq::empty(),
        ),
{
    let ghost cat = catalog.model();
    let mut out: Vec<Option<ScalarExpr>> = Vec::new();
    assert(plan::optional_scalars_view(out@) =~= Seq::empty());
    let mut i: usize = 0;
    while i < cols.len()
        invariant
            i <= cols.len(),
            cols@.len() == row@.fields.len(),
            cat == catalog.model(),
            defaults_from(cols@, i as int, row@, cat, readings@, plan::optional_scalars_view(out@))
                == defaults_from(cols@, 0, row@, cat, readings@, Seq::empty()),
        decreases cols.len() - i,
    {
        let v = bind_column_default(&cols[i], row.field_at(i), catalog, readings)?;
        proof {
            plan::lemma_optional_scalars_push(out@, v);
        }
        out.push(v);
        i = i + 1;
    }
    Ok(out)
}

/// The columns that are computed.
pub open spec fn generated_flags(plans: Seq<ColumnPlanView>) -> Seq<bool> {
    Seq::new(plans.len(), |i: int| plans[i].generated)
}

/// The expression of a stored column of a new table.
pub open spec fn stored_value(
    c: ColumnDef,
    f: FieldView,
    row: SchemaView,
    flags: Seq<bool>,
    cat: CatalogView,
    r: ReadingsView,
) -> Result<Option<ScalarExprView>, PlanErrorView> {
    match stored_from(c.constraints@, 0, None) {
        Err(e) => Err(e),
        Ok(None) => Ok(None),
        Ok(Some(e)) => match expr::bound_value(e, row, cat, Seq::empty(), Seq::empty(), r) {
            Err(e) => Err(e),
            Ok(bound) => if !shared::generated_safe(bound) {
                Err(
                    PlanErrorView::NotSupported(
                        "CREATE TABLE: generated stored expression may not contain parameters or subqueries"@,
                    ),
                )
            } else if shared::refers_to_marked(bound, flags) {
                Err(
                    PlanErrorView::NotSupported(
                        "CREATE TABLE: generated stored expression may not reference generated columns"@,
                    ),
                )
            } else {
                match shared::fitted_value(
                    bound,
                    f.name,
                    f.data_type,
                    "generated expression"@,
                    r,
                ) {
                    Err(e) => Err(e),
                    Ok(v) => Ok(Some(v)),
                }
            },
        },
    }
}

fn bind_stored_value<C: Catalog>(
    c: &ColumnDef,
    f: &Field,
    row: &Schema,
    flags: &Vec<bool>,
    catalog: &C,
    readings: &Readings,
) -> (made: Result<Option<ScalarExpr>, PlanError>)
    ensures
        optional_outcome(made) == stored_value(
            *c,
            f@,
            row@,
            flags@,
            catalog.model(),
            readings@,
        ),
{
    match column_generated_stored(&c.constraints)? {
        None => Ok(None),
        Some(e) => {
            let mut scope = ScopeStack::new();
            let bound = bind_expr(e, row, catalog, &mut scope, readings)?;
            if !is_generated_stored_safe(&bound) {
                return Err(
                    PlanError::NotSupported(
                        "CREATE TABLE: generated stored expression may not contain parameters or subqueries",
                    ),
                );
            }
            if expr_references_generated_column(&bound, flags) {
                return Err(
                    PlanError::NotSupported(
                        "CREATE TABLE: generated stored expression may not reference generated columns",
                    ),
                );
            }
            let v = fit_value(
                bound,
                f.name.as_str(),
                &f.data_type,
                "generated expression",
                readings,
            )?;
            Ok(Some(v))
        },
    }
}

/// The expressions of the stored columns of a new table from the `i`-th on.
pub open spec fn stored_values(
    cols: Seq<ColumnDef>,
    i: int,
    row: SchemaView,
    flags: Seq<bool>,
    cat: CatalogView,
    r: ReadingsView,
    acc: Seq<Option<ScalarExprView>>,
) -> Result<Seq<Option<ScalarExprView>>, PlanErrorView>
    decreases cols.len() - i,
{
    if i < 0 || i >= cols.len() {
        Ok(acc)
    } else {
        match stored_value(cols[i], row.fields[i], row, flags, cat, r) {
            Err(e) => Err(e),
            Ok(v) => stored_values(cols, i + 1, row, flags, cat, r, acc.push(v)),
        }
    }
}

fn bind_stored_values<C: Catalog>(
    cols: &Vec<ColumnDef>,
    row: &Schema,
    flags: &Vec<bool>,
    catalog: &C,
    readings: &Readings,
) -> (made: Result<Vec<Option<ScalarExpr>>, PlanError>)
    requires
        cols@.len() == row@.fields.len(),
    ensures
        optionals_outcome(made) == stored_values(
            cols@,
            0,
            row@,
            flags@,
            catalog.model(),
            readings@,
            Seq::empty(),
        ),
{
    let ghost cat = catalog.model();
    let mut out: Vec<Option<ScalarExpr>> = Vec::new();
    assert(plan::optional_scalars_view(out@) =~= Seq::empty());
    let mut i: usize = 0;
    while i < cols.len()
        invariant
            i <= cols.len(),
            cols@.len() == row@.fields.len(),
            cat == catalog.model(),
            stored_values(
                cols@,
                i as int,
                row@,
                flags@,
                cat,
                readings@,
                plan::optional_scalars_view(out@),
            ) == stored_values(cols@, 0, row@, flags@, cat, readings@, Seq::empty()),
        decreases cols.len() - i,
    {
        let v = bind_stored_value(&cols[i], row.field_at(i), row, flags, catalog, readings)?;
        proof {
            plan::lemma_optional_scalars_push(out@, v);
        }
        out.push(v);
        i = i + 1;
    }
    Ok(out)
}

/// The time column by whose ranges a table is partitioned.
pub open spec fn time_partition(row: SchemaView, by: Option<TablePartitionSpec>) -> Result<
    Option<LogicalTimePartitionView>,
    PlanErrorView,
> {
    match by {
        None => Ok(None),
        Some(p) => match schema::find_field(row, p.column.value@) {
            None => Err(PlanErrorView::ColumnNotFound(p.column.value@)),
            Some(i) => if row.fields[i].data_type is Timestamp || row.fields[i].data_type is
                TimestampTz {
                Ok(
                    Some(
                        LogicalTimePartitionView {
                            column: row.fields[i].name,
                            column_index: i as usize,
                        },
                    ),
                )
            } else {
                Err(
                    PlanErrorView::TypeMismatch(
                        "PARTITION BY RANGE column '"@ + row.fields[i].name
                            + "' must be TIMESTAMP or TIMESTAMPTZ"@,
                    ),
                )
            },
        },
    }
}

/// Binds the partitioning of a table.
pub fn bind_time_partition(columns: &Schema, by: &Option<TablePartitionSpec>) -> (made: Result<
    Option<LogicalTimePartition>,
    PlanError,
>)
    ensures
        (match made {
            Ok(Some(p)) => Ok(Some(p@)),
            Ok(None) => Ok(None),
            Err(e) => Err(e@),
        }) == time_partition(columns@, *by),
{
    match by {
        None => Ok(None),
        Some(p) => {
            let i: usize = match columns.find(p.column.value.as_str()) {
                Some(i) => i,
                None => return Err(PlanError::ColumnNotFound(p.column.value.clone())),
            };
            let f = columns.field_at(i);
            if matches!(f.data_type, DataType::Timestamp | DataType::TimestampTz) {
                return Ok(Some(LogicalTimePartition { column: f.name.clone(), column_index: i }));
            }
            Err(
                PlanError::TypeMismatch(
                    cat3(
                        "PARTITION BY RANGE column '",
                        f.name.as_str(),
                        "' must be TIMESTAMP or TIMESTAMPTZ",
                    ),
                ),
            )
        },
    }
}

/// What the constraints of a new table are bound to.
pub struct BoundRulesView {
    pub checks: Seq<LogicalCheckConstraintView>,
    pub uniques: Seq<LogicalUniqueConstraintView>,
    pub foreign_keys: Seq<LogicalForeignKeyConstraintView>,
    pub exclusions: Seq<LogicalExclusionConstraintView>,
    pub partition: Option<LogicalTimePartitionView>,
}

/// The constraints of a new table, bound.
pub open spec fn bound_rules(
    row: SchemaView,
    rules: TableRulesView,
    by: Option<TablePartitionSpec>,
    cat: CatalogView,
    r: ReadingsView,
) -> Result<BoundRulesView, PlanErrorView> {
    match table_rule::bound_checks(rules.checks, 0, row, cat, r, Seq::empty()) {
        Err(e) => Err(e),
        Ok(checks) => match table_rule::bound_uniques(row, rules.uniques, 0, Seq::empty()) {
            Err(e) => Err(e),
            Ok(uniques) => match table_rule::bound_references(
                row,
                rules.references,
                0,
                cat,
                Seq::empty(),
            ) {
                Err(e) => Err(e),
                Ok(foreign_keys) => match table_rule::bound_exclusions(
                    row,
                    rules.exclusions,
                    0,
                    Seq::empty(),
                ) {
                    Err(e) => Err(e),
                    Ok(exclusions) => match time_partition(row, by) {
                        Err(e) => Err(e),
                        Ok(partition) => Ok(
                            BoundRulesView {
                                checks,
                                uniques,
                                foreign_keys,
                                exclusions,
                                partition,
                            },
                        ),
                    },
                },
            },
        },
    }
}

/// What the constraints of a new table are bound to.
#[derive(Debug, PartialEq)]
pub struct BoundRules {
    pub checks: Vec<LogicalCheckConstraint>,
    pub uniques: Vec<LogicalUniqueConstraint>,
    pub foreign_keys: Vec<LogicalForeignKeyConstraint>,
    pub exclusions: Vec<LogicalExclusionConstraint>,
    pub partition: Option<LogicalTimePartition>,
}

impl BoundRules {
    pub open spec fn view(&self) -> BoundRulesView {
        BoundRulesView {
            checks: plan::checks_view(self.checks@),
            uniques: plan::uniques_view(self.uniques@),
            foreign_keys: plan::foreign_keys_view(self.foreign_keys@),
            exclusions: plan::exclusions_view(self.exclusions@),
            partition: match self.partition {
                Some(p) => Some(p@),
                None => None,
            },
        }
    }
}

fn bind_rules<C: Catalog>(
    row: &Schema,
    rules: &TableRules,
    by: &Option<TablePartitionSpec>,
    catalog: &C,
    readings: &Readings,
) -> (made: Result<BoundRules, PlanError>)
    ensures
        (match made {
            Ok(b) => Ok(b@),
            Err(e) => Err(e@),
        }) == bound_rules(row@, rules@, *by, catalog.model(), readings@),
{
    let checks = bind_check_constraints(&rules.checks, row, catalog, readings)?;
    let uniques = bind_unique_constraints(row, &rules.uniques)?;
    let foreign_keys = bind_foreign_key_constraints(row, &rules.references, catalog)?;
    let exclusions = bind_exclusion_constraints(row, &rules.exclusions)?;
    let partition = bind_time_partition(row, by)?;
    Ok(BoundRules { checks, uniques, foreign_keys, exclusions, partition })
}

proof fn lemma_columns_count(
    table: Seq<char>,
    cols: Seq<ColumnDef>,
    i: int,
    cat: CatalogView,
    plans: Seq<ColumnPlanView>,
    rules: TableRulesView,
)
    requires
        0 <= i <= cols.len(),
    ensures
        columns_from(table, cols, i, cat, plans, rules) matches Ok((out, _)) ==> out.len()
            == plans.len() + cols.len() - i,
    decreases cols.len() - i,
{
    if i < cols.len() {
        if let Ok(p) = column_plan(table, cols[i], cat) {
            if let Ok(next) = table_rule::column_rules(
                rules,
                table,
                text::lower(cols[i].name.value@),
                cols[i].constraints@,
                0,
            ) {
                lemma_columns_count(table, cols, i + 1, cat, plans.push(p), next);
            }
        }
    }
}

proof fn lemma_required(fields: Seq<FieldView>, names: Seq<Seq<char>>, i: int)
    requires
        0 <= i <= names.len(),
    ensures
        with_required(fields, names, i) matches Ok(out) ==> {
            &&& out.len() == fields.len()
            &&& forall|j: int|
                0 <= j < out.len() ==> (#[trigger] out[j]).name == fields[j].name
                    && out[j].data_type == fields[j].data_type && (out[j].nullable ==>
                    fields[j].nullable)
            &&& forall|n: int|
                i <= n < names.len() ==> (schema::find_from(out, #[trigger] names[n], 0) matches
                    Some(k) && !out[k].nullable)
        },
    decreases names.len() - i,
{
    if i < names.len() {
        schema::find_gives_first(fields, names[i], 0);
        if let Some(k) = schema::find_from(fields, names[i], 0) {
            let next = fields.update(k, required(fields[k]));
            lemma_required(next, names, i + 1);
            if let Ok(out) = with_required(next, names, i + 1) {
                lemma_same_names_found(fields, out, names[i], 0);
            }
        }
    }
}

proof fn lemma_same_names_found(a: Seq<FieldView>, b: Seq<FieldView>, name: Seq<char>, i: int)
    requires
        a.len() == b.len(),
        0 <= i <= a.len(),
        forall|j: int| 0 <= j < b.len() ==> (#[trigger] b[j]).name == a[j].name,
    ensures
        schema::find_from(a, name, i) == schema::find_from(b, name, i),
    decreases a.len() - i,
{
    if i < a.len() {
        assert(b[i].name == a[i].name);
        lemma_same_names_found(a, b, name, i + 1);
    }
}

/// Every column of a primary key is among the columns and refuses nulls.
pub open spec fn keys_hold(fields: Seq<FieldView>, keys: Seq<UniqueKeyView>, i: int) -> bool {
    forall|j: int, n: int|
        i <= j < keys.len() && keys[j].primary_key && 0 <= n < keys[j].columns.len() ==> (
        schema::find_from(fields, #[trigger] keys[j].columns[n], 0) matches Some(k)
            && !fields[k].nullable)
}

proof fn lemma_keys_required(fields: Seq<FieldView>, keys: Seq<UniqueKeyView>, i: int)
    requires
        0 <= i <= keys.len(),
    ensures
        with_keys_required(fields, keys, i) matches Ok(out) ==> {
            &&& out.len() == fields.len()
            &&& forall|j: int|
                0 <= j < out.len() ==> (#[trigger] out[j]).name == fields[j].name
                    && out[j].data_type == fields[j].data_type && (out[j].nullable ==>
                    fields[j].nullable)
            &&& keys_hold(out, keys, i)
        },
    decreases keys.len() - i,
{
    if i < keys.len() {
        if keys[i].primary_key {
            lemma_required(fields, keys[i].columns, 0);
            if let Ok(next) = with_required(fields, keys[i].columns, 0) {
                lemma_keys_required(next, keys, i + 1);
                if let Ok(out) = with_keys_required(next, keys, i + 1) {
                    assert forall|j: int, n: int|
                        i <= j < keys.len() && keys[j].primary_key && 0 <= n
                            < keys[j].columns.len() implies (schema::find_from(
                        out,
                        #[trigger] keys[j].columns[n],
                        0,
                    ) matches Some(k) && !out[k].nullable) by {
                        if j == i {
                            schema::find_gives_first(next, keys[i].columns[n], 0);
                            lemma_same_names_found(next, out, keys[i].columns[n], 0);
                        }
                    }
                }
            }
        } else {
            lemma_keys_required(fields, keys, i + 1);
        }
    }
}

proof fn lemma_draft_count(table: Seq<char>, s: CreateTableStmt, cat: CatalogView)
    ensures
        table_draft(table, s, cat) matches Ok((plans, row, _)) ==> plans.len() == s.columns@.len()
            && row.fields.len() == s.columns@.len(),
{
    lemma_columns_count(table, s.columns@, 0, cat, Seq::empty(), table_rule::no_rules());
    if let Ok((plans, own)) = columns_from(
        table,
        s.columns@,
        0,
        cat,
        Seq::empty(),
        table_rule::no_rules(),
    ) {
        if let Ok(rules) = table_rule::table_rules(own, table, s.table_constraints@, 0) {
            lemma_keys_required(plan_fields(plans), rules.uniques, 0);
        }
    }
}

/// The table that a statement makes.
pub open spec fn made_table(
    s: CreateTableStmt,
    plans: Seq<ColumnPlanView>,
    row: SchemaView,
    defaults: Seq<Option<ScalarExprView>>,
    stored: Seq<Option<ScalarExprView>>,
    rules: BoundRulesView,
) -> CreateTablePlanView {
    CreateTablePlanView {
        table_name: names::simple_name(s.name),
        namespace: names::namespace_of(s.name),
        columns: row,
        column_collations: Seq::new(plans.len(), |i: int| plans[i].collation),
        defaults,
        sequence_defaults: Seq::new(plans.len(), |i: int| plans[i].sequence),
        sequence_options: Seq::new(plans.len(), |i: int| plans[i].options),
        identity_always: Seq::new(plans.len(), |i: int| plans[i].identity_always),
        generated_stored: stored,
        checks: rules.checks,
        unique_constraints: rules.uniques,
        foreign_keys: rules.foreign_keys,
        exclusion_constraints: rules.exclusions,
        partition: rules.partition,
        if_not_exists: s.if_not_exists,
        schema: schema::empty_schema(),
    }
}

fn flags_of(plans: &Vec<ColumnPlan>) -> (flags: Vec<bool>)
    ensures
        flags@ == generated_flags(column_plans_view(plans@)),
{
    let mut flags: Vec<bool> = Vec::new();
    let mut i: usize = 0;
    while i < plans.len()
        invariant
            i <= plans.len(),
            flags.len() == i,
            forall|j: int| 0 <= j < i ==> #[trigger] flags@[j] == plans@[j].generated,
        decreases plans.len() - i,
    {
        flags.push(plans[i].generated);
        i = i + 1;
    }
    assert(flags@ =~= generated_flags(column_plans_view(plans@)));
    flags
}

fn optional_copy(s: &Option<String>) -> (copy: Option<String>)
    ensures
        (match copy {
            Some(x) => Some(x@),
            None => None,
        }) == (match *s {
            Some(x) => Some(x@),
            None => None,
        }),
{
    match s {
        Some(x) => Some(x.clone()),
        None => None,
    }
}

fn make_table(
    s: &CreateTableStmt,
    plans: &Vec<ColumnPlan>,
    row: Schema,
    defaults: Vec<Option<ScalarExpr>>,
    stored: Vec<Option<ScalarExpr>>,
    rules: BoundRules,
) -> (made: CreateTablePlan)
    ensures
        made@ == made_table(
            *s,
            column_plans_view(plans@),
            row@,
            plan::optional_scalars_view(defaults@),
            plan::optional_scalars_view(stored@),
            rules@,
        ),
{
    let ghost v = column_plans_view(plans@);
    let mut collations: Vec<Option<u32>> = Vec::new();
    let mut sequences: Vec<Option<String>> = Vec::new();
    let mut options: Vec<Option<LogicalSequenceOptions>> = Vec::new();
    let mut always: Vec<bool> = Vec::new();
    let mut i: usize = 0;
    while i < plans.len()
        invariant
            i <= plans.len(),
            v == column_plans_view(plans@),
            collations.len() == i,
            sequences.len() == i,
            options.len() == i,
            always.len() == i,
            forall|j: int| 0 <= j < i ==> #[trigger] collations@[j] == v[j].collation,
            forall|j: int|
                0 <= j < i ==> (match #[trigger] sequences@[j] {
                    Some(x) => Some(x@),
                    None => None,
                }) == v[j].sequence,
            forall|j: int| 0 <= j < i ==> #[trigger] options@[j] == v[j].options,
            forall|j: int| 0 <= j < i ==> #[trigger] always@[j] == v[j].identity_always,
        decreases plans.len() - i,
    {
        assert(v[i as int] == plans@[i as int]@);
        collations.push(plans[i].collation);
        sequences.push(optional_copy(&plans[i].sequence));
        options.push(plans[i].options);
        always.push(plans[i].identity_always);
        i = i + 1;
    }
    let made = CreateTablePlan {
        table_name: object_name_simple(&s.name),
        namespace: object_name_namespace(&s.name),
        columns: row,
        column_collations: collations,
        defaults,
        sequence_defaults: sequences,
        sequence_options: options,
        identity_always: always,
        generated_stored: stored,
        checks: rules.checks,
        unique_constraints: rules.uniques,
        foreign_keys: rules.foreign_keys,
        exclusion_constraints: rules.exclusions,
        partition: rules.partition,
        if_not_exists: s.if_not_exists,
        schema: Schema::empty(),
    };
    assert(made@.column_collations =~= Seq::new(v.len(), |i: int| v[i].collation));
    assert(made@.sequence_defaults =~= Seq::new(v.len(), |i: int| v[i].sequence));
    assert(made@.sequence_options =~= Seq::new(v.len(), |i: int| v[i].options));
    assert(made@.identity_always =~= Seq::new(v.len(), |i: int| v[i].identity_always));
    made
}

/// The table that a statement makes from its draft.
pub open spec fn finished_table(
    s: CreateTableStmt,
    plans: Seq<ColumnPlanView>,
    row: SchemaView,
    rules: TableRulesView,
    cat: CatalogView,
    r: ReadingsView,
) -> Result<CreateTablePlanView, PlanErrorView> {
    match defaults_from(s.columns@, 0, row, cat, r, Seq::empty()) {
        Err(e) => Err(e),
        Ok(defaults) => match stored_values(
            s.columns@,
            0,
            row,
            generated_flags(plans),
            cat,
            r,
            Seq::empty(),
        ) {
            Err(e) => Err(e),
            Ok(stored) => match bound_rules(row, rules, s.partition_by, cat, r) {
                Err(e) => Err(e),
                Ok(bound) => Ok(made_table(s, plans, row, defaults, stored, bound)),
            },
        },
    }
}

fn finish_table<C: Catalog>(
    s: &CreateTableStmt,
    plans: &Vec<ColumnPlan>,
    row: Schema,
    rules: &TableRules,
    catalog: &C,
    readings: &Readings,
) -> (made: Result<CreateTablePlan, PlanError>)
    requires
        s.columns@.len() == row@.fields.len(),
    ensures
        (match made {
            Ok(p) => Ok(p@),
            Err(e) => Err(e@),
        }) == finished_table(
            *s,
            column_plans_view(plans@),
            row@,
            rules@,
            catalog.model(),
            readings@,
        ),
{
    let defaults = bind_defaults(&s.columns, &row, catalog, readings)?;
    let flags = flags_of(plans);
    let stored = bind_stored_values(&s.columns, &row, &flags, catalog, readings)?;
    let bound = bind_rules(&row, rules, &s.partition_by, catalog, readings)?;
    Ok(make_table(s, plans, row, defaults, stored, bound))
}

/// The table that a `CREATE TABLE` makes.
pub open spec fn created_table(s: CreateTableStmt, cat: CatalogView, r: ReadingsView) -> Result<
    CreateTablePlanView,
    PlanErrorView,
> {
    let table_name = names::simple_name(s.name);
    if !s.if_not_exists && (cat.table_in)(names::namespace_of(s.name), table_name) is Some {
        Err(PlanErrorView::DuplicateTable(table_name))
    } else if s.columns@.len() == 0 {
        Err(PlanErrorView::NotSupported("CREATE TABLE: zero columns"@))
    } else {
        match table_draft(table_name, s, cat) {
            Err(e) => Err(e),
            Ok((plans, row, rules)) => finished_table(s, plans, row, rules, cat, r),
        }
    }
}

/// What a `CREATE TABLE` is bound to.
pub open spec fn bound_create_table(
    s: CreateTableStmt,
    cat: CatalogView,
    r: ReadingsView,
) -> Result<
    LogicalPlanView,
    PlanErrorView,
> {
    match created_table(s, cat, r) {
        Err(e) => Err(e),
        Ok(p) => Ok(LogicalPlanView::CreateTable(p)),
    }
}

/// Binds a `CREATE TABLE` statement.
pub fn bind_create_table<C: Catalog>(
    s: &CreateTableStmt,
    catalog: &C,
    readings: &Readings,
) -> (made:
    Result<LogicalPlan, PlanError>)
    ensures
        error::plan_outcome(made) == bound_create_table(*s, catalog.model(), readings@),
{
    let table_name = object_name_simple(&s.name);
    let namespace = object_name_namespace(&s.name);
    if !s.if_not_exists && catalog.lookup_table_in_schema(
        namespace.as_str(),
        table_name.as_str(),
    ).is_some() {
        return Err(PlanError::DuplicateTable(table_name));
    }
    if s.columns.len() == 0 {
        return Err(PlanError::NotSupported("CREATE TABLE: zero columns"));
    }
    let (plans, row, rules) = bind_table_draft(table_name.as_str(), s, catalog)?;
    proof {
        lemma_draft_count(table_name@, *s, catalog.model());
    }
    let made = finish_table(s, &plans, row, &rules, catalog, readings)?;
    Ok(LogicalPlan::CreateTable(made))
}

proof fn lemma_defaults_count(
    cols: Seq<ColumnDef>,
    i: int,
    row: SchemaView,
    cat: CatalogView,
    r: ReadingsView,
    acc: Seq<Option<ScalarExprView>>,
)
    requires
        0 <= i <= cols.len(),
    ensures
        defaults_from(cols, i, row, cat, r, acc) matches Ok(out) ==> out.len() == acc.len()
            + cols.len() - i,
    decreases cols.len() - i,
{
    if i < cols.len() {
        if let Ok(v) = column_default_value(cols[i], row.fields[i], cat, r) {
            lemma_defaults_count(cols, i + 1, row, cat, r, acc.push(v));
        }
    }
}

proof fn lemma_stored_count(
    cols: Seq<ColumnDef>,
    i: int,
    row: SchemaView,
    flags: Seq<bool>,
    cat: CatalogView,
    r: ReadingsView,
    acc: Seq<Option<ScalarExprView>>,
)
    requires
        0 <= i <= cols.len(),
    ensures
        stored_values(cols, i, row, flags, cat, r, acc) matches Ok(out) ==> out.len() == acc.len()
            + cols.len() - i,
    decreases cols.len() - i,
{
    if i < cols.len() {
        if let Ok(v) = stored_value(cols[i], row.fields[i], row, flags, cat, r) {
            lemma_stored_count(cols, i + 1, row, flags, cat, r, acc.push(v));
        }
    }
}

/// An accepted table has as many collations, defaults, sequences and computed
/// columns as it has columns, and it has as many columns as are declared.
pub proof fn created_lists_match(s: CreateTableStmt, cat: CatalogView, r: ReadingsView)
    ensures
        created_table(s, cat, r) matches Ok(p) ==> {
            let n = s.columns@.len();
            &&& n > 0
            &&& p.columns.fields.len() == n
            &&& p.column_collations.len() == n
            &&& p.defaults.len() == n
            &&& p.sequence_defaults.len() == n
            &&& p.sequence_options.len() == n
            &&& p.identity_always.len() == n
            &&& p.generated_stored.len() == n
        },
{
    let table = names::simple_name(s.name);
    lemma_draft_count(table, s, cat);
    if let Ok((plans, row, rules)) = table_draft(table, s, cat) {
        lemma_defaults_count(s.columns@, 0, row, cat, r, Seq::empty());
        lemma_stored_count(s.columns@, 0, row, generated_flags(plans), cat, r, Seq::empty());
    }
}

proof fn lemma_draft_keys(table: Seq<char>, s: CreateTableStmt, cat: CatalogView)
    ensures
        table_draft(table, s, cat) matches Ok((plans, row, rules)) ==> {
            &&& keys_hold(row.fields, rules.uniques, 0)
            &&& row.fields.len() == plans.len()
            &&& forall|j: int|
                0 <= j < plans.len() ==> ((#[trigger] row.fields[j]).nullable ==>
                    plans[j].field.nullable)
        },
{
    if let Ok((plans, own)) = columns_from(
        table,
        s.columns@,
        0,
        cat,
        Seq::empty(),
        table_rule::no_rules(),
    ) {
        if let Ok(rules) = table_rule::table_rules(own, table, s.table_constraints@, 0) {
            lemma_keys_required(plan_fields(plans), rules.uniques, 0);
        }
    }
}

proof fn lemma_columns_keep_one_primary_key(
    table: Seq<char>,
    cols: Seq<ColumnDef>,
    i: int,
    cat: CatalogView,
    plans: Seq<ColumnPlanView>,
    rules: TableRulesView,
)
    requires
        0 <= i <= cols.len(),
        table_rule::keys_noted(rules),
    ensures
        columns_from(table, cols, i, cat, plans, rules) matches Ok((_, out)) ==>
            table_rule::keys_noted(out),
    decreases cols.len() - i,
{
    if i < cols.len() {
        let col = text::lower(cols[i].name.value@);
        if let Ok(p) = column_plan(table, cols[i], cat) {
            table_rule::column_rules_keep_one_primary_key(
                rules,
                table,
                col,
                cols[i].constraints@,
                0,
            );
            if let Ok(next) = table_rule::column_rules(
                rules,
                table,
                col,
                cols[i].constraints@,
                0,
            ) {
                lemma_columns_keep_one_primary_key(table, cols, i + 1, cat, plans.push(p), next);
            }
        }
    }
}

proof fn lemma_draft_has_one_primary_key(table: Seq<char>, s: CreateTableStmt, cat: CatalogView)
    ensures
        table_draft(table, s, cat) matches Ok((_, _, rules)) ==> table_rule::primary_keys(
            rules.uniques,
            rules.uniques.len() as int,
        ) <= 1,
{
    lemma_columns_keep_one_primary_key(
        table,
        s.columns@,
        0,
        cat,
        Seq::empty(),
        table_rule::no_rules(),
    );
    if let Ok((_, own)) = columns_from(
        table,
        s.columns@,
        0,
        cat,
        Seq::empty(),
        table_rule::no_rules(),
    ) {
        table_rule::table_rules_keep_one_primary_key(own, table, s.table_constraints@, 0);
    }
}

/// Every column of the primary key of an accepted table is one of its columns and
/// refuses nulls.
pub proof fn primary_keys_refuse_nulls(s: CreateTableStmt, cat: CatalogView, r: ReadingsView)
    ensures
        created_table(s, cat, r) matches Ok(p) ==> forall|j: int, n: int|
            0 <= j < p.unique_constraints.len() && p.unique_constraints[j].primary_key && 0 <= n
                < p.unique_constraints[j].columns.len() ==> (
            #[trigger] p.unique_constraints[j].columns[n]) < p.columns.fields.len()
                && !p.columns.fields[p.unique_constraints[j].columns[n] as int].nullable,
{
    let table = names::simple_name(s.name);
    lemma_draft_keys(table, s, cat);
    lemma_draft_count(table, s, cat);
    if let Ok((plans, row, rules)) = table_draft(table, s, cat) {
        assert(row.fields.len() == s.columns.len());
        table_rule::lemma_uniques_follow_keys(row, rules.uniques, 0, Seq::empty());
        if let Ok(p) = created_table(s, cat, r) {
            let made = p.unique_constraints;
            assert forall|j: int, n: int|
                0 <= j < made.len() && made[j].primary_key && 0 <= n
                    < made[j].columns.len() implies (#[trigger] made[j].columns[n])
                < p.columns.fields.len()
                && !p.columns.fields[made[j].columns[n] as int].nullable by {
                let name = rules.uniques[j].columns[n];
                schema::find_gives_first(row.fields, name, 0);
            }
        }
    }
}

/// An accepted table has one primary key at most.
pub proof fn tables_have_one_primary_key(s: CreateTableStmt, cat: CatalogView, r: ReadingsView)
    ensures
        created_table(s, cat, r) matches Ok(p) ==> forall|i: int, j: int|
            0 <= i < j < p.unique_constraints.len() ==> !((
            #[trigger] p.unique_constraints[i]).primary_key && (
            #[trigger] p.unique_constraints[j]).primary_key),
{
    let table = names::simple_name(s.name);
    lemma_draft_has_one_primary_key(table, s, cat);
    lemma_draft_count(table, s, cat);
    if let Ok((plans, row, rules)) = table_draft(table, s, cat) {
        assert(row.fields.len() == s.columns.len());
        table_rule::lemma_uniques_follow_keys(row, rules.uniques, 0, Seq::empty());
        if let Ok(p) = created_table(s, cat, r) {
            let made = p.unique_constraints;
            assert forall|i: int, j: int| 0 <= i < j < made.len() implies !((
            #[trigger] made[i]).primary_key && (#[trigger] made[j]).primary_key) by {
                if made[i].primary_key && made[j].primary_key {
                    table_rule::lemma_two_primary_keys(rules.uniques, i, j);
                }
            }
        }
    }
}

proof fn lemma_column_plan(table: Seq<char>, c: ColumnDef, cat: CatalogView)
    ensures
        column_plan(table, c, cat) matches Ok(p) ==> p.sequence is Some ==> {
            &&& !p.field.nullable
            &&& shared::default_from(c.constraints@, 0, None) matches Ok(None)
        },
{
}

proof fn lemma_column_plans(
    table: Seq<char>,
    cols: Seq<ColumnDef>,
    i: int,
    cat: CatalogView,
    plans: Seq<ColumnPlanView>,
    rules: TableRulesView,
)
    requires
        0 <= i <= cols.len(),
        plans.len() == i,
        forall|j: int|
            0 <= j < i ==> column_plan(table, cols[j], cat) == Ok::<_, PlanErrorView>(
                #[trigger] plans[j],
            ),
    ensures
        columns_from(table, cols, i, cat, plans, rules) matches Ok((out, _)) ==> {
            &&& out.len() == cols.len()
            &&& forall|j: int|
                0 <= j < cols.len() ==> column_plan(table, cols[j], cat) == Ok::<
                    _,
                    PlanErrorView,
                >(#[trigger] out[j])
        },
    decreases cols.len() - i,
{
    if i < cols.len() {
        if let Ok(p) = column_plan(table, cols[i], cat) {
            if let Ok(next) = table_rule::column_rules(
                rules,
                table,
                text::lower(cols[i].name.value@),
                cols[i].constraints@,
                0,
            ) {
                lemma_column_plans(table, cols, i + 1, cat, plans.push(p), next);
            }
        }
    }
}

proof fn lemma_defaults_follow_columns(
    cols: Seq<ColumnDef>,
    i: int,
    row: SchemaView,
    cat: CatalogView,
    r: ReadingsView,
    acc: Seq<Option<ScalarExprView>>,
)
    requires
        0 <= i <= cols.len(),
        acc.len() == i,
        forall|j: int|
            0 <= j < i ==> column_default_value(cols[j], row.fields[j], cat, r) == Ok::<
                _,
                PlanErrorView,
            >(#[trigger] acc[j]),
    ensures
        defaults_from(cols, i, row, cat, r, acc) matches Ok(out) ==> {
            &&& out.len() == cols.len()
            &&& forall|j: int|
                0 <= j < cols.len() ==> column_default_value(cols[j], row.fields[j], cat, r) == Ok::<
                    _,
                    PlanErrorView,
                >(#[trigger] out[j])
        },
    decreases cols.len() - i,
{
    if i < cols.len() {
        if let Ok(v) = column_default_value(cols[i], row.fields[i], cat, r) {
            lemma_defaults_follow_columns(cols, i + 1, row, cat, r, acc.push(v));
        }
    }
}

/// A column of an accepted table that a sequence fills refuses nulls and has no
/// default.
pub proof fn sequence_columns_are_filled(s: CreateTableStmt, cat: CatalogView, r: ReadingsView)
    ensures
        created_table(s, cat, r) matches Ok(p) ==> forall|i: int|
            0 <= i < p.columns.fields.len() && (#[trigger] p.sequence_defaults[i]) is Some ==>
                !p.columns.fields[i].nullable && p.defaults[i] is None,
{
    let table = names::simple_name(s.name);
    lemma_draft_keys(table, s, cat);
    lemma_draft_count(table, s, cat);
    lemma_column_plans(table, s.columns@, 0, cat, Seq::empty(), table_rule::no_rules());
    if let Ok((plans, row, rules)) = table_draft(table, s, cat) {
        lemma_defaults_follow_columns(s.columns@, 0, row, cat, r, Seq::empty());
        if let Ok(p) = created_table(s, cat, r) {
            assert forall|i: int|
                0 <= i < p.columns.fields.len() && (
                #[trigger] p.sequence_defaults[i]) is Some implies !p.columns.fields[i].nullable
                && p.defaults[i] is None by {
                assert(plans[i].sequence is Some);
                assert(column_plan(table, s.columns@[i], cat) == Ok::<_, PlanErrorView>(plans[i]));
                lemma_column_plan(table, s.columns@[i], cat);
                assert(row.fields[i].nullable ==> plans[i].field.nullable);
            }
        }
    }
}

} // verus!
