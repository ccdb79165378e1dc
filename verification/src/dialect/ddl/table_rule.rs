//! The constraints of a new table: their names, and what they refer to.
use crate::ast::{
    BinaryOp, ColumnConstraint, ExcludeElement, Expr, Identifier, ObjectName, TableConstraint,
};
use crate::catalog::{Catalog, CatalogView};
use crate::datatype::{DataType, DataTypeView};
use crate::dialect::ddl::shared;
use crate::dialect::ddl::shared::{
    all_lower_names, bind_condition, bind_index_method, bind_referential_action,
    name_occurs_before, named_or, unique_name,
};
use crate::dialect::dml;
use crate::dialect::dml::lookup_target_table;
use crate::dialect::reading::{Readings, ReadingsView};
use crate::error::{PlanError, PlanErrorView};
use crate::plan::{
    LogicalCheckConstraint, LogicalCheckConstraintView, LogicalExclusionConstraint,
    LogicalExclusionConstraintView, LogicalExclusionElement, LogicalForeignKeyConstraint,
    LogicalForeignKeyConstraintView, LogicalIndexMethod, LogicalReferentialAction,
    LogicalUniqueConstraint, LogicalUniqueConstraintView,
};
use crate::render::display_binary;
use crate::schema::{Schema, SchemaView};
use crate::text::{cat2, cat3, cat4, cat6, cat7, owned, show_next, show_usize, text_eq, to_lower};
use crate::{datatype, debug, error, list, plan, render, schema, text};
use vstd::prelude::*;

verus! {

/// A condition and its name.
#[derive(Debug, PartialEq)]
pub struct NamedCheck<'a> {
    pub name: String,
    pub expr: &'a Expr,
}

/// The model of a [`NamedCheck`].
pub struct NamedCheckView {
    pub name: Seq<char>,
    pub expr: Expr,
}

impl<'a> NamedCheck<'a> {
    pub open spec fn view(&self) -> NamedCheckView {
        NamedCheckView { name: self.name@, expr: *self.expr }
    }
}

/// The models of conditions.
pub open spec fn named_checks_view(s: Seq<NamedCheck>) -> Seq<NamedCheckView> {
    Seq::new(s.len(), |i: int| s[i]@)
}

/// Columns whose values together occur once.
#[derive(Debug, PartialEq)]
pub struct UniqueKey {
    pub name: String,
    pub columns: Vec<String>,
    pub primary_key: bool,
}

/// The model of a [`UniqueKey`].
pub struct UniqueKeyView {
    pub name: Seq<char>,
    pub columns: Seq<Seq<char>>,
    pub primary_key: bool,
}

impl UniqueKey {
    pub open spec fn view(&self) -> UniqueKeyView {
        UniqueKeyView {
            name: self.name@,
            columns: list::strings_view(self.columns@),
            primary_key: self.primary_key,
        }
    }
}

/// The models of unique keys.
pub open spec fn unique_keys_view(s: Seq<UniqueKey>) -> Seq<UniqueKeyView> {
    Seq::new(s.len(), |i: int| s[i]@)
}

/// Columns that refer to the rows of a table.
#[derive(Debug, PartialEq)]
pub struct Reference<'a> {
    pub name: String,
    pub columns: Vec<String>,
    pub target: &'a ObjectName,
    pub target_columns: Vec<String>,
    pub on_delete: LogicalReferentialAction,
    pub on_update: LogicalReferentialAction,
    pub deferrable: bool,
    pub initially_deferred: bool,
}

/// The model of a [`Reference`].
pub struct ReferenceView {
    pub name: Seq<char>,
    pub columns: Seq<Seq<char>>,
    pub target: ObjectName,
    pub target_columns: Seq<Seq<char>>,
    pub on_delete: LogicalReferentialAction,
    pub on_update: LogicalReferentialAction,
    pub deferrable: bool,
    pub initially_deferred: bool,
}

impl<'a> Reference<'a> {
    pub open spec fn view(&self) -> ReferenceView {
        ReferenceView {
            name: self.name@,
            columns: list::strings_view(self.columns@),
            target: *self.target,
            target_columns: list::strings_view(self.target_columns@),
            on_delete: self.on_delete,
            on_update: self.on_update,
            deferrable: self.deferrable,
            initially_deferred: self.initially_deferred,
        }
    }
}

/// The models of references.
pub open spec fn references_view(s: Seq<Reference>) -> Seq<ReferenceView> {
    Seq::new(s.len(), |i: int| s[i]@)
}

/// Columns and operators of which not all may hold between two rows.
#[derive(Debug, PartialEq)]
pub struct Exclusion {
    pub name: String,
    pub method: LogicalIndexMethod,
    pub elements: Vec<(String, BinaryOp)>,
}

/// The model of an [`Exclusion`].
pub struct ExclusionView {
    pub name: Seq<char>,
    pub method: LogicalIndexMethod,
    pub elements: Seq<(Seq<char>, BinaryOp)>,
}

/// The models of columns and operators.
pub open spec fn elements_view(s: Seq<(String, BinaryOp)>) -> Seq<(Seq<char>, BinaryOp)> {
    Seq::new(s.len(), |i: int| (s[i].0@, s[i].1))
}

impl Exclusion {
    pub open spec fn view(&self) -> ExclusionView {
        ExclusionView {
            name: self.name@,
            method: self.method,
            elements: elements_view(self.elements@),
        }
    }
}

/// The models of exclusions.
pub open spec fn exclusions_view(s: Seq<Exclusion>) -> Seq<ExclusionView> {
    Seq::new(s.len(), |i: int| s[i]@)
}

/// The constraints of a table, by kind, in the order in which they are stated.
#[derive(Debug, PartialEq)]
pub struct TableRules<'a> {
    pub checks: Vec<NamedCheck<'a>>,
    pub uniques: Vec<UniqueKey>,
    pub references: Vec<Reference<'a>>,
    pub exclusions: Vec<Exclusion>,
    pub primary_key_seen: bool,
}

/// The model of [`TableRules`].
pub struct TableRulesView {
    pub checks: Seq<NamedCheckView>,
    pub uniques: Seq<UniqueKeyView>,
    pub references: Seq<ReferenceView>,
    pub exclusions: Seq<ExclusionView>,
    pub primary_key_seen: bool,
}

/// No constraints.
pub open spec fn no_rules() -> TableRulesView {
    TableRulesView {
        checks: Seq::empty(),
        uniques: Seq::empty(),
        references: Seq::empty(),
        exclusions: Seq::empty(),
        primary_key_seen: false,
    }
}

/// Constraints with their outcome as models.
pub open spec fn rules_outcome(r: Result<TableRules, PlanError>) -> Result<
    TableRulesView,
    PlanErrorView,
> {
    match r {
        Ok(x) => Ok(x@),
        Err(e) => Err(e@),
    }
}

impl<'a> TableRules<'a> {
    pub open spec fn view(&self) -> TableRulesView {
        TableRulesView {
            checks: named_checks_view(self.checks@),
            uniques: unique_keys_view(self.uniques@),
            references: references_view(self.references@),
            exclusions: exclusions_view(self.exclusions@),
            primary_key_seen: self.primary_key_seen,
        }
    }

    /// No constraints.
    pub fn new() -> (made: TableRules<'a>)
        ensures
            made@ == no_rules(),
    {
        let made = TableRules {
            checks: Vec::new(),
            uniques: Vec::new(),
            references: Vec::new(),
            exclusions: Vec::new(),
            primary_key_seen: false,
        };
        assert(made@.checks =~= Seq::empty());
        assert(made@.uniques =~= Seq::empty());
        assert(made@.references =~= Seq::empty());
        assert(made@.exclusions =~= Seq::empty());
        made
    }

    fn with_check(self, check: NamedCheck<'a>) -> (made: TableRules<'a>)
        ensures
            made@ == (TableRulesView { checks: self@.checks.push(check@), ..self@ }),
    {
        let mut made = self;
        made.checks.push(check);
        assert(made@.checks =~= self@.checks.push(check@));
        made
    }

    fn with_unique(self, key: UniqueKey) -> (made: TableRules<'a>)
        ensures
            made@ == (TableRulesView { uniques: self@.uniques.push(key@), ..self@ }),
    {
        let mut made = self;
        made.uniques.push(key);
        assert(made@.uniques =~= self@.uniques.push(key@));
        made
    }

    fn with_reference(self, reference: Reference<'a>) -> (made: TableRules<'a>)
        ensures
            made@ == (TableRulesView { references: self@.references.push(reference@), ..self@ }),
    {
        let mut made = self;
        made.references.push(reference);
        assert(made@.references =~= self@.references.push(reference@));
        made
    }

    fn with_exclusion(self, exclusion: Exclusion) -> (made: TableRules<'a>)
        ensures
            made@ == (TableRulesView { exclusions: self@.exclusions.push(exclusion@), ..self@ }),
    {
        let mut made = self;
        made.exclusions.push(exclusion);
        assert(made@.exclusions =~= self@.exclusions.push(exclusion@));
        made
    }
}

/// Constraints with one more unique key. A table has one primary key at most.
pub open spec fn with_key(r: TableRulesView, key: UniqueKeyView) -> Result<
    TableRulesView,
    PlanErrorView,
> {
    if key.primary_key && r.primary_key_seen {
        Err(PlanErrorView::NotSupported("CREATE TABLE: multiple PRIMARY KEY constraints"@))
    } else {
        Ok(
            TableRulesView {
                uniques: r.uniques.push(key),
                primary_key_seen: r.primary_key_seen || key.primary_key,
                ..r
            },
        )
    }
}

fn add_key<'a>(rules: TableRules<'a>, key: UniqueKey) -> (made: Result<TableRules<'a>, PlanError>)
    ensures
        rules_outcome(made) == with_key(rules@, key@),
{
    if key.primary_key && rules.primary_key_seen {
        return Err(PlanError::NotSupported("CREATE TABLE: multiple PRIMARY KEY constraints"));
    }
    let seen = rules.primary_key_seen || key.primary_key;
    let mut made = rules.with_unique(key);
    made.primary_key_seen = seen;
    Ok(made)
}

/// The list of one name.
pub open spec fn one(name: Seq<char>) -> Seq<Seq<char>> {
    seq![name]
}

fn only(name: String) -> (out: Vec<String>)
    ensures
        list::strings_view(out@) == one(name@),
{
    let mut out: Vec<String> = Vec::new();
    out.push(name);
    assert(list::strings_view(out@) =~= one(name@));
    out
}

/// Constraints with one more reference. A reference states the columns that it
/// refers to.
pub open spec fn with_reference(r: TableRulesView, x: ReferenceView) -> Result<
    TableRulesView,
    PlanErrorView,
> {
    if x.target_columns.len() == 0 {
        Err(PlanErrorView::NotSupported("CREATE TABLE: REFERENCES without target columns"@))
    } else {
        Ok(TableRulesView { references: r.references.push(x), ..r })
    }
}

fn add_reference<'a>(rules: TableRules<'a>, x: Reference<'a>) -> (made: Result<
    TableRules<'a>,
    PlanError,
>)
    ensures
        rules_outcome(made) == with_reference(rules@, x@),
{
    if x.target_columns.len() == 0 {
        return Err(PlanError::NotSupported("CREATE TABLE: REFERENCES without target columns"));
    }
    Ok(rules.with_reference(x))
}

/// The constraints of a table with one more constraint of a column.
pub open spec fn column_rule(
    r: TableRulesView,
    table: Seq<char>,
    col: Seq<char>,
    c: ColumnConstraint,
) -> Result<
    TableRulesView,
    PlanErrorView,
> {
    match c {
        ColumnConstraint::Check { name, expr } => Ok(
            TableRulesView {
                checks: r.checks.push(
                    NamedCheckView {
                        name: shared::name_or(name, table + "_"@ + col + "_check"@),
                        expr,
                    },
                ),
                ..r
            },
        ),
        ColumnConstraint::Unique { name } => with_key(
            r,
            UniqueKeyView {
                name: shared::name_or(name, table + "_"@ + col + "_key"@),
                columns: one(col),
                primary_key: false,
            },
        ),
        ColumnConstraint::PrimaryKey { name } => with_key(
            r,
            UniqueKeyView {
                name: shared::name_or(name, table + "_pkey"@),
                columns: one(col),
                primary_key: true,
            },
        ),
        ColumnConstraint::References {
            name,
            target_table,
            target_columns,
            on_delete,
            on_update,
            deferrable,
            initially_deferred,
        } => with_reference(
            r,
            ReferenceView {
                name: shared::name_or(name, table + "_"@ + col + "_fkey"@),
                columns: one(col),
                target: target_table,
                target_columns: shared::lower_names(target_columns@),
                on_delete: shared::referential_action(on_delete),
                on_update: shared::referential_action(on_update),
                deferrable,
                initially_deferred,
            },
        ),
        _ => Ok(r),
    }
}

fn add_column_rule<'a>(
    rules: TableRules<'a>,
    table: &str,
    col: &str,
    c: &'a ColumnConstraint,
) -> (made:
    Result<TableRules<'a>, PlanError>)
    ensures
        rules_outcome(made) == column_rule(rules@, table@, col@, *c),
{
    match c {
        ColumnConstraint::Check { name, expr } => {
            let fallback = cat4(table, "_", col, "_check");
            Ok(rules.with_check(NamedCheck { name: named_or(name, fallback), expr }))
        },
        ColumnConstraint::Unique { name } => {
            let fallback = cat4(table, "_", col, "_key");
            add_key(
                rules,
                UniqueKey {
                    name: named_or(name, fallback),
                    columns: only(owned(col)),
                    primary_key: false,
                },
            )
        },
        ColumnConstraint::PrimaryKey { name } => {
            let fallback = cat2(table, "_pkey");
            add_key(
                rules,
                UniqueKey {
                    name: named_or(name, fallback),
                    columns: only(owned(col)),
                    primary_key: true,
                },
            )
        },
        ColumnConstraint::References {
            name,
            target_table,
            target_columns,
            on_delete,
            on_update,
            deferrable,
            initially_deferred,
        } => {
            let fallback = cat4(table, "_", col, "_fkey");
            add_reference(
                rules,
                Reference {
                    name: named_or(name, fallback),
                    columns: only(owned(col)),
                    target: target_table,
                    target_columns: all_lower_names(target_columns),
                    on_delete: bind_referential_action(*on_delete),
                    on_update: bind_referential_action(*on_update),
                    deferrable: *deferrable,
                    initially_deferred: *initially_deferred,
                },
            )
        },
        _ => Ok(rules),
    }
}

/// The constraints of a table with those of a column from the `i`-th on.
pub open spec fn column_rules(
    r: TableRulesView,
    table: Seq<char>,
    col: Seq<char>,
    constraints: Seq<ColumnConstraint>,
    i: int,
) -> Result<TableRulesView, PlanErrorView>
    decreases constraints.len() - i,
{
    if i < 0 || i >= constraints.len() {
        Ok(r)
    } else {
        match column_rule(r, table, col, constraints[i]) {
            Err(e) => Err(e),
            Ok(next) => column_rules(next, table, col, constraints, i + 1),
        }
    }
}

/// Adds the constraints of a column to those of its table.
pub fn collect_column_constraints<'a>(
    rules: TableRules<'a>,
    table: &str,
    column: &Identifier,
    constraints: &'a Vec<ColumnConstraint>,
) -> (made: Result<TableRules<'a>, PlanError>)
    ensures
        rules_outcome(made) == column_rules(
            rules@,
            table@,
            text::lower(column.value@),
            constraints@,
            0,
        ),
{
    let col = to_lower(column.value.as_str());
    let ghost start = rules@;
    let mut out = rules;
    let mut i: usize = 0;
    while i < constraints.len()
        invariant
            i <= constraints.len(),
            start == rules@,
            col@ == text::lower(column.value@),
            column_rules(out@, table@, col@, constraints@, i as int) == column_rules(
                start,
                table@,
                col@,
                constraints@,
                0,
            ),
        decreases constraints.len() - i,
    {
        out = add_column_rule(out, table, col.as_str(), &constraints[i])?;
        i = i + 1;
    }
    Ok(out)
}

/// The columns and operators of an exclusion, in lower case.
pub open spec fn lower_elements(s: Seq<ExcludeElement>) -> Seq<(Seq<char>, BinaryOp)> {
    Seq::new(s.len(), |i: int| (text::lower(s[i].column.value@), s[i].op))
}

fn all_elements(s: &Vec<ExcludeElement>) -> (out: Vec<(String, BinaryOp)>)
    ensures
        elements_view(out@) == lower_elements(s@),
{
    let mut out: Vec<(String, BinaryOp)> = Vec::new();
    let mut i: usize = 0;
    while i < s.len()
        invariant
            i <= s.len(),
            out.len() == i,
            forall|j: int|
                0 <= j < i ==> ((#[trigger] out@[j]).0@, out@[j].1) == lower_elements(s@)[j],
        decreases s.len() - i,
    {
        out.push((to_lower(s[i].column.value.as_str()), s[i].op));
        i = i + 1;
    }
    assert(elements_view(out@) =~= lower_elements(s@));
    out
}

/// The first `n` names with underscores between them.
pub open spec fn joined(names: Seq<Seq<char>>, n: int) -> Seq<char>
    decreases n,
{
    if n <= 0 || n > names.len() {
        Seq::empty()
    } else if n == 1 {
        names[0]
    } else {
        joined(names, n - 1) + "_"@ + names[n - 1]
    }
}

fn join_names(names: &Vec<String>) -> (out: String)
    ensures
        out@ == joined(list::strings_view(names@), names@.len() as int),
{
    let mut out = String::new();
    let mut i: usize = 0;
    while i < names.len()
        invariant
            i <= names.len(),
            out@ == joined(list::strings_view(names@), i as int),
        decreases names.len() - i,
    {
        if i == 0 {
            out = names[0].clone();
        } else {
            out = cat3(out.as_str(), "_", names[i].as_str());
        }
        i = i + 1;
    }
    out
}

/// The constraints of a table with one more.
pub open spec fn table_rule(r: TableRulesView, table: Seq<char>, c: TableConstraint) -> Result<
    TableRulesView,
    PlanErrorView,
> {
    match c {
        TableConstraint::Check { name, expr } => Ok(
            TableRulesView {
                checks: r.checks.push(
                    NamedCheckView {
                        name: shared::name_or(
                            name,
                            table + "_check_"@ + text::decimal(r.checks.len() + 1),
                        ),
                        expr,
                    },
                ),
                ..r
            },
        ),
        TableConstraint::Unique { name, columns } => {
            let cols = shared::lower_names(columns@);
            with_key(
                r,
                UniqueKeyView {
                    name: shared::name_or(name, shared::default_unique_name(table, cols, false)),
                    columns: cols,
                    primary_key: false,
                },
            )
        },
        TableConstraint::PrimaryKey { name, columns } => {
            let cols = shared::lower_names(columns@);
            with_key(
                r,
                UniqueKeyView {
                    name: shared::name_or(name, shared::default_unique_name(table, cols, true)),
                    columns: cols,
                    primary_key: true,
                },
            )
        },
        TableConstraint::ForeignKey {
            name,
            columns,
            target_table,
            target_columns,
            on_delete,
            on_update,
            deferrable,
            initially_deferred,
        } => {
            let cols = shared::lower_names(columns@);
            with_reference(
                r,
                ReferenceView {
                    name: shared::name_or(name, joined(cols, cols.len() as int) + "_fkey"@),
                    columns: cols,
                    target: target_table,
                    target_columns: shared::lower_names(target_columns@),
                    on_delete: shared::referential_action(on_delete),
                    on_update: shared::referential_action(on_update),
                    deferrable,
                    initially_deferred,
                },
            )
        },
        TableConstraint::Exclude { name, method, elements } => match shared::index_method(
            method.value@,
        ) {
            Err(e) => Err(e),
            Ok(m) => if m != LogicalIndexMethod::Gist {
                Err(
                    PlanErrorView::NotSupported(
                        "EXCLUDE constraints currently require USING gist"@,
                    ),
                )
            } else {
                Ok(
                    TableRulesView {
                        exclusions: r.exclusions.push(
                            ExclusionView {
                                name: shared::name_or(
                                    name,
                                    table + "_excl_"@ + text::decimal(r.exclusions.len() + 1),
                                ),
                                method: m,
                                elements: lower_elements(elements@),
                            },
                        ),
                        ..r
                    },
                )
            },
        },
    }
}

fn add_table_rule<'a>(rules: TableRules<'a>, table: &str, c: &'a TableConstraint) -> (made: Result<
    TableRules<'a>,
    PlanError,
>)
    ensures
        rules_outcome(made) == table_rule(rules@, table@, *c),
{
    match c {
        TableConstraint::Check { name, expr } => {
            let number = show_next(rules.checks.len());
            let fallback = cat3(table, "_check_", number.as_str());
            Ok(rules.with_check(NamedCheck { name: named_or(name, fallback), expr }))
        },
        TableConstraint::Unique { name, columns } => {
            let cols = all_lower_names(columns);
            let fallback = unique_name(table, &cols, false);
            add_key(
                rules,
                UniqueKey { name: named_or(name, fallback), columns: cols, primary_key: false },
            )
        },
        TableConstraint::PrimaryKey { name, columns } => {
            let cols = all_lower_names(columns);
            let fallback = unique_name(table, &cols, true);
            add_key(
                rules,
                UniqueKey { name: named_or(name, fallback), columns: cols, primary_key: true },
            )
        },
        TableConstraint::ForeignKey {
            name,
            columns,
            target_table,
            target_columns,
            on_delete,
            on_update,
            deferrable,
            initially_deferred,
        } => {
            let cols = all_lower_names(columns);
            let stem = join_names(&cols);
            let fallback = cat2(stem.as_str(), "_fkey");
            add_reference(
                rules,
                Reference {
                    name: named_or(name, fallback),
                    columns: cols,
                    target: target_table,
                    target_columns: all_lower_names(target_columns),
                    on_delete: bind_referential_action(*on_delete),
                    on_update: bind_referential_action(*on_update),
                    deferrable: *deferrable,
                    initially_deferred: *initially_deferred,
                },
            )
        },
        TableConstraint::Exclude { name, method, elements } => {
            let m = bind_index_method(method.value.as_str())?;
            if m != LogicalIndexMethod::Gist {
                return Err(
                    PlanError::NotSupported("EXCLUDE constraints currently require USING gist"),
                );
            }
            let number = show_next(rules.exclusions.len());
            let fallback = cat3(table, "_excl_", number.as_str());
            Ok(
                rules.with_exclusion(
                    Exclusion {
                        name: named_or(name, fallback),
                        method: m,
                        elements: all_elements(elements),
                    },
                ),
            )
        },
    }
}

/// The constraints of a table with those stated from the `i`-th on.
pub open spec fn table_rules(
    r: TableRulesView,
    table: Seq<char>,
    constraints: Seq<TableConstraint>,
    i: int,
) -> Result<TableRulesView, PlanErrorView>
    decreases constraints.len() - i,
{
    if i < 0 || i >= constraints.len() {
        Ok(r)
    } else {
        match table_rule(r, table, constraints[i]) {
            Err(e) => Err(e),
            Ok(next) => table_rules(next, table, constraints, i + 1),
        }
    }
}

/// Adds the constraints that a table states to those of its columns.
pub fn collect_table_constraints<'a>(
    rules: TableRules<'a>,
    table: &str,
    constraints: &'a Vec<TableConstraint>,
) -> (made: Result<TableRules<'a>, PlanError>)
    ensures
        rules_outcome(made) == table_rules(rules@, table@, constraints@, 0),
{
    let ghost start = rules@;
    let mut out = rules;
    let mut i: usize = 0;
    while i < constraints.len()
        invariant
            i <= constraints.len(),
            start == rules@,
            table_rules(out@, table@, constraints@, i as int) == table_rules(
                start,
                table@,
                constraints@,
                0,
            ),
        decreases constraints.len() - i,
    {
        out = add_table_rule(out, table, &constraints[i])?;
        i = i + 1;
    }
    Ok(out)
}

/// The number of primary keys among the first `n` unique keys.
pub open spec fn primary_keys(s: Seq<UniqueKeyView>, n: int) -> nat
    decreases n,
{
    if n <= 0 || n > s.len() {
        0
    } else {
        primary_keys(s, n - 1) + if s[n - 1].primary_key {
            1nat
        } else {
            0nat
        }
    }
}

/// Whether a primary key is noted if and only if there is one, and there is one
/// at most.
pub open spec fn keys_noted(r: TableRulesView) -> bool {
    primary_keys(r.uniques, r.uniques.len() as int) == if r.primary_key_seen {
        1nat
    } else {
        0nat
    }
}

proof fn lemma_primary_keys_prefix(s: Seq<UniqueKeyView>, k: UniqueKeyView, n: int)
    requires
        0 <= n <= s.len(),
    ensures
        primary_keys(s.push(k), n) == primary_keys(s, n),
    decreases n,
{
    if n > 0 {
        lemma_primary_keys_prefix(s, k, n - 1);
    }
}

proof fn lemma_key_noted(r: TableRulesView, k: UniqueKeyView)
    requires
        keys_noted(r),
    ensures
        with_key(r, k) matches Ok(next) ==> keys_noted(next),
{
    lemma_primary_keys_prefix(r.uniques, k, r.uniques.len() as int);
}

/// Whatever constraints the columns of a table and the table itself state, an
/// accepted collection holds one primary key at most.
pub proof fn column_rules_keep_one_primary_key(
    r: TableRulesView,
    table: Seq<char>,
    col: Seq<char>,
    constraints: Seq<ColumnConstraint>,
    i: int,
)
    requires
        keys_noted(r),
    ensures
        column_rules(r, table, col, constraints, i) matches Ok(next) ==> keys_noted(next),
    decreases constraints.len() - i,
{
    if 0 <= i < constraints.len() {
        match constraints[i] {
            ColumnConstraint::Unique { name } => {
                lemma_key_noted(
                    r,
                    UniqueKeyView {
                        name: shared::name_or(name, table + "_"@ + col + "_key"@),
                        columns: one(col),
                        primary_key: false,
                    },
                );
            },
            ColumnConstraint::PrimaryKey { name } => {
                lemma_key_noted(
                    r,
                    UniqueKeyView {
                        name: shared::name_or(name, table + "_pkey"@),
                        columns: one(col),
                        primary_key: true,
                    },
                );
            },
            _ => {},
        }
        if let Ok(next) = column_rule(r, table, col, constraints[i]) {
            column_rules_keep_one_primary_key(next, table, col, constraints, i + 1);
        }
    }
}

/// The constraints that a table states keep it to one primary key at most.
pub proof fn table_rules_keep_one_primary_key(
    r: TableRulesView,
    table: Seq<char>,
    constraints: Seq<TableConstraint>,
    i: int,
)
    requires
        keys_noted(r),
    ensures
        table_rules(r, table, constraints, i) matches Ok(next) ==> keys_noted(next),
    decreases constraints.len() - i,
{
    if 0 <= i < constraints.len() {
        match constraints[i] {
            TableConstraint::Unique { name, columns } => {
                let cols = shared::lower_names(columns@);
                lemma_key_noted(
                    r,
                    UniqueKeyView {
                        name: shared::name_or(
                            name,
                            shared::default_unique_name(table, cols, false),
                        ),
                        columns: cols,
                        primary_key: false,
                    },
                );
            },
            TableConstraint::PrimaryKey { name, columns } => {
                let cols = shared::lower_names(columns@);
                lemma_key_noted(
                    r,
                    UniqueKeyView {
                        name: shared::name_or(name, shared::default_unique_name(table, cols, true)),
                        columns: cols,
                        primary_key: true,
                    },
                );
            },
            _ => {},
        }
        if let Ok(next) = table_rule(r, table, constraints[i]) {
            table_rules_keep_one_primary_key(next, table, constraints, i + 1);
        }
    }
}

/// The conditions of a table from the `i`-th on, bound against its row.
pub open spec fn bound_checks(
    checks: Seq<NamedCheckView>,
    i: int,
    row: SchemaView,
    cat: CatalogView,
    r: ReadingsView,
    acc: Seq<LogicalCheckConstraintView>,
) -> Result<Seq<LogicalCheckConstraintView>, PlanErrorView>
    decreases checks.len() - i,
{
    if i < 0 || i >= checks.len() {
        Ok(acc)
    } else {
        match shared::bound_condition(
            checks[i].expr,
            row,
            cat,
            r,
            "CHECK constraint '"@ + checks[i].name + "'"@,
        ) {
            Err(e) => Err(e),
            Ok(expr) => bound_checks(
                checks,
                i + 1,
                row,
                cat,
                r,
                acc.push(LogicalCheckConstraintView { name: checks[i].name, expr }),
            ),
        }
    }
}

/// Conditions with their outcome as models.
pub open spec fn checks_outcome(r: Result<Vec<LogicalCheckConstraint>, PlanError>) -> Result<
    Seq<LogicalCheckConstraintView>,
    PlanErrorView,
> {
    match r {
        Ok(checks) => Ok(plan::checks_view(checks@)),
        Err(e) => Err(e@),
    }
}

/// Binds the conditions of a table.
pub fn bind_check_constraints<C: Catalog>(
    checks: &Vec<NamedCheck>,
    row: &Schema,
    catalog: &C,
    readings: &Readings,
) -> (made: Result<Vec<LogicalCheckConstraint>, PlanError>)
    ensures
        checks_outcome(made) == bound_checks(
            named_checks_view(checks@),
            0,
            row@,
            catalog.model(),
            readings@,
            Seq::empty(),
        ),
{
    let ghost cat = catalog.model();
    let ghost raw = named_checks_view(checks@);
    let mut out: Vec<LogicalCheckConstraint> = Vec::new();
    assert(plan::checks_view(out@) =~= Seq::empty());
    let mut i: usize = 0;
    while i < checks.len()
        invariant
            i <= checks.len(),
            cat == catalog.model(),
            raw == named_checks_view(checks@),
            bound_checks(raw, i as int, row@, cat, readings@, plan::checks_view(out@))
                == bound_checks(raw, 0, row@, cat, readings@, Seq::empty()),
        decreases checks.len() - i,
    {
        assert(raw[i as int] == checks@[i as int]@);
        let subject = cat3("CHECK constraint '", checks[i].name.as_str(), "'");
        let expr = bind_condition(checks[i].expr, row, catalog, readings, subject.as_str())?;
        let check = LogicalCheckConstraint { name: checks[i].name.clone(), expr };
        proof {
            plan::lemma_checks_push(out@, check);
        }
        out.push(check);
        i = i + 1;
    }
    Ok(out)
}

/// The positions of distinct columns, named from the `i`-th on.
pub open spec fn distinct_positions(
    row: SchemaView,
    names: Seq<Seq<char>>,
    i: int,
    acc: Seq<usize>,
) -> Result<Seq<usize>, PlanErrorView>
    decreases names.len() - i,
{
    if i < 0 || i >= names.len() {
        Ok(acc)
    } else if shared::occurs_before(names, i) {
        Err(PlanErrorView::DuplicateColumn(names[i]))
    } else {
        match schema::find_field(row, names[i]) {
            None => Err(PlanErrorView::ColumnNotFound(names[i])),
            Some(k) => distinct_positions(row, names, i + 1, acc.push(k as usize)),
        }
    }
}

fn find_distinct_positions(
    row: &Schema,
    names: &Vec<String>,
) -> (made: Result<Vec<usize>, PlanError>)
    ensures
        error::list_outcome(made) == distinct_positions(
            row@,
            list::strings_view(names@),
            0,
            Seq::empty(),
        ),
{
    let ghost s = list::strings_view(names@);
    let mut out: Vec<usize> = Vec::new();
    let mut i: usize = 0;
    while i < names.len()
        invariant
            i <= names.len(),
            s == list::strings_view(names@),
            distinct_positions(row@, s, i as int, out@) == distinct_positions(
                row@,
                s,
                0,
                Seq::empty(),
            ),
        decreases names.len() - i,
    {
        assert(s[i as int] == names@[i as int]@);
        if name_occurs_before(names, i) {
            return Err(PlanError::DuplicateColumn(names[i].clone()));
        }
        match row.find(names[i].as_str()) {
            None => {
                return Err(PlanError::ColumnNotFound(names[i].clone()));
            },
            Some(k) => {
                out.push(k);
            },
        }
        i = i + 1;
    }
    Ok(out)
}

/// The unique keys of a table from the `i`-th on, by the positions of their
/// columns.
pub open spec fn bound_uniques(
    row: SchemaView,
    keys: Seq<UniqueKeyView>,
    i: int,
    acc: Seq<LogicalUniqueConstraintView>,
) -> Result<Seq<LogicalUniqueConstraintView>, PlanErrorView>
    decreases keys.len() - i,
{
    if i < 0 || i >= keys.len() {
        Ok(acc)
    } else if keys[i].columns.len() == 0 {
        Err(PlanErrorView::NotSupported("CREATE TABLE: empty UNIQUE / PRIMARY KEY column list"@))
    } else {
        match distinct_positions(row, keys[i].columns, 0, Seq::empty()) {
            Err(e) => Err(e),
            Ok(columns) => bound_uniques(
                row,
                keys,
                i + 1,
                acc.push(
                    LogicalUniqueConstraintView {
                        name: keys[i].name,
                        columns,
                        primary_key: keys[i].primary_key,
                    },
                ),
            ),
        }
    }
}

proof fn lemma_positions_are_found(
    row: SchemaView,
    names: Seq<Seq<char>>,
    i: int,
    acc: Seq<usize>,
)
    requires
        0 <= i <= names.len(),
        acc.len() == i,
        row.fields.len() <= usize::MAX,
        forall|n: int|
            0 <= n < i ==> schema::find_field(row, names[n]) == Some((#[trigger] acc[n]) as int),
    ensures
        distinct_positions(row, names, i, acc) matches Ok(out) ==> {
            &&& out.len() == names.len()
            &&& forall|n: int|
                0 <= n < names.len() ==> schema::find_field(row, names[n]) == Some(
                    (#[trigger] out[n]) as int,
                )
        },
    decreases names.len() - i,
{
    if i < names.len() {
        schema::find_gives_first(row.fields, names[i], 0);
        if let Some(k) = schema::find_field(row, names[i]) {
            lemma_positions_are_found(row, names, i + 1, acc.push(k as usize));
        }
    }
}

/// Bound unique keys follow the keys that are declared: each is primary where
/// the declared one is, and stands on the columns of its names.
pub proof fn lemma_uniques_follow_keys(
    row: SchemaView,
    keys: Seq<UniqueKeyView>,
    i: int,
    acc: Seq<LogicalUniqueConstraintView>,
)
    requires
        0 <= i <= keys.len(),
        acc.len() == i,
        row.fields.len() <= usize::MAX,
        forall|j: int| 0 <= j < i ==> unique_follows(row, keys[j], #[trigger] acc[j]),
    ensures
        bound_uniques(row, keys, i, acc) matches Ok(out) ==> {
            &&& out.len() == keys.len()
            &&& forall|j: int| 0 <= j < keys.len() ==> unique_follows(
                row,
                keys[j],
                #[trigger] out[j],
            )
        },
    decreases keys.len() - i,
{
    if i < keys.len() && keys[i].columns.len() > 0 {
        lemma_positions_are_found(row, keys[i].columns, 0, Seq::empty());
        if let Ok(columns) = distinct_positions(row, keys[i].columns, 0, Seq::empty()) {
            let made = LogicalUniqueConstraintView {
                name: keys[i].name,
                columns,
                primary_key: keys[i].primary_key,
            };
            lemma_uniques_follow_keys(row, keys, i + 1, acc.push(made));
        }
    }
}

/// Whether a unique key of a table is the declared one, on the columns of the
/// declared names.
pub open spec fn unique_follows(
    row: SchemaView,
    key: UniqueKeyView,
    made: LogicalUniqueConstraintView,
) -> bool {
    &&& made.primary_key == key.primary_key
    &&& made.columns.len() == key.columns.len()
    &&& forall|n: int|
        0 <= n < key.columns.len() ==> schema::find_field(row, key.columns[n]) == Some(
            (#[trigger] made.columns[n]) as int,
        )
}

proof fn lemma_primary_keys_grow(s: Seq<UniqueKeyView>, m: int, n: int)
    requires
        0 <= m <= n <= s.len(),
    ensures
        primary_keys(s, m) <= primary_keys(s, n),
    decreases n - m,
{
    if m < n {
        lemma_primary_keys_grow(s, m, n - 1);
    }
}

/// Two primary keys are counted twice.
pub proof fn lemma_two_primary_keys(s: Seq<UniqueKeyView>, i: int, j: int)
    requires
        0 <= i < j < s.len(),
        s[i].primary_key,
        s[j].primary_key,
    ensures
        primary_keys(s, s.len() as int) >= 2,
{
    lemma_primary_keys_grow(s, i + 1, j);
    lemma_primary_keys_grow(s, j + 1, s.len() as int);
}

/// Unique keys with their outcome as models.
pub open spec fn uniques_outcome(r: Result<Vec<LogicalUniqueConstraint>, PlanError>) -> Result<
    Seq<LogicalUniqueConstraintView>,
    PlanErrorView,
> {
    match r {
        Ok(x) => Ok(plan::uniques_view(x@)),
        Err(e) => Err(e@),
    }
}

/// Binds the unique keys of a table.
pub fn bind_unique_constraints(row: &Schema, keys: &Vec<UniqueKey>) -> (made: Result<
    Vec<LogicalUniqueConstraint>,
    PlanError,
>)
    ensures
        uniques_outcome(made) == bound_uniques(row@, unique_keys_view(keys@), 0, Seq::empty()),
{
    let ghost raw = unique_keys_view(keys@);
    let mut out: Vec<LogicalUniqueConstraint> = Vec::new();
    assert(plan::uniques_view(out@) =~= Seq::empty());
    let mut i: usize = 0;
    while i < keys.len()
        invariant
            i <= keys.len(),
            raw == unique_keys_view(keys@),
            bound_uniques(row@, raw, i as int, plan::uniques_view(out@)) == bound_uniques(
                row@,
                raw,
                0,
                Seq::empty(),
            ),
        decreases keys.len() - i,
    {
        assert(raw[i as int] == keys@[i as int]@);
        if keys[i].columns.len() == 0 {
            return Err(
                PlanError::NotSupported("CREATE TABLE: empty UNIQUE / PRIMARY KEY column list"),
            );
        }
        let columns = find_distinct_positions(row, &keys[i].columns)?;
        let key = LogicalUniqueConstraint {
            name: keys[i].name.clone(),
            columns,
            primary_key: keys[i].primary_key,
        };
        proof {
            plan::lemma_uniques_push(out@, key);
        }
        out.push(key);
        i = i + 1;
    }
    Ok(out)
}

/// The columns of a reference from the `i`-th on, on both sides. Columns that
/// correspond have one type.
pub open spec fn reference_columns(
    x: ReferenceView,
    i: int,
    row: SchemaView,
    target: SchemaView,
    from: Seq<usize>,
    to: Seq<usize>,
) -> Result<(Seq<usize>, Seq<usize>), PlanErrorView>
    decreases x.columns.len() - i,
{
    if i < 0 || i >= x.columns.len() {
        Ok((from, to))
    } else {
        match schema::find_field(row, x.columns[i]) {
            None => Err(PlanErrorView::ColumnNotFound(x.columns[i])),
            Some(a) => match schema::find_field(target, x.target_columns[i]) {
                None => Err(PlanErrorView::ColumnNotFound(x.target_columns[i])),
                Some(b) => if row.fields[a].data_type != target.fields[b].data_type {
                    Err(
                        PlanErrorView::TypeMismatch(
                            "FOREIGN KEY '"@ + x.name + "' type mismatch: "@ + (x.columns[i]
                                + " "@ + debug::variant_text(row.fields[a].data_type)
                                + " references "@ + x.target_columns[i] + " "@
                                + debug::variant_text(target.fields[b].data_type)),
                        ),
                    )
                } else {
                    reference_columns(
                        x,
                        i + 1,
                        row,
                        target,
                        from.push(a as usize),
                        to.push(b as usize),
                    )
                },
            },
        }
    }
}

fn find_reference_columns(x: &Reference, row: &Schema, target: &Schema) -> (made: Result<
    (Vec<usize>, Vec<usize>),
    PlanError,
>)
    requires
        x.columns.len() == x.target_columns.len(),
    ensures
        (match made {
            Ok((from, to)) => Ok((from@, to@)),
            Err(e) => Err(e@),
        }) == reference_columns(x@, 0, row@, target@, Seq::empty(), Seq::empty()),
{
    let ghost xv = x@;
    let mut from: Vec<usize> = Vec::new();
    let mut to: Vec<usize> = Vec::new();
    let mut i: usize = 0;
    while i < x.columns.len()
        invariant
            i <= x.columns.len(),
            x.columns.len() == x.target_columns.len(),
            xv == x@,
            reference_columns(xv, i as int, row@, target@, from@, to@) == reference_columns(
                xv,
                0,
                row@,
                target@,
                Seq::empty(),
                Seq::empty(),
            ),
        decreases x.columns.len() - i,
    {
        assert(xv.columns[i as int] == x.columns@[i as int]@);
        assert(xv.target_columns[i as int] == x.target_columns@[i as int]@);
        let src = x.columns[i].as_str();
        let dst = x.target_columns[i].as_str();
        let a: usize = match row.find(src) {
            Some(a) => a,
            None => return Err(PlanError::ColumnNotFound(owned(src))),
        };
        let b: usize = match target.find(dst) {
            Some(b) => b,
            None => return Err(PlanError::ColumnNotFound(owned(dst))),
        };
        let left = &row.field_at(a).data_type;
        let right = &target.field_at(b).data_type;
        if !left.same(right) {
            let pair = cat7(
                src,
                " ",
                left.debug_text().as_str(),
                " references ",
                dst,
                " ",
                right.debug_text().as_str(),
            );
            return Err(
                PlanError::TypeMismatch(
                    cat4("FOREIGN KEY '", x.name.as_str(), "' type mismatch: ", pair.as_str()),
                ),
            );
        }
        from.push(a);
        to.push(b);
        i = i + 1;
    }
    Ok((from, to))
}

/// A reference of a table, by the positions of its columns.
pub open spec fn bound_reference(row: SchemaView, x: ReferenceView, cat: CatalogView) -> Result<
    LogicalForeignKeyConstraintView,
    PlanErrorView,
> {
    if x.columns.len() != x.target_columns.len() {
        Err(
            PlanErrorView::TypeMismatch(
                "FOREIGN KEY '"@ + x.name + "' has "@ + text::decimal(x.columns.len())
                    + " referencing columns but "@ + text::decimal(x.target_columns.len())
                    + " referenced columns"@,
            ),
        )
    } else {
        match dml::target_table(x.target, cat) {
            Err(e) => Err(e),
            Ok((target_table, target)) => match reference_columns(
                x,
                0,
                row,
                target,
                Seq::empty(),
                Seq::empty(),
            ) {
                Err(e) => Err(e),
                Ok((columns, target_columns)) => Ok(
                    LogicalForeignKeyConstraintView {
                        name: x.name,
                        columns,
                        target_table,
                        target_columns,
                        on_delete: x.on_delete,
                        on_update: x.on_update,
                        deferrable: x.deferrable,
                        initially_deferred: x.initially_deferred,
                    },
                ),
            },
        }
    }
}

fn bind_reference<C: Catalog>(row: &Schema, x: &Reference, catalog: &C) -> (made: Result<
    LogicalForeignKeyConstraint,
    PlanError,
>)
    ensures
        (match made {
            Ok(k) => Ok(k@),
            Err(e) => Err(e@),
        }) == bound_reference(row@, x@, catalog.model()),
{
    if x.columns.len() != x.target_columns.len() {
        let here = show_usize(x.columns.len());
        let there = show_usize(x.target_columns.len());
        return Err(
            PlanError::TypeMismatch(
                cat7(
                    "FOREIGN KEY '",
                    x.name.as_str(),
                    "' has ",
                    here.as_str(),
                    " referencing columns but ",
                    there.as_str(),
                    " referenced columns",
                ),
            ),
        );
    }
    let (target_table, target) = lookup_target_table(catalog, x.target)?;
    let (columns, target_columns) = find_reference_columns(x, row, &target)?;
    Ok(
        LogicalForeignKeyConstraint {
            name: x.name.clone(),
            columns,
            target_table,
            target_columns,
            on_delete: x.on_delete,
            on_update: x.on_update,
            deferrable: x.deferrable,
            initially_deferred: x.initially_deferred,
        },
    )
}

/// The references of a table from the `i`-th on.
pub open spec fn bound_references(
    row: SchemaView,
    s: Seq<ReferenceView>,
    i: int,
    cat: CatalogView,
    acc: Seq<LogicalForeignKeyConstraintView>,
) -> Result<Seq<LogicalForeignKeyConstraintView>, PlanErrorView>
    decreases s.len() - i,
{
    if i < 0 || i >= s.len() {
        Ok(acc)
    } else {
        match bound_reference(row, s[i], cat) {
            Err(e) => Err(e),
            Ok(k) => bound_references(row, s, i + 1, cat, acc.push(k)),
        }
    }
}

/// References with their outcome as models.
pub open spec fn references_outcome(
    r: Result<Vec<LogicalForeignKeyConstraint>, PlanError>,
) -> Result<
    Seq<LogicalForeignKeyConstraintView>,
    PlanErrorView,
> {
    match r {
        Ok(x) => Ok(plan::foreign_keys_view(x@)),
        Err(e) => Err(e@),
    }
}

/// Binds the references of a table.
pub fn bind_foreign_key_constraints<C: Catalog>(
    row: &Schema,
    list: &Vec<Reference>,
    catalog: &C,
) -> (made:
    Result<Vec<LogicalForeignKeyConstraint>, PlanError>)
    ensures
        references_outcome(made) == bound_references(
            row@,
            references_view(list@),
            0,
            catalog.model(),
            Seq::empty(),
        ),
{
    let ghost cat = catalog.model();
    let ghost raw = references_view(list@);
    let mut out: Vec<LogicalForeignKeyConstraint> = Vec::new();
    assert(plan::foreign_keys_view(out@) =~= Seq::empty());
    let mut i: usize = 0;
    while i < list.len()
        invariant
            i <= list.len(),
            cat == catalog.model(),
            raw == references_view(list@),
            bound_references(row@, raw, i as int, cat, plan::foreign_keys_view(out@))
                == bound_references(row@, raw, 0, cat, Seq::empty()),
        decreases list.len() - i,
    {
        assert(raw[i as int] == list@[i as int]@);
        let key = bind_reference(row, &list[i], catalog)?;
        proof {
            plan::lemma_foreign_keys_push(out@, key);
        }
        out.push(key);
        i = i + 1;
    }
    Ok(out)
}

/// Whether an operator can be part of an exclusion on a column of a type.
pub open spec fn exclusion_operator(t: DataTypeView, op: BinaryOp) -> bool {
    match op {
        BinaryOp::Eq => true,
        BinaryOp::Overlap => t is Range || t is Geometry,
        BinaryOp::JsonContains => t is Range || t is Geometry,
        BinaryOp::JsonContained => t is Range || t is Geometry,
        _ => false,
    }
}

/// Whether an exclusion accepts an operator, or the complaint.
pub open spec fn exclusion_rule(name: Seq<char>, t: DataTypeView, op: BinaryOp) -> Result<
    (),
    PlanErrorView,
> {
    if exclusion_operator(t, op) {
        Ok(())
    } else {
        Err(
            PlanErrorView::TypeMismatch(
                "EXCLUDE constraint '"@ + name + "' operator "@ + render::binary_text(op)
                    + " is not supported for "@ + datatype::type_text(t),
            ),
        )
    }
}

/// Checks that an operator can be part of an exclusion.
pub fn validate_exclusion_operator(name: &str, data_type: &DataType, op: BinaryOp) -> (made: Result<
    (),
    PlanError,
>)
    ensures
        error::outcome(made) == exclusion_rule(name@, data_type@, op),
{
    let spatial = matches!(data_type, DataType::Range(_) | DataType::Geometry(_));
    let fits = match op {
        BinaryOp::Eq => true,
        BinaryOp::Overlap => spatial,
        BinaryOp::JsonContains => spatial,
        BinaryOp::JsonContained => spatial,
        _ => false,
    };
    if fits {
        return Ok(());
    }
    Err(
        PlanError::TypeMismatch(
            cat6(
                "EXCLUDE constraint '",
                name,
                "' operator ",
                display_binary(op),
                " is not supported for ",
                data_type.sql_name().as_str(),
            ),
        ),
    )
}

/// Whether the column of the `i`-th element is one of those before it.
pub open spec fn element_repeats(s: Seq<(Seq<char>, BinaryOp)>, i: int) -> bool {
    exists|j: int| 0 <= j < i && #[trigger] s[j].0 == s[i].0
}

fn element_occurs_before(s: &Vec<(String, BinaryOp)>, i: usize) -> (yes: bool)
    requires
        i < s.len(),
    ensures
        yes == element_repeats(elements_view(s@), i as int),
{
    let ghost v = elements_view(s@);
    let mut j: usize = 0;
    while j < i
        invariant
            j <= i,
            i < s.len(),
            v == elements_view(s@),
            forall|k: int| 0 <= k < j ==> #[trigger] v[k].0 != v[i as int].0,
        decreases i - j,
    {
        if text_eq(s[j].0.as_str(), s[i].0.as_str()) {
            assert(v[j as int].0 == v[i as int].0);
            return true;
        }
        j = j + 1;
    }
    false
}

/// The elements of an exclusion from the `i`-th on, by the positions of their
/// columns.
pub open spec fn bound_elements(
    row: SchemaView,
    x: ExclusionView,
    i: int,
    acc: Seq<LogicalExclusionElement>,
) -> Result<Seq<LogicalExclusionElement>, PlanErrorView>
    decreases x.elements.len() - i,
{
    if i < 0 || i >= x.elements.len() {
        Ok(acc)
    } else if element_repeats(x.elements, i) {
        Err(PlanErrorView::DuplicateColumn(x.elements[i].0))
    } else {
        match schema::find_field(row, x.elements[i].0) {
            None => Err(PlanErrorView::ColumnNotFound(x.elements[i].0)),
            Some(k) => match exclusion_rule(x.name, row.fields[k].data_type, x.elements[i].1) {
                Err(e) => Err(e),
                Ok(_) => bound_elements(
                    row,
                    x,
                    i + 1,
                    acc.push(LogicalExclusionElement { column: k as usize, op: x.elements[i].1 }),
                ),
            },
        }
    }
}

fn bind_elements(row: &Schema, x: &Exclusion) -> (made: Result<
    Vec<LogicalExclusionElement>,
    PlanError,
>)
    ensures
        error::list_outcome(made) == bound_elements(row@, x@, 0, Seq::empty()),
{
    let ghost xv = x@;
    let mut out: Vec<LogicalExclusionElement> = Vec::new();
    let mut i: usize = 0;
    while i < x.elements.len()
        invariant
            i <= x.elements.len(),
            xv == x@,
            bound_elements(row@, xv, i as int, out@) == bound_elements(row@, xv, 0, Seq::empty()),
        decreases x.elements.len() - i,
    {
        assert(xv.elements[i as int].0 == x.elements@[i as int].0@);
        let name = x.elements[i].0.as_str();
        let op = x.elements[i].1;
        if element_occurs_before(&x.elements, i) {
            return Err(PlanError::DuplicateColumn(owned(name)));
        }
        let k: usize = match row.find(name) {
            Some(k) => k,
            None => return Err(PlanError::ColumnNotFound(owned(name))),
        };
        validate_exclusion_operator(x.name.as_str(), &row.field_at(k).data_type, op)?;
        out.push(LogicalExclusionElement { column: k, op });
        i = i + 1;
    }
    Ok(out)
}

/// The exclusions of a table from the `i`-th on.
pub open spec fn bound_exclusions(
    row: SchemaView,
    s: Seq<ExclusionView>,
    i: int,
    acc: Seq<LogicalExclusionConstraintView>,
) -> Result<Seq<LogicalExclusionConstraintView>, PlanErrorView>
    decreases s.len() - i,
{
    if i < 0 || i >= s.len() {
        Ok(acc)
    } else if s[i].elements.len() == 0 {
        Err(PlanErrorView::NotSupported("CREATE TABLE: empty EXCLUDE element list"@))
    } else {
        match bound_elements(row, s[i], 0, Seq::empty()) {
            Err(e) => Err(e),
            Ok(elements) => bound_exclusions(
                row,
                s,
                i + 1,
                acc.push(
                    LogicalExclusionConstraintView {
                        name: s[i].name,
                        method: s[i].method,
                        elements,
                    },
                ),
            ),
        }
    }
}

/// Exclusions with their outcome as models.
pub open spec fn exclusions_outcome(
    r: Result<Vec<LogicalExclusionConstraint>, PlanError>,
) -> Result<
    Seq<LogicalExclusionConstraintView>,
    PlanErrorView,
> {
    match r {
        Ok(x) => Ok(plan::exclusions_view(x@)),
        Err(e) => Err(e@),
    }
}

/// Binds the exclusions of a table.
pub fn bind_exclusion_constraints(row: &Schema, list: &Vec<Exclusion>) -> (made: Result<
    Vec<LogicalExclusionConstraint>,
    PlanError,
>)
    ensures
        exclusions_outcome(made) == bound_exclusions(row@, exclusions_view(list@), 0, Seq::empty()),
{
    let ghost raw = exclusions_view(list@);
    let mut out: Vec<LogicalExclusionConstraint> = Vec::new();
    assert(plan::exclusions_view(out@) =~= Seq::empty());
    let mut i: usize = 0;
    while i < list.len()
        invariant
            i <= list.len(),
            raw == exclusions_view(list@),
            bound_exclusions(row@, raw, i as int, plan::exclusions_view(out@))
                == bound_exclusions(row@, raw, 0, Seq::empty()),
        decreases list.len() - i,
    {
        assert(raw[i as int] == list@[i as int]@);
        if list[i].elements.len() == 0 {
            return Err(PlanError::NotSupported("CREATE TABLE: empty EXCLUDE element list"));
        }
        let elements = bind_elements(row, &list[i])?;
        let x = LogicalExclusionConstraint {
            name: list[i].name.clone(),
            method: list[i].method,
            elements,
        };
        proof {
            plan::lemma_exclusions_push(out@, x);
        }
        out.push(x);
        i = i + 1;
    }
    Ok(out)
}

} // verus!
