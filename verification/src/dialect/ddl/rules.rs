//! What the rules of a new table keep of the constraints that state them.
use crate::ast::{
    BinaryOp, ColumnConstraint, Identifier, ReferentialAction, TableConstraint, TablePartitionSpec,
};
use crate::binder::sources;
use crate::catalog::CatalogView;
use crate::dialect::changes;
use crate::dialect::ddl::shared;
use crate::dialect::ddl::table;
use crate::dialect::ddl::table_rule;
use crate::dialect::ddl::table_rule::{
    ExclusionView, NamedCheckView, ReferenceView, TableRulesView, UniqueKeyView,
};
use crate::dialect::{dml, expr};
use crate::dialect::reading::ReadingsView;
use crate::plan::{
    LogicalCheckConstraintView, LogicalExclusionConstraintView, LogicalExclusionElement,
    LogicalForeignKeyConstraintView, LogicalReferentialAction, LogicalUniqueConstraintView,
};
use crate::schema::SchemaView;
use crate::{schema, text};
use vstd::prelude::*;

verus! {

/// Whether a list is another with one more element at its end.
pub open spec fn grows<T>(before: Seq<T>, after: Seq<T>) -> bool {
    &&& after.len() == before.len() + 1
    &&& forall|k: int| 0 <= k < before.len() ==> after[k] == #[trigger] before[k]
}

/// Whether names are identifiers in lower case, in order.
pub open spec fn lowered(list: Seq<Identifier>, names: Seq<Seq<char>>) -> bool {
    &&& names.len() == list.len()
    &&& forall|k: int|
        0 <= k < list.len() ==> (#[trigger] names[k]) == text::lower(list[k].value@)
}

/// Whether a constraint has its stated name, where it states one.
pub open spec fn keeps_name(stated: Option<Identifier>, name: Seq<char>) -> bool {
    stated matches Some(n) ==> name == text::lower(n.value@)
}

/// Whether what happens to referencing rows is what is stated.
pub open spec fn same_action(a: ReferentialAction, b: LogicalReferentialAction) -> bool {
    match (a, b) {
        (ReferentialAction::NoAction, LogicalReferentialAction::NoAction) => true,
        (ReferentialAction::Restrict, LogicalReferentialAction::Restrict) => true,
        (ReferentialAction::Cascade, LogicalReferentialAction::Cascade) => true,
        (ReferentialAction::SetNull, LogicalReferentialAction::SetNull) => true,
        (ReferentialAction::SetDefault, LogicalReferentialAction::SetDefault) => true,
        _ => false,
    }
}

/// A constraint of a column adds one rule to those of its table, which says of that
/// column what the constraint says, and changes no other. What is no rule of the
/// table adds none.
pub proof fn column_constraints_add_their_rule(
    r: TableRulesView,
    table: Seq<char>,
    col: Seq<char>,
    c: ColumnConstraint,
)
    ensures
        table_rule::column_rule(r, table, col, c) matches Ok(next) ==> {
            &&& next.exclusions == r.exclusions
            &&& !(c is Check) ==> next.checks == r.checks
            &&& !(c is Unique) && !(c is PrimaryKey) ==> next.uniques == r.uniques
            &&& !(c is References) ==> next.references == r.references
            &&& match c {
                ColumnConstraint::Check { name, expr } => {
                    &&& grows(r.checks, next.checks)
                    &&& next.checks.last().expr == expr
                    &&& keeps_name(name, next.checks.last().name)
                },
                ColumnConstraint::Unique { name } => {
                    &&& grows(r.uniques, next.uniques)
                    &&& next.uniques.last().columns == seq![col]
                    &&& !next.uniques.last().primary_key
                    &&& keeps_name(name, next.uniques.last().name)
                },
                ColumnConstraint::PrimaryKey { name } => {
                    &&& grows(r.uniques, next.uniques)
                    &&& next.uniques.last().columns == seq![col]
                    &&& next.uniques.last().primary_key
                    &&& keeps_name(name, next.uniques.last().name)
                },
                ColumnConstraint::References {
                    name,
                    target_table,
                    target_columns,
                    on_delete,
                    on_update,
                    deferrable,
                    initially_deferred,
                } => {
                    let x = next.references.last();
                    &&& grows(r.references, next.references)
                    &&& x.columns == seq![col]
                    &&& x.target == target_table
                    &&& lowered(target_columns@, x.target_columns)
                    &&& same_action(on_delete, x.on_delete)
                    &&& same_action(on_update, x.on_update)
                    &&& x.deferrable == deferrable
                    &&& x.initially_deferred == initially_deferred
                    &&& keeps_name(name, x.name)
                },
                _ => true,
            }
        },
{
}

/// A constraint of a table adds one rule to its rules, which says what the
/// constraint says, and changes no other.
pub proof fn table_constraints_add_their_rule(
    r: TableRulesView,
    table: Seq<char>,
    c: TableConstraint,
)
    ensures
        table_rule::table_rule(r, table, c) matches Ok(next) ==> {
            &&& !(c is Check) ==> next.checks == r.checks
            &&& !(c is Unique) && !(c is PrimaryKey) ==> next.uniques == r.uniques
            &&& !(c is ForeignKey) ==> next.references == r.references
            &&& !(c is Exclude) ==> next.exclusions == r.exclusions
            &&& match c {
                TableConstraint::Check { name, expr } => {
                    &&& grows(r.checks, next.checks)
                    &&& next.checks.last().expr == expr
                    &&& keeps_name(name, next.checks.last().name)
                },
                TableConstraint::Unique { name, columns } => {
                    &&& grows(r.uniques, next.uniques)
                    &&& lowered(columns@, next.uniques.last().columns)
                    &&& !next.uniques.last().primary_key
                    &&& keeps_name(name, next.uniques.last().name)
                },
                TableConstraint::PrimaryKey { name, columns } => {
                    &&& grows(r.uniques, next.uniques)
                    &&& lowered(columns@, next.uniques.last().columns)
                    &&& next.uniques.last().primary_key
                    &&& keeps_name(name, next.uniques.last().name)
                },
                TableConstraint::ForeignKey {
                    name,
                    columns,
                    target_table,
                    target_columns,
                    on_delete,
                    on_update,
                    deferrable,
                    initially_deferred,
                } => {
                    let x = next.references.last();
                    &&& grows(r.references, next.references)
                    &&& lowered(columns@, x.columns)
                    &&& x.target == target_table
                    &&& lowered(target_columns@, x.target_columns)
                    &&& same_action(on_delete, x.on_delete)
                    &&& same_action(on_update, x.on_update)
                    &&& x.deferrable == deferrable
                    &&& x.initially_deferred == initially_deferred
                    &&& keeps_name(name, x.name)
                },
                TableConstraint::Exclude { name, elements, .. } => {
                    let x = next.exclusions.last();
                    &&& grows(r.exclusions, next.exclusions)
                    &&& x.method is Gist
                    &&& x.elements.len() == elements@.len()
                    &&& forall|k: int|
                        0 <= k < elements@.len() ==> (#[trigger] x.elements[k]) == (
                            text::lower(elements@[k].column.value@),
                            elements@[k].op,
                        )
                    &&& keeps_name(name, x.name)
                },
            }
        },
{
}

/// Whether the rules of a table are others with more at the end of each list.
pub open spec fn extends(before: TableRulesView, after: TableRulesView) -> bool {
    &&& before.checks.is_prefix_of(after.checks)
    &&& before.uniques.is_prefix_of(after.uniques)
    &&& before.references.is_prefix_of(after.references)
    &&& before.exclusions.is_prefix_of(after.exclusions)
}

/// The number of rules of a table.
pub open spec fn rule_count(r: TableRulesView) -> nat {
    r.checks.len() + r.uniques.len() + r.references.len() + r.exclusions.len()
}

/// Whether a constraint of a column is a rule of its table.
pub open spec fn rules_table(c: ColumnConstraint) -> bool {
    c is Check || c is Unique || c is PrimaryKey || c is References
}

/// The number of constraints of a column, from the `i`-th on, that are rules of
/// its table.
pub open spec fn ruling(constraints: Seq<ColumnConstraint>, i: int) -> int
    decreases constraints.len() - i,
{
    if i < 0 || i >= constraints.len() {
        0
    } else {
        ruling(constraints, i + 1) + if rules_table(constraints[i]) {
            1int
        } else {
            0int
        }
    }
}

/// Whether the check, the key or the reference that a constraint of a column states
/// is among the rules of its table.
pub open spec fn column_rule_stands(
    r: TableRulesView,
    col: Seq<char>,
    c: ColumnConstraint,
) -> bool {
    match c {
        ColumnConstraint::Check { expr, .. } => exists|k: int|
            0 <= k < r.checks.len() && (#[trigger] r.checks[k]).expr == expr,
        ColumnConstraint::Unique { .. } => exists|k: int|
            0 <= k < r.uniques.len() && (#[trigger] r.uniques[k]).columns == seq![col]
                && !r.uniques[k].primary_key,
        ColumnConstraint::PrimaryKey { .. } => exists|k: int|
            0 <= k < r.uniques.len() && (#[trigger] r.uniques[k]).columns == seq![col]
                && r.uniques[k].primary_key,
        ColumnConstraint::References { target_table, target_columns, .. } => exists|k: int|
            0 <= k < r.references.len() && (#[trigger] r.references[k]).columns == seq![col]
                && r.references[k].target == target_table && lowered(
                target_columns@,
                r.references[k].target_columns,
            ),
        _ => true,
    }
}

proof fn standing_rules_stay(
    r: TableRulesView,
    next: TableRulesView,
    col: Seq<char>,
    c: ColumnConstraint,
)
    requires
        column_rule_stands(r, col, c),
        extends(r, next),
    ensures
        column_rule_stands(next, col, c),
{
    match c {
        ColumnConstraint::Check { expr, .. } => {
            let k = choose|k: int| 0 <= k < r.checks.len() && (#[trigger] r.checks[k]).expr == expr;
            assert(next.checks[k] == r.checks[k]);
        },
        ColumnConstraint::Unique { .. } => {
            let k = choose|k: int|
                0 <= k < r.uniques.len() && (#[trigger] r.uniques[k]).columns == seq![col]
                    && !r.uniques[k].primary_key;
            assert(next.uniques[k] == r.uniques[k]);
        },
        ColumnConstraint::PrimaryKey { .. } => {
            let k = choose|k: int|
                0 <= k < r.uniques.len() && (#[trigger] r.uniques[k]).columns == seq![col]
                    && r.uniques[k].primary_key;
            assert(next.uniques[k] == r.uniques[k]);
        },
        ColumnConstraint::References { target_table, target_columns, .. } => {
            let k = choose|k: int|
                0 <= k < r.references.len() && (#[trigger] r.references[k]).columns == seq![col]
                    && r.references[k].target == target_table && lowered(
                    target_columns@,
                    r.references[k].target_columns,
                );
            assert(next.references[k] == r.references[k]);
        },
        _ => {},
    }
}

proof fn one_column_rule_stands(
    r: TableRulesView,
    table: Seq<char>,
    col: Seq<char>,
    c: ColumnConstraint,
)
    ensures
        table_rule::column_rule(r, table, col, c) matches Ok(next) ==> {
            &&& extends(r, next)
            &&& column_rule_stands(next, col, c)
            &&& rule_count(next) == rule_count(r) + if rules_table(c) {
                1int
            } else {
                0int
            }
        },
{
    if let Ok(next) = table_rule::column_rule(r, table, col, c) {
        column_constraints_add_their_rule(r, table, col, c);
        match c {
            ColumnConstraint::Check { expr, .. } => {
                assert(next.checks[r.checks.len() as int].expr == expr);
            },
            ColumnConstraint::Unique { .. } => {
                assert(next.uniques[r.uniques.len() as int].columns == seq![col]);
            },
            ColumnConstraint::PrimaryKey { .. } => {
                assert(next.uniques[r.uniques.len() as int].columns == seq![col]);
            },
            ColumnConstraint::References { .. } => {
                assert(next.references[r.references.len() as int].columns == seq![col]);
            },
            _ => {},
        }
    }
}

/// Every constraint of a column that is a rule of its table is one afterwards, none
/// is added twice, and the rules that were there stay in their places.
pub proof fn column_constraints_are_all_kept(
    r: TableRulesView,
    table: Seq<char>,
    col: Seq<char>,
    constraints: Seq<ColumnConstraint>,
    i: int,
)
    requires
        0 <= i <= constraints.len(),
    ensures
        table_rule::column_rules(r, table, col, constraints, i) matches Ok(out) ==> {
            &&& extends(r, out)
            &&& rule_count(out) == rule_count(r) + ruling(constraints, i)
            &&& forall|k: int|
                i <= k < constraints.len() ==> column_rule_stands(
                    out,
                    col,
                    #[trigger] constraints[k],
                )
        },
    decreases constraints.len() - i,
{
    if i < constraints.len() {
        one_column_rule_stands(r, table, col, constraints[i]);
        if let Ok(next) = table_rule::column_rule(r, table, col, constraints[i]) {
            column_constraints_are_all_kept(next, table, col, constraints, i + 1);
            if let Ok(out) = table_rule::column_rules(next, table, col, constraints, i + 1) {
                standing_rules_stay(next, out, col, constraints[i]);
            }
        }
    }
}

/// Every constraint of a table adds one rule, and the rules that were there stay in
/// their places.
pub proof fn table_constraints_are_all_kept(
    r: TableRulesView,
    table: Seq<char>,
    constraints: Seq<TableConstraint>,
    i: int,
)
    requires
        0 <= i <= constraints.len(),
    ensures
        table_rule::table_rules(r, table, constraints, i) matches Ok(out) ==> {
            &&& extends(r, out)
            &&& rule_count(out) == rule_count(r) + constraints.len() - i
        },
    decreases constraints.len() - i,
{
    if i < constraints.len() {
        table_constraints_add_their_rule(r, table, constraints[i]);
        if let Ok(next) = table_rule::table_rule(r, table, constraints[i]) {
            assert(extends(r, next));
            table_constraints_are_all_kept(next, table, constraints, i + 1);
        }
    }
}

/// Whether a check of a table is the stated condition, bound against the table's
/// row, under its name.
pub open spec fn checks_condition(
    stated: NamedCheckView,
    made: LogicalCheckConstraintView,
    row: SchemaView,
    cat: CatalogView,
    r: ReadingsView,
) -> bool {
    &&& made.name == stated.name
    &&& changes::tests(stated.expr, made.expr, row, cat, Seq::empty(), r)
}

/// The checks of a table are those stated, in order.
pub proof fn checks_are_those_stated(
    checks: Seq<NamedCheckView>,
    i: int,
    row: SchemaView,
    cat: CatalogView,
    r: ReadingsView,
    acc: Seq<LogicalCheckConstraintView>,
)
    requires
        0 <= i <= checks.len(),
        acc.len() == i,
        forall|k: int|
            0 <= k < i ==> checks_condition(checks[k], #[trigger] acc[k], row, cat, r),
    ensures
        table_rule::bound_checks(checks, i, row, cat, r, acc) matches Ok(out) ==> {
            &&& out.len() == checks.len()
            &&& forall|k: int|
                0 <= k < checks.len() ==> checks_condition(
                    checks[k],
                    #[trigger] out[k],
                    row,
                    cat,
                    r,
                )
        },
    decreases checks.len() - i,
{
    if i < checks.len() {
        let subject = "CHECK constraint '"@ + checks[i].name + "'"@;
        if let Ok(e) = shared::bound_condition(checks[i].expr, row, cat, r, subject) {
            assert(changes::tests(checks[i].expr, e, row, cat, Seq::empty(), r)) by {
                reveal(changes::tests);
            }
            let made = LogicalCheckConstraintView { name: checks[i].name, expr: e };
            let next = acc.push(made);
            assert forall|k: int| 0 <= k < i + 1 implies checks_condition(
                checks[k],
                #[trigger] next[k],
                row,
                cat,
                r,
            ) by {
                if k < i {
                    assert(next[k] == acc[k]);
                }
            }
            checks_are_those_stated(checks, i + 1, row, cat, r, next);
        }
    }
}

/// Whether places are those of names in a row, where the first column of a name
/// counts.
pub open spec fn placed(row: SchemaView, names: Seq<Seq<char>>, places: Seq<usize>) -> bool {
    &&& places.len() == names.len()
    &&& forall|k: int|
        0 <= k < places.len() ==> sources::first_named(row, (#[trigger] places[k]) as int, names[k])
}

proof fn found_places_are_placed(
    row: SchemaView,
    names: Seq<Seq<char>>,
    i: int,
    acc: Seq<usize>,
)
    requires
        0 <= i <= names.len(),
        acc.len() == i,
        row.fields.len() <= usize::MAX,
        forall|k: int|
            0 <= k < i ==> sources::first_named(row, (#[trigger] acc[k]) as int, names[k]),
    ensures
        table_rule::distinct_positions(row, names, i, acc) matches Ok(out) ==> placed(
            row,
            names,
            out,
        ),
    decreases names.len() - i,
{
    if i < names.len() {
        schema::find_gives_first(row.fields, names[i], 0);
        if let Some(k) = schema::find_field(row, names[i]) {
            let next = acc.push(k as usize);
            assert(sources::first_named(row, k, names[i]));
            assert forall|j: int| 0 <= j < i + 1 implies sources::first_named(
                row,
                (#[trigger] next[j]) as int,
                names[j],
            ) by {
                if j < i {
                    assert(next[j] == acc[j]);
                }
            }
            found_places_are_placed(row, names, i + 1, next);
        }
    }
}

/// Whether a key of a table is the stated one, under its name.
pub open spec fn is_key(
    row: SchemaView,
    stated: UniqueKeyView,
    made: LogicalUniqueConstraintView,
) -> bool {
    &&& made.name == stated.name
    &&& made.primary_key == stated.primary_key
    &&& placed(row, stated.columns, made.columns)
}

/// The keys of a table are those stated, in order.
pub proof fn keys_are_those_stated(
    row: SchemaView,
    keys: Seq<UniqueKeyView>,
    i: int,
    acc: Seq<LogicalUniqueConstraintView>,
)
    requires
        0 <= i <= keys.len(),
        acc.len() == i,
        row.fields.len() <= usize::MAX,
        forall|k: int| 0 <= k < i ==> is_key(row, keys[k], #[trigger] acc[k]),
    ensures
        table_rule::bound_uniques(row, keys, i, acc) matches Ok(out) ==> {
            &&& out.len() == keys.len()
            &&& forall|k: int| 0 <= k < keys.len() ==> is_key(row, keys[k], #[trigger] out[k])
        },
    decreases keys.len() - i,
{
    if i < keys.len() {
        found_places_are_placed(row, keys[i].columns, 0, Seq::empty());
        if let Ok(columns) = table_rule::distinct_positions(
            row,
            keys[i].columns,
            0,
            Seq::empty(),
        ) {
            let made = LogicalUniqueConstraintView {
                name: keys[i].name,
                columns,
                primary_key: keys[i].primary_key,
            };
            let next = acc.push(made);
            assert forall|k: int| 0 <= k < i + 1 implies is_key(
                row,
                keys[k],
                #[trigger] next[k],
            ) by {
                if k < i {
                    assert(next[k] == acc[k]);
                }
            }
            keys_are_those_stated(row, keys, i + 1, next);
        }
    }
}

proof fn reference_columns_are_placed(
    x: ReferenceView,
    i: int,
    row: SchemaView,
    target: SchemaView,
    from: Seq<usize>,
    to: Seq<usize>,
)
    requires
        0 <= i <= x.columns.len(),
        x.columns.len() == x.target_columns.len(),
        from.len() == i,
        to.len() == i,
        row.fields.len() <= usize::MAX,
        target.fields.len() <= usize::MAX,
        forall|k: int|
            0 <= k < i ==> sources::first_named(row, (#[trigger] from[k]) as int, x.columns[k]),
        forall|k: int|
            0 <= k < i ==> sources::first_named(
                target,
                (#[trigger] to[k]) as int,
                x.target_columns[k],
            ),
    ensures
        table_rule::reference_columns(x, i, row, target, from, to) matches Ok((a, b)) ==> {
            &&& placed(row, x.columns, a)
            &&& placed(target, x.target_columns, b)
        },
    decreases x.columns.len() - i,
{
    if i < x.columns.len() {
        schema::find_gives_first(row.fields, x.columns[i], 0);
        schema::find_gives_first(target.fields, x.target_columns[i], 0);
        if let Some(a) = schema::find_field(row, x.columns[i]) {
            if let Some(b) = schema::find_field(target, x.target_columns[i]) {
                let f = from.push(a as usize);
                let t = to.push(b as usize);
                assert(sources::first_named(row, a, x.columns[i]));
                assert(sources::first_named(target, b, x.target_columns[i]));
                assert forall|k: int| 0 <= k < i + 1 implies sources::first_named(
                    row,
                    (#[trigger] f[k]) as int,
                    x.columns[k],
                ) by {
                    if k < i {
                        assert(f[k] == from[k]);
                    }
                }
                assert forall|k: int| 0 <= k < i + 1 implies sources::first_named(
                    target,
                    (#[trigger] t[k]) as int,
                    x.target_columns[k],
                ) by {
                    if k < i {
                        assert(t[k] == to[k]);
                    }
                }
                reference_columns_are_placed(x, i + 1, row, target, f, t);
            }
        }
    }
}

/// Whether a foreign key is a reference's: from its columns to those of the table
/// that it names, with its actions and its time of checking.
pub open spec fn is_reference(
    row: SchemaView,
    x: ReferenceView,
    cat: CatalogView,
    made: LogicalForeignKeyConstraintView,
) -> bool {
    &&& made.name == x.name
    &&& dml::target_table(x.target, cat) matches Ok((table, target))
    &&& changes::refers_to(x.target, made.target_table, target, cat)
    &&& placed(row, x.columns, made.columns)
    &&& placed(target, x.target_columns, made.target_columns)
    &&& made.on_delete == x.on_delete
    &&& made.on_update == x.on_update
    &&& made.deferrable == x.deferrable
    &&& made.initially_deferred == x.initially_deferred
}

/// A foreign key is what its reference states.
pub proof fn foreign_keys_are_those_stated(row: SchemaView, x: ReferenceView, cat: CatalogView)
    requires
        row.fields.len() <= usize::MAX,
        dml::target_table(x.target, cat) matches Ok((_, target)) ==> target.fields.len()
            <= usize::MAX,
    ensures
        table_rule::bound_reference(row, x, cat) matches Ok(made) ==> is_reference(
            row,
            x,
            cat,
            made,
        ),
{
    if x.columns.len() == x.target_columns.len() {
        if let Ok((_, target)) = dml::target_table(x.target, cat) {
            changes::targets_are_the_named_tables(x.target, cat);
            reference_columns_are_placed(x, 0, row, target, Seq::empty(), Seq::empty());
        }
    }
}

/// The foreign keys of a table are those of its references, in order.
pub proof fn foreign_keys_keep_their_order(
    row: SchemaView,
    s: Seq<ReferenceView>,
    i: int,
    cat: CatalogView,
    acc: Seq<LogicalForeignKeyConstraintView>,
)
    requires
        0 <= i <= s.len(),
        acc.len() == i,
        row.fields.len() <= usize::MAX,
        forall|k: int|
            0 <= k < s.len() ==> (dml::target_table((#[trigger] s[k]).target, cat) matches Ok(
                (_, target),
            ) ==> target.fields.len() <= usize::MAX),
        forall|k: int| 0 <= k < i ==> is_reference(row, s[k], cat, #[trigger] acc[k]),
    ensures
        table_rule::bound_references(row, s, i, cat, acc) matches Ok(out) ==> {
            &&& out.len() == s.len()
            &&& forall|k: int|
                0 <= k < s.len() ==> is_reference(row, s[k], cat, #[trigger] out[k])
        },
    decreases s.len() - i,
{
    if i < s.len() {
        foreign_keys_are_those_stated(row, s[i], cat);
        if let Ok(made) = table_rule::bound_reference(row, s[i], cat) {
            let next = acc.push(made);
            assert forall|k: int| 0 <= k < i + 1 implies is_reference(
                row,
                s[k],
                cat,
                #[trigger] next[k],
            ) by {
                if k < i {
                    assert(next[k] == acc[k]);
                }
            }
            foreign_keys_keep_their_order(row, s, i + 1, cat, next);
        }
    }
}

/// Whether an element of an exclusion compares the column of its name with its
/// operator.
pub open spec fn excludes(
    row: SchemaView,
    stated: (Seq<char>, BinaryOp),
    made: LogicalExclusionElement,
) -> bool {
    &&& sources::first_named(row, made.column as int, stated.0)
    &&& made.op == stated.1
}

proof fn elements_are_those_stated(
    row: SchemaView,
    x: ExclusionView,
    i: int,
    acc: Seq<LogicalExclusionElement>,
)
    requires
        0 <= i <= x.elements.len(),
        acc.len() == i,
        row.fields.len() <= usize::MAX,
        forall|k: int| 0 <= k < i ==> excludes(row, x.elements[k], #[trigger] acc[k]),
    ensures
        table_rule::bound_elements(row, x, i, acc) matches Ok(out) ==> {
            &&& out.len() == x.elements.len()
            &&& forall|k: int|
                0 <= k < out.len() ==> excludes(row, x.elements[k], #[trigger] out[k])
        },
    decreases x.elements.len() - i,
{
    if i < x.elements.len() {
        schema::find_gives_first(row.fields, x.elements[i].0, 0);
        if let Some(c) = schema::find_field(row, x.elements[i].0) {
            let made = LogicalExclusionElement { column: c as usize, op: x.elements[i].1 };
            let next = acc.push(made);
            assert(sources::first_named(row, c, x.elements[i].0));
            assert forall|k: int| 0 <= k < i + 1 implies excludes(
                row,
                x.elements[k],
                #[trigger] next[k],
            ) by {
                if k < i {
                    assert(next[k] == acc[k]);
                }
            }
            elements_are_those_stated(row, x, i + 1, next);
        }
    }
}

/// Whether an exclusion of a table is the stated one.
pub open spec fn is_exclusion(
    row: SchemaView,
    x: ExclusionView,
    made: LogicalExclusionConstraintView,
) -> bool {
    &&& made.name == x.name
    &&& made.method == x.method
    &&& made.elements.len() == x.elements.len()
    &&& forall|k: int|
        0 <= k < made.elements.len() ==> excludes(row, x.elements[k], #[trigger] made.elements[k])
}

/// The exclusions of a table are those stated, in order.
pub proof fn exclusions_are_those_stated(
    row: SchemaView,
    s: Seq<ExclusionView>,
    i: int,
    acc: Seq<LogicalExclusionConstraintView>,
)
    requires
        0 <= i <= s.len(),
        acc.len() == i,
        row.fields.len() <= usize::MAX,
        forall|k: int| 0 <= k < i ==> is_exclusion(row, s[k], #[trigger] acc[k]),
    ensures
        table_rule::bound_exclusions(row, s, i, acc) matches Ok(out) ==> {
            &&& out.len() == s.len()
            &&& forall|k: int| 0 <= k < s.len() ==> is_exclusion(row, s[k], #[trigger] out[k])
        },
    decreases s.len() - i,
{
    if i < s.len() {
        elements_are_those_stated(row, s[i], 0, Seq::empty());
        if let Ok(elements) = table_rule::bound_elements(row, s[i], 0, Seq::empty()) {
            let made = LogicalExclusionConstraintView {
                name: s[i].name,
                method: s[i].method,
                elements,
            };
            let next = acc.push(made);
            assert forall|k: int| 0 <= k < i + 1 implies is_exclusion(
                row,
                s[k],
                #[trigger] next[k],
            ) by {
                if k < i {
                    assert(next[k] == acc[k]);
                }
            }
            exclusions_are_those_stated(row, s, i + 1, next);
        }
    }
}

/// A table is partitioned exactly where it says so, by the time column that it
/// names.
pub proof fn partitions_are_those_stated(row: SchemaView, by: Option<TablePartitionSpec>)
    requires
        row.fields.len() <= usize::MAX,
    ensures
        table::time_partition(row, by) matches Ok(made) ==> {
            &&& by is Some <==> made is Some
            &&& by matches Some(p) ==> {
                &&& made matches Some(m)
                &&& sources::first_named(row, m.column_index as int, p.column.value@)
                &&& m.column == row.fields[m.column_index as int].name
                &&& {
                    let t = row.fields[m.column_index as int].data_type;
                    t is Timestamp || t is TimestampTz
                }
            }
        },
{
    if let Some(p) = by {
        schema::find_gives_first(row.fields, p.column.value@, 0);
        if let Some(i) = schema::find_field(row, p.column.value@) {
            assert(sources::first_named(row, i, p.column.value@));
        }
    }
}

} // verus!
