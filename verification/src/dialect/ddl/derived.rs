//! What plans keep of the statements that create indexes, policies and views.
use crate::ast::{
    AlterViewAction, AlterViewStmt, BinaryOp, CreateIndexStmt, CreateMaterializedViewStmt,
    CreatePolicyStmt, CreateViewStmt, Expr, Identifier, IndexKey, Literal, PolicyCommand,
    PolicyPermissiveness, StorageOption,
};
use crate::binder::{bound, names, sources};
use crate::catalog::CatalogView;
use crate::dialect::ddl::index::{GroupKeysView, IndexKeysView};
use crate::dialect::ddl::{altered, index, objects, rules, shared, view};
use crate::dialect::reading::ReadingsView;
use crate::dialect::{changes, dml, expr};
use crate::error::PlanErrorView;
use crate::plan::{
    LogicalAlterViewActionView, LogicalIndexMethod, LogicalIndexOptionView, LogicalPlanView,
    LogicalRlsCommand, LogicalRlsPermissiveness, LogicalTenantPolicyExprView,
};
use crate::query::{AggregateFunc, QueryPlanView, ScalarExprView};
use crate::schema::SchemaView;
use crate::{query, schema, text};
use vstd::prelude::*;

verus! {

/// The name of an access method.
pub open spec fn method_name(m: LogicalIndexMethod) -> Seq<char> {
    match m {
        LogicalIndexMethod::Btree => "btree"@,
        LogicalIndexMethod::Hash => "hash"@,
        LogicalIndexMethod::Gin => "gin"@,
        LogicalIndexMethod::Gist => "gist"@,
        LogicalIndexMethod::Brin => "brin"@,
        LogicalIndexMethod::Hnsw => "hnsw"@,
        LogicalIndexMethod::IvfFlat => "ivfflat"@,
        LogicalIndexMethod::Aggregating => Seq::empty(),
    }
}

/// An access method is the one of its name, in any case.
pub proof fn access_methods_have_their_names(name: Seq<char>)
    ensures
        shared::index_method(name) matches Ok(m) ==> {
            &&& !(m is Aggregating)
            &&& text::lower(name) == method_name(m)
        },
        forall|m: LogicalIndexMethod|
            !(m is Aggregating) && text::lower(name) == #[trigger] method_name(m)
                ==> shared::index_method(name) is Ok,
{
}

/// Whether an index is kept by its stated access method: one that aggregates where
/// it says so, or else the one it names, or else a tree.
pub open spec fn uses_method(s: CreateIndexStmt, m: LogicalIndexMethod) -> bool {
    &&& s.aggregating <==> m is Aggregating
    &&& !s.aggregating && s.method is None ==> m is Btree
    &&& !s.aggregating ==> (s.method matches Some(name) ==> text::lower(name.value@) == method_name(
        m,
    ))
}

proof fn methods_are_those_stated(s: CreateIndexStmt)
    ensures
        index::access_method(s.aggregating, s.method) matches Ok(m) ==> uses_method(s, m),
{
    if let Some(name) = s.method {
        access_methods_have_their_names(name.value@);
    }
}

/// Whether an expression is what another one is bound to against a row.
#[verifier::opaque]
pub open spec fn binds(
    e: Expr,
    x: ScalarExprView,
    row: SchemaView,
    cat: CatalogView,
    r: ReadingsView,
) -> bool {
    expr::bound_value(e, row, cat, Seq::empty(), Seq::empty(), r) == Ok::<
        ScalarExprView,
        PlanErrorView,
    >(x)
}

/// Whether the keys of an index are the first `n` of those stated, in order, each
/// with its operator class; its columns are those that are keys.
pub open spec fn keys_of(
    keys: Seq<IndexKey>,
    n: int,
    row: SchemaView,
    cat: CatalogView,
    r: ReadingsView,
    k: IndexKeysView,
) -> bool {
    &&& k.exprs.len() == n && k.opclasses.len() == n && k.names.len() == n
    &&& forall|j: int| 0 <= j < n ==> binds(keys[j].expr, #[trigger] k.exprs[j], row, cat, r)
    &&& forall|j: int|
        0 <= j < n ==> {
            &&& keys[j].opclass is None ==> (#[trigger] k.opclasses[j]) is None
            &&& keys[j].opclass matches Some(c) ==> k.opclasses[j] == Some(text::lower(c.value@))
        }
    &&& k.computed <==> exists|j: int| 0 <= j < n && !(#[trigger] k.exprs[j] is Column)
    &&& !k.computed ==> k.columns.len() == n && forall|j: int|
        0 <= j < n ==> (#[trigger] k.columns[j]) == k.exprs[j]->Column_index
}

proof fn keys_are_those_stated(
    keys: Seq<IndexKey>,
    i: int,
    row: SchemaView,
    cat: CatalogView,
    r: ReadingsView,
    acc: IndexKeysView,
)
    requires
        0 <= i <= keys.len(),
        keys_of(keys, i, row, cat, r, acc),
    ensures
        index::keys_from(keys, i, row, cat, r, acc) matches Ok(k) ==> keys_of(
            keys,
            keys.len() as int,
            row,
            cat,
            r,
            k,
        ),
    decreases keys.len() - i,
{
    if i < keys.len() {
        if let Ok(x) = expr::bound_value(
            keys[i].expr,
            row,
            cat,
            Seq::empty(),
            Seq::empty(),
            r,
        ) {
            let next = index::with_index_key(acc, x, index::lower_option(keys[i].opclass));
            assert(binds(keys[i].expr, x, row, cat, r)) by {
                reveal(binds);
            }
            assert(next.exprs == acc.exprs.push(x));
            assert forall|j: int| 0 <= j < i + 1 implies binds(
                keys[j].expr,
                #[trigger] next.exprs[j],
                row,
                cat,
                r,
            ) by {
                if j < i {
                    assert(next.exprs[j] == acc.exprs[j]);
                }
            }
            if x is Column {
                if acc.computed {
                    let j = choose|j: int| 0 <= j < i && !(#[trigger] acc.exprs[j] is Column);
                    assert(next.exprs[j] == acc.exprs[j]);
                } else {
                    assert forall|j: int| 0 <= j < i + 1 implies #[trigger] next.exprs[j]
                        is Column by {
                        if j < i {
                            assert(next.exprs[j] == acc.exprs[j]);
                            assert(acc.exprs[j] is Column);
                        }
                    }
                }
            } else {
                assert(!(next.exprs[i] is Column));
            }
            assert forall|j: int| 0 <= j < i + 1 implies {
                &&& keys[j].opclass is None ==> (#[trigger] next.opclasses[j]) is None
                &&& keys[j].opclass matches Some(c) ==> next.opclasses[j] == Some(
                    text::lower(c.value@),
                )
            } by {
                if j < i {
                    assert(next.opclasses[j] == acc.opclasses[j]);
                }
            }
            if !next.computed {
                assert forall|j: int| 0 <= j < i + 1 implies (#[trigger] next.columns[j])
                    == next.exprs[j]->Column_index by {
                    if j < i {
                        assert(next.columns[j] == acc.columns[j]);
                    }
                }
            }
            assert(keys_of(keys, i + 1, row, cat, r, next));
            keys_are_those_stated(keys, i + 1, row, cat, r, next);
        }
    }
}

/// Whether options of an index are those stated, in order, under their names in
/// lower case.
pub open spec fn sets_options(
    stated: Seq<StorageOption>,
    n: int,
    options: Seq<LogicalIndexOptionView>,
) -> bool {
    &&& options.len() == n
    &&& forall|k: int|
        0 <= k < n ==> {
            &&& (#[trigger] options[k]).name == text::lower(stated[k].name.value@)
            &&& altered::option_value(stated[k].value, options[k].value)
        }
}

proof fn options_are_those_stated(
    stated: Seq<StorageOption>,
    i: int,
    acc: Seq<LogicalIndexOptionView>,
)
    requires
        0 <= i <= stated.len(),
        sets_options(stated, i, acc),
    ensures
        index::options_from(stated, i, acc) matches Ok(out) ==> sets_options(
            stated,
            stated.len() as int,
            out,
        ),
    decreases stated.len() - i,
{
    if i < stated.len() {
        if let Ok(value) = shared::option_text(stated[i].value) {
            let made = LogicalIndexOptionView { name: text::lower(stated[i].name.value@), value };
            let next = acc.push(made);
            altered::option_values_are_those_stated(stated[i].value);
            assert forall|k: int| 0 <= k < i + 1 implies {
                &&& (#[trigger] next[k]).name == text::lower(stated[k].name.value@)
                &&& altered::option_value(stated[k].value, next[k].value)
            } by {
                if k < i {
                    assert(next[k] == acc[k]);
                }
            }
            options_are_those_stated(stated, i + 1, next);
        }
    }
}

/// Whether places are those of the first `n` of listed columns.
pub open spec fn placed(
    list: Seq<Identifier>,
    n: int,
    row: SchemaView,
    places: Seq<usize>,
) -> bool {
    &&& places.len() == n
    &&& forall|k: int| 0 <= k < n ==> altered::column_at(row, list[k], #[trigger] places[k])
}

/// Listed columns have their places, in order.
pub proof fn listed_columns_are_placed(
    list: Seq<Identifier>,
    i: int,
    row: SchemaView,
    acc: Seq<usize>,
)
    requires
        0 <= i <= list.len(),
        row.fields.len() <= usize::MAX,
        placed(list, i, row, acc),
    ensures
        shared::positions_from(list, i, row, acc) matches Ok(out) ==> placed(
            list,
            list.len() as int,
            row,
            out,
        ),
    decreases list.len() - i,
{
    if i < list.len() {
        schema::find_gives_first(row.fields, list[i].value@, 0);
        if let Some(c) = schema::find_field(row, list[i].value@) {
            let next = acc.push(c as usize);
            assert(sources::first_named(row, c, list[i].value@));
            assert forall|k: int| 0 <= k < i + 1 implies altered::column_at(
                row,
                list[k],
                #[trigger] next[k],
            ) by {
                if k < i {
                    assert(next[k] == acc[k]);
                }
            }
            listed_columns_are_placed(list, i + 1, row, next);
        }
    }
}

/// A `CREATE INDEX` makes an index of the table that it names, by its access method,
/// with its keys in order, its covering columns, its options and its condition. It
/// is unique exactly where it says so.
pub proof fn created_indexes_are_those_stated(
    s: CreateIndexStmt,
    cat: CatalogView,
    r: ReadingsView,
)
    requires
        !s.aggregating,
        dml::named_table(s.table, cat) matches Ok((_, meta)) ==> meta.schema.fields.len()
            <= usize::MAX,
    ensures
        index::created_index(s, cat, r) matches Ok(p) ==> {
            let n = s.columns@.len();
            &&& dml::named_table(s.table, cat) matches Ok((_, meta))
            &&& changes::refers_to(s.table, p.table_name, meta.schema, cat)
            &&& p.index_namespace == meta.schema_name
            &&& rules::keeps_name(s.name, p.index_name)
            &&& uses_method(s, p.method) && p.aggregating is None
            &&& n > 0 && p.key_exprs.len() == n && p.opclasses.len() == n
            &&& forall|j: int|
                0 <= j < n ==> binds(
                    s.columns@[j].expr,
                    #[trigger] p.key_exprs[j],
                    meta.schema,
                    cat,
                    r,
                )
            &&& forall|j: int|
                0 <= j < n ==> {
                    &&& s.columns@[j].opclass is None ==> (#[trigger] p.opclasses[j]) is None
                    &&& s.columns@[j].opclass matches Some(c) ==> p.opclasses[j] == Some(
                        text::lower(c.value@),
                    )
                }
            &&& (forall|j: int| 0 <= j < n ==> #[trigger] p.key_exprs[j] is Column) ==> {
                &&& p.columns.len() == n
                &&& forall|j: int|
                    0 <= j < n ==> (#[trigger] p.columns[j]) == p.key_exprs[j]->Column_index
            }
            &&& placed(
                s.covering@,
                s.covering@.len() as int,
                meta.schema,
                p.covering_columns,
            )
            &&& sets_options(s.options@, s.options@.len() as int, p.index_options)
            &&& s.where_clause is None <==> p.predicate is None
            &&& s.where_clause matches Some(e) ==> (p.predicate matches Some(x) && binds(
                e,
                x,
                meta.schema,
                cat,
                r,
            ) && query::scalar_type(x) is Bool)
            &&& p.unique == s.unique && !p.primary_key
            &&& p.concurrently == s.concurrently
            &&& p.if_not_exists == s.if_not_exists
        },
{
    methods_are_those_stated(s);
    if let Ok((_, meta)) = dml::named_table(s.table, cat) {
        let row = meta.schema;
        keys_are_those_stated(s.columns@, 0, row, cat, r, index::no_keys());
        options_are_those_stated(s.options@, 0, Seq::empty());
        listed_columns_are_placed(s.covering@, 0, row, Seq::empty());
        assert(s.where_clause matches Some(e) ==> forall|x: ScalarExprView|
            expr::bound_value(e, row, cat, Seq::empty(), Seq::empty(), r) == Ok::<
                ScalarExprView,
                PlanErrorView,
            >(x) ==> #[trigger] binds(e, x, row, cat, r)) by {
            reveal(binds);
        }
    }
}

/// What an aggregating index keeps is the call that it states: the number of all
/// rows, or the sum of a column.
pub proof fn kept_aggregates_are_those_stated(e: Expr, row: SchemaView, r: ReadingsView)
    ensures
        index::kept_aggregate(e, row, r) matches Ok(a) ==> {
            &&& e matches Expr::Call { name, args, distinct, over, .. }
            &&& !distinct && over is None
            &&& a.func == AggregateFunc::CountStar || a.func == AggregateFunc::Sum
            &&& a.func == AggregateFunc::CountStar ==> {
                &&& text::lower(names::last_part(name)) == "count"@
                &&& a.arg_column is None && a.data_type is Int64
            }
            &&& a.func == AggregateFunc::Sum ==> {
                &&& text::lower(names::last_part(name)) == "sum"@ && args@.len() == 1
                &&& expr::bound_value(
                    args@[0],
                    row,
                    index::no_names(),
                    Seq::empty(),
                    Seq::empty(),
                    r,
                ) matches Ok(ScalarExprView::Column { index, data_type, .. })
                &&& a.arg_column == Some(index)
                &&& a.data_type is Float64 <==> data_type is Float32 || data_type is Float64
                &&& a.data_type is Int64 <==> !(data_type is Float32 || data_type is Float64)
            }
        },
{
}

/// A key of an aggregating index adds one group or one aggregate, and changes no
/// other.
pub proof fn group_keys_are_those_stated(
    g: GroupKeysView,
    k: IndexKey,
    row: SchemaView,
    r: ReadingsView,
)
    ensures
        index::with_group_key(g, k, row, r) matches Ok(next) ==> {
            &&& k.opclass is None
            &&& k.expr is Call ==> {
                &&& next.columns == g.columns && next.exprs == g.exprs
                &&& rules::grows(g.aggregates, next.aggregates)
                &&& index::kept_aggregate(k.expr, row, r) == Ok::<_, PlanErrorView>(
                    next.aggregates.last(),
                )
            }
            &&& !(k.expr is Call) ==> {
                &&& next.aggregates == g.aggregates && g.aggregates.len() == 0
                &&& rules::grows(g.columns, next.columns) && rules::grows(g.exprs, next.exprs)
                &&& expr::bound_value(
                    k.expr,
                    row,
                    index::no_names(),
                    Seq::empty(),
                    Seq::empty(),
                    r,
                ) matches Ok(ScalarExprView::Column { name, index, .. })
                &&& next.columns.last() == index
                &&& next.exprs.last() matches ScalarExprView::Column {
                    name: kept,
                    index: at,
                    ..
                } && kept == name && at == index
            }
        },
{
}

proof fn group_keys_are_counted(
    keys: Seq<IndexKey>,
    i: int,
    row: SchemaView,
    r: ReadingsView,
    acc: GroupKeysView,
)
    requires
        0 <= i <= keys.len(),
        acc.columns.len() + acc.aggregates.len() == i,
        acc.exprs.len() == acc.columns.len(),
    ensures
        index::group_keys_from(keys, i, row, r, acc) matches Ok(g) ==> {
            &&& g.columns.len() + g.aggregates.len() == keys.len()
            &&& g.exprs.len() == g.columns.len()
        },
    decreases keys.len() - i,
{
    if i < keys.len() {
        group_keys_are_those_stated(acc, keys[i], row, r);
        if let Ok(next) = index::with_group_key(acc, keys[i], row, r) {
            group_keys_are_counted(keys, i + 1, row, r, next);
        }
    }
}

/// A `CREATE AGGREGATING INDEX` makes an index of the table that it names, which
/// groups by the columns and keeps the aggregates of its keys, all of them.
pub proof fn aggregating_indexes_are_those_stated(
    s: CreateIndexStmt,
    cat: CatalogView,
    r: ReadingsView,
)
    requires
        s.aggregating,
    ensures
        index::created_index(s, cat, r) matches Ok(p) ==> {
            &&& dml::named_table(s.table, cat) matches Ok((_, meta))
            &&& changes::refers_to(s.table, p.table_name, meta.schema, cat)
            &&& p.index_namespace == meta.schema_name
            &&& rules::keeps_name(s.name, p.index_name)
            &&& p.method is Aggregating
            &&& p.aggregating matches Some(a)
            &&& a.group_columns == p.columns
            &&& a.group_columns.len() > 0 && a.aggregates.len() > 0
            &&& a.group_columns.len() + a.aggregates.len() == s.columns@.len()
            &&& p.key_exprs.len() == p.columns.len()
            &&& !p.unique && !p.primary_key && !p.concurrently
            &&& p.predicate is None && p.covering_columns.len() == 0
            &&& p.if_not_exists == s.if_not_exists
        },
{
    methods_are_those_stated(s);
    if let Ok((_, meta)) = dml::named_table(s.table, cat) {
        group_keys_are_counted(s.columns@, 0, meta.schema, r, index::no_groups());
    }
}

/// Whether columns of a view are those of its query, under the listed names where
/// there are any.
pub open spec fn shows(source: QueryPlanView, list: Seq<Identifier>, output: SchemaView) -> bool {
    let row = query::query_schema(source);
    &&& output.fields.len() == row.fields.len() && output.fields.len() > 0
    &&& list.len() == 0 ==> output == row
    &&& list.len() > 0 ==> list.len() == output.fields.len() && forall|k: int|
        0 <= k < output.fields.len() ==> {
            &&& (#[trigger] output.fields[k]).name == list[k].value@
            &&& output.fields[k].data_type == row.fields[k].data_type
            &&& output.fields[k].nullable == row.fields[k].nullable
        }
}

/// A `CREATE VIEW` makes the view of its name over its query, with its columns, and
/// keeps its text and `OR REPLACE`.
pub proof fn created_views_are_those_stated(s: CreateViewStmt, cat: CatalogView)
    ensures
        view::bound_create_view(s, cat) matches Ok(p) ==> {
            &&& p matches LogicalPlanView::CreateView {
                table_name,
                namespace,
                output,
                source,
                source_sql,
                or_replace,
                ..
            }
            &&& table_name == text::lower(names::last_part(s.name))
            &&& objects::in_namespace(s.name, namespace)
            &&& bound::bound_select(*s.source, cat, Seq::empty()) == Ok::<_, PlanErrorView>(source)
            &&& shows(source, s.columns@, output)
            &&& source_sql == s.source_sql@
            &&& or_replace == s.or_replace
            &&& !s.or_replace ==> (cat.table_in)(namespace, table_name) is None
        },
{
}

/// A `CREATE MATERIALIZED VIEW` makes the view of its name over its query, with its
/// columns, and keeps `IF NOT EXISTS`.
pub proof fn materialized_views_are_those_stated(s: CreateMaterializedViewStmt, cat: CatalogView)
    ensures
        view::bound_create_materialized_view(s, cat) matches Ok(p) ==> {
            &&& p matches LogicalPlanView::CreateMaterializedView {
                table_name,
                namespace,
                output,
                source,
                if_not_exists,
                ..
            }
            &&& table_name == text::lower(names::last_part(s.name))
            &&& objects::in_namespace(s.name, namespace)
            &&& bound::bound_select(*s.source, cat, Seq::empty()) == Ok::<_, PlanErrorView>(source)
            &&& shows(source, s.columns@, output)
            &&& if_not_exists == s.if_not_exists
            &&& !s.if_not_exists ==> (cat.table_in)(namespace, table_name) is None
        },
{
}

/// An `ALTER VIEW` renames or moves the view that it names.
pub proof fn altered_views_are_those_stated(s: AlterViewStmt, cat: CatalogView)
    ensures
        view::bound_alter_view(s, cat) matches Ok(p) ==> {
            &&& p matches LogicalPlanView::AlterView { view_name, action, .. }
            &&& objects::is_table(s.name, view_name, cat)
            &&& match (s.action, action) {
                (
                    AlterViewAction::RenameView { new_name },
                    LogicalAlterViewActionView::RenameView { new_name: to },
                ) => to == text::lower(new_name.value@),
                (
                    AlterViewAction::SetSchema { schema_name },
                    LogicalAlterViewActionView::SetSchema { new_schema },
                ) => new_schema == text::lower(schema_name.value@),
                _ => false,
            }
        },
{
}

/// Whether an expression reads a setting that may be missing.
pub open spec fn reads_setting(e: Expr, setting: Seq<char>) -> bool {
    &&& shared::unparened(e) matches Expr::Call { name, args, distinct, over, .. }
    &&& !distinct && over is None
    &&& text::lower(names::last_part(name)) == "current_setting"@
    &&& args@.len() == 2
    &&& shared::unparened(args@[0]) matches Expr::Literal(Literal::Text { value })
    &&& shared::unparened(args@[1]) matches Expr::Literal(Literal::Bool { value: missing })
    &&& missing && setting == text::lower(value@)
}

/// Whether an expression is the column of a row that a policy compares.
pub open spec fn reads_column(e: Expr, row: SchemaView, p: LogicalTenantPolicyExprView) -> bool {
    &&& shared::unparened(e) matches Expr::Column { name }
    &&& name.parts@.len() == 1
    &&& p.column_name == text::lower(name.parts@[0].value@)
    &&& sources::first_named(row, p.column_index as int, p.column_name)
}

/// Whether a policy compares a column with a setting as its predicate does, which
/// may have them in either order.
pub open spec fn compares(e: Expr, row: SchemaView, p: LogicalTenantPolicyExprView) -> bool {
    &&& shared::unparened(e) matches Expr::Binary { op, left, right }
    &&& op == BinaryOp::Eq
    &&& (reads_column(*left, row, p) && reads_setting(*right, p.setting_name)) || (reads_column(
        *right,
        row,
        p,
    ) && reads_setting(*left, p.setting_name))
}

proof fn tenant_pairs_are_those_stated(column: Expr, setting: Expr, row: SchemaView)
    requires
        row.fields.len() <= usize::MAX,
    ensures
        view::tenant_pair(column, setting, row) matches Some(p) ==> reads_column(column, row, p)
            && reads_setting(setting, p.setting_name),
{
    if let Expr::Column { name } = shared::unparened(column) {
        let own = text::lower(name.parts@[0].value@);
        schema::find_gives_first(row.fields, own, 0);
        if let Some(i) = schema::find_field(row, own) {
            assert(sources::first_named(row, i, own));
        }
    }
}

/// The predicate of a policy compares what it states.
pub proof fn policies_compare_what_they_state(e: Expr, row: SchemaView)
    requires
        row.fields.len() <= usize::MAX,
    ensures
        view::tenant_predicate(e, row) matches Ok(p) ==> compares(e, row, p),
{
    if let Expr::Binary { left, right, .. } = shared::unparened(e) {
        tenant_pairs_are_those_stated(*left, *right, row);
        tenant_pairs_are_those_stated(*right, *left, row);
    }
}

/// Whether the predicate of a policy is the stated one, where there is one.
pub open spec fn compares_as_stated(
    e: Option<Expr>,
    row: SchemaView,
    p: Option<LogicalTenantPolicyExprView>,
) -> bool {
    match (e, p) {
        (None, None) => true,
        (Some(e), Some(p)) => compares(e, row, p),
        _ => false,
    }
}

/// A `CREATE POLICY` makes the policy of its name for the table that it names, with
/// its kind, its command, its roles and both of its predicates.
pub proof fn created_policies_are_those_stated(s: CreatePolicyStmt, cat: CatalogView)
    requires
        dml::target_table(s.table, cat) matches Ok((_, row)) ==> row.fields.len() <= usize::MAX,
    ensures
        view::bound_create_policy(s, cat) matches Ok(p) ==> {
            &&& p matches LogicalPlanView::CreatePolicy { policy, .. }
            &&& policy.policy_name == text::lower(s.name.value@)
            &&& dml::target_table(s.table, cat) matches Ok((_, row))
            &&& changes::refers_to(s.table, policy.table_name, row, cat)
            &&& rules::lowered(s.roles@, policy.roles)
            &&& match (s.permissiveness, policy.permissiveness) {
                (PolicyPermissiveness::Permissive, LogicalRlsPermissiveness::Permissive) => true,
                (PolicyPermissiveness::Restrictive, LogicalRlsPermissiveness::Restrictive) => true,
                _ => false,
            }
            &&& match (s.command, policy.command) {
                (PolicyCommand::All, LogicalRlsCommand::All) => true,
                (PolicyCommand::Select, LogicalRlsCommand::Select) => true,
                (PolicyCommand::Insert, LogicalRlsCommand::Insert) => true,
                (PolicyCommand::Update, LogicalRlsCommand::Update) => true,
                (PolicyCommand::Delete, LogicalRlsCommand::Delete) => true,
                _ => false,
            }
            &&& compares_as_stated(s.using, row, policy.using)
            &&& compares_as_stated(s.with_check, row, policy.with_check)
            &&& s.using is Some || s.with_check is Some
        },
{
    changes::targets_are_the_named_tables(s.table, cat);
    if let Ok((_, row)) = dml::target_table(s.table, cat) {
        if let Some(e) = s.using {
            policies_compare_what_they_state(e, row);
        }
        if let Some(e) = s.with_check {
            policies_compare_what_they_state(e, row);
        }
    }
}

/// Parentheses change nothing.
pub proof fn parentheses_change_nothing(e: Expr)
    ensures
        !(shared::unparened(e) is Paren),
        e matches Expr::Paren { expr } ==> shared::unparened(e) == shared::unparened(*expr),
        !(e is Paren) ==> shared::unparened(e) == e,
    decreases e,
{
    if let Expr::Paren { expr } = e {
        parentheses_change_nothing(*expr);
    }
}

} // verus!
