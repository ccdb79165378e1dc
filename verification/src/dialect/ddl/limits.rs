//! What an accepted definition is never like.
use crate::ast::{ColumnDef, CreateIndexStmt};
use crate::catalog::CatalogView;
use crate::datatype::DataTypeView;
use crate::dialect::ddl::index::IndexKeysView;
use crate::dialect::ddl::{index, shared, table, tables};
use crate::dialect::dml;
use crate::dialect::reading::ReadingsView;
use crate::plan::LogicalIndexMethod;
use crate::query::ScalarExprView;
use crate::schema::SchemaView;
use vstd::prelude::*;

verus! {

/// Only a tree can be unique, an index by hashes has one key, and only one of
/// nearest neighbours has options. That one has a vector with its dimensions for its
/// single key, no covering columns and no condition.
pub proof fn accepted_indexes_are_possible(
    s: CreateIndexStmt,
    cat: CatalogView,
    r: ReadingsView,
)
    requires
        !s.aggregating,
    ensures
        index::created_index(s, cat, r) matches Ok(p) ==> {
            &&& p.unique ==> p.method is Btree
            &&& p.method is Hash ==> p.key_exprs.len() == 1
            &&& p.index_options.len() > 0 ==> p.method is Hnsw || p.method is IvfFlat
            &&& p.method is Hnsw || p.method is IvfFlat ==> {
                &&& p.columns.len() == 1 && s.columns@.len() == 1
                &&& p.predicate is None && s.covering@.len() == 0
                &&& dml::named_table(s.table, cat) matches Ok((_, meta))
                &&& p.columns[0] < meta.schema.fields.len()
                &&& match meta.schema.fields[p.columns[0] as int].data_type {
                    DataTypeView::Vector { dims } => dims is Some,
                    DataTypeView::HalfVec { dims } => dims is Some,
                    _ => false,
                }
            }
            &&& forall|k: int|
                0 <= k < p.index_options.len() ==> {
                    let o = #[trigger] p.index_options[k];
                    &&& p.method is Hnsw ==> o.name == "payload"@
                    &&& p.method is IvfFlat ==> o.name == "payload"@ || o.name == "lists"@ || o.name
                        == "probes"@
                }
        },
{
    if let Ok((name, meta)) = dml::named_table(s.table, cat) {
        let row = meta.schema;
        if let Ok(m) = index::access_method(s.aggregating, s.method) {
            if let Ok(k) = index::index_keys(s.columns@, row, cat, r) {
                keys_are_counted(s, row, cat, r);
                if let Ok(options) = index::options_from(s.options@, 0, Seq::empty()) {
                    options_are_known(m, options, 0);
                }
            }
        }
    }
}

proof fn keys_are_counted(s: CreateIndexStmt, row: SchemaView, cat: CatalogView, r: ReadingsView)
    ensures
        index::index_keys(s.columns@, row, cat, r) matches Ok(k) ==> k.exprs.len()
            == s.columns@.len(),
{
    counted_keys(s.columns@, 0, row, cat, r, index::no_keys());
}

proof fn counted_keys(
    keys: Seq<crate::ast::IndexKey>,
    i: int,
    row: SchemaView,
    cat: CatalogView,
    r: ReadingsView,
    acc: IndexKeysView,
)
    requires
        0 <= i <= keys.len(),
        acc.exprs.len() == i,
    ensures
        index::keys_from(keys, i, row, cat, r, acc) matches Ok(k) ==> k.exprs.len() == keys.len(),
    decreases keys.len() - i,
{
    if i < keys.len() {
        if let Ok(x) = crate::dialect::expr::bound_value(
            keys[i].expr,
            row,
            cat,
            Seq::empty(),
            Seq::empty(),
            r,
        ) {
            counted_keys(
                keys,
                i + 1,
                row,
                cat,
                r,
                index::with_index_key(acc, x, index::lower_option(keys[i].opclass)),
            );
        }
    }
}

proof fn options_are_known(
    m: LogicalIndexMethod,
    options: Seq<crate::plan::LogicalIndexOptionView>,
    i: int,
)
    requires
        0 <= i <= options.len(),
    ensures
        index::options_rule(m, options, i) is Ok ==> forall|k: int|
            i <= k < options.len() ==> {
                let o = #[trigger] options[k];
                &&& m is Hnsw || m is IvfFlat
                &&& m is Hnsw ==> o.name == "payload"@
                &&& m is IvfFlat ==> o.name == "payload"@ || o.name == "lists"@ || o.name
                    == "probes"@
            },
    decreases options.len() - i,
{
    if i < options.len() {
        options_are_known(m, options, i + 1);
    }
}

/// Whether an expression is made of literals, operations and calls alone, and of
/// columns where there are any.
pub open spec fn made_alone(e: ScalarExprView, columns: bool) -> bool
    decreases e,
{
    match e {
        ScalarExprView::Literal { .. } => true,
        ScalarExprView::Column { .. } => columns,
        ScalarExprView::Unary { expr, .. } => made_alone(*expr, columns),
        ScalarExprView::IsNull { expr, .. } => made_alone(*expr, columns),
        ScalarExprView::Binary { left, right, .. } => made_alone(*left, columns) && made_alone(
            *right,
            columns,
        ),
        ScalarExprView::FunctionCall { args, .. } => forall|k: int|
            0 <= k < args.len() ==> made_alone(#[trigger] args[k], columns),
        _ => false,
    }
}

/// An expression is self-contained exactly where it is made of literals, operations
/// and calls alone: it reads no parameter, no other row and no query.
pub proof fn contained_expressions_are_made_alone(e: ScalarExprView, columns: bool)
    ensures
        shared::self_contained(e, columns) == made_alone(e, columns),
    decreases e, 0int,
{
    match e {
        ScalarExprView::Unary { expr, .. } => {
            contained_expressions_are_made_alone(*expr, columns);
        },
        ScalarExprView::IsNull { expr, .. } => {
            contained_expressions_are_made_alone(*expr, columns);
        },
        ScalarExprView::Binary { left, right, .. } => {
            contained_expressions_are_made_alone(*left, columns);
            contained_expressions_are_made_alone(*right, columns);
        },
        ScalarExprView::FunctionCall { args, .. } => {
            all_contained_are_made_alone(args, args.len() as int, columns);
        },
        _ => {},
    }
}

proof fn all_contained_are_made_alone(s: Seq<ScalarExprView>, n: int, columns: bool)
    requires
        0 <= n <= s.len(),
    ensures
        shared::all_self_contained(s, n, columns) == forall|k: int|
            0 <= k < n ==> made_alone(#[trigger] s[k], columns),
    decreases s, n,
{
    if n > 0 {
        contained_expressions_are_made_alone(s[n - 1], columns);
        all_contained_are_made_alone(s, n - 1, columns);
        assert(shared::all_self_contained(s, n, columns) == (shared::self_contained(
            s[n - 1],
            columns,
        ) && shared::all_self_contained(s, n - 1, columns)));
        if shared::all_self_contained(s, n, columns) {
            assert forall|k: int| 0 <= k < n implies made_alone(#[trigger] s[k], columns) by {}
        }
    }
}

/// A column is filled in one way only: by a sequence, by an identity or by a stored
/// expression, and one that is filled so has no default.
pub proof fn columns_are_filled_in_one_way(name: Seq<char>, c: ColumnDef, cat: CatalogView)
    ensures
        table::column_plan(name, c, cat) matches Ok(p) ==> {
            &&& !(p.sequence is Some && p.generated)
            &&& p.sequence is Some || p.generated ==> !tables::states_default(c)
            &&& tables::states_identity(c) ==> p.field.data_type is Int16 || p.field.data_type is
                Int32 || p.field.data_type is Int64
        },
{
    tables::defaults_are_those_stated(c.constraints@, 0, None);
    tables::identities_are_those_stated(c.constraints@, 0, None);
    tables::stored_expressions_are_those_stated(c.constraints@, 0, None);
}

} // verus!
