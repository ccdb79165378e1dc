//! What the expressions of a `MERGE` see.
use crate::ast::MergeStmt;
use crate::binder::{bound, names, relation};
use crate::catalog::CatalogView;
use crate::dialect::{aggregate, dml, grouping};
use crate::query;
use crate::schema::SchemaView;
use crate::text;
use vstd::prelude::*;

verus! {

/// The row of a `MERGE` has the columns of its target under the target's alias, or
/// under its name where it has none, and then those of its source, with their types.
pub proof fn merged_rows_stand_side_by_side(
    s: MergeStmt,
    table: SchemaView,
    cat: CatalogView,
    rows: Seq<SchemaView>,
)
    requires
        table.fields.len() <= usize::MAX,
    ensures
        dml::merge_source(s, table, cat, rows) matches Ok((source, row)) ==> {
            let n = table.fields.len() as int;
            let other = query::query_schema(source);
            &&& bound::bound_table_ref(s.source, cat, Seq::empty(), rows) matches Ok((q, _))
            &&& source == q
            &&& row.fields.len() == n + other.fields.len()
            &&& forall|k: int|
                0 <= k < n ==> {
                    &&& (#[trigger] row.fields[k]).data_type == table.fields[k].data_type
                    &&& s.target_alias matches Some(a) ==> row.fields[k].name == a.value@ + "."@
                        + table.fields[k].name
                    &&& s.target_alias is None ==> row.fields[k].name == text::lower(
                        names::last_part(s.target),
                    ) + "."@ + table.fields[k].name
                }
            &&& forall|k: int|
                n <= k < row.fields.len() ==> (#[trigger] row.fields[k]).data_type
                    == other.fields[k - n].data_type
        },
{
    if let Ok((source, row)) = dml::merge_source(s, table, cat, rows) {
        let q = dml::target_qualifier(s);
        let own = relation::entries_of(q, table);
        grouping::bound_rows_are_qualified(table, own);
        let left = aggregate::binding_schema(table, own)->Ok_0;
        let entries = bound::bound_table_ref(s.source, cat, Seq::empty(), rows)->Ok_0.1;
        let other = query::query_schema(source);
        grouping::bound_rows_are_qualified(other, entries);
        let right = aggregate::binding_schema(other, entries)->Ok_0;
        let n = table.fields.len() as int;
        assert(row.fields == left.fields + right.fields);
        assert forall|k: int| 0 <= k < n implies {
            &&& (#[trigger] row.fields[k]).data_type == table.fields[k].data_type
            &&& row.fields[k].name == q + "."@ + table.fields[k].name
        } by {
            assert(row.fields[k] == left.fields[k]);
            assert(own[k].field_index == k);
            let j = choose|j: int|
                {
                    &&& 0 <= j < own.len()
                    &&& (#[trigger] own[j]).field_index == k
                    &&& left.fields[k].name == own[j].qualifier + "."@ + own[j].field.name
                };
            assert(own[j].field_index == j);
            assert(j == k);
        }
        assert forall|k: int| n <= k < row.fields.len() implies (#[trigger] row.fields[k]).data_type
            == other.fields[k - n].data_type by {
            assert(row.fields[k] == right.fields[k - n]);
        }
    }
}

} // verus!
