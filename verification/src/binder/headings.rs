//! The names of the columns that an aggregation gives.
use crate::binder::{bound, relation};
use crate::query;
use crate::query::{LogicalAggregateExprView, QueryPlanView, ScalarExprView};
use crate::schema::FieldView;
use crate::text;
use vstd::prelude::*;

verus! {

/// Whether no column before a place has a name.
pub open spec fn first_of_name(fields: Seq<FieldView>, i: int) -> bool {
    forall|j: int| 0 <= j < i ==> !text::same_fold((#[trigger] fields[j]).name, fields[i].name)
}

proof fn earlier_names_are_counted(fields: Seq<FieldView>, name: Seq<char>, i: int)
    requires
        0 <= i <= fields.len(),
    ensures
        relation::same_before(fields, name, i) == 0 <==> forall|j: int|
            0 <= j < i ==> !text::same_fold((#[trigger] fields[j]).name, name),
    decreases i,
{
    if i > 0 {
        earlier_names_are_counted(fields, name, i - 1);
    }
}

/// The first column of a name keeps it, and a later one has a number behind it. A
/// column keeps its type.
pub proof fn repeated_names_are_numbered(fields: Seq<FieldView>)
    ensures
        relation::unique_fields(fields).len() == fields.len(),
        forall|i: int|
            0 <= i < fields.len() ==> {
                let f = #[trigger] relation::unique_fields(fields)[i];
                &&& f.data_type == fields[i].data_type && f.nullable == fields[i].nullable
                &&& first_of_name(fields, i) ==> f.name == fields[i].name
                &&& !first_of_name(fields, i) ==> exists|n: nat|
                    n > 0 && f.name == fields[i].name + "_"@ + #[trigger] text::decimal(n)
            },
{
    assert forall|i: int| 0 <= i < fields.len() implies {
        let f = #[trigger] relation::unique_fields(fields)[i];
        &&& first_of_name(fields, i) ==> f.name == fields[i].name
        &&& !first_of_name(fields, i) ==> exists|n: nat|
            n > 0 && f.name == fields[i].name + "_"@ + #[trigger] text::decimal(n)
    } by {
        earlier_names_are_counted(fields, fields[i].name, i);
        let n = relation::same_before(fields, fields[i].name, i);
        if n > 0 {
            assert(relation::unique_fields(fields)[i].name == fields[i].name + "_"@
                + text::decimal(n));
        }
    }
}

/// Whether a name is that of a group: the one of a column, and else its number.
pub open spec fn names_group(g: ScalarExprView, i: int, name: Seq<char>) -> bool {
    match g {
        ScalarExprView::Column { name: own, .. } => name == own,
        _ => name == "group"@ + text::decimal(i as nat),
    }
}

/// An aggregation gives its groups and then its aggregates, each under its name.
pub proof fn aggregations_name_their_columns(
    p: QueryPlanView,
    groups: Seq<ScalarExprView>,
    aggs: Seq<LogicalAggregateExprView>,
)
    ensures
        ({
            let fields = bound::aggregate_fields(groups, aggs);
            &&& fields.len() == groups.len() + aggs.len()
            &&& forall|i: int|
                0 <= i < groups.len() ==> {
                    &&& names_group(groups[i], i, (#[trigger] fields[i]).name)
                    &&& fields[i].data_type == query::scalar_type(groups[i])
                }
            &&& forall|i: int|
                groups.len() <= i < fields.len() ==> {
                    &&& (#[trigger] fields[i]).name == aggs[i - groups.len()].output_name
                    &&& fields[i].data_type == aggs[i - groups.len()].data_type
                }
            &&& bound::aggregation(p, groups, aggs) matches Ok(q) ==> query::query_schema(
                q,
            ).fields == relation::unique_fields(fields)
        }),
{
}

} // verus!
