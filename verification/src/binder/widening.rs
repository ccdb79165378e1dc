//! The types of columns that several rows or queries give together.
use crate::ast::{SetOp, SetQuantifier};
use crate::binder::{dml, relation};
use crate::datatype;
use crate::datatype::DataTypeView;
use crate::query;
use crate::query::{QueryPlanView, ScalarExprView};
use crate::text;
use vstd::prelude::*;

verus! {

/// Whether a type of numbers holds those of another: whole numbers, then decimals,
/// then floating-point numbers, and the wider of the same kind.
pub open spec fn holds_numbers_of(t: DataTypeView, u: DataTypeView) -> bool {
    match u {
        DataTypeView::Int16 => true,
        DataTypeView::Int32 => !(t is Int16),
        DataTypeView::Int64 => !(t is Int16) && !(t is Int32),
        DataTypeView::Decimal { .. } => t is Decimal || t is Float64,
        DataTypeView::Float32 => t is Float32 || t is Float64,
        DataTypeView::Float64 => t is Float64,
        _ => false,
    }
}

/// Two types of numbers together give one that holds both, in either order, and a
/// type with itself gives itself.
pub proof fn numbers_widen_together(a: DataTypeView, b: DataTypeView)
    requires
        datatype::numeric(a) && datatype::numeric(b),
        !(a is Money) && !(b is Money),
    ensures
        datatype::join_numeric(a, b) matches Some(t) && holds_numbers_of(t, a)
            && holds_numbers_of(t, b),
        datatype::join_numeric(a, b) == datatype::join_numeric(b, a),
        datatype::join_numeric(a, a) == Some(a),
        match (a, b) {
            (
                DataTypeView::Decimal { scale: Some(x), .. },
                DataTypeView::Decimal { scale: Some(y), .. },
            ) => a != b ==> {
                &&& datatype::join_numeric(a, b) matches Some(DataTypeView::Decimal { scale, .. })
                &&& scale == Some(
                    if x < y {
                        y
                    } else {
                        x
                    },
                )
            },
            _ => true,
        },
{
}

/// Whether a column of two queries has the type that both give: the one of either
/// where the other is null, the common one of numbers, and else that of the first.
pub open spec fn gives_both(l: DataTypeView, r: DataTypeView, t: DataTypeView) -> bool {
    &&& l is Null ==> t == r
    &&& r is Null ==> t == l
    &&& l == r ==> t == l
    &&& datatype::numeric(l) && datatype::numeric(r) ==> datatype::join_numeric(l, r) == Some(t)
    &&& !(l is Null) && !(r is Null) && !(datatype::numeric(l) && datatype::numeric(r)) ==> t == l
}

/// A set operation has the columns of its first query by name, with the types that
/// both queries give, and is of queries with as many columns.
pub proof fn set_operations_have_common_columns(
    left: QueryPlanView,
    op: SetOp,
    quantifier: SetQuantifier,
    right: QueryPlanView,
)
    ensures
        relation::set_operation(left, op, quantifier, right) matches Ok(p) ==> {
            let l = query::query_schema(left);
            let r = query::query_schema(right);
            let t = query::query_schema(p);
            &&& l.fields.len() == r.fields.len() && t.fields.len() == l.fields.len()
            &&& forall|i: int|
                0 <= i < t.fields.len() ==> {
                    &&& (#[trigger] t.fields[i]).name == l.fields[i].name
                    &&& t.fields[i].nullable
                    &&& gives_both(
                        l.fields[i].data_type,
                        r.fields[i].data_type,
                        t.fields[i].data_type,
                    )
                }
        },
{
}

/// Listed values give columns that are counted from one.
pub proof fn listed_values_are_counted(rows: Seq<Seq<ScalarExprView>>, arity: nat)
    ensures
        dml::values_fields(rows, arity).len() == arity,
        forall|c: int|
            0 <= c < arity ==> {
                let f = #[trigger] dml::values_fields(rows, arity)[c];
                &&& f.name == "column"@ + text::decimal((c + 1) as nat)
                &&& f.nullable
                &&& f.data_type == dml::cell_type(rows, c, rows.len() as int)
            },
{
}

/// A column of listed values that all have one type, or are null, has that type.
pub proof fn alike_values_keep_their_type(
    rows: Seq<Seq<ScalarExprView>>,
    c: int,
    n: int,
    t: DataTypeView,
)
    requires
        0 <= n <= rows.len(),
        !(t is Null),
        forall|i: int|
            0 <= i < n ==> query::scalar_type((#[trigger] rows[i])[c]) == t || query::scalar_type(
                rows[i][c],
            ) is Null,
    ensures
        dml::cell_type(rows, c, n) == t || dml::cell_type(rows, c, n) is Null,
        (exists|i: int| 0 <= i < n && query::scalar_type((#[trigger] rows[i])[c]) == t)
            ==> dml::cell_type(rows, c, n) == t,
    decreases n,
{
    if n > 0 {
        alike_values_keep_their_type(rows, c, n - 1, t);
        assert(query::scalar_type(rows[n - 1][c]) == t || query::scalar_type(
            rows[n - 1][c],
        ) is Null);
        if exists|i: int| 0 <= i < n && query::scalar_type((#[trigger] rows[i])[c]) == t {
            let i = choose|i: int| 0 <= i < n && query::scalar_type((#[trigger] rows[i])[c]) == t;
            if i < n - 1 {
                assert(dml::cell_type(rows, c, n - 1) == t);
            }
        }
    }
}

} // verus!
