//! What aggregations and projections keep of the statements that they are bound
//! from.
use crate::ast::{Expr, Identifier, Literal, ObjectName, OrderItem, SelectItem, SelectStmt};
use crate::binder::relation::ScopeEntryView;
use crate::binder::{bound, faithful, names};
use crate::catalog::CatalogView;
use crate::datatype::DataTypeView;
use crate::dialect::reading::ReadingsView;
use crate::dialect::{aggregate, aggregate_call, expr};
use crate::error::PlanErrorView;
use crate::query::{
    AggregateFunc, LogicalAggregateExprView, QueryPlanView, ScalarExprView, SortKeyView,
};
use crate::schema::SchemaView;
use crate::{query, text};
use vstd::prelude::*;

verus! {

/// Whether a function is that of a name, up to case. Counting without an argument
/// counts rows, and a deviation or variance that is not said to be that of a
/// population is that of a sample.
pub open spec fn function_of(name: Seq<char>, bare: bool, func: AggregateFunc) -> bool {
    let n = text::lower(name);
    match func {
        AggregateFunc::JsonAgg => n == "json_agg"@,
        AggregateFunc::StddevSamp => n == "stddev"@ || n == "stddev_samp"@,
        AggregateFunc::StddevPop => n == "stddev_pop"@,
        AggregateFunc::VarSamp => n == "variance"@ || n == "var_samp"@,
        AggregateFunc::VarPop => n == "var_pop"@,
        AggregateFunc::Corr => n == "corr"@,
        AggregateFunc::PercentileCont => n == "percentile_cont"@,
        AggregateFunc::PercentileDisc => n == "percentile_disc"@,
        _ => faithful::function_of(name, bare, func),
    }
}

/// A name is that of an aggregate function exactly when it is that of one of
/// the functions, and then of no other one.
pub proof fn aggregate_functions_have_their_names(name: ObjectName, bare: bool)
    ensures
        aggregate_call::aggregate_of(names::simple_name(name), bare) matches Some(func)
            ==> function_of(names::last_part(name), bare, func),
        forall|func: AggregateFunc| #[trigger]
            function_of(names::last_part(name), bare, func) ==> aggregate_call::aggregate_of(
                names::simple_name(name),
                bare,
            ) == Some(func),
{
    faithful::aggregate_functions_have_their_names(name, bare);
    text::lowering_again_changes_nothing(names::last_part(name));
    reveal_strlit("count");
    reveal_strlit("sum");
    reveal_strlit("avg");
    reveal_strlit("min");
    reveal_strlit("max");
    reveal_strlit("bool_and");
    reveal_strlit("bool_or");
    reveal_strlit("string_agg");
    reveal_strlit("array_agg");
    reveal_strlit("json_agg");
    reveal_strlit("stddev");
    reveal_strlit("stddev_samp");
    reveal_strlit("stddev_pop");
    reveal_strlit("variance");
    reveal_strlit("var_samp");
    reveal_strlit("var_pop");
    reveal_strlit("corr");
    reveal_strlit("percentile_cont");
    reveal_strlit("percentile_disc");
    assert("count"@.len() == 5 && "sum"@.len() == 3 && "avg"@.len() == 3);
    assert("min"@.len() == 3 && "max"@.len() == 3 && "bool_and"@.len() == 8);
    assert("bool_or"@.len() == 7 && "string_agg"@.len() == 10 && "array_agg"@.len() == 9);
    assert("json_agg"@.len() == 8 && "stddev"@.len() == 6 && "stddev_samp"@.len() == 11);
    assert("stddev_pop"@.len() == 10 && "variance"@.len() == 8 && "var_samp"@.len() == 8);
    assert("var_pop"@.len() == 7 && "corr"@.len() == 4);
    assert("percentile_cont"@.len() == 15 && "percentile_disc"@.len() == 15);
    assert("bool_and"@[0] == 'b' && "json_agg"@[0] == 'j' && "variance"@[0] == 'v');
    assert("var_samp"@[0] == 'v' && "bool_or"@[0] == 'b' && "var_pop"@[0] == 'v');
    assert("string_agg"@[2] == 'r' && "stddev_pop"@[2] == 'd');
    assert("percentile_cont"@[11] == 'c' && "percentile_disc"@[11] == 'd');
}

/// Whether a sort key is that of an item of a `WITHIN GROUP` list.
pub open spec fn sorts_by(key: SortKeyView, item: OrderItem) -> bool {
    &&& key.asc <==> item.direction is Asc
    &&& item.nulls is First ==> key.nulls_first
    &&& item.nulls is Last ==> !key.nulls_first
    &&& item.nulls is Default ==> (key.nulls_first <==> item.direction is Desc)
}

/// Whether a type is what an aggregate answers.
pub open spec fn answers_type(
    func: AggregateFunc,
    arg: Option<ScalarExprView>,
    t: DataTypeView,
) -> bool {
    match func {
        AggregateFunc::Count | AggregateFunc::CountStar => t is Int64,
        AggregateFunc::BoolAnd | AggregateFunc::BoolOr => t is Bool,
        AggregateFunc::StringAgg => t is Text,
        AggregateFunc::JsonAgg => t is Jsonb,
        AggregateFunc::StddevSamp | AggregateFunc::StddevPop | AggregateFunc::VarSamp
        | AggregateFunc::VarPop | AggregateFunc::Corr | AggregateFunc::PercentileCont => {
            t is Float64
        },
        AggregateFunc::Min | AggregateFunc::Max | AggregateFunc::PercentileDisc => {
            arg matches Some(x) ==> t == query::scalar_type(x)
        },
        AggregateFunc::ArrayAgg => arg matches Some(x) ==> (t matches DataTypeView::Array(u) && *u
            == query::scalar_type(x)),
        AggregateFunc::Sum => arg matches Some(x) ==> {
            let u = query::scalar_type(x);
            &&& u is Int16 || u is Int32 || u is Int64 ==> t is Int64
            &&& u is Float32 || u is Float64 ==> t is Float64
            &&& u is Decimal || u is Vector || u is HalfVec ==> t == u
        },
        AggregateFunc::Avg => arg matches Some(x) ==> {
            let u = query::scalar_type(x);
            &&& u is Int16 || u is Int32 || u is Int64 || u is Float32 || u is Float64
                || u is Decimal ==> t is Float64
            &&& u is Vector || u is HalfVec ==> t == u
        },
    }
}

/// Whether a planned aggregate is that of a call: it has the function and the
/// `DISTINCT` mark of the call, and what the arguments and the sort key of the
/// call are bound to against the rows that are aggregated.
pub open spec fn plans_call(
    a: LogicalAggregateExprView,
    c: Expr,
    row: SchemaView,
    cat: CatalogView,
    ctes: expr::Ctes,
    rows: Seq<SchemaView>,
    r: ReadingsView,
) -> bool {
    match c {
        Expr::Call { name, args, distinct, within_group, .. } => {
            let bare = faithful::without_argument(args@);
            let ordered = a.func is PercentileCont || a.func is PercentileDisc;
            &&& function_of(names::last_part(name), bare, a.func)
            &&& a.distinct == distinct
            &&& answers_type(a.func, a.arg, a.data_type)
            &&& ordered ==> {
                &&& !distinct
                &&& within_group matches Some(items)
                &&& items@.len() == 1 && args@.len() == 1
                &&& a.arg matches Some(key)
                &&& a.direct_arg matches Some(direct)
                &&& a.order_by matches Some(by)
                &&& bound_to(args@[0], direct, row, cat, ctes, rows, r)
                &&& bound_to(items@[0].expr, key, row, cat, ctes, rows, r)
                &&& by.expr == key && sorts_by(by, items@[0])
            }
            &&& !ordered ==> within_group is None && a.order_by is None
            &&& !ordered ==> (a.arg is None <==> bare)
            &&& !ordered && !bare && a.func is StringAgg ==> {
                &&& args@.len() == 2
                &&& bound_to(args@[0], a.arg->Some_0, row, cat, ctes, rows, r)
                &&& a.direct_arg matches Some(direct)
                &&& bound_to(args@[1], direct, row, cat, ctes, rows, r)
            }
            &&& !ordered && !(a.func is StringAgg && !bare) ==> a.direct_arg is None
            &&& !ordered && !bare && a.func is Corr ==> {
                &&& args@.len() == 2
                &&& a.arg->Some_0 matches ScalarExprView::FunctionCall { name: called, args: pair, .. }
                &&& called == "row"@ && pair.len() == 2
                &&& bound_to(args@[0], pair[0], row, cat, ctes, rows, r)
                &&& bound_to(args@[1], pair[1], row, cat, ctes, rows, r)
            }
            &&& !ordered && !bare && !(a.func is StringAgg) && !(a.func is Corr) ==> bound_to(
                args@[0],
                a.arg->Some_0,
                row,
                cat,
                ctes,
                rows,
                r,
            )
        },
        _ => false,
    }
}

/// Whether an expression is what another one is bound to.
#[verifier::opaque]
pub open spec fn bound_to(
    e: Expr,
    x: ScalarExprView,
    row: SchemaView,
    cat: CatalogView,
    ctes: expr::Ctes,
    rows: Seq<SchemaView>,
    r: ReadingsView,
) -> bool {
    expr::bound_value(e, row, cat, ctes, rows, r) == Ok::<_, PlanErrorView>(x)
}

/// Whether a call of `MIN` or `MAX` compares values of one row.
pub open spec fn compares_values(c: Expr) -> bool {
    match c {
        Expr::Call { name, args, distinct, within_group, over } => {
            let n = text::lower(names::last_part(name));
            &&& n == "min"@ || n == "max"@
            &&& args@.len() > 1 && !distinct && within_group is None && over is None
        },
        _ => false,
    }
}

/// Collecting an aggregate call adds the aggregate that it stands for, under its
/// alias or else under the text of the call. Nothing is added where there is an
/// aggregate of that function and name.
pub proof fn collected_calls_keep_their_marks(
    e: Expr,
    alias: Option<Identifier>,
    row: SchemaView,
    acc: Seq<LogicalAggregateExprView>,
    cat: CatalogView,
    ctes: expr::Ctes,
    rows: Seq<SchemaView>,
    r: ReadingsView,
)
    requires
        e is Call,
        !compares_values(e),
        exists|func: AggregateFunc| #[trigger]
            function_of(
                names::last_part(e->Call_name),
                faithful::without_argument(e->Call_args@),
                func,
            ),
    ensures
        aggregate::collected(e, alias, row, acc, cat, ctes, rows, r) matches Ok(more) ==> {
            ||| more == acc && exists|k: int|
                {
                    &&& 0 <= k < acc.len()
                    &&& function_of(
                        names::last_part(e->Call_name),
                        faithful::without_argument(e->Call_args@),
                        (#[trigger] acc[k]).func,
                    )
                    &&& alias matches Some(a) ==> acc[k].output_name == a.value@
                    &&& alias is None ==> acc[k].output_name == aggregate_call::agg_output_name(
                        text::lower(names::last_part(e->Call_name)),
                        e->Call_args@,
                        aggregate_call::keys_of(e->Call_within_group),
                    )
                }
            ||| {
                &&& more.len() == acc.len() + 1
                &&& more.drop_last() == acc
                &&& plans_call(more.last(), e, row, cat, ctes, rows, r)
                &&& alias matches Some(a) ==> more.last().output_name == a.value@
                &&& alias is None ==> more.last().output_name == aggregate_call::agg_output_name(
                    text::lower(names::last_part(e->Call_name)),
                    e->Call_args@,
                    aggregate_call::keys_of(e->Call_within_group),
                )
            }
        },
{
    let bare = faithful::without_argument(e->Call_args@);
    let func_name = names::simple_name(e->Call_name);
    aggregate_functions_have_their_names(e->Call_name, bare);
    text::lowering_again_changes_nothing(names::last_part(e->Call_name));
    if let Ok(more) = aggregate::collected(e, alias, row, acc, cat, ctes, rows, r) {
        let func = aggregate_call::aggregate_of(func_name, bare)->Some_0;
        let keys = aggregate_call::keys_of(e->Call_within_group);
        inputs_are_bound(func, e, keys, row, cat, ctes, rows, r);
        let input = aggregate::aggregate_input(
            func,
            e->Call_args@,
            keys,
            e->Call_distinct,
            row,
            cat,
            ctes,
            rows,
            r,
        )->Ok_0;
        let label = aggregate::call_name(func_name, e->Call_args@, keys, alias);
        assert(more == aggregate::with_call(acc, func, input, e->Call_distinct, label));
        if more == acc {
            assert(crate::binder::aggregate::already_collected(acc, func, label));
        } else {
            assert(more.drop_last() =~= acc);
        }
    }
}

proof fn inputs_are_bound(
    func: AggregateFunc,
    e: Expr,
    keys: Option<Seq<OrderItem>>,
    row: SchemaView,
    cat: CatalogView,
    ctes: expr::Ctes,
    rows: Seq<SchemaView>,
    r: ReadingsView,
)
    requires
        e is Call,
        keys == aggregate_call::keys_of(e->Call_within_group),
        function_of(
            names::last_part(e->Call_name),
            faithful::without_argument(e->Call_args@),
            func,
        ),
    ensures
        aggregate::aggregate_input(
            func,
            e->Call_args@,
            keys,
            e->Call_distinct,
            row,
            cat,
            ctes,
            rows,
            r,
        ) matches Ok(made) ==> forall|a: LogicalAggregateExprView|
            a.func == func && a.arg == made.arg && a.direct_arg == made.direct_arg && a.order_by
                == made.order_by && a.distinct == e->Call_distinct && a.data_type
                == aggregate_call::aggregate_type(func, made.arg_type) ==> #[trigger] plans_call(
                a,
                e,
                row,
                cat,
                ctes,
                rows,
                r,
            ),
{
    reveal(bound_to);
}

/// Whether an expression is what an item of a `GROUP BY` list stands for: itself,
/// or the expression of the projection at the place that a whole number states.
pub open spec fn groups_by(e: Expr, target: Expr, items: Seq<SelectItem>) -> bool {
    match e {
        Expr::Literal(Literal::Integer { text: s }) => match text::int_value(s@) {
            Some(n) => if i64::MIN <= n <= i64::MAX {
                &&& 1 <= n <= items.len()
                &&& items[n - 1] matches SelectItem::Expr { expr, .. } && target == expr
            } else {
                target == e
            },
            None => target == e,
        },
        _ => target == e,
    }
}

proof fn groups_follow(
    list: Seq<Expr>,
    i: int,
    acc: Seq<ScalarExprView>,
    items: Seq<SelectItem>,
    row: SchemaView,
    cat: CatalogView,
    ctes: expr::Ctes,
    rows: Seq<SchemaView>,
    r: ReadingsView,
)
    requires
        0 <= i <= list.len(),
        acc.len() == i,
        forall|k: int|
            0 <= k < i ==> group_stands(
                list[k],
                #[trigger] acc[k],
                items,
                row,
                cat,
                ctes,
                rows,
                r,
            ),
    ensures
        aggregate::bound_groups(list, i, acc, items, row, cat, ctes, rows, r) matches Ok(out) ==> {
            &&& out.len() == list.len()
            &&& forall|k: int|
                0 <= k < out.len() ==> group_stands(
                    list[k],
                    #[trigger] out[k],
                    items,
                    row,
                    cat,
                    ctes,
                    rows,
                    r,
                )
        },
    decreases list.len() - i,
{
    if i < list.len() {
        if let Ok(target) = aggregate::group_target(list[i], items) {
            if let Ok(x) = expr::bound_value(target, row, cat, ctes, rows, r) {
                assert(groups_by(list[i], target, items));
                assert(bound_to(target, x, row, cat, ctes, rows, r)) by {
                    reveal(bound_to);
                }
                assert(group_stands(list[i], x, items, row, cat, ctes, rows, r));
                groups_follow(list, i + 1, acc.push(x), items, row, cat, ctes, rows, r);
            }
        }
    }
}

/// Whether a group is what an item of a `GROUP BY` list is bound to.
pub open spec fn group_stands(
    e: Expr,
    x: ScalarExprView,
    items: Seq<SelectItem>,
    row: SchemaView,
    cat: CatalogView,
    ctes: expr::Ctes,
    rows: Seq<SchemaView>,
    r: ReadingsView,
) -> bool {
    exists|target: Expr|
        groups_by(e, target, items) && #[trigger] bound_to(target, x, row, cat, ctes, rows, r)
}

/// An aggregation aggregates the rows that it is given, by the groups that are
/// stated, in order. Its columns are the groups and then the aggregates, with
/// their types.
pub proof fn aggregations_group_as_stated(
    s: SelectStmt,
    p: QueryPlanView,
    entries: Seq<ScopeEntryView>,
    cat: CatalogView,
    ctes: expr::Ctes,
    rows: Seq<SchemaView>,
    r: ReadingsView,
)
    ensures
        aggregate::bound_aggregate(s, p, entries, cat, ctes, rows, r) matches Ok(g) ==> {
            &&& g matches QueryPlanView::Aggregate { input, group_by, aggregates, schema }
            &&& *input == p
            &&& aggregate::binding_schema(query::query_schema(p), entries) matches Ok(row)
            &&& group_by.len() == s.group_by@.len()
            &&& forall|k: int|
                0 <= k < group_by.len() ==> group_stands(
                    s.group_by@[k],
                    #[trigger] group_by[k],
                    s.projection@,
                    row,
                    cat,
                    ctes,
                    rows,
                    r,
                )
            &&& schema.fields.len() == group_by.len() + aggregates.len()
            &&& forall|k: int|
                0 <= k < group_by.len() ==> (#[trigger] schema.fields[k]).data_type
                    == query::scalar_type(group_by[k])
            &&& forall|k: int|
                0 <= k < aggregates.len() ==> (#[trigger] aggregates[k]).data_type
                    == schema.fields[group_by.len() + k].data_type
        },
{
    if let Ok(row) = aggregate::binding_schema(query::query_schema(p), entries) {
        groups_follow(s.group_by@, 0, Seq::empty(), s.projection@, row, cat, ctes, rows, r);
    }
}

/// The row against which names are bound has the columns of a row, with their
/// types. A column that is offered has its qualifier before its name.
pub proof fn bound_rows_are_qualified(row: SchemaView, entries: Seq<ScopeEntryView>)
    ensures
        aggregate::binding_schema(row, entries) matches Ok(made) ==> {
            &&& made.fields.len() == row.fields.len()
            &&& forall|i: int|
                0 <= i < row.fields.len() ==> {
                    &&& (#[trigger] made.fields[i]).data_type == row.fields[i].data_type
                    &&& made.fields[i].nullable == row.fields[i].nullable
                    &&& made.fields[i].name == row.fields[i].name || exists|k: int|
                        {
                            &&& 0 <= k < entries.len()
                            &&& (#[trigger] entries[k]).field_index == i
                            &&& made.fields[i].name == entries[k].qualifier + "."@
                                + entries[k].field.name
                        }
                    &&& (exists|k: int|
                        0 <= k < entries.len() && (#[trigger] entries[k]).field_index == i)
                        ==> exists|k: int|
                        {
                            &&& 0 <= k < entries.len()
                            &&& (#[trigger] entries[k]).field_index == i
                            &&& made.fields[i].name == entries[k].qualifier + "."@
                                + entries[k].field.name
                        }
                }
        },
{
    if let Ok(made) = aggregate::binding_schema(row, entries) {
        assert forall|i: int| 0 <= i < row.fields.len() implies {
            &&& (#[trigger] made.fields[i]).data_type == row.fields[i].data_type
            &&& made.fields[i].nullable == row.fields[i].nullable
            &&& made.fields[i].name == row.fields[i].name || exists|k: int|
                {
                    &&& 0 <= k < entries.len()
                    &&& (#[trigger] entries[k]).field_index == i
                    &&& made.fields[i].name == entries[k].qualifier + "."@ + entries[k].field.name
                }
            &&& (exists|k: int|
                0 <= k < entries.len() && (#[trigger] entries[k]).field_index == i) ==> exists|
                k: int,
            |
                {
                    &&& 0 <= k < entries.len()
                    &&& (#[trigger] entries[k]).field_index == i
                    &&& made.fields[i].name == entries[k].qualifier + "."@ + entries[k].field.name
                }
        } by {
            entries_are_found(entries, i, 0);
            if let Some(k) = aggregate::entry_at(entries, i, 0) {
                assert(entries[k].field_index == i);
            }
        }
    }
}

proof fn entries_are_found(entries: Seq<ScopeEntryView>, place: int, from: int)
    requires
        0 <= from,
    ensures
        match aggregate::entry_at(entries, place, from) {
            Some(k) => from <= k < entries.len() && entries[k].field_index == place,
            None => forall|k: int|
                from <= k < entries.len() ==> (#[trigger] entries[k]).field_index != place,
        },
    decreases entries.len() - from,
{
    if from < entries.len() {
        entries_are_found(entries, place, from + 1);
    }
}

} // verus!
