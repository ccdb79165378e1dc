//! Aggregate functions: which names they have and what they return.
use crate::ast::{Expr, Identifier, SelectItem};
use crate::binder::names::last_part_text;
use crate::datatype;
use crate::datatype::{DataType, DataTypeView};
use crate::query::{AggregateFunc, LogicalAggregateExpr, LogicalAggregateExprView};
use crate::text::{text_eq, to_lower};
use crate::{binder, query, text};
use vstd::prelude::*;

verus! {

/// The names of the aggregate functions, in lower case.
pub open spec fn aggregate_names() -> Set<Seq<char>> {
    set![
        "count"@,
        "sum"@,
        "avg"@,
        "min"@,
        "max"@,
        "bool_and"@,
        "bool_or"@,
        "string_agg"@,
        "array_agg"@,
    ]
}

/// Whether a name is that of an aggregate function, up to case.
pub open spec fn names_aggregate(name: Seq<char>) -> bool {
    aggregate_names().contains(text::lower(name))
}

/// Whether `name` is that of an aggregate function.
pub fn is_aggregate_name(name: &str) -> (yes: bool)
    ensures
        yes == names_aggregate(name@),
{
    let folded = to_lower(name);
    let n = folded.as_str();
    text_eq(n, "count") || text_eq(n, "sum") || text_eq(n, "avg") || text_eq(n, "min") || text_eq(
        n,
        "max",
    ) || text_eq(n, "bool_and") || text_eq(n, "bool_or") || text_eq(n, "string_agg") || text_eq(
        n,
        "array_agg",
    )
}

/// The aggregate function of a name. Counting without an argument counts rows.
pub open spec fn aggregate_of(name: Seq<char>, args_empty: bool) -> Option<AggregateFunc> {
    let n = text::lower(name);
    if n == "count"@ {
        Some(
            if args_empty {
                AggregateFunc::CountStar
            } else {
                AggregateFunc::Count
            },
        )
    } else if n == "sum"@ {
        Some(AggregateFunc::Sum)
    } else if n == "avg"@ {
        Some(AggregateFunc::Avg)
    } else if n == "min"@ {
        Some(AggregateFunc::Min)
    } else if n == "max"@ {
        Some(AggregateFunc::Max)
    } else if n == "bool_and"@ {
        Some(AggregateFunc::BoolAnd)
    } else if n == "bool_or"@ {
        Some(AggregateFunc::BoolOr)
    } else if n == "string_agg"@ {
        Some(AggregateFunc::StringAgg)
    } else if n == "array_agg"@ {
        Some(AggregateFunc::ArrayAgg)
    } else {
        None
    }
}

/// The aggregate function of a name.
pub fn classify_aggregate(name: &str, args_empty: bool) -> (func: Option<AggregateFunc>)
    ensures
        func == aggregate_of(name@, args_empty),
{
    let folded = to_lower(name);
    let n = folded.as_str();
    if text_eq(n, "count") {
        if args_empty {
            Some(AggregateFunc::CountStar)
        } else {
            Some(AggregateFunc::Count)
        }
    } else if text_eq(n, "sum") {
        Some(AggregateFunc::Sum)
    } else if text_eq(n, "avg") {
        Some(AggregateFunc::Avg)
    } else if text_eq(n, "min") {
        Some(AggregateFunc::Min)
    } else if text_eq(n, "max") {
        Some(AggregateFunc::Max)
    } else if text_eq(n, "bool_and") {
        Some(AggregateFunc::BoolAnd)
    } else if text_eq(n, "bool_or") {
        Some(AggregateFunc::BoolOr)
    } else if text_eq(n, "string_agg") {
        Some(AggregateFunc::StringAgg)
    } else if text_eq(n, "array_agg") {
        Some(AggregateFunc::ArrayAgg)
    } else {
        None
    }
}

/// A name has an aggregate function exactly when it names one.
pub proof fn aggregate_names_are_classified(name: Seq<char>, args_empty: bool)
    ensures
        names_aggregate(name) <==> aggregate_of(name, args_empty) is Some,
{
}

/// The type that an aggregate returns. Sums of integers are 64 bits wide, sums
/// of floats and all averages are doubles.
pub open spec fn aggregate_type(func: AggregateFunc, arg: DataTypeView) -> DataTypeView {
    match func {
        AggregateFunc::CountStar | AggregateFunc::Count => DataTypeView::Int64,
        AggregateFunc::Sum => if datatype::integral(arg) {
            DataTypeView::Int64
        } else if arg is Float32 || arg is Float64 {
            DataTypeView::Float64
        } else if datatype::numeric(arg) {
            arg
        } else {
            DataTypeView::Null
        },
        AggregateFunc::Avg => DataTypeView::Float64,
        AggregateFunc::Min | AggregateFunc::Max => arg,
        AggregateFunc::BoolAnd | AggregateFunc::BoolOr => DataTypeView::Bool,
        AggregateFunc::StringAgg => DataTypeView::Text { max_len: None },
        AggregateFunc::ArrayAgg => DataTypeView::Array(Box::new(arg)),
        _ => DataTypeView::Null,
    }
}

/// The type that an aggregate returns.
pub fn aggregate_return_type(func: AggregateFunc, arg_type: DataType) -> (t: DataType)
    ensures
        t@ == aggregate_type(func, arg_type@),
{
    match func {
        AggregateFunc::CountStar | AggregateFunc::Count => DataType::Int64,
        AggregateFunc::Sum => {
            if arg_type.is_integer() {
                DataType::Int64
            } else if matches!(arg_type, DataType::Float32 | DataType::Float64) {
                DataType::Float64
            } else if arg_type.is_numeric() {
                arg_type
            } else {
                DataType::Null
            }
        },
        AggregateFunc::Avg => DataType::Float64,
        AggregateFunc::Min | AggregateFunc::Max => arg_type,
        AggregateFunc::BoolAnd | AggregateFunc::BoolOr => DataType::Bool,
        AggregateFunc::StringAgg => DataType::Text { max_len: None },
        AggregateFunc::ArrayAgg => DataType::Array(Box::new(arg_type)),
        _ => DataType::Null,
    }
}

/// Whether an aggregate call occurs anywhere in an expression, outside of its
/// subqueries. Forms that cannot be bound do not count.
pub open spec fn has_aggregate(e: Expr) -> bool
    decreases e,
{
    match e {
        Expr::Call { name, .. } => names_aggregate(binder::names::last_part(name)),
        Expr::Unary { expr, .. } => has_aggregate(*expr),
        Expr::Paren { expr } => has_aggregate(*expr),
        Expr::IsNull { expr, .. } => has_aggregate(*expr),
        Expr::Binary { left, right, .. } => has_aggregate(*left) || has_aggregate(*right),
        Expr::Between { expr, low, high, .. } => has_aggregate(*expr) || has_aggregate(*low)
            || has_aggregate(*high),
        Expr::InSubquery { expr, .. } => has_aggregate(*expr),
        Expr::Any { expr, .. } => has_aggregate(*expr),
        _ => false,
    }
}

/// Whether an aggregate call occurs in an expression.
pub fn expr_has_aggregate(e: &Expr) -> (yes: bool)
    ensures
        yes == has_aggregate(*e),
    decreases e,
{
    match e {
        Expr::Call { name, .. } => {
            let last = last_part_text(name);
            is_aggregate_name(last.as_str())
        },
        Expr::Unary { expr, .. } => expr_has_aggregate(expr),
        Expr::Paren { expr } => expr_has_aggregate(expr),
        Expr::IsNull { expr, .. } => expr_has_aggregate(expr),
        Expr::Binary { left, right, .. } => expr_has_aggregate(left) || expr_has_aggregate(right),
        Expr::Between { expr, low, high, .. } => expr_has_aggregate(expr) || expr_has_aggregate(low)
            || expr_has_aggregate(high),
        Expr::InSubquery { expr, .. } => expr_has_aggregate(expr),
        Expr::Any { expr, .. } => expr_has_aggregate(expr),
        _ => false,
    }
}

/// Whether an aggregate call occurs in a projection item.
pub open spec fn item_has_aggregate(item: SelectItem) -> bool {
    match item {
        SelectItem::Expr { expr, .. } => has_aggregate(expr),
        _ => false,
    }
}

/// Whether an aggregate call occurs in a projection item.
pub fn projection_item_has_aggregate(item: &SelectItem) -> (yes: bool)
    ensures
        yes == item_has_aggregate(*item),
{
    match item {
        SelectItem::Expr { expr, .. } => expr_has_aggregate(expr),
        _ => false,
    }
}

/// Whether an aggregate call occurs in a projection.
pub open spec fn any_item_has_aggregate(items: Seq<SelectItem>) -> bool {
    exists|i: int| 0 <= i < items.len() && item_has_aggregate(#[trigger] items[i])
}

/// Whether an aggregate call occurs in a projection.
pub fn projection_has_aggregate(items: &Vec<SelectItem>) -> (yes: bool)
    ensures
        yes == any_item_has_aggregate(items@),
{
    let mut i: usize = 0;
    while i < items.len()
        invariant
            i <= items.len(),
            forall|j: int| 0 <= j < i ==> !item_has_aggregate(#[trigger] items@[j]),
        decreases items.len() - i,
    {
        if projection_item_has_aggregate(&items[i]) {
            return true;
        }
        i = i + 1;
    }
    false
}

/// Whether a call has the single argument `*`.
pub open spec fn star_argument(args: Seq<Expr>) -> bool {
    args.len() == 1 && match args[0] {
        Expr::Column { name } => name.parts@.len() == 1 && name.parts@[0].value@ == "*"@,
        _ => false,
    }
}

/// Whether a call has the single argument `*`.
pub fn is_star_argument(args: &Vec<Expr>) -> (yes: bool)
    ensures
        yes == star_argument(args@),
{
    if args.len() != 1 {
        return false;
    }
    match &args[0] {
        Expr::Column { name } => name.parts.len() == 1 && text_eq(name.parts[0].value.as_str(), "*"),
        _ => false,
    }
}

/// Whether one of the aggregates has the given function and output name.
pub open spec fn already_collected(
    aggs: Seq<LogicalAggregateExprView>,
    func: AggregateFunc,
    name: Seq<char>,
) -> bool {
    exists|i: int|
        0 <= i < aggs.len() && (#[trigger] aggs[i]).output_name == name && aggs[i].func == func
}

/// Whether one of the aggregates has the given function and output name.
pub fn is_collected(
    aggs: &Vec<LogicalAggregateExpr>,
    func: AggregateFunc,
    name: &str,
) -> (yes: bool)
    ensures
        yes == already_collected(query::aggregate_exprs_view(aggs@), func, name@),
{
    let mut i: usize = 0;
    while i < aggs.len()
        invariant
            i <= aggs.len(),
            forall|j: int|
                0 <= j < i ==> !((#[trigger] query::aggregate_exprs_view(aggs@)[j]).output_name
                    == name@ && query::aggregate_exprs_view(aggs@)[j].func == func),
        decreases aggs.len() - i,
    {
        if text_eq(aggs[i].output_name.as_str(), name) && aggs[i].func == func {
            assert(query::aggregate_exprs_view(aggs@)[i as int].output_name == name@);
            return true;
        }
        i = i + 1;
    }
    false
}

/// The first place, from `i` on, of an aggregate with the given function and
/// output name.
pub open spec fn call_place(
    aggs: Seq<LogicalAggregateExprView>,
    func: AggregateFunc,
    name: Seq<char>,
    i: int,
) -> Option<int>
    decreases aggs.len() - i,
{
    if i < 0 || i >= aggs.len() {
        None
    } else if aggs[i].func == func && aggs[i].output_name == name {
        Some(i)
    } else {
        call_place(aggs, func, name, i + 1)
    }
}

/// Finds the first aggregate with the given function and output name.
pub fn find_call(aggs: &Vec<LogicalAggregateExpr>, func: AggregateFunc, name: &str) -> (at: Option<
    usize,
>)
    ensures
        (match at {
            Some(k) => Some(k as int),
            None => None,
        }) == call_place(query::aggregate_exprs_view(aggs@), func, name@, 0),
        at matches Some(k) ==> k < aggs.len(),
{
    let ghost v = query::aggregate_exprs_view(aggs@);
    let mut i: usize = 0;
    while i < aggs.len()
        invariant
            i <= aggs.len(),
            v == query::aggregate_exprs_view(aggs@),
            call_place(v, func, name@, i as int) == call_place(v, func, name@, 0),
        decreases aggs.len() - i,
    {
        assert(v[i as int] == aggs@[i as int]@);
        if aggs[i].func == func && text_eq(aggs[i].output_name.as_str(), name) {
            return Some(i);
        }
        i = i + 1;
    }
    None
}

/// Whether no two aggregates have the same function and output name.
pub open spec fn distinct_calls(aggs: Seq<LogicalAggregateExprView>) -> bool {
    forall|i: int, j: int|
        #![trigger aggs[i], aggs[j]]
        0 <= i < j < aggs.len() ==> !(aggs[i].output_name == aggs[j].output_name && aggs[i].func
            == aggs[j].func)
}

/// Whether aggregates continue others: the others come first and unchanged, and
/// no function and output name comes twice unless it does among the others.
pub open spec fn continues(
    before: Seq<LogicalAggregateExprView>,
    after: Seq<LogicalAggregateExprView>,
) -> bool {
    &&& before.len() <= after.len()
    &&& after.take(before.len() as int) == before
    &&& distinct_calls(before) ==> distinct_calls(after)
}

/// Whether a list of aggregates has grown: what it held before comes first and
/// unchanged, and no function and output name comes twice unless it did before.
pub open spec fn grown(
    before: Seq<LogicalAggregateExpr>,
    after: Seq<LogicalAggregateExpr>,
) -> bool {
    &&& before.len() <= after.len()
    &&& after.take(before.len() as int) == before
    &&& continues(query::aggregate_exprs_view(before), query::aggregate_exprs_view(after))
}

/// Aggregates continue themselves.
pub proof fn lemma_continues_itself(aggs: Seq<LogicalAggregateExprView>)
    ensures
        continues(aggs, aggs),
{
    assert(aggs.take(aggs.len() as int) =~= aggs);
}

/// What continues a continuation of aggregates continues them.
pub proof fn lemma_continues_on(
    a: Seq<LogicalAggregateExprView>,
    b: Seq<LogicalAggregateExprView>,
    c: Seq<LogicalAggregateExprView>,
)
    requires
        continues(a, b),
        continues(b, c),
    ensures
        continues(a, c),
{
    assert(c.take(a.len() as int) =~= c.take(b.len() as int).take(a.len() as int));
}

/// An aggregate that is not among others continues them.
pub proof fn lemma_continues_with(
    aggs: Seq<LogicalAggregateExprView>,
    more: LogicalAggregateExprView,
)
    requires
        !already_collected(aggs, more.func, more.output_name),
    ensures
        continues(aggs, aggs.push(more)),
{
    assert(aggs.push(more).take(aggs.len() as int) =~= aggs);
}

/// A list has grown from itself.
pub broadcast proof fn lemma_grown_itself(a: Seq<LogicalAggregateExpr>)
    ensures
        #[trigger] grown(a, a),
{
    assert(a.take(a.len() as int) =~= a);
    lemma_continues_itself(query::aggregate_exprs_view(a));
}

/// A list that has grown twice has grown.
pub broadcast proof fn lemma_grown_on(
    a: Seq<LogicalAggregateExpr>,
    b: Seq<LogicalAggregateExpr>,
    c: Seq<LogicalAggregateExpr>,
)
    requires
        #[trigger] grown(a, b),
        #[trigger] grown(b, c),
    ensures
        grown(a, c),
{
    assert(c.take(a.len() as int) =~= c.take(b.len() as int).take(a.len() as int));
    lemma_continues_on(
        query::aggregate_exprs_view(a),
        query::aggregate_exprs_view(b),
        query::aggregate_exprs_view(c),
    );
}

/// A list grows by an aggregate that is not in it.
pub proof fn lemma_grown_with(a: Seq<LogicalAggregateExpr>, more: LogicalAggregateExpr)
    requires
        !already_collected(query::aggregate_exprs_view(a), more.func, more.output_name@),
    ensures
        grown(a, a.push(more)),
        query::aggregate_exprs_view(a.push(more)) == query::aggregate_exprs_view(a).push(more@),
{
    query::lemma_aggregate_exprs_push(a, more);
    assert(a.push(more).take(a.len() as int) =~= a);
    lemma_continues_with(query::aggregate_exprs_view(a), more@);
}

/// The name under which an aggregate is collected: its alias, else its function.
pub open spec fn collected_name(func_name: Seq<char>, alias: Option<Identifier>) -> Seq<char> {
    match alias {
        Some(a) => a.value@,
        None => func_name,
    }
}

/// Sums of integers are 64 bits wide, sums of floats and all averages are
/// doubles, and counts are 64 bits wide whatever they count.
pub proof fn sums_and_averages_widen(arg: DataTypeView)
    ensures
        datatype::integral(arg) ==> aggregate_type(AggregateFunc::Sum, arg) is Int64,
        arg is Float32 || arg is Float64 ==> aggregate_type(AggregateFunc::Sum, arg) is Float64,
        aggregate_type(AggregateFunc::Avg, arg) is Float64,
        aggregate_type(AggregateFunc::Count, arg) is Int64,
        aggregate_type(AggregateFunc::CountStar, arg) is Int64,
{
}

} // verus!
