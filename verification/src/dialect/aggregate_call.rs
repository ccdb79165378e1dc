//! Which calls are aggregate calls, what they are named and what they answer.
use crate::ast::{Expr, OrderItem, SelectItem};
use crate::ast_alike;
use crate::ast_text;
use crate::ast_text::{join_exprs, join_order_items};
use crate::binder::aggregate::is_star_argument;
use crate::binder::names::last_part_text;
use crate::binder::{aggregate, names};
use crate::datatype;
use crate::datatype::{DataType, DataTypeView};
use crate::query::AggregateFunc;
use crate::text;
use crate::text::{cat2, owned, text_eq, to_lower};
use vstd::prelude::*;

verus! {

/// The aggregate functions of statistics, by name in lower case.
pub open spec fn statistic_of(n: Seq<char>) -> Option<AggregateFunc> {
    if n == "json_agg"@ {
        Some(AggregateFunc::JsonAgg)
    } else if n == "stddev"@ || n == "stddev_samp"@ {
        Some(AggregateFunc::StddevSamp)
    } else if n == "stddev_pop"@ {
        Some(AggregateFunc::StddevPop)
    } else if n == "variance"@ || n == "var_samp"@ {
        Some(AggregateFunc::VarSamp)
    } else if n == "var_pop"@ {
        Some(AggregateFunc::VarPop)
    } else if n == "corr"@ {
        Some(AggregateFunc::Corr)
    } else if n == "percentile_cont"@ {
        Some(AggregateFunc::PercentileCont)
    } else if n == "percentile_disc"@ {
        Some(AggregateFunc::PercentileDisc)
    } else {
        None
    }
}

fn find_statistic(n: &str) -> (func: Option<AggregateFunc>)
    ensures
        func == statistic_of(n@),
{
    if text_eq(n, "json_agg") {
        Some(AggregateFunc::JsonAgg)
    } else if text_eq(n, "stddev") || text_eq(n, "stddev_samp") {
        Some(AggregateFunc::StddevSamp)
    } else if text_eq(n, "stddev_pop") {
        Some(AggregateFunc::StddevPop)
    } else if text_eq(n, "variance") || text_eq(n, "var_samp") {
        Some(AggregateFunc::VarSamp)
    } else if text_eq(n, "var_pop") {
        Some(AggregateFunc::VarPop)
    } else if text_eq(n, "corr") {
        Some(AggregateFunc::Corr)
    } else if text_eq(n, "percentile_cont") {
        Some(AggregateFunc::PercentileCont)
    } else if text_eq(n, "percentile_disc") {
        Some(AggregateFunc::PercentileDisc)
    } else {
        None
    }
}

/// Whether a name is that of an aggregate function, up to case.
pub open spec fn names_aggregate(name: Seq<char>) -> bool {
    aggregate::names_aggregate(name) || statistic_of(text::lower(name)) is Some
}

/// Whether `name` is that of an aggregate function.
pub fn is_aggregate_name(name: &str) -> (yes: bool)
    ensures
        yes == names_aggregate(name@),
{
    aggregate::is_aggregate_name(name) || find_statistic(to_lower(name).as_str()).is_some()
}

/// The aggregate function of a name. Counting without an argument counts rows;
/// `stddev` and `variance` are those of a sample.
pub open spec fn aggregate_of(name: Seq<char>, args_empty: bool) -> Option<AggregateFunc> {
    match aggregate::aggregate_of(name, args_empty) {
        Some(f) => Some(f),
        None => statistic_of(text::lower(name)),
    }
}

/// Finds the aggregate function of a name.
pub fn classify_aggregate(name: &str, args_empty: bool) -> (func: Option<AggregateFunc>)
    ensures
        func == aggregate_of(name@, args_empty),
{
    match aggregate::classify_aggregate(name, args_empty) {
        Some(f) => Some(f),
        None => find_statistic(to_lower(name).as_str()),
    }
}

/// Every name of an aggregate function has its function, and no other name has
/// one.
pub proof fn aggregate_names_are_classified(name: Seq<char>, args_empty: bool)
    ensures
        aggregate_of(name, args_empty) is Some <==> names_aggregate(name),
{
    aggregate::aggregate_names_are_classified(name, args_empty);
}

/// The type that an aggregate function answers.
pub open spec fn aggregate_type(func: AggregateFunc, arg: DataTypeView) -> DataTypeView {
    match func {
        AggregateFunc::CountStar => DataTypeView::Int64,
        AggregateFunc::Count => DataTypeView::Int64,
        AggregateFunc::Sum => if datatype::integral(arg) {
            DataTypeView::Int64
        } else if arg is Float32 || arg is Float64 {
            DataTypeView::Float64
        } else if arg is Vector || arg is HalfVec || datatype::numeric(arg) {
            arg
        } else {
            DataTypeView::Null
        },
        AggregateFunc::Avg => if datatype::numeric(arg) {
            DataTypeView::Float64
        } else if arg is Vector || arg is HalfVec {
            arg
        } else {
            DataTypeView::Null
        },
        AggregateFunc::Min => arg,
        AggregateFunc::Max => arg,
        AggregateFunc::BoolAnd => DataTypeView::Bool,
        AggregateFunc::BoolOr => DataTypeView::Bool,
        AggregateFunc::StringAgg => DataTypeView::Text { max_len: None },
        AggregateFunc::ArrayAgg => DataTypeView::Array(Box::new(arg)),
        AggregateFunc::JsonAgg => DataTypeView::Jsonb,
        AggregateFunc::PercentileDisc => arg,
        _ => DataTypeView::Float64,
    }
}

/// Finds the type that an aggregate function answers.
pub fn aggregate_return_type(func: AggregateFunc, arg_type: DataType) -> (t: DataType)
    ensures
        t@ == aggregate_type(func, arg_type@),
{
    match func {
        AggregateFunc::CountStar => DataType::Int64,
        AggregateFunc::Count => DataType::Int64,
        AggregateFunc::Sum => if arg_type.is_integer() {
            DataType::Int64
        } else if matches!(arg_type, DataType::Float32 | DataType::Float64) {
            DataType::Float64
        } else if matches!(arg_type, DataType::Vector { .. } | DataType::HalfVec { .. })
            || arg_type.is_numeric() {
            arg_type
        } else {
            DataType::Null
        },
        AggregateFunc::Avg => if arg_type.is_numeric() {
            DataType::Float64
        } else if matches!(arg_type, DataType::Vector { .. } | DataType::HalfVec { .. }) {
            arg_type
        } else {
            DataType::Null
        },
        AggregateFunc::Min => arg_type,
        AggregateFunc::Max => arg_type,
        AggregateFunc::BoolAnd => DataType::Bool,
        AggregateFunc::BoolOr => DataType::Bool,
        AggregateFunc::StringAgg => DataType::Text { max_len: None },
        AggregateFunc::ArrayAgg => DataType::Array(Box::new(arg_type)),
        AggregateFunc::JsonAgg => DataType::Jsonb,
        AggregateFunc::PercentileDisc => arg_type,
        _ => DataType::Float64,
    }
}

/// Whether a call of `min` or `max` compares its arguments within one row.
pub open spec fn scalar_min_max(
    name: Seq<char>,
    args: nat,
    distinct: bool,
    within_group: bool,
    over: bool,
) -> bool {
    (text::lower(name) == "min"@ || text::lower(name) == "max"@) && args > 1 && !distinct
        && !within_group && !over
}

/// Tells whether a call of `min` or `max` compares its arguments within one row.
pub fn is_scalar_min_max_call(
    func_name: &str,
    arg_count: usize,
    distinct: bool,
    has_within_group: bool,
    has_over: bool,
) -> (yes: bool)
    ensures
        yes == scalar_min_max(
            func_name@,
            arg_count as nat,
            distinct,
            has_within_group,
            has_over,
        ),
{
    let folded = to_lower(func_name);
    (text_eq(folded.as_str(), "min") || text_eq(folded.as_str(), "max")) && arg_count > 1
        && !distinct && !has_within_group && !has_over
}

/// The sort keys of a call, where it has any.
pub open spec fn keys_of(within_group: Option<Vec<OrderItem>>) -> Option<Seq<OrderItem>> {
    match within_group {
        Some(items) => Some(items@),
        None => None,
    }
}

/// The name of the column of an aggregate call: the function alone where it
/// counts rows, and otherwise the function with the texts of its arguments and
/// sort keys, with commas between them.
pub open spec fn agg_output_name(
    func: Seq<char>,
    args: Seq<Expr>,
    within_group: Option<Seq<OrderItem>>,
) -> Seq<char> {
    if args.len() == 0 || aggregate::star_argument(args) {
        func
    } else {
        let keys = match within_group {
            None => Seq::empty(),
            Some(items) => " within group ("@ + ast_text::order_items_joined(items, 0, ")"@),
        };
        func + ("("@ + ast_text::exprs_joined(args, 0, ")"@ + keys))
    }
}

/// Finds the name of the column of an aggregate call.
pub fn derive_agg_output_name(
    func_name: &str,
    args: &Vec<Expr>,
    within_group: &Option<Vec<OrderItem>>,
) -> (out: String)
    ensures
        out@ == agg_output_name(func_name@, args@, keys_of(*within_group)),
{
    if args.len() == 0 || is_star_argument(args) {
        return owned(func_name);
    }
    let keys = match within_group {
        None => String::new(),
        Some(items) => cat2(" within group (", join_order_items(items, owned(")")).as_str()),
    };
    let args = join_exprs(args, cat2(")", keys.as_str()));
    cat2(func_name, cat2("(", args.as_str()).as_str())
}

/// Whether two calls have sort keys that are alike, or none.
pub open spec fn same_keys(x: Option<Seq<OrderItem>>, y: Option<Seq<OrderItem>>) -> bool {
    match (x, y) {
        (Some(a), Some(b)) => ast_alike::same_order_item_list(a, b),
        (None, None) => true,
        _ => false,
    }
}

/// Aggregate calls whose columns have one name are calls of one function, and
/// their arguments and sort keys are alike unless both count rows.
pub proof fn equal_names_are_equal_calls(
    f: Seq<char>,
    x: Seq<Expr>,
    x_keys: Option<Seq<OrderItem>>,
    g: Seq<char>,
    y: Seq<Expr>,
    y_keys: Option<Seq<OrderItem>>,
)
    requires
        ast_alike::word(f),
        ast_alike::word(g),
        agg_output_name(f, x, x_keys) == agg_output_name(g, y, y_keys),
    ensures
        f == g,
        (x.len() == 0 || aggregate::star_argument(x)) == (y.len() == 0 || aggregate::star_argument(
            y,
        )),
        !(x.len() == 0 || aggregate::star_argument(x)) ==> ast_alike::same_expr_list(x, y)
            && same_keys(x_keys, y_keys),
{
    reveal_strlit("(");
    reveal_strlit(")");
    reveal_strlit(" within group (");
    let x_bare = x.len() == 0 || aggregate::star_argument(x);
    let y_bare = y.len() == 0 || aggregate::star_argument(y);
    let s = match x_keys {
        None => Seq::empty(),
        Some(items) => " within group ("@ + ast_text::order_items_joined(items, 0, ")"@),
    };
    let t = match y_keys {
        None => Seq::empty(),
        Some(items) => " within group ("@ + ast_text::order_items_joined(items, 0, ")"@),
    };
    let u = if x_bare {
        Seq::empty()
    } else {
        "("@ + ast_text::exprs_joined(x, 0, ")"@ + s)
    };
    let v = if y_bare {
        Seq::empty()
    } else {
        "("@ + ast_text::exprs_joined(y, 0, ")"@ + t)
    };
    assert(f + u =~= agg_output_name(f, x, x_keys));
    assert(g + v =~= agg_output_name(g, y, y_keys));
    ast_alike::words_split(f, u, g, v);
    if !x_bare {
        ast_alike::cancel(
            "("@,
            ast_text::exprs_joined(x, 0, ")"@ + s),
            ast_text::exprs_joined(y, 0, ")"@ + t),
        );
        ast_alike::equal_exprs_are_alike(x, y, s, t);
        if let (Some(a), Some(b)) = (x_keys, y_keys) {
            ast_alike::cancel(
                " within group ("@,
                ast_text::order_items_joined(a, 0, ")"@),
                ast_text::order_items_joined(b, 0, ")"@),
            );
            assert(")"@ + Seq::<char>::empty() =~= ")"@);
            ast_alike::equal_order_items_are_alike(a, b, Seq::empty(), Seq::empty());
        }
    }
}

/// Whether an expression calls an aggregate function.
pub open spec fn has_aggregate(e: Expr) -> bool
    decreases e, 0int,
{
    match e {
        Expr::Call { name, args, distinct, within_group, over } => {
            let func = names::last_part(name);
            ||| names_aggregate(func) && !scalar_min_max(
                func,
                args@.len(),
                distinct,
                within_group is Some,
                over is Some,
            )
            ||| any_has_aggregate(args@, args@.len() as int)
        },
        Expr::Unary { expr, .. } => has_aggregate(*expr),
        Expr::Paren { expr } => has_aggregate(*expr),
        Expr::IsNull { expr, .. } => has_aggregate(*expr),
        Expr::Collate { expr, .. } => has_aggregate(*expr),
        Expr::Coalesce { args } => any_has_aggregate(args@, args@.len() as int),
        Expr::Greatest { args } => any_has_aggregate(args@, args@.len() as int),
        Expr::Least { args } => any_has_aggregate(args@, args@.len() as int),
        Expr::NullIf { a, b } => has_aggregate(*a) || has_aggregate(*b),
        Expr::Binary { left, right, .. } => has_aggregate(*left) || has_aggregate(*right),
        _ => false,
    }
}

/// Whether one of the first `n` expressions calls an aggregate function.
pub open spec fn any_has_aggregate(s: Seq<Expr>, n: int) -> bool
    decreases s, n,
{
    if n <= 0 || n > s.len() {
        false
    } else {
        has_aggregate(s[n - 1]) || any_has_aggregate(s, n - 1)
    }
}

fn find_aggregate(list: &Vec<Expr>) -> (yes: bool)
    ensures
        yes == any_has_aggregate(list@, list@.len() as int),
    decreases list, 1int,
{
    let mut found = false;
    let mut i: usize = 0;
    while i < list.len()
        invariant
            i <= list.len(),
            found == any_has_aggregate(list@, i as int),
        decreases list.len() - i,
    {
        let here = expr_has_aggregate(&list[i]);
        found = found || here;
        i = i + 1;
    }
    found
}

/// Tells whether an expression calls an aggregate function.
pub fn expr_has_aggregate(e: &Expr) -> (yes: bool)
    ensures
        yes == has_aggregate(*e),
    decreases e, 0int,
{
    match e {
        Expr::Call { name, args, distinct, within_group, over } => {
            let func = last_part_text(name);
            let own = is_aggregate_name(func.as_str()) && !is_scalar_min_max_call(
                func.as_str(),
                args.len(),
                *distinct,
                within_group.is_some(),
                over.is_some(),
            );
            own || find_aggregate(args)
        },
        Expr::Unary { expr, .. } => expr_has_aggregate(expr),
        Expr::Paren { expr } => expr_has_aggregate(expr),
        Expr::IsNull { expr, .. } => expr_has_aggregate(expr),
        Expr::Collate { expr, .. } => expr_has_aggregate(expr),
        Expr::Coalesce { args } => find_aggregate(args),
        Expr::Greatest { args } => find_aggregate(args),
        Expr::Least { args } => find_aggregate(args),
        Expr::NullIf { a, b } => expr_has_aggregate(a) || expr_has_aggregate(b),
        Expr::Binary { left, right, .. } => expr_has_aggregate(left) || expr_has_aggregate(right),
        _ => false,
    }
}

/// Tells whether an item of a projection calls an aggregate function.
pub fn projection_item_has_aggregate(item: &SelectItem) -> (yes: bool)
    ensures
        yes == (match *item {
            SelectItem::Expr { expr, .. } => has_aggregate(expr),
            _ => false,
        }),
{
    match item {
        SelectItem::Expr { expr, .. } => expr_has_aggregate(expr),
        _ => false,
    }
}

} // verus!
