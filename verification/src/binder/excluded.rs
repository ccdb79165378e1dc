//! References to the row proposed for insertion, which goes by the name
//! `excluded`.
use crate::ast::{
    CteDef, Distinct, Expr, JoinCondition, OrderItem, SelectItem, SelectStmt, SetOpTail, TableRef,
};
use crate::binder::names;
use crate::text;
use vstd::prelude::*;

verus! {

/// Whether an expression refers to the row proposed for insertion. A subquery
/// whose `FROM` list offers an item of that name refers to that item instead.
pub open spec fn refers(e: Expr) -> bool
    decreases e, 0int,
{
    match e {
        Expr::Column { name } => names::explicit_namespace_of(name) == Some("excluded"@),
        Expr::Paren { expr } => refers(*expr),
        Expr::Unary { expr, .. } => refers(*expr),
        Expr::Binary { left, right, .. } => refers(*left) || refers(*right),
        Expr::IsNull { expr, .. } => refers(*expr),
        Expr::Call { args, within_group, over, .. } => {
            ||| any_names(args@)
            ||| (match within_group {
                Some(y) => any_key_names(y@),
                None => false,
            })
            ||| (match over {
                Some(y) => any_names(y.partition_by@) || any_key_names(y.order_by@),
                None => false,
            })
        },
        Expr::Cast { expr, .. } => refers(*expr),
        Expr::PostfixCast { expr, .. } => refers(*expr),
        Expr::Subquery { select } => query_names(*select),
        Expr::Exists { select, .. } => query_names(*select),
        Expr::InSubquery { expr, select, .. } => refers(*expr) || query_names(*select),
        Expr::Any { expr, select, .. } => refers(*expr) || query_names(*select),
        Expr::AnyArray { expr, array, .. } => refers(*expr) || refers(*array),
        Expr::All { expr, select, .. } => refers(*expr) || query_names(*select),
        Expr::Between { expr, low, high, .. } => refers(*expr) || refers(*low) || refers(*high),
        Expr::InList { expr, items, .. } => refers(*expr) || any_names(items@),
        Expr::Case { operand, branches, else_expr } => {
            ||| (match operand {
                Some(y) => refers(*y),
                None => false,
            })
            ||| any_branch_names(branches@)
            ||| (match else_expr {
                Some(y) => refers(*y),
                None => false,
            })
        },
        Expr::Coalesce { args } => any_names(args@),
        Expr::NullIf { a, b } => refers(*a) || refers(*b),
        Expr::Greatest { args } => any_names(args@),
        Expr::Least { args } => any_names(args@),
        Expr::IsBoolean { expr, .. } => refers(*expr),
        Expr::IsDistinctFrom { left, right, .. } => refers(*left) || refers(*right),
        Expr::Row { fields } => any_names(fields@),
        Expr::ArrayLiteral { elements } => any_names(elements@),
        Expr::ArraySubscript { expr, index } => refers(*expr) || refers(*index),
        Expr::ArraySlice { expr, lower, upper } => {
            ||| refers(*expr)
            ||| (match lower {
                Some(y) => refers(*y),
                None => false,
            })
            ||| (match upper {
                Some(y) => refers(*y),
                None => false,
            })
        },
        Expr::Collate { expr, .. } => refers(*expr),
        Expr::AtTimeZone { expr, zone } => refers(*expr) || refers(*zone),
        _ => false,
    }
}

/// Whether one of the expressions does.
pub open spec fn any_names(s: Seq<Expr>) -> bool
    decreases s, 1int,
{
    exists|i: int| 0 <= i < s.len() && refers(#[trigger] s[i])
}

/// Whether one of the sort keys does.
pub open spec fn any_key_names(s: Seq<OrderItem>) -> bool
    decreases s, 1int,
{
    exists|i: int| 0 <= i < s.len() && refers((#[trigger] s[i]).expr)
}

/// Whether one of the branches does.
pub open spec fn any_branch_names(s: Seq<(Expr, Expr)>) -> bool
    decreases s, 1int,
{
    exists|i: int| 0 <= i < s.len() && (refers((#[trigger] s[i]).0) || refers(s[i].1))
}

/// Whether one of the items of a projection does.
pub open spec fn any_item_names(s: Seq<SelectItem>) -> bool
    decreases s, 1int,
{
    exists|i: int| 0 <= i < s.len() && item_names(#[trigger] s[i])
}

/// Whether a subquery of one of the `FROM` items does.
pub open spec fn any_source_names(s: Seq<TableRef>) -> bool
    decreases s, 1int,
{
    exists|i: int| 0 <= i < s.len() && source_names(#[trigger] s[i])
}

/// Whether a join condition of one of the `FROM` items does.
pub open spec fn any_condition_names(s: Seq<TableRef>) -> bool
    decreases s, 1int,
{
    exists|i: int| 0 <= i < s.len() && condition_names(#[trigger] s[i])
}

/// Whether one of the common table expressions does.
pub open spec fn any_cte_names(s: Seq<CteDef>) -> bool
    decreases s, 1int,
{
    exists|i: int| 0 <= i < s.len() && query_names(*(#[trigger] s[i]).query)
}

/// Whether the right-hand query of one of the set operations does.
pub open spec fn any_tail_names(s: Seq<SetOpTail>) -> bool
    decreases s, 1int,
{
    exists|i: int| 0 <= i < s.len() && query_names(*(#[trigger] s[i]).right)
}

/// Whether an item of a projection does.
pub open spec fn item_names(x: SelectItem) -> bool
    decreases x, 0int,
{
    match x {
        SelectItem::Expr { expr, .. } => refers(expr),
        _ => false,
    }
}

/// Whether a subquery of a `FROM` item does.
pub open spec fn source_names(t: TableRef) -> bool
    decreases t, 0int,
{
    match t {
        TableRef::Named { .. } => false,
        TableRef::Subquery { select, .. } => query_names(*select),
        TableRef::Join { left, right, .. } => source_names(*left) || source_names(*right),
    }
}

/// Whether a join condition of a `FROM` item does.
pub open spec fn condition_names(t: TableRef) -> bool
    decreases t, 0int,
{
    match t {
        TableRef::Join { left, right, condition, .. } => {
            ||| condition_names(*left)
            ||| condition_names(*right)
            ||| (match condition {
                JoinCondition::On(e) => refers(e),
                _ => false,
            })
        },
        _ => false,
    }
}

/// Whether a `FROM` item is called `excluded`.
pub open spec fn offers(t: TableRef) -> bool
    decreases t,
{
    match t {
        TableRef::Named { name, alias } => text::same_fold(
            match alias {
                Some(a) => a.value@,
                None => names::simple_name(name),
            },
            "excluded"@,
        ),
        TableRef::Subquery { alias, .. } => text::same_fold(alias.value@, "excluded"@),
        TableRef::Join { left, right, .. } => offers(*left) || offers(*right),
    }
}

/// Whether one of the `FROM` items is called `excluded`.
pub open spec fn any_offers(s: Seq<TableRef>) -> bool {
    exists|i: int| 0 <= i < s.len() && offers(#[trigger] s[i])
}

/// Whether an optional expression does.
pub open spec fn clause_names(e: Option<Expr>) -> bool
    decreases e, 1int,
{
    match e {
        Some(e) => refers(e),
        None => false,
    }
}

/// Whether a query does. Its own clauses do not where one of its `FROM` items is
/// called `excluded`.
pub open spec fn query_names(s: SelectStmt) -> bool
    decreases s, 2int,
{
    ||| any_cte_names(s.ctes@)
    ||| any_source_names(s.from@)
    ||| any_tail_names(s.set_ops@)
    ||| !any_offers(s.from@) && own_names(s)
}

/// Whether the own clauses of a query do.
pub open spec fn own_names(s: SelectStmt) -> bool
    decreases s, 1int,
{
    ||| (match s.distinct {
        Distinct::On(list) => any_names(list@),
        _ => false,
    })
    ||| any_item_names(s.projection@)
    ||| any_condition_names(s.from@)
    ||| clause_names(s.where_clause)
    ||| any_names(s.group_by@)
    ||| clause_names(s.having)
    ||| any_key_names(s.order_by@)
    ||| clause_names(s.limit)
    ||| clause_names(s.offset)
}

/// Tells whether an expression refers to the row proposed for insertion.
pub fn names_in(e: &Expr) -> (yes: bool)
    ensures
        yes == refers(*e),
    decreases e, 0int,
{
    match e {
        Expr::Column { name } => match names::object_name_explicit_namespace(name) {
            Some(q) => text::text_eq(q.as_str(), "excluded"),
            None => false,
        },
        Expr::Paren { expr } => names_in(expr),
        Expr::Unary { expr, .. } => names_in(expr),
        Expr::Binary { left, right, .. } => names_in(left) || names_in(right),
        Expr::IsNull { expr, .. } => names_in(expr),
        Expr::Call { args, within_group, over, .. } => {
            names_in_any(args)
            || (match within_group {
                Some(y) => names_in_any_key(y),
                None => false,
            })
            || (match over {
                Some(y) => names_in_any(&y.partition_by) || names_in_any_key(&y.order_by),
                None => false,
            })
        },
        Expr::Cast { expr, .. } => names_in(expr),
        Expr::PostfixCast { expr, .. } => names_in(expr),
        Expr::Subquery { select } => names_in_query(select),
        Expr::Exists { select, .. } => names_in_query(select),
        Expr::InSubquery { expr, select, .. } => names_in(expr) || names_in_query(select),
        Expr::Any { expr, select, .. } => names_in(expr) || names_in_query(select),
        Expr::AnyArray { expr, array, .. } => names_in(expr) || names_in(array),
        Expr::All { expr, select, .. } => names_in(expr) || names_in_query(select),
        Expr::Between { expr, low, high, .. } => names_in(expr) || names_in(low) || names_in(high),
        Expr::InList { expr, items, .. } => names_in(expr) || names_in_any(items),
        Expr::Case { operand, branches, else_expr } => {
            (match operand {
                Some(y) => names_in(y),
                None => false,
            })
            || names_in_any_branch(branches)
            || (match else_expr {
                Some(y) => names_in(y),
                None => false,
            })
        },
        Expr::Coalesce { args } => names_in_any(args),
        Expr::NullIf { a, b } => names_in(a) || names_in(b),
        Expr::Greatest { args } => names_in_any(args),
        Expr::Least { args } => names_in_any(args),
        Expr::IsBoolean { expr, .. } => names_in(expr),
        Expr::IsDistinctFrom { left, right, .. } => names_in(left) || names_in(right),
        Expr::Row { fields } => names_in_any(fields),
        Expr::ArrayLiteral { elements } => names_in_any(elements),
        Expr::ArraySubscript { expr, index } => names_in(expr) || names_in(index),
        Expr::ArraySlice { expr, lower, upper } => {
            names_in(expr)
            || (match lower {
                Some(y) => names_in(y),
                None => false,
            })
            || (match upper {
                Some(y) => names_in(y),
                None => false,
            })
        },
        Expr::Collate { expr, .. } => names_in(expr),
        Expr::AtTimeZone { expr, zone } => names_in(expr) || names_in(zone),
        _ => false,
    }
}

fn names_in_any(s: &Vec<Expr>) -> (yes: bool)
    ensures
        yes == any_names(s@),
    decreases s, 1int,
{
    let mut i: usize = 0;
    while i < s.len()
        invariant
            i <= s.len(),
            forall|j: int| 0 <= j < i ==> !(refers(#[trigger] s@[j])),
        decreases s.len() - i,
    {
        if names_in(&s[i]) {
            return true;
        }
        i = i + 1;
    }
    false
}

fn names_in_any_key(s: &Vec<OrderItem>) -> (yes: bool)
    ensures
        yes == any_key_names(s@),
    decreases s, 1int,
{
    let mut i: usize = 0;
    while i < s.len()
        invariant
            i <= s.len(),
            forall|j: int| 0 <= j < i ==> !(refers((#[trigger] s@[j]).expr)),
        decreases s.len() - i,
    {
        if names_in(&s[i].expr) {
            return true;
        }
        i = i + 1;
    }
    false
}

fn names_in_any_branch(s: &Vec<(Expr, Expr)>) -> (yes: bool)
    ensures
        yes == any_branch_names(s@),
    decreases s, 1int,
{
    let mut i: usize = 0;
    while i < s.len()
        invariant
            i <= s.len(),
            forall|j: int| 0 <= j < i ==> !(refers((#[trigger] s@[j]).0) || refers(s@[j].1)),
        decreases s.len() - i,
    {
        if names_in(&s[i].0) || names_in(&s[i].1) {
            return true;
        }
        i = i + 1;
    }
    false
}

fn names_in_any_item(s: &Vec<SelectItem>) -> (yes: bool)
    ensures
        yes == any_item_names(s@),
    decreases s, 1int,
{
    let mut i: usize = 0;
    while i < s.len()
        invariant
            i <= s.len(),
            forall|j: int| 0 <= j < i ==> !(item_names(#[trigger] s@[j])),
        decreases s.len() - i,
    {
        if names_in_item(&s[i]) {
            return true;
        }
        i = i + 1;
    }
    false
}

fn names_in_any_source(s: &Vec<TableRef>) -> (yes: bool)
    ensures
        yes == any_source_names(s@),
    decreases s, 1int,
{
    let mut i: usize = 0;
    while i < s.len()
        invariant
            i <= s.len(),
            forall|j: int| 0 <= j < i ==> !(source_names(#[trigger] s@[j])),
        decreases s.len() - i,
    {
        if names_in_source(&s[i]) {
            return true;
        }
        i = i + 1;
    }
    false
}

fn names_in_any_condition(s: &Vec<TableRef>) -> (yes: bool)
    ensures
        yes == any_condition_names(s@),
    decreases s, 1int,
{
    let mut i: usize = 0;
    while i < s.len()
        invariant
            i <= s.len(),
            forall|j: int| 0 <= j < i ==> !(condition_names(#[trigger] s@[j])),
        decreases s.len() - i,
    {
        if names_in_condition(&s[i]) {
            return true;
        }
        i = i + 1;
    }
    false
}

fn names_in_any_cte(s: &Vec<CteDef>) -> (yes: bool)
    ensures
        yes == any_cte_names(s@),
    decreases s, 1int,
{
    let mut i: usize = 0;
    while i < s.len()
        invariant
            i <= s.len(),
            forall|j: int| 0 <= j < i ==> !(query_names(*(#[trigger] s@[j]).query)),
        decreases s.len() - i,
    {
        if names_in_query(&s[i].query) {
            return true;
        }
        i = i + 1;
    }
    false
}

fn names_in_any_tail(s: &Vec<SetOpTail>) -> (yes: bool)
    ensures
        yes == any_tail_names(s@),
    decreases s, 1int,
{
    let mut i: usize = 0;
    while i < s.len()
        invariant
            i <= s.len(),
            forall|j: int| 0 <= j < i ==> !(query_names(*(#[trigger] s@[j]).right)),
        decreases s.len() - i,
    {
        if names_in_query(&s[i].right) {
            return true;
        }
        i = i + 1;
    }
    false
}

fn names_in_item(x: &SelectItem) -> (yes: bool)
    ensures
        yes == item_names(*x),
    decreases x, 0int,
{
    match x {
        SelectItem::Expr { expr, .. } => names_in(expr),
        _ => false,
    }
}

fn names_in_source(t: &TableRef) -> (yes: bool)
    ensures
        yes == source_names(*t),
    decreases t, 0int,
{
    match t {
        TableRef::Named { .. } => false,
        TableRef::Subquery { select, .. } => names_in_query(select),
        TableRef::Join { left, right, .. } => names_in_source(left) || names_in_source(right),
    }
}

fn names_in_condition(t: &TableRef) -> (yes: bool)
    ensures
        yes == condition_names(*t),
    decreases t, 0int,
{
    match t {
        TableRef::Join { left, right, condition, .. } => names_in_condition(left)
            || names_in_condition(right) || (match condition {
            JoinCondition::On(e) => names_in(e),
            _ => false,
        }),
        _ => false,
    }
}

fn is_offered(t: &TableRef) -> (yes: bool)
    ensures
        yes == offers(*t),
    decreases t,
{
    match t {
        TableRef::Named { name, alias } => match alias {
            Some(a) => text::eq_fold(a.value.as_str(), "excluded"),
            None => text::eq_fold(names::object_name_simple(name).as_str(), "excluded"),
        },
        TableRef::Subquery { alias, .. } => text::eq_fold(alias.value.as_str(), "excluded"),
        TableRef::Join { left, right, .. } => is_offered(left) || is_offered(right),
    }
}

fn is_any_offered(s: &Vec<TableRef>) -> (yes: bool)
    ensures
        yes == any_offers(s@),
{
    let mut i: usize = 0;
    while i < s.len()
        invariant
            i <= s.len(),
            forall|j: int| 0 <= j < i ==> !offers(#[trigger] s@[j]),
        decreases s.len() - i,
    {
        if is_offered(&s[i]) {
            return true;
        }
        i = i + 1;
    }
    false
}

/// Tells whether an optional expression refers to the row proposed for insertion.
pub fn names_in_clause(e: &Option<Expr>) -> (yes: bool)
    ensures
        yes == clause_names(*e),
    decreases e, 1int,
{
    match e {
        Some(e) => names_in(e),
        None => false,
    }
}

fn names_in_query(s: &SelectStmt) -> (yes: bool)
    ensures
        yes == query_names(*s),
    decreases s, 2int,
{
    names_in_any_cte(&s.ctes) || names_in_any_source(&s.from) || names_in_any_tail(&s.set_ops) || (
    !is_any_offered(&s.from) && names_in_own(s))
}

fn names_in_own(s: &SelectStmt) -> (yes: bool)
    ensures
        yes == own_names(*s),
    decreases s, 1int,
{
    let listed = match &s.distinct {
        Distinct::On(list) => names_in_any(list),
        _ => false,
    };
    listed || names_in_any_item(&s.projection) || names_in_any_condition(&s.from)
        || names_in_clause(&s.where_clause) || names_in_any(&s.group_by) || names_in_clause(
        &s.having,
    ) || names_in_any_key(&s.order_by) || names_in_clause(&s.limit) || names_in_clause(&s.offset)
}

} // verus!
