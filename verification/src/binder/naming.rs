//! What texts, names, and the types and columns of plans are.
use crate::ast::ObjectName;
use crate::binder::names;
use crate::plan;
use crate::plan::{
    LogicalMergeActionView, LogicalMergeClauseView, LogicalOnConflictView, LogicalPlanView,
};
use crate::query;
use crate::query::{
    LogicalAggregateExprView, LogicalJoinConditionView, QueryPlanView, ScalarExprView,
};
use crate::text;
use vstd::prelude::*;

verus! {

/// In lower case, each capital letter is the small one and every other character is
/// itself.
pub proof fn capitals_become_small(s: Seq<char>)
    ensures
        text::lower(s).len() == s.len(),
        forall|i: int|
            0 <= i < s.len() ==> {
                let c = #[trigger] text::lower(s)[i];
                &&& 'A' <= s[i] <= 'Z' ==> c as int == s[i] as int + 32
                &&& !('A' <= s[i] <= 'Z') ==> c == s[i]
            },
{
    assert forall|i: int| 0 <= i < s.len() implies {
        let c = #[trigger] text::lower(s)[i];
        &&& 'A' <= s[i] <= 'Z' ==> c as int == s[i] as int + 32
        &&& !('A' <= s[i] <= 'Z') ==> c == s[i]
    } by {
        let c = s[i];
        if 'A' <= c <= 'Z' {
            let b = c as u8;
            assert(b as int == c as int);
            let d = (b + 32) as u8;
            assert(d as int == c as int + 32);
        }
    }
}

/// Texts are the same up to case exactly where each letter is.
pub proof fn cases_are_alike_letter_by_letter(a: Seq<char>, b: Seq<char>)
    ensures
        text::same_fold(a, b) <==> a.len() == b.len() && forall|i: int|
            0 <= i < a.len() ==> text::lower_char(#[trigger] a[i]) == text::lower_char(b[i]),
        text::same_fold(a, b) == text::same_fold(b, a),
        text::same_fold(a, text::lower(a)),
{
    text::lowering_again_changes_nothing(a);
    if text::same_fold(a, b) {
        assert(text::lower(a).len() == text::lower(b).len());
        assert forall|i: int| 0 <= i < a.len() implies text::lower_char(#[trigger] a[i])
            == text::lower_char(b[i]) by {
            assert(text::lower(a)[i] == text::lower(b)[i]);
        }
    }
    if a.len() == b.len() && forall|i: int|
        0 <= i < a.len() ==> text::lower_char(#[trigger] a[i]) == text::lower_char(b[i]) {
        assert(text::lower(a) =~= text::lower(b));
    }
}

/// The digits of a number are read as the number.
pub proof fn digits_read_as_their_number(n: nat)
    ensures
        text::all_digits(text::decimal(n)),
        text::nat_value(text::decimal(n)) == n,
    decreases n,
{
    if n < 10 {
        let s = text::decimal(n);
        assert(s.drop_last() =~= Seq::<char>::empty());
        assert(text::nat_value(s.drop_last()) == 0);
    } else {
        digits_read_as_their_number(n / 10);
        let s = text::decimal(n);
        assert(s.drop_last() =~= text::decimal(n / 10));
        assert forall|i: int| 0 <= i < s.len() implies text::is_digit(#[trigger] s[i]) by {
            if i < s.len() - 1 {
                assert(s[i] == text::decimal(n / 10)[i]);
            }
        }
    }
}

/// The text of an integer is read as the integer.
pub proof fn integers_are_read_back(n: int)
    ensures
        text::int_value(text::decimal_int(n)) == Some(n),
{
    if n < 0 {
        digits_read_as_their_number((-n) as nat);
        let s = text::decimal_int(n);
        assert(s.skip(1) =~= text::decimal((-n) as nat));
        assert(!text::is_digit(s[0]));
    } else {
        digits_read_as_their_number(n as nat);
    }
}

proof fn start_is_trimmed(s: Seq<char>)
    ensures
        ({
            let t = text::trim_start(s);
            let k = s.len() - t.len();
            &&& 0 <= k && t == s.skip(k)
            &&& t.len() > 0 ==> !text::is_space(t[0])
            &&& forall|i: int| 0 <= i < k ==> text::is_space(#[trigger] s[i])
        }),
    decreases s.len(),
{
    if s.len() > 0 && text::is_space(s[0]) {
        start_is_trimmed(s.skip(1));
        let t = text::trim_start(s);
        let k = s.len() - t.len();
        assert(s.skip(1).skip(k - 1) =~= s.skip(k));
        assert forall|i: int| 0 <= i < k implies text::is_space(#[trigger] s[i]) by {
            if i > 0 {
                assert(s.skip(1)[i - 1] == s[i]);
            }
        }
    } else {
        assert(s.skip(0) =~= s);
    }
}

proof fn end_is_trimmed(s: Seq<char>)
    ensures
        ({
            let t = text::trim_end(s);
            &&& t.len() <= s.len() && t == s.take(t.len() as int)
            &&& t.len() > 0 ==> !text::is_space(t.last())
            &&& forall|i: int| t.len() <= i < s.len() ==> text::is_space(#[trigger] s[i])
        }),
    decreases s.len(),
{
    if s.len() > 0 && text::is_space(s.last()) {
        end_is_trimmed(s.drop_last());
        let t = text::trim_end(s);
        assert(s.drop_last().take(t.len() as int) =~= s.take(t.len() as int));
        assert forall|i: int| t.len() <= i < s.len() implies text::is_space(#[trigger] s[i]) by {
            if i < s.len() - 1 {
                assert(s.drop_last()[i] == s[i]);
            }
        }
    } else {
        assert(s.take(s.len() as int) =~= s);
    }
}

/// A trimmed text is the text between the blanks at both ends.
pub proof fn trimming_leaves_the_middle(s: Seq<char>)
    ensures
        ({
            let t = text::trim(s);
            let k = s.len() - text::trim_start(s).len();
            &&& 0 <= k && k + t.len() <= s.len()
            &&& t == s.subrange(k, k + t.len())
            &&& t.len() > 0 ==> !text::is_space(t[0]) && !text::is_space(t.last())
            &&& forall|i: int| 0 <= i < k ==> text::is_space(#[trigger] s[i])
            &&& forall|i: int| k + t.len() <= i < s.len() ==> text::is_space(#[trigger] s[i])
        }),
{
    start_is_trimmed(s);
    let u = text::trim_start(s);
    end_is_trimmed(u);
    let t = text::trim(s);
    let k = s.len() - u.len();
    assert(u.take(t.len() as int) =~= s.subrange(k, k + t.len()));
    assert forall|i: int| k + t.len() <= i < s.len() implies text::is_space(#[trigger] s[i]) by {
        assert(u[i - k] == s[i]);
    }
    if t.len() > 0 {
        assert(t[0] == u[0]);
    }
}

/// An object is called by the last part of its name, and its namespace is the part
/// before, or `public` where there is none.
pub proof fn objects_are_called_by_their_last_part(name: ObjectName)
    ensures
        ({
            let n = name.parts@.len() as int;
            &&& n > 0 ==> names::last_part(name) == name.parts@[n - 1].value@
            &&& n > 0 ==> names::simple_name(name) == text::lower(name.parts@[n - 1].value@)
            &&& n == 0 ==> names::last_part(name).len() == 0
            &&& n >= 2 ==> names::namespace_of(name) == text::lower(name.parts@[n - 2].value@)
            &&& n < 2 ==> names::namespace_of(name) == "public"@
            &&& n >= 2 ==> names::explicit_namespace_of(name) == Some(
                text::lower(name.parts@[n - 2].value@),
            )
            &&& n < 2 ==> names::explicit_namespace_of(name) is None
        }),
{
}

/// The type of an expression is the one that it carries; a test gives a truth value.
pub proof fn expressions_carry_their_type(e: ScalarExprView)
    ensures
        match e {
            ScalarExprView::Literal { data_type, .. } => query::scalar_type(e) == data_type,
            ScalarExprView::Column { data_type, .. } => query::scalar_type(e) == data_type,
            ScalarExprView::OuterColumn { data_type, .. } => query::scalar_type(e) == data_type,
            ScalarExprView::Parameter { data_type, .. } => query::scalar_type(e) == data_type,
            ScalarExprView::Unary { data_type, .. } => query::scalar_type(e) == data_type,
            ScalarExprView::Binary { data_type, .. } => query::scalar_type(e) == data_type,
            ScalarExprView::FunctionCall { data_type, .. } => query::scalar_type(e) == data_type,
            ScalarExprView::ScalarSubquery { data_type, .. } => query::scalar_type(e) == data_type,
            _ => query::scalar_type(e) is Bool,
        },
{
}

/// Filters, orders and limits give the columns of their input; every other plan has
/// its own.
pub proof fn plans_give_their_columns(p: QueryPlanView)
    ensures
        match p {
            QueryPlanView::Filter { input, .. } => query::query_schema(p) == query::query_schema(
                *input,
            ),
            QueryPlanView::Sort { input, .. } => query::query_schema(p) == query::query_schema(
                *input,
            ),
            QueryPlanView::Limit { input, .. } => query::query_schema(p) == query::query_schema(
                *input,
            ),
            QueryPlanView::Scan { schema, .. } => query::query_schema(p) == schema,
            QueryPlanView::Empty { schema } => query::query_schema(p) == schema,
            QueryPlanView::Project { schema, .. } => query::query_schema(p) == schema,
            QueryPlanView::Aggregate { schema, .. } => query::query_schema(p) == schema,
            QueryPlanView::Join { schema, .. } => query::query_schema(p) == schema,
            QueryPlanView::SetOp { schema, .. } => query::query_schema(p) == schema,
            QueryPlanView::Cte { schema, .. } => query::query_schema(p) == schema,
            QueryPlanView::Values { schema, .. } => query::query_schema(p) == schema,
        },
{
}

/// An expression reads an enclosing query exactly where it is such a column or one
/// of its parts does.
pub proof fn outer_columns_are_noticed(e: ScalarExprView)
    ensures
        query::scalar_has_outer(e) <==> match e {
            ScalarExprView::OuterColumn { .. } => true,
            ScalarExprView::Unary { expr, .. } => query::scalar_has_outer(*expr),
            ScalarExprView::IsNull { expr, .. } => query::scalar_has_outer(*expr),
            ScalarExprView::Binary { left, right, .. } => query::scalar_has_outer(*left)
                || query::scalar_has_outer(*right),
            ScalarExprView::FunctionCall { args, .. } => exists|i: int|
                0 <= i < args.len() && query::scalar_has_outer(#[trigger] args[i]),
            ScalarExprView::ScalarSubquery { subplan, .. } => query::query_has_outer(*subplan),
            ScalarExprView::Exists { subplan, .. } => query::query_has_outer(*subplan),
            ScalarExprView::InSubquery { expr, subplan, .. } => query::scalar_has_outer(*expr)
                || query::query_has_outer(*subplan),
            _ => false,
        },
{
    if let ScalarExprView::FunctionCall { args, .. } = e {
        assert(query::any_has_outer(args) <==> row_reads_outer(args));
    }
}

/// A plan reads an enclosing query exactly where one of its expressions or of its
/// inputs does.
pub proof fn outer_plans_are_noticed(p: QueryPlanView)
    ensures
        query::query_has_outer(p) <==> match p {
            QueryPlanView::Scan { .. } => false,
            QueryPlanView::Empty { .. } => false,
            QueryPlanView::Filter { input, predicate } => query::scalar_has_outer(predicate)
                || query::query_has_outer(*input),
            QueryPlanView::Project { input, exprs, .. } => (exists|i: int|
                0 <= i < exprs.len() && query::scalar_has_outer((#[trigger] exprs[i]).0))
                || query::query_has_outer(*input),
            QueryPlanView::Sort { input, keys } => (exists|i: int|
                0 <= i < keys.len() && query::scalar_has_outer((#[trigger] keys[i]).expr))
                || query::query_has_outer(*input),
            QueryPlanView::Limit { input, .. } => query::query_has_outer(*input),
            QueryPlanView::Aggregate { input, group_by, aggregates, .. } => (exists|i: int|
                0 <= i < group_by.len() && query::scalar_has_outer(#[trigger] group_by[i])) || (
            exists|i: int| 0 <= i < aggregates.len() && reads_outer(#[trigger] aggregates[i]))
                || query::query_has_outer(*input),
            QueryPlanView::Join { left, right, condition, .. } => (condition matches
                LogicalJoinConditionView::On(e) && query::scalar_has_outer(e))
                || query::query_has_outer(*left) || query::query_has_outer(*right),
            QueryPlanView::SetOp { left, right, .. } => query::query_has_outer(*left)
                || query::query_has_outer(*right),
            QueryPlanView::Cte { definition, body, .. } => query::query_has_outer(*definition)
                || query::query_has_outer(*body),
            QueryPlanView::Values { rows, .. } => exists|i: int|
                0 <= i < rows.len() && row_reads_outer(#[trigger] rows[i]),
        },
{
    match p {
        QueryPlanView::Project { exprs, .. } => {
            assert(query::any_output_has_outer(exprs) <==> exists|i: int|
                0 <= i < exprs.len() && query::scalar_has_outer((#[trigger] exprs[i]).0));
        },
        QueryPlanView::Sort { keys, .. } => {
            assert(query::any_key_has_outer(keys) <==> exists|i: int|
                0 <= i < keys.len() && query::scalar_has_outer((#[trigger] keys[i]).expr));
        },
        QueryPlanView::Aggregate { group_by, aggregates, .. } => {
            assert(query::any_has_outer(group_by) <==> row_reads_outer(group_by));
            assert forall|i: int| 0 <= i < aggregates.len() implies reads_outer(
                #[trigger] aggregates[i],
            ) == query::aggregate_has_outer(aggregates[i]) by {}
            assert(query::any_aggregate_has_outer(aggregates) <==> exists|i: int|
                0 <= i < aggregates.len() && query::aggregate_has_outer(#[trigger] aggregates[i]));
        },
        QueryPlanView::Join { condition, .. } => {
            assert(query::condition_has_outer(condition) <==> (condition matches
                LogicalJoinConditionView::On(e) && query::scalar_has_outer(e)));
        },
        QueryPlanView::Values { rows, .. } => {
            assert forall|i: int| 0 <= i < rows.len() implies row_reads_outer(#[trigger] rows[i])
                == query::any_has_outer(rows[i]) by {}
            assert(query::any_row_has_outer(rows) <==> exists|i: int|
                0 <= i < rows.len() && query::any_has_outer(#[trigger] rows[i]));
        },
        _ => {},
    }
}

/// A statement reads an enclosing query exactly where its query, one of its
/// conditions or one of its values does.
pub proof fn outer_statements_are_noticed(p: LogicalPlanView)
    ensures
        plan::plan_has_outer(p) <==> match p {
            LogicalPlanView::Query(q) => query::query_has_outer(q),
            LogicalPlanView::Insert { source, on_conflict, returning, .. } => {
                ||| query::query_has_outer(source)
                ||| outputs_read_outer(returning)
                ||| {
                    &&& on_conflict matches Some(
                        LogicalOnConflictView::DoUpdate { assignments, where_clause, .. },
                    )
                    &&& assignments_read_outer(assignments) || (where_clause matches Some(e)
                        && query::scalar_has_outer(e))
                }
            },
            LogicalPlanView::Update { assignments, input, returning, .. } => {
                ||| query::query_has_outer(input)
                ||| assignments_read_outer(assignments)
                ||| outputs_read_outer(returning)
            },
            LogicalPlanView::Delete { input, returning, .. } => {
                ||| query::query_has_outer(input)
                ||| outputs_read_outer(returning)
            },
            LogicalPlanView::Merge { source, on, clauses, .. } => {
                ||| query::query_has_outer(source)
                ||| query::scalar_has_outer(on)
                ||| exists|i: int|
                    0 <= i < clauses.len() && branch_reads_outer(#[trigger] clauses[i])
            },
            _ => false,
        },
{
    match p {
        LogicalPlanView::Insert { returning, .. } => {
            assert(query::any_output_has_outer(returning) <==> outputs_read_outer(returning));
        },
        LogicalPlanView::Update { returning, .. } => {
            assert(query::any_output_has_outer(returning) <==> outputs_read_outer(returning));
        },
        LogicalPlanView::Delete { returning, .. } => {
            assert(query::any_output_has_outer(returning) <==> outputs_read_outer(returning));
        },
        LogicalPlanView::Merge { clauses, .. } => {
            assert forall|i: int| 0 <= i < clauses.len() implies branch_reads_outer(
                #[trigger] clauses[i],
            ) == plan::merge_clause_has_outer(clauses[i]) by {
                if let LogicalMergeActionView::Insert { values, .. } = clauses[i].action {
                    assert(query::any_has_outer(values) <==> row_reads_outer(values));
                }
            }
            assert(plan::any_merge_clause_has_outer(clauses) <==> exists|i: int|
                0 <= i < clauses.len() && plan::merge_clause_has_outer(#[trigger] clauses[i]));
        },
        _ => {},
    }
}

/// Whether one of the values of assignments reads an enclosing query.
pub open spec fn assignments_read_outer(s: Seq<(usize, ScalarExprView)>) -> bool {
    exists|i: int| 0 <= i < s.len() && query::scalar_has_outer((#[trigger] s[i]).1)
}

/// Whether an output column reads an enclosing query.
pub open spec fn outputs_read_outer(s: Seq<(ScalarExprView, Seq<char>)>) -> bool {
    exists|i: int| 0 <= i < s.len() && query::scalar_has_outer((#[trigger] s[i]).0)
}

/// Whether a branch of a `MERGE` reads an enclosing query.
pub open spec fn branch_reads_outer(c: LogicalMergeClauseView) -> bool {
    ||| c.condition matches Some(e) && query::scalar_has_outer(e)
    ||| match c.action {
        LogicalMergeActionView::Update { assignments } => assignments_read_outer(assignments),
        LogicalMergeActionView::Delete => false,
        LogicalMergeActionView::Insert { values, .. } => row_reads_outer(values),
    }
}

/// Whether an aggregate reads an enclosing query.
pub open spec fn reads_outer(a: LogicalAggregateExprView) -> bool {
    ||| a.arg matches Some(e) && query::scalar_has_outer(e)
    ||| a.direct_arg matches Some(e) && query::scalar_has_outer(e)
    ||| a.order_by matches Some(k) && query::scalar_has_outer(k.expr)
}

/// Whether a row of values reads an enclosing query.
pub open spec fn row_reads_outer(row: Seq<ScalarExprView>) -> bool {
    exists|i: int| 0 <= i < row.len() && query::scalar_has_outer(#[trigger] row[i])
}

} // verus!
