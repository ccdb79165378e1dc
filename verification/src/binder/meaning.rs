//! What bound expressions mean.
use crate::ast::{BinaryOp, Expr, Identifier, Literal, ObjectName, UnaryOp};
use crate::binder::{bound, faithful, names, sources, typing};
use crate::catalog::CatalogView;
use crate::datatype::DataTypeView;
use crate::error::PlanErrorView;
use crate::query::{LogicalAggregateExprView, QueryPlanView, ScalarExprView};
use crate::schema::SchemaView;
use crate::value::ValueView;
use crate::{query, schema, scope, text};
use vstd::prelude::*;

verus! {

/// A row without nulls, as far as truth values need it: how two operands are
/// ordered, which is zero where they are equal, and which other expressions hold.
pub struct Truth {
    pub order: spec_fn(ScalarExprView, ScalarExprView) -> int,
    pub other: spec_fn(ScalarExprView) -> bool,
}

/// Whether a bound expression holds for a row.
pub open spec fn holds(x: ScalarExprView, w: Truth) -> bool
    decreases x,
{
    match x {
        ScalarExprView::Binary { op, left, right, .. } => match op {
            BinaryOp::And => holds(*left, w) && holds(*right, w),
            BinaryOp::Or => holds(*left, w) || holds(*right, w),
            BinaryOp::Eq => (w.order)(*left, *right) == 0,
            BinaryOp::NotEq => (w.order)(*left, *right) != 0,
            BinaryOp::Lt => (w.order)(*left, *right) < 0,
            BinaryOp::LtEq => (w.order)(*left, *right) <= 0,
            BinaryOp::Gt => (w.order)(*left, *right) > 0,
            BinaryOp::GtEq => (w.order)(*left, *right) >= 0,
            _ => (w.other)(x),
        },
        ScalarExprView::Unary { op: UnaryOp::Not, expr, .. } => !holds(*expr, w),
        ScalarExprView::Literal { value: ValueView::Bool(b), .. } => b,
        _ => (w.other)(x),
    }
}

/// Whether an operand lies between two bounds.
pub open spec fn lies_between(
    x: ScalarExprView,
    low: ScalarExprView,
    high: ScalarExprView,
    w: Truth,
) -> bool {
    (w.order)(x, low) >= 0 && (w.order)(x, high) <= 0
}

/// A `BETWEEN` test holds exactly for the rows whose operand lies between its
/// bounds, in either order of them when it is symmetric. A negated one holds
/// exactly for the other rows.
pub proof fn between_holds_within_bounds(
    x: ScalarExprView,
    low: ScalarExprView,
    high: ScalarExprView,
    negated: bool,
    symmetric: bool,
    w: Truth,
)
    ensures
        typing::between_test(x, low, high, negated, symmetric) matches Ok(t) ==> (holds(t, w)
            <==> (negated != (lies_between(x, low, high, w) || symmetric && lies_between(
            x,
            high,
            low,
            w,
        )))),
{
    reveal_with_fuel(holds, 4);
}

/// Whether a column is one of an enclosing query: the first one of a name in the
/// innermost query that has the name.
pub open spec fn outer_named(
    rows: Seq<SchemaView>,
    name: Seq<char>,
    depth: usize,
    index: usize,
    data_type: DataTypeView,
) -> bool {
    exists|skipped: int, i: int|
        {
            let frame = rows[rows.len() - 1 - skipped];
            &&& 0 <= skipped < rows.len()
            &&& depth == (skipped + 1) as usize
            &&& #[trigger] sources::first_named(rows[rows.len() - 1 - skipped], i, name)
            &&& index == i as usize
            &&& data_type == frame.fields[i].data_type
            &&& forall|k: int, j: int|
                0 <= k < skipped && 0 <= j < rows[rows.len() - 1 - k].fields.len()
                    ==> !text::same_fold(
                    (#[trigger] rows[rows.len() - 1 - k].fields[j]).name,
                    name,
                )
        }
}

/// A name that is resolved in enclosing queries is resolved in the innermost one
/// that has it.
pub proof fn outer_names_are_innermost(rows: Seq<SchemaView>, name: Seq<char>, skipped: int)
    requires
        0 <= skipped,
        forall|k: int, j: int|
            0 <= k < skipped && k < rows.len() && 0 <= j < rows[rows.len() - 1 - k].fields.len()
                ==> !text::same_fold((#[trigger] rows[rows.len() - 1 - k].fields[j]).name, name),
    ensures
        scope::resolve_past(rows, name, skipped) matches Some(r) ==> outer_named(
            rows,
            name,
            r.frame_depth,
            r.column_index,
            r.data_type,
        ),
    decreases rows.len() - skipped,
{
    if skipped < rows.len() {
        let frame = rows[rows.len() - 1 - skipped];
        schema::find_gives_first(frame.fields, name, 0);
        match schema::find_field(frame, name) {
            Some(i) => {
                assert(sources::first_named(rows[rows.len() - 1 - skipped], i, name));
            },
            None => {
                assert forall|k: int, j: int|
                    0 <= k < skipped + 1 && k < rows.len() && 0 <= j < rows[rows.len() - 1
                        - k].fields.len() implies !text::same_fold(
                    (#[trigger] rows[rows.len() - 1 - k].fields[j]).name,
                    name,
                ) by {
                    if k == skipped {
                        assert(!text::same_fold(frame.fields[j].name, name));
                    }
                }
                outer_names_are_innermost(rows, name, skipped + 1);
            },
        }
    }
}

/// Whether an expression is the column that a name refers to: the only one of its
/// row with the last part of the name, or else one of an enclosing query.
pub open spec fn names_column(
    name: ObjectName,
    x: ScalarExprView,
    row: SchemaView,
    rows: Seq<SchemaView>,
) -> bool {
    let col = names::last_part(name);
    match x {
        ScalarExprView::Column { name: found, index, data_type } => exists|i: int|
            {
                &&& #[trigger] sources::first_named(row, i, col)
                &&& forall|j: int|
                    i < j < row.fields.len() ==> !text::same_fold(
                        (#[trigger] row.fields[j]).name,
                        col,
                    )
                &&& index == i as usize
                &&& found == row.fields[i].name && data_type == row.fields[i].data_type
            },
        ScalarExprView::OuterColumn { name: found, frame_depth, column_index, data_type } => {
            &&& forall|j: int|
                0 <= j < row.fields.len() ==> !text::same_fold(
                    (#[trigger] row.fields[j]).name,
                    col,
                )
            &&& found == col
            &&& outer_named(rows, col, frame_depth, column_index, data_type)
        },
        _ => false,
    }
}

proof fn columns_are_the_named_ones(name: ObjectName, row: SchemaView, rows: Seq<SchemaView>)
    ensures
        bound::bound_column(name, row, rows) matches Ok(x) ==> names_column(name, x, row, rows),
{
    let col = names::last_part(name);
    schema::find_gives_first(row.fields, col, 0);
    match schema::find_field(row, col) {
        Some(i) => {
            schema::find_gives_first(row.fields, col, i + 1);
            assert(sources::first_named(row, i, col));
        },
        None => {
            outer_names_are_innermost(rows, col, 0);
        },
    }
}

/// Whether an expression is the constant that a literal writes. An integer has
/// the narrowest of 32 and 64 bits that hold it.
pub open spec fn writes(lit: Literal, x: ScalarExprView) -> bool {
    match x {
        ScalarExprView::Literal { value, data_type } => match lit {
            Literal::Bool { value: b } => value == ValueView::Bool(b) && data_type is Bool,
            Literal::Text { value: s } => value == ValueView::Text(s@)
                && data_type == (DataTypeView::Text { max_len: None }),
            Literal::Float { value: v, .. } => value == ValueView::Float64(v@)
                && data_type is Float64,
            Literal::Integer { text: s } => match text::int_value(s@) {
                Some(n) => if i32::MIN <= n <= i32::MAX {
                    value == ValueView::Int32(n as i32) && data_type is Int32
                } else if i64::MIN <= n <= i64::MAX {
                    value == ValueView::Int64(n as i64) && data_type is Int64
                } else {
                    data_type is Decimal
                },
                None => data_type is Decimal,
            },
            _ => value is Null && data_type is Null,
        },
        _ => false,
    }
}

/// Whether a plan is what a subquery is bound to below a row, and has one column.
pub open spec fn single_column(
    select: crate::ast::SelectStmt,
    p: QueryPlanView,
    row: SchemaView,
    cat: CatalogView,
    rows: Seq<SchemaView>,
) -> bool {
    &&& bound::bound_select_with_ctes(select, cat, Seq::empty(), rows.push(row)) == Ok::<
        _,
        PlanErrorView,
    >(p)
    &&& query::query_schema(p).fields.len() == 1
}

/// Whether a bound expression says what its source says. The operands of both
/// correspond one to one, an operation keeps its operator, and a test its
/// negation.
pub open spec fn says(
    e: Expr,
    x: ScalarExprView,
    row: SchemaView,
    cat: CatalogView,
    rows: Seq<SchemaView>,
) -> bool {
    match e {
        Expr::Literal(lit) => writes(lit, x),
        Expr::Column { name } => names_column(name, x, row, rows),
        Expr::Parameter { index } => x == (ScalarExprView::Parameter {
            index,
            data_type: DataTypeView::Null,
        }),
        Expr::Paren { expr } => bound::bound_expr(*expr, row, cat, rows) == Ok::<_, PlanErrorView>(
            x,
        ),
        Expr::Unary { op, expr } => {
            &&& x matches ScalarExprView::Unary { op: kept, expr: y, data_type }
            &&& kept == op
            &&& bound::bound_expr(*expr, row, cat, rows) == Ok::<_, PlanErrorView>(*y)
            &&& op is Not ==> data_type is Bool
            &&& !(op is Not) ==> data_type == query::scalar_type(*y)
        },
        Expr::Binary { op, left, right } => {
            &&& x matches ScalarExprView::Binary { op: kept, left: l, right: r, data_type }
            &&& kept == op
            &&& bound::bound_expr(*left, row, cat, rows) == Ok::<_, PlanErrorView>(*l)
            &&& bound::bound_expr(*right, row, cat, rows) == Ok::<_, PlanErrorView>(*r)
            &&& gives_type(op, query::scalar_type(*l), query::scalar_type(*r), data_type)
        },
        Expr::IsNull { expr, negated } => {
            &&& x matches ScalarExprView::IsNull { expr: y, negated: kept }
            &&& kept == negated
            &&& bound::bound_expr(*expr, row, cat, rows) == Ok::<_, PlanErrorView>(*y)
        },
        Expr::Call { name, .. } => {
            &&& x matches ScalarExprView::Column { name: found, index, data_type }
            &&& exists|i: int|
                {
                    &&& #[trigger] sources::first_named(
                        row,
                        i,
                        text::lower(names::last_part(name)),
                    )
                    &&& index == i as usize
                    &&& found == row.fields[i].name && data_type == row.fields[i].data_type
                }
        },
        Expr::Subquery { select } => {
            &&& x matches ScalarExprView::ScalarSubquery { subplan, data_type, .. }
            &&& single_column(*select, *subplan, row, cat, rows)
            &&& data_type == query::query_schema(*subplan).fields[0].data_type
        },
        Expr::Exists { select, negated } => {
            &&& x matches ScalarExprView::Exists { subplan, negated: kept, .. }
            &&& kept == negated
            &&& bound::bound_select_with_ctes(*select, cat, Seq::empty(), rows.push(row)) == Ok::<
                _,
                PlanErrorView,
            >(*subplan)
        },
        Expr::InSubquery { expr, select, negated } => {
            &&& x matches ScalarExprView::InSubquery { expr: y, subplan, negated: kept, .. }
            &&& kept == negated
            &&& bound::bound_expr(*expr, row, cat, rows) == Ok::<_, PlanErrorView>(*y)
            &&& single_column(*select, *subplan, row, cat, rows)
        },
        Expr::Any { expr, op, select } => {
            &&& op is Eq
            &&& x matches ScalarExprView::InSubquery { expr: y, subplan, negated, .. }
            &&& !negated
            &&& bound::bound_expr(*expr, row, cat, rows) == Ok::<_, PlanErrorView>(*y)
            &&& single_column(*select, *subplan, row, cat, rows)
        },
        Expr::Between { expr, low, high, negated, symmetric } => {
            &&& bound::bound_expr(*expr, row, cat, rows) matches Ok(y)
            &&& bound::bound_expr(*low, row, cat, rows) matches Ok(l)
            &&& bound::bound_expr(*high, row, cat, rows) matches Ok(h)
            &&& query::scalar_type(x) is Bool
            &&& forall|w: Truth| #[trigger]
                holds(x, w) <==> (negated != (lies_between(y, l, h, w) || symmetric && lies_between(
                    y,
                    h,
                    l,
                    w,
                )))
        },
        _ => false,
    }
}

/// Whether two types have values that can be compared.
pub open spec fn compares(l: DataTypeView, r: DataTypeView) -> bool {
    ||| l is Null || r is Null || l == r
    ||| is_number(l) && is_number(r)
    ||| (l is Text || l is Char) && (r is Text || r is Char)
    ||| is_time(l) && is_time(r)
}

/// Whether a type is one of numbers.
pub open spec fn is_number(t: DataTypeView) -> bool {
    t is Int16 || t is Int32 || t is Int64 || t is Float32 || t is Float64 || t is Decimal
}

/// Whether a type is one of points in time.
pub open spec fn is_time(t: DataTypeView) -> bool {
    t is Date || t is Time || t is TimeTz || t is Timestamp || t is TimestampTz
}

/// Whether an operation on two types gives a third one: a comparison, a
/// connection and a pattern match give truth values, a concatenation gives text,
/// and arithmetic gives the wider type of numbers, of which one may be unknown.
pub open spec fn gives_type(
    op: BinaryOp,
    l: DataTypeView,
    r: DataTypeView,
    t: DataTypeView,
) -> bool {
    match op {
        BinaryOp::Eq | BinaryOp::NotEq | BinaryOp::Lt | BinaryOp::LtEq | BinaryOp::Gt
        | BinaryOp::GtEq => t is Bool,
        BinaryOp::And | BinaryOp::Or => {
            &&& t is Bool
            &&& (l is Bool || l is Null) && (r is Bool || r is Null)
        },
        BinaryOp::Like | BinaryOp::NotLike | BinaryOp::Ilike | BinaryOp::NotIlike => t is Bool,
        BinaryOp::Concat => t is Text,
        BinaryOp::Add | BinaryOp::Sub | BinaryOp::Mul | BinaryOp::Div | BinaryOp::Mod
        | BinaryOp::Pow => {
            &&& l is Null ==> t == r
            &&& r is Null ==> t == l
            &&& !(l is Null) && !(r is Null) ==> widens(l, r, t)
        },
        _ => true,
    }
}

/// Whether a numeric type is the wider one of two: the same type stays, an
/// integer is no wider than the wider integer or than a decimal, and whatever is
/// combined with a float is a double.
pub open spec fn widens(l: DataTypeView, r: DataTypeView, t: DataTypeView) -> bool {
    let int_l = l is Int16 || l is Int32 || l is Int64;
    let int_r = r is Int16 || r is Int32 || r is Int64;
    &&& is_number(l) && is_number(r)
    &&& l == r ==> t == l
    &&& int_l && int_r && (l is Int64 || r is Int64) ==> t is Int64
    &&& int_l && int_r && l != r && !(l is Int64) && !(r is Int64) ==> t is Int32
    &&& int_l && r is Decimal ==> t == r
    &&& l is Decimal && int_r ==> t == l
    &&& l is Decimal && r is Decimal ==> t is Decimal
    &&& l != r && (l is Float32 || l is Float64 || r is Float32 || r is Float64) ==> t is Float64
}

/// An operation is typed by its operands: comparisons are accepted exactly where
/// the types can be compared, arithmetic exactly for numbers and unknown types.
pub proof fn operations_are_typed(op: BinaryOp, l: DataTypeView, r: DataTypeView)
    ensures
        typing::operation_type(op, l, r) matches Ok(t) ==> gives_type(op, l, r, t),
        op is Eq || op is NotEq || op is Lt || op is LtEq || op is Gt || op is GtEq ==> (
        typing::operation_type(op, l, r) is Ok <==> compares(l, r)),
        op is Add || op is Sub || op is Mul || op is Div || op is Mod || op is Pow ==> (
        typing::operation_type(op, l, r) is Ok <==> l is Null || r is Null || (is_number(l)
            && is_number(r))),
        op is And || op is Or ==> (typing::operation_type(op, l, r) is Ok <==> (l is Bool
            || l is Null) && (r is Bool || r is Null)),
{
}

/// A bound expression says what its source says.
pub proof fn bound_expressions_say_the_same(
    e: Expr,
    row: SchemaView,
    cat: CatalogView,
    rows: Seq<SchemaView>,
)
    ensures
        bound::bound_expr(e, row, cat, rows) matches Ok(x) ==> says(e, x, row, cat, rows),
{
    if let Ok(x) = bound::bound_expr(e, row, cat, rows) {
        match e {
            Expr::Column { name } => {
                columns_are_the_named_ones(name, row, rows);
            },
            Expr::Binary { op, left, right } => {
                let l = bound::bound_expr(*left, row, cat, rows)->Ok_0;
                let r = bound::bound_expr(*right, row, cat, rows)->Ok_0;
                operations_are_typed(op, query::scalar_type(l), query::scalar_type(r));
            },
            Expr::Call { name, .. } => {
                let func = text::lower(names::last_part(name));
                schema::find_gives_first(row.fields, func, 0);
                let i = schema::find_field(row, func)->Some_0;
                assert(sources::first_named(row, i, func));
            },
            Expr::Between { expr, low, high, negated, symmetric } => {
                let y = bound::bound_expr(*expr, row, cat, rows)->Ok_0;
                let l = bound::bound_expr(*low, row, cat, rows)->Ok_0;
                let h = bound::bound_expr(*high, row, cat, rows)->Ok_0;
                assert forall|w: Truth| #[trigger]
                    holds(x, w) <==> (negated != (lies_between(y, l, h, w) || symmetric
                        && lies_between(y, h, l, w))) by {
                    between_holds_within_bounds(y, l, h, negated, symmetric, w);
                }
            },
            _ => {},
        }
    }
}

/// Whether an aggregate of a call was collected under its alias, or under the name
/// of its function where it has no alias.
pub open spec fn is_collected_call(
    name: ObjectName,
    args: Seq<Expr>,
    alias: Option<Identifier>,
    aggs: Seq<LogicalAggregateExprView>,
) -> bool {
    exists|k: int|
        {
            &&& 0 <= k < aggs.len()
            &&& faithful::function_of(
                names::last_part(name),
                faithful::without_argument(args),
                (#[trigger] aggs[k]).func,
            )
            &&& aggs[k].output_name == match alias {
                Some(a) => a.value@,
                None => text::lower(names::last_part(name)),
            }
        }
}

/// Whether an expression is the column of an aggregate call, behind the grouping
/// columns: that of the aggregate collected under the alias of the call, or else
/// under the name of its function.
pub open spec fn reads_call(
    name: ObjectName,
    args: Seq<Expr>,
    alias: Option<Identifier>,
    x: ScalarExprView,
    row: SchemaView,
    groups: int,
    aggs: Seq<LogicalAggregateExprView>,
) -> bool {
    let own = text::lower(names::last_part(name));
    let label = match alias {
        Some(a) => a.value@,
        None => own,
    };
    exists|k: int|
        {
            let a = aggs[k];
            &&& 0 <= k < aggs.len()
            &&& faithful::function_of(
                names::last_part(name),
                faithful::without_argument(args),
                (#[trigger] aggs[k]).func,
            )
            &&& a.output_name == label || (a.output_name == own && !faithful::lists_call(
                aggs,
                a.func,
                label,
            ))
            &&& 0 <= groups + k < row.fields.len()
            &&& x == (ScalarExprView::Column {
                name: row.fields[groups + k].name,
                index: (groups + k) as usize,
                data_type: row.fields[groups + k].data_type,
            })
        }
}

/// Whether a bound expression over grouped rows says what its source says: as for
/// other rows, but an aggregate call stands for its column.
pub open spec fn says_of_groups(
    e: Expr,
    alias: Option<Identifier>,
    x: ScalarExprView,
    row: SchemaView,
    groups: int,
    aggs: Seq<LogicalAggregateExprView>,
    cat: CatalogView,
    rows: Seq<SchemaView>,
) -> bool {
    match e {
        Expr::Call { name, args, .. } => {
            ||| reads_call(name, args@, alias, x, row, groups, aggs)
            ||| bound::bound_expr(e, row, cat, rows) == Ok::<_, PlanErrorView>(x)
        },
        Expr::Paren { expr } => bound::bound_expr_or_agg(
            *expr,
            alias,
            row,
            groups,
            aggs,
            cat,
            rows,
        ) == Ok::<_, PlanErrorView>(x),
        Expr::Unary { op, expr } => {
            &&& x matches ScalarExprView::Unary { op: kept, expr: y, .. }
            &&& kept == op
            &&& bound::bound_expr_or_agg(*expr, alias, row, groups, aggs, cat, rows) == Ok::<
                _,
                PlanErrorView,
            >(*y)
        },
        Expr::Binary { op, left, right } => {
            &&& x matches ScalarExprView::Binary { op: kept, left: l, right: r, .. }
            &&& kept == op
            &&& bound::bound_expr_or_agg(*left, None, row, groups, aggs, cat, rows) == Ok::<
                _,
                PlanErrorView,
            >(*l)
            &&& bound::bound_expr_or_agg(*right, None, row, groups, aggs, cat, rows) == Ok::<
                _,
                PlanErrorView,
            >(*r)
        },
        Expr::IsNull { expr, negated } => {
            &&& x matches ScalarExprView::IsNull { expr: y, negated: kept }
            &&& kept == negated
            &&& bound::bound_expr_or_agg(*expr, None, row, groups, aggs, cat, rows) == Ok::<
                _,
                PlanErrorView,
            >(*y)
        },
        Expr::Between { expr, low, high, negated, symmetric } => {
            &&& bound::bound_expr_or_agg(*expr, None, row, groups, aggs, cat, rows) matches Ok(y)
            &&& bound::bound_expr_or_agg(*low, None, row, groups, aggs, cat, rows) matches Ok(l)
            &&& bound::bound_expr_or_agg(*high, None, row, groups, aggs, cat, rows) matches Ok(h)
            &&& forall|w: Truth| #[trigger]
                holds(x, w) <==> (negated != (lies_between(y, l, h, w) || symmetric && lies_between(
                    y,
                    h,
                    l,
                    w,
                )))
        },
        Expr::InSubquery { expr, select, negated } => {
            &&& x matches ScalarExprView::InSubquery { expr: y, subplan, negated: kept, .. }
            &&& kept == negated
            &&& bound::bound_expr_or_agg(*expr, None, row, groups, aggs, cat, rows) == Ok::<
                _,
                PlanErrorView,
            >(*y)
            &&& single_column(*select, *subplan, row, cat, rows)
        },
        Expr::Any { expr, op, select } => {
            &&& op is Eq
            &&& x matches ScalarExprView::InSubquery { expr: y, subplan, negated, .. }
            &&& !negated
            &&& bound::bound_expr_or_agg(*expr, None, row, groups, aggs, cat, rows) == Ok::<
                _,
                PlanErrorView,
            >(*y)
            &&& single_column(*select, *subplan, row, cat, rows)
        },
        _ => bound::bound_expr(e, row, cat, rows) == Ok::<_, PlanErrorView>(x),
    }
}

proof fn places_are_found(
    aggs: Seq<LogicalAggregateExprView>,
    func: query::AggregateFunc,
    name: Seq<char>,
    i: int,
)
    requires
        0 <= i,
    ensures
        match crate::binder::aggregate::call_place(aggs, func, name, i) {
            Some(k) => i <= k < aggs.len() && aggs[k].func == func && aggs[k].output_name == name,
            None => forall|k: int|
                i <= k < aggs.len() ==> !((#[trigger] aggs[k]).func == func && aggs[k].output_name
                    == name),
        },
    decreases aggs.len() - i,
{
    if i < aggs.len() {
        places_are_found(aggs, func, name, i + 1);
    }
}

/// A bound expression over grouped rows says what its source says. An aggregate
/// call whose aggregate was collected under its alias reads the column of that
/// aggregate.
pub proof fn grouped_expressions_say_the_same(
    e: Expr,
    alias: Option<Identifier>,
    row: SchemaView,
    groups: int,
    aggs: Seq<LogicalAggregateExprView>,
    cat: CatalogView,
    rows: Seq<SchemaView>,
)
    ensures
        bound::bound_expr_or_agg(e, alias, row, groups, aggs, cat, rows) matches Ok(x) ==> {
            &&& says_of_groups(e, alias, x, row, groups, aggs, cat, rows)
            &&& e matches Expr::Call { name, args, .. } ==> groups >= 0 && row.fields.len()
                == groups + aggs.len() && is_collected_call(name, args@, alias, aggs)
                ==> reads_call(name, args@, alias, x, row, groups, aggs)
        },
{
    if let Ok(x) = bound::bound_expr_or_agg(e, alias, row, groups, aggs, cat, rows) {
        match e {
            Expr::Call { name, args, .. } => {
                let bare = faithful::without_argument(args@);
                let own = text::lower(names::last_part(name));
                let label = match alias {
                    Some(a) => a.value@,
                    None => own,
                };
                faithful::aggregate_functions_have_their_names(name, bare);
                if let Some(func) = crate::binder::aggregate::aggregate_of(own, bare) {
                    places_are_found(aggs, func, label, 0);
                    places_are_found(aggs, func, own, 0);
                    assert(faithful::function_of(names::last_part(name), bare, func));
                }
            },
            Expr::Between { expr, low, high, negated, symmetric } => {
                let y = bound::bound_expr_or_agg(
                    *expr,
                    None,
                    row,
                    groups,
                    aggs,
                    cat,
                    rows,
                )->Ok_0;
                let l = bound::bound_expr_or_agg(*low, None, row, groups, aggs, cat, rows)->Ok_0;
                let h = bound::bound_expr_or_agg(*high, None, row, groups, aggs, cat, rows)->Ok_0;
                assert forall|w: Truth| #[trigger]
                    holds(x, w) <==> (negated != (lies_between(y, l, h, w) || symmetric
                        && lies_between(y, h, l, w))) by {
                    between_holds_within_bounds(y, l, h, negated, symmetric, w);
                }
            },
            _ => {},
        }
    }
}

} // verus!
