//! Binding of expressions.
use crate::ast::{BinaryOp, Expr, Identifier, SelectStmt, UnaryOp};
use crate::binder::names::object_name_simple;
use crate::binder::relation::column_of;
use crate::binder::select::{bind_select_with_ctes, make_membership, make_subquery_value};
use crate::binder::{aggregate, bound, names, relation, typing};
use crate::catalog::{Catalog, CatalogView};
use crate::datatype::{DataType, DataTypeView};
use crate::dialect::aggregate_call::{
    derive_agg_output_name, is_aggregate_name, is_scalar_min_max_call,
};
use crate::dialect::builtin::bind_collated_expr;
use crate::dialect::literal::bind_literal;
use crate::dialect::number::parse_negative_i64_boundary_expr;
use crate::dialect::operation::{
    add_element, add_item, bind_column, check_slice_bound, check_slice_input, make_any_element,
    make_array, make_at_zone, make_between, make_boolean_test, make_builtin_call, make_call3,
    make_cast, make_choice, make_distinct_test, make_folded, make_null_if, make_row,
    make_subscript, make_unary,
};
use crate::dialect::reading::{Readings, ReadingsView};
use crate::dialect::typename::resolve_cast_type_with_catalog;
use crate::dialect::{aggregate_call, builtin, literal, number, operation, typename};
use crate::error::{PlanError, PlanErrorView};
use crate::query::{query_contains_outer_column, QueryPlan, ScalarExpr, ScalarExprView};
use crate::schema::{Schema, SchemaView};
use crate::scope::{ScopeFrame, ScopeStack};
use crate::text::owned;
use crate::value::{Value, ValueView};
use crate::{error, query, schema};
use vstd::prelude::*;

verus! {

/// The visible common table expressions: each name with its columns.
pub type Ctes = Seq<(Seq<char>, SchemaView)>;

/// The column of an aggregate call in a row of aggregates.
pub open spec fn aggregate_column(func: Seq<char>, full: Seq<char>, input: SchemaView) -> Result<
    ScalarExprView,
    PlanErrorView,
> {
    match schema::find_field(input, full) {
        Some(i) => Ok(relation::column_at(input, i)),
        None => match schema::find_field(input, func) {
            Some(i) => Ok(relation::column_at(input, i)),
            None => Err(PlanErrorView::NotSupported("aggregate call outside aggregate context"@)),
        },
    }
}

fn find_aggregate_column(func: &str, full: &str, input: &Schema) -> (made: Result<
    ScalarExpr,
    PlanError,
>)
    ensures
        error::scalar_outcome(made) == aggregate_column(func@, full@, input@),
{
    match input.find(full) {
        Some(i) => Ok(column_of(input, i)),
        None => match input.find(func) {
            Some(i) => Ok(column_of(input, i)),
            None => Err(PlanError::NotSupported("aggregate call outside aggregate context")),
        },
    }
}

/// What a negated number is bound to where its magnitude alone has no type.
pub open spec fn smallest_number(op: UnaryOp, e: Expr) -> Option<ScalarExprView> {
    if op is Neg {
        match number::smallest_magnitude_of(e) {
            Some(n) => Some(typing::constant(ValueView::Int64(n), DataTypeView::Int64)),
            None => None,
        }
    } else {
        None
    }
}

fn bind_smallest_number(op: UnaryOp, e: &Expr) -> (made: Option<ScalarExpr>)
    ensures
        literal::expr_of(made) == smallest_number(op, *e),
{
    if !matches!(op, UnaryOp::Neg) {
        return None;
    }
    match parse_negative_i64_boundary_expr(e) {
        Some(n) => Some(
            ScalarExpr::Literal { value: Value::Int64(n), data_type: DataType::Int64 },
        ),
        None => None,
    }
}

/// What an expression is bound to against a row, with the rows of enclosing
/// queries in `scope`.
pub open spec fn bound_value(
    e: Expr,
    input: SchemaView,
    cat: CatalogView,
    ctes: Ctes,
    scope: Seq<SchemaView>,
    r: ReadingsView,
) -> Result<ScalarExprView, PlanErrorView>
    decreases e, 2int,
{
    match e {
        Expr::Literal(lit) => Ok(literal::literal_value(lit, r)),
        Expr::Column { name } => operation::resolved_column(name, input, scope),
        Expr::Parameter { index } => Ok(
            ScalarExprView::Parameter { index, data_type: DataTypeView::Null },
        ),
        Expr::Paren { expr } => bound_value(*expr, input, cat, ctes, scope, r),
        Expr::Collate { expr, collation } => match bound_value(*expr, input, cat, ctes, scope, r) {
            Err(err) => Err(err),
            Ok(x) => builtin::collated(collation, x),
        },
        Expr::AtTimeZone { expr, zone } => match bound_value(*expr, input, cat, ctes, scope, r) {
            Err(err) => Err(err),
            Ok(x) => match bound_value(*zone, input, cat, ctes, scope, r) {
                Err(err) => Err(err),
                Ok(z) => operation::at_zone(x, z, r),
            },
        },
        Expr::ArrayLiteral { elements } => match bound_elements(
            elements@,
            0,
            Seq::empty(),
            None,
            input,
            cat,
            ctes,
            scope,
            r,
        ) {
            Err(err) => Err(err),
            Ok((list, t)) => operation::array_constant(list, t, r),
        },
        Expr::ArraySubscript { expr, index } => match bound_value(
            *expr,
            input,
            cat,
            ctes,
            scope,
            r,
        ) {
            Err(err) => Err(err),
            Ok(a) => match bound_value(*index, input, cat, ctes, scope, r) {
                Err(err) => Err(err),
                Ok(i) => operation::subscript(a, i),
            },
        },
        Expr::ArraySlice { expr, lower, upper } => match bound_value(
            *expr,
            input,
            cat,
            ctes,
            scope,
            r,
        ) {
            Err(err) => Err(err),
            Ok(a) => match operation::slice_input(a) {
                Err(err) => Err(err),
                Ok(t) => match bound_slice_end(lower, input, cat, ctes, scope, r) {
                    Err(err) => Err(err),
                    Ok(lo) => match bound_slice_end(upper, input, cat, ctes, scope, r) {
                        Err(err) => Err(err),
                        Ok(hi) => Ok(operation::call3("__ultrasql_array_slice"@, a, lo, hi, t)),
                    },
                },
            },
        },
        Expr::Unary { op, expr } => match smallest_number(op, *expr) {
            Some(x) => Ok(x),
            None => match bound_value(*expr, input, cat, ctes, scope, r) {
                Err(err) => Err(err),
                Ok(x) => operation::unary_operation(op, x),
            },
        },
        Expr::Binary { op, left, right } => match bound_value(*left, input, cat, ctes, scope, r) {
            Err(err) => Err(err),
            Ok(a) => match bound_value(*right, input, cat, ctes, scope, r) {
                Err(err) => Err(err),
                Ok(b) => operation::folded_operation(op, a, b, r),
            },
        },
        Expr::IsNull { expr, negated } => match bound_value(*expr, input, cat, ctes, scope, r) {
            Err(err) => Err(err),
            Ok(x) => Ok(ScalarExprView::IsNull { expr: Box::new(x), negated }),
        },
        Expr::Call { name, args, distinct, within_group, over } => {
            let func = names::simple_name(name);
            if aggregate_call::names_aggregate(func) && !aggregate_call::scalar_min_max(
                func,
                args@.len(),
                distinct,
                within_group is Some,
                over is Some,
            ) {
                aggregate_column(
                    func,
                    aggregate_call::agg_output_name(
                        func,
                        args@,
                        aggregate_call::keys_of(within_group),
                    ),
                    input,
                )
            } else {
                match bound_values(args@, 0, Seq::empty(), input, cat, ctes, scope, r) {
                    Err(err) => Err(err),
                    Ok(list) => operation::builtin_call(func, list, r),
                }
            }
        },
        Expr::Row { fields } => match bound_values(
            fields@,
            0,
            Seq::empty(),
            input,
            cat,
            ctes,
            scope,
            r,
        ) {
            Err(err) => Err(err),
            Ok(list) => Ok(operation::row(list)),
        },
        Expr::Cast { expr, target } => bound_cast(*expr, target, input, cat, ctes, scope, r),
        Expr::PostfixCast { expr, target } => bound_cast(*expr, target, input, cat, ctes, scope, r),
        Expr::Subquery { select } => match bound::bound_select_with_ctes(
            *select,
            cat,
            ctes,
            scope.push(input),
        ) {
            Err(err) => Err(err),
            Ok(p) => bound::subquery_value(p),
        },
        Expr::Exists { select, negated } => match bound::bound_select_with_ctes(
            *select,
            cat,
            ctes,
            scope.push(input),
        ) {
            Err(err) => Err(err),
            Ok(p) => Ok(
                ScalarExprView::Exists {
                    subplan: Box::new(p),
                    negated,
                    correlated: query::query_has_outer(p),
                },
            ),
        },
        Expr::InSubquery { expr, select, negated } => match bound_value(
            *expr,
            input,
            cat,
            ctes,
            scope,
            r,
        ) {
            Err(err) => Err(err),
            Ok(x) => match bound::bound_select_with_ctes(*select, cat, ctes, scope.push(input)) {
                Err(err) => Err(err),
                Ok(p) => bound::membership(
                    "IN subquery must return exactly 1 column, got "@,
                    x,
                    p,
                    negated,
                    true,
                ),
            },
        },
        Expr::Any { expr, op, select } => if op != BinaryOp::Eq {
            Err(only_equality())
        } else {
            match bound_value(*expr, input, cat, ctes, scope, r) {
                Err(err) => Err(err),
                Ok(x) => match bound::bound_select_with_ctes(
                    *select,
                    cat,
                    ctes,
                    scope.push(input),
                ) {
                    Err(err) => Err(err),
                    Ok(p) => bound::membership(
                        "= ANY subquery must return exactly 1 column, got "@,
                        x,
                        p,
                        false,
                        false,
                    ),
                },
            }
        },
        Expr::AnyArray { expr, op, array } => if op != BinaryOp::Eq {
            Err(only_equality())
        } else {
            match bound_value(*expr, input, cat, ctes, scope, r) {
                Err(err) => Err(err),
                Ok(x) => match bound_value(*array, input, cat, ctes, scope, r) {
                    Err(err) => Err(err),
                    Ok(a) => operation::any_element(x, a),
                },
            }
        },
        Expr::All { .. } => Err(
            PlanErrorView::NotSupported("ALL subquery expressions are not supported"@),
        ),
        Expr::Between { expr, low, high, negated, symmetric } => match bound_value(
            *expr,
            input,
            cat,
            ctes,
            scope,
            r,
        ) {
            Err(err) => Err(err),
            Ok(x) => match bound_value(*low, input, cat, ctes, scope, r) {
                Err(err) => Err(err),
                Ok(l) => match bound_value(*high, input, cat, ctes, scope, r) {
                    Err(err) => Err(err),
                    Ok(h) => operation::between(x, l, h, negated, symmetric, r),
                },
            },
        },
        Expr::Case { operand, branches, else_expr } => match bound_operand(
            operand,
            input,
            cat,
            ctes,
            scope,
            r,
        ) {
            Err(err) => Err(err),
            Ok(start) => match bound_branches(
                branches@,
                0,
                start,
                DataTypeView::Null,
                input,
                cat,
                ctes,
                scope,
                r,
            ) {
                Err(err) => Err(err),
                Ok((args, t)) => match bound_otherwise(else_expr, input, cat, ctes, scope, r) {
                    Err(err) => Err(err),
                    Ok(otherwise) => Ok(case_call(operand is Some, args, t, otherwise)),
                },
            },
        },
        Expr::InList { expr, items, negated } => match bound_value(
            *expr,
            input,
            cat,
            ctes,
            scope,
            r,
        ) {
            Err(err) => Err(err),
            Ok(x) => match bound_items(
                items@,
                0,
                None,
                x,
                negated,
                input,
                cat,
                ctes,
                scope,
                r,
            ) {
                Err(err) => Err(err),
                Ok(Some(t)) => Ok(t),
                Ok(None) => Ok(typing::constant(ValueView::Bool(negated), DataTypeView::Bool)),
            },
        },
        Expr::Coalesce { args } => match bound_values(
            args@,
            0,
            Seq::empty(),
            input,
            cat,
            ctes,
            scope,
            r,
        ) {
            Err(err) => Err(err),
            Ok(list) => operation::choice("coalesce"@, list, r),
        },
        Expr::NullIf { a, b } => match bound_value(*a, input, cat, ctes, scope, r) {
            Err(err) => Err(err),
            Ok(x) => match bound_value(*b, input, cat, ctes, scope, r) {
                Err(err) => Err(err),
                Ok(y) => operation::null_if(x, y, r),
            },
        },
        Expr::Greatest { args } => match bound_values(
            args@,
            0,
            Seq::empty(),
            input,
            cat,
            ctes,
            scope,
            r,
        ) {
            Err(err) => Err(err),
            Ok(list) => operation::choice("greatest"@, list, r),
        },
        Expr::Least { args } => match bound_values(
            args@,
            0,
            Seq::empty(),
            input,
            cat,
            ctes,
            scope,
            r,
        ) {
            Err(err) => Err(err),
            Ok(list) => operation::choice("least"@, list, r),
        },
        Expr::IsBoolean { expr, value, is_unknown, negated } => match bound_value(
            *expr,
            input,
            cat,
            ctes,
            scope,
            r,
        ) {
            Err(err) => Err(err),
            Ok(x) => operation::boolean_test(x, value, is_unknown, negated, r),
        },
        Expr::IsDistinctFrom { left, right, negated } => match bound_value(
            *left,
            input,
            cat,
            ctes,
            scope,
            r,
        ) {
            Err(err) => Err(err),
            Ok(a) => match bound_value(*right, input, cat, ctes, scope, r) {
                Err(err) => Err(err),
                Ok(b) => operation::distinct_test(a, b, negated, r),
            },
        },
        Expr::Default => Err(PlanErrorView::NotSupported("expression variant"@)),
    }
}

/// The complaint about `ANY` with another operator than `=`.
pub open spec fn only_equality() -> PlanErrorView {
    PlanErrorView::NotSupported("ANY with non-equality operator (only `= ANY` is supported)"@)
}

/// What a cast is bound to.
pub open spec fn bound_cast(
    e: Expr,
    target: Identifier,
    input: SchemaView,
    cat: CatalogView,
    ctes: Ctes,
    scope: Seq<SchemaView>,
    r: ReadingsView,
) -> Result<ScalarExprView, PlanErrorView>
    decreases e, 3int,
{
    match typename::cast_type_in(target.value@, cat) {
        None => Err(PlanErrorView::NotSupported("CAST target type is not implemented"@)),
        Some(t) => match bound_value(e, input, cat, ctes, scope, r) {
            Err(err) => Err(err),
            Ok(x) => operation::cast_operation(x, t, cat, r),
        },
    }
}

/// What an end of an array slice is bound to.
pub open spec fn bound_slice_end(
    e: Option<Box<Expr>>,
    input: SchemaView,
    cat: CatalogView,
    ctes: Ctes,
    scope: Seq<SchemaView>,
    r: ReadingsView,
) -> Result<ScalarExprView, PlanErrorView>
    decreases e, 3int,
{
    match e {
        None => Ok(typing::null_constant()),
        Some(x) => match bound_value(*x, input, cat, ctes, scope, r) {
            Err(err) => Err(err),
            Ok(b) => operation::slice_bound(b),
        },
    }
}

/// What the operand of a `CASE` is bound to, as its first arguments.
pub open spec fn bound_operand(
    e: Option<Box<Expr>>,
    input: SchemaView,
    cat: CatalogView,
    ctes: Ctes,
    scope: Seq<SchemaView>,
    r: ReadingsView,
) -> Result<Seq<ScalarExprView>, PlanErrorView>
    decreases e, 3int,
{
    match e {
        None => Ok(Seq::empty()),
        Some(x) => match bound_value(*x, input, cat, ctes, scope, r) {
            Err(err) => Err(err),
            Ok(b) => Ok(Seq::empty().push(b)),
        },
    }
}

/// What the `ELSE` of a `CASE` is bound to: null where there is none.
pub open spec fn bound_otherwise(
    e: Option<Box<Expr>>,
    input: SchemaView,
    cat: CatalogView,
    ctes: Ctes,
    scope: Seq<SchemaView>,
    r: ReadingsView,
) -> Result<ScalarExprView, PlanErrorView>
    decreases e, 3int,
{
    match e {
        None => Ok(typing::null_constant()),
        Some(x) => bound_value(*x, input, cat, ctes, scope, r),
    }
}

/// The first of two types that is not null.
pub open spec fn first_known(t: DataTypeView, u: DataTypeView) -> DataTypeView {
    if t is Null {
        u
    } else {
        t
    }
}

/// The call that a `CASE` stands for. Its type is the first known type among
/// its results.
pub open spec fn case_call(
    simple: bool,
    args: Seq<ScalarExprView>,
    t: DataTypeView,
    otherwise: ScalarExprView,
) -> ScalarExprView {
    ScalarExprView::FunctionCall {
        name: if simple {
            "case_simple"@
        } else {
            "case_searched"@
        },
        args: args.push(otherwise),
        data_type: first_known(t, query::scalar_type(otherwise)),
    }
}

/// What the branches of a `CASE` from the `i`-th on are bound to: each condition
/// and its result, and the first known type among the results.
pub open spec fn bound_branches(
    list: Seq<(Expr, Expr)>,
    i: int,
    acc: Seq<ScalarExprView>,
    t: DataTypeView,
    input: SchemaView,
    cat: CatalogView,
    ctes: Ctes,
    scope: Seq<SchemaView>,
    r: ReadingsView,
) -> Result<(Seq<ScalarExprView>, DataTypeView), PlanErrorView>
    decreases list, list.len() - i,
{
    if i < 0 || i >= list.len() {
        Ok((acc, t))
    } else {
        match bound_branch(list[i], input, cat, ctes, scope, r) {
            Err(e) => Err(e),
            Ok((when, result)) => bound_branches(
                list,
                i + 1,
                acc.push(when).push(result),
                first_known(t, query::scalar_type(result)),
                input,
                cat,
                ctes,
                scope,
                r,
            ),
        }
    }
}

/// What the items of an `IN` list from the `i`-th on are bound to, joined to the
/// tests before them.
pub open spec fn bound_items(
    list: Seq<Expr>,
    i: int,
    acc: Option<ScalarExprView>,
    subject: ScalarExprView,
    negated: bool,
    input: SchemaView,
    cat: CatalogView,
    ctes: Ctes,
    scope: Seq<SchemaView>,
    r: ReadingsView,
) -> Result<Option<ScalarExprView>, PlanErrorView>
    decreases list, list.len() - i,
{
    if i < 0 || i >= list.len() {
        Ok(acc)
    } else {
        match bound_value(list[i], input, cat, ctes, scope, r) {
            Err(e) => Err(e),
            Ok(x) => bound_items(
                list,
                i + 1,
                Some(operation::with_item(acc, subject, x, negated)),
                subject,
                negated,
                input,
                cat,
                ctes,
                scope,
                r,
            ),
        }
    }
}

/// What the elements of an array from the `i`-th on are bound to, and the type
/// that they have in common.
pub open spec fn bound_elements(
    list: Seq<Expr>,
    i: int,
    acc: Seq<ScalarExprView>,
    t: Option<DataTypeView>,
    input: SchemaView,
    cat: CatalogView,
    ctes: Ctes,
    scope: Seq<SchemaView>,
    r: ReadingsView,
) -> Result<(Seq<ScalarExprView>, Option<DataTypeView>), PlanErrorView>
    decreases list, list.len() - i,
{
    if i < 0 || i >= list.len() {
        Ok((acc, t))
    } else {
        match bound_value(list[i], input, cat, ctes, scope, r) {
            Err(e) => Err(e),
            Ok(x) => match operation::with_element(t, x) {
                Err(e) => Err(e),
                Ok(u) => bound_elements(
                    list,
                    i + 1,
                    acc.push(x),
                    u,
                    input,
                    cat,
                    ctes,
                    scope,
                    r,
                ),
            },
        }
    }
}

/// What the expressions from the `i`-th on are bound to, in order; the first
/// error counts.
pub open spec fn bound_values(
    list: Seq<Expr>,
    i: int,
    acc: Seq<ScalarExprView>,
    input: SchemaView,
    cat: CatalogView,
    ctes: Ctes,
    scope: Seq<SchemaView>,
    r: ReadingsView,
) -> Result<Seq<ScalarExprView>, PlanErrorView>
    decreases list, list.len() - i,
{
    if i < 0 || i >= list.len() {
        Ok(acc)
    } else {
        match bound_value(list[i], input, cat, ctes, scope, r) {
            Err(e) => Err(e),
            Ok(x) => bound_values(list, i + 1, acc.push(x), input, cat, ctes, scope, r),
        }
    }
}

fn bind_inner<C: Catalog>(
    select: &SelectStmt,
    input: &Schema,
    catalog: &C,
    ctes: &Vec<(String, Schema)>,
    scope: &mut ScopeStack,
) -> (made: Result<QueryPlan, PlanError>)
    ensures
        error::query_outcome(made) == bound::bound_select_with_ctes(
            *select,
            catalog.model(),
            bound::ctes_view(ctes@),
            old(scope).rows().push(input@),
        ),
        final(scope).frames@ == old(scope).frames@,
{
    scope.push(ScopeFrame { schema: input.duplicate(), qualifier: None });
    let made = bind_select_with_ctes(select, catalog, ctes, scope);
    scope.pop();
    assert(scope.frames@ =~= old(scope).frames@);
    made
}

/// Binds a list of expressions in order.
pub fn bind_values<C: Catalog>(
    list: &Vec<Expr>,
    input: &Schema,
    catalog: &C,
    ctes: &Vec<(String, Schema)>,
    scope: &mut ScopeStack,
    readings: &Readings,
) -> (made: Result<Vec<ScalarExpr>, PlanError>)
    ensures
        error::scalars_outcome(made) == bound_values(
            list@,
            0,
            Seq::empty(),
            input@,
            catalog.model(),
            bound::ctes_view(ctes@),
            old(scope).rows(),
            readings@,
        ),
        final(scope).frames@ == old(scope).frames@,
    decreases list, 3int,
{
    let ghost cat = catalog.model();
    let ghost cv = bound::ctes_view(ctes@);
    let ghost before = scope.rows();
    let mut out: Vec<ScalarExpr> = Vec::new();
    assert(query::scalars_view(out@) =~= Seq::empty());
    let mut i: usize = 0;
    while i < list.len()
        invariant
            i <= list.len(),
            scope.frames@ == old(scope).frames@,
            before == old(scope).rows(),
            cat == catalog.model(),
            cv == bound::ctes_view(ctes@),
            bound_values(
                list@,
                i as int,
                query::scalars_view(out@),
                input@,
                cat,
                cv,
                before,
                readings@,
            ) == bound_values(list@, 0, Seq::empty(), input@, cat, cv, before, readings@),
        decreases list.len() - i,
    {
        let e = bind_expr_with_ctes(&list[i], input, catalog, ctes, scope, readings)?;
        proof {
            query::lemma_scalars_push(out@, e);
        }
        out.push(e);
        i = i + 1;
    }
    Ok(out)
}

/// Elements and their type with their outcome as models.
pub open spec fn elements_outcome(
    r: Result<(Vec<ScalarExpr>, Option<DataType>), PlanError>,
) -> Result<
    (Seq<ScalarExprView>, Option<DataTypeView>),
    PlanErrorView,
> {
    match r {
        Ok((list, t)) => Ok((query::scalars_view(list@), typename::type_view(t))),
        Err(e) => Err(e@),
    }
}

fn bind_elements<C: Catalog>(
    list: &Vec<Expr>,
    input: &Schema,
    catalog: &C,
    ctes: &Vec<(String, Schema)>,
    scope: &mut ScopeStack,
    readings: &Readings,
) -> (made: Result<(Vec<ScalarExpr>, Option<DataType>), PlanError>)
    ensures
        elements_outcome(made) == bound_elements(
            list@,
            0,
            Seq::empty(),
            None,
            input@,
            catalog.model(),
            bound::ctes_view(ctes@),
            old(scope).rows(),
            readings@,
        ),
        final(scope).frames@ == old(scope).frames@,
    decreases list, 3int,
{
    let ghost cat = catalog.model();
    let ghost cv = bound::ctes_view(ctes@);
    let ghost before = scope.rows();
    let mut out: Vec<ScalarExpr> = Vec::new();
    let mut t: Option<DataType> = None;
    assert(query::scalars_view(out@) =~= Seq::empty());
    let mut i: usize = 0;
    while i < list.len()
        invariant
            i <= list.len(),
            scope.frames@ == old(scope).frames@,
            before == old(scope).rows(),
            cat == catalog.model(),
            cv == bound::ctes_view(ctes@),
            bound_elements(
                list@,
                i as int,
                query::scalars_view(out@),
                typename::type_view(t),
                input@,
                cat,
                cv,
                before,
                readings@,
            ) == bound_elements(list@, 0, Seq::empty(), None, input@, cat, cv, before, readings@),
        decreases list.len() - i,
    {
        let e = bind_expr_with_ctes(&list[i], input, catalog, ctes, scope, readings)?;
        t = add_element(t, &e)?;
        proof {
            query::lemma_scalars_push(out@, e);
        }
        out.push(e);
        i = i + 1;
    }
    Ok((out, t))
}

/// Branches and their type with their outcome as models.
pub open spec fn branches_outcome(r: Result<(Vec<ScalarExpr>, DataType), PlanError>) -> Result<
    (Seq<ScalarExprView>, DataTypeView),
    PlanErrorView,
> {
    match r {
        Ok((list, t)) => Ok((query::scalars_view(list@), t@)),
        Err(e) => Err(e@),
    }
}

/// What a condition of a `CASE` and its result are bound to.
pub open spec fn bound_branch(
    branch: (Expr, Expr),
    input: SchemaView,
    cat: CatalogView,
    ctes: Ctes,
    scope: Seq<SchemaView>,
    r: ReadingsView,
) -> Result<(ScalarExprView, ScalarExprView), PlanErrorView>
    decreases branch, 3int,
{
    match bound_value(branch.0, input, cat, ctes, scope, r) {
        Err(e) => Err(e),
        Ok(when) => match bound_value(branch.1, input, cat, ctes, scope, r) {
            Err(e) => Err(e),
            Ok(result) => Ok((when, result)),
        },
    }
}

fn bind_branch<C: Catalog>(
    branch: &(Expr, Expr),
    input: &Schema,
    catalog: &C,
    ctes: &Vec<(String, Schema)>,
    scope: &mut ScopeStack,
    readings: &Readings,
) -> (made: Result<(ScalarExpr, ScalarExpr), PlanError>)
    ensures
        operation::pair_outcome(made) == bound_branch(
            *branch,
            input@,
            catalog.model(),
            bound::ctes_view(ctes@),
            old(scope).rows(),
            readings@,
        ),
        final(scope).frames@ == old(scope).frames@,
    decreases branch, 3int,
{
    let when = bind_expr_with_ctes(&branch.0, input, catalog, ctes, scope, readings)?;
    let result = bind_expr_with_ctes(&branch.1, input, catalog, ctes, scope, readings)?;
    Ok((when, result))
}

fn bind_branches<C: Catalog>(
    list: &Vec<(Expr, Expr)>,
    start: &Vec<ScalarExpr>,
    input: &Schema,
    catalog: &C,
    ctes: &Vec<(String, Schema)>,
    scope: &mut ScopeStack,
    readings: &Readings,
) -> (made: Result<(Vec<ScalarExpr>, DataType), PlanError>)
    ensures
        branches_outcome(made) == bound_branches(
            list@,
            0,
            query::scalars_view(start@),
            DataTypeView::Null,
            input@,
            catalog.model(),
            bound::ctes_view(ctes@),
            old(scope).rows(),
            readings@,
        ),
        final(scope).frames@ == old(scope).frames@,
    decreases list, 3int,
{
    let ghost cat = catalog.model();
    let ghost cv = bound::ctes_view(ctes@);
    let ghost before = scope.rows();
    let ghost first = query::scalars_view(start@);
    let mut out: Vec<ScalarExpr> = query::duplicate_scalars(start);
    let mut t = DataType::Null;
    let mut i: usize = 0;
    while i < list.len()
        invariant
            i <= list.len(),
            scope.frames@ == old(scope).frames@,
            before == old(scope).rows(),
            cat == catalog.model(),
            cv == bound::ctes_view(ctes@),
            first == query::scalars_view(start@),
            bound_branches(
                list@,
                i as int,
                query::scalars_view(out@),
                t@,
                input@,
                cat,
                cv,
                before,
                readings@,
            ) == bound_branches(
                list@,
                0,
                first,
                DataTypeView::Null,
                input@,
                cat,
                cv,
                before,
                readings@,
            ),
        decreases list.len() - i,
    {
        let (when, result) = bind_branch(&list[i], input, catalog, ctes, scope, readings)?;
        if t.is_null() {
            t = result.data_type();
        }
        proof {
            query::lemma_scalars_push(out@, when);
            query::lemma_scalars_push(out@.push(when), result);
        }
        out.push(when);
        out.push(result);
        i = i + 1;
    }
    Ok((out, t))
}

#[verifier::rlimit(40)]
fn bind_items<C: Catalog>(
    list: &Vec<Expr>,
    subject: &ScalarExpr,
    negated: bool,
    input: &Schema,
    catalog: &C,
    ctes: &Vec<(String, Schema)>,
    scope: &mut ScopeStack,
    readings: &Readings,
) -> (made: Result<Option<ScalarExpr>, PlanError>)
    ensures
        literal::option_outcome(made) == bound_items(
            list@,
            0,
            None,
            subject@,
            negated,
            input@,
            catalog.model(),
            bound::ctes_view(ctes@),
            old(scope).rows(),
            readings@,
        ),
        final(scope).frames@ == old(scope).frames@,
    decreases list, 3int,
{
    let ghost cat = catalog.model();
    let ghost cv = bound::ctes_view(ctes@);
    let ghost before = scope.rows();
    let mut acc: Option<ScalarExpr> = None;
    let mut i: usize = 0;
    while i < list.len()
        invariant
            i <= list.len(),
            scope.frames@ == old(scope).frames@,
            before == old(scope).rows(),
            cat == catalog.model(),
            cv == bound::ctes_view(ctes@),
            bound_items(
                list@,
                i as int,
                literal::expr_of(acc),
                subject@,
                negated,
                input@,
                cat,
                cv,
                before,
                readings@,
            ) == bound_items(
                list@,
                0,
                None,
                subject@,
                negated,
                input@,
                cat,
                cv,
                before,
                readings@,
            ),
        decreases list.len() - i,
    {
        let ghost so_far = literal::expr_of(acc);
        let e = bind_expr_with_ctes(&list[i], input, catalog, ctes, scope, readings)?;
        let next = add_item(acc, subject, e, negated);
        assert(next@ == operation::with_item(so_far, subject@, e@, negated));
        acc = Some(next);
        i = i + 1;
    }
    Ok(acc)
}

/// Binds a cast.
pub fn bind_cast_expr<C: Catalog>(
    inner: &Expr,
    target: &Identifier,
    input: &Schema,
    catalog: &C,
    ctes: &Vec<(String, Schema)>,
    scope: &mut ScopeStack,
    readings: &Readings,
) -> (made: Result<ScalarExpr, PlanError>)
    ensures
        error::scalar_outcome(made) == bound_cast(
            *inner,
            *target,
            input@,
            catalog.model(),
            bound::ctes_view(ctes@),
            old(scope).rows(),
            readings@,
        ),
        final(scope).frames@ == old(scope).frames@,
    decreases inner, 3int,
{
    match resolve_cast_type_with_catalog(target.value.as_str(), catalog) {
        None => Err(PlanError::NotSupported("CAST target type is not implemented")),
        Some(t) => {
            let x = bind_expr_with_ctes(inner, input, catalog, ctes, scope, readings)?;
            make_cast(x, &t, catalog, readings)
        },
    }
}

/// Binds an end of an array slice.
pub fn bind_optional_array_bound<C: Catalog>(
    e: &Option<Box<Expr>>,
    input: &Schema,
    catalog: &C,
    ctes: &Vec<(String, Schema)>,
    scope: &mut ScopeStack,
    readings: &Readings,
) -> (made: Result<ScalarExpr, PlanError>)
    ensures
        error::scalar_outcome(made) == bound_slice_end(
            *e,
            input@,
            catalog.model(),
            bound::ctes_view(ctes@),
            old(scope).rows(),
            readings@,
        ),
        final(scope).frames@ == old(scope).frames@,
    decreases e, 3int,
{
    match e {
        None => Ok(ScalarExpr::Literal { value: Value::Null, data_type: DataType::Null }),
        Some(x) => {
            let b = bind_expr_with_ctes(x, input, catalog, ctes, scope, readings)?;
            check_slice_bound(b)
        },
    }
}

fn bind_operand<C: Catalog>(
    e: &Option<Box<Expr>>,
    input: &Schema,
    catalog: &C,
    ctes: &Vec<(String, Schema)>,
    scope: &mut ScopeStack,
    readings: &Readings,
) -> (made: Result<Vec<ScalarExpr>, PlanError>)
    ensures
        error::scalars_outcome(made) == bound_operand(
            *e,
            input@,
            catalog.model(),
            bound::ctes_view(ctes@),
            old(scope).rows(),
            readings@,
        ),
        final(scope).frames@ == old(scope).frames@,
    decreases e, 3int,
{
    let mut out: Vec<ScalarExpr> = Vec::new();
    assert(query::scalars_view(out@) =~= Seq::empty());
    match e {
        None => Ok(out),
        Some(x) => {
            let b = bind_expr_with_ctes(x, input, catalog, ctes, scope, readings)?;
            proof {
                query::lemma_scalars_push(out@, b);
            }
            out.push(b);
            Ok(out)
        },
    }
}

fn bind_otherwise<C: Catalog>(
    e: &Option<Box<Expr>>,
    input: &Schema,
    catalog: &C,
    ctes: &Vec<(String, Schema)>,
    scope: &mut ScopeStack,
    readings: &Readings,
) -> (made: Result<ScalarExpr, PlanError>)
    ensures
        error::scalar_outcome(made) == bound_otherwise(
            *e,
            input@,
            catalog.model(),
            bound::ctes_view(ctes@),
            old(scope).rows(),
            readings@,
        ),
        final(scope).frames@ == old(scope).frames@,
    decreases e, 3int,
{
    match e {
        None => Ok(ScalarExpr::Literal { value: Value::Null, data_type: DataType::Null }),
        Some(x) => bind_expr_with_ctes(x, input, catalog, ctes, scope, readings),
    }
}

fn make_case(simple: bool, args: Vec<ScalarExpr>, t: DataType, otherwise: ScalarExpr) -> (made:
    ScalarExpr)
    ensures
        made@ == case_call(simple, query::scalars_view(args@), t@, otherwise@),
{
    let data_type = if t.is_null() {
        otherwise.data_type()
    } else {
        t
    };
    let name = if simple {
        owned("case_simple")
    } else {
        owned("case_searched")
    };
    let mut args = args;
    proof {
        query::lemma_scalars_push(args@, otherwise);
    }
    args.push(otherwise);
    ScalarExpr::FunctionCall { name, args, data_type }
}

/// The aggregate column of a call, where it calls an aggregate function.
pub open spec fn call_column(
    e: Expr,
    input: SchemaView,
) -> Option<Result<ScalarExprView, PlanErrorView>> {
    match e {
        Expr::Call { name, args, distinct, within_group, over } => {
            let func = names::simple_name(name);
            if aggregate_call::names_aggregate(func) && !aggregate_call::scalar_min_max(
                func,
                args@.len(),
                distinct,
                within_group is Some,
                over is Some,
            ) {
                Some(
                    aggregate_column(
                        func,
                        aggregate_call::agg_output_name(
                            func,
                            args@,
                            aggregate_call::keys_of(within_group),
                        ),
                        input,
                    ),
                )
            } else {
                None
            }
        },
        _ => None,
    }
}

/// An optional outcome as models.
pub open spec fn some_outcome(r: Option<Result<ScalarExpr, PlanError>>) -> Option<
    Result<ScalarExprView, PlanErrorView>,
> {
    match r {
        Some(x) => Some(error::scalar_outcome(x)),
        None => None,
    }
}

fn find_call_column(e: &Expr, input: &Schema) -> (made: Option<Result<ScalarExpr, PlanError>>)
    ensures
        some_outcome(made) == call_column(*e, input@),
{
    match e {
        Expr::Call { name, args, distinct, within_group, over } => {
            let func = object_name_simple(name);
            if is_aggregate_name(func.as_str()) && !is_scalar_min_max_call(
                func.as_str(),
                args.len(),
                *distinct,
                within_group.is_some(),
                over.is_some(),
            ) {
                let full = derive_agg_output_name(func.as_str(), args, within_group);
                Some(find_aggregate_column(func.as_str(), full.as_str(), input))
            } else {
                None
            }
        },
        _ => None,
    }
}

/// Binds an expression against a row.
pub fn bind_expr<C: Catalog>(
    expr: &Expr,
    input: &Schema,
    catalog: &C,
    scope: &mut ScopeStack,
    readings: &Readings,
) -> (made: Result<ScalarExpr, PlanError>)
    ensures
        error::scalar_outcome(made) == bound_value(
            *expr,
            input@,
            catalog.model(),
            Seq::empty(),
            old(scope).rows(),
            readings@,
        ),
        final(scope).frames@ == old(scope).frames@,
{
    let none: Vec<(String, Schema)> = Vec::new();
    assert(bound::ctes_view(none@) =~= Seq::empty());
    bind_expr_with_ctes(expr, input, catalog, &none, scope, readings)
}

/// Binds an expression against a row, with common table expressions in view.
#[verifier::rlimit(60)]
pub fn bind_expr_with_ctes<C: Catalog>(
    expr: &Expr,
    input: &Schema,
    catalog: &C,
    ctes: &Vec<(String, Schema)>,
    scope: &mut ScopeStack,
    readings: &Readings,
) -> (made: Result<ScalarExpr, PlanError>)
    ensures
        error::scalar_outcome(made) == bound_value(
            *expr,
            input@,
            catalog.model(),
            bound::ctes_view(ctes@),
            old(scope).rows(),
            readings@,
        ),
        final(scope).frames@ == old(scope).frames@,
    decreases expr, 2int,
{
    match expr {
        Expr::Literal(lit) => Ok(bind_literal(lit, readings)),
        Expr::Column { name } => bind_column(name, input, scope),
        Expr::Parameter { index } => Ok(
            ScalarExpr::Parameter { index: *index, data_type: DataType::Null },
        ),
        Expr::Paren { expr: inner } => bind_expr_with_ctes(
            inner,
            input,
            catalog,
            ctes,
            scope,
            readings,
        ),
        Expr::Collate { expr: inner, collation } => {
            let x = bind_expr_with_ctes(inner, input, catalog, ctes, scope, readings)?;
            bind_collated_expr(collation, x)
        },
        Expr::AtTimeZone { expr: inner, zone } => {
            let x = bind_expr_with_ctes(inner, input, catalog, ctes, scope, readings)?;
            let z = bind_expr_with_ctes(zone, input, catalog, ctes, scope, readings)?;
            make_at_zone(x, z, readings)
        },
        Expr::ArrayLiteral { elements } => {
            let (list, t) = bind_elements(elements, input, catalog, ctes, scope, readings)?;
            make_array(&list, t, readings)
        },
        Expr::ArraySubscript { expr: inner, index } => {
            let a = bind_expr_with_ctes(inner, input, catalog, ctes, scope, readings)?;
            let i = bind_expr_with_ctes(index, input, catalog, ctes, scope, readings)?;
            make_subscript(a, i)
        },
        Expr::ArraySlice { expr: inner, lower, upper } => {
            let a = bind_expr_with_ctes(inner, input, catalog, ctes, scope, readings)?;
            let t = check_slice_input(&a)?;
            let lo = bind_optional_array_bound(lower, input, catalog, ctes, scope, readings)?;
            let hi = bind_optional_array_bound(upper, input, catalog, ctes, scope, readings)?;
            Ok(make_call3("__ultrasql_array_slice", a, lo, hi, t))
        },
        Expr::Unary { op, expr: inner } => {
            if let Some(x) = bind_smallest_number(*op, inner) {
                return Ok(x);
            }
            let x = bind_expr_with_ctes(inner, input, catalog, ctes, scope, readings)?;
            make_unary(*op, x)
        },
        Expr::Binary { op, left, right } => {
            let a = bind_expr_with_ctes(left, input, catalog, ctes, scope, readings)?;
            let b = bind_expr_with_ctes(right, input, catalog, ctes, scope, readings)?;
            make_folded(*op, a, b, readings)
        },
        Expr::IsNull { expr: inner, negated } => {
            let x = bind_expr_with_ctes(inner, input, catalog, ctes, scope, readings)?;
            Ok(ScalarExpr::IsNull { expr: Box::new(x), negated: *negated })
        },
        Expr::Call { name, args, .. } => {
            if let Some(found) = find_call_column(expr, input) {
                return found;
            }
            let list = bind_values(args, input, catalog, ctes, scope, readings)?;
            make_builtin_call(object_name_simple(name), list, readings)
        },
        Expr::Row { fields } => {
            let list = bind_values(fields, input, catalog, ctes, scope, readings)?;
            Ok(make_row(list))
        },
        Expr::Cast { expr: inner, target } => bind_cast_expr(
            inner,
            target,
            input,
            catalog,
            ctes,
            scope,
            readings,
        ),
        Expr::PostfixCast { expr: inner, target } => bind_cast_expr(
            inner,
            target,
            input,
            catalog,
            ctes,
            scope,
            readings,
        ),
        Expr::Subquery { select } => {
            let plan = bind_inner(select, input, catalog, ctes, scope)?;
            make_subquery_value(plan)
        },
        Expr::Exists { select, negated } => {
            let plan = bind_inner(select, input, catalog, ctes, scope)?;
            let correlated = query_contains_outer_column(&plan);
            Ok(ScalarExpr::Exists { subplan: Box::new(plan), negated: *negated, correlated })
        },
        Expr::InSubquery { expr: lhs, select, negated } => {
            let x = bind_expr_with_ctes(lhs, input, catalog, ctes, scope, readings)?;
            let plan = bind_inner(select, input, catalog, ctes, scope)?;
            make_membership(
                "IN subquery must return exactly 1 column, got ",
                x,
                plan,
                *negated,
                true,
            )
        },
        Expr::Any { expr: lhs, op, select } => {
            if *op != BinaryOp::Eq {
                return Err(
                    PlanError::NotSupported(
                        "ANY with non-equality operator (only `= ANY` is supported)",
                    ),
                );
            }
            let x = bind_expr_with_ctes(lhs, input, catalog, ctes, scope, readings)?;
            let plan = bind_inner(select, input, catalog, ctes, scope)?;
            make_membership(
                "= ANY subquery must return exactly 1 column, got ",
                x,
                plan,
                false,
                false,
            )
        },
        Expr::AnyArray { expr: lhs, op, array } => {
            if *op != BinaryOp::Eq {
                return Err(
                    PlanError::NotSupported(
                        "ANY with non-equality operator (only `= ANY` is supported)",
                    ),
                );
            }
            let x = bind_expr_with_ctes(lhs, input, catalog, ctes, scope, readings)?;
            let a = bind_expr_with_ctes(array, input, catalog, ctes, scope, readings)?;
            make_any_element(x, a)
        },
        Expr::All { .. } => Err(
            PlanError::NotSupported("ALL subquery expressions are not supported"),
        ),
        Expr::Between { expr: subject, low, high, negated, symmetric } => {
            let x = bind_expr_with_ctes(subject, input, catalog, ctes, scope, readings)?;
            let l = bind_expr_with_ctes(low, input, catalog, ctes, scope, readings)?;
            let h = bind_expr_with_ctes(high, input, catalog, ctes, scope, readings)?;
            make_between(x, l, h, *negated, *symmetric, readings)
        },
        Expr::Case { operand, branches, else_expr } => {
            let start = bind_operand(operand, input, catalog, ctes, scope, readings)?;
            let (args, t) = bind_branches(
                branches,
                &start,
                input,
                catalog,
                ctes,
                scope,
                readings,
            )?;
            let otherwise = bind_otherwise(else_expr, input, catalog, ctes, scope, readings)?;
            Ok(make_case(operand.is_some(), args, t, otherwise))
        },
        Expr::InList { expr: subject, items, negated } => {
            let x = bind_expr_with_ctes(subject, input, catalog, ctes, scope, readings)?;
            match bind_items(items, &x, *negated, input, catalog, ctes, scope, readings)? {
                Some(t) => Ok(t),
                None => Ok(
                    ScalarExpr::Literal {
                        value: Value::Bool(*negated),
                        data_type: DataType::Bool,
                    },
                ),
            }
        },
        Expr::Coalesce { args } => {
            let list = bind_values(args, input, catalog, ctes, scope, readings)?;
            make_choice("coalesce", list, readings)
        },
        Expr::NullIf { a, b } => {
            let x = bind_expr_with_ctes(a, input, catalog, ctes, scope, readings)?;
            let y = bind_expr_with_ctes(b, input, catalog, ctes, scope, readings)?;
            make_null_if(x, y, readings)
        },
        Expr::Greatest { args } => {
            let list = bind_values(args, input, catalog, ctes, scope, readings)?;
            make_choice("greatest", list, readings)
        },
        Expr::Least { args } => {
            let list = bind_values(args, input, catalog, ctes, scope, readings)?;
            make_choice("least", list, readings)
        },
        Expr::IsBoolean { expr: inner, value, is_unknown, negated } => {
            let x = bind_expr_with_ctes(inner, input, catalog, ctes, scope, readings)?;
            make_boolean_test(x, *value, *is_unknown, *negated, readings)
        },
        Expr::IsDistinctFrom { left, right, negated } => {
            let a = bind_expr_with_ctes(left, input, catalog, ctes, scope, readings)?;
            let b = bind_expr_with_ctes(right, input, catalog, ctes, scope, readings)?;
            make_distinct_test(a, b, *negated, readings)
        },
        Expr::Default => Err(PlanError::NotSupported("expression variant")),
    }
}

} // verus!
