//! Binding of aggregation and of projections.
use crate::ast::{Expr, Identifier, Literal, OrderItem, SelectItem, SelectStmt};
use crate::binder::aggregate::{is_collected, is_star_argument};
use crate::binder::names::{object_name_simple, output_column_name};
use crate::binder::relation::{
    build_unique_schema, column_of, push_all_columns, push_qualified, ScopeEntry, ScopeEntryView,
};
use crate::binder::select::sort_key;
use crate::binder::typing::type_error;
use crate::binder::{aggregate, bound, names, relation, select, typing};
use crate::catalog::{Catalog, CatalogView};
use crate::datatype::{DataType, DataTypeView};
use crate::dialect::aggregate_call::{
    aggregate_return_type, classify_aggregate, derive_agg_output_name, expr_has_aggregate,
    is_aggregate_name, is_scalar_min_max_call,
};
use crate::dialect::builtin::{bind_collated_expr, is_supported_builtin};
use crate::dialect::coerce::coerce_literal_to_match;
use crate::dialect::expr::{bind_expr_with_ctes, Ctes};
use crate::dialect::operation::{make_builtin_call, make_choice, make_null_if, make_row};
use crate::dialect::reading::{Readings, ReadingsView};
use crate::dialect::{aggregate_call, builtin, coerce, expr, operation};
use crate::error::{schema_or_mismatch, PlanError, PlanErrorView};
use crate::query::{
    AggregateFunc, LogicalAggregateExpr, LogicalAggregateExprView, QueryPlan, QueryPlanView,
    ScalarExpr, ScalarExprView, SortKey, SortKeyView,
};
use crate::schema::{Field, FieldView, Schema, SchemaView};
use crate::scope::ScopeStack;
use crate::text::{cat2, cat3, owned, read_i64, show_i64, show_usize, text_eq};
use crate::{datatype, error, list, query, schema, text};
use vstd::prelude::*;

verus! {

/// The first of the offered columns, from the `k`-th on, that stands at a place.
pub open spec fn entry_at(entries: Seq<ScopeEntryView>, place: int, k: int) -> Option<int>
    decreases entries.len() - k,
{
    if k < 0 || k >= entries.len() {
        None
    } else if entries[k].field_index == place {
        Some(k)
    } else {
        entry_at(entries, place, k + 1)
    }
}

/// The columns of a row, each under the name by which it can be qualified.
pub open spec fn qualified_fields(
    input: SchemaView,
    entries: Seq<ScopeEntryView>,
) -> Seq<FieldView> {
    Seq::new(
        input.fields.len(),
        |i: int|
            match entry_at(entries, i, 0) {
                Some(k) => FieldView {
                    name: entries[k].qualifier + "."@ + entries[k].field.name,
                    ..input.fields[i]
                },
                None => input.fields[i],
            },
    )
}

/// The row against which qualified and unqualified names are bound.
pub open spec fn binding_schema(input: SchemaView, entries: Seq<ScopeEntryView>) -> Result<
    SchemaView,
    PlanErrorView,
> {
    error::labelled_schema("FROM clause: "@, qualified_fields(input, entries))
}

fn find_entry(entries: &Vec<ScopeEntry>, place: usize) -> (at: Option<usize>)
    ensures
        (match at {
            Some(k) => Some(k as int),
            None => None,
        }) == entry_at(relation::entries_view(entries@), place as int, 0),
        at matches Some(k) ==> k < entries.len(),
{
    let ghost model = relation::entries_view(entries@);
    let mut k: usize = 0;
    while k < entries.len()
        invariant
            k <= entries.len(),
            model == relation::entries_view(entries@),
            entry_at(model, place as int, k as int) == entry_at(model, place as int, 0),
        decreases entries.len() - k,
    {
        if entries[k].field_index == place {
            return Some(k);
        }
        k = k + 1;
    }
    None
}

/// Makes the row against which qualified and unqualified names are bound.
pub fn schema_for_qualified_binding(input: &Schema, entries: &Vec<ScopeEntry>) -> (made: Result<
    Schema,
    PlanError,
>)
    ensures
        error::schema_outcome(made) == binding_schema(input@, relation::entries_view(entries@)),
{
    let ghost wanted = qualified_fields(input@, relation::entries_view(entries@));
    let mut fields: Vec<Field> = Vec::new();
    let mut i: usize = 0;
    while i < input.fields.len()
        invariant
            i <= input.fields.len(),
            fields.len() == i,
            wanted == qualified_fields(input@, relation::entries_view(entries@)),
            forall|j: int| 0 <= j < i ==> (#[trigger] fields@[j])@ == wanted[j],
        decreases input.fields.len() - i,
    {
        let mut f = input.fields[i].duplicate();
        if let Some(k) = find_entry(entries, i) {
            f.name = cat3(
                entries[k].qualifier.as_str(),
                ".",
                entries[k].field.name.as_str(),
            );
        }
        fields.push(f);
        i = i + 1;
    }
    assert(schema::fields_view(fields@) =~= wanted);
    schema_or_mismatch("FROM clause: ", fields)
}

/// The position in the projection that a bare integer stands for.
pub open spec fn ordinal_of(e: Expr) -> Option<int> {
    match e {
        Expr::Literal(lit) => match lit {
            Literal::Integer { text } => text::within(
                text::int_value(text@),
                i64::MIN as int,
                i64::MAX as int,
            ),
            _ => None,
        },
        _ => None,
    }
}

/// Reads the position in the projection that a bare integer stands for.
pub fn positional_ordinal(e: &Expr) -> (out: Option<i64>)
    ensures
        (match out {
            Some(n) => Some(n as int),
            None => None,
        }) == ordinal_of(*e),
{
    match e {
        Expr::Literal(Literal::Integer { text }) => read_i64(text.as_str()),
        _ => None,
    }
}

/// Whether every item of a projection is an expression.
pub open spec fn all_plain(items: Seq<SelectItem>) -> bool {
    forall|i: int| 0 <= i < items.len() ==> (#[trigger] items[i]) is Expr
}

fn is_all_plain(items: &Vec<SelectItem>) -> (yes: bool)
    ensures
        yes == all_plain(items@),
{
    let mut i: usize = 0;
    while i < items.len()
        invariant
            i <= items.len(),
            forall|j: int| 0 <= j < i ==> (#[trigger] items@[j]) is Expr,
        decreases items.len() - i,
    {
        if !matches!(items[i], SelectItem::Expr { .. }) {
            assert(!(items@[i as int] is Expr));
            return false;
        }
        i = i + 1;
    }
    true
}

/// The expression that a `GROUP BY` item stands for: a bare integer stands for
/// an expression of the projection.
pub open spec fn group_target(e: Expr, items: Seq<SelectItem>) -> Result<Expr, PlanErrorView> {
    match ordinal_of(e) {
        None => Ok(e),
        Some(n) => if !all_plain(items) {
            Err(
                PlanErrorView::NotSupported(
                    "positional GROUP BY with a wildcard in the SELECT list"@,
                ),
            )
        } else if n < 1 || n > items.len() {
            Err(
                PlanErrorView::TypeMismatch(
                    "GROUP BY position "@ + text::decimal_int(n) + " is not in select list"@,
                ),
            )
        } else {
            match items[n - 1] {
                SelectItem::Expr { expr, .. } => if aggregate_call::has_aggregate(expr) {
                    Err(
                        PlanErrorView::TypeMismatch(
                            "GROUP BY position "@ + text::decimal_int(n)
                                + " refers to an aggregate expression, which is not allowed"@,
                        ),
                    )
                } else {
                    Ok(expr)
                },
                _ => Ok(e),
            }
        },
    }
}

fn find_group_target<'a>(
    e: &'a Expr,
    items: &'a Vec<SelectItem>,
) -> (made: Result<&'a Expr, PlanError>)
    ensures
        (match made {
            Ok(x) => Ok(*x),
            Err(err) => Err(err@),
        }) == group_target(*e, items@),
{
    let n: i64 = match positional_ordinal(e) {
        Some(n) => n,
        None => return Ok(e),
    };
    if !is_all_plain(items) {
        return Err(
            PlanError::NotSupported("positional GROUP BY with a wildcard in the SELECT list"),
        );
    }
    if n < 1 || (n - 1) as u64 >= items.len() as u64 {
        return Err(
            PlanError::TypeMismatch(
                cat3("GROUP BY position ", show_i64(n).as_str(), " is not in select list"),
            ),
        );
    }
    match &items[(n - 1) as usize] {
        SelectItem::Expr { expr, .. } => {
            if expr_has_aggregate(expr) {
                return Err(
                    PlanError::TypeMismatch(
                        cat3(
                            "GROUP BY position ",
                            show_i64(n).as_str(),
                            " refers to an aggregate expression, which is not allowed",
                        ),
                    ),
                );
            }
            Ok(expr)
        },
        _ => Ok(e),
    }
}

/// What the `GROUP BY` items from the `i`-th on are bound to.
pub open spec fn bound_groups(
    list: Seq<Expr>,
    i: int,
    acc: Seq<ScalarExprView>,
    items: Seq<SelectItem>,
    input: SchemaView,
    cat: CatalogView,
    ctes: Ctes,
    scope: Seq<SchemaView>,
    r: ReadingsView,
) -> Result<Seq<ScalarExprView>, PlanErrorView>
    decreases list.len() - i,
{
    if i < 0 || i >= list.len() {
        Ok(acc)
    } else {
        match group_target(list[i], items) {
            Err(e) => Err(e),
            Ok(target) => match expr::bound_value(target, input, cat, ctes, scope, r) {
                Err(e) => Err(e),
                Ok(x) => bound_groups(
                    list,
                    i + 1,
                    acc.push(x),
                    items,
                    input,
                    cat,
                    ctes,
                    scope,
                    r,
                ),
            },
        }
    }
}

fn bind_groups<C: Catalog>(
    list: &Vec<Expr>,
    items: &Vec<SelectItem>,
    input: &Schema,
    catalog: &C,
    ctes: &Vec<(String, Schema)>,
    scope: &mut ScopeStack,
    readings: &Readings,
) -> (made: Result<Vec<ScalarExpr>, PlanError>)
    ensures
        error::scalars_outcome(made) == bound_groups(
            list@,
            0,
            Seq::empty(),
            items@,
            input@,
            catalog.model(),
            bound::ctes_view(ctes@),
            old(scope).rows(),
            readings@,
        ),
        final(scope).frames@ == old(scope).frames@,
{
    let ghost cat = catalog.model();
    let ghost cv = bound::ctes_view(ctes@);
    let ghost before = scope.rows();
    let mut out: Vec<ScalarExpr> = Vec::new();
    assert(query::scalars_view(out@) =~= Seq::empty());
    let mut i: usize = 0;
    while i < list.len()
        invariant
            i <= list.len(),
            scope.frames@ == old(scope).frames@,
            before == old(scope).rows(),
            cat == catalog.model(),
            cv == bound::ctes_view(ctes@),
            bound_groups(
                list@,
                i as int,
                query::scalars_view(out@),
                items@,
                input@,
                cat,
                cv,
                before,
                readings@,
            ) == bound_groups(
                list@,
                0,
                Seq::empty(),
                items@,
                input@,
                cat,
                cv,
                before,
                readings@,
            ),
        decreases list.len() - i,
    {
        let target = find_group_target(&list[i], items)?;
        let e = bind_expr_with_ctes(target, input, catalog, ctes, scope, readings)?;
        proof {
            query::lemma_scalars_push(out@, e);
        }
        out.push(e);
        i = i + 1;
    }
    Ok(out)
}

/// The bound arguments of an aggregate call.
#[derive(Debug, PartialEq)]
pub struct BoundAggregateInput {
    pub arg: Option<ScalarExpr>,
    pub direct_arg: Option<ScalarExpr>,
    pub order_by: Option<SortKey>,
    pub arg_type: DataType,
}

/// The model of a [`BoundAggregateInput`].
pub struct BoundAggregateInputView {
    pub arg: Option<ScalarExprView>,
    pub direct_arg: Option<ScalarExprView>,
    pub order_by: Option<SortKeyView>,
    pub arg_type: DataTypeView,
}

impl BoundAggregateInput {
    pub open spec fn view(&self) -> BoundAggregateInputView {
        BoundAggregateInputView {
            arg: match self.arg {
                Some(x) => Some(x@),
                None => None,
            },
            direct_arg: match self.direct_arg {
                Some(x) => Some(x@),
                None => None,
            },
            order_by: match self.order_by {
                Some(x) => Some(x@),
                None => None,
            },
            arg_type: self.arg_type@,
        }
    }
}

/// Bound arguments with their outcome as models.
pub open spec fn input_outcome(r: Result<BoundAggregateInput, PlanError>) -> Result<
    BoundAggregateInputView,
    PlanErrorView,
> {
    match r {
        Ok(x) => Ok(x@),
        Err(e) => Err(e@),
    }
}

/// One argument.
pub open spec fn one_argument(x: ScalarExprView) -> BoundAggregateInputView {
    BoundAggregateInputView {
        arg: Some(x),
        direct_arg: None,
        order_by: None,
        arg_type: query::scalar_type(x),
    }
}

fn make_one_argument(x: ScalarExpr) -> (made: BoundAggregateInput)
    ensures
        made@ == one_argument(x@),
{
    let arg_type = x.data_type();
    BoundAggregateInput { arg: Some(x), direct_arg: None, order_by: None, arg_type }
}

/// The arguments of `string_agg`: a value and a delimiter of text.
pub open spec fn string_agg_input(
    args: Seq<Expr>,
    input: SchemaView,
    cat: CatalogView,
    ctes: Ctes,
    scope: Seq<SchemaView>,
    r: ReadingsView,
) -> Result<BoundAggregateInputView, PlanErrorView> {
    if args.len() != 2 {
        Err(
            PlanErrorView::TypeMismatch(
                "string_agg: expected 2 arguments (value, delimiter), got "@ + text::decimal(
                    args.len(),
                ),
            ),
        )
    } else {
        match expr::bound_value(args[0], input, cat, ctes, scope, r) {
            Err(e) => Err(e),
            Ok(value) => match expr::bound_value(args[1], input, cat, ctes, scope, r) {
                Err(e) => Err(e),
                Ok(delimiter) => {
                    let t = query::scalar_type(delimiter);
                    if datatype::textlike(t) || t is Null {
                        Ok(
                            BoundAggregateInputView {
                                arg: Some(value),
                                direct_arg: Some(delimiter),
                                order_by: None,
                                arg_type: query::scalar_type(value),
                            },
                        )
                    } else {
                        Err(
                            typing::type_mismatch(
                                "string_agg: delimiter must be text, got "@,
                                t,
                            ),
                        )
                    }
                },
            },
        }
    }
}

/// Binds the arguments of `string_agg`.
pub fn bind_string_agg<C: Catalog>(
    args: &Vec<Expr>,
    input: &Schema,
    catalog: &C,
    ctes: &Vec<(String, Schema)>,
    scope: &mut ScopeStack,
    readings: &Readings,
) -> (made: Result<BoundAggregateInput, PlanError>)
    ensures
        input_outcome(made) == string_agg_input(
            args@,
            input@,
            catalog.model(),
            bound::ctes_view(ctes@),
            old(scope).rows(),
            readings@,
        ),
        final(scope).frames@ == old(scope).frames@,
{
    if args.len() != 2 {
        return Err(
            PlanError::TypeMismatch(
                cat2(
                    "string_agg: expected 2 arguments (value, delimiter), got ",
                    show_usize(args.len()).as_str(),
                ),
            ),
        );
    }
    let value = bind_expr_with_ctes(&args[0], input, catalog, ctes, scope, readings)?;
    let delimiter = bind_expr_with_ctes(&args[1], input, catalog, ctes, scope, readings)?;
    let t = delimiter.data_type();
    if !t.is_textlike() && !t.is_null() {
        return Err(type_error("string_agg: delimiter must be text, got ", &t));
    }
    let arg_type = value.data_type();
    Ok(
        BoundAggregateInput {
            arg: Some(value),
            direct_arg: Some(delimiter),
            order_by: None,
            arg_type,
        },
    )
}

/// The arguments of an ordered-set percentile: the fraction, and the one sort
/// key of its `WITHIN GROUP`.
pub open spec fn percentile_input(
    args: Seq<Expr>,
    within_group: Option<Seq<OrderItem>>,
    distinct: bool,
    input: SchemaView,
    cat: CatalogView,
    ctes: Ctes,
    scope: Seq<SchemaView>,
    r: ReadingsView,
) -> Result<BoundAggregateInputView, PlanErrorView> {
    if distinct {
        Err(
            PlanErrorView::NotSupported("DISTINCT is not supported for ordered-set percentiles"@),
        )
    } else if args.len() != 1 {
        Err(
            PlanErrorView::TypeMismatch(
                "ordered-set percentile: expected 1 direct argument, got "@ + text::decimal(
                    args.len(),
                ),
            ),
        )
    } else if within_group is None || within_group->Some_0.len() != 1 {
        Err(
            PlanErrorView::NotSupported(
                "ordered-set percentile requires one WITHIN GROUP order key"@,
            ),
        )
    } else {
        let item = within_group->Some_0[0];
        match expr::bound_value(args[0], input, cat, ctes, scope, r) {
            Err(e) => Err(e),
            Ok(direct) => match expr::bound_value(item.expr, input, cat, ctes, scope, r) {
                Err(e) => Err(e),
                Ok(key) => Ok(
                    BoundAggregateInputView {
                        arg: Some(key),
                        direct_arg: Some(direct),
                        order_by: Some(
                            SortKeyView {
                                expr: key,
                                asc: item.direction is Asc,
                                nulls_first: bound::sorts_nulls_first(item.direction, item.nulls),
                            },
                        ),
                        arg_type: query::scalar_type(key),
                    },
                ),
            },
        }
    }
}

/// Binds the arguments of an ordered-set percentile.
pub fn bind_ordered_set_percentile<C: Catalog>(
    args: &Vec<Expr>,
    within_group: &Option<Vec<OrderItem>>,
    distinct: bool,
    input: &Schema,
    catalog: &C,
    ctes: &Vec<(String, Schema)>,
    scope: &mut ScopeStack,
    readings: &Readings,
) -> (made: Result<BoundAggregateInput, PlanError>)
    ensures
        input_outcome(made) == percentile_input(
            args@,
            aggregate_call::keys_of(*within_group),
            distinct,
            input@,
            catalog.model(),
            bound::ctes_view(ctes@),
            old(scope).rows(),
            readings@,
        ),
        final(scope).frames@ == old(scope).frames@,
{
    if distinct {
        return Err(
            PlanError::NotSupported("DISTINCT is not supported for ordered-set percentiles"),
        );
    }
    if args.len() != 1 {
        return Err(
            PlanError::TypeMismatch(
                cat2(
                    "ordered-set percentile: expected 1 direct argument, got ",
                    show_usize(args.len()).as_str(),
                ),
            ),
        );
    }
    match within_group {
        Some(items) => {
            if items.len() == 1 {
                let direct = bind_expr_with_ctes(&args[0], input, catalog, ctes, scope, readings)?;
                let key = bind_expr_with_ctes(
                    &items[0].expr,
                    input,
                    catalog,
                    ctes,
                    scope,
                    readings,
                )?;
                let arg_type = key.data_type();
                let order_by = sort_key(key.duplicate(), items[0].direction, items[0].nulls);
                return Ok(
                    BoundAggregateInput {
                        arg: Some(key),
                        direct_arg: Some(direct),
                        order_by: Some(order_by),
                        arg_type,
                    },
                );
            }
        },
        None => {},
    }
    Err(PlanError::NotSupported("ordered-set percentile requires one WITHIN GROUP order key"))
}

/// The arguments of `corr`, as one row.
pub open spec fn corr_input(
    args: Seq<Expr>,
    input: SchemaView,
    cat: CatalogView,
    ctes: Ctes,
    scope: Seq<SchemaView>,
    r: ReadingsView,
) -> Result<BoundAggregateInputView, PlanErrorView> {
    if args.len() != 2 {
        Err(
            PlanErrorView::TypeMismatch(
                "corr: expected 2 arguments, got "@ + text::decimal(args.len()),
            ),
        )
    } else {
        match expr::bound_value(args[0], input, cat, ctes, scope, r) {
            Err(e) => Err(e),
            Ok(y) => match expr::bound_value(args[1], input, cat, ctes, scope, r) {
                Err(e) => Err(e),
                Ok(x) => Ok(one_argument(operation::row(seq![y, x]))),
            },
        }
    }
}

fn bind_corr<C: Catalog>(
    args: &Vec<Expr>,
    input: &Schema,
    catalog: &C,
    ctes: &Vec<(String, Schema)>,
    scope: &mut ScopeStack,
    readings: &Readings,
) -> (made: Result<BoundAggregateInput, PlanError>)
    ensures
        input_outcome(made) == corr_input(
            args@,
            input@,
            catalog.model(),
            bound::ctes_view(ctes@),
            old(scope).rows(),
            readings@,
        ),
        final(scope).frames@ == old(scope).frames@,
{
    if args.len() != 2 {
        return Err(
            PlanError::TypeMismatch(
                cat2("corr: expected 2 arguments, got ", show_usize(args.len()).as_str()),
            ),
        );
    }
    let y = bind_expr_with_ctes(&args[0], input, catalog, ctes, scope, readings)?;
    let x = bind_expr_with_ctes(&args[1], input, catalog, ctes, scope, readings)?;
    let mut pair: Vec<ScalarExpr> = Vec::new();
    pair.push(y);
    pair.push(x);
    assert(query::scalars_view(pair@) =~= seq![y@, x@]);
    Ok(make_one_argument(make_row(pair)))
}

/// No argument.
pub open spec fn no_argument() -> BoundAggregateInputView {
    BoundAggregateInputView {
        arg: None,
        direct_arg: None,
        order_by: None,
        arg_type: DataTypeView::Null,
    }
}

/// Whether a call has no argument but `*`.
pub open spec fn bare_call(args: Seq<Expr>) -> bool {
    args.len() == 0 || aggregate::star_argument(args)
}

/// What the arguments of an aggregate call are bound to.
pub open spec fn aggregate_input(
    func: AggregateFunc,
    args: Seq<Expr>,
    within_group: Option<Seq<OrderItem>>,
    distinct: bool,
    input: SchemaView,
    cat: CatalogView,
    ctes: Ctes,
    scope: Seq<SchemaView>,
    r: ReadingsView,
) -> Result<BoundAggregateInputView, PlanErrorView> {
    if func is PercentileCont || func is PercentileDisc {
        percentile_input(args, within_group, distinct, input, cat, ctes, scope, r)
    } else if within_group is Some {
        Err(PlanErrorView::NotSupported("WITHIN GROUP is supported for percentile aggregates"@))
    } else if bare_call(args) {
        Ok(no_argument())
    } else if func is StringAgg {
        string_agg_input(args, input, cat, ctes, scope, r)
    } else if func is Corr {
        corr_input(args, input, cat, ctes, scope, r)
    } else {
        match expr::bound_value(args[0], input, cat, ctes, scope, r) {
            Err(e) => Err(e),
            Ok(x) => Ok(one_argument(x)),
        }
    }
}

fn bind_aggregate_input<C: Catalog>(
    func: AggregateFunc,
    args: &Vec<Expr>,
    within_group: &Option<Vec<OrderItem>>,
    distinct: bool,
    input: &Schema,
    catalog: &C,
    ctes: &Vec<(String, Schema)>,
    scope: &mut ScopeStack,
    readings: &Readings,
) -> (made: Result<BoundAggregateInput, PlanError>)
    ensures
        input_outcome(made) == aggregate_input(
            func,
            args@,
            aggregate_call::keys_of(*within_group),
            distinct,
            input@,
            catalog.model(),
            bound::ctes_view(ctes@),
            old(scope).rows(),
            readings@,
        ),
        final(scope).frames@ == old(scope).frames@,
{
    if matches!(func, AggregateFunc::PercentileCont | AggregateFunc::PercentileDisc) {
        return bind_ordered_set_percentile(
            args,
            within_group,
            distinct,
            input,
            catalog,
            ctes,
            scope,
            readings,
        );
    }
    if within_group.is_some() {
        return Err(
            PlanError::NotSupported("WITHIN GROUP is supported for percentile aggregates"),
        );
    }
    if args.len() == 0 || is_star_argument(args) {
        return Ok(
            BoundAggregateInput {
                arg: None,
                direct_arg: None,
                order_by: None,
                arg_type: DataType::Null,
            },
        );
    }
    if matches!(func, AggregateFunc::StringAgg) {
        return bind_string_agg(args, input, catalog, ctes, scope, readings);
    }
    if matches!(func, AggregateFunc::Corr) {
        return bind_corr(args, input, catalog, ctes, scope, readings);
    }
    let x = bind_expr_with_ctes(&args[0], input, catalog, ctes, scope, readings)?;
    Ok(make_one_argument(x))
}

/// The aggregate calls so far, with one more unless it is among them.
pub open spec fn with_call(
    acc: Seq<LogicalAggregateExprView>,
    func: AggregateFunc,
    bound: BoundAggregateInputView,
    distinct: bool,
    name: Seq<char>,
) -> Seq<LogicalAggregateExprView> {
    if aggregate::already_collected(acc, func, name) {
        acc
    } else {
        acc.push(
            LogicalAggregateExprView {
                func,
                arg: bound.arg,
                direct_arg: bound.direct_arg,
                order_by: bound.order_by,
                distinct,
                output_name: name,
                data_type: aggregate_call::aggregate_type(func, bound.arg_type),
            },
        )
    }
}

fn push_call(
    out: &mut Vec<LogicalAggregateExpr>,
    func: AggregateFunc,
    bound: BoundAggregateInput,
    distinct: bool,
    name: String,
)
    ensures
        query::aggregate_exprs_view(final(out)@) == with_call(
            query::aggregate_exprs_view(old(out)@),
            func,
            bound@,
            distinct,
            name@,
        ),
        aggregate::grown(old(out)@, final(out)@),
{
    broadcast use {aggregate::lemma_grown_itself, aggregate::lemma_grown_on};

    if is_collected(out, func, name.as_str()) {
        return ;
    }
    let data_type = aggregate_return_type(func, bound.arg_type);
    let item = LogicalAggregateExpr {
        func,
        arg: bound.arg,
        direct_arg: bound.direct_arg,
        order_by: bound.order_by,
        distinct,
        output_name: name,
        data_type,
    };
    proof {
        aggregate::lemma_grown_with(out@, item);
    }
    out.push(item);
}

/// The column name of an aggregate call: its alias where it has one.
pub open spec fn call_name(
    func: Seq<char>,
    args: Seq<Expr>,
    within_group: Option<Seq<OrderItem>>,
    alias: Option<Identifier>,
) -> Seq<char> {
    match alias {
        Some(a) => a.value@,
        None => aggregate_call::agg_output_name(func, args, within_group),
    }
}

/// The aggregate calls of an expression, added to those so far. Within other
/// functions only builtin functions are looked into.
pub open spec fn collected(
    e: Expr,
    alias: Option<Identifier>,
    input: SchemaView,
    acc: Seq<LogicalAggregateExprView>,
    cat: CatalogView,
    ctes: Ctes,
    scope: Seq<SchemaView>,
    r: ReadingsView,
) -> Result<Seq<LogicalAggregateExprView>, PlanErrorView>
    decreases e, 0int,
{
    match e {
        Expr::Call { name, args, distinct, within_group, over } => {
            let func_name = names::simple_name(name);
            let scalar = aggregate_call::scalar_min_max(
                func_name,
                args@.len(),
                distinct,
                within_group is Some,
                over is Some,
            );
            let func = aggregate_call::aggregate_of(func_name, bare_call(args@));
            let keys = aggregate_call::keys_of(within_group);
            if scalar || func is None {
                if !builtin::supported_builtin(func_name) {
                    Err(
                        PlanErrorView::NotSupported(
                            "non-aggregate function calls in aggregation context"@,
                        ),
                    )
                } else {
                    collected_args(args@, 0, acc, input, cat, ctes, scope, r)
                }
            } else {
                match aggregate_input(
                    func->Some_0,
                    args@,
                    keys,
                    distinct,
                    input,
                    cat,
                    ctes,
                    scope,
                    r,
                ) {
                    Err(err) => Err(err),
                    Ok(bound) => Ok(
                        with_call(
                            acc,
                            func->Some_0,
                            bound,
                            distinct,
                            call_name(func_name, args@, keys, alias),
                        ),
                    ),
                }
            }
        },
        Expr::Paren { expr } => collected(*expr, alias, input, acc, cat, ctes, scope, r),
        Expr::Unary { expr, .. } => collected(*expr, alias, input, acc, cat, ctes, scope, r),
        Expr::Collate { expr, .. } => collected(*expr, alias, input, acc, cat, ctes, scope, r),
        Expr::Coalesce { args } => collected_args(args@, 0, acc, input, cat, ctes, scope, r),
        Expr::Greatest { args } => collected_args(args@, 0, acc, input, cat, ctes, scope, r),
        Expr::Least { args } => collected_args(args@, 0, acc, input, cat, ctes, scope, r),
        Expr::NullIf { a, b } => match collected(*a, None, input, acc, cat, ctes, scope, r) {
            Err(err) => Err(err),
            Ok(more) => collected(*b, None, input, more, cat, ctes, scope, r),
        },
        Expr::Binary { left, right, .. } => match collected(
            *left,
            None,
            input,
            acc,
            cat,
            ctes,
            scope,
            r,
        ) {
            Err(err) => Err(err),
            Ok(more) => collected(*right, None, input, more, cat, ctes, scope, r),
        },
        _ => Ok(acc),
    }
}

/// The aggregate calls of the expressions from the `i`-th on, added to those so
/// far.
pub open spec fn collected_args(
    list: Seq<Expr>,
    i: int,
    acc: Seq<LogicalAggregateExprView>,
    input: SchemaView,
    cat: CatalogView,
    ctes: Ctes,
    scope: Seq<SchemaView>,
    r: ReadingsView,
) -> Result<Seq<LogicalAggregateExprView>, PlanErrorView>
    decreases list, list.len() - i,
{
    if i < 0 || i >= list.len() {
        Ok(acc)
    } else {
        match collected(list[i], None, input, acc, cat, ctes, scope, r) {
            Err(e) => Err(e),
            Ok(more) => collected_args(list, i + 1, more, input, cat, ctes, scope, r),
        }
    }
}

fn collect_args<C: Catalog>(
    list: &Vec<Expr>,
    input: &Schema,
    out: &mut Vec<LogicalAggregateExpr>,
    catalog: &C,
    ctes: &Vec<(String, Schema)>,
    scope: &mut ScopeStack,
    readings: &Readings,
) -> (made: Result<(), PlanError>)
    ensures
        select::aggregates_outcome(made, final(out)@) == collected_args(
            list@,
            0,
            query::aggregate_exprs_view(old(out)@),
            input@,
            catalog.model(),
            bound::ctes_view(ctes@),
            old(scope).rows(),
            readings@,
        ),
        aggregate::grown(old(out)@, final(out)@),
        final(scope).frames@ == old(scope).frames@,
    decreases list, 1int,
{
    let ghost cat = catalog.model();
    let ghost cv = bound::ctes_view(ctes@);
    let ghost before = scope.rows();
    let ghost start = query::aggregate_exprs_view(out@);
    proof {
        aggregate::lemma_grown_itself(out@);
    }
    let mut i: usize = 0;
    while i < list.len()
        invariant
            i <= list.len(),
            scope.frames@ == old(scope).frames@,
            before == old(scope).rows(),
            cat == catalog.model(),
            cv == bound::ctes_view(ctes@),
            start == query::aggregate_exprs_view(old(out)@),
            aggregate::grown(old(out)@, out@),
            collected_args(
                list@,
                i as int,
                query::aggregate_exprs_view(out@),
                input@,
                cat,
                cv,
                before,
                readings@,
            ) == collected_args(list@, 0, start, input@, cat, cv, before, readings@),
        decreases list.len() - i,
    {
        let ghost so_far = out@;
        let made = collect_aggregates(&list[i], &None, input, out, catalog, ctes, scope, readings);
        proof {
            aggregate::lemma_grown_on(old(out)@, so_far, out@);
        }
        made?;
        i = i + 1;
    }
    Ok(())
}

/// Collects the aggregate calls of the arguments of a builtin function.
pub fn collect_non_aggregate_function_args<C: Catalog>(
    func_name: &str,
    args: &Vec<Expr>,
    input: &Schema,
    out: &mut Vec<LogicalAggregateExpr>,
    catalog: &C,
    ctes: &Vec<(String, Schema)>,
    scope: &mut ScopeStack,
    readings: &Readings,
) -> (made: Result<(), PlanError>)
    ensures
        select::aggregates_outcome(made, final(out)@) == (if !builtin::supported_builtin(
            func_name@,
        ) {
            Err(
                PlanErrorView::NotSupported(
                    "non-aggregate function calls in aggregation context"@,
                ),
            )
        } else {
            collected_args(
                args@,
                0,
                query::aggregate_exprs_view(old(out)@),
                input@,
                catalog.model(),
                bound::ctes_view(ctes@),
                old(scope).rows(),
                readings@,
            )
        }),
        aggregate::grown(old(out)@, final(out)@),
        final(scope).frames@ == old(scope).frames@,
    decreases args, 2int,
{
    broadcast use {aggregate::lemma_grown_itself, aggregate::lemma_grown_on};

    if !is_supported_builtin(func_name) {
        return Err(
            PlanError::NotSupported("non-aggregate function calls in aggregation context"),
        );
    }
    collect_args(args, input, out, catalog, ctes, scope, readings)
}

/// Collects the aggregate calls of an expression.
#[verifier::rlimit(40)]
pub fn collect_aggregates<C: Catalog>(
    expr: &Expr,
    alias: &Option<Identifier>,
    input: &Schema,
    out: &mut Vec<LogicalAggregateExpr>,
    catalog: &C,
    ctes: &Vec<(String, Schema)>,
    scope: &mut ScopeStack,
    readings: &Readings,
) -> (made: Result<(), PlanError>)
    ensures
        select::aggregates_outcome(made, final(out)@) == collected(
            *expr,
            *alias,
            input@,
            query::aggregate_exprs_view(old(out)@),
            catalog.model(),
            bound::ctes_view(ctes@),
            old(scope).rows(),
            readings@,
        ),
        aggregate::grown(old(out)@, final(out)@),
        final(scope).frames@ == old(scope).frames@,
    decreases expr, 0int,
{
    broadcast use {aggregate::lemma_grown_itself, aggregate::lemma_grown_on};

    match expr {
        Expr::Call { name, args, distinct, within_group, over } => {
            let func_name = object_name_simple(name);
            let bare = args.len() == 0 || is_star_argument(args);
            let scalar = is_scalar_min_max_call(
                func_name.as_str(),
                args.len(),
                *distinct,
                within_group.is_some(),
                over.is_some(),
            );
            let func = if scalar {
                None
            } else {
                classify_aggregate(func_name.as_str(), bare)
            };
            let func = match func {
                Some(f) => f,
                None => return collect_non_aggregate_function_args(
                    func_name.as_str(),
                    args,
                    input,
                    out,
                    catalog,
                    ctes,
                    scope,
                    readings,
                ),
            };
            let bound = bind_aggregate_input(
                func,
                args,
                within_group,
                *distinct,
                input,
                catalog,
                ctes,
                scope,
                readings,
            )?;
            let output_name = match alias {
                Some(a) => a.value.clone(),
                None => derive_agg_output_name(func_name.as_str(), args, within_group),
            };
            push_call(out, func, bound, *distinct, output_name);
            Ok(())
        },
        Expr::Paren { expr: inner } => collect_aggregates(
            inner,
            alias,
            input,
            out,
            catalog,
            ctes,
            scope,
            readings,
        ),
        Expr::Unary { expr: inner, .. } => collect_aggregates(
            inner,
            alias,
            input,
            out,
            catalog,
            ctes,
            scope,
            readings,
        ),
        Expr::Collate { expr: inner, .. } => collect_aggregates(
            inner,
            alias,
            input,
            out,
            catalog,
            ctes,
            scope,
            readings,
        ),
        Expr::Coalesce { args } => collect_args(args, input, out, catalog, ctes, scope, readings),
        Expr::Greatest { args } => collect_args(args, input, out, catalog, ctes, scope, readings),
        Expr::Least { args } => collect_args(args, input, out, catalog, ctes, scope, readings),
        Expr::NullIf { a, b } => {
            collect_aggregates(a, &None, input, out, catalog, ctes, scope, readings)?;
            collect_aggregates(b, &None, input, out, catalog, ctes, scope, readings)
        },
        Expr::Binary { left, right, .. } => {
            collect_aggregates(left, &None, input, out, catalog, ctes, scope, readings)?;
            collect_aggregates(right, &None, input, out, catalog, ctes, scope, readings)
        },
        _ => Ok(()),
    }
}

/// The aggregate calls of a projection from the `i`-th item on, added to those
/// so far.
pub open spec fn collected_items(
    items: Seq<SelectItem>,
    i: int,
    acc: Seq<LogicalAggregateExprView>,
    input: SchemaView,
    cat: CatalogView,
    ctes: Ctes,
    scope: Seq<SchemaView>,
    r: ReadingsView,
) -> Result<Seq<LogicalAggregateExprView>, PlanErrorView>
    decreases items.len() - i,
{
    if i < 0 || i >= items.len() {
        Ok(acc)
    } else {
        let more = match items[i] {
            SelectItem::Expr { expr, alias } => collected(
                expr,
                alias,
                input,
                acc,
                cat,
                ctes,
                scope,
                r,
            ),
            _ => Ok(acc),
        };
        match more {
            Err(e) => Err(e),
            Ok(x) => collected_items(items, i + 1, x, input, cat, ctes, scope, r),
        }
    }
}

fn collect_items<C: Catalog>(
    items: &Vec<SelectItem>,
    input: &Schema,
    out: &mut Vec<LogicalAggregateExpr>,
    catalog: &C,
    ctes: &Vec<(String, Schema)>,
    scope: &mut ScopeStack,
    readings: &Readings,
) -> (made: Result<(), PlanError>)
    ensures
        select::aggregates_outcome(made, final(out)@) == collected_items(
            items@,
            0,
            query::aggregate_exprs_view(old(out)@),
            input@,
            catalog.model(),
            bound::ctes_view(ctes@),
            old(scope).rows(),
            readings@,
        ),
        aggregate::grown(old(out)@, final(out)@),
        final(scope).frames@ == old(scope).frames@,
{
    let ghost cat = catalog.model();
    let ghost cv = bound::ctes_view(ctes@);
    let ghost before = scope.rows();
    let ghost start = query::aggregate_exprs_view(out@);
    proof {
        aggregate::lemma_grown_itself(out@);
    }
    let mut i: usize = 0;
    while i < items.len()
        invariant
            i <= items.len(),
            scope.frames@ == old(scope).frames@,
            before == old(scope).rows(),
            cat == catalog.model(),
            cv == bound::ctes_view(ctes@),
            start == query::aggregate_exprs_view(old(out)@),
            aggregate::grown(old(out)@, out@),
            collected_items(
                items@,
                i as int,
                query::aggregate_exprs_view(out@),
                input@,
                cat,
                cv,
                before,
                readings@,
            ) == collected_items(items@, 0, start, input@, cat, cv, before, readings@),
        decreases items.len() - i,
    {
        match &items[i] {
            SelectItem::Expr { expr, alias } => {
                let ghost so_far = out@;
                let made = collect_aggregates(expr, alias, input, out, catalog, ctes, scope, readings);
                proof {
                    aggregate::lemma_grown_on(old(out)@, so_far, out@);
                }
                made?;
            },
            _ => {
            },
        }
        i = i + 1;
    }
    Ok(())
}

/// The aliases of groups so far, after a bound expression of the projection with
/// its alias: a group that is not a column takes the first alias of an equal
/// expression.
pub open spec fn with_alias(
    groups: Seq<ScalarExprView>,
    aliases: Seq<Option<Seq<char>>>,
    x: ScalarExprView,
    alias: Seq<char>,
) -> Seq<Option<Seq<char>>> {
    Seq::new(
        groups.len(),
        |i: int|
            if !(groups[i] is Column) && aliases[i] is None && x == groups[i] {
                Some(alias)
            } else {
                aliases[i]
            },
    )
}

/// The aliases that the items from the `i`-th on give to the groups.
pub open spec fn group_aliases(
    groups: Seq<ScalarExprView>,
    items: Seq<SelectItem>,
    i: int,
    aliases: Seq<Option<Seq<char>>>,
    input: SchemaView,
    cat: CatalogView,
    ctes: Ctes,
    scope: Seq<SchemaView>,
    r: ReadingsView,
) -> Result<Seq<Option<Seq<char>>>, PlanErrorView>
    decreases items.len() - i,
{
    if i < 0 || i >= items.len() {
        Ok(aliases)
    } else {
        match items[i] {
            SelectItem::Expr { expr, alias: Some(alias) } => if aggregate_call::has_aggregate(
                expr,
            ) {
                group_aliases(groups, items, i + 1, aliases, input, cat, ctes, scope, r)
            } else {
                match expr::bound_value(expr, input, cat, ctes, scope, r) {
                    Err(e) => Err(e),
                    Ok(x) => group_aliases(
                        groups,
                        items,
                        i + 1,
                        with_alias(groups, aliases, x, alias.value@),
                        input,
                        cat,
                        ctes,
                        scope,
                        r,
                    ),
                }
            },
            _ => group_aliases(groups, items, i + 1, aliases, input, cat, ctes, scope, r),
        }
    }
}

/// Aliases as models.
pub open spec fn aliases_view(s: Seq<Option<String>>) -> Seq<Option<Seq<char>>> {
    Seq::new(s.len(), |i: int| operation::text_view(s[i]))
}

/// No alias for any of `n` groups.
pub open spec fn no_aliases(n: nat) -> Seq<Option<Seq<char>>> {
    Seq::new(n, |i: int| None)
}

/// Aliases with their outcome as models.
pub open spec fn aliases_outcome(r: Result<Vec<Option<String>>, PlanError>) -> Result<
    Seq<Option<Seq<char>>>,
    PlanErrorView,
> {
    match r {
        Ok(x) => Ok(aliases_view(x@)),
        Err(e) => Err(e@),
    }
}

fn take_alias(
    groups: &Vec<ScalarExpr>,
    aliases: &Vec<Option<String>>,
    x: &ScalarExpr,
    alias: &str,
) -> (out: Vec<Option<String>>)
    requires
        aliases.len() == groups.len(),
    ensures
        out.len() == groups.len(),
        aliases_view(out@) == with_alias(
            query::scalars_view(groups@),
            aliases_view(aliases@),
            x@,
            alias@,
        ),
{
    let ghost wanted = with_alias(
        query::scalars_view(groups@),
        aliases_view(aliases@),
        x@,
        alias@,
    );
    let mut out: Vec<Option<String>> = Vec::new();
    let mut i: usize = 0;
    while i < groups.len()
        invariant
            i <= groups.len(),
            aliases.len() == groups.len(),
            out.len() == i,
            wanted == with_alias(
                query::scalars_view(groups@),
                aliases_view(aliases@),
                x@,
                alias@,
            ),
            forall|j: int| 0 <= j < i ==> operation::text_view(#[trigger] out@[j]) == wanted[j],
        decreases groups.len() - i,
    {
        let is_column = matches!(groups[i], ScalarExpr::Column { .. });
        let equal = x.same(&groups[i]);
        let kept = match &aliases[i] {
            Some(s) => Some(s.clone()),
            None => if !is_column && equal {
                Some(owned(alias))
            } else {
                None
            },
        };
        assert(query::scalars_view(groups@)[i as int] == groups@[i as int]@);
        out.push(kept);
        i = i + 1;
    }
    assert(aliases_view(out@) =~= wanted);
    out
}

/// Finds the aliases that a projection gives to the groups.
pub fn group_projection_aliases<C: Catalog>(
    groups: &Vec<ScalarExpr>,
    items: &Vec<SelectItem>,
    input: &Schema,
    catalog: &C,
    ctes: &Vec<(String, Schema)>,
    scope: &mut ScopeStack,
    readings: &Readings,
) -> (made: Result<Vec<Option<String>>, PlanError>)
    ensures
        aliases_outcome(made) == group_aliases(
            query::scalars_view(groups@),
            items@,
            0,
            no_aliases(groups@.len()),
            input@,
            catalog.model(),
            bound::ctes_view(ctes@),
            old(scope).rows(),
            readings@,
        ),
        made matches Ok(x) ==> x.len() == groups.len(),
        final(scope).frames@ == old(scope).frames@,
{
    let ghost cat = catalog.model();
    let ghost cv = bound::ctes_view(ctes@);
    let ghost before = scope.rows();
    let ghost gv = query::scalars_view(groups@);
    let mut aliases: Vec<Option<String>> = Vec::new();
    let mut k: usize = 0;
    while k < groups.len()
        invariant
            k <= groups.len(),
            aliases.len() == k,
            forall|j: int| 0 <= j < k ==> (#[trigger] aliases@[j]) is None,
        decreases groups.len() - k,
    {
        aliases.push(None);
        k = k + 1;
    }
    assert(aliases_view(aliases@) =~= no_aliases(groups@.len()));
    let mut i: usize = 0;
    while i < items.len()
        invariant
            i <= items.len(),
            scope.frames@ == old(scope).frames@,
            before == old(scope).rows(),
            cat == catalog.model(),
            cv == bound::ctes_view(ctes@),
            gv == query::scalars_view(groups@),
            aliases.len() == groups.len(),
            group_aliases(
                gv,
                items@,
                i as int,
                aliases_view(aliases@),
                input@,
                cat,
                cv,
                before,
                readings@,
            ) == group_aliases(
                gv,
                items@,
                0,
                no_aliases(groups@.len()),
                input@,
                cat,
                cv,
                before,
                readings@,
            ),
        decreases items.len() - i,
    {
        match &items[i] {
            SelectItem::Expr { expr, alias: Some(alias) } => {
                if !expr_has_aggregate(expr) {
                    let x = bind_expr_with_ctes(expr, input, catalog, ctes, scope, readings)?;
                    aliases = take_alias(groups, &aliases, &x, alias.value.as_str());
                }
            },
            _ => {
            },
        }
        i = i + 1;
    }
    Ok(aliases)
}

/// The columns that an aggregation produces: its groups, each under its alias
/// where it has one, then its aggregates.
pub open spec fn aggregate_fields(
    groups: Seq<ScalarExprView>,
    aliases: Seq<Option<Seq<char>>>,
    aggs: Seq<LogicalAggregateExprView>,
) -> Seq<FieldView> {
    Seq::new(
        groups.len(),
        |i: int|
            schema::nullable_field(
                match aliases[i] {
                    Some(a) => a,
                    None => bound::group_name(groups[i], i),
                },
                query::scalar_type(groups[i]),
            ),
    ) + Seq::new(
        aggs.len(),
        |i: int| schema::nullable_field(aggs[i].output_name, aggs[i].data_type),
    )
}

/// The aggregation of a plan by given groups and aggregates.
pub open spec fn aggregation(
    p: QueryPlanView,
    group_by: Seq<ScalarExprView>,
    aliases: Seq<Option<Seq<char>>>,
    aggregates: Seq<LogicalAggregateExprView>,
) -> Result<QueryPlanView, PlanErrorView> {
    match error::labelled_schema(
        "aggregate schema: "@,
        relation::unique_fields(aggregate_fields(group_by, aliases, aggregates)),
    ) {
        Err(e) => Err(e),
        Ok(schema) => Ok(
            QueryPlanView::Aggregate { input: Box::new(p), group_by, aggregates, schema },
        ),
    }
}

fn group_field(g: &ScalarExpr, alias: &Option<String>, i: usize) -> (f: Field)
    ensures
        f@ == schema::nullable_field(
            match operation::text_view(*alias) {
                Some(a) => a,
                None => bound::group_name(g@, i as int),
            },
            query::scalar_type(g@),
        ),
{
    let name = match alias {
        Some(a) => a.clone(),
        None => match g {
            ScalarExpr::Column { name, .. } => name.clone(),
            _ => cat2("group", show_usize(i).as_str()),
        },
    };
    Field::nullable(name, g.data_type())
}

fn make_aggregation(
    plan: QueryPlan,
    group_by: Vec<ScalarExpr>,
    aliases: &Vec<Option<String>>,
    aggregates: Vec<LogicalAggregateExpr>,
) -> (made: Result<QueryPlan, PlanError>)
    requires
        aliases.len() == group_by.len(),
    ensures
        error::query_outcome(made) == aggregation(
            plan@,
            query::scalars_view(group_by@),
            aliases_view(aliases@),
            query::aggregate_exprs_view(aggregates@),
        ),
{
    let ghost gv = query::scalars_view(group_by@);
    let ghost av = query::aggregate_exprs_view(aggregates@);
    let ghost wanted = aggregate_fields(gv, aliases_view(aliases@), av);
    let mut fields: Vec<Field> = Vec::new();
    let mut i: usize = 0;
    while i < group_by.len()
        invariant
            i <= group_by.len(),
            aliases.len() == group_by.len(),
            fields.len() == i,
            gv == query::scalars_view(group_by@),
            wanted == aggregate_fields(gv, aliases_view(aliases@), av),
            forall|j: int| 0 <= j < i ==> (#[trigger] fields@[j])@ == wanted[j],
        decreases group_by.len() - i,
    {
        fields.push(group_field(&group_by[i], &aliases[i], i));
        i = i + 1;
    }
    let mut k: usize = 0;
    while k < aggregates.len()
        invariant
            k <= aggregates.len(),
            fields.len() == group_by.len() + k,
            gv == query::scalars_view(group_by@),
            av == query::aggregate_exprs_view(aggregates@),
            wanted == aggregate_fields(gv, aliases_view(aliases@), av),
            forall|j: int| 0 <= j < group_by.len() + k ==> (#[trigger] fields@[j])@ == wanted[j],
        decreases aggregates.len() - k,
    {
        fields.push(
            Field::nullable(
                aggregates[k].output_name.clone(),
                aggregates[k].data_type.duplicate(),
            ),
        );
        k = k + 1;
    }
    assert(schema::fields_view(fields@) =~= wanted);
    let schema = build_unique_schema(fields)?;
    Ok(QueryPlan::Aggregate { input: Box::new(plan), group_by, aggregates, schema })
}

/// The aggregate calls of a `SELECT`: those of its projection, then those of its
/// `HAVING`.
pub open spec fn select_aggregates(
    s: SelectStmt,
    input: SchemaView,
    cat: CatalogView,
    ctes: Ctes,
    scope: Seq<SchemaView>,
    r: ReadingsView,
) -> Result<Seq<LogicalAggregateExprView>, PlanErrorView> {
    match collected_items(s.projection@, 0, Seq::empty(), input, cat, ctes, scope, r) {
        Err(e) => Err(e),
        Ok(acc) => match s.having {
            Some(h) => collected(h, None, input, acc, cat, ctes, scope, r),
            None => Ok(acc),
        },
    }
}

fn collect_select<C: Catalog>(
    s: &SelectStmt,
    input: &Schema,
    catalog: &C,
    ctes: &Vec<(String, Schema)>,
    scope: &mut ScopeStack,
    readings: &Readings,
) -> (made: Result<Vec<LogicalAggregateExpr>, PlanError>)
    ensures
        (match made {
            Ok(x) => Ok(query::aggregate_exprs_view(x@)),
            Err(e) => Err(e@),
        }) == select_aggregates(
            *s,
            input@,
            catalog.model(),
            bound::ctes_view(ctes@),
            old(scope).rows(),
            readings@,
        ),
        final(scope).frames@ == old(scope).frames@,
{
    let mut aggregates: Vec<LogicalAggregateExpr> = Vec::new();
    assert(query::aggregate_exprs_view(aggregates@) =~= Seq::empty());
    collect_items(&s.projection, input, &mut aggregates, catalog, ctes, scope, readings)?;
    if let Some(having) = &s.having {
        collect_aggregates(
            having,
            &None,
            input,
            &mut aggregates,
            catalog,
            ctes,
            scope,
            readings,
        )?;
    }
    Ok(aggregates)
}

/// The aggregation that a `SELECT` makes of a plan.
pub open spec fn bound_aggregate(
    s: SelectStmt,
    p: QueryPlanView,
    entries: Seq<ScopeEntryView>,
    cat: CatalogView,
    ctes: Ctes,
    scope: Seq<SchemaView>,
    r: ReadingsView,
) -> Result<QueryPlanView, PlanErrorView> {
    match binding_schema(query::query_schema(p), entries) {
        Err(e) => Err(e),
        Ok(input) => match bound_groups(
            s.group_by@,
            0,
            Seq::empty(),
            s.projection@,
            input,
            cat,
            ctes,
            scope,
            r,
        ) {
            Err(e) => Err(e),
            Ok(groups) => match select_aggregates(s, input, cat, ctes, scope, r) {
                Err(e) => Err(e),
                Ok(aggs) => match group_aliases(
                    groups,
                    s.projection@,
                    0,
                    no_aliases(groups.len()),
                    input,
                    cat,
                    ctes,
                    scope,
                    r,
                ) {
                    Err(e) => Err(e),
                    Ok(aliases) => aggregation(p, groups, aliases, aggs),
                },
            },
        },
    }
}

/// Binds the grouping and the aggregate calls of a `SELECT`.
pub fn bind_aggregate<C: Catalog>(
    plan: QueryPlan,
    select: &SelectStmt,
    entries: &Vec<ScopeEntry>,
    catalog: &C,
    ctes: &Vec<(String, Schema)>,
    scope: &mut ScopeStack,
    readings: &Readings,
) -> (made: Result<QueryPlan, PlanError>)
    ensures
        error::query_outcome(made) == bound_aggregate(
            *select,
            plan@,
            relation::entries_view(entries@),
            catalog.model(),
            bound::ctes_view(ctes@),
            old(scope).rows(),
            readings@,
        ),
        final(scope).frames@ == old(scope).frames@,
{
    let input = schema_for_qualified_binding(plan.schema(), entries)?;
    let group_by = bind_groups(
        &select.group_by,
        &select.projection,
        &input,
        catalog,
        ctes,
        scope,
        readings,
    )?;
    let aggregates = collect_select(select, &input, catalog, ctes, scope, readings)?;
    let aliases = group_projection_aliases(
        &group_by,
        &select.projection,
        &input,
        catalog,
        ctes,
        scope,
        readings,
    )?;
    make_aggregation(plan, group_by, &aliases, aggregates)
}

/// The column of a call over aggregated rows: that of its alias, or that of an
/// aggregate call.
pub open spec fn ready_column(e: Expr, alias: Option<Seq<char>>, input: SchemaView) -> Option<
    ScalarExprView,
> {
    match e {
        Expr::Call { name, args, distinct, within_group, over } => {
            let by_alias = match alias {
                Some(a) => schema::find_field(input, a),
                None => None,
            };
            let func = names::simple_name(name);
            match by_alias {
                Some(i) => Some(relation::column_at(input, i)),
                None => if aggregate_call::names_aggregate(func)
                    && !aggregate_call::scalar_min_max(
                    func,
                    args@.len(),
                    distinct,
                    within_group is Some,
                    over is Some,
                ) {
                    match schema::find_field(
                        input,
                        aggregate_call::agg_output_name(
                            func,
                            args@,
                            aggregate_call::keys_of(within_group),
                        ),
                    ) {
                        Some(i) => Some(relation::column_at(input, i)),
                        None => None,
                    }
                } else {
                    None
                },
            }
        },
        _ => None,
    }
}

fn find_ready_column(e: &Expr, alias: Option<&str>, input: &Schema) -> (made: Option<ScalarExpr>)
    ensures
        crate::dialect::literal::expr_of(made) == ready_column(
            *e,
            match alias {
                Some(a) => Some(a@),
                None => None,
            },
            input@,
        ),
{
    match e {
        Expr::Call { name, args, distinct, within_group, over } => {
            if let Some(a) = alias {
                if let Some(i) = input.find(a) {
                    return Some(column_of(input, i));
                }
            }
            let func = object_name_simple(name);
            if is_aggregate_name(func.as_str()) && !is_scalar_min_max_call(
                func.as_str(),
                args.len(),
                *distinct,
                within_group.is_some(),
                over.is_some(),
            ) {
                let full = derive_agg_output_name(func.as_str(), args, within_group);
                if let Some(i) = input.find(full.as_str()) {
                    return Some(column_of(input, i));
                }
            }
            None
        },
        _ => None,
    }
}

/// What an expression over aggregated rows is bound to: aggregate calls within
/// it are columns of the row.
pub open spec fn bound_or_agg(
    e: Expr,
    alias: Option<Seq<char>>,
    input: SchemaView,
    cat: CatalogView,
    ctes: Ctes,
    scope: Seq<SchemaView>,
    r: ReadingsView,
) -> Result<ScalarExprView, PlanErrorView>
    decreases e, 0int,
{
    match e {
        Expr::Call { name, args, .. } => match ready_column(e, alias, input) {
            Some(x) => Ok(x),
            None => match bound_or_aggs(
                args@,
                0,
                Seq::empty(),
                input,
                cat,
                ctes,
                scope,
                r,
            ) {
                Err(err) => Err(err),
                Ok(list) => operation::builtin_call(names::simple_name(name), list, r),
            },
        },
        Expr::Binary { op, left, right } => match bound_or_agg(
            *left,
            None,
            input,
            cat,
            ctes,
            scope,
            r,
        ) {
            Err(err) => Err(err),
            Ok(a) => match bound_or_agg(*right, None, input, cat, ctes, scope, r) {
                Err(err) => Err(err),
                Ok(b) => typing::typed_binary(
                    op,
                    coerce::coerced(a, query::scalar_type(b), r),
                    coerce::coerced(b, query::scalar_type(a), r),
                ),
            },
        },
        Expr::Unary { op, expr } => match bound_or_agg(*expr, None, input, cat, ctes, scope, r) {
            Err(err) => Err(err),
            Ok(x) => Ok(
                ScalarExprView::Unary { op, expr: Box::new(x), data_type: query::scalar_type(x) },
            ),
        },
        Expr::Paren { expr } => bound_or_agg(*expr, alias, input, cat, ctes, scope, r),
        Expr::Collate { expr, collation } => match bound_or_agg(
            *expr,
            alias,
            input,
            cat,
            ctes,
            scope,
            r,
        ) {
            Err(err) => Err(err),
            Ok(x) => builtin::collated(collation, x),
        },
        Expr::Coalesce { args } => match bound_or_aggs(
            args@,
            0,
            Seq::empty(),
            input,
            cat,
            ctes,
            scope,
            r,
        ) {
            Err(err) => Err(err),
            Ok(list) => operation::choice("coalesce"@, list, r),
        },
        Expr::Greatest { args } => match bound_or_aggs(
            args@,
            0,
            Seq::empty(),
            input,
            cat,
            ctes,
            scope,
            r,
        ) {
            Err(err) => Err(err),
            Ok(list) => operation::choice("greatest"@, list, r),
        },
        Expr::Least { args } => match bound_or_aggs(
            args@,
            0,
            Seq::empty(),
            input,
            cat,
            ctes,
            scope,
            r,
        ) {
            Err(err) => Err(err),
            Ok(list) => operation::choice("least"@, list, r),
        },
        Expr::NullIf { a, b } => match bound_or_agg(*a, None, input, cat, ctes, scope, r) {
            Err(err) => Err(err),
            Ok(x) => match bound_or_agg(*b, None, input, cat, ctes, scope, r) {
                Err(err) => Err(err),
                Ok(y) => operation::null_if(x, y, r),
            },
        },
        _ => expr::bound_value(e, input, cat, ctes, scope, r),
    }
}

/// What the expressions over aggregated rows from the `i`-th on are bound to.
pub open spec fn bound_or_aggs(
    list: Seq<Expr>,
    i: int,
    acc: Seq<ScalarExprView>,
    input: SchemaView,
    cat: CatalogView,
    ctes: Ctes,
    scope: Seq<SchemaView>,
    r: ReadingsView,
) -> Result<Seq<ScalarExprView>, PlanErrorView>
    decreases list, list.len() - i,
{
    if i < 0 || i >= list.len() {
        Ok(acc)
    } else {
        match bound_or_agg(list[i], None, input, cat, ctes, scope, r) {
            Err(e) => Err(e),
            Ok(x) => bound_or_aggs(list, i + 1, acc.push(x), input, cat, ctes, scope, r),
        }
    }
}

fn bind_or_agg_refs<C: Catalog>(
    list: &Vec<Expr>,
    input: &Schema,
    catalog: &C,
    ctes: &Vec<(String, Schema)>,
    scope: &mut ScopeStack,
    readings: &Readings,
) -> (made: Result<Vec<ScalarExpr>, PlanError>)
    ensures
        error::scalars_outcome(made) == bound_or_aggs(
            list@,
            0,
            Seq::empty(),
            input@,
            catalog.model(),
            bound::ctes_view(ctes@),
            old(scope).rows(),
            readings@,
        ),
        final(scope).frames@ == old(scope).frames@,
    decreases list, 1int,
{
    let ghost cat = catalog.model();
    let ghost cv = bound::ctes_view(ctes@);
    let ghost before = scope.rows();
    let mut out: Vec<ScalarExpr> = Vec::new();
    assert(query::scalars_view(out@) =~= Seq::empty());
    let mut i: usize = 0;
    while i < list.len()
        invariant
            i <= list.len(),
            scope.frames@ == old(scope).frames@,
            before == old(scope).rows(),
            cat == catalog.model(),
            cv == bound::ctes_view(ctes@),
            bound_or_aggs(
                list@,
                i as int,
                query::scalars_view(out@),
                input@,
                cat,
                cv,
                before,
                readings@,
            ) == bound_or_aggs(list@, 0, Seq::empty(), input@, cat, cv, before, readings@),
        decreases list.len() - i,
    {
        let e = bind_expr_or_agg_ref(&list[i], None, input, catalog, ctes, scope, readings)?;
        proof {
            query::lemma_scalars_push(out@, e);
        }
        out.push(e);
        i = i + 1;
    }
    Ok(out)
}

/// Binds a function over aggregated rows that answers one of its arguments.
pub fn bind_common_scalar_wrapper<C: Catalog>(
    func_name: &str,
    args: &Vec<Expr>,
    input: &Schema,
    catalog: &C,
    ctes: &Vec<(String, Schema)>,
    scope: &mut ScopeStack,
    readings: &Readings,
) -> (made: Result<ScalarExpr, PlanError>)
    ensures
        error::scalar_outcome(made) == (match bound_or_aggs(
            args@,
            0,
            Seq::empty(),
            input@,
            catalog.model(),
            bound::ctes_view(ctes@),
            old(scope).rows(),
            readings@,
        ) {
            Err(e) => Err(e),
            Ok(list) => operation::choice(func_name@, list, readings@),
        }),
        final(scope).frames@ == old(scope).frames@,
    decreases args, 2int,
{
    let list = bind_or_agg_refs(args, input, catalog, ctes, scope, readings)?;
    make_choice(func_name, list, readings)
}

/// Binds an expression over aggregated rows.
#[verifier::rlimit(40)]
pub fn bind_expr_or_agg_ref<C: Catalog>(
    expr: &Expr,
    alias: Option<&str>,
    input: &Schema,
    catalog: &C,
    ctes: &Vec<(String, Schema)>,
    scope: &mut ScopeStack,
    readings: &Readings,
) -> (made: Result<ScalarExpr, PlanError>)
    ensures
        error::scalar_outcome(made) == bound_or_agg(
            *expr,
            match alias {
                Some(a) => Some(a@),
                None => None,
            },
            input@,
            catalog.model(),
            bound::ctes_view(ctes@),
            old(scope).rows(),
            readings@,
        ),
        final(scope).frames@ == old(scope).frames@,
    decreases expr, 0int,
{
    match expr {
        Expr::Call { name, args, .. } => {
            if let Some(x) = find_ready_column(expr, alias, input) {
                return Ok(x);
            }
            let list = bind_or_agg_refs(args, input, catalog, ctes, scope, readings)?;
            make_builtin_call(object_name_simple(name), list, readings)
        },
        Expr::Binary { op, left, right } => {
            let mut a = bind_expr_or_agg_ref(left, None, input, catalog, ctes, scope, readings)?;
            let mut b = bind_expr_or_agg_ref(right, None, input, catalog, ctes, scope, readings)?;
            coerce_literal_to_match(&mut a, &mut b, readings);
            typing::make_binary(*op, a, b)
        },
        Expr::Unary { op, expr: inner } => {
            let x = bind_expr_or_agg_ref(inner, None, input, catalog, ctes, scope, readings)?;
            let data_type = x.data_type();
            Ok(ScalarExpr::Unary { op: *op, expr: Box::new(x), data_type })
        },
        Expr::Paren { expr: inner } => bind_expr_or_agg_ref(
            inner,
            alias,
            input,
            catalog,
            ctes,
            scope,
            readings,
        ),
        Expr::Collate { expr: inner, collation } => {
            let x = bind_expr_or_agg_ref(inner, alias, input, catalog, ctes, scope, readings)?;
            bind_collated_expr(collation, x)
        },
        Expr::Coalesce { args } => bind_common_scalar_wrapper(
            "coalesce",
            args,
            input,
            catalog,
            ctes,
            scope,
            readings,
        ),
        Expr::Greatest { args } => bind_common_scalar_wrapper(
            "greatest",
            args,
            input,
            catalog,
            ctes,
            scope,
            readings,
        ),
        Expr::Least { args } => bind_common_scalar_wrapper(
            "least",
            args,
            input,
            catalog,
            ctes,
            scope,
            readings,
        ),
        Expr::NullIf { a, b } => {
            let x = bind_expr_or_agg_ref(a, None, input, catalog, ctes, scope, readings)?;
            let y = bind_expr_or_agg_ref(b, None, input, catalog, ctes, scope, readings)?;
            make_null_if(x, y, readings)
        },
        _ => bind_expr_with_ctes(expr, input, catalog, ctes, scope, readings),
    }
}

/// The named expressions of a projection over aggregated rows, from the `i`-th
/// item on.
pub open spec fn bound_projection_agg(
    items: Seq<SelectItem>,
    i: int,
    acc: Seq<(ScalarExprView, Seq<char>)>,
    input: SchemaView,
    cat: CatalogView,
    ctes: Ctes,
    scope: Seq<SchemaView>,
    r: ReadingsView,
) -> Result<Seq<(ScalarExprView, Seq<char>)>, PlanErrorView>
    decreases items.len() - i,
{
    if i < 0 || i >= items.len() {
        Ok(acc)
    } else {
        match items[i] {
            SelectItem::Expr { expr, alias } => match bound_or_agg(
                expr,
                match alias {
                    Some(a) => Some(a.value@),
                    None => None,
                },
                input,
                cat,
                ctes,
                scope,
                r,
            ) {
                Err(e) => Err(e),
                Ok(x) => bound_projection_agg(
                    items,
                    i + 1,
                    acc.push((x, names::named_output(expr, x, alias))),
                    input,
                    cat,
                    ctes,
                    scope,
                    r,
                ),
            },
            _ => bound_projection_agg(
                items,
                i + 1,
                acc + relation::all_columns(input),
                input,
                cat,
                ctes,
                scope,
                r,
            ),
        }
    }
}

/// Binds a projection over aggregated rows.
pub fn bind_projection_agg<C: Catalog>(
    items: &Vec<SelectItem>,
    input: &Schema,
    catalog: &C,
    ctes: &Vec<(String, Schema)>,
    scope: &mut ScopeStack,
    readings: &Readings,
) -> (made: Result<Vec<(ScalarExpr, String)>, PlanError>)
    ensures
        error::outputs_outcome(made) == bound_projection_agg(
            items@,
            0,
            Seq::empty(),
            input@,
            catalog.model(),
            bound::ctes_view(ctes@),
            old(scope).rows(),
            readings@,
        ),
        final(scope).frames@ == old(scope).frames@,
{
    let ghost cat = catalog.model();
    let ghost cv = bound::ctes_view(ctes@);
    let ghost before = scope.rows();
    let mut out: Vec<(ScalarExpr, String)> = Vec::new();
    assert(query::outputs_view(out@) =~= Seq::empty());
    let mut i: usize = 0;
    while i < items.len()
        invariant
            i <= items.len(),
            scope.frames@ == old(scope).frames@,
            before == old(scope).rows(),
            cat == catalog.model(),
            cv == bound::ctes_view(ctes@),
            bound_projection_agg(
                items@,
                i as int,
                query::outputs_view(out@),
                input@,
                cat,
                cv,
                before,
                readings@,
            ) == bound_projection_agg(
                items@,
                0,
                Seq::empty(),
                input@,
                cat,
                cv,
                before,
                readings@,
            ),
        decreases items.len() - i,
    {
        match &items[i] {
            SelectItem::Expr { expr, alias } => {
                let hint: Option<&str> = match alias {
                    Some(a) => Some(a.value.as_str()),
                    None => None,
                };
                let e = bind_expr_or_agg_ref(expr, hint, input, catalog, ctes, scope, readings)?;
                let name = output_column_name(expr, &e, alias);
                proof {
                    query::lemma_outputs_push(out@, (e, name));
                }
                out.push((e, name));
            },
            _ => {
                push_all_columns(input, &mut out);
            },
        }
        i = i + 1;
    }
    Ok(out)
}

/// The relation whose whole row a call turns into JSON.
pub open spec fn whole_row_name(e: Expr) -> Option<Seq<char>> {
    match e {
        Expr::Call { name, args, .. } => if names::simple_name(name) == "row_to_json"@
            && args@.len() == 1 {
            match args@[0] {
                Expr::Column { name: arg } => if arg.parts@.len() == 1 {
                    Some(arg.parts@[0].value@)
                } else {
                    None
                },
                _ => None,
            }
        } else {
            None
        },
        _ => None,
    }
}

/// The row of named expressions.
pub open spec fn named_row(outs: Seq<(ScalarExprView, Seq<char>)>) -> ScalarExprView {
    ScalarExprView::FunctionCall {
        name: "row"@,
        args: Seq::new(outs.len(), |i: int| outs[i].0),
        data_type: DataTypeView::Record(
            Seq::new(outs.len(), |i: int| (outs[i].1, query::scalar_type(outs[i].0))),
        ),
    }
}

/// The whole row of a `FROM` item as JSON.
pub open spec fn whole_row(e: Expr, entries: Seq<ScopeEntryView>) -> Option<ScalarExprView> {
    match whole_row_name(e) {
        None => None,
        Some(q) => {
            let outs = relation::qualified_columns(entries, Some(q), 0);
            if outs.len() == 0 {
                None
            } else {
                Some(
                    operation::call1("row_to_json"@, named_row(outs), DataTypeView::Jsonb),
                )
            }
        },
    }
}

fn find_whole_row_name(e: &Expr) -> (out: Option<String>)
    ensures
        operation::text_view(out) == whole_row_name(*e),
{
    match e {
        Expr::Call { name, args, .. } => {
            if !text_eq(object_name_simple(name).as_str(), "row_to_json") || args.len() != 1 {
                return None;
            }
            match &args[0] {
                Expr::Column { name: arg } => if arg.parts.len() == 1 {
                    Some(arg.parts[0].value.clone())
                } else {
                    None
                },
                _ => None,
            }
        },
        _ => None,
    }
}

fn make_named_row(outs: &Vec<(ScalarExpr, String)>) -> (made: ScalarExpr)
    ensures
        made@ == named_row(query::outputs_view(outs@)),
{
    let ghost model = query::outputs_view(outs@);
    let mut args: Vec<ScalarExpr> = Vec::new();
    let mut fields: Vec<(String, DataType)> = Vec::new();
    let mut i: usize = 0;
    while i < outs.len()
        invariant
            i <= outs.len(),
            args.len() == i,
            fields.len() == i,
            model == query::outputs_view(outs@),
            forall|j: int| 0 <= j < i ==> (#[trigger] args@[j])@ == model[j].0,
            forall|j: int|
                0 <= j < i ==> (#[trigger] fields@[j]).0@ == model[j].1 && fields@[j].1@
                    == query::scalar_type(model[j].0),
        decreases outs.len() - i,
    {
        args.push(outs[i].0.duplicate());
        fields.push((outs[i].1.clone(), outs[i].0.data_type()));
        i = i + 1;
    }
    assert(query::scalars_view(args@) =~= Seq::new(model.len(), |j: int| model[j].0));
    assert(datatype::record_fields_view(fields@) =~= Seq::new(
        model.len(),
        |j: int| (model[j].1, query::scalar_type(model[j].0)),
    ));
    ScalarExpr::FunctionCall { name: owned("row"), args, data_type: DataType::Record(fields) }
}

/// Binds the whole row of a `FROM` item as JSON, where a call asks for it.
pub fn bind_row_to_json_whole_row(e: &Expr, entries: &Vec<ScopeEntry>) -> (made: Option<ScalarExpr>)
    ensures
        crate::dialect::literal::expr_of(made) == whole_row(*e, relation::entries_view(entries@)),
{
    match find_whole_row_name(e) {
        None => None,
        Some(q) => {
            let mut outs: Vec<(ScalarExpr, String)> = Vec::new();
            let any = push_qualified(entries, Some(q.as_str()), &mut outs);
            if !any {
                return None;
            }
            assert(query::outputs_view(outs@) =~= relation::qualified_columns(
                relation::entries_view(entries@),
                Some(q@),
                0,
            ));
            Some(
                operation::make_call1("row_to_json", make_named_row(&outs), DataType::Jsonb),
            )
        },
    }
}

/// What an expression of a projection is bound to.
pub open spec fn bound_item(
    e: Expr,
    binding: SchemaView,
    entries: Seq<ScopeEntryView>,
    cat: CatalogView,
    ctes: Ctes,
    scope: Seq<SchemaView>,
    r: ReadingsView,
) -> Result<ScalarExprView, PlanErrorView> {
    match whole_row(e, entries) {
        Some(x) => Ok(x),
        None => expr::bound_value(e, binding, cat, ctes, scope, r),
    }
}

/// Binds an expression of a projection.
pub fn bind_projection_expr_with_scope<C: Catalog>(
    expr: &Expr,
    binding: &Schema,
    entries: &Vec<ScopeEntry>,
    catalog: &C,
    ctes: &Vec<(String, Schema)>,
    scope: &mut ScopeStack,
    readings: &Readings,
) -> (made: Result<ScalarExpr, PlanError>)
    ensures
        error::scalar_outcome(made) == bound_item(
            *expr,
            binding@,
            relation::entries_view(entries@),
            catalog.model(),
            bound::ctes_view(ctes@),
            old(scope).rows(),
            readings@,
        ),
        final(scope).frames@ == old(scope).frames@,
{
    if let Some(x) = bind_row_to_json_whole_row(expr, entries) {
        return Ok(x);
    }
    bind_expr_with_ctes(expr, binding, catalog, ctes, scope, readings)
}

/// The named expressions of a projection, from the `i`-th item on.
pub open spec fn bound_projection_items(
    items: Seq<SelectItem>,
    i: int,
    acc: Seq<(ScalarExprView, Seq<char>)>,
    input: SchemaView,
    binding: SchemaView,
    entries: Seq<ScopeEntryView>,
    cat: CatalogView,
    ctes: Ctes,
    scope: Seq<SchemaView>,
    r: ReadingsView,
) -> Result<Seq<(ScalarExprView, Seq<char>)>, PlanErrorView>
    decreases items.len() - i,
{
    if i < 0 || i >= items.len() {
        Ok(acc)
    } else {
        match items[i] {
            SelectItem::Wildcard => bound_projection_items(
                items,
                i + 1,
                acc + bound::wildcard_columns(input, entries),
                input,
                binding,
                entries,
                cat,
                ctes,
                scope,
                r,
            ),
            SelectItem::QualifiedWildcard { qualifier } => {
                let found = relation::qualified_columns(entries, Some(qualifier.value@), 0);
                if found.len() == 0 {
                    Err(PlanErrorView::TableNotFound(qualifier.value@))
                } else {
                    bound_projection_items(
                        items,
                        i + 1,
                        acc + found,
                        input,
                        binding,
                        entries,
                        cat,
                        ctes,
                        scope,
                        r,
                    )
                }
            },
            SelectItem::Expr { expr, alias } => match bound_item(
                expr,
                binding,
                entries,
                cat,
                ctes,
                scope,
                r,
            ) {
                Err(e) => Err(e),
                Ok(x) => bound_projection_items(
                    items,
                    i + 1,
                    acc.push((x, names::named_output(expr, x, alias))),
                    input,
                    binding,
                    entries,
                    cat,
                    ctes,
                    scope,
                    r,
                ),
            },
        }
    }
}

/// The named expressions of a projection.
pub open spec fn bound_projection(
    items: Seq<SelectItem>,
    input: SchemaView,
    entries: Seq<ScopeEntryView>,
    cat: CatalogView,
    ctes: Ctes,
    scope: Seq<SchemaView>,
    r: ReadingsView,
) -> Result<Seq<(ScalarExprView, Seq<char>)>, PlanErrorView> {
    match binding_schema(input, entries) {
        Err(e) => Err(e),
        Ok(binding) => bound_projection_items(
            items,
            0,
            Seq::empty(),
            input,
            binding,
            entries,
            cat,
            ctes,
            scope,
            r,
        ),
    }
}

fn bind_projection_items<C: Catalog>(
    items: &Vec<SelectItem>,
    input: &Schema,
    binding: &Schema,
    entries: &Vec<ScopeEntry>,
    catalog: &C,
    ctes: &Vec<(String, Schema)>,
    scope: &mut ScopeStack,
    readings: &Readings,
) -> (made: Result<Vec<(ScalarExpr, String)>, PlanError>)
    ensures
        error::outputs_outcome(made) == bound_projection_items(
            items@,
            0,
            Seq::empty(),
            input@,
            binding@,
            relation::entries_view(entries@),
            catalog.model(),
            bound::ctes_view(ctes@),
            old(scope).rows(),
            readings@,
        ),
        final(scope).frames@ == old(scope).frames@,
{
    let ghost cat = catalog.model();
    let ghost cv = bound::ctes_view(ctes@);
    let ghost ev = relation::entries_view(entries@);
    let ghost before = scope.rows();
    let mut out: Vec<(ScalarExpr, String)> = Vec::new();
    assert(query::outputs_view(out@) =~= Seq::empty());
    let mut i: usize = 0;
    while i < items.len()
        invariant
            i <= items.len(),
            scope.frames@ == old(scope).frames@,
            before == old(scope).rows(),
            cat == catalog.model(),
            cv == bound::ctes_view(ctes@),
            ev == relation::entries_view(entries@),
            bound_projection_items(
                items@,
                i as int,
                query::outputs_view(out@),
                input@,
                binding@,
                ev,
                cat,
                cv,
                before,
                readings@,
            ) == bound_projection_items(
                items@,
                0,
                Seq::empty(),
                input@,
                binding@,
                ev,
                cat,
                cv,
                before,
                readings@,
            ),
        decreases items.len() - i,
    {
        match &items[i] {
            SelectItem::Wildcard => {
                if entries.len() == 0 {
                    push_all_columns(input, &mut out);
                } else {
                    let _ = push_qualified(entries, None, &mut out);
                }
            },
            SelectItem::QualifiedWildcard { qualifier } => {
                if !push_qualified(entries, Some(qualifier.value.as_str()), &mut out) {
                    return Err(PlanError::TableNotFound(qualifier.value.clone()));
                }
            },
            SelectItem::Expr { expr, alias } => {
                let e = bind_projection_expr_with_scope(
                    expr,
                    binding,
                    entries,
                    catalog,
                    ctes,
                    scope,
                    readings,
                )?;
                let name = output_column_name(expr, &e, alias);
                proof {
                    query::lemma_outputs_push(out@, (e, name));
                }
                out.push((e, name));
            },
        }
        i = i + 1;
    }
    Ok(out)
}

/// Binds a projection; `*` and `t.*` stand for the columns of the `FROM` items.
pub fn bind_projection_with_scope<C: Catalog>(
    items: &Vec<SelectItem>,
    input: &Schema,
    entries: &Vec<ScopeEntry>,
    catalog: &C,
    ctes: &Vec<(String, Schema)>,
    scope: &mut ScopeStack,
    readings: &Readings,
) -> (made: Result<Vec<(ScalarExpr, String)>, PlanError>)
    ensures
        error::outputs_outcome(made) == bound_projection(
            items@,
            input@,
            relation::entries_view(entries@),
            catalog.model(),
            bound::ctes_view(ctes@),
            old(scope).rows(),
            readings@,
        ),
        final(scope).frames@ == old(scope).frames@,
{
    let binding = schema_for_qualified_binding(input, entries)?;
    bind_projection_items(items, input, &binding, entries, catalog, ctes, scope, readings)
}

/// Collecting the aggregates of an expression keeps those collected before first
/// and unchanged, and collects no function and output name twice.
pub proof fn collected_calls_are_distinct(
    e: Expr,
    alias: Option<Identifier>,
    input: SchemaView,
    acc: Seq<LogicalAggregateExprView>,
    cat: CatalogView,
    ctes: Ctes,
    rows: Seq<SchemaView>,
    r: ReadingsView,
)
    ensures
        collected(e, alias, input, acc, cat, ctes, rows, r) matches Ok(more)
            ==> aggregate::continues(acc, more),
    decreases e, 0int,
{
    aggregate::lemma_continues_itself(acc);
    match e {
        Expr::Call { name, args, distinct, within_group, over } => {
            argument_calls_are_distinct(args@, 0, acc, input, cat, ctes, rows, r);
            if let Ok(more) = collected(e, alias, input, acc, cat, ctes, rows, r) {
                if more != acc && !aggregate::continues(acc, more) {
                    aggregate::lemma_continues_with(acc, more.last());
                }
            }
        },
        Expr::Paren { expr } => collected_calls_are_distinct(
            *expr,
            alias,
            input,
            acc,
            cat,
            ctes,
            rows,
            r,
        ),
        Expr::Unary { expr, .. } => collected_calls_are_distinct(
            *expr,
            alias,
            input,
            acc,
            cat,
            ctes,
            rows,
            r,
        ),
        Expr::Collate { expr, .. } => collected_calls_are_distinct(
            *expr,
            alias,
            input,
            acc,
            cat,
            ctes,
            rows,
            r,
        ),
        Expr::Coalesce { args } => argument_calls_are_distinct(
            args@,
            0,
            acc,
            input,
            cat,
            ctes,
            rows,
            r,
        ),
        Expr::Greatest { args } => argument_calls_are_distinct(
            args@,
            0,
            acc,
            input,
            cat,
            ctes,
            rows,
            r,
        ),
        Expr::Least { args } => argument_calls_are_distinct(
            args@,
            0,
            acc,
            input,
            cat,
            ctes,
            rows,
            r,
        ),
        Expr::NullIf { a, b } => {
            collected_calls_are_distinct(*a, None, input, acc, cat, ctes, rows, r);
            if let Ok(more) = collected(*a, None, input, acc, cat, ctes, rows, r) {
                collected_calls_are_distinct(*b, None, input, more, cat, ctes, rows, r);
                if let Ok(all) = collected(*b, None, input, more, cat, ctes, rows, r) {
                    aggregate::lemma_continues_on(acc, more, all);
                }
            }
        },
        Expr::Binary { left, right, .. } => {
            collected_calls_are_distinct(*left, None, input, acc, cat, ctes, rows, r);
            if let Ok(more) = collected(*left, None, input, acc, cat, ctes, rows, r) {
                collected_calls_are_distinct(*right, None, input, more, cat, ctes, rows, r);
                if let Ok(all) = collected(*right, None, input, more, cat, ctes, rows, r) {
                    aggregate::lemma_continues_on(acc, more, all);
                }
            }
        },
        _ => {},
    }
}

/// Collecting the aggregates of expressions keeps those collected before first
/// and unchanged, and collects no function and output name twice.
pub proof fn argument_calls_are_distinct(
    list: Seq<Expr>,
    i: int,
    acc: Seq<LogicalAggregateExprView>,
    input: SchemaView,
    cat: CatalogView,
    ctes: Ctes,
    rows: Seq<SchemaView>,
    r: ReadingsView,
)
    ensures
        collected_args(list, i, acc, input, cat, ctes, rows, r) matches Ok(more)
            ==> aggregate::continues(acc, more),
    decreases list, list.len() - i,
{
    aggregate::lemma_continues_itself(acc);
    if 0 <= i < list.len() {
        collected_calls_are_distinct(list[i], None, input, acc, cat, ctes, rows, r);
        if let Ok(more) = collected(list[i], None, input, acc, cat, ctes, rows, r) {
            argument_calls_are_distinct(list, i + 1, more, input, cat, ctes, rows, r);
            if let Ok(all) = collected_args(list, i + 1, more, input, cat, ctes, rows, r) {
                aggregate::lemma_continues_on(acc, more, all);
            }
        }
    }
}

/// Collecting the aggregates of a projection keeps those collected before first
/// and unchanged, and collects no function and output name twice.
pub proof fn projected_calls_are_distinct(
    items: Seq<SelectItem>,
    i: int,
    acc: Seq<LogicalAggregateExprView>,
    input: SchemaView,
    cat: CatalogView,
    ctes: Ctes,
    rows: Seq<SchemaView>,
    r: ReadingsView,
)
    ensures
        collected_items(items, i, acc, input, cat, ctes, rows, r) matches Ok(more)
            ==> aggregate::continues(acc, more),
    decreases items.len() - i,
{
    aggregate::lemma_continues_itself(acc);
    if 0 <= i < items.len() {
        match items[i] {
            SelectItem::Expr { expr, alias } => {
                collected_calls_are_distinct(expr, alias, input, acc, cat, ctes, rows, r);
                if let Ok(more) = collected(expr, alias, input, acc, cat, ctes, rows, r) {
                    projected_calls_are_distinct(items, i + 1, more, input, cat, ctes, rows, r);
                    if let Ok(all) = collected_items(
                        items,
                        i + 1,
                        more,
                        input,
                        cat,
                        ctes,
                        rows,
                        r,
                    ) {
                        aggregate::lemma_continues_on(acc, more, all);
                    }
                }
            },
            _ => projected_calls_are_distinct(items, i + 1, acc, input, cat, ctes, rows, r),
        }
    }
}

} // verus!
