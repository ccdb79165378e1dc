//! Bound expressions, row-producing plans, and their models.
use crate::ast::{BinaryOp, UnaryOp};
use crate::datatype::{DataType, DataTypeView};
use crate::list::{copy_list, same_indices};
use crate::schema::{Schema, SchemaView};
use crate::text::text_eq;
use crate::value::{Value, ValueView};
use vstd::prelude::*;

verus! {

/// An aggregate function.
#[derive(Debug, Clone, Copy, PartialEq, Eq, Structural)]
pub enum AggregateFunc {
    CountStar,
    Count,
    Sum,
    Avg,
    Min,
    Max,
    BoolAnd,
    BoolOr,
    StringAgg,
    ArrayAgg,
    JsonAgg,
    StddevSamp,
    StddevPop,
    VarSamp,
    VarPop,
    Corr,
    PercentileCont,
    PercentileDisc,
}

/// How a join treats unmatched rows.
#[derive(Debug, Clone, Copy, PartialEq, Eq, Structural)]
pub enum LogicalJoinType {
    Inner,
    LeftOuter,
    RightOuter,
    FullOuter,
    Cross,
}

/// A set operation.
#[derive(Debug, Clone, Copy, PartialEq, Eq, Structural)]
pub enum LogicalSetOp {
    Union,
    Intersect,
    Except,
}

/// Whether a set operation keeps duplicates.
#[derive(Debug, Clone, Copy, PartialEq, Eq, Structural)]
pub enum LogicalSetQuantifier {
    All,
    Distinct,
}

/// A bound, typed scalar expression.
#[derive(Debug, PartialEq)]
pub enum ScalarExpr {
    Literal { value: Value, data_type: DataType },
    Column { name: String, index: usize, data_type: DataType },
    OuterColumn { name: String, frame_depth: usize, column_index: usize, data_type: DataType },
    Parameter { index: u32, data_type: DataType },
    Unary { op: UnaryOp, expr: Box<ScalarExpr>, data_type: DataType },
    Binary { op: BinaryOp, left: Box<ScalarExpr>, right: Box<ScalarExpr>, data_type: DataType },
    IsNull { expr: Box<ScalarExpr>, negated: bool },
    FunctionCall { name: String, args: Vec<ScalarExpr>, data_type: DataType },
    ScalarSubquery { subplan: Box<QueryPlan>, correlated: bool, data_type: DataType },
    Exists { subplan: Box<QueryPlan>, negated: bool, correlated: bool },
    InSubquery {
        expr: Box<ScalarExpr>,
        subplan: Box<QueryPlan>,
        negated: bool,
        correlated: bool,
        data_type: DataType,
    },
}

/// The model of a [`ScalarExpr`].
pub enum ScalarExprView {
    Literal { value: ValueView, data_type: DataTypeView },
    Column { name: Seq<char>, index: usize, data_type: DataTypeView },
    OuterColumn {
        name: Seq<char>,
        frame_depth: usize,
        column_index: usize,
        data_type: DataTypeView,
    },
    Parameter { index: u32, data_type: DataTypeView },
    Unary { op: UnaryOp, expr: Box<ScalarExprView>, data_type: DataTypeView },
    Binary {
        op: BinaryOp,
        left: Box<ScalarExprView>,
        right: Box<ScalarExprView>,
        data_type: DataTypeView,
    },
    IsNull { expr: Box<ScalarExprView>, negated: bool },
    FunctionCall { name: Seq<char>, args: Seq<ScalarExprView>, data_type: DataTypeView },
    ScalarSubquery { subplan: Box<QueryPlanView>, correlated: bool, data_type: DataTypeView },
    Exists { subplan: Box<QueryPlanView>, negated: bool, correlated: bool },
    InSubquery {
        expr: Box<ScalarExprView>,
        subplan: Box<QueryPlanView>,
        negated: bool,
        correlated: bool,
        data_type: DataTypeView,
    },
}

impl ScalarExpr {
    pub open spec fn view(&self) -> ScalarExprView
        decreases self,
    {
        match self {
            ScalarExpr::Literal { value, data_type } => ScalarExprView::Literal {
                value: value.view(),
                data_type: data_type.view(),
            },
            ScalarExpr::Column { name, index, data_type } => ScalarExprView::Column {
                name: name@,
                index: *index,
                data_type: data_type.view(),
            },
            ScalarExpr::OuterColumn { name, frame_depth, column_index, data_type } =>
                ScalarExprView::OuterColumn {
                name: name@,
                frame_depth: *frame_depth,
                column_index: *column_index,
                data_type: data_type.view(),
            },
            ScalarExpr::Parameter { index, data_type } => ScalarExprView::Parameter {
                index: *index,
                data_type: data_type.view(),
            },
            ScalarExpr::Unary { op, expr, data_type } => ScalarExprView::Unary {
                op: *op,
                expr: Box::new(expr.view()),
                data_type: data_type.view(),
            },
            ScalarExpr::Binary { op, left, right, data_type } => ScalarExprView::Binary {
                op: *op,
                left: Box::new(left.view()),
                right: Box::new(right.view()),
                data_type: data_type.view(),
            },
            ScalarExpr::IsNull { expr, negated } => ScalarExprView::IsNull {
                expr: Box::new(expr.view()),
                negated: *negated,
            },
            ScalarExpr::FunctionCall { name, args, data_type } => ScalarExprView::FunctionCall {
                name: name@,
                args: scalars_view(args@),
                data_type: data_type.view(),
            },
            ScalarExpr::ScalarSubquery { subplan, correlated, data_type } =>
                ScalarExprView::ScalarSubquery {
                subplan: Box::new(subplan.view()),
                correlated: *correlated,
                data_type: data_type.view(),
            },
            ScalarExpr::Exists { subplan, negated, correlated } => ScalarExprView::Exists {
                subplan: Box::new(subplan.view()),
                negated: *negated,
                correlated: *correlated,
            },
            ScalarExpr::InSubquery { expr, subplan, negated, correlated, data_type } =>
                ScalarExprView::InSubquery {
                expr: Box::new(expr.view()),
                subplan: Box::new(subplan.view()),
                negated: *negated,
                correlated: *correlated,
                data_type: data_type.view(),
            },
        }
    }

    pub fn duplicate(&self) -> (copy: ScalarExpr)
        ensures
            copy@ == self@,
        decreases self, 0int,
    {
        match self {
            ScalarExpr::Literal { value, data_type } => ScalarExpr::Literal {
                value: value.duplicate(),
                data_type: data_type.duplicate(),
            },
            ScalarExpr::Column { name, index, data_type } => ScalarExpr::Column {
                name: name.clone(),
                index: *index,
                data_type: data_type.duplicate(),
            },
            ScalarExpr::OuterColumn { name, frame_depth, column_index, data_type } =>
                ScalarExpr::OuterColumn {
                name: name.clone(),
                frame_depth: *frame_depth,
                column_index: *column_index,
                data_type: data_type.duplicate(),
            },
            ScalarExpr::Parameter { index, data_type } => ScalarExpr::Parameter {
                index: *index,
                data_type: data_type.duplicate(),
            },
            ScalarExpr::Unary { op, expr, data_type } => ScalarExpr::Unary {
                op: *op,
                expr: Box::new(expr.duplicate()),
                data_type: data_type.duplicate(),
            },
            ScalarExpr::Binary { op, left, right, data_type } => ScalarExpr::Binary {
                op: *op,
                left: Box::new(left.duplicate()),
                right: Box::new(right.duplicate()),
                data_type: data_type.duplicate(),
            },
            ScalarExpr::IsNull { expr, negated } => ScalarExpr::IsNull {
                expr: Box::new(expr.duplicate()),
                negated: *negated,
            },
            ScalarExpr::FunctionCall { name, args, data_type } => ScalarExpr::FunctionCall {
                name: name.clone(),
                args: duplicate_scalars(args),
                data_type: data_type.duplicate(),
            },
            ScalarExpr::ScalarSubquery { subplan, correlated, data_type } =>
                ScalarExpr::ScalarSubquery {
                subplan: Box::new(subplan.duplicate()),
                correlated: *correlated,
                data_type: data_type.duplicate(),
            },
            ScalarExpr::Exists { subplan, negated, correlated } => ScalarExpr::Exists {
                subplan: Box::new(subplan.duplicate()),
                negated: *negated,
                correlated: *correlated,
            },
            ScalarExpr::InSubquery { expr, subplan, negated, correlated, data_type } =>
                ScalarExpr::InSubquery {
                expr: Box::new(expr.duplicate()),
                subplan: Box::new(subplan.duplicate()),
                negated: *negated,
                correlated: *correlated,
                data_type: data_type.duplicate(),
            },
        }
    }

    pub fn same(&self, other: &ScalarExpr) -> (yes: bool)
        ensures
            yes == (self@ == other@),
        decreases self, 0int,
    {
        match (self, other) {
            (
                ScalarExpr::Literal { value, data_type },
                ScalarExpr::Literal { value: value2, data_type: data_type2 },
            ) => {
                let eq_value = value.same(value2);
                let eq_data_type = data_type.same(data_type2);
                eq_value && eq_data_type
            },
            (
                ScalarExpr::Column { name, index, data_type },
                ScalarExpr::Column { name: name2, index: index2, data_type: data_type2 },
            ) => {
                let eq_name = text_eq(name.as_str(), name2.as_str());
                let eq_index = *index == *index2;
                let eq_data_type = data_type.same(data_type2);
                eq_name && eq_index && eq_data_type
            },
            (
                ScalarExpr::OuterColumn { name, frame_depth, column_index, data_type },
                ScalarExpr::OuterColumn {
                    name: name2,
                    frame_depth: frame_depth2,
                    column_index: column_index2,
                    data_type: data_type2,
                },
            ) => {
                let eq_name = text_eq(name.as_str(), name2.as_str());
                let eq_frame_depth = *frame_depth == *frame_depth2;
                let eq_column_index = *column_index == *column_index2;
                let eq_data_type = data_type.same(data_type2);
                eq_name && eq_frame_depth && eq_column_index && eq_data_type
            },
            (
                ScalarExpr::Parameter { index, data_type },
                ScalarExpr::Parameter { index: index2, data_type: data_type2 },
            ) => {
                let eq_index = *index == *index2;
                let eq_data_type = data_type.same(data_type2);
                eq_index && eq_data_type
            },
            (
                ScalarExpr::Unary { op, expr, data_type },
                ScalarExpr::Unary { op: op2, expr: expr2, data_type: data_type2 },
            ) => {
                let eq_op = *op == *op2;
                let eq_expr = expr.same(expr2);
                let eq_data_type = data_type.same(data_type2);
                eq_op && eq_expr && eq_data_type
            },
            (
                ScalarExpr::Binary { op, left, right, data_type },
                ScalarExpr::Binary { op: op2, left: left2, right: right2, data_type: data_type2 },
            ) => {
                let eq_op = *op == *op2;
                let eq_left = left.same(left2);
                let eq_right = right.same(right2);
                let eq_data_type = data_type.same(data_type2);
                eq_op && eq_left && eq_right && eq_data_type
            },
            (
                ScalarExpr::IsNull { expr, negated },
                ScalarExpr::IsNull { expr: expr2, negated: negated2 },
            ) => {
                let eq_expr = expr.same(expr2);
                let eq_negated = *negated == *negated2;
                eq_expr && eq_negated
            },
            (
                ScalarExpr::FunctionCall { name, args, data_type },
                ScalarExpr::FunctionCall { name: name2, args: args2, data_type: data_type2 },
            ) => {
                let eq_name = text_eq(name.as_str(), name2.as_str());
                let eq_args = same_scalars(args, args2);
                let eq_data_type = data_type.same(data_type2);
                eq_name && eq_args && eq_data_type
            },
            (
                ScalarExpr::ScalarSubquery { subplan, correlated, data_type },
                ScalarExpr::ScalarSubquery {
                    subplan: subplan2,
                    correlated: correlated2,
                    data_type: data_type2,
                },
            ) => {
                let eq_subplan = subplan.same(subplan2);
                let eq_correlated = *correlated == *correlated2;
                let eq_data_type = data_type.same(data_type2);
                eq_subplan && eq_correlated && eq_data_type
            },
            (
                ScalarExpr::Exists { subplan, negated, correlated },
                ScalarExpr::Exists {
                    subplan: subplan2,
                    negated: negated2,
                    correlated: correlated2,
                },
            ) => {
                let eq_subplan = subplan.same(subplan2);
                let eq_negated = *negated == *negated2;
                let eq_correlated = *correlated == *correlated2;
                eq_subplan && eq_negated && eq_correlated
            },
            (
                ScalarExpr::InSubquery { expr, subplan, negated, correlated, data_type },
                ScalarExpr::InSubquery {
                    expr: expr2,
                    subplan: subplan2,
                    negated: negated2,
                    correlated: correlated2,
                    data_type: data_type2,
                },
            ) => {
                let eq_expr = expr.same(expr2);
                let eq_subplan = subplan.same(subplan2);
                let eq_negated = *negated == *negated2;
                let eq_correlated = *correlated == *correlated2;
                let eq_data_type = data_type.same(data_type2);
                eq_expr && eq_subplan && eq_negated && eq_correlated && eq_data_type
            },
            _ => false,
        }
    }

}

/// A sort key.
#[derive(Debug, PartialEq)]
pub struct SortKey {
    pub expr: ScalarExpr,
    pub asc: bool,
    pub nulls_first: bool,
}

/// The model of a [`SortKey`].
pub struct SortKeyView {
    pub expr: ScalarExprView,
    pub asc: bool,
    pub nulls_first: bool,
}

impl SortKey {
    pub open spec fn view(&self) -> SortKeyView
        decreases self,
    {
        SortKeyView {
            expr: self.expr.view(),
            asc: self.asc,
            nulls_first: self.nulls_first,
        }
    }

    pub fn duplicate(&self) -> (copy: SortKey)
        ensures
            copy@ == self@,
        decreases self, 0int,
    {
        SortKey {
            expr: self.expr.duplicate(),
            asc: self.asc,
            nulls_first: self.nulls_first,
        }
    }

    pub fn same(&self, other: &SortKey) -> (yes: bool)
        ensures
            yes == (self@ == other@),
        decreases self, 0int,
    {
        let eq_expr = self.expr.same(&other.expr);
        let eq_asc = self.asc == other.asc;
        let eq_nulls_first = self.nulls_first == other.nulls_first;
        eq_expr && eq_asc && eq_nulls_first
    }

}

/// A bound aggregate call.
#[derive(Debug, PartialEq)]
pub struct LogicalAggregateExpr {
    pub func: AggregateFunc,
    pub arg: Option<ScalarExpr>,
    pub direct_arg: Option<ScalarExpr>,
    pub order_by: Option<SortKey>,
    pub distinct: bool,
    pub output_name: String,
    pub data_type: DataType,
}

/// The model of a [`LogicalAggregateExpr`].
pub struct LogicalAggregateExprView {
    pub func: AggregateFunc,
    pub arg: Option<ScalarExprView>,
    pub direct_arg: Option<ScalarExprView>,
    pub order_by: Option<SortKeyView>,
    pub distinct: bool,
    pub output_name: Seq<char>,
    pub data_type: DataTypeView,
}

impl LogicalAggregateExpr {
    pub open spec fn view(&self) -> LogicalAggregateExprView
        decreases self,
    {
        LogicalAggregateExprView {
            func: self.func,
            arg: match self.arg { Some(x) => Some(x.view()), None => None },
            direct_arg: match self.direct_arg { Some(x) => Some(x.view()), None => None },
            order_by: match self.order_by { Some(x) => Some(x.view()), None => None },
            distinct: self.distinct,
            output_name: self.output_name@,
            data_type: self.data_type.view(),
        }
    }

    pub fn duplicate(&self) -> (copy: LogicalAggregateExpr)
        ensures
            copy@ == self@,
        decreases self, 0int,
    {
        LogicalAggregateExpr {
            func: self.func,
            arg: match &self.arg { Some(x) => Some(x.duplicate()), None => None },
            direct_arg: match &self.direct_arg { Some(x) => Some(x.duplicate()), None => None },
            order_by: match &self.order_by { Some(x) => Some(x.duplicate()), None => None },
            distinct: self.distinct,
            output_name: self.output_name.clone(),
            data_type: self.data_type.duplicate(),
        }
    }

    pub fn same(&self, other: &LogicalAggregateExpr) -> (yes: bool)
        ensures
            yes == (self@ == other@),
        decreases self, 0int,
    {
        let eq_func = self.func == other.func;
        let eq_arg = match (&self.arg, &other.arg) {
            (Some(x), Some(y)) => x.same(y),
            (None, None) => true,
            _ => false,
        };
        let eq_direct_arg = match (&self.direct_arg, &other.direct_arg) {
            (Some(x), Some(y)) => x.same(y),
            (None, None) => true,
            _ => false,
        };
        let eq_order_by = match (&self.order_by, &other.order_by) {
            (Some(x), Some(y)) => x.same(y),
            (None, None) => true,
            _ => false,
        };
        let eq_distinct = self.distinct == other.distinct;
        let eq_output_name = text_eq(self.output_name.as_str(), other.output_name.as_str());
        let eq_data_type = self.data_type.same(&other.data_type);
        eq_func && eq_arg && eq_direct_arg && eq_order_by && eq_distinct && eq_output_name
            && eq_data_type
    }

}

/// The condition of a join.
#[derive(Debug, PartialEq)]
pub enum LogicalJoinCondition {
    Absent,
    On(ScalarExpr),
    Using(Vec<(usize, usize)>),
}

/// The model of a [`LogicalJoinCondition`].
pub enum LogicalJoinConditionView {
    Absent,
    On(ScalarExprView),
    Using(Seq<(usize, usize)>),
}

impl LogicalJoinCondition {
    pub open spec fn view(&self) -> LogicalJoinConditionView
        decreases self,
    {
        match self {
            LogicalJoinCondition::Absent => LogicalJoinConditionView::Absent,
            LogicalJoinCondition::On(x0) => LogicalJoinConditionView::On(x0.view()),
            LogicalJoinCondition::Using(x0) => LogicalJoinConditionView::Using(x0@),
        }
    }

    pub fn duplicate(&self) -> (copy: LogicalJoinCondition)
        ensures
            copy@ == self@,
        decreases self, 0int,
    {
        match self {
            LogicalJoinCondition::Absent => LogicalJoinCondition::Absent,
            LogicalJoinCondition::On(x0) => LogicalJoinCondition::On(x0.duplicate()),
            LogicalJoinCondition::Using(x0) => LogicalJoinCondition::Using(copy_list(x0)),
        }
    }

    pub fn same(&self, other: &LogicalJoinCondition) -> (yes: bool)
        ensures
            yes == (self@ == other@),
        decreases self, 0int,
    {
        match (self, other) {
            (LogicalJoinCondition::Absent, LogicalJoinCondition::Absent) => true,
            (LogicalJoinCondition::On(x0), LogicalJoinCondition::On(x02)) => x0.same(x02),
            (LogicalJoinCondition::Using(x0), LogicalJoinCondition::Using(x02)) => same_index_pairs(
                x0,
                x02,
            ),
            _ => false,
        }
    }

}

/// A plan that produces rows.
#[derive(Debug, PartialEq)]
pub enum QueryPlan {
    Scan { table: String, schema: Schema, projection: Option<Vec<usize>> },
    Empty { schema: Schema },
    Filter { input: Box<QueryPlan>, predicate: ScalarExpr },
    Project { input: Box<QueryPlan>, exprs: Vec<(ScalarExpr, String)>, schema: Schema },
    Sort { input: Box<QueryPlan>, keys: Vec<SortKey> },
    Limit { input: Box<QueryPlan>, n: u64, offset: u64 },
    Aggregate {
        input: Box<QueryPlan>,
        group_by: Vec<ScalarExpr>,
        aggregates: Vec<LogicalAggregateExpr>,
        schema: Schema,
    },
    Join {
        left: Box<QueryPlan>,
        right: Box<QueryPlan>,
        join_type: LogicalJoinType,
        condition: LogicalJoinCondition,
        schema: Schema,
    },
    SetOp {
        op: LogicalSetOp,
        quantifier: LogicalSetQuantifier,
        left: Box<QueryPlan>,
        right: Box<QueryPlan>,
        schema: Schema,
    },
    Cte {
        name: String,
        recursive: bool,
        definition: Box<QueryPlan>,
        body: Box<QueryPlan>,
        schema: Schema,
    },
    Values { rows: Vec<Vec<ScalarExpr>>, schema: Schema },
}

/// The model of a [`QueryPlan`].
pub enum QueryPlanView {
    Scan { table: Seq<char>, schema: SchemaView, projection: Option<Seq<usize>> },
    Empty { schema: SchemaView },
    Filter { input: Box<QueryPlanView>, predicate: ScalarExprView },
    Project {
        input: Box<QueryPlanView>,
        exprs: Seq<(ScalarExprView, Seq<char>)>,
        schema: SchemaView,
    },
    Sort { input: Box<QueryPlanView>, keys: Seq<SortKeyView> },
    Limit { input: Box<QueryPlanView>, n: u64, offset: u64 },
    Aggregate {
        input: Box<QueryPlanView>,
        group_by: Seq<ScalarExprView>,
        aggregates: Seq<LogicalAggregateExprView>,
        schema: SchemaView,
    },
    Join {
        left: Box<QueryPlanView>,
        right: Box<QueryPlanView>,
        join_type: LogicalJoinType,
        condition: LogicalJoinConditionView,
        schema: SchemaView,
    },
    SetOp {
        op: LogicalSetOp,
        quantifier: LogicalSetQuantifier,
        left: Box<QueryPlanView>,
        right: Box<QueryPlanView>,
        schema: SchemaView,
    },
    Cte {
        name: Seq<char>,
        recursive: bool,
        definition: Box<QueryPlanView>,
        body: Box<QueryPlanView>,
        schema: SchemaView,
    },
    Values { rows: Seq<Seq<ScalarExprView>>, schema: SchemaView },
}

impl QueryPlan {
    pub open spec fn view(&self) -> QueryPlanView
        decreases self,
    {
        match self {
            QueryPlan::Scan { table, schema, projection } => QueryPlanView::Scan {
                table: table@,
                schema: schema.view(),
                projection: match projection { Some(x) => Some(x@), None => None },
            },
            QueryPlan::Empty { schema } => QueryPlanView::Empty { schema: schema.view() },
            QueryPlan::Filter { input, predicate } => QueryPlanView::Filter {
                input: Box::new(input.view()),
                predicate: predicate.view(),
            },
            QueryPlan::Project { input, exprs, schema } => QueryPlanView::Project {
                input: Box::new(input.view()),
                exprs: outputs_view(exprs@),
                schema: schema.view(),
            },
            QueryPlan::Sort { input, keys } => QueryPlanView::Sort {
                input: Box::new(input.view()),
                keys: sort_keys_view(keys@),
            },
            QueryPlan::Limit { input, n, offset } => QueryPlanView::Limit {
                input: Box::new(input.view()),
                n: *n,
                offset: *offset,
            },
            QueryPlan::Aggregate { input, group_by, aggregates, schema } =>
                QueryPlanView::Aggregate {
                input: Box::new(input.view()),
                group_by: scalars_view(group_by@),
                aggregates: aggregate_exprs_view(aggregates@),
                schema: schema.view(),
            },
            QueryPlan::Join { left, right, join_type, condition, schema } => QueryPlanView::Join {
                left: Box::new(left.view()),
                right: Box::new(right.view()),
                join_type: *join_type,
                condition: condition.view(),
                schema: schema.view(),
            },
            QueryPlan::SetOp { op, quantifier, left, right, schema } => QueryPlanView::SetOp {
                op: *op,
                quantifier: *quantifier,
                left: Box::new(left.view()),
                right: Box::new(right.view()),
                schema: schema.view(),
            },
            QueryPlan::Cte { name, recursive, definition, body, schema } => QueryPlanView::Cte {
                name: name@,
                recursive: *recursive,
                definition: Box::new(definition.view()),
                body: Box::new(body.view()),
                schema: schema.view(),
            },
            QueryPlan::Values { rows, schema } => QueryPlanView::Values {
                rows: rows_view(rows@),
                schema: schema.view(),
            },
        }
    }

    pub fn duplicate(&self) -> (copy: QueryPlan)
        ensures
            copy@ == self@,
        decreases self, 0int,
    {
        match self {
            QueryPlan::Scan { table, schema, projection } => QueryPlan::Scan {
                table: table.clone(),
                schema: schema.duplicate(),
                projection: match projection { Some(x) => Some(copy_list(x)), None => None },
            },
            QueryPlan::Empty { schema } => QueryPlan::Empty { schema: schema.duplicate() },
            QueryPlan::Filter { input, predicate } => QueryPlan::Filter {
                input: Box::new(input.duplicate()),
                predicate: predicate.duplicate(),
            },
            QueryPlan::Project { input, exprs, schema } => QueryPlan::Project {
                input: Box::new(input.duplicate()),
                exprs: duplicate_outputs(exprs),
                schema: schema.duplicate(),
            },
            QueryPlan::Sort { input, keys } => QueryPlan::Sort {
                input: Box::new(input.duplicate()),
                keys: duplicate_sort_keys(keys),
            },
            QueryPlan::Limit { input, n, offset } => QueryPlan::Limit {
                input: Box::new(input.duplicate()),
                n: *n,
                offset: *offset,
            },
            QueryPlan::Aggregate { input, group_by, aggregates, schema } => QueryPlan::Aggregate {
                input: Box::new(input.duplicate()),
                group_by: duplicate_scalars(group_by),
                aggregates: duplicate_aggregate_exprs(aggregates),
                schema: schema.duplicate(),
            },
            QueryPlan::Join { left, right, join_type, condition, schema } => QueryPlan::Join {
                left: Box::new(left.duplicate()),
                right: Box::new(right.duplicate()),
                join_type: *join_type,
                condition: condition.duplicate(),
                schema: schema.duplicate(),
            },
            QueryPlan::SetOp { op, quantifier, left, right, schema } => QueryPlan::SetOp {
                op: *op,
                quantifier: *quantifier,
                left: Box::new(left.duplicate()),
                right: Box::new(right.duplicate()),
                schema: schema.duplicate(),
            },
            QueryPlan::Cte { name, recursive, definition, body, schema } => QueryPlan::Cte {
                name: name.clone(),
                recursive: *recursive,
                definition: Box::new(definition.duplicate()),
                body: Box::new(body.duplicate()),
                schema: schema.duplicate(),
            },
            QueryPlan::Values { rows, schema } => QueryPlan::Values {
                rows: duplicate_rows(rows),
                schema: schema.duplicate(),
            },
        }
    }

    pub fn same(&self, other: &QueryPlan) -> (yes: bool)
        ensures
            yes == (self@ == other@),
        decreases self, 0int,
    {
        match (self, other) {
            (
                QueryPlan::Scan { table, schema, projection },
                QueryPlan::Scan { table: table2, schema: schema2, projection: projection2 },
            ) => {
                let eq_table = text_eq(table.as_str(), table2.as_str());
                let eq_schema = schema.same(schema2);
                let eq_projection = match (projection, projection2) {
                    (Some(x), Some(y)) => same_indices(x, y),
                    (None, None) => true,
                    _ => false,
                };
                eq_table && eq_schema && eq_projection
            },
            (QueryPlan::Empty { schema }, QueryPlan::Empty { schema: schema2 }) => schema.same(
                schema2,
            ),
            (
                QueryPlan::Filter { input, predicate },
                QueryPlan::Filter { input: input2, predicate: predicate2 },
            ) => {
                let eq_input = input.same(input2);
                let eq_predicate = predicate.same(predicate2);
                eq_input && eq_predicate
            },
            (
                QueryPlan::Project { input, exprs, schema },
                QueryPlan::Project { input: input2, exprs: exprs2, schema: schema2 },
            ) => {
                let eq_input = input.same(input2);
                let eq_exprs = same_outputs(exprs, exprs2);
                let eq_schema = schema.same(schema2);
                eq_input && eq_exprs && eq_schema
            },
            (QueryPlan::Sort { input, keys }, QueryPlan::Sort { input: input2, keys: keys2 }) => {
                let eq_input = input.same(input2);
                let eq_keys = same_sort_keys(keys, keys2);
                eq_input && eq_keys
            },
            (
                QueryPlan::Limit { input, n, offset },
                QueryPlan::Limit { input: input2, n: n2, offset: offset2 },
            ) => {
                let eq_input = input.same(input2);
                let eq_n = *n == *n2;
                let eq_offset = *offset == *offset2;
                eq_input && eq_n && eq_offset
            },
            (
                QueryPlan::Aggregate { input, group_by, aggregates, schema },
                QueryPlan::Aggregate {
                    input: input2,
                    group_by: group_by2,
                    aggregates: aggregates2,
                    schema: schema2,
                },
            ) => {
                let eq_input = input.same(input2);
                let eq_group_by = same_scalars(group_by, group_by2);
                let eq_aggregates = same_aggregate_exprs(aggregates, aggregates2);
                let eq_schema = schema.same(schema2);
                eq_input && eq_group_by && eq_aggregates && eq_schema
            },
            (
                QueryPlan::Join { left, right, join_type, condition, schema },
                QueryPlan::Join {
                    left: left2,
                    right: right2,
                    join_type: join_type2,
                    condition: condition2,
                    schema: schema2,
                },
            ) => {
                let eq_left = left.same(left2);
                let eq_right = right.same(right2);
                let eq_join_type = *join_type == *join_type2;
                let eq_condition = condition.same(condition2);
                let eq_schema = schema.same(schema2);
                eq_left && eq_right && eq_join_type && eq_condition && eq_schema
            },
            (
                QueryPlan::SetOp { op, quantifier, left, right, schema },
                QueryPlan::SetOp {
                    op: op2,
                    quantifier: quantifier2,
                    left: left2,
                    right: right2,
                    schema: schema2,
                },
            ) => {
                let eq_op = *op == *op2;
                let eq_quantifier = *quantifier == *quantifier2;
                let eq_left = left.same(left2);
                let eq_right = right.same(right2);
                let eq_schema = schema.same(schema2);
                eq_op && eq_quantifier && eq_left && eq_right && eq_schema
            },
            (
                QueryPlan::Cte { name, recursive, definition, body, schema },
                QueryPlan::Cte {
                    name: name2,
                    recursive: recursive2,
                    definition: definition2,
                    body: body2,
                    schema: schema2,
                },
            ) => {
                let eq_name = text_eq(name.as_str(), name2.as_str());
                let eq_recursive = *recursive == *recursive2;
                let eq_definition = definition.same(definition2);
                let eq_body = body.same(body2);
                let eq_schema = schema.same(schema2);
                eq_name && eq_recursive && eq_definition && eq_body && eq_schema
            },
            (
                QueryPlan::Values { rows, schema },
                QueryPlan::Values { rows: rows2, schema: schema2 },
            ) => {
                let eq_rows = same_rows(rows, rows2);
                let eq_schema = schema.same(schema2);
                eq_rows && eq_schema
            },
            _ => false,
        }
    }

}

/// The models of expressions.
pub open spec fn scalars_view(s: Seq<ScalarExpr>) -> Seq<ScalarExprView>
    decreases s,
{
    Seq::new(s.len(), |i: int| if 0 <= i < s.len() { s[i].view() } else { arbitrary() })
}

/// Appending an element appends its model.
pub broadcast proof fn lemma_scalars_push(s: Seq<ScalarExpr>, e: ScalarExpr)
    ensures
        #[trigger] scalars_view(s.push(e)) == scalars_view(s).push(e.view()),
{
    assert(scalars_view(s.push(e)) =~= scalars_view(s).push(e.view()));
}

/// Copies expressions.
pub fn duplicate_scalars(list: &Vec<ScalarExpr>) -> (copy: Vec<ScalarExpr>)
    ensures
        scalars_view(copy@) == scalars_view(list@),
    decreases list, 1int,
{
    let mut copy: Vec<ScalarExpr> = Vec::new();
    let mut i: usize = 0;
    while i < list.len()
        invariant
            i <= list.len(),
            copy.len() == i,
            forall|j: int|
                0 <= j < i ==> scalars_view(copy@)[j] == #[trigger] scalars_view(list@)[j],
        decreases list.len() - i,
    {
        let ghost before = copy@;
        let item: ScalarExpr = list[i].duplicate();
        copy.push(item);
        proof {
            lemma_scalars_push(before, item);
        }
        i = i + 1;
    }
    assert(scalars_view(copy@) =~= scalars_view(list@));
    copy
}

/// Whether two lists of expressions are equal.
pub fn same_scalars(list: &Vec<ScalarExpr>, other: &Vec<ScalarExpr>) -> (yes: bool)
    ensures
        yes == (scalars_view(list@) == scalars_view(other@)),
    decreases list, 1int,
{
    if list.len() != other.len() {
        assert(scalars_view(list@).len() != scalars_view(other@).len());
        return false;
    }
    let mut i: usize = 0;
    while i < list.len()
        invariant
            i <= list.len(),
            list.len() == other.len(),
            forall|j: int|
                0 <= j < i ==> scalars_view(list@)[j] == #[trigger] scalars_view(other@)[j],
        decreases list.len() - i,
    {
        let eq = list[i].same(&other[i]);
        if !eq {
            assert(scalars_view(list@)[i as int] != scalars_view(other@)[i as int]);
            return false;
        }
        i = i + 1;
    }
    assert(scalars_view(list@) =~= scalars_view(other@));
    true
}

/// The models of named expressions.
pub open spec fn outputs_view(s: Seq<(ScalarExpr, String)>) -> Seq<(ScalarExprView, Seq<char>)>
    decreases s,
{
    Seq::new(
        s.len(),
        |i: int| if 0 <= i < s.len() { (s[i].0.view(), s[i].1@) } else { arbitrary() },
    )
}

/// Appending an element appends its model.
pub broadcast proof fn lemma_outputs_push(s: Seq<(ScalarExpr, String)>, e: (ScalarExpr, String))
    ensures
        #[trigger] outputs_view(s.push(e)) == outputs_view(s).push((e.0.view(), e.1@)),
{
    assert(outputs_view(s.push(e)) =~= outputs_view(s).push((e.0.view(), e.1@)));
}

/// Copies named expressions.
pub fn duplicate_outputs(list: &Vec<(ScalarExpr, String)>) -> (copy: Vec<(ScalarExpr, String)>)
    ensures
        outputs_view(copy@) == outputs_view(list@),
    decreases list, 1int,
{
    let mut copy: Vec<(ScalarExpr, String)> = Vec::new();
    let mut i: usize = 0;
    while i < list.len()
        invariant
            i <= list.len(),
            copy.len() == i,
            forall|j: int|
                0 <= j < i ==> outputs_view(copy@)[j] == #[trigger] outputs_view(list@)[j],
        decreases list.len() - i,
    {
        let ghost before = copy@;
        let item: (ScalarExpr, String) = (list[i].0.duplicate(), list[i].1.clone());
        copy.push(item);
        proof {
            lemma_outputs_push(before, item);
        }
        i = i + 1;
    }
    assert(outputs_view(copy@) =~= outputs_view(list@));
    copy
}

/// Whether two lists of named expressions are equal.
pub fn same_outputs(
    list: &Vec<(ScalarExpr, String)>,
    other: &Vec<(ScalarExpr, String)>,
) -> (yes: bool)
    ensures
        yes == (outputs_view(list@) == outputs_view(other@)),
    decreases list, 1int,
{
    if list.len() != other.len() {
        assert(outputs_view(list@).len() != outputs_view(other@).len());
        return false;
    }
    let mut i: usize = 0;
    while i < list.len()
        invariant
            i <= list.len(),
            list.len() == other.len(),
            forall|j: int|
                0 <= j < i ==> outputs_view(list@)[j] == #[trigger] outputs_view(other@)[j],
        decreases list.len() - i,
    {
        let eq = (list[i].0.same(&other[i].0) && text_eq(list[i].1.as_str(), other[i].1.as_str()));
        if !eq {
            assert(outputs_view(list@)[i as int] != outputs_view(other@)[i as int]);
            return false;
        }
        i = i + 1;
    }
    assert(outputs_view(list@) =~= outputs_view(other@));
    true
}

/// The models of rows of expressions.
pub open spec fn rows_view(s: Seq<Vec<ScalarExpr>>) -> Seq<Seq<ScalarExprView>>
    decreases s,
{
    Seq::new(s.len(), |i: int| if 0 <= i < s.len() { scalars_view(s[i]@) } else { arbitrary() })
}

/// Appending an element appends its model.
pub broadcast proof fn lemma_rows_push(s: Seq<Vec<ScalarExpr>>, e: Vec<ScalarExpr>)
    ensures
        #[trigger] rows_view(s.push(e)) == rows_view(s).push(scalars_view(e@)),
{
    assert(rows_view(s.push(e)) =~= rows_view(s).push(scalars_view(e@)));
}

/// Copies rows of expressions.
pub fn duplicate_rows(list: &Vec<Vec<ScalarExpr>>) -> (copy: Vec<Vec<ScalarExpr>>)
    ensures
        rows_view(copy@) == rows_view(list@),
    decreases list, 1int,
{
    let mut copy: Vec<Vec<ScalarExpr>> = Vec::new();
    let mut i: usize = 0;
    while i < list.len()
        invariant
            i <= list.len(),
            copy.len() == i,
            forall|j: int| 0 <= j < i ==> rows_view(copy@)[j] == #[trigger] rows_view(list@)[j],
        decreases list.len() - i,
    {
        let ghost before = copy@;
        let item: Vec<ScalarExpr> = duplicate_scalars(&list[i]);
        copy.push(item);
        proof {
            lemma_rows_push(before, item);
        }
        i = i + 1;
    }
    assert(rows_view(copy@) =~= rows_view(list@));
    copy
}

/// Whether two lists of rows of expressions are equal.
pub fn same_rows(list: &Vec<Vec<ScalarExpr>>, other: &Vec<Vec<ScalarExpr>>) -> (yes: bool)
    ensures
        yes == (rows_view(list@) == rows_view(other@)),
    decreases list, 1int,
{
    if list.len() != other.len() {
        assert(rows_view(list@).len() != rows_view(other@).len());
        return false;
    }
    let mut i: usize = 0;
    while i < list.len()
        invariant
            i <= list.len(),
            list.len() == other.len(),
            forall|j: int| 0 <= j < i ==> rows_view(list@)[j] == #[trigger] rows_view(other@)[j],
        decreases list.len() - i,
    {
        let eq = same_scalars(&list[i], &other[i]);
        if !eq {
            assert(rows_view(list@)[i as int] != rows_view(other@)[i as int]);
            return false;
        }
        i = i + 1;
    }
    assert(rows_view(list@) =~= rows_view(other@));
    true
}

/// The models of sort keys.
pub open spec fn sort_keys_view(s: Seq<SortKey>) -> Seq<SortKeyView>
    decreases s,
{
    Seq::new(s.len(), |i: int| if 0 <= i < s.len() { s[i].view() } else { arbitrary() })
}

/// Appending an element appends its model.
pub broadcast proof fn lemma_sort_keys_push(s: Seq<SortKey>, e: SortKey)
    ensures
        #[trigger] sort_keys_view(s.push(e)) == sort_keys_view(s).push(e.view()),
{
    assert(sort_keys_view(s.push(e)) =~= sort_keys_view(s).push(e.view()));
}

/// Copies sort keys.
pub fn duplicate_sort_keys(list: &Vec<SortKey>) -> (copy: Vec<SortKey>)
    ensures
        sort_keys_view(copy@) == sort_keys_view(list@),
    decreases list, 1int,
{
    let mut copy: Vec<SortKey> = Vec::new();
    let mut i: usize = 0;
    while i < list.len()
        invariant
            i <= list.len(),
            copy.len() == i,
            forall|j: int|
                0 <= j < i ==> sort_keys_view(copy@)[j] == #[trigger] sort_keys_view(list@)[j],
        decreases list.len() - i,
    {
        let ghost before = copy@;
        let item: SortKey = list[i].duplicate();
        copy.push(item);
        proof {
            lemma_sort_keys_push(before, item);
        }
        i = i + 1;
    }
    assert(sort_keys_view(copy@) =~= sort_keys_view(list@));
    copy
}

/// Whether two lists of sort keys are equal.
pub fn same_sort_keys(list: &Vec<SortKey>, other: &Vec<SortKey>) -> (yes: bool)
    ensures
        yes == (sort_keys_view(list@) == sort_keys_view(other@)),
    decreases list, 1int,
{
    if list.len() != other.len() {
        assert(sort_keys_view(list@).len() != sort_keys_view(other@).len());
        return false;
    }
    let mut i: usize = 0;
    while i < list.len()
        invariant
            i <= list.len(),
            list.len() == other.len(),
            forall|j: int|
                0 <= j < i ==> sort_keys_view(list@)[j] == #[trigger] sort_keys_view(other@)[j],
        decreases list.len() - i,
    {
        let eq = list[i].same(&other[i]);
        if !eq {
            assert(sort_keys_view(list@)[i as int] != sort_keys_view(other@)[i as int]);
            return false;
        }
        i = i + 1;
    }
    assert(sort_keys_view(list@) =~= sort_keys_view(other@));
    true
}

/// The models of aggregate calls.
pub open spec fn aggregate_exprs_view(s: Seq<LogicalAggregateExpr>) -> Seq<LogicalAggregateExprView>
    decreases s,
{
    Seq::new(s.len(), |i: int| if 0 <= i < s.len() { s[i].view() } else { arbitrary() })
}

/// Appending an element appends its model.
pub broadcast proof fn lemma_aggregate_exprs_push(
    s: Seq<LogicalAggregateExpr>,
    e: LogicalAggregateExpr,
)
    ensures
        #[trigger] aggregate_exprs_view(s.push(e)) == aggregate_exprs_view(s).push(e.view()),
{
    assert(aggregate_exprs_view(s.push(e)) =~= aggregate_exprs_view(s).push(e.view()));
}

/// Copies aggregate calls.
pub fn duplicate_aggregate_exprs(
    list: &Vec<LogicalAggregateExpr>,
) -> (copy: Vec<LogicalAggregateExpr>)
    ensures
        aggregate_exprs_view(copy@) == aggregate_exprs_view(list@),
    decreases list, 1int,
{
    let mut copy: Vec<LogicalAggregateExpr> = Vec::new();
    let mut i: usize = 0;
    while i < list.len()
        invariant
            i <= list.len(),
            copy.len() == i,
            forall|j: int|
                0 <= j < i ==> aggregate_exprs_view(copy@)[j] == #[trigger] aggregate_exprs_view(list@)[j],
        decreases list.len() - i,
    {
        let ghost before = copy@;
        let item: LogicalAggregateExpr = list[i].duplicate();
        copy.push(item);
        proof {
            lemma_aggregate_exprs_push(before, item);
        }
        i = i + 1;
    }
    assert(aggregate_exprs_view(copy@) =~= aggregate_exprs_view(list@));
    copy
}

/// Whether two lists of aggregate calls are equal.
pub fn same_aggregate_exprs(
    list: &Vec<LogicalAggregateExpr>,
    other: &Vec<LogicalAggregateExpr>,
) -> (yes: bool)
    ensures
        yes == (aggregate_exprs_view(list@) == aggregate_exprs_view(other@)),
    decreases list, 1int,
{
    if list.len() != other.len() {
        assert(aggregate_exprs_view(list@).len() != aggregate_exprs_view(other@).len());
        return false;
    }
    let mut i: usize = 0;
    while i < list.len()
        invariant
            i <= list.len(),
            list.len() == other.len(),
            forall|j: int|
                0 <= j < i ==> aggregate_exprs_view(list@)[j] == #[trigger] aggregate_exprs_view(other@)[j],
        decreases list.len() - i,
    {
        let eq = list[i].same(&other[i]);
        if !eq {
            assert(aggregate_exprs_view(list@)[i as int] != aggregate_exprs_view(other@)[i as int]);
            return false;
        }
        i = i + 1;
    }
    assert(aggregate_exprs_view(list@) =~= aggregate_exprs_view(other@));
    true
}

/// Whether two lists of index pairs are equal.
pub fn same_index_pairs(list: &Vec<(usize, usize)>, other: &Vec<(usize, usize)>) -> (yes: bool)
    ensures
        yes == (list@ == other@),
{
    if list.len() != other.len() {
        assert(list@.len() != other@.len());
        return false;
    }
    let mut i: usize = 0;
    while i < list.len()
        invariant
            i <= list.len(),
            list.len() == other.len(),
            forall|j: int| 0 <= j < i ==> list@[j] == #[trigger] other@[j],
        decreases list.len() - i,
    {
        let eq = (list[i].0 == other[i].0 && list[i].1 == other[i].1);
        if !eq {
            assert(list@[i as int] != other@[i as int]);
            return false;
        }
        i = i + 1;
    }
    assert(list@ =~= other@);
    true
}

/// The type of a bound expression. Null tests and subquery tests are boolean.
pub open spec fn scalar_type(e: ScalarExprView) -> DataTypeView {
    match e {
        ScalarExprView::Literal { data_type, .. } => data_type,
        ScalarExprView::Column { data_type, .. } => data_type,
        ScalarExprView::OuterColumn { data_type, .. } => data_type,
        ScalarExprView::Parameter { data_type, .. } => data_type,
        ScalarExprView::Unary { data_type, .. } => data_type,
        ScalarExprView::Binary { data_type, .. } => data_type,
        ScalarExprView::IsNull { .. } => DataTypeView::Bool,
        ScalarExprView::FunctionCall { data_type, .. } => data_type,
        ScalarExprView::ScalarSubquery { data_type, .. } => data_type,
        ScalarExprView::Exists { .. } => DataTypeView::Bool,
        ScalarExprView::InSubquery { .. } => DataTypeView::Bool,
    }
}

/// The columns that a plan produces.
pub open spec fn query_schema(p: QueryPlanView) -> SchemaView
    decreases p,
{
    match p {
        QueryPlanView::Scan { schema, .. } => schema,
        QueryPlanView::Empty { schema } => schema,
        QueryPlanView::Filter { input, .. } => query_schema(*input),
        QueryPlanView::Project { schema, .. } => schema,
        QueryPlanView::Sort { input, .. } => query_schema(*input),
        QueryPlanView::Limit { input, .. } => query_schema(*input),
        QueryPlanView::Aggregate { schema, .. } => schema,
        QueryPlanView::Join { schema, .. } => schema,
        QueryPlanView::SetOp { schema, .. } => schema,
        QueryPlanView::Cte { schema, .. } => schema,
        QueryPlanView::Values { schema, .. } => schema,
    }
}

/// Whether an outer column occurs in an expression, in its operands or in the
/// plans below it.
pub open spec fn scalar_has_outer(e: ScalarExprView) -> bool
    decreases e, 0int,
{
    match e {
        ScalarExprView::Literal { .. } => false,
        ScalarExprView::Column { .. } => false,
        ScalarExprView::OuterColumn { .. } => true,
        ScalarExprView::Parameter { .. } => false,
        ScalarExprView::Unary { expr, .. } => scalar_has_outer(*expr),
        ScalarExprView::Binary { left, right, .. } => scalar_has_outer(*left) || scalar_has_outer(
            *right,
        ),
        ScalarExprView::IsNull { expr, .. } => scalar_has_outer(*expr),
        ScalarExprView::FunctionCall { args, .. } => any_has_outer(args),
        ScalarExprView::ScalarSubquery { subplan, .. } => query_has_outer(*subplan),
        ScalarExprView::Exists { subplan, .. } => query_has_outer(*subplan),
        ScalarExprView::InSubquery { expr, subplan, .. } => scalar_has_outer(*expr)
            || query_has_outer(*subplan),
    }
}

/// Whether an outer column occurs in one of the expressions.
pub open spec fn any_has_outer(s: Seq<ScalarExprView>) -> bool
    decreases s, 1int,
{
    exists|i: int| 0 <= i < s.len() && scalar_has_outer(#[trigger] s[i])
}

/// Whether an outer column occurs in one of the named expressions.
pub open spec fn any_output_has_outer(s: Seq<(ScalarExprView, Seq<char>)>) -> bool
    decreases s, 1int,
{
    exists|i: int| 0 <= i < s.len() && scalar_has_outer((#[trigger] s[i]).0)
}

/// Whether an outer column occurs in one of the sort keys.
pub open spec fn any_key_has_outer(s: Seq<SortKeyView>) -> bool
    decreases s, 1int,
{
    exists|i: int| 0 <= i < s.len() && scalar_has_outer((#[trigger] s[i]).expr)
}

/// Whether an outer column occurs in an aggregate call.
pub open spec fn aggregate_has_outer(a: LogicalAggregateExprView) -> bool
    decreases a, 0int,
{
    ||| match a.arg {
        Some(e) => scalar_has_outer(e),
        None => false,
    }
    ||| match a.direct_arg {
        Some(e) => scalar_has_outer(e),
        None => false,
    }
    ||| match a.order_by {
        Some(k) => scalar_has_outer(k.expr),
        None => false,
    }
}

/// Whether an outer column occurs in one of the aggregate calls.
pub open spec fn any_aggregate_has_outer(s: Seq<LogicalAggregateExprView>) -> bool
    decreases s, 1int,
{
    exists|i: int| 0 <= i < s.len() && aggregate_has_outer(#[trigger] s[i])
}

/// Whether an outer column occurs in a join condition.
pub open spec fn condition_has_outer(c: LogicalJoinConditionView) -> bool
    decreases c, 0int,
{
    match c {
        LogicalJoinConditionView::On(e) => scalar_has_outer(e),
        _ => false,
    }
}

/// Whether an outer column occurs in one of the rows.
pub open spec fn any_row_has_outer(s: Seq<Seq<ScalarExprView>>) -> bool
    decreases s, 1int,
{
    exists|i: int| 0 <= i < s.len() && any_has_outer(#[trigger] s[i])
}

/// Whether an outer column occurs anywhere in a plan.
pub open spec fn query_has_outer(p: QueryPlanView) -> bool
    decreases p, 0int,
{
    match p {
        QueryPlanView::Scan { .. } => false,
        QueryPlanView::Empty { .. } => false,
        QueryPlanView::Filter { input, predicate } => scalar_has_outer(predicate)
            || query_has_outer(*input),
        QueryPlanView::Project { input, exprs, .. } => any_output_has_outer(exprs)
            || query_has_outer(*input),
        QueryPlanView::Sort { input, keys } => any_key_has_outer(keys) || query_has_outer(*input),
        QueryPlanView::Limit { input, .. } => query_has_outer(*input),
        QueryPlanView::Aggregate { input, group_by, aggregates, .. } => any_has_outer(group_by)
            || any_aggregate_has_outer(aggregates) || query_has_outer(*input),
        QueryPlanView::Join { left, right, condition, .. } => condition_has_outer(condition)
            || query_has_outer(*left) || query_has_outer(*right),
        QueryPlanView::SetOp { left, right, .. } => query_has_outer(*left) || query_has_outer(
            *right,
        ),
        QueryPlanView::Cte { definition, body, .. } => query_has_outer(*definition)
            || query_has_outer(*body),
        QueryPlanView::Values { rows, .. } => any_row_has_outer(rows),
    }
}

impl ScalarExpr {
    /// The type of the expression.
    pub fn data_type(&self) -> (t: DataType)
        ensures
            t@ == scalar_type(self@),
    {
        match self {
            ScalarExpr::Literal { data_type, .. } => data_type.duplicate(),
            ScalarExpr::Column { data_type, .. } => data_type.duplicate(),
            ScalarExpr::OuterColumn { data_type, .. } => data_type.duplicate(),
            ScalarExpr::Parameter { data_type, .. } => data_type.duplicate(),
            ScalarExpr::Unary { data_type, .. } => data_type.duplicate(),
            ScalarExpr::Binary { data_type, .. } => data_type.duplicate(),
            ScalarExpr::IsNull { .. } => DataType::Bool,
            ScalarExpr::FunctionCall { data_type, .. } => data_type.duplicate(),
            ScalarExpr::ScalarSubquery { data_type, .. } => data_type.duplicate(),
            ScalarExpr::Exists { .. } => DataType::Bool,
            ScalarExpr::InSubquery { .. } => DataType::Bool,
        }
    }
}

impl QueryPlan {
    /// The columns that the plan produces.
    pub fn schema(&self) -> (s: &Schema)
        ensures
            s@ == query_schema(self@),
        decreases self,
    {
        match self {
            QueryPlan::Scan { schema, .. } => schema,
            QueryPlan::Empty { schema } => schema,
            QueryPlan::Filter { input, .. } => input.schema(),
            QueryPlan::Project { schema, .. } => schema,
            QueryPlan::Sort { input, .. } => input.schema(),
            QueryPlan::Limit { input, .. } => input.schema(),
            QueryPlan::Aggregate { schema, .. } => schema,
            QueryPlan::Join { schema, .. } => schema,
            QueryPlan::SetOp { schema, .. } => schema,
            QueryPlan::Cte { schema, .. } => schema,
            QueryPlan::Values { schema, .. } => schema,
        }
    }
}

/// Whether a column of an enclosing query occurs in a list of expressions.
pub fn any_outer(list: &Vec<ScalarExpr>) -> (yes: bool)
    ensures
        yes == any_has_outer(scalars_view(list@)),
    decreases list, 1int,
{
    let mut i: usize = 0;
    while i < list.len()
        invariant
            i <= list.len(),
            forall|j: int| 0 <= j < i ==> !scalar_has_outer(#[trigger] scalars_view(list@)[j]),
        decreases list.len() - i,
    {
        if expr_contains_outer(&list[i]) {
            assert(scalar_has_outer(scalars_view(list@)[i as int]));
            return true;
        }
        i = i + 1;
    }
    false
}

/// Whether a column of an enclosing query occurs in a list of outputs.
pub fn any_output_outer(list: &Vec<(ScalarExpr, String)>) -> (yes: bool)
    ensures
        yes == any_output_has_outer(outputs_view(list@)),
    decreases list, 1int,
{
    let mut i: usize = 0;
    while i < list.len()
        invariant
            i <= list.len(),
            forall|j: int| 0 <= j < i ==> !scalar_has_outer((#[trigger] outputs_view(list@)[j]).0),
        decreases list.len() - i,
    {
        if expr_contains_outer(&list[i].0) {
            assert(scalar_has_outer(outputs_view(list@)[i as int].0));
            return true;
        }
        i = i + 1;
    }
    false
}

fn any_key_outer(list: &Vec<SortKey>) -> (yes: bool)
    ensures
        yes == any_key_has_outer(sort_keys_view(list@)),
    decreases list, 1int,
{
    let mut i: usize = 0;
    while i < list.len()
        invariant
            i <= list.len(),
            forall|j: int|
                0 <= j < i ==> !scalar_has_outer((#[trigger] sort_keys_view(list@)[j]).expr),
        decreases list.len() - i,
    {
        if expr_contains_outer(&list[i].expr) {
            assert(scalar_has_outer(sort_keys_view(list@)[i as int].expr));
            return true;
        }
        i = i + 1;
    }
    false
}

fn aggregate_outer(a: &LogicalAggregateExpr) -> (yes: bool)
    ensures
        yes == aggregate_has_outer(a@),
    decreases a, 0int,
{
    let in_arg = match &a.arg {
        Some(e) => expr_contains_outer(e),
        None => false,
    };
    let in_direct_arg = match &a.direct_arg {
        Some(e) => expr_contains_outer(e),
        None => false,
    };
    let in_order = match &a.order_by {
        Some(k) => expr_contains_outer(&k.expr),
        None => false,
    };
    in_arg || in_direct_arg || in_order
}

fn any_aggregate_outer(list: &Vec<LogicalAggregateExpr>) -> (yes: bool)
    ensures
        yes == any_aggregate_has_outer(aggregate_exprs_view(list@)),
    decreases list, 1int,
{
    let mut i: usize = 0;
    while i < list.len()
        invariant
            i <= list.len(),
            forall|j: int|
                0 <= j < i ==> !aggregate_has_outer(#[trigger] aggregate_exprs_view(list@)[j]),
        decreases list.len() - i,
    {
        if aggregate_outer(&list[i]) {
            assert(aggregate_has_outer(aggregate_exprs_view(list@)[i as int]));
            return true;
        }
        i = i + 1;
    }
    false
}

fn condition_outer(c: &LogicalJoinCondition) -> (yes: bool)
    ensures
        yes == condition_has_outer(c@),
    decreases c, 0int,
{
    match c {
        LogicalJoinCondition::On(e) => expr_contains_outer(e),
        _ => false,
    }
}

fn any_row_outer(list: &Vec<Vec<ScalarExpr>>) -> (yes: bool)
    ensures
        yes == any_row_has_outer(rows_view(list@)),
    decreases list, 2int,
{
    let mut i: usize = 0;
    while i < list.len()
        invariant
            i <= list.len(),
            forall|j: int| 0 <= j < i ==> !any_has_outer(#[trigger] rows_view(list@)[j]),
        decreases list.len() - i,
    {
        if any_outer(&list[i]) {
            assert(any_has_outer(rows_view(list@)[i as int]));
            return true;
        }
        i = i + 1;
    }
    false
}

/// Whether a column of an enclosing query occurs in an expression.
pub fn expr_contains_outer(expr: &ScalarExpr) -> (yes: bool)
    ensures
        yes == scalar_has_outer(expr@),
    decreases expr, 0int,
{
    match expr {
        ScalarExpr::Literal { .. } => false,
        ScalarExpr::Column { .. } => false,
        ScalarExpr::OuterColumn { .. } => true,
        ScalarExpr::Parameter { .. } => false,
        ScalarExpr::Unary { expr, .. } => expr_contains_outer(expr),
        ScalarExpr::Binary { left, right, .. } => expr_contains_outer(left) || expr_contains_outer(
            right,
        ),
        ScalarExpr::IsNull { expr, .. } => expr_contains_outer(expr),
        ScalarExpr::FunctionCall { args, .. } => any_outer(args),
        ScalarExpr::ScalarSubquery { subplan, .. } => query_contains_outer_column(subplan),
        ScalarExpr::Exists { subplan, .. } => query_contains_outer_column(subplan),
        ScalarExpr::InSubquery { expr, subplan, .. } => expr_contains_outer(expr)
            || query_contains_outer_column(subplan),
    }
}

/// Whether a column of an enclosing query occurs in a plan.
pub fn query_contains_outer_column(plan: &QueryPlan) -> (yes: bool)
    ensures
        yes == query_has_outer(plan@),
    decreases plan, 0int,
{
    match plan {
        QueryPlan::Scan { .. } => false,
        QueryPlan::Empty { .. } => false,
        QueryPlan::Filter { input, predicate } => expr_contains_outer(predicate)
            || query_contains_outer_column(input),
        QueryPlan::Project { input, exprs, .. } => any_output_outer(exprs)
            || query_contains_outer_column(input),
        QueryPlan::Sort { input, keys } => any_key_outer(keys) || query_contains_outer_column(
            input,
        ),
        QueryPlan::Limit { input, .. } => query_contains_outer_column(input),
        QueryPlan::Aggregate { input, group_by, aggregates, .. } => any_outer(group_by)
            || any_aggregate_outer(aggregates) || query_contains_outer_column(input),
        QueryPlan::Join { left, right, condition, .. } => condition_outer(condition)
            || query_contains_outer_column(left) || query_contains_outer_column(right),
        QueryPlan::SetOp { left, right, .. } => query_contains_outer_column(left)
            || query_contains_outer_column(right),
        QueryPlan::Cte { definition, body, .. } => query_contains_outer_column(definition)
            || query_contains_outer_column(body),
        QueryPlan::Values { rows, .. } => any_row_outer(rows),
    }
}

} // verus!
