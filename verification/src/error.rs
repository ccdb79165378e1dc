//! Errors of binding.
use crate::query::{QueryPlan, QueryPlanView, ScalarExpr, ScalarExprView};
use crate::{datatype, plan, query, schema};
use vstd::prelude::*;

verus! {

/// Why a statement cannot be bound.
#[derive(Debug, PartialEq)]
pub enum PlanError {
    TableNotFound(String),
    ColumnNotFound(String),
    DuplicateColumn(String),
    DuplicateTable(String),
    IndexNotFound(String),
    Ambiguous(String),
    TypeMismatch(String),
    NotSupported(&'static str),
}

/// The model of a [`PlanError`].
pub enum PlanErrorView {
    TableNotFound(Seq<char>),
    ColumnNotFound(Seq<char>),
    DuplicateColumn(Seq<char>),
    DuplicateTable(Seq<char>),
    IndexNotFound(Seq<char>),
    Ambiguous(Seq<char>),
    TypeMismatch(Seq<char>),
    NotSupported(Seq<char>),
}

impl PlanError {
    pub open spec fn view(&self) -> PlanErrorView {
        match self {
            PlanError::TableNotFound(x0) => PlanErrorView::TableNotFound(x0@),
            PlanError::ColumnNotFound(x0) => PlanErrorView::ColumnNotFound(x0@),
            PlanError::DuplicateColumn(x0) => PlanErrorView::DuplicateColumn(x0@),
            PlanError::DuplicateTable(x0) => PlanErrorView::DuplicateTable(x0@),
            PlanError::IndexNotFound(x0) => PlanErrorView::IndexNotFound(x0@),
            PlanError::Ambiguous(x0) => PlanErrorView::Ambiguous(x0@),
            PlanError::TypeMismatch(x0) => PlanErrorView::TypeMismatch(x0@),
            PlanError::NotSupported(x0) => PlanErrorView::NotSupported(x0@),
        }
    }

}

/// The outcome of binding, with its value and its error as models.
pub open spec fn scalar_outcome(r: Result<ScalarExpr, PlanError>) -> Result<
    ScalarExprView,
    PlanErrorView,
> {
    match r {
        Ok(x) => Ok(x@),
        Err(e) => Err(e@),
    }
}

pub open spec fn scalars_outcome(r: Result<Vec<ScalarExpr>, PlanError>) -> Result<
    Seq<ScalarExprView>,
    PlanErrorView,
> {
    match r {
        Ok(x) => Ok(query::scalars_view(x@)),
        Err(e) => Err(e@),
    }
}

pub open spec fn query_outcome(r: Result<QueryPlan, PlanError>) -> Result<
    QueryPlanView,
    PlanErrorView,
> {
    match r {
        Ok(x) => Ok(x@),
        Err(e) => Err(e@),
    }
}

pub open spec fn outputs_outcome(r: Result<Vec<(ScalarExpr, String)>, PlanError>) -> Result<
    Seq<(ScalarExprView, Seq<char>)>,
    PlanErrorView,
> {
    match r {
        Ok(x) => Ok(query::outputs_view(x@)),
        Err(e) => Err(e@),
    }
}

pub open spec fn plan_outcome(r: Result<plan::LogicalPlan, PlanError>) -> Result<
    plan::LogicalPlanView,
    PlanErrorView,
> {
    match r {
        Ok(x) => Ok(x@),
        Err(e) => Err(e@),
    }
}

pub open spec fn type_outcome(r: Result<datatype::DataType, PlanError>) -> Result<
    datatype::DataTypeView,
    PlanErrorView,
> {
    match r {
        Ok(x) => Ok(x@),
        Err(e) => Err(e@),
    }
}

pub open spec fn schema_outcome(r: Result<schema::Schema, PlanError>) -> Result<
    schema::SchemaView,
    PlanErrorView,
> {
    match r {
        Ok(x) => Ok(x@),
        Err(e) => Err(e@),
    }
}

pub open spec fn list_outcome<T>(r: Result<Vec<T>, PlanError>) -> Result<Seq<T>, PlanErrorView> {
    match r {
        Ok(x) => Ok(x@),
        Err(e) => Err(e@),
    }
}

/// The outcome of binding to a value that is its own model.
pub open spec fn outcome<T>(r: Result<T, PlanError>) -> Result<T, PlanErrorView> {
    match r {
        Ok(x) => Ok(x),
        Err(e) => Err(e@),
    }
}

/// A schema of the given columns, or a mismatch that begins with `label`.
pub open spec fn labelled_schema(label: Seq<char>, fields: Seq<schema::FieldView>) -> Result<
    schema::SchemaView,
    PlanErrorView,
> {
    match schema::schema_of(fields) {
        Ok(s) => Ok(s),
        Err(e) => Err(PlanErrorView::TypeMismatch(label + e)),
    }
}

/// A schema of the given columns; a repeated name is a mismatch whose text
/// begins with `label`.
pub fn schema_or_mismatch(label: &str, fields: Vec<schema::Field>) -> (made: Result<
    schema::Schema,
    PlanError,
>)
    ensures
        schema_outcome(made) == labelled_schema(label@, schema::fields_view(fields@)),
{
    match schema::Schema::new(fields) {
        Ok(s) => Ok(s),
        Err(e) => Err(PlanError::TypeMismatch(crate::text::cat2(label, e.as_str()))),
    }
}

} // verus!
