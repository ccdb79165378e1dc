//! The full SQL dialect: builtin functions, casts, constraints and object
//! definitions.
pub mod aggregate;
pub mod aggregate_call;
pub mod answers;
pub mod builtin;
pub mod calendar;
pub mod changes;
pub mod clock;
pub mod coerce;
pub mod coercions;
pub mod ddl;
pub mod dml;
pub mod expr;
pub mod grouping;
pub mod json;
pub mod literal;
pub mod meaning;
pub mod merging;
pub mod moments;
pub mod number;
pub mod operation;
pub mod operators;
pub mod projected;
pub mod reading;
pub mod soundness;
pub mod typename;
pub mod values;
