//! Binding of SQL statements to typed logical plans.
pub mod ast;
pub mod ast_alike;
pub mod ast_text;
pub mod binder;
pub mod catalog;
pub mod datatype;
pub mod debug;
pub mod dialect;
pub mod error;
pub mod list;
pub mod plan;
pub mod query;
pub mod render;
pub mod schema;
pub mod scope;
pub mod text;
pub mod value;
