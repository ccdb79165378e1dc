//! Binding of statements that define, change and remove objects.
pub mod alter;
pub mod altered;
pub mod copied;
pub mod copy;
pub mod derived;
pub mod index;
pub mod limits;
pub mod objects;
pub mod rules;
pub mod sequence;
pub mod shared;
pub mod table;
pub mod tables;
pub mod table_rule;
pub mod typedef;
pub mod types;
pub mod view;
