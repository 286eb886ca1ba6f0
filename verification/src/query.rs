//! Statements.

pub mod insert;
