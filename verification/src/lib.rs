//! Suppression comments of the JavaScript linter, and the formatting of
//! `export * from` clauses, over plain models of the syntax tree.

pub mod export_from_clause;
pub mod rule_error;
pub mod suppression;
pub mod suppression_edit;
pub mod tokens;
