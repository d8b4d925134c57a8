//! Builder utilities for assembling database queries.
//!
//! The crate models the pieces of a query — condition expressions, field
//! lists, statement clauses — as plain data, assembles them with verified
//! functions, and renders the hand-rolled query strings exactly as specified.

pub mod client;
pub mod cond;
pub mod create;
pub mod orm;
pub mod parsing;
pub mod query_builder;
pub mod relate;
pub mod select;
pub mod states;
pub mod strutil;
pub mod table_schema;
pub mod update;
