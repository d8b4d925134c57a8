//! Type states of the hand-rolled query builder: each pair marks
//! whether the table, the fields, or the filter chain has been set.

use vstd::prelude::*;

verus! {

/// No table chosen yet.
#[derive(Debug)]
pub struct NoTableQuery;

/// The chosen table name.
#[derive(Debug)]
pub struct TableQuery(pub String);

/// No fields chosen yet.
#[derive(Debug)]
pub struct NoFieldsQuery;

/// The chosen field names, in the order they were added.
#[derive(Debug)]
pub struct FieldsQuery(pub Vec<String>);

/// Not filtering: the query can take a limit or start a filter chain.
#[derive(Debug)]
pub struct NoFilterQuery;

/// Filtering: the query takes filter steps until one ends the chain.
#[derive(Debug)]
pub struct FilterQuery;

} // verus!
