//! The slimmer table/field query builder: a type-state `Query` that
//! collects a table name and a field list, for the row-mapping layer.

use vstd::prelude::*;

verus! {

/// No table chosen yet.
#[derive(Debug)]
pub struct NoTableQuery;

/// The chosen table name.
#[derive(Debug)]
pub struct TableQuery(pub String);

/// No fields chosen yet.
#[derive(Debug)]
pub struct NoFieldsQuery;

/// The chosen field names, in the order they were added.
#[derive(Debug)]
pub struct FieldsQuery(pub Vec<String>);

/// A query under construction: `T` tells whether the table is set,
/// `F` whether any field is.
#[derive(Debug)]
pub struct Query<T, F> {
    pub table: T,
    pub fields: F,
}

impl Query<NoTableQuery, NoFieldsQuery> {
    /// An empty query: no table, no fields.
    pub fn new() -> (r: Self)
        ensures
            r.table == NoTableQuery,
            r.fields == NoFieldsQuery,
    {
        Self { table: NoTableQuery, fields: NoFieldsQuery }
    }
}

impl<F> Query<NoTableQuery, F> {
    /// Chooses the table; the fields carry over.
    pub fn from(self, table: &str) -> (r: Query<TableQuery, F>)
        ensures
            r.table.0@ == table@,
            r.fields == self.fields,
    {
        let Self { fields, .. } = self;
        Query { table: TableQuery(table.to_owned()), fields }
    }
}

impl<T> Query<T, NoFieldsQuery> {
    /// Chooses the first field; the table carries over.
    pub fn field(self, field: &str) -> (r: Query<T, FieldsQuery>)
        ensures
            r.table == self.table,
            r.fields.0@.len() == 1,
            r.fields.0@[0]@ == field@,
    {
        let Self { table, .. } = self;
        let mut fields: Vec<String> = Vec::new();
        fields.push(field.to_owned());
        Query { table, fields: FieldsQuery(fields) }
    }
}

impl<T> Query<T, FieldsQuery> {
    /// Adds one more field at the end; the table carries over.
    pub fn field(self, field: &str) -> (r: Self)
        ensures
            r.table == self.table,
            r.fields.0@.len() == self.fields.0@.len() + 1,
            r.fields.0@.subrange(0, self.fields.0@.len() as int) == self.fields.0@,
            r.fields.0@.last()@ == field@,
    {
        let Self { table, mut fields } = self;
        fields.0.push(field.to_owned());
        proof {
            assert(fields.0@.subrange(0, fields.0@.len() - 1) =~= self.fields.0@);
        }
        Query { table, fields }
    }
}

} // verus!
