//! The error of an executed query.

use vstd::prelude::*;

verus! {

/// What executing a query can fail with: the client's own error,
/// raised while running it.
#[derive(Debug)]
pub enum QueryError {
    DB(surrealdb::Error),
}

} // verus!
