//! Type states shared by the statement builders: each marks whether a
//! required clause has been filled in yet.

use vstd::prelude::*;

verus! {

/// No target chosen yet.
#[derive(Debug, Clone, Copy)]
pub struct NoWhat;

/// The target is chosen.
#[derive(Debug, Clone, Copy)]
pub struct FilledWhat;

/// No field selected yet.
#[derive(Debug, Clone, Copy)]
pub struct NoFields;

/// At least one field is selected.
#[derive(Debug, Clone, Copy)]
pub struct FilledFields;

/// No condition set yet.
#[derive(Debug, Clone, Copy)]
pub struct NoCond;

/// The condition is set.
#[derive(Debug, Clone, Copy)]
pub struct FilledCond;

/// No data clause set yet.
#[derive(Debug, Clone, Copy)]
pub struct NoData;

/// The data clause is set.
#[derive(Debug, Clone, Copy)]
pub struct FilledData;

/// No relation chosen yet.
#[derive(Debug, Clone, Copy)]
pub struct NoRelation;

/// The relation is chosen.
#[derive(Debug, Clone, Copy)]
pub struct FilledRelation;

} // verus!
