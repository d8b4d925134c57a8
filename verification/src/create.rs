//! The create statement builder: a target, then a data clause, then
//! the optional trimmings.

use vstd::prelude::*;

use crate::cond::Op;
use crate::parsing::{
    spec_split, set_expression, unset_expression, DataClause, DurationSpec, OutputClause, Target,
};
use crate::states::{FilledData, FilledWhat, NoData, NoWhat};

verus! {

/// The clauses of a create statement, as plain data.
#[derive(Debug)]
pub struct CreateStatement {
    pub only: bool,
    pub what: Vec<Target>,
    pub data: Option<DataClause>,
    pub output: Option<OutputClause>,
    pub timeout: Option<DurationSpec>,
    pub parallel: bool,
}

/// A statement with nothing set yet.
pub open spec fn spec_create_empty(s: CreateStatement) -> bool {
    &&& s.only == false
    &&& s.what@.len() == 0
    &&& s.data is None
    &&& s.output is None
    &&& s.timeout is None
    &&& s.parallel == false
}

/// A create statement under construction; `W` and `D` tell whether
/// the target and the data clause have been set.
#[derive(Debug)]
pub struct CreateBuilder<W, D> {
    pub statement: CreateStatement,
    pub what_state: core::marker::PhantomData<W>,
    pub data_state: core::marker::PhantomData<D>,
}

impl CreateBuilder<NoWhat, NoData> {
    /// An empty create statement.
    pub fn new() -> (r: Self)
        ensures
            spec_create_empty(r.statement),
    {
        CreateBuilder {
            statement: CreateStatement {
                only: false,
                what: Vec::new(),
                data: None,
                output: None,
                timeout: None,
                parallel: false,
            },
            what_state: core::marker::PhantomData,
            data_state: core::marker::PhantomData,
        }
    }

    /// Chooses the target: the statement then creates it alone.
    pub fn what(self, what: Target) -> (r: CreateBuilder<FilledWhat, NoData>)
        ensures
            r.statement.what@.len() == 1,
            r.statement.what@[0] == what,
            r.statement == (CreateStatement { what: r.statement.what, ..self.statement }),
    {
        let CreateBuilder { mut statement, .. } = self;
        let mut targets: Vec<Target> = Vec::new();
        targets.push(what);
        statement.what = targets;
        CreateBuilder {
            statement,
            what_state: core::marker::PhantomData,
            data_state: core::marker::PhantomData,
        }
    }
}

impl CreateBuilder<FilledWhat, NoData> {
    /// Sets the data clause as given.
    pub fn data(self, data: DataClause) -> (r: CreateBuilder<FilledWhat, FilledData>)
        ensures
            r.statement.data matches Some(d) && d == data,
            r.statement == (CreateStatement { data: r.statement.data, ..self.statement }),
    {
        let CreateBuilder { mut statement, .. } = self;
        statement.data = Some(data);
        CreateBuilder {
            statement,
            what_state: core::marker::PhantomData,
            data_state: core::marker::PhantomData,
        }
    }

    /// Sets a `SET` data clause: one assignment per entry, each field
    /// path split at its dots.
    pub fn set(self, entries: Vec<(&str, Op, &str)>) -> (r: CreateBuilder<FilledWhat, FilledData>)
        ensures
            r.statement.data matches Some(d) && (d matches DataClause::SetExpr(fs) && fs@.len()
                == entries@.len() && (forall|k: int|
                0 <= k < fs@.len() ==> {
                    &&& (#[trigger] fs@[k]).field.0@.map_values(|p: String| p@) == spec_split(
                        entries@[k].0@,
                        '.',
                    )
                    &&& fs@[k].op == entries@[k].1
                    &&& fs@[k].value@ == entries@[k].2@
                })),
            r.statement == (CreateStatement { data: r.statement.data, ..self.statement }),
    {
        let CreateBuilder { mut statement, .. } = self;
        statement.data = Some(set_expression(entries));
        CreateBuilder {
            statement,
            what_state: core::marker::PhantomData,
            data_state: core::marker::PhantomData,
        }
    }

    /// Sets an `UNSET` data clause: each field path split at its dots.
    pub fn unset(self, fields: Vec<&str>) -> (r: CreateBuilder<FilledWhat, FilledData>)
        ensures
            r.statement.data matches Some(d) && (d matches DataClause::Unset(fs) && fs@.len()
                == fields@.len() && (forall|k: int|
                0 <= k < fs@.len() ==> (#[trigger] fs@[k]).0@.map_values(|p: String| p@)
                    == spec_split(fields@[k]@, '.'))),
            r.statement == (CreateStatement { data: r.statement.data, ..self.statement }),
    {
        let CreateBuilder { mut statement, .. } = self;
        statement.data = Some(unset_expression(fields));
        CreateBuilder {
            statement,
            what_state: core::marker::PhantomData,
            data_state: core::marker::PhantomData,
        }
    }
}

impl CreateBuilder<FilledWhat, FilledData> {
    /// Asks for a single record instead of a list.
    pub fn only(self) -> (r: Self)
        ensures
            r.statement.only == true,
            r.statement == (CreateStatement { only: true, ..self.statement }),
    {
        let CreateBuilder { mut statement, .. } = self;
        statement.only = true;
        CreateBuilder {
            statement,
            what_state: core::marker::PhantomData,
            data_state: core::marker::PhantomData,
        }
    }

    /// Sets the output clause.
    pub fn output(self, output: OutputClause) -> (r: Self)
        ensures
            r.statement.output matches Some(o) && o == output,
            r.statement == (CreateStatement { output: r.statement.output, ..self.statement }),
    {
        let CreateBuilder { mut statement, .. } = self;
        statement.output = Some(output);
        CreateBuilder {
            statement,
            what_state: core::marker::PhantomData,
            data_state: core::marker::PhantomData,
        }
    }

    /// Sets the timeout.
    pub fn timeout(self, timeout: DurationSpec) -> (r: Self)
        ensures
            r.statement.timeout == Some(timeout),
            r.statement == (CreateStatement { timeout: r.statement.timeout, ..self.statement }),
    {
        let CreateBuilder { mut statement, .. } = self;
        statement.timeout = Some(timeout);
        CreateBuilder {
            statement,
            what_state: core::marker::PhantomData,
            data_state: core::marker::PhantomData,
        }
    }

    /// Asks the statement to run in parallel.
    pub fn parallel(self) -> (r: Self)
        ensures
            r.statement.parallel == true,
            r.statement == (CreateStatement { parallel: true, ..self.statement }),
    {
        let CreateBuilder { mut statement, .. } = self;
        statement.parallel = true;
        CreateBuilder {
            statement,
            what_state: core::marker::PhantomData,
            data_state: core::marker::PhantomData,
        }
    }
}

} // verus!
