//! The update statement builder: a target, then a data clause, then
//! the optional condition and trimmings.

use vstd::prelude::*;

use crate::cond::{ExtraCond, Op};
use crate::parsing::{
    spec_split, set_expression, unset_expression, DataClause, DurationSpec, OutputClause, Target,
};
use crate::states::{FilledCond, FilledData, FilledWhat, NoCond, NoData, NoWhat};

verus! {

/// The clauses of an update statement, as plain data.
#[derive(Debug)]
pub struct UpdateStatement {
    pub only: bool,
    pub what: Vec<Target>,
    pub data: Option<DataClause>,
    pub cond: Option<ExtraCond>,
    pub output: Option<OutputClause>,
    pub timeout: Option<DurationSpec>,
    pub parallel: bool,
}

/// A statement with nothing set yet.
pub open spec fn spec_update_empty(s: UpdateStatement) -> bool {
    &&& s.only == false
    &&& s.what@.len() == 0
    &&& s.data is None
    &&& s.cond is None
    &&& s.output is None
    &&& s.timeout is None
    &&& s.parallel == false
}

/// An update statement under construction; `W`, `D` and `C` tell
/// whether the target, the data clause and the condition are set.
#[derive(Debug)]
pub struct UpdateBuilder<W, D, C> {
    pub statement: UpdateStatement,
    pub what_state: core::marker::PhantomData<W>,
    pub data_state: core::marker::PhantomData<D>,
    pub cond_state: core::marker::PhantomData<C>,
}

impl UpdateBuilder<NoWhat, NoData, NoCond> {
    /// An empty update statement.
    pub fn new() -> (r: Self)
        ensures
            spec_update_empty(r.statement),
    {
        UpdateBuilder {
            statement: UpdateStatement {
                only: false,
                what: Vec::new(),
                data: None,
                cond: None,
                output: None,
                timeout: None,
                parallel: false,
            },
            what_state: core::marker::PhantomData,
            data_state: core::marker::PhantomData,
            cond_state: core::marker::PhantomData,
        }
    }

    /// Chooses the target: the statement then updates it alone.
    pub fn what(self, what: Target) -> (r: UpdateBuilder<FilledWhat, NoData, NoCond>)
        ensures
            r.statement.what@.len() == 1,
            r.statement.what@[0] == what,
            r.statement == (UpdateStatement { what: r.statement.what, ..self.statement }),
    {
        let UpdateBuilder { mut statement, .. } = self;
        let mut targets: Vec<Target> = Vec::new();
        targets.push(what);
        statement.what = targets;
        UpdateBuilder {
            statement,
            what_state: core::marker::PhantomData,
            data_state: core::marker::PhantomData,
            cond_state: core::marker::PhantomData,
        }
    }
}

impl UpdateBuilder<FilledWhat, NoData, NoCond> {
    /// Sets the data clause as given.
    pub fn data(self, data: DataClause) -> (r: UpdateBuilder<FilledWhat, FilledData, NoCond>)
        ensures
            r.statement.data matches Some(d) && d == data,
            r.statement == (UpdateStatement { data: r.statement.data, ..self.statement }),
    {
        let UpdateBuilder { mut statement, .. } = self;
        statement.data = Some(data);
        UpdateBuilder {
            statement,
            what_state: core::marker::PhantomData,
            data_state: core::marker::PhantomData,
            cond_state: core::marker::PhantomData,
        }
    }

    /// Sets a `SET` data clause: one assignment per entry, each field
    /// path split at its dots.
    pub fn set(self, entries: Vec<(&str, Op, &str)>) -> (r: UpdateBuilder<
        FilledWhat,
        FilledData,
        NoCond,
    >)
        ensures
            r.statement.data matches Some(d) && (d matches DataClause::SetExpr(fs) && fs@.len()
                == entries@.len() && (forall|k: int|
                0 <= k < fs@.len() ==> {
                    &&& (#[trigger] fs@[k]).field.0@.map_values(|p: String| p@) == spec_split(
                        entries@[k].0@,
                        '.',
                    )
                    &&& fs@[k].op == entries@[k].1
                    &&& fs@[k].value@ == entries@[k].2@
                })),
            r.statement == (UpdateStatement { data: r.statement.data, ..self.statement }),
    {
        let UpdateBuilder { mut statement, .. } = self;
        statement.data = Some(set_expression(entries));
        UpdateBuilder {
            statement,
            what_state: core::marker::PhantomData,
            data_state: core::marker::PhantomData,
            cond_state: core::marker::PhantomData,
        }
    }

    /// Sets an `UNSET` data clause: each field path split at its dots.
    pub fn unset(self, fields: Vec<&str>) -> (r: UpdateBuilder<FilledWhat, FilledData, NoCond>)
        ensures
            r.statement.data matches Some(d) && (d matches DataClause::Unset(fs) && fs@.len()
                == fields@.len() && (forall|k: int|
                0 <= k < fs@.len() ==> (#[trigger] fs@[k]).0@.map_values(|p: String| p@)
                    == spec_split(fields@[k]@, '.'))),
            r.statement == (UpdateStatement { data: r.statement.data, ..self.statement }),
    {
        let UpdateBuilder { mut statement, .. } = self;
        statement.data = Some(unset_expression(fields));
        UpdateBuilder {
            statement,
            what_state: core::marker::PhantomData,
            data_state: core::marker::PhantomData,
            cond_state: core::marker::PhantomData,
        }
    }
}

impl UpdateBuilder<FilledWhat, FilledData, NoCond> {
    /// Sets the `WHERE` condition.
    pub fn condition(self, cond: ExtraCond) -> (r: UpdateBuilder<
        FilledWhat,
        FilledData,
        FilledCond,
    >)
        ensures
            r.statement.cond matches Some(c) && c == cond,
            r.statement == (UpdateStatement { cond: r.statement.cond, ..self.statement }),
    {
        let UpdateBuilder { mut statement, .. } = self;
        statement.cond = Some(cond);
        UpdateBuilder {
            statement,
            what_state: core::marker::PhantomData,
            data_state: core::marker::PhantomData,
            cond_state: core::marker::PhantomData,
        }
    }
}

impl<C> UpdateBuilder<FilledWhat, FilledData, C> {
    /// Asks for a single record instead of a list.
    pub fn only(self) -> (r: Self)
        ensures
            r.statement.only == true,
            r.statement == (UpdateStatement { only: true, ..self.statement }),
    {
        let UpdateBuilder { mut statement, .. } = self;
        statement.only = true;
        UpdateBuilder {
            statement,
            what_state: core::marker::PhantomData,
            data_state: core::marker::PhantomData,
            cond_state: core::marker::PhantomData,
        }
    }

    /// Sets the output clause.
    pub fn output(self, output: OutputClause) -> (r: Self)
        ensures
            r.statement.output matches Some(o) && o == output,
            r.statement == (UpdateStatement { output: r.statement.output, ..self.statement }),
    {
        let UpdateBuilder { mut statement, .. } = self;
        statement.output = Some(output);
        UpdateBuilder {
            statement,
            what_state: core::marker::PhantomData,
            data_state: core::marker::PhantomData,
            cond_state: core::marker::PhantomData,
        }
    }

    /// Sets the timeout.
    pub fn timeout(self, timeout: DurationSpec) -> (r: Self)
        ensures
            r.statement.timeout == Some(timeout),
            r.statement == (UpdateStatement { timeout: r.statement.timeout, ..self.statement }),
    {
        let UpdateBuilder { mut statement, .. } = self;
        statement.timeout = Some(timeout);
        UpdateBuilder {
            statement,
            what_state: core::marker::PhantomData,
            data_state: core::marker::PhantomData,
            cond_state: core::marker::PhantomData,
        }
    }

    /// Asks the statement to run in parallel.
    pub fn parallel(self) -> (r: Self)
        ensures
            r.statement.parallel == true,
            r.statement == (UpdateStatement { parallel: true, ..self.statement }),
    {
        let UpdateBuilder { mut statement, .. } = self;
        statement.parallel = true;
        UpdateBuilder {
            statement,
            what_state: core::marker::PhantomData,
            data_state: core::marker::PhantomData,
            cond_state: core::marker::PhantomData,
        }
    }
}

} // verus!
