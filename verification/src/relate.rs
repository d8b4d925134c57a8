//! The relate statement builder: two targets and the relation table
//! between them, then a data clause and the optional trimmings.

use vstd::prelude::*;

use crate::cond::Op;
use crate::parsing::{
    spec_split, set_expression, DataClause, DurationSpec, OutputClause, Target,
};
use crate::states::{FilledData, FilledRelation, NoData, NoRelation};

verus! {

/// The clauses of a relate statement, as plain data. The relation is
/// unset until `relation` fills all three of its parts at once.
#[derive(Debug)]
pub struct RelateStatement {
    pub only: bool,
    pub kind: Option<String>,
    pub from: Option<Target>,
    pub with: Option<Target>,
    pub data: Option<DataClause>,
    pub output: Option<OutputClause>,
    pub timeout: Option<DurationSpec>,
    pub parallel: bool,
}

/// A statement with nothing set yet.
pub open spec fn spec_relate_empty(s: RelateStatement) -> bool {
    &&& s.only == false
    &&& s.kind is None
    &&& s.from is None
    &&& s.with is None
    &&& s.data is None
    &&& s.output is None
    &&& s.timeout is None
    &&& s.parallel == false
}

/// A relate statement under construction; `T` and `D` tell whether
/// the relation and the data clause have been set.
#[derive(Debug)]
pub struct RelateBuilder<T, D> {
    pub statement: RelateStatement,
    pub relate_state: core::marker::PhantomData<T>,
    pub data_state: core::marker::PhantomData<D>,
}

impl RelateBuilder<NoRelation, NoData> {
    /// An empty relate statement.
    pub fn new() -> (r: Self)
        ensures
            spec_relate_empty(r.statement),
    {
        RelateBuilder {
            statement: RelateStatement {
                only: false,
                kind: None,
                from: None,
                with: None,
                data: None,
                output: None,
                timeout: None,
                parallel: false,
            },
            relate_state: core::marker::PhantomData,
            data_state: core::marker::PhantomData,
        }
    }

    /// Chooses the relation: the record it runs from, the relation
    /// table, and the record it runs to.
    pub fn relation(self, from: Target, kind: &str, with: Target) -> (r: RelateBuilder<
        FilledRelation,
        NoData,
    >)
        ensures
            r.statement.from matches Some(f) && f == from,
            r.statement.kind matches Some(k) && k@ == kind@,
            r.statement.with matches Some(w) && w == with,
            r.statement == (RelateStatement {
                from: r.statement.from,
                kind: r.statement.kind,
                with: r.statement.with,
                ..self.statement
            }),
    {
        let RelateBuilder { mut statement, .. } = self;
        statement.from = Some(from);
        statement.kind = Some(kind.to_owned());
        statement.with = Some(with);
        RelateBuilder {
            statement,
            relate_state: core::marker::PhantomData,
            data_state: core::marker::PhantomData,
        }
    }
}

impl RelateBuilder<FilledRelation, NoData> {
    /// Sets a `SET` data clause: one assignment per entry, each field
    /// path split at its dots.
    pub fn set(self, entries: Vec<(&str, Op, &str)>) -> (r: RelateBuilder<
        FilledRelation,
        FilledData,
    >)
        ensures
            r.statement.data matches Some(d) && (d matches DataClause::SetExpr(fs) && fs@.len()
                == entries@.len() && (forall|k: int|
                0 <= k < fs@.len() ==> {
                    &&& (#[trigger] fs@[k]).field.0@.map_values(|p: String| p@) == spec_split(
                        entries@[k].0@,
                        '.',
                    )
                    &&& fs@[k].op == entries@[k].1
                    &&& fs@[k].value@ == entries@[k].2@
                })),
            r.statement == (RelateStatement { data: r.statement.data, ..self.statement }),
    {
        let RelateBuilder { mut statement, .. } = self;
        statement.data = Some(set_expression(entries));
        RelateBuilder {
            statement,
            relate_state: core::marker::PhantomData,
            data_state: core::marker::PhantomData,
        }
    }
}

impl<D> RelateBuilder<FilledRelation, D> {
    /// Asks for a single record instead of a list.
    pub fn only(self) -> (r: Self)
        ensures
            r.statement.only == true,
            r.statement == (RelateStatement { only: true, ..self.statement }),
    {
        let RelateBuilder { mut statement, .. } = self;
        statement.only = true;
        RelateBuilder {
            statement,
            relate_state: core::marker::PhantomData,
            data_state: core::marker::PhantomData,
        }
    }

    /// Sets the output clause.
    pub fn output(self, output: OutputClause) -> (r: Self)
        ensures
            r.statement.output matches Some(o) && o == output,
            r.statement == (RelateStatement { output: r.statement.output, ..self.statement }),
    {
        let RelateBuilder { mut statement, .. } = self;
        statement.output = Some(output);
        RelateBuilder {
            statement,
            relate_state: core::marker::PhantomData,
            data_state: core::marker::PhantomData,
        }
    }

    /// Sets the timeout.
    pub fn timeout(self, timeout: DurationSpec) -> (r: Self)
        ensures
            r.statement.timeout == Some(timeout),
            r.statement == (RelateStatement { timeout: r.statement.timeout, ..self.statement }),
    {
        let RelateBuilder { mut statement, .. } = self;
        statement.timeout = Some(timeout);
        RelateBuilder {
            statement,
            relate_state: core::marker::PhantomData,
            data_state: core::marker::PhantomData,
        }
    }

    /// Asks the statement to run in parallel.
    pub fn parallel(self) -> (r: Self)
        ensures
            r.statement.parallel == true,
            r.statement == (RelateStatement { parallel: true, ..self.statement }),
    {
        let RelateBuilder { mut statement, .. } = self;
        statement.parallel = true;
        RelateBuilder {
            statement,
            relate_state: core::marker::PhantomData,
            data_state: core::marker::PhantomData,
        }
    }
}

} // verus!
