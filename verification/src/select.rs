//! The select statement builder: collects the clauses of a `SELECT`
//! one call at a time, with the type states guarding that a target
//! and a field come before a condition.

use vstd::prelude::*;

use crate::cond::ExtraCond;
use crate::parsing::{
    DurationSpec, ExtraIdiom, ExtraOrder, FieldSel, Target, Timestamp, WithClause,
};
use crate::states::{FilledCond, FilledFields, FilledWhat, NoCond, NoFields, NoWhat};

verus! {

/// The clauses of a select statement, as plain data.
#[derive(Debug)]
pub struct SelectStatement {
    pub expr: Vec<FieldSel>,
    pub omit: Option<Vec<ExtraIdiom>>,
    pub only: bool,
    pub what: Vec<Target>,
    pub with_index: Option<WithClause>,
    pub cond: Option<ExtraCond>,
    pub split: Option<Vec<ExtraIdiom>>,
    pub group: Option<Vec<ExtraIdiom>>,
    pub order: Option<Vec<ExtraOrder>>,
    pub limit: Option<i64>,
    pub start: Option<i64>,
    pub fetch: Option<Vec<ExtraIdiom>>,
    pub version: Option<Timestamp>,
    pub timeout: Option<DurationSpec>,
    pub parallel: bool,
    pub explain: Option<bool>,
    pub tempfiles: bool,
}

/// A statement with nothing set yet.
pub open spec fn spec_select_empty(s: SelectStatement) -> bool {
    &&& s.expr@.len() == 0
    &&& s.omit is None
    &&& s.only == false
    &&& s.what@.len() == 0
    &&& s.with_index is None
    &&& s.cond is None
    &&& s.split is None
    &&& s.group is None
    &&& s.order is None
    &&& s.limit is None
    &&& s.start is None
    &&& s.fetch is None
    &&& s.version is None
    &&& s.timeout is None
    &&& s.parallel == false
    &&& s.explain is None
    &&& s.tempfiles == false
}

/// The entries of an optional clause list; an unset clause has none.
pub open spec fn opt_entries<A>(o: Option<Vec<A>>) -> Seq<A> {
    match o {
        Option::None => Seq::empty(),
        Option::Some(v) => v@,
    }
}

fn push_opt<A>(o: Option<Vec<A>>, x: A) -> (r: Option<Vec<A>>)
    ensures
        r matches Some(v) && v@ == opt_entries(o).push(x),
{
    match o {
        Option::None => {
            let mut v: Vec<A> = Vec::new();
            v.push(x);
            proof {
                assert(v@ =~= opt_entries::<A>(Option::None).push(x));
            }
            Some(v)
        },
        Option::Some(mut v) => {
            v.push(x);
            Some(v)
        },
    }
}

/// A select statement under construction; `W`, `F` and `C` tell
/// whether the target, a field, and the condition have been set.
#[derive(Debug)]
pub struct SelectBuilder<W, F, C> {
    pub statement: SelectStatement,
    pub what_state: core::marker::PhantomData<W>,
    pub fields_state: core::marker::PhantomData<F>,
    pub cond_state: core::marker::PhantomData<C>,
}

impl SelectBuilder<NoWhat, NoFields, NoCond> {
    /// An empty select statement.
    pub fn new() -> (r: Self)
        ensures
            spec_select_empty(r.statement),
    {
        SelectBuilder {
            statement: SelectStatement {
                expr: Vec::new(),
                omit: None,
                only: false,
                what: Vec::new(),
                with_index: None,
                cond: None,
                split: None,
                group: None,
                order: None,
                limit: None,
                start: None,
                fetch: None,
                version: None,
                timeout: None,
                parallel: false,
                explain: None,
                tempfiles: false,
            },
            what_state: core::marker::PhantomData,
            fields_state: core::marker::PhantomData,
            cond_state: core::marker::PhantomData,
        }
    }

    /// Chooses the target: the statement then selects from it alone.
    pub fn what(self, what: Target) -> (r: SelectBuilder<FilledWhat, NoFields, NoCond>)
        ensures
            r.statement.what@.len() == 1,
            r.statement.what@[0] == what,
            r.statement == (SelectStatement { what: r.statement.what, ..self.statement }),
    {
        let SelectBuilder { mut statement, .. } = self;
        let mut targets: Vec<Target> = Vec::new();
        targets.push(what);
        statement.what = targets;
        SelectBuilder {
            statement,
            what_state: core::marker::PhantomData,
            fields_state: core::marker::PhantomData,
            cond_state: core::marker::PhantomData,
        }
    }
}

impl<F, C> SelectBuilder<FilledWhat, F, C> {
    /// Adds one selected field at the end of the field list.
    pub fn field(self, field: FieldSel) -> (r: SelectBuilder<FilledWhat, FilledFields, C>)
        ensures
            r.statement.expr@ == self.statement.expr@.push(field),
            r.statement == (SelectStatement { expr: r.statement.expr, ..self.statement }),
    {
        let SelectBuilder { mut statement, .. } = self;
        statement.expr.push(field);
        SelectBuilder {
            statement,
            what_state: core::marker::PhantomData,
            fields_state: core::marker::PhantomData,
            cond_state: core::marker::PhantomData,
        }
    }
}

impl SelectBuilder<FilledWhat, FilledFields, NoCond> {
    /// Sets the `WHERE` condition.
    pub fn condition(self, cond: ExtraCond) -> (r: SelectBuilder<
        FilledWhat,
        FilledFields,
        FilledCond,
    >)
        ensures
            r.statement.cond matches Some(c) && c == cond,
            r.statement == (SelectStatement { cond: r.statement.cond, ..self.statement }),
    {
        let SelectBuilder { mut statement, .. } = self;
        statement.cond = Some(cond);
        SelectBuilder {
            statement,
            what_state: core::marker::PhantomData,
            fields_state: core::marker::PhantomData,
            cond_state: core::marker::PhantomData,
        }
    }
}

impl<C> SelectBuilder<FilledWhat, FilledFields, C> {
    /// Adds one omitted field path.
    pub fn omit(self, omit: ExtraIdiom) -> (r: Self)
        ensures
            r.statement.omit matches Some(v) && v@ == opt_entries(self.statement.omit).push(omit),
            r.statement == (SelectStatement { omit: r.statement.omit, ..self.statement }),
    {
        let SelectBuilder { mut statement, .. } = self;
        statement.omit = push_opt(statement.omit, omit);
        SelectBuilder {
            statement,
            what_state: core::marker::PhantomData,
            fields_state: core::marker::PhantomData,
            cond_state: core::marker::PhantomData,
        }
    }

    /// Sets the index hint.
    pub fn with(self, with: WithClause) -> (r: Self)
        ensures
            r.statement.with_index matches Some(w) && w == with,
            r.statement == (SelectStatement {
                with_index: r.statement.with_index,
                ..self.statement
            }),
    {
        let SelectBuilder { mut statement, .. } = self;
        statement.with_index = Some(with);
        SelectBuilder {
            statement,
            what_state: core::marker::PhantomData,
            fields_state: core::marker::PhantomData,
            cond_state: core::marker::PhantomData,
        }
    }

    /// Adds one split field path.
    pub fn split(self, split: ExtraIdiom) -> (r: Self)
        ensures
            r.statement.split matches Some(v) && v@ == opt_entries(self.statement.split).push(
                split,
            ),
            r.statement == (SelectStatement { split: r.statement.split, ..self.statement }),
    {
        let SelectBuilder { mut statement, .. } = self;
        statement.split = push_opt(statement.split, split);
        SelectBuilder {
            statement,
            what_state: core::marker::PhantomData,
            fields_state: core::marker::PhantomData,
            cond_state: core::marker::PhantomData,
        }
    }

    /// Adds one grouping field path.
    pub fn group(self, group: ExtraIdiom) -> (r: Self)
        ensures
            r.statement.group matches Some(v) && v@ == opt_entries(self.statement.group).push(
                group,
            ),
            r.statement == (SelectStatement { group: r.statement.group, ..self.statement }),
    {
        let SelectBuilder { mut statement, .. } = self;
        statement.group = push_opt(statement.group, group);
        SelectBuilder {
            statement,
            what_state: core::marker::PhantomData,
            fields_state: core::marker::PhantomData,
            cond_state: core::marker::PhantomData,
        }
    }

    /// Adds one ordering entry.
    pub fn order(self, order: ExtraOrder) -> (r: Self)
        ensures
            r.statement.order matches Some(v) && v@ == opt_entries(self.statement.order).push(
                order,
            ),
            r.statement == (SelectStatement { order: r.statement.order, ..self.statement }),
    {
        let SelectBuilder { mut statement, .. } = self;
        statement.order = push_opt(statement.order, order);
        SelectBuilder {
            statement,
            what_state: core::marker::PhantomData,
            fields_state: core::marker::PhantomData,
            cond_state: core::marker::PhantomData,
        }
    }

    /// Sets the row limit.
    pub fn limit(self, limit: i64) -> (r: Self)
        ensures
            r.statement.limit == Some(limit),
            r.statement == (SelectStatement { limit: r.statement.limit, ..self.statement }),
    {
        let SelectBuilder { mut statement, .. } = self;
        statement.limit = Some(limit);
        SelectBuilder {
            statement,
            what_state: core::marker::PhantomData,
            fields_state: core::marker::PhantomData,
            cond_state: core::marker::PhantomData,
        }
    }

    /// Sets the first-row offset.
    pub fn start(self, start: i64) -> (r: Self)
        ensures
            r.statement.start == Some(start),
            r.statement == (SelectStatement { start: r.statement.start, ..self.statement }),
    {
        let SelectBuilder { mut statement, .. } = self;
        statement.start = Some(start);
        SelectBuilder {
            statement,
            what_state: core::marker::PhantomData,
            fields_state: core::marker::PhantomData,
            cond_state: core::marker::PhantomData,
        }
    }

    /// Adds one fetched field path.
    pub fn fetch(self, fetch: ExtraIdiom) -> (r: Self)
        ensures
            r.statement.fetch matches Some(v) && v@ == opt_entries(self.statement.fetch).push(
                fetch,
            ),
            r.statement == (SelectStatement { fetch: r.statement.fetch, ..self.statement }),
    {
        let SelectBuilder { mut statement, .. } = self;
        statement.fetch = push_opt(statement.fetch, fetch);
        SelectBuilder {
            statement,
            what_state: core::marker::PhantomData,
            fields_state: core::marker::PhantomData,
            cond_state: core::marker::PhantomData,
        }
    }

    /// Sets the version timestamp the rows are read at.
    pub fn version(self, version: Timestamp) -> (r: Self)
        ensures
            r.statement.version == Some(version),
            r.statement == (SelectStatement { version: r.statement.version, ..self.statement }),
    {
        let SelectBuilder { mut statement, .. } = self;
        statement.version = Some(version);
        SelectBuilder {
            statement,
            what_state: core::marker::PhantomData,
            fields_state: core::marker::PhantomData,
            cond_state: core::marker::PhantomData,
        }
    }

    /// Sets the timeout.
    pub fn timeout(self, timeout: DurationSpec) -> (r: Self)
        ensures
            r.statement.timeout == Some(timeout),
            r.statement == (SelectStatement { timeout: r.statement.timeout, ..self.statement }),
    {
        let SelectBuilder { mut statement, .. } = self;
        statement.timeout = Some(timeout);
        SelectBuilder {
            statement,
            what_state: core::marker::PhantomData,
            fields_state: core::marker::PhantomData,
            cond_state: core::marker::PhantomData,
        }
    }

    /// Asks for a single record instead of a list.
    pub fn only(self) -> (r: Self)
        ensures
            r.statement.only == true,
            r.statement == (SelectStatement { only: true, ..self.statement }),
    {
        let SelectBuilder { mut statement, .. } = self;
        statement.only = true;
        SelectBuilder {
            statement,
            what_state: core::marker::PhantomData,
            fields_state: core::marker::PhantomData,
            cond_state: core::marker::PhantomData,
        }
    }

    /// Asks the statement to run in parallel.
    pub fn parallel(self) -> (r: Self)
        ensures
            r.statement.parallel == true,
            r.statement == (SelectStatement { parallel: true, ..self.statement }),
    {
        let SelectBuilder { mut statement, .. } = self;
        statement.parallel = true;
        SelectBuilder {
            statement,
            what_state: core::marker::PhantomData,
            fields_state: core::marker::PhantomData,
            cond_state: core::marker::PhantomData,
        }
    }

    /// Asks for the query plan.
    pub fn explain(self) -> (r: Self)
        ensures
            r.statement.explain == Some(true),
            r.statement == (SelectStatement { explain: Some(true), ..self.statement }),
    {
        let SelectBuilder { mut statement, .. } = self;
        statement.explain = Some(true);
        SelectBuilder {
            statement,
            what_state: core::marker::PhantomData,
            fields_state: core::marker::PhantomData,
            cond_state: core::marker::PhantomData,
        }
    }

    /// Lets the statement spill to temporary files.
    pub fn tempfile(self) -> (r: Self)
        ensures
            r.statement.tempfiles == true,
            r.statement == (SelectStatement { tempfiles: true, ..self.statement }),
    {
        let SelectBuilder { mut statement, .. } = self;
        statement.tempfiles = true;
        SelectBuilder {
            statement,
            what_state: core::marker::PhantomData,
            fields_state: core::marker::PhantomData,
            cond_state: core::marker::PhantomData,
        }
    }
}

} // verus!
