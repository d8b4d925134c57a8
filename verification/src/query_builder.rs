//! The hand-rolled query builder: a type-state `Query` that collects a
//! table, fields, filters and a limit, and renders the final query
//! string exactly as specified, with every value bound by parameter.

pub mod err;
pub mod filter;
pub mod states;

use vstd::prelude::*;
use vstd::string::StringExecFns;

use crate::query_builder::filter::{Filter, LogicalOperator, RelationalOperator};
use crate::query_builder::filter::spec_filter_chars;
use crate::query_builder::states::{
    FieldsQuery, FilterQuery, NoFieldsQuery, NoFilterQuery, NoTableQuery, TableQuery,
};
use crate::strutil::{dec_chars, join_chars, join_strings, u32_to_dec};

verus! {

/// A query under construction. `T` tells whether the table is set,
/// `F` whether fields are set, and `FT` whether a filter chain is
/// open; only a finished query renders to a string.
#[derive(Debug)]
pub struct Query<T, F, FT> {
    pub table: T,
    pub id: Option<String>,
    pub fields: F,
    pub limit: Option<u32>,
    pub filters: Vec<Filter>,
    pub marker: core::marker::PhantomData<FT>,
}

/// The outcome of one filter step: `Done` when the step's connective
/// was `End` and the chain is closed, `More` when it stays open.
#[derive(Debug)]
pub enum FilterStep<T, F> {
    Done(Query<T, F, NoFilterQuery>),
    More(Query<T, F, FilterQuery>),
}

/// The text after `WHERE`: each filter rendered after one space, in
/// the order the chain collected them.
pub open spec fn spec_filters_tail(fs: Seq<Filter>) -> Seq<char>
    decreases fs.len(),
{
    if fs.len() == 0 {
        Seq::empty()
    } else {
        " "@ + spec_filter_chars(fs[0]) + spec_filters_tail(fs.drop_first())
    }
}

proof fn lemma_filters_tail_push(fs: Seq<Filter>, f: Filter)
    ensures
        spec_filters_tail(fs.push(f)) == spec_filters_tail(fs) + " "@ + spec_filter_chars(f),
    decreases fs.len(),
{
    if fs.len() == 0 {
        assert(fs.push(f).drop_first() =~= Seq::<Filter>::empty());
        assert(fs.push(f)[0] == f);
        assert(spec_filters_tail(Seq::<Filter>::empty()) == Seq::<char>::empty());
        assert(spec_filters_tail(fs.push(f)) =~= spec_filters_tail(fs) + " "@
            + spec_filter_chars(f));
    } else {
        assert(fs.push(f).drop_first() =~= fs.drop_first().push(f));
        lemma_filters_tail_push(fs.drop_first(), f);
        assert(spec_filters_tail(fs.push(f)) =~= spec_filters_tail(fs) + " "@
            + spec_filter_chars(f));
    }
}

impl Query<NoTableQuery, NoFieldsQuery, NoFilterQuery> {
    /// An empty query: no table, no fields, no limit, no filters.
    pub fn new() -> (r: Self)
        ensures
            r.id is None,
            r.limit is None,
            r.filters@ =~= Seq::<Filter>::empty(),
    {
        Self {
            table: NoTableQuery,
            id: None,
            fields: NoFieldsQuery,
            limit: None,
            filters: Vec::new(),
            marker: core::marker::PhantomData,
        }
    }
}

impl Default for Query<NoTableQuery, NoFieldsQuery, NoFilterQuery> {
    /// The empty query, exactly as `new` builds it.
    fn default() -> (r: Self)
        ensures
            r.id is None,
            r.limit is None,
            r.filters@ =~= Seq::<Filter>::empty(),
    {
        Self::new()
    }
}

impl<F> Query<NoTableQuery, F, NoFilterQuery> {
    /// Chooses the table, and the record id when one is given;
    /// everything else carries over.
    pub fn from(self, table: &str, id: Option<String>) -> (r: Query<TableQuery, F, NoFilterQuery>)
        ensures
            r.table.0@ == table@,
            r.id == id,
            r.fields == self.fields,
            r.limit == self.limit,
            r.filters == self.filters,
    {
        let Self { fields, limit, filters, .. } = self;
        Query {
            table: TableQuery(table.to_owned()),
            id,
            fields,
            limit,
            filters,
            marker: core::marker::PhantomData,
        }
    }
}

impl<T, F> Query<T, F, NoFilterQuery> {
    /// Sets the row limit; everything else carries over.
    pub fn limit(self, limit: u32) -> (r: Self)
        ensures
            r.table == self.table,
            r.id == self.id,
            r.fields == self.fields,
            r.limit == Some(limit),
            r.filters == self.filters,
    {
        let Self { table, id, fields, filters, .. } = self;
        Query { table, id, fields, limit: Some(limit), filters, marker: core::marker::PhantomData }
    }

    /// Opens the filter chain; everything carries over.
    pub fn where_filter(self) -> (r: Query<T, F, FilterQuery>)
        ensures
            r.table == self.table,
            r.id == self.id,
            r.fields == self.fields,
            r.limit == self.limit,
            r.filters == self.filters,
    {
        let Self { table, id, fields, limit, filters, .. } = self;
        Query { table, id, fields, limit, filters, marker: core::marker::PhantomData }
    }
}

impl<T> Query<T, NoFieldsQuery, NoFilterQuery> {
    /// Chooses the first field; everything else carries over.
    pub fn field(self, field: &str) -> (r: Query<T, FieldsQuery, NoFilterQuery>)
        ensures
            r.table == self.table,
            r.id == self.id,
            r.fields.0@.len() == 1,
            r.fields.0@[0]@ == field@,
            r.limit == self.limit,
            r.filters == self.filters,
    {
        let Self { table, id, limit, filters, .. } = self;
        let mut fields: Vec<String> = Vec::new();
        fields.push(field.to_owned());
        Query {
            table,
            id,
            fields: FieldsQuery(fields),
            limit,
            filters,
            marker: core::marker::PhantomData,
        }
    }
}

impl<T> Query<T, FieldsQuery, NoFilterQuery> {
    /// Adds one more field at the end; everything else carries over.
    pub fn field(self, field: &str) -> (r: Self)
        ensures
            r.table == self.table,
            r.id == self.id,
            r.fields.0@.len() == self.fields.0@.len() + 1,
            r.fields.0@.subrange(0, self.fields.0@.len() as int) == self.fields.0@,
            r.fields.0@.last()@ == field@,
            r.limit == self.limit,
            r.filters == self.filters,
    {
        let Self { table, id, mut fields, limit, filters, .. } = self;
        fields.0.push(field.to_owned());
        proof {
            assert(fields.0@.subrange(0, fields.0@.len() - 1) =~= self.fields.0@);
        }
        Query { table, id, fields, limit, filters, marker: core::marker::PhantomData }
    }
}

impl<T, F> Query<T, F, FilterQuery> {
    /// Appends one filter to the chain. The step's connective decides
    /// the outcome: `End` closes the chain, `And`/`Or` keep it open.
    /// Everything else carries over either way.
    pub fn filter(self, filter: (&str, RelationalOperator, &str, LogicalOperator)) -> (r:
        FilterStep<T, F>)
        ensures
            ({
                let fs = match r {
                    FilterStep::Done(q) => q.filters@,
                    FilterStep::More(q) => q.filters@,
                };
                &&& fs.len() == self.filters@.len() + 1
                &&& fs.subrange(0, self.filters@.len() as int) == self.filters@
                &&& fs.last().key@ == filter.0@
                &&& fs.last().relational_operator == filter.1
                &&& fs.last().value@ == filter.2@
                &&& fs.last().logical_operator == filter.3
            }),
            r is Done <==> filter.3 is End,
            match r {
                FilterStep::Done(q) => q.table == self.table && q.id == self.id && q.fields
                    == self.fields && q.limit == self.limit,
                FilterStep::More(q) => q.table == self.table && q.id == self.id && q.fields
                    == self.fields && q.limit == self.limit,
            },
    {
        let Self { table, id, fields, limit, mut filters, .. } = self;
        let (key, rel, value, log) = filter;
        let f = Filter {
            key: key.to_owned(),
            relational_operator: rel,
            value: value.to_owned(),
            logical_operator: log,
        };
        let is_end = log.is_end();
        filters.push(f);
        proof {
            assert(filters@.subrange(0, filters@.len() - 1) =~= self.filters@);
        }
        if is_end {
            FilterStep::Done(
                Query { table, id, fields, limit, filters, marker: core::marker::PhantomData },
            )
        } else {
            FilterStep::More(
                Query { table, id, fields, limit, filters, marker: core::marker::PhantomData },
            )
        }
    }
}

fn contains_star(v: &Vec<String>) -> (r: bool)
    ensures
        r == v@.map_values(|s: String| s@).contains("*"@),
{
    let ghost m = v@.map_values(|s: String| s@);
    let star = String::from_str("*");
    let mut i: usize = 0;
    while i < v.len()
        invariant
            0 <= i <= v.len(),
            star@ == "*"@,
            m == v@.map_values(|s: String| s@),
            forall|k: int| 0 <= k < i ==> #[trigger] m[k] != "*"@,
        decreases v.len() - i,
    {
        if v[i].eq(&star) {
            proof {
                assert(m[i as int] == v@[i as int]@);
                assert(m.contains("*"@));
            }
            return true;
        }
        proof {
            assert(m[i as int] == v@[i as int]@);
        }
        i += 1;
    }
    proof {
        assert(!m.contains("*"@)) by {
            if m.contains("*"@) {
                let k = choose|k: int| 0 <= k < m.len() && m[k] == "*"@;
                assert(m[k] != "*"@);
            }
        }
    }
    false
}

impl Query<TableQuery, FieldsQuery, NoFilterQuery> {
    /// The exact text this query renders to: `SELECT` with either `*`
    /// (when any field is the star) or the comma-joined fields, a
    /// `FROM` over the bound table — by id when one was given — then
    /// the filters after `WHERE`, then the limit. Table name, record
    /// id and filter values never appear in the text: they are bound
    /// as parameters by the caller.
    pub open spec fn spec_query_chars(self) -> Seq<char> {
        let fields = self.fields.0@.map_values(|s: String| s@);
        let select_part = if fields.contains("*"@) {
            "SELECT"@ + " *"@
        } else {
            "SELECT"@ + " "@ + join_chars(fields, ","@)
        };
        let from_part = if self.id is Some {
            " FROM type::thing($tb, $id)"@
        } else {
            " FROM type::table($tb)"@
        };
        let where_part = if self.filters@.len() == 0 {
            Seq::<char>::empty()
        } else {
            " WHERE"@ + spec_filters_tail(self.filters@)
        };
        let limit_part = match self.limit {
            Some(n) => " LIMIT "@ + dec_chars(n as nat),
            None => Seq::<char>::empty(),
        };
        select_part + from_part + where_part + limit_part
    }

    /// Renders the query string, exactly as `spec_query_chars` states.
    pub fn to_query_string(&self) -> (r: String)
        ensures
            r@ == self.spec_query_chars(),
    {
        let mut q = String::from_str("SELECT");
        if contains_star(&self.fields.0) {
            q.append(" *");
        } else {
            q.append(" ");
            let joined = join_strings(&self.fields.0, ",");
            q.append(joined.as_str());
        }
        let ghost select_part = q@;
        if self.id.is_some() {
            q.append(" FROM type::thing($tb, $id)");
        } else {
            q.append(" FROM type::table($tb)");
        }
        let ghost from_done = q@;
        if self.filters.len() > 0 {
            q.append(" WHERE");
            let ghost where_head = q@;
            let mut i: usize = 0;
            while i < self.filters.len()
                invariant
                    0 <= i <= self.filters@.len(),
                    q@ == where_head + spec_filters_tail(self.filters@.take(i as int)),
                decreases self.filters@.len() - i,
            {
                let ghost before = self.filters@.take(i as int);
                q.append(" ");
                let rendered = self.filters[i].render();
                q.append(rendered.as_str());
                proof {
                    assert(self.filters@.take(i + 1) =~= before.push(self.filters@[i as int]));
                    lemma_filters_tail_push(before, self.filters@[i as int]);
                    assert(q@ =~= where_head + spec_filters_tail(self.filters@.take(i + 1)));
                }
                i += 1;
            }
            proof {
                assert(self.filters@.take(self.filters@.len() as int) =~= self.filters@);
            }
        }
        if self.limit.is_some() {
            let n = self.limit.unwrap();
            q.append(" LIMIT ");
            let dec = u32_to_dec(n);
            q.append(dec.as_str());
        }
        proof {
            assert(q@ =~= self.spec_query_chars());
        }
        q
    }
}

} // verus!
