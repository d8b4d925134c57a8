//! The clause pieces that the statement builders collect: idioms,
//! field selections, targets, orderings, data expressions. Each piece
//! is plain data; raw snippets in them are parsed by the wrapped
//! client only when a finished statement is handed over.

use vstd::prelude::*;
use vstd::string::StrSliceExecFns;

verus! {

/// A dotted path, split into its parts.
#[derive(Debug)]
pub struct ExtraIdiom(pub Vec<String>);

/// Splitting `s` at every `sep`: neighbouring separators and
/// separators at either end yield empty parts, and the empty string
/// yields one empty part, as the standard splitter does.
pub open spec fn spec_split(s: Seq<char>, sep: char) -> Seq<Seq<char>>
    decreases s.len(),
{
    if s.len() == 0 {
        seq![Seq::<char>::empty()]
    } else {
        let rest = spec_split(s.drop_last(), sep);
        if s.last() == sep {
            rest.push(Seq::empty())
        } else {
            rest.update(rest.len() - 1, rest.last().push(s.last()))
        }
    }
}

/// A split always has at least one part.
pub proof fn lemma_split_nonempty(s: Seq<char>, sep: char)
    ensures
        spec_split(s, sep).len() >= 1,
    decreases s.len(),
{
    if s.len() > 0 {
        lemma_split_nonempty(s.drop_last(), sep);
    }
}

impl ExtraIdiom {
    /// Splits a dotted path at every dot, exactly as `spec_split`
    /// states.
    pub fn from_str(s: &str) -> (r: ExtraIdiom)
        ensures
            r.0@.map_values(|p: String| p@) == spec_split(s@, '.'),
    {
        let n = s.unicode_len();
        let mut parts: Vec<String> = Vec::new();
        let mut start: usize = 0;
        let mut i: usize = 0;
        proof {
            assert(s@.take(0) =~= Seq::<char>::empty());
            assert(s@.subrange(0, 0) =~= Seq::<char>::empty());
            assert(parts@.map_values(|p: String| p@).push(s@.subrange(0, 0)) =~= spec_split(
                s@.take(0),
                '.',
            ));
        }
        while i < n
            invariant
                0 <= start <= i <= n,
                n == s@.len(),
                parts@.map_values(|p: String| p@).push(s@.subrange(start as int, i as int))
                    == spec_split(s@.take(i as int), '.'),
            decreases n - i,
        {
            let ghost old_parts = parts@.map_values(|p: String| p@);
            let ghost old_take = s@.take(i as int);
            let ghost old_seg = s@.subrange(start as int, i as int);
            let c = s.get_char(i);
            proof {
                assert(s@.take(i + 1).drop_last() =~= old_take);
                assert(s@.take(i + 1).last() == s@[i as int]);
                lemma_split_nonempty(old_take, '.');
            }
            if c == '.' {
                let seg = s.substring_char(start, i).to_owned();
                parts.push(seg);
                start = i + 1;
                proof {
                    assert(parts@.map_values(|p: String| p@) =~= old_parts.push(old_seg));
                    assert(s@.subrange(start as int, i + 1) =~= Seq::<char>::empty());
                    assert(spec_split(s@.take(i + 1), '.') == spec_split(old_take, '.').push(
                        Seq::empty(),
                    ));
                    assert(parts@.map_values(|p: String| p@).push(s@.subrange(start as int, i + 1))
                        =~= spec_split(s@.take(i + 1), '.'));
                }
            } else {
                proof {
                    let rest = spec_split(old_take, '.');
                    assert(rest == old_parts.push(old_seg));
                    assert(rest.last() == old_seg);
                    assert(rest.update(rest.len() - 1, old_seg.push(c)) =~= old_parts.push(
                        old_seg.push(c),
                    ));
                    assert(s@.subrange(start as int, i + 1) =~= old_seg.push(c));
                    assert(parts@.map_values(|p: String| p@).push(s@.subrange(start as int, i + 1))
                        =~= spec_split(s@.take(i + 1), '.'));
                }
            }
            i += 1;
        }
        let last_seg = s.substring_char(start, n).to_owned();
        parts.push(last_seg);
        proof {
            assert(s@.take(n as int) =~= s@);
            assert(parts@.map_values(|p: String| p@) =~= spec_split(s@, '.'));
        }
        ExtraIdiom(parts)
    }
}

/// The direction a result set is ordered in.
#[derive(Debug, Clone, Copy, PartialEq, Eq)]
pub enum OrderDirection {
    ASC,
    DESC,
}

impl OrderDirection {
    /// The flag the ordering clause stores: ascending is `true`.
    pub fn to_bool(&self) -> (r: bool)
        ensures
            r == (*self is ASC),
    {
        match self {
            OrderDirection::ASC => true,
            OrderDirection::DESC => false,
        }
    }
}

/// One ordering entry: a field and how to compare by it.
#[derive(Debug)]
pub struct ExtraOrder {
    pub field: ExtraIdiom,
    pub collate: bool,
    pub numeric: bool,
    pub direction: bool,
}

impl ExtraOrder {
    /// An ordering entry over a dotted path: plain comparison, no
    /// collation, ascending exactly when the direction says so.
    pub fn from_field(field: &str, direction: OrderDirection) -> (r: ExtraOrder)
        ensures
            r.field.0@.map_values(|p: String| p@) == spec_split(field@, '.'),
            r.collate == false,
            r.numeric == false,
            r.direction == (direction is ASC),
    {
        let d = direction.to_bool();
        ExtraOrder { field: ExtraIdiom::from_str(field), collate: false, numeric: false, direction: d }
    }
}

/// One selected field of a statement.
#[derive(Debug)]
pub enum FieldSel {
    /// The whole row.
    All,
    /// An expression, with an optional alias path.
    Single { expr: String, alias: Option<ExtraIdiom> },
}

impl FieldSel {
    /// A field selection from a raw expression, without alias.
    pub fn from_expr(expr: &str) -> (r: FieldSel)
        ensures
            r matches FieldSel::Single { expr: e, alias } && e@ == expr@ && alias is None,
    {
        FieldSel::Single { expr: expr.to_owned(), alias: None }
    }

    /// A field selection from a raw expression and a dotted alias.
    pub fn with_alias(expr: &str, alias: &str) -> (r: FieldSel)
        ensures
            r matches FieldSel::Single { expr: e, alias: al } && e@ == expr@ && (al matches Some(a)
                && a.0@.map_values(|p: String| p@) == spec_split(alias@, '.')),
    {
        FieldSel::Single { expr: expr.to_owned(), alias: Some(ExtraIdiom::from_str(alias)) }
    }
}

/// What a statement addresses: a whole table, or one record in it.
#[derive(Debug)]
pub enum Target {
    /// A table by name.
    Table(String),
    /// A record: table name and record id.
    Record(String, String),
}

impl Target {
    /// A whole-table target.
    pub fn table(name: &str) -> (r: Target)
        ensures
            r matches Target::Table(t) && t@ == name@,
    {
        Target::Table(name.to_owned())
    }

    /// A single-record target.
    pub fn record(table: &str, id: &str) -> (r: Target)
        ensures
            r matches Target::Record(t, i) && t@ == table@ && i@ == id@,
    {
        Target::Record(table.to_owned(), id.to_owned())
    }
}

/// The index hint of a select statement.
#[derive(Debug)]
pub enum WithClause {
    /// Use no index at all.
    NoIndex,
    /// Use the named indexes.
    Index(Vec<String>),
}

/// A span of time for a timeout clause.
#[derive(Debug, Clone, Copy, PartialEq, Eq)]
pub struct DurationSpec {
    pub secs: u64,
    pub nanos: u32,
}

/// A point in time for a version clause.
#[derive(Debug, Clone, Copy, PartialEq, Eq)]
pub struct Timestamp {
    pub secs: i64,
    pub nanos: u32,
}

/// One field assignment of a `SET` expression.
#[derive(Debug)]
pub struct SetField {
    pub field: ExtraIdiom,
    pub op: crate::cond::Op,
    pub value: String,
}

/// The data clause of a create, update or relate statement.
#[derive(Debug)]
pub enum DataClause {
    /// Assignments, one per field.
    SetExpr(Vec<SetField>),
    /// Fields to drop.
    Unset(Vec<ExtraIdiom>),
}

/// Builds a `SET` expression: one assignment per entry, each field
/// path split at its dots.
pub fn set_expression(entries: Vec<(&str, crate::cond::Op, &str)>) -> (r: DataClause)
    ensures
        r matches DataClause::SetExpr(fs) && fs@.len() == entries@.len() && (forall|k: int|
            0 <= k < fs@.len() ==> {
                &&& (#[trigger] fs@[k]).field.0@.map_values(|p: String| p@) == spec_split(
                    entries@[k].0@,
                    '.',
                )
                &&& fs@[k].op == entries@[k].1
                &&& fs@[k].value@ == entries@[k].2@
            }),
{
    let mut fs: Vec<SetField> = Vec::new();
    let mut i: usize = 0;
    while i < entries.len()
        invariant
            0 <= i <= entries@.len(),
            fs@.len() == i,
            forall|k: int|
                0 <= k < i ==> {
                    &&& (#[trigger] fs@[k]).field.0@.map_values(|p: String| p@) == spec_split(
                        entries@[k].0@,
                        '.',
                    )
                    &&& fs@[k].op == entries@[k].1
                    &&& fs@[k].value@ == entries@[k].2@
                },
        decreases entries@.len() - i,
    {
        let (f, o, v) = entries[i];
        fs.push(SetField { field: ExtraIdiom::from_str(f), op: o, value: v.to_owned() });
        i += 1;
    }
    DataClause::SetExpr(fs)
}

/// Builds an `UNSET` expression: each field path split at its dots.
pub fn unset_expression(fields: Vec<&str>) -> (r: DataClause)
    ensures
        r matches DataClause::Unset(fs) && fs@.len() == fields@.len() && (forall|k: int|
            0 <= k < fs@.len() ==> (#[trigger] fs@[k]).0@.map_values(|p: String| p@) == spec_split(
                fields@[k]@,
                '.',
            )),
{
    let mut fs: Vec<ExtraIdiom> = Vec::new();
    let mut i: usize = 0;
    while i < fields.len()
        invariant
            0 <= i <= fields@.len(),
            fs@.len() == i,
            forall|k: int|
                0 <= k < i ==> (#[trigger] fs@[k]).0@.map_values(|p: String| p@) == spec_split(
                    fields@[k]@,
                    '.',
                ),
        decreases fields@.len() - i,
    {
        let f = fields[i];
        fs.push(ExtraIdiom::from_str(f));
        i += 1;
    }
    DataClause::Unset(fs)
}

/// The output clause of a create, update or relate statement.
#[derive(Debug)]
pub enum OutputClause {
    /// Return nothing.
    Nothing,
    /// Return the null value.
    Null,
    /// Return the change as a diff.
    Diff,
    /// Return the record after the change.
    After,
    /// Return the record before the change.
    Before,
    /// Return the chosen fields.
    Fields(Vec<FieldSel>),
}

} // verus!
