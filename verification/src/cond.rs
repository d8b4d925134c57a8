//! Condition expressions for `WHERE` clauses.
//!
//! A condition is assembled from a flat stream of tokens — values,
//! comparisons, operators — into a left-associated binary expression
//! tree. The tree is plain data; a leaf holds a raw snippet that the
//! client parses when the tree is handed over, a value the client
//! already parsed, or nothing at all.

use vstd::prelude::*;

verus! {

/// The operator tokens of the query language that the builders emit.
#[derive(Debug, Clone, Copy, PartialEq, Eq)]
pub enum Op {
    Neg,
    Not,
    Or,
    And,
    Tco,
    Nco,
    Add,
    Sub,
    Mul,
    Div,
    Pow,
    Inc,
    Dec,
    Ext,
    Equal,
    Exact,
    NotEqual,
    AllEqual,
    AnyEqual,
    Like,
    NotLike,
    AllLike,
    AnyLike,
    LessThan,
    LessThanOrEqual,
    MoreThan,
    MoreThanOrEqual,
    Contain,
    NotContain,
    ContainAll,
    ContainAny,
    ContainNone,
    Inside,
    NotInside,
    AllInside,
    AnyInside,
    NoneInside,
    Outside,
    Intersects,
    Matches(Option<u8>),
    Knn(u32),
}

/// A condition expression tree.
///
/// `Raw` leaves carry text that the wrapped client parses when the tree
/// is turned into one of its values; the tree structure itself is fixed
/// here, by the assembly below.
#[derive(Debug, PartialEq)]
pub enum CondValue {
    /// The null value: what an empty token stream assembles to.
    Null,
    /// A raw snippet, parsed by the client when the tree is handed over.
    Raw(String),
    /// An already parsed client value, carried through untouched.
    Client(surrealdb::sql::Value),
    /// A binary expression `l o r`.
    Binary(Box<CondValue>, Op, Box<CondValue>),
    /// A unary expression `o v`.
    Unary(Op, Box<CondValue>),
    /// A parenthesised subquery around an inner value.
    Subquery(Box<CondValue>),
}

/// One token of a condition stream.
#[derive(Debug, Default)]
pub enum Condition {
    /// The empty token; it stands for the null value.
    #[default]
    Null,
    /// A single value.
    Value(CondValue),
    /// A comparison `l o r`, already a complete expression.
    ValOpVal(CondValue, Op, CondValue),
    /// A unary expression `o v`, already a complete expression.
    OperatorValue(Op, CondValue),
    /// A bare operator, joining its two neighbouring value tokens.
    Operator(Op),
    /// A nested condition, kept as a parenthesised subquery.
    SubCond(ExtraCond),
    /// An explicit subquery value.
    Subquery(CondValue),
}

/// A finished condition: the value of a `WHERE` clause.
#[derive(Debug, PartialEq)]
pub struct ExtraCond(pub CondValue);

/// The value a single token stands for. Bare operators and the empty
/// token stand for the null value.
pub open spec fn spec_to_value(c: Condition) -> CondValue {
    match c {
        Condition::Null => CondValue::Null,
        Condition::Value(v) => v,
        Condition::ValOpVal(l, o, r) => CondValue::Binary(Box::new(l), o, Box::new(r)),
        Condition::OperatorValue(o, v) => CondValue::Unary(o, Box::new(v)),
        Condition::Operator(_) => CondValue::Null,
        Condition::SubCond(e) => CondValue::Subquery(Box::new(e.0)),
        Condition::Subquery(v) => CondValue::Subquery(Box::new(v)),
    }
}

/// The operator a single token stands for; every token that is not a
/// bare operator stands for the client's default operator, `Equal`.
pub open spec fn spec_to_operator(c: Condition) -> Op {
    match c {
        Condition::Operator(o) => o,
        _ => Op::Equal,
    }
}

/// Folds the remaining token stream onto `acc`, two tokens at a time:
/// an operator token and a value token extend the tree on the left. A
/// single trailing token is dropped.
pub open spec fn spec_fold(acc: CondValue, s: Seq<Condition>) -> CondValue
    decreases s.len(),
{
    if s.len() >= 2 {
        spec_fold(
            CondValue::Binary(Box::new(acc), spec_to_operator(s[0]), Box::new(spec_to_value(s[1]))),
            s.skip(2),
        )
    } else {
        acc
    }
}

/// What a whole token stream assembles to: the empty stream gives the
/// null value, a single token gives its value, and a longer stream is
/// folded left-to-right into a left-associated expression tree. A
/// stream of exactly two tokens reads the missing right operand as the
/// null value, and a trailing operator token without a value is
/// dropped, as the assembly loop does.
pub open spec fn spec_assemble(s: Seq<Condition>) -> CondValue {
    if s.len() == 0 {
        CondValue::Null
    } else if s.len() == 1 {
        spec_to_value(s[0])
    } else {
        let right = if s.len() >= 3 {
            spec_to_value(s[2])
        } else {
            CondValue::Null
        };
        let first = CondValue::Binary(
            Box::new(spec_to_value(s[0])),
            spec_to_operator(s[1]),
            Box::new(right),
        );
        let rest = if s.len() >= 3 {
            s.skip(3)
        } else {
            s.skip(2)
        };
        spec_fold(first, rest)
    }
}

impl Condition {
    /// A value token for a raw snippet.
    pub fn from_raw(s: &str) -> (r: Condition)
        ensures
            r matches Condition::Value(v) && v matches CondValue::Raw(t) && t@ == s@,
    {
        Condition::Value(CondValue::Raw(s.to_owned()))
    }

    /// A comparison token `l o r` from two raw snippets.
    pub fn from_raw_parts(l: &str, o: Op, r: &str) -> (c: Condition)
        ensures
            c matches Condition::ValOpVal(cl, co, cr) && co == o && (cl matches CondValue::Raw(
                ls,
            ) && ls@ == l@) && (cr matches CondValue::Raw(rs) && rs@ == r@),
    {
        Condition::ValOpVal(CondValue::Raw(l.to_owned()), o, CondValue::Raw(r.to_owned()))
    }

    /// A unary token `o v` from an operator and a raw snippet.
    pub fn from_op_raw(o: Op, v: &str) -> (c: Condition)
        ensures
            c matches Condition::OperatorValue(co, cv) && co == o && (cv matches CondValue::Raw(
                vs,
            ) && vs@ == v@),
    {
        Condition::OperatorValue(o, CondValue::Raw(v.to_owned()))
    }

    /// A value token for an already parsed client value.
    pub fn from_value(v: surrealdb::sql::Value) -> (c: Condition)
        ensures
            c == Condition::Value(CondValue::Client(v)),
    {
        Condition::Value(CondValue::Client(v))
    }

    /// A bare operator token.
    pub fn from_op(o: Op) -> (c: Condition)
        ensures
            c == Condition::Operator(o),
    {
        Condition::Operator(o)
    }

    /// The value this token stands for; consumes the token.
    pub fn to_value(self) -> (r: CondValue)
        ensures
            r == spec_to_value(self),
    {
        match self {
            Condition::Null => CondValue::Null,
            Condition::Value(v) => v,
            Condition::ValOpVal(l, o, r) => CondValue::Binary(Box::new(l), o, Box::new(r)),
            Condition::OperatorValue(o, v) => CondValue::Unary(o, Box::new(v)),
            Condition::Operator(_) => CondValue::Null,
            Condition::SubCond(e) => CondValue::Subquery(Box::new(e.0)),
            Condition::Subquery(v) => CondValue::Subquery(Box::new(v)),
        }
    }

    /// The operator this token stands for; `Equal` when it is not a
    /// bare operator token.
    pub fn to_operator(self) -> (r: Op)
        ensures
            r == spec_to_operator(self),
    {
        match self {
            Condition::Operator(o) => o,
            _ => Op::Equal,
        }
    }

    /// Whether the token stands for a value on its own.
    pub fn is_value(&self) -> (r: bool)
        ensures
            r == (*self is Value || *self is ValOpVal || *self is OperatorValue),
    {
        match self {
            Condition::Value(..) => true,
            Condition::ValOpVal(..) => true,
            Condition::OperatorValue(..) => true,
            _ => false,
        }
    }

    /// Whether the token is a bare operator.
    pub fn is_operator(&self) -> (r: bool)
        ensures
            r == (*self is Operator),
    {
        match self {
            Condition::Operator(_) => true,
            _ => false,
        }
    }
}

impl ExtraCond {
    /// A condition from a single raw snippet.
    pub fn from_raw(s: &str) -> (r: ExtraCond)
        ensures
            r.0 matches CondValue::Raw(t) && t@ == s@,
    {
        ExtraCond(CondValue::Raw(s.to_owned()))
    }

    /// A condition from a single token.
    pub fn from_condition(c: Condition) -> (r: ExtraCond)
        ensures
            r.0 == spec_to_value(c),
    {
        ExtraCond(c.to_value())
    }

    /// Assembles a flat token stream into a left-associated expression
    /// tree, exactly as `spec_assemble` states.
    pub fn from_conditions(conds: Vec<Condition>) -> (r: ExtraCond)
        ensures
            r.0 == spec_assemble(conds@),
    {
        let ghost orig = conds@;
        let mut v = conds;
        if v.len() == 0 {
            return ExtraCond(CondValue::Null);
        }
        let l = v.remove(0).to_value();
        if v.len() == 0 {
            return ExtraCond(l);
        }
        let o = v.remove(0).to_operator();
        let right = if v.len() > 0 {
            v.remove(0).to_value()
        } else {
            CondValue::Null
        };
        let mut expr = CondValue::Binary(Box::new(l), o, Box::new(right));
        proof {
            if orig.len() >= 3 {
                assert(v@ =~= orig.skip(3));
            } else {
                assert(v@ =~= orig.skip(2));
            }
        }
        while v.len() >= 2
            invariant
                spec_fold(expr, v@) == spec_assemble(orig),
            decreases v.len(),
        {
            let ghost before = v@;
            let o2 = v.remove(0).to_operator();
            let val = v.remove(0).to_value();
            expr = CondValue::Binary(Box::new(expr), o2, Box::new(val));
            proof {
                assert(v@ =~= before.skip(2));
            }
        }
        ExtraCond(expr)
    }
}

proof fn lemma_fold_extend(acc: CondValue, t: Seq<Condition>, o: Condition, c: Condition)
    requires
        t.len() % 2 == 0,
    ensures
        spec_fold(acc, t + seq![o, c]) == CondValue::Binary(
            Box::new(spec_fold(acc, t)),
            spec_to_operator(o),
            Box::new(spec_to_value(c)),
        ),
    decreases t.len(),
{
    let e = t + seq![o, c];
    if t.len() == 0 {
        let acc2 = CondValue::Binary(
            Box::new(acc),
            spec_to_operator(o),
            Box::new(spec_to_value(c)),
        );
        assert(e =~= seq![o, c]);
        assert(e[0] == o && e[1] == c);
        assert(e.skip(2) =~= Seq::<Condition>::empty());
        assert(spec_fold(acc, e) == spec_fold(acc2, e.skip(2)));
        assert(spec_fold(acc2, e.skip(2)) == acc2);
    } else {
        let acc2 = CondValue::Binary(
            Box::new(acc),
            spec_to_operator(t[0]),
            Box::new(spec_to_value(t[1])),
        );
        assert(e[0] == t[0] && e[1] == t[1]);
        assert(e.skip(2) =~= t.skip(2) + seq![o, c]);
        assert(spec_fold(acc, e) == spec_fold(acc2, e.skip(2)));
        assert(spec_fold(acc, t) == spec_fold(acc2, t.skip(2)));
        lemma_fold_extend(acc2, t.skip(2), o, c);
    }
}

/// Assembly is left-associative: appending an operator token and a
/// value token to a stream of odd length wraps the previously
/// assembled tree as the left operand of one new binary node.
pub proof fn lemma_assemble_extend(s: Seq<Condition>, o: Condition, c: Condition)
    requires
        s.len() % 2 == 1,
    ensures
        spec_assemble(s + seq![o, c]) == CondValue::Binary(
            Box::new(spec_assemble(s)),
            spec_to_operator(o),
            Box::new(spec_to_value(c)),
        ),
{
    let e = s + seq![o, c];
    if s.len() == 1 {
        assert(e.len() == 3);
        assert(e.skip(3) =~= Seq::<Condition>::empty());
        assert(spec_assemble(e) == CondValue::Binary(
            Box::new(spec_to_value(s[0])),
            spec_to_operator(o),
            Box::new(spec_to_value(c)),
        ));
    } else {
        assert(e.len() >= 5);
        let right = spec_to_value(s[2]);
        let first = CondValue::Binary(
            Box::new(spec_to_value(s[0])),
            spec_to_operator(s[1]),
            Box::new(right),
        );
        assert(e.skip(3) =~= s.skip(3) + seq![o, c]);
        lemma_fold_extend(first, s.skip(3), o, c);
    }
}

} // verus!
