//! Filter conditions of the hand-rolled query builder, and their exact
//! textual rendering.

use vstd::prelude::*;
use vstd::string::StringExecFns;

verus! {

/// The comparison placed between a field and its bound parameter.
#[derive(Debug, Clone, Copy, PartialEq, Eq)]
pub enum RelationalOperator {
    Equal,
    NotEqual,
    LessThan,
    LessThanOrEqual,
    MoreThan,
    MoreThanOrEqual,
}

/// How one filter connects to the next; `End` closes the chain.
#[derive(Debug, Clone, Copy, PartialEq, Eq)]
pub enum LogicalOperator {
    Or,
    And,
    End,
}

/// One filter: `key op $key logical`, with the value bound separately
/// under the key's name.
#[derive(Debug)]
pub struct Filter {
    pub key: String,
    pub relational_operator: RelationalOperator,
    pub value: String,
    pub logical_operator: LogicalOperator,
}

/// The symbol a comparison renders as.
pub open spec fn spec_rel_symbol(op: RelationalOperator) -> Seq<char> {
    match op {
        RelationalOperator::Equal => "="@,
        RelationalOperator::NotEqual => "!="@,
        RelationalOperator::LessThan => "<"@,
        RelationalOperator::LessThanOrEqual => "<="@,
        RelationalOperator::MoreThan => ">"@,
        RelationalOperator::MoreThanOrEqual => ">="@,
    }
}

/// The word a connective renders as; `End` renders as nothing.
pub open spec fn spec_log_symbol(op: LogicalOperator) -> Seq<char> {
    match op {
        LogicalOperator::Or => "OR"@,
        LogicalOperator::And => "AND"@,
        LogicalOperator::End => ""@,
    }
}

/// The exact text of one filter: the key, the comparison symbol, the
/// key again as a `$` parameter, and the connective, space-separated.
pub open spec fn spec_filter_chars(f: Filter) -> Seq<char> {
    f.key@ + " "@ + spec_rel_symbol(f.relational_operator) + " $"@ + f.key@ + " "@
        + spec_log_symbol(f.logical_operator)
}

impl RelationalOperator {
    /// The symbol this comparison renders as.
    pub fn symbol(&self) -> (r: &'static str)
        ensures
            r@ == spec_rel_symbol(*self),
    {
        match self {
            RelationalOperator::Equal => "=",
            RelationalOperator::NotEqual => "!=",
            RelationalOperator::LessThan => "<",
            RelationalOperator::LessThanOrEqual => "<=",
            RelationalOperator::MoreThan => ">",
            RelationalOperator::MoreThanOrEqual => ">=",
        }
    }
}

impl LogicalOperator {
    /// The word this connective renders as.
    pub fn symbol(&self) -> (r: &'static str)
        ensures
            r@ == spec_log_symbol(*self),
    {
        match self {
            LogicalOperator::Or => "OR",
            LogicalOperator::And => "AND",
            LogicalOperator::End => "",
        }
    }

    /// Whether this connective closes the filter chain.
    pub fn is_end(&self) -> (r: bool)
        ensures
            r == (*self is End),
    {
        match self {
            LogicalOperator::End => true,
            _ => false,
        }
    }
}

impl Filter {
    /// Renders this filter exactly as `spec_filter_chars` states.
    pub fn render(&self) -> (r: String)
        ensures
            r@ == spec_filter_chars(*self),
    {
        let mut s = self.key.clone();
        s.append(" ");
        s.append(self.relational_operator.symbol());
        s.append(" $");
        s.append(self.key.as_str());
        s.append(" ");
        s.append(self.logical_operator.symbol());
        proof {
            assert(s@ =~= spec_filter_chars(*self));
        }
        s
    }
}

} // verus!
