//! The bridge to the wrapped client: turns the crate's condition
//! trees into the client's own values. Every call into the client
//! stands here, each relying on one of its functions or tokens; the
//! tree walk around them is verified.

use vstd::prelude::*;

use crate::cond::{CondValue, ExtraCond, Op};

verus! {

#[verifier::external_type_specification]
#[verifier::external_body]
pub struct ExValue(surrealdb::sql::Value);

#[verifier::external_type_specification]
#[verifier::external_body]
pub struct ExCond(surrealdb::sql::Cond);

#[verifier::external_type_specification]
#[verifier::external_body]
pub struct ExOperator(surrealdb::sql::Operator);

#[verifier::external_type_specification]
#[verifier::external_body]
pub struct ExError(surrealdb::Error);

/// Relies on surrealdb::sql::value: parses a raw snippet into the
/// client's value; a snippet that does not parse yields the client's
/// null value.
#[verifier::external_body]
pub fn str_to_value(val: &str) -> surrealdb::sql::Value {
    match surrealdb::sql::value(val) {
        Ok(v) => v,
        Err(_) => surrealdb::sql::Value::Null,
    }
}

/// Relies on surrealdb::sql::Value: the null value.
#[verifier::external_body]
fn null_value() -> surrealdb::sql::Value {
    surrealdb::sql::Value::Null
}

/// Relies on surrealdb::sql::Expression: a binary node `l o r`,
/// boxed into a value.
#[verifier::external_body]
fn binary_value(
    l: surrealdb::sql::Value,
    o: surrealdb::sql::Operator,
    r: surrealdb::sql::Value,
) -> surrealdb::sql::Value {
    surrealdb::sql::Value::Expression(Box::new(surrealdb::sql::Expression::Binary { l, o, r }))
}

/// Relies on surrealdb::sql::Expression: a unary node `o v`, boxed
/// into a value.
#[verifier::external_body]
fn unary_value(o: surrealdb::sql::Operator, v: surrealdb::sql::Value) -> surrealdb::sql::Value {
    surrealdb::sql::Value::Expression(Box::new(surrealdb::sql::Expression::Unary { o, v }))
}

/// Relies on surrealdb::sql::Subquery: a value wrapped as a subquery.
#[verifier::external_body]
fn subquery_value(v: surrealdb::sql::Value) -> surrealdb::sql::Value {
    surrealdb::sql::Value::Subquery(Box::new(surrealdb::sql::Subquery::Value(v)))
}

/// Relies on surrealdb::sql::Cond: a condition around a value.
#[verifier::external_body]
fn cond_of_value(v: surrealdb::sql::Value) -> surrealdb::sql::Cond {
    surrealdb::sql::Cond(v)
}

/// Relies on surrealdb::sql::Operator: the logical and arithmetic
/// tokens, one variant each.
#[verifier::external_body]
fn client_op_logic(op: &Op) -> surrealdb::sql::Operator {
    match op {
        Op::Neg => surrealdb::sql::Operator::Neg,
        Op::Not => surrealdb::sql::Operator::Not,
        Op::Or => surrealdb::sql::Operator::Or,
        Op::And => surrealdb::sql::Operator::And,
        Op::Tco => surrealdb::sql::Operator::Tco,
        Op::Nco => surrealdb::sql::Operator::Nco,
        Op::Add => surrealdb::sql::Operator::Add,
        Op::Sub => surrealdb::sql::Operator::Sub,
        Op::Mul => surrealdb::sql::Operator::Mul,
        Op::Div => surrealdb::sql::Operator::Div,
        _ => surrealdb::sql::Operator::Pow,
    }
}

/// Relies on surrealdb::sql::Operator: the assignment and equality
/// tokens, one variant each.
#[verifier::external_body]
fn client_op_equality(op: &Op) -> surrealdb::sql::Operator {
    match op {
        Op::Inc => surrealdb::sql::Operator::Inc,
        Op::Dec => surrealdb::sql::Operator::Dec,
        Op::Ext => surrealdb::sql::Operator::Ext,
        Op::Equal => surrealdb::sql::Operator::Equal,
        Op::Exact => surrealdb::sql::Operator::Exact,
        Op::NotEqual => surrealdb::sql::Operator::NotEqual,
        Op::AllEqual => surrealdb::sql::Operator::AllEqual,
        Op::AnyEqual => surrealdb::sql::Operator::AnyEqual,
        Op::Like => surrealdb::sql::Operator::Like,
        Op::NotLike => surrealdb::sql::Operator::NotLike,
        _ => surrealdb::sql::Operator::AllLike,
    }
}

/// Relies on surrealdb::sql::Operator: the comparison and containment
/// tokens, one variant each.
#[verifier::external_body]
fn client_op_compare(op: &Op) -> surrealdb::sql::Operator {
    match op {
        Op::AnyLike => surrealdb::sql::Operator::AnyLike,
        Op::LessThan => surrealdb::sql::Operator::LessThan,
        Op::LessThanOrEqual => surrealdb::sql::Operator::LessThanOrEqual,
        Op::MoreThan => surrealdb::sql::Operator::MoreThan,
        Op::MoreThanOrEqual => surrealdb::sql::Operator::MoreThanOrEqual,
        Op::Contain => surrealdb::sql::Operator::Contain,
        Op::NotContain => surrealdb::sql::Operator::NotContain,
        Op::ContainAll => surrealdb::sql::Operator::ContainAll,
        Op::ContainAny => surrealdb::sql::Operator::ContainAny,
        _ => surrealdb::sql::Operator::ContainNone,
    }
}

/// Relies on surrealdb::sql::Operator: the membership, match and
/// nearest-neighbour tokens, one variant each; a plain neighbour
/// count carries no distance.
#[verifier::external_body]
fn client_op_inside(op: &Op) -> surrealdb::sql::Operator {
    match op {
        Op::Inside => surrealdb::sql::Operator::Inside,
        Op::NotInside => surrealdb::sql::Operator::NotInside,
        Op::AllInside => surrealdb::sql::Operator::AllInside,
        Op::AnyInside => surrealdb::sql::Operator::AnyInside,
        Op::NoneInside => surrealdb::sql::Operator::NoneInside,
        Op::Outside => surrealdb::sql::Operator::Outside,
        Op::Intersects => surrealdb::sql::Operator::Intersects,
        Op::Matches(m) => surrealdb::sql::Operator::Matches(*m),
        Op::Knn(k) => surrealdb::sql::Operator::Knn(*k, None),
        _ => surrealdb::sql::Operator::Equal,
    }
}

impl Op {
    /// The client's token for this operator.
    pub fn to_client(&self) -> surrealdb::sql::Operator {
        match self {
            Op::Neg | Op::Not | Op::Or | Op::And | Op::Tco | Op::Nco | Op::Add | Op::Sub
            | Op::Mul | Op::Div | Op::Pow => client_op_logic(self),
            Op::Inc | Op::Dec | Op::Ext | Op::Equal | Op::Exact | Op::NotEqual | Op::AllEqual
            | Op::AnyEqual | Op::Like | Op::NotLike | Op::AllLike => client_op_equality(self),
            Op::AnyLike | Op::LessThan | Op::LessThanOrEqual | Op::MoreThan
            | Op::MoreThanOrEqual | Op::Contain | Op::NotContain | Op::ContainAll
            | Op::ContainAny | Op::ContainNone => client_op_compare(self),
            Op::Inside | Op::NotInside | Op::AllInside | Op::AnyInside | Op::NoneInside
            | Op::Outside | Op::Intersects | Op::Matches(_) | Op::Knn(_) => client_op_inside(self),
        }
    }
}

impl CondValue {
    /// Turns the tree into the client's value: raw leaves go through
    /// the client's parser, already-built client values pass through,
    /// and each node becomes the client's matching expression.
    pub fn to_client(self) -> surrealdb::sql::Value
        decreases self,
    {
        match self {
            CondValue::Null => null_value(),
            CondValue::Raw(s) => str_to_value(s.as_str()),
            CondValue::Client(v) => v,
            CondValue::Binary(l, o, r) => {
                let lc = (*l).to_client();
                let oc = o.to_client();
                let rc = (*r).to_client();
                binary_value(lc, oc, rc)
            },
            CondValue::Unary(o, v) => {
                let oc = o.to_client();
                let vc = (*v).to_client();
                unary_value(oc, vc)
            },
            CondValue::Subquery(v) => {
                let vc = (*v).to_client();
                subquery_value(vc)
            },
        }
    }
}

impl ExtraCond {
    /// The client's condition clause for this tree.
    pub fn to_cond(self) -> surrealdb::sql::Cond {
        cond_of_value(self.0.to_client())
    }
}

} // verus!
