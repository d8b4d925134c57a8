use surrealdb_extra::cond::{Condition, CondValue, ExtraCond, Op};

fn raw(s: &str) -> CondValue {
    CondValue::Raw(s.to_string())
}

#[test]
fn condition1() {
    let _ = ExtraCond::from_conditions(vec![Condition::from_op_raw(Op::Not, "test")]);
}

#[test]
fn condition3() {
    let _ = ExtraCond::from_conditions(vec![
        Condition::from_raw("cond1"),
        Condition::from_op(Op::Or),
        Condition::from_op_raw(Op::Not, "test"),
    ]);
}

#[test]
fn from_condition() {
    let vec_cond = vec![
        Condition::from_raw("cond1"),
        Condition::from_op(Op::And),
        Condition::from_raw("cond3"),
    ];

    let _extra_cond = ExtraCond::from_conditions(vec_cond);
}

#[test]
fn assemble_empty_is_null() {
    let c = ExtraCond::from_conditions(Vec::new());
    assert_eq!(c.0, CondValue::Null);
}

#[test]
fn assemble_single_value() {
    let c = ExtraCond::from_conditions(vec![Condition::from_raw("test")]);
    assert_eq!(c.0, raw("test"));
}

#[test]
fn assemble_single_comparison() {
    let c = ExtraCond::from_conditions(vec![Condition::from_raw_parts("n", Op::MoreThan, "$num")]);
    assert_eq!(c.0, CondValue::Binary(Box::new(raw("n")), Op::MoreThan, Box::new(raw("$num"))));
}

#[test]
fn assemble_three_tokens() {
    let c = ExtraCond::from_conditions(vec![
        Condition::from_raw("a"),
        Condition::from_op(Op::And),
        Condition::from_raw("b"),
    ]);
    assert_eq!(c.0, CondValue::Binary(Box::new(raw("a")), Op::And, Box::new(raw("b"))));
}

#[test]
fn assemble_is_left_associative() {
    let c = ExtraCond::from_conditions(vec![
        Condition::from_raw("a"),
        Condition::from_op(Op::And),
        Condition::from_raw("b"),
        Condition::from_op(Op::Or),
        Condition::from_raw("c"),
    ]);
    let inner = CondValue::Binary(Box::new(raw("a")), Op::And, Box::new(raw("b")));
    assert_eq!(c.0, CondValue::Binary(Box::new(inner), Op::Or, Box::new(raw("c"))));
}

#[test]
fn assemble_two_tokens_reads_null_right() {
    let c = ExtraCond::from_conditions(vec![
        Condition::from_raw("a"),
        Condition::from_op(Op::And),
    ]);
    assert_eq!(
        c.0,
        CondValue::Binary(Box::new(raw("a")), Op::And, Box::new(CondValue::Null))
    );
}

#[test]
fn assemble_drops_trailing_operator() {
    let c = ExtraCond::from_conditions(vec![
        Condition::from_raw("a"),
        Condition::from_op(Op::And),
        Condition::from_raw("b"),
        Condition::from_op(Op::Or),
    ]);
    assert_eq!(c.0, CondValue::Binary(Box::new(raw("a")), Op::And, Box::new(raw("b"))));
}

#[test]
fn assemble_unary_token() {
    let c = ExtraCond::from_conditions(vec![
        Condition::from_raw("x"),
        Condition::from_op(Op::And),
        Condition::from_op_raw(Op::Not, "test"),
    ]);
    assert_eq!(
        c.0,
        CondValue::Binary(
            Box::new(raw("x")),
            Op::And,
            Box::new(CondValue::Unary(Op::Not, Box::new(raw("test"))))
        )
    );
}

#[test]
fn assemble_value_in_operator_slot_defaults_to_equal() {
    let c = ExtraCond::from_conditions(vec![
        Condition::from_raw("a"),
        Condition::from_raw("b"),
        Condition::from_raw("c"),
    ]);
    assert_eq!(c.0, CondValue::Binary(Box::new(raw("a")), Op::Equal, Box::new(raw("c"))));
}

#[test]
fn nested_condition_becomes_subquery() {
    let inner = ExtraCond::from_conditions(vec![
        Condition::from_raw("a"),
        Condition::from_op(Op::And),
        Condition::from_raw("b"),
    ]);
    let c = ExtraCond::from_condition(Condition::SubCond(inner));
    let inner_again = CondValue::Binary(Box::new(raw("a")), Op::And, Box::new(raw("b")));
    assert_eq!(c.0, CondValue::Subquery(Box::new(inner_again)));
}

#[test]
fn bare_operator_stands_for_null() {
    let c = ExtraCond::from_condition(Condition::from_op(Op::And));
    assert_eq!(c.0, CondValue::Null);
}

#[test]
fn is_value_and_is_operator() {
    assert!(Condition::from_raw("a").is_value());
    assert!(Condition::from_raw_parts("a", Op::Equal, "b").is_value());
    assert!(Condition::from_op_raw(Op::Not, "a").is_value());
    assert!(!Condition::from_op(Op::And).is_value());
    assert!(Condition::from_op(Op::And).is_operator());
    assert!(!Condition::from_raw("a").is_operator());
}

#[test]
fn to_operator_defaults_to_equal() {
    assert_eq!(Condition::from_raw("a").to_operator(), Op::Equal);
    assert_eq!(Condition::from_op(Op::MoreThan).to_operator(), Op::MoreThan);
}
