use surrealdb_extra::query_builder::filter::{LogicalOperator, RelationalOperator};
use surrealdb_extra::query_builder::{FilterStep, Query};
use surrealdb_extra::strutil::{join_strings, u32_to_dec};

#[test]
fn query_string_plain_fields() {
    let q = Query::new().from("test", None).field("a").field("b");
    assert_eq!(q.to_query_string(), "SELECT a,b FROM type::table($tb)");
}

#[test]
fn query_string_star_field() {
    let q = Query::new().from("test", None).field("a").field("*");
    assert_eq!(q.to_query_string(), "SELECT * FROM type::table($tb)");
}

#[test]
fn query_string_with_id_and_limit() {
    let q = Query::new().from("test", Some("abc".to_string())).field("a").limit(10);
    assert_eq!(q.to_query_string(), "SELECT a FROM type::thing($tb, $id) LIMIT 10");
}

#[test]
fn query_string_with_filters() {
    let q = Query::new().from("test", None).field("a").where_filter();
    let q = match q.filter(("field1", RelationalOperator::Equal, "value1", LogicalOperator::And)) {
        FilterStep::More(q) => q,
        FilterStep::Done(_) => panic!("the chain should stay open after And"),
    };
    let q = match q.filter(("field2", RelationalOperator::NotEqual, "value2", LogicalOperator::End))
    {
        FilterStep::Done(q) => q,
        FilterStep::More(_) => panic!("the chain should close after End"),
    };
    assert_eq!(
        q.to_query_string(),
        "SELECT a FROM type::table($tb) WHERE field1 = $field1 AND field2 != $field2 "
    );
}

#[test]
fn query_string_filter_then_limit() {
    let q = Query::new().from("test", None).field("n").where_filter();
    let q = match q.filter(("n", RelationalOperator::MoreThan, "9", LogicalOperator::End)) {
        FilterStep::Done(q) => q,
        FilterStep::More(_) => panic!("the chain should close after End"),
    };
    let q = q.limit(5);
    assert_eq!(q.to_query_string(), "SELECT n FROM type::table($tb) WHERE n > $n  LIMIT 5");
}

#[test]
fn filter_keeps_collected_filters() {
    let q = Query::new().from("test", None).field("a").where_filter();
    let q = match q.filter(("x", RelationalOperator::LessThan, "1", LogicalOperator::Or)) {
        FilterStep::More(q) => q,
        FilterStep::Done(_) => panic!("the chain should stay open after Or"),
    };
    let q = match q.filter(("y", RelationalOperator::MoreThanOrEqual, "2", LogicalOperator::End)) {
        FilterStep::Done(q) => q,
        FilterStep::More(_) => panic!("the chain should close after End"),
    };
    assert_eq!(q.filters.len(), 2);
    assert_eq!(q.filters[0].key, "x");
    assert_eq!(q.filters[0].value, "1");
    assert_eq!(q.filters[1].key, "y");
    assert_eq!(q.filters[1].value, "2");
}

#[test]
fn relational_symbols() {
    assert_eq!(RelationalOperator::Equal.symbol(), "=");
    assert_eq!(RelationalOperator::NotEqual.symbol(), "!=");
    assert_eq!(RelationalOperator::LessThan.symbol(), "<");
    assert_eq!(RelationalOperator::LessThanOrEqual.symbol(), "<=");
    assert_eq!(RelationalOperator::MoreThan.symbol(), ">");
    assert_eq!(RelationalOperator::MoreThanOrEqual.symbol(), ">=");
}

#[test]
fn logical_symbols() {
    assert_eq!(LogicalOperator::Or.symbol(), "OR");
    assert_eq!(LogicalOperator::And.symbol(), "AND");
    assert_eq!(LogicalOperator::End.symbol(), "");
}

#[test]
fn decimal_rendering() {
    assert_eq!(u32_to_dec(0), "0");
    assert_eq!(u32_to_dec(7), "7");
    assert_eq!(u32_to_dec(10), "10");
    assert_eq!(u32_to_dec(905), "905");
    assert_eq!(u32_to_dec(u32::MAX), "4294967295");
}

#[test]
fn joining_strings() {
    assert_eq!(join_strings(&vec![], ","), "");
    assert_eq!(join_strings(&vec!["a".to_string()], ","), "a");
    assert_eq!(join_strings(&vec!["a".to_string(), "b".to_string(), "c".to_string()], ","), "a,b,c");
}
