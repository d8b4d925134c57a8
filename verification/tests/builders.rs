use surrealdb_extra::cond::{Condition, CondValue, ExtraCond, Op};
use surrealdb_extra::create::CreateBuilder;
use surrealdb_extra::orm;
use surrealdb_extra::parsing::{
    set_expression, unset_expression, DataClause, DurationSpec, ExtraIdiom, ExtraOrder, FieldSel,
    OrderDirection, OutputClause, Target,
};
use surrealdb_extra::relate::RelateBuilder;
use surrealdb_extra::select::SelectBuilder;
use surrealdb_extra::update::UpdateBuilder;

fn parts(idiom: &ExtraIdiom) -> Vec<&str> {
    idiom.0.iter().map(|s| s.as_str()).collect()
}

#[test]
fn idiom_split_plain() {
    assert_eq!(parts(&ExtraIdiom::from_str("test")), vec!["test"]);
}

#[test]
fn idiom_split_three_parts() {
    assert_eq!(parts(&ExtraIdiom::from_str("test.test.test")), vec!["test", "test", "test"]);
}

#[test]
fn idiom_split_keeps_empty_parts() {
    assert_eq!(parts(&ExtraIdiom::from_str("a..b")), vec!["a", "", "b"]);
    assert_eq!(parts(&ExtraIdiom::from_str(".a.")), vec!["", "a", ""]);
    assert_eq!(parts(&ExtraIdiom::from_str("")), vec![""]);
}

#[test]
fn order_direction_to_bool() {
    assert!(OrderDirection::ASC.to_bool());
    assert!(!OrderDirection::DESC.to_bool());
}

#[test]
fn order_from_field() {
    let o = ExtraOrder::from_field("name", OrderDirection::DESC);
    assert_eq!(parts(&o.field), vec!["name"]);
    assert!(!o.collate);
    assert!(!o.numeric);
    assert!(!o.direction);
}

#[test]
fn orm_query_collects_table_and_fields() {
    let q = orm::Query::new().from("test").field("t").field("field");
    assert_eq!(q.table.0, "test");
    assert_eq!(q.fields.0, vec!["t".to_string(), "field".to_string()]);
}

#[test]
fn select_builder_collects_clauses() {
    let b = SelectBuilder::new()
        .what(Target::table("test"))
        .field(FieldSel::from_expr("name"))
        .field(FieldSel::All)
        .condition(ExtraCond::from_conditions(vec![Condition::from_raw_parts(
            "n",
            Op::MoreThan,
            "$num",
        )]));
    let s = &b.statement;
    assert_eq!(s.what.len(), 1);
    assert!(matches!(s.what[0], Target::Table(ref t) if t == "test"));
    assert_eq!(s.expr.len(), 2);
    assert!(matches!(s.expr[1], FieldSel::All));
    let cond = s.cond.as_ref().unwrap();
    assert_eq!(
        cond.0,
        CondValue::Binary(
            Box::new(CondValue::Raw("n".to_string())),
            Op::MoreThan,
            Box::new(CondValue::Raw("$num".to_string()))
        )
    );
}

#[test]
fn select_builder_trimmings() {
    let b = SelectBuilder::new()
        .what(Target::record("test", "one"))
        .field(FieldSel::from_expr("a"))
        .omit(ExtraIdiom::from_str("secret"))
        .split(ExtraIdiom::from_str("tags"))
        .group(ExtraIdiom::from_str("kind"))
        .order(ExtraOrder::from_field("name", OrderDirection::ASC))
        .limit(5)
        .start(10)
        .fetch(ExtraIdiom::from_str("author"))
        .timeout(DurationSpec { secs: 3, nanos: 0 })
        .only()
        .parallel()
        .explain()
        .tempfile();
    let s = &b.statement;
    assert!(matches!(s.what[0], Target::Record(ref t, ref i) if t == "test" && i == "one"));
    assert_eq!(parts(&s.omit.as_ref().unwrap()[0]), vec!["secret"]);
    assert_eq!(parts(&s.split.as_ref().unwrap()[0]), vec!["tags"]);
    assert_eq!(parts(&s.group.as_ref().unwrap()[0]), vec!["kind"]);
    assert_eq!(s.order.as_ref().unwrap().len(), 1);
    assert_eq!(s.limit, Some(5));
    assert_eq!(s.start, Some(10));
    assert_eq!(parts(&s.fetch.as_ref().unwrap()[0]), vec!["author"]);
    assert_eq!(s.timeout, Some(DurationSpec { secs: 3, nanos: 0 }));
    assert!(s.only);
    assert!(s.parallel);
    assert_eq!(s.explain, Some(true));
    assert!(s.tempfiles);
}

#[test]
fn create_builder_with_set() {
    let b = CreateBuilder::new()
        .what(Target::table("test"))
        .set(vec![("name", Op::Equal, "a"), ("meta.kind", Op::Equal, "b")]);
    let s = &b.statement;
    assert!(matches!(s.what[0], Target::Table(ref t) if t == "test"));
    match s.data.as_ref().unwrap() {
        DataClause::SetExpr(fs) => {
            assert_eq!(fs.len(), 2);
            assert_eq!(parts(&fs[0].field), vec!["name"]);
            assert_eq!(fs[0].value, "a");
            assert_eq!(parts(&fs[1].field), vec!["meta", "kind"]);
        },
        other => panic!("expected a SET clause, got {:?}", other),
    }
}

#[test]
fn create_builder_with_unset_and_output() {
    let b = CreateBuilder::new()
        .what(Target::table("test"))
        .unset(vec!["a", "b.c"])
        .output(OutputClause::Diff)
        .timeout(DurationSpec { secs: 1, nanos: 0 })
        .only()
        .parallel();
    let s = &b.statement;
    match s.data.as_ref().unwrap() {
        DataClause::Unset(fs) => {
            assert_eq!(fs.len(), 2);
            assert_eq!(parts(&fs[1]), vec!["b", "c"]);
        },
        other => panic!("expected an UNSET clause, got {:?}", other),
    }
    assert!(matches!(s.output, Some(OutputClause::Diff)));
    assert!(s.only && s.parallel);
}

#[test]
fn update_builder_with_set_and_cond() {
    let b = UpdateBuilder::new()
        .what(Target::table("test"))
        .set(vec![("test", Op::Equal, "test")])
        .condition(ExtraCond::from_raw("test"));
    let s = &b.statement;
    assert!(matches!(s.what[0], Target::Table(ref t) if t == "test"));
    assert!(matches!(s.data, Some(DataClause::SetExpr(_))));
    assert_eq!(s.cond.as_ref().unwrap().0, CondValue::Raw("test".to_string()));
}

#[test]
fn update_builder() {
    let b = UpdateBuilder::new().what(Target::table("test"));
    assert!(matches!(b.statement.what[0], Target::Table(ref t) if t == "test"));
    assert!(b.statement.data.is_none());
}

#[test]
fn update_builder_with_unset_and_cond() {
    let b = UpdateBuilder::new()
        .what(Target::table("test"))
        .unset(vec!["test", "test"])
        .condition(ExtraCond::from_raw("test"));
    match b.statement.data.as_ref().unwrap() {
        DataClause::Unset(fs) => assert_eq!(fs.len(), 2),
        other => panic!("expected an UNSET clause, got {:?}", other),
    }
    assert!(b.statement.cond.is_some());
}

#[test]
fn init() {
    let create_builder = CreateBuilder::new().what(Target::table("test"));
    assert!(matches!(create_builder.statement.what[0], Target::Table(ref t) if t == "test"));
}

#[test]
fn with_set() {
    let create_builder =
        CreateBuilder::new().what(Target::table("test")).set(vec![("test", Op::Inc, "4")]);
    match create_builder.statement.data.as_ref().unwrap() {
        DataClause::SetExpr(fs) => {
            assert_eq!(fs.len(), 1);
            assert_eq!(fs[0].op, Op::Inc);
            assert_eq!(fs[0].value, "4");
        },
        other => panic!("expected a SET clause, got {:?}", other),
    }
}

#[test]
fn relate_table() {
    let relate = RelateBuilder::new().relation(
        Target::record("test", "test"),
        "test",
        Target::record("test2", "test2"),
    );
    assert_eq!(relate.statement.kind.as_deref(), Some("test"));
    assert!(
        matches!(relate.statement.from, Some(Target::Record(ref t, ref i)) if t == "test" && i == "test")
    );
    assert!(
        matches!(relate.statement.with, Some(Target::Record(ref t, ref i)) if t == "test2" && i == "test2")
    );
}

#[test]
fn relate_table_data() {
    let relate = RelateBuilder::new()
        .relation(Target::record("test", "test"), "test", Target::record("test2", "test2"))
        .set(vec![("test", Op::Equal, "test"), ("test2", Op::Equal, "test2")]);
    match relate.statement.data.as_ref().unwrap() {
        DataClause::SetExpr(fs) => assert_eq!(fs.len(), 2),
        other => panic!("expected a SET clause, got {:?}", other),
    }
}

#[test]
fn relate_table_db() {
    let relate = RelateBuilder::new().relation(
        Target::record("test", "test"),
        "test",
        Target::record("test2", "test2"),
    );
    assert_eq!(relate.statement.kind.as_deref(), Some("test"));
}

#[test]
fn relate_table_data_db() {
    let relate = RelateBuilder::new()
        .relation(Target::record("test", "test"), "test", Target::record("test2", "test2"))
        .set(vec![("test", Op::Equal, "test"), ("test2", Op::Equal, "test2")]);
    assert!(matches!(relate.statement.data, Some(DataClause::SetExpr(_))));
}

#[test]
fn select_table() {
    let select = SelectBuilder::new().what(Target::table("test"));
    assert!(matches!(select.statement.what[0], Target::Table(ref t) if t == "test"));
}

#[test]
fn select_thing() {
    let select = SelectBuilder::new().what(Target::record("test", "test"));
    assert!(
        matches!(select.statement.what[0], Target::Record(ref t, ref i) if t == "test" && i == "test")
    );
}

#[test]
fn select_all_field() {
    let select =
        SelectBuilder::new().what(Target::record("test", "test")).field(FieldSel::All);
    assert!(matches!(select.statement.expr[0], FieldSel::All));
}

#[test]
fn select_str_fields() {
    let select =
        SelectBuilder::new().what(Target::record("test", "test")).field(FieldSel::from_expr("test"));
    assert!(
        matches!(select.statement.expr[0], FieldSel::Single { ref expr, ref alias } if expr == "test" && alias.is_none())
    );
}

#[test]
fn select_string_fields() {
    let select = SelectBuilder::new()
        .what(Target::table("test"))
        .field(FieldSel::from_expr("field.test"));
    assert!(
        matches!(select.statement.expr[0], FieldSel::Single { ref expr, .. } if expr == "field.test")
    );
}

#[test]
fn select_str_alias_fields() {
    let select = SelectBuilder::new()
        .what(Target::table("test"))
        .field(FieldSel::with_alias("field.test", "test"));
    match &select.statement.expr[0] {
        FieldSel::Single { expr, alias } => {
            assert_eq!(expr, "field.test");
            assert_eq!(parts(alias.as_ref().unwrap()), vec!["test"]);
        },
        other => panic!("expected a single field, got {:?}", other),
    }
}

#[test]
fn select_string_alias_fields() {
    let select = SelectBuilder::new()
        .what(Target::table("test"))
        .field(FieldSel::with_alias("field.test", "test"));
    match &select.statement.expr[0] {
        FieldSel::Single { expr, alias } => {
            assert_eq!(expr, "field.test");
            assert!(alias.is_some());
        },
        other => panic!("expected a single field, got {:?}", other),
    }
}

#[test]
fn select_field_with_fields_type() {
    let field = FieldSel::Single { expr: "test".to_string(), alias: None };
    let select = SelectBuilder::new().what(Target::table("test")).field(field);
    assert_eq!(select.statement.expr.len(), 1);
}

#[test]
fn select_field_with_cond() {
    let field = FieldSel::Single { expr: "test".to_string(), alias: None };
    let select = SelectBuilder::new()
        .what(Target::table("test"))
        .field(field)
        .condition(ExtraCond::from_raw("test"));
    assert_eq!(
        select.statement.cond.as_ref().unwrap().0,
        CondValue::Raw("test".to_string())
    );
}

#[test]
fn relate_builder_relation_and_set() {
    let b = RelateBuilder::new()
        .relation(Target::record("user", "one"), "likes", Target::record("post", "two"))
        .set(vec![("when", Op::Equal, "now")]);
    let s = &b.statement;
    assert_eq!(s.kind.as_deref(), Some("likes"));
    assert!(matches!(s.from, Some(Target::Record(ref t, ref i)) if t == "user" && i == "one"));
    assert!(matches!(s.with, Some(Target::Record(ref t, ref i)) if t == "post" && i == "two"));
    assert!(matches!(s.data, Some(DataClause::SetExpr(_))));
}

#[test]
fn data_expressions_stand_alone() {
    let set = set_expression(vec![("a.b", Op::Inc, "1")]);
    match set {
        DataClause::SetExpr(fs) => {
            assert_eq!(parts(&fs[0].field), vec!["a", "b"]);
            assert_eq!(fs[0].op, Op::Inc);
        },
        other => panic!("expected a SET clause, got {:?}", other),
    }
    let unset = unset_expression(vec!["x"]);
    assert!(matches!(unset, DataClause::Unset(ref fs) if fs.len() == 1));
}
