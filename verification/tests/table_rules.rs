use surrealdb_extra::table_schema::{
    check_table_name, get_attr_value, get_field_names, get_kind_or_default,
    get_strict_table_name, get_table_name, AttrEntry, AttrMeta, DataModel, LitValue, SchemaError,
};

fn table_name_attrs(name: &str) -> Vec<AttrEntry> {
    vec![AttrEntry {
        path: "table".to_string(),
        args: vec![AttrMeta::NameValue(
            "name".to_string(),
            LitValue::Str(name.to_string()),
        )],
    }]
}

#[test]
fn lib_table_derive_init() {
    let attrs = table_name_attrs("test_test");
    assert_eq!("test_test", get_table_name(&attrs).unwrap());
}

#[test]
fn table_derive_init() {
    let attrs = table_name_attrs("test_test");
    assert_eq!("test_test", get_strict_table_name(&attrs).unwrap());
}

#[test]
fn table_table_derive_init() {
    let attrs = table_name_attrs("test_test");
    println!("{:#?}", get_strict_table_name(&attrs).unwrap());
}

#[test]
fn attr_value_found() {
    let attrs = vec![
        AttrEntry { path: "other".to_string(), args: vec![] },
        AttrEntry {
            path: "table".to_string(),
            args: vec![
                AttrMeta::Other,
                AttrMeta::NameValue("name".to_string(), LitValue::Str("users".to_string())),
            ],
        },
    ];
    assert_eq!(get_attr_value(&attrs, "table", "name").unwrap(), Some("users".to_string()));
}

#[test]
fn attr_value_absent() {
    let attrs = vec![AttrEntry { path: "other".to_string(), args: vec![] }];
    assert_eq!(get_attr_value(&attrs, "table", "name").unwrap(), None);
}

#[test]
fn attr_value_not_a_string_literal() {
    let attrs = vec![AttrEntry {
        path: "table".to_string(),
        args: vec![AttrMeta::NameValue("name".to_string(), LitValue::Other)],
    }];
    assert_eq!(
        get_attr_value(&attrs, "table", "name").unwrap_err(),
        SchemaError::ExpectedStringLiteral
    );
}

#[test]
fn attr_value_searches_later_attributes() {
    let attrs = vec![
        AttrEntry {
            path: "table".to_string(),
            args: vec![AttrMeta::NameValue("other".to_string(), LitValue::Other)],
        },
        AttrEntry {
            path: "table".to_string(),
            args: vec![AttrMeta::NameValue("name".to_string(), LitValue::Str("t".to_string()))],
        },
    ];
    assert_eq!(get_attr_value(&attrs, "table", "name").unwrap(), Some("t".to_string()));
}

#[test]
fn table_name_missing() {
    let attrs: Vec<AttrEntry> = vec![];
    assert_eq!(get_table_name(&attrs).unwrap_err(), SchemaError::MissingTableName);
}

#[test]
fn kind_defaults_to_object() {
    let attrs: Vec<AttrEntry> = vec![];
    assert_eq!(get_kind_or_default(&attrs), "Object");
}

#[test]
fn kind_reads_attribute() {
    let attrs = vec![AttrEntry {
        path: "surreal_value_json".to_string(),
        args: vec![AttrMeta::NameValue("kind".to_string(), LitValue::Str("Int".to_string()))],
    }];
    assert_eq!(get_kind_or_default(&attrs), "Int");
}

#[test]
fn strict_name_rejects_leading_digit() {
    assert_eq!(check_table_name("1abc").unwrap_err(), SchemaError::FirstCharNotAlphabetic);
}

#[test]
fn strict_name_rejects_whitespace() {
    assert_eq!(check_table_name("a b").unwrap_err(), SchemaError::HasWhitespace);
}

#[test]
fn strict_name_rejects_punctuation() {
    assert_eq!(check_table_name("a-b").unwrap_err(), SchemaError::InvalidCharacter);
}

#[test]
fn strict_name_rejects_empty() {
    assert_eq!(check_table_name("").unwrap_err(), SchemaError::EmptyName);
}

#[test]
fn strict_name_accepts_underscores_and_digits() {
    assert_eq!(check_table_name("test_test2"), Ok(()));
}

#[test]
fn strict_table_name_without_attribute() {
    let attrs: Vec<AttrEntry> = vec![];
    assert_eq!(get_strict_table_name(&attrs).unwrap_err(), SchemaError::NoTableAttribute);
}

#[test]
fn strict_table_name_wrong_key() {
    let attrs = vec![AttrEntry {
        path: "table".to_string(),
        args: vec![AttrMeta::NameValue("label".to_string(), LitValue::Str("t".to_string()))],
    }];
    assert_eq!(get_strict_table_name(&attrs).unwrap_err(), SchemaError::NameKeyMismatch);
}

#[test]
fn strict_table_name_not_name_value() {
    let attrs = vec![AttrEntry { path: "table".to_string(), args: vec![AttrMeta::Other] }];
    assert_eq!(get_strict_table_name(&attrs).unwrap_err(), SchemaError::NotNameValue);
}

#[test]
fn strict_table_name_checks_the_name() {
    let attrs = table_name_attrs("bad name");
    assert_eq!(get_strict_table_name(&attrs).unwrap_err(), SchemaError::HasWhitespace);
}

#[test]
fn field_names_join() {
    let data = DataModel::NamedStruct(vec!["id".to_string(), "name".to_string()]);
    assert_eq!(get_field_names(&data).unwrap(), "id,name");
}

#[test]
fn field_names_single() {
    let data = DataModel::NamedStruct(vec!["id".to_string()]);
    assert_eq!(get_field_names(&data).unwrap(), "id");
}

#[test]
fn field_names_reject_non_structs() {
    assert_eq!(get_field_names(&DataModel::NotStruct).unwrap_err(), SchemaError::NotAStruct);
    assert_eq!(get_field_names(&DataModel::UnnamedStruct).unwrap_err(), SchemaError::NotAStruct);
}
