use plec_query_core::builder::compact::{child_op_items, parse_compact_fields, Field, JsonValue};
use plec_query_core::types::JsonNumber;

fn s(text: &str) -> JsonValue {
    JsonValue::Str(text.to_string())
}

#[test]
fn compact_fields_read_in_order_until_a_missing_field() {
    let (tag, fields, refused) = parse_compact_fields(vec![s("fta"), s("users")]).unwrap();
    assert_eq!(tag, "fta");
    assert_eq!(fields.len(), 1);
    assert!(matches!(&fields[0], Field::Str(t) if t == "users"));
    assert_eq!(refused, Some("Missing alias for compact op 'fta'".to_string()));
}

#[test]
fn compact_fields_report_trailing_items_after_every_field() {
    let (tag, fields, refused) =
        parse_compact_fields(vec![s("w"), JsonValue::Null, s("extra")]).unwrap();
    assert_eq!(tag, "w");
    assert_eq!(fields.len(), 1);
    assert!(matches!(&fields[0], Field::Raw(JsonValue::Null)));
    assert_eq!(refused, Some("Compact op 'w' had trailing fields".to_string()));
}

#[test]
fn compact_fields_of_a_complete_operation_have_no_refusal() {
    let (tag, fields, refused) = parse_compact_fields(vec![s("fta"), s("users"), s("u")]).unwrap();
    assert_eq!(tag, "fta");
    assert_eq!(fields.len(), 2);
    assert!(matches!(&fields[1], Field::Str(a) if a == "u"));
    assert_eq!(refused, None);
}

#[test]
fn compact_fields_stop_at_the_first_malformed_plain_field() {
    let (_, fields, refused) =
        parse_compact_fields(vec![s("fta"), JsonValue::Bool(true), s("u")]).unwrap();
    assert_eq!(fields.len(), 0);
    assert_eq!(
        refused,
        Some("Invalid table for compact op 'fta': expected string, got true".to_string())
    );
}

#[test]
fn compact_operation_tags_are_checked_first() {
    assert_eq!(parse_compact_fields(vec![]).err(), Some("Compact op cannot be empty".to_string()));
    assert_eq!(
        parse_compact_fields(vec![JsonValue::Number(JsonNumber::PosInt(1))]).err(),
        Some("Compact op tag must be a string".to_string())
    );
    assert_eq!(
        parse_compact_fields(vec![s("zz")]).err(),
        Some("Unknown compact builder op tag 'zz'".to_string())
    );
}

#[test]
fn inline_child_operations_must_be_arrays() {
    assert_eq!(
        child_op_items("uni", 2, JsonValue::Null).err(),
        Some("Inline child op 2 for 'uni' must be an array".to_string())
    );
    let items = child_op_items("uni", 0, JsonValue::Array(vec![s("d")])).unwrap();
    assert_eq!(items.len(), 1);
    assert!(matches!(&items[0], JsonValue::Str(t) if t == "d"));
}

#[test]
fn inline_child_lists_keep_their_items_unread() {
    let (_, fields, refused) = parse_compact_fields(vec![
        s("uni"),
        s("h1"),
        JsonValue::Array(vec![JsonValue::Null, JsonValue::Array(vec![s("d")])]),
    ])
    .unwrap();
    assert_eq!(refused, None);
    assert!(matches!(&fields[1], Field::Ops(children) if children.len() == 2));
}
