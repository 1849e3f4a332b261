use ov_chat::json::JsonValue;

fn text(s: &str) -> JsonValue {
    JsonValue::Text(s.to_string())
}

#[test]
fn only_a_text_is_a_string() {
    assert_eq!(text("x").as_str(), Some("x"));
    assert_eq!(JsonValue::Null.as_str(), None);
    assert_eq!(JsonValue::Bool(true).as_str(), None);
    assert_eq!(JsonValue::Number("1".to_string()).as_str(), None);
    assert_eq!(JsonValue::Array(vec![text("x")]).as_str(), None);
    assert_eq!(JsonValue::Object(vec![]).as_str(), None);
}

#[test]
fn only_an_object_has_members() {
    let value = JsonValue::Object(vec![
        ("a".to_string(), text("1")),
        ("b".to_string(), JsonValue::Object(vec![("c".to_string(), text("2"))])),
        ("a".to_string(), text("3")),
    ]);
    assert_eq!(value.get("a").and_then(|v| v.as_str()), Some("1"));
    assert_eq!(value.get("b").and_then(|v| v.get("c")).and_then(|v| v.as_str()), Some("2"));
    assert!(value.get("c").is_none());
    assert!(text("a").get("a").is_none());
    assert!(JsonValue::Array(vec![text("a")]).get("a").is_none());
    assert!(JsonValue::Null.get("a").is_none());
}
