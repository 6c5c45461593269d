use uptime_monitor::json::{JsonNumber, JsonObject, JsonValue};

fn s(x: &str) -> JsonValue {
    JsonValue::String(x.to_string())
}

#[test]
fn insert_then_get_returns_the_value() {
    let mut o = JsonObject::new();
    o.insert("a".to_string(), s("one"));
    o.insert("b".to_string(), JsonValue::Bool(true));
    assert_eq!(o.len(), 2);
    match o.get("a") {
        Some(JsonValue::String(v)) => assert_eq!(v, "one"),
        other => panic!("unexpected {:?}", other),
    }
    assert!(o.get("c").is_none());
}

#[test]
fn insert_replaces_an_existing_key() {
    let mut o = JsonObject::new();
    o.insert("a".to_string(), s("one"));
    o.insert("b".to_string(), s("two"));
    o.insert("a".to_string(), s("three"));
    assert_eq!(o.len(), 2);
    match o.get("a") {
        Some(JsonValue::String(v)) => assert_eq!(v, "three"),
        other => panic!("unexpected {:?}", other),
    }
    let (k, _) = o.entry_at(0);
    assert_eq!(k, "a");
}

#[test]
fn typed_member_access() {
    let mut o = JsonObject::new();
    o.insert("n".to_string(), JsonValue::Number(JsonNumber::PosInt(7)));
    o.insert("neg".to_string(), JsonValue::Number(JsonNumber::NegInt(-3)));
    o.insert("f".to_string(), JsonValue::Number(JsonNumber::Float(1.5f64.to_bits())));
    o.insert("t".to_string(), s("x"));
    let v = JsonValue::Object(o);
    assert_eq!(v.get_u64("n"), Some(7));
    assert_eq!(v.get_u64("neg"), None);
    assert_eq!(v.get_u64("f"), None);
    assert_eq!(v.get_u64("t"), None);
    assert_eq!(v.get_str("t"), Some("x"));
    assert_eq!(v.get_str("n"), None);
    assert!(matches!(v.get_number("f"), Some(JsonNumber::Float(b)) if b == 1.5f64.to_bits()));
    assert!(v.get_number("t").is_none());
    assert!(JsonValue::Null.get("n").is_none());
    assert!(JsonValue::Null.is_null());
    assert!(!v.is_null());
}
