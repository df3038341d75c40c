use seat_agent::agent::tool_arguments;
use seat_agent::error::AgentError;
use seat_agent::fields::JsonFields;
use serde_json::Value;

#[test]
fn json_fields_keep_only_strings() {
    let v: Value =
        serde_json::from_str(r#"{"a": "x", "b": 2, "c": null, "d": "y", "e": {"f": "g"}}"#).unwrap();
    let f = JsonFields::from_json(&v);
    let keys: Vec<&str> = f.entries.iter().map(|(k, _)| k.as_str()).collect();
    assert_eq!(keys, vec!["a", "d"]);
    assert_eq!(f.get_str("a").as_deref(), Some("x"));
    assert_eq!(f.get_str("b"), None);
    assert_eq!(f.get_or("e", "none"), "none");
}

#[test]
fn non_object_has_no_fields() {
    let v: Value = serde_json::from_str(r#"["a", "b"]"#).unwrap();
    assert!(JsonFields::from_json(&v).entries.is_empty());
    let s: Value = serde_json::from_str(r#""text""#).unwrap();
    assert!(JsonFields::from_json(&s).entries.is_empty());
}

#[test]
fn record_of_null_is_none_and_object_is_some() {
    assert!(JsonFields::record_of(&Value::Null).is_none());
    let v: Value = serde_json::from_str(r#"{"k": "v"}"#).unwrap();
    let r = JsonFields::record_of(&v).unwrap();
    assert_eq!(r.get_str("k").as_deref(), Some("v"));
}

#[test]
fn from_entries_keeps_order_of_strings() {
    let es = vec![
        ("z".to_string(), Value::String("1".into())),
        ("a".to_string(), Value::Bool(true)),
        ("m".to_string(), Value::String("2".into())),
    ];
    let f = JsonFields::from_entries(es);
    assert_eq!(
        f.entries,
        vec![("z".to_string(), "1".to_string()), ("m".to_string(), "2".to_string())]
    );
}

#[test]
fn insert_then_get_reads_first_match() {
    let mut f = JsonFields::new();
    f.insert("k".into(), "first".into());
    f.insert("k".into(), "second".into());
    assert_eq!(f.get_str("k").as_deref(), Some("first"));
}

#[test]
fn tool_arguments_reject_invalid_json() {
    let r = tool_arguments("not json");
    match r {
        Err(AgentError::Serialization(_)) => {}
        _ => panic!("expected a serialization error"),
    }
}

#[test]
fn tool_arguments_read_object_fields() {
    let f = JsonFields::from_json(&tool_arguments(r#"{"order_id": "ORD-1001"}"#).unwrap());
    assert_eq!(f.get_str("order_id").as_deref(), Some("ORD-1001"));
}
