use onboard_metrics::{lookup_field, Credential, JsonValue};

fn s(text: &str) -> String {
    text.to_string()
}

#[test]
fn lookup_takes_the_first_occurrence_of_a_key() {
    let fields = vec![
        (s("a"), JsonValue::UInt(1)),
        (s("b"), JsonValue::UInt(2)),
        (s("a"), JsonValue::UInt(3)),
    ];
    match lookup_field(&fields, "a") {
        Some(JsonValue::UInt(n)) => assert_eq!(*n, 1),
        _ => panic!("the first binding of a key must win"),
    }
    assert!(lookup_field(&fields, "c").is_none());
}

#[test]
fn get_reads_object_fields_only() {
    let obj = JsonValue::Object(vec![(s("k"), JsonValue::Bool(true))]);
    assert!(obj.get("k").is_some());
    assert!(obj.get("missing").is_none());
    assert!(JsonValue::Array(vec![]).get("k").is_none());
    assert!(JsonValue::Null.get("k").is_none());
}

#[test]
fn shape_accessors_reject_other_shapes() {
    assert!(JsonValue::UInt(5).as_u64() == Some(5));
    assert!(JsonValue::Str(s("x")).as_u64().is_none());
    assert!(JsonValue::Str(s("x")).as_str().is_some());
    assert!(JsonValue::UInt(5).as_str().is_none());
    assert!(JsonValue::Array(vec![]).as_array().is_some());
    assert!(JsonValue::Object(vec![]).as_array().is_none());
    assert!(JsonValue::Object(vec![]).as_object().is_some());
    assert!(JsonValue::Bool(true).is_bool(true));
    assert!(!JsonValue::Bool(true).is_bool(false));
    assert!(!JsonValue::Null.is_bool(false));
}

#[test]
fn bearer_header_prefixes_the_token() {
    let credential = Credential::present(s("tok123"));
    assert_eq!(credential.bearer().unwrap().as_str(), "Bearer tok123");
    assert!(Credential::absent().bearer().is_none());
    assert!(credential.has_token());
}
