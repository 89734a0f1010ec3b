use termux_gui::json::{field, request, JsonValue};

fn s(text: &str) -> JsonValue {
    JsonValue::Str(text.to_string())
}

#[test]
fn get_finds_first_field_with_key() {
    let v = JsonValue::Object(vec![
        ("a".to_string(), JsonValue::Int(1)),
        ("b".to_string(), JsonValue::Int(2)),
        ("a".to_string(), JsonValue::Int(3)),
    ]);
    assert_eq!(v.get("a"), Some(&JsonValue::Int(1)));
    assert_eq!(v.get("b"), Some(&JsonValue::Int(2)));
    assert_eq!(v.get("c"), None);
    assert_eq!(JsonValue::Int(4).get("a"), None);
}

#[test]
fn at_reads_array_elements() {
    let v = JsonValue::Array(vec![JsonValue::Int(10), s("x")]);
    assert_eq!(v.at(0), Some(&JsonValue::Int(10)));
    assert_eq!(v.at(1), Some(&s("x")));
    assert_eq!(v.at(2), None);
    assert_eq!(JsonValue::Null.at(0), None);
}

#[test]
fn scalar_readers() {
    assert_eq!(JsonValue::Int(-7).as_i64(), Some(-7));
    assert_eq!(JsonValue::Num("1.5".to_string()).as_i64(), None);
    assert_eq!(s("7").as_i64(), None);
    assert_eq!(JsonValue::Bool(true).as_bool(), Some(true));
    assert_eq!(JsonValue::Null.as_bool(), None);
    assert_eq!(s("hi").as_str(), Some("hi"));
    assert_eq!(JsonValue::Int(1).as_str(), None);
}

#[test]
fn string_list_builds_array_of_strings() {
    assert_eq!(JsonValue::string_list(&["a", "b"]), JsonValue::Array(vec![s("a"), s("b")]));
    assert_eq!(JsonValue::string_list(&[]), JsonValue::Array(vec![]));
}

#[test]
fn request_builds_envelope() {
    let r = request("ping", vec![field("k", JsonValue::Int(1))]);
    assert_eq!(
        r,
        JsonValue::Object(vec![
            ("method".to_string(), s("ping")),
            ("params".to_string(), JsonValue::Object(vec![("k".to_string(), JsonValue::Int(1))])),
        ])
    );
}
