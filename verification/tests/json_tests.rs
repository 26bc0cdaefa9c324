use aria_gui::json::{encode_object, JsonValue};
use aria_gui::daemon::{encode_query_request, interpret_query_reply};

fn obj(entries: Vec<(&str, JsonValue)>) -> JsonValue {
    JsonValue::Object(entries.into_iter().map(|(k, v)| (k.to_string(), v)).collect())
}

#[test]
fn reading_members_and_elements() {
    let v = obj(vec![
        ("a", JsonValue::Str("x".to_string())),
        ("b", JsonValue::Array(vec![JsonValue::Number("1".to_string()), JsonValue::Null])),
    ]);
    assert_eq!(v.str_at("a"), Some("x"));
    assert_eq!(v.str_at("b"), None);
    assert_eq!(v.str_at("zzz"), None);
    let b = v.get("b").unwrap();
    assert_eq!(b.nth(0), Some(&JsonValue::Number("1".to_string())));
    assert_eq!(b.nth(5), None);
    assert!(v.at("missing").is_none());
    assert_eq!(JsonValue::Str("s".to_string()).get("a"), None);
    assert_eq!(JsonValue::Null.as_str(), None);
}

#[test]
fn parsed_documents_keep_their_values() {
    let v = interpret_query_reply(r#"{"type":"query_budget","n":[1,2.5,-3],"s":"\u00e9","z":null,"t":true}"#).unwrap();
    assert_eq!(v.str_at("type"), Some("query_budget"));
    assert_eq!(v.str_at("s"), Some("é"));
    let n = v.get("n").unwrap();
    assert_eq!(n.nth(0), Some(&JsonValue::Number("1".to_string())));
    assert_eq!(n.nth(1), Some(&JsonValue::Number("2.5".to_string())));
    assert_eq!(n.nth(2), Some(&JsonValue::Number("-3".to_string())));
    assert_eq!(v.get("z"), Some(&JsonValue::Null));
    assert_eq!(v.get("t"), Some(&JsonValue::Bool(true)));
}

#[test]
fn objects_are_written_compactly_in_order() {
    let fs = vec![("b", "1".to_string()), ("a", "\"x\\\"y\"".to_string())];
    assert_eq!(encode_object(&fs), r#"{"b":1,"a":"x\"y"}"#);
    assert_eq!(encode_object(&vec![]), "{}");
}

#[test]
fn string_values_are_escaped_in_written_objects() {
    assert_eq!(encode_query_request("a\"b\\c\n"), r#"{"query":"a\"b\\c\n"}"#);
    assert_eq!(
        encode_query_request("\u{1}\u{1f}\u{8}\u{c}\r\t/\u{7f}é"),
        "{\"query\":\"\\u0001\\u001f\\b\\f\\r\\t/\u{7f}é\"}"
    );
    assert_eq!(encode_query_request(""), r#"{"query":""}"#);
}
