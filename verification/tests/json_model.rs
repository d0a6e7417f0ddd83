use grafana_util::json::{get_field, set_field, string_field, JsonValue};
use grafana_util::json_text::{as_i64, as_u64, json_to_text};

fn s(t: &str) -> JsonValue {
    JsonValue::Str(t.to_string())
}

fn n(t: &str) -> JsonValue {
    JsonValue::Number(t.to_string())
}

fn obj(entries: Vec<(&str, JsonValue)>) -> JsonValue {
    let mut keys = Vec::new();
    let mut values = Vec::new();
    for (k, v) in entries {
        keys.push(k.to_string());
        values.push(v);
    }
    JsonValue::Object { keys, values }
}

#[test]
fn integers_are_read_from_integer_literals_only() {
    assert_eq!(as_i64(&n("42")), Some(42));
    assert_eq!(as_i64(&n("-7")), Some(-7));
    assert_eq!(as_i64(&n("9223372036854775807")), Some(i64::MAX));
    assert_eq!(as_i64(&n("-9223372036854775808")), Some(i64::MIN));
    assert_eq!(as_i64(&n("9223372036854775808")), None);
    assert_eq!(as_i64(&n("1.5")), None);
    assert_eq!(as_i64(&n("1e3")), None);
    assert_eq!(as_i64(&n("-")), None);
    assert_eq!(as_i64(&s("42")), None);
    assert_eq!(as_u64(&n("18446744073709551615")), Some(u64::MAX));
    assert_eq!(as_u64(&n("18446744073709551616")), None);
    assert_eq!(as_u64(&n("-1")), None);
    assert_eq!(as_u64(&n("30")), Some(30));
    assert_eq!(as_u64(&JsonValue::Null), None);
}

#[test]
fn compact_text_matches_serde_json() {
    let v = obj(vec![
        ("a", JsonValue::Array(vec![n("1"), JsonValue::Bool(true), JsonValue::Null])),
        ("b", s("x\"y\\z\n\t\u{1}")),
        ("c", obj(vec![])),
    ]);
    assert_eq!(
        json_to_text(&v),
        "{\"a\":[1,true,null],\"b\":\"x\\\"y\\\\z\\n\\t\\u0001\",\"c\":{}}"
    );
    assert_eq!(json_to_text(&JsonValue::Array(vec![])), "[]");
    assert_eq!(json_to_text(&s("é\u{1f}")), "\"é\\u001f\"");
}

#[test]
fn fields_are_read_and_set_in_place() {
    let mut v = obj(vec![("uid", s(" abc ")), ("title", s("   "))]);
    assert_eq!(string_field(&v, "uid", "-"), "abc");
    assert_eq!(string_field(&v, "title", "-"), "-");
    assert_eq!(string_field(&v, "missing", "-"), "-");
    set_field(&mut v, "title".to_string(), s("CPU"));
    set_field(&mut v, "id".to_string(), JsonValue::Null);
    assert_eq!(json_to_text(&v), "{\"uid\":\" abc \",\"title\":\"CPU\",\"id\":null}");
    assert!(matches!(get_field(&v, "id"), Some(JsonValue::Null)));
    assert!(get_field(&s("x"), "id").is_none());
}
