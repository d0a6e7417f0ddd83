use grafana_util::dashboard_fields::{
    cached_parent_uid_from_folder, datasource_type_from_reference, extract_query_field_and_text, string_list_field,
};
use grafana_util::json::JsonValue;

fn s(t: &str) -> JsonValue {
    JsonValue::Str(t.to_string())
}

fn obj(entries: Vec<(&str, JsonValue)>) -> JsonValue {
    let mut keys = Vec::new();
    let mut values = Vec::new();
    for (k, v) in entries {
        keys.push(k.to_string());
        values.push(v);
    }
    JsonValue::Object { keys, values }
}

#[test]
fn query_text_comes_from_the_first_filled_field() {
    let target = obj(vec![("expr", s("   ")), ("rawSql", s(" SELECT 1 ")), ("query", s("q"))]);
    assert_eq!(extract_query_field_and_text(&target), ("query".to_string(), "q".to_string()));
    let target = obj(vec![("expr", s("   ")), ("rawSql", s(" SELECT 1 "))]);
    assert_eq!(extract_query_field_and_text(&target), ("rawSql".to_string(), "SELECT 1".to_string()));
    assert_eq!(extract_query_field_and_text(&obj(vec![])), (String::new(), String::new()));
}

#[test]
fn name_lists_skip_blanks_and_non_strings() {
    let target = obj(vec![(
        "measurements",
        JsonValue::Array(vec![s(" cpu "), s(" "), JsonValue::Null, s("mem")]),
    )]);
    assert_eq!(string_list_field(&target, "measurements"), vec!["cpu".to_string(), "mem".to_string()]);
    assert!(string_list_field(&target, "buckets").is_empty());
}

#[test]
fn reference_types_and_folder_parents() {
    assert_eq!(datasource_type_from_reference(&obj(vec![("pluginId", s("loki"))])), Some("loki".to_string()));
    assert_eq!(
        datasource_type_from_reference(&obj(vec![("type", s("prometheus")), ("pluginId", s("loki"))])),
        Some("prometheus".to_string())
    );
    assert_eq!(datasource_type_from_reference(&obj(vec![("type", JsonValue::Null), ("pluginId", s("loki"))])), None);
    assert_eq!(datasource_type_from_reference(&s("prom")), None);
    let folder = obj(vec![(
        "parents",
        JsonValue::Array(vec![obj(vec![("uid", s("top"))]), obj(vec![("uid", s(" infra "))])]),
    )]);
    assert_eq!(cached_parent_uid_from_folder(&folder), Some("infra".to_string()));
    assert_eq!(cached_parent_uid_from_folder(&obj(vec![("parents", JsonValue::Array(vec![]))])), None);
}
