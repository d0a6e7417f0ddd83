use grafana_util::json::JsonValue;
use grafana_util::json_text::json_to_text;
use grafana_util::placeholders::{
    collect_panel_placeholder_datasource_paths, is_placeholder_datasource_reference,
    rewrite_prompt_panel_placeholder_paths,
};

fn s(t: &str) -> JsonValue {
    JsonValue::Str(t.to_string())
}

fn obj(entries: Vec<(&str, JsonValue)>) -> JsonValue {
    let mut keys = Vec::new();
    let mut values = Vec::new();
    for (k, v) in entries {
        keys.push(k.to_string());
        values.push(v);
    }
    JsonValue::Object { keys, values }
}

fn dashboard() -> JsonValue {
    obj(vec![
        (
            "panels",
            JsonValue::Array(vec![
                obj(vec![
                    ("datasource", s("$ds")),
                    ("targets", JsonValue::Array(vec![obj(vec![("datasource", obj(vec![("uid", s("$x"))]))])])),
                ]),
                obj(vec![("datasource", obj(vec![("uid", s("prom"))]))]),
            ]),
        ),
        ("datasource", s("$top")),
    ])
}

#[test]
fn placeholder_references_name_a_variable() {
    assert!(is_placeholder_datasource_reference(&s("$ds")));
    assert!(is_placeholder_datasource_reference(&obj(vec![("name", s("$x"))])));
    assert!(!is_placeholder_datasource_reference(&obj(vec![("uid", s("prom"))])));
    assert!(!is_placeholder_datasource_reference(&JsonValue::Null));
}

#[test]
fn panel_placeholders_are_found_and_rewritten() {
    let mut document = dashboard();
    let paths = collect_panel_placeholder_datasource_paths(&document);
    assert_eq!(
        paths,
        vec!["root.panels[0].datasource".to_string(), "root.panels[0].targets[0].datasource".to_string()]
    );
    rewrite_prompt_panel_placeholder_paths(&mut document, &paths);
    assert_eq!(
        json_to_text(&document),
        "{\"panels\":[{\"datasource\":{\"uid\":\"$datasource\"},\"targets\":[{\"datasource\":{\"uid\":\"$datasource\"}}]},{\"datasource\":{\"uid\":\"prom\"}}],\"datasource\":\"$top\"}"
    );
    let mut untouched = dashboard();
    rewrite_prompt_panel_placeholder_paths(&mut untouched, &Vec::new());
    assert_eq!(json_to_text(&untouched), json_to_text(&dashboard()));
}
