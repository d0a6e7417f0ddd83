use grafana_util::import_flow::ensure_not_combined_export_root;
use grafana_util::import::{
    build_export_variant_dirs, build_import_payload, build_preserved_web_import_document,
};
use grafana_util::json::{get_field, JsonValue};

fn s(v: &str) -> String {
    v.to_string()
}

fn str_value(v: &str) -> JsonValue {
    JsonValue::Str(v.to_string())
}

fn object(entries: Vec<(&str, JsonValue)>) -> JsonValue {
    let mut keys = Vec::new();
    let mut values = Vec::new();
    for (k, v) in entries {
        keys.push(k.to_string());
        values.push(v);
    }
    JsonValue::Object { keys, values }
}

fn field<'a>(v: &'a JsonValue, key: &str) -> &'a JsonValue {
    get_field(v, key).expect("field present")
}

fn is_null(v: &JsonValue) -> bool {
    matches!(v, JsonValue::Null)
}

fn as_str(v: &JsonValue) -> &str {
    match v {
        JsonValue::Str(s) => s.as_str(),
        _ => panic!("not a string"),
    }
}

#[test]
fn build_export_variant_dirs_returns_raw_and_prompt_dirs() {
    let (raw_dir, prompt_dir) = build_export_variant_dirs("dashboards");

    assert_eq!(raw_dir, s("dashboards/raw"));
    assert_eq!(prompt_dir, s("dashboards/prompt"));
}

#[test]
fn build_import_payload_accepts_wrapped_document() {
    let document = object(vec![
        (
            "dashboard",
            object(vec![
                ("id", JsonValue::Number(s("7"))),
                ("uid", str_value("abc")),
                ("title", str_value("CPU")),
            ]),
        ),
        ("meta", object(vec![("folderUid", str_value("old-folder"))])),
    ]);
    let payload = build_import_payload(&document, Some("new-folder"), true, "sync dashboards").unwrap();

    assert!(is_null(field(field(&payload, "dashboard"), "id")));
    assert_eq!(as_str(field(&payload, "folderUid")), "new-folder");
    assert!(matches!(field(&payload, "overwrite"), JsonValue::Bool(true)));
    assert_eq!(as_str(field(&payload, "message")), "sync dashboards");
}

#[test]
fn build_preserved_web_import_document_clears_numeric_id() {
    let document = build_preserved_web_import_document(&object(vec![(
        "dashboard",
        object(vec![
            ("id", JsonValue::Number(s("7"))),
            ("uid", str_value("abc")),
            ("title", str_value("CPU")),
        ]),
    )]))
    .unwrap();

    assert!(is_null(field(&document, "id")));
    assert_eq!(as_str(field(&document, "uid")), "abc");
}

#[test]
fn discover_dashboard_files_rejects_combined_export_root() {
    let error = ensure_not_combined_export_root("/tmp/export", true, true).unwrap_err();
    assert!(error.contains("combined export root"));
    assert!(ensure_not_combined_export_root("/tmp/export", true, false).is_ok());
    assert!(ensure_not_combined_export_root("/tmp/export/raw", false, false).is_ok());
}
