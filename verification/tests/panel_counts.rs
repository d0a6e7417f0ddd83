use grafana_util::json::JsonValue;
use grafana_util::panel_stats::{collect_panel_stats, count_dashboard_panels_and_queries};

fn obj(entries: Vec<(&str, JsonValue)>) -> JsonValue {
    let mut keys = Vec::new();
    let mut values = Vec::new();
    for (k, v) in entries {
        keys.push(k.to_string());
        values.push(v);
    }
    JsonValue::Object { keys, values }
}

fn targets(n: usize) -> JsonValue {
    JsonValue::Array((0..n).map(|_| obj(vec![])).collect())
}

#[test]
fn panels_and_targets_are_counted_through_rows() {
    let row = obj(vec![
        ("type", JsonValue::Str("row".to_string())),
        (
            "panels",
            JsonValue::Array(vec![
                obj(vec![("targets", targets(2))]),
                JsonValue::Null,
                obj(vec![("targets", targets(1)), ("panels", JsonValue::Array(vec![obj(vec![("targets", targets(3))])]))]),
            ]),
        ),
    ]);
    assert_eq!(collect_panel_stats(&row), (4, 6));
    let dashboard = obj(vec![("panels", JsonValue::Array(vec![obj(vec![("targets", targets(1))]), row]))]);
    assert_eq!(count_dashboard_panels_and_queries(&dashboard), (5, 7));
    assert_eq!(count_dashboard_panels_and_queries(&obj(vec![])), (0, 0));
    assert_eq!(collect_panel_stats(&obj(vec![("targets", JsonValue::Str("x".to_string()))])), (1, 0));
}
