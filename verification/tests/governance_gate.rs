use grafana_util::governance_gate::{
    evaluate_dashboard_governance_gate, parse_query_threshold_policy, render_dashboard_governance_gate_result,
};
use grafana_util::json::JsonValue;
use grafana_util::json_text::json_to_text;

fn s(t: &str) -> JsonValue {
    JsonValue::Str(t.to_string())
}

fn n(t: &str) -> JsonValue {
    JsonValue::Number(t.to_string())
}

fn arr(items: Vec<JsonValue>) -> JsonValue {
    JsonValue::Array(items)
}

fn obj(entries: Vec<(&str, JsonValue)>) -> JsonValue {
    let mut keys = Vec::new();
    let mut values = Vec::new();
    for (k, v) in entries {
        keys.push(k.to_string());
        values.push(v);
    }
    JsonValue::Object { keys, values }
}

fn query(uid: &str, title: &str, panel: &str, panel_title: &str, ref_id: &str, ds: &str, ds_uid: &str, family: &str) -> JsonValue {
    obj(vec![
        ("dashboardUid", s(uid)),
        ("dashboardTitle", s(title)),
        ("panelId", s(panel)),
        ("panelTitle", s(panel_title)),
        ("refId", s(ref_id)),
        ("datasource", s(ds)),
        ("datasourceUid", s(ds_uid)),
        ("datasourceFamily", s(family)),
    ])
}

fn strict_policy() -> JsonValue {
    obj(vec![
        ("version", n("1")),
        (
            "datasources",
            obj(vec![
                ("allowedFamilies", arr(vec![s(" prometheus "), s("loki"), s(""), n("3")])),
                ("allowedUids", arr(vec![s("prom-main")])),
                ("forbidUnknown", JsonValue::Bool(true)),
                ("forbidMixedFamilies", JsonValue::Bool(true)),
            ]),
        ),
        ("queries", obj(vec![("maxQueriesPerDashboard", n("2")), ("maxQueriesPerPanel", n("1"))])),
        ("enforcement", obj(vec![("failOnWarnings", JsonValue::Bool(false))])),
    ])
}

fn query_report() -> JsonValue {
    obj(vec![
        ("summary", obj(vec![("dashboardCount", n("2")), ("reportRowCount", n("4"))])),
        (
            "queries",
            arr(vec![
                query("b-dash", "B", "1", "P1", "A", "Prom", "prom-main", "prometheus"),
                query("a-dash", "A", "2", "P2", "A", "", "other", "Unknown"),
                query("b-dash", "B", "1", "P1", "B", "Prom", "prom-main", "prometheus"),
                query("b-dash", "B2", "3", "P3", "C", "Graphite", "", "graphite"),
            ]),
        ),
    ])
}

fn governance_report() -> JsonValue {
    obj(vec![
        (
            "dashboardGovernance",
            arr(vec![
                obj(vec![
                    ("dashboardUid", s("b-dash")),
                    ("dashboardTitle", s("B")),
                    ("mixedDatasource", JsonValue::Bool(true)),
                    ("datasourceFamilies", arr(vec![s("prometheus"), s("graphite")])),
                ]),
                obj(vec![("dashboardUid", s("a-dash")), ("mixedDatasource", JsonValue::Bool(false))]),
            ]),
        ),
        (
            "riskRecords",
            arr(vec![
                obj(vec![
                    ("kind", s("broad-loki-selector")),
                    ("dashboardUid", s("b-dash")),
                    ("panelId", s("1")),
                    ("datasource", s("Prom")),
                    ("recommendation", s("  ")),
                    ("detail", s("too broad")),
                ]),
                obj(vec![("kind", s("x")), ("recommendation", s("Fix it"))]),
            ]),
        ),
    ])
}

#[test]
fn policy_allow_lists_are_trimmed_sorted_and_deduplicated() {
    let policy = parse_query_threshold_policy(&strict_policy()).unwrap();
    assert_eq!(policy.allowed_families, vec!["loki".to_string(), "prometheus".to_string()]);
    assert_eq!(policy.allowed_uids, vec!["prom-main".to_string()]);
    assert!(policy.forbid_unknown);
    assert!(policy.forbid_mixed_families);
    assert_eq!(policy.max_queries_per_dashboard, Some(2));
    assert_eq!(policy.max_queries_per_panel, Some(1));
    assert!(!policy.fail_on_warnings);
}

#[test]
fn policy_errors_name_the_offending_value() {
    let err = |p: JsonValue| parse_query_threshold_policy(&p).unwrap_err();
    assert_eq!(err(arr(vec![])), "Governance policy JSON must be an object.");
    assert_eq!(
        err(obj(vec![("version", n("2"))])),
        "Governance policy version is not supported. Expected version 1."
    );
    assert_eq!(
        err(obj(vec![("version", s("1"))])),
        "Governance policy version is not supported. Expected version 1."
    );
    assert_eq!(
        err(obj(vec![("datasources", obj(vec![("allowedFamilies", s("x"))]))])),
        "Expected an array of strings in governance policy, got \"x\"."
    );
    assert_eq!(
        err(obj(vec![("queries", obj(vec![("maxQueriesPerPanel", n("-1"))]))])),
        "Expected a non-negative integer in governance policy."
    );
    assert_eq!(
        err(obj(vec![("queries", obj(vec![("maxQueriesPerPanel", s("3"))]))])),
        "Expected a non-negative integer in governance policy, got \"3\"."
    );
    assert_eq!(
        err(obj(vec![("datasources", obj(vec![("forbidUnknown", n("1"))]))])),
        "Expected a boolean in governance policy, got 1."
    );
}

#[test]
fn gate_reports_row_dashboard_panel_and_mixed_violations() {
    let result = evaluate_dashboard_governance_gate(&strict_policy(), &governance_report(), &query_report()).unwrap();
    assert!(!result.ok);
    assert_eq!(result.summary.dashboard_count, 2);
    assert_eq!(result.summary.query_record_count, 4);
    assert_eq!(result.summary.violation_count, 7);
    assert_eq!(result.summary.warning_count, 2);
    let codes: Vec<&str> = result.violations.iter().map(|f| f.code.as_str()).collect();
    assert_eq!(
        codes,
        vec![
            "datasource-unknown",
            "datasource-family-not-allowed",
            "datasource-uid-not-allowed",
            "datasource-family-not-allowed",
            "max-queries-per-dashboard",
            "max-queries-per-panel",
            "mixed-datasource-families-not-allowed",
        ]
    );
    assert_eq!(result.violations[4].dashboard_title, "B");
    assert_eq!(result.violations[5].panel_title, "P1");
    assert_eq!(result.warnings[0].message, "too broad");
    assert_eq!(result.warnings[0].severity, "warning");
    assert_eq!(result.warnings[1].message, "Fix it");
    assert_eq!(
        json_to_text(&result.summary.checked_rules),
        "{\"datasourceAllowedFamilies\":[\"loki\",\"prometheus\"],\"datasourceAllowedUids\":[\"prom-main\"],\"failOnWarnings\":false,\"forbidMixedFamilies\":true,\"forbidUnknown\":true,\"maxQueriesPerDashboard\":2,\"maxQueriesPerPanel\":1}"
    );
    let text = render_dashboard_governance_gate_result(&result);
    let expected = [
        "Dashboard governance gate: FAIL",
        "Dashboards: 2  Queries: 4  Violations: 7  Warnings: 2",
        "",
        "Violations:",
        "  ERROR [datasource-unknown] dashboard=a-dash panel=2 datasource=other: Datasource identity could not be resolved for this query row.",
        "  ERROR [datasource-family-not-allowed] dashboard=a-dash panel=2 datasource=other: Datasource family Unknown is not allowed by policy.",
        "  ERROR [datasource-uid-not-allowed] dashboard=a-dash panel=2 datasource=other: Datasource uid other is not allowed by policy.",
        "  ERROR [datasource-family-not-allowed] dashboard=b-dash panel=3 datasource=-: Datasource family graphite is not allowed by policy.",
        "  ERROR [max-queries-per-dashboard] dashboard=b-dash panel=- datasource=-: Dashboard query count 3 exceeds policy maxQueriesPerDashboard=2.",
        "  ERROR [max-queries-per-panel] dashboard=b-dash panel=1 datasource=-: Panel query count 2 exceeds policy maxQueriesPerPanel=1.",
        "  ERROR [mixed-datasource-families-not-allowed] dashboard=b-dash panel=- datasource=-: Dashboard uses mixed datasource families: prometheus,graphite.",
        "",
        "Warnings:",
        "  WARN [broad-loki-selector] dashboard=b-dash panel=1 datasource=Prom: too broad",
        "  WARN [x] dashboard=- panel=- datasource=-: Fix it",
    ]
    .join("\n");
    assert_eq!(text, expected);
}

#[test]
fn empty_policy_passes_whatever_the_warnings() {
    let result = evaluate_dashboard_governance_gate(&obj(vec![]), &governance_report(), &query_report()).unwrap();
    assert!(result.ok);
    assert!(result.violations.is_empty());
    assert_eq!(result.warnings.len(), 2);
    assert_eq!(
        render_dashboard_governance_gate_result(&result).lines().next(),
        Some("Dashboard governance gate: PASS")
    );
}

#[test]
fn fail_on_warnings_turns_warnings_into_failure() {
    let policy = obj(vec![("enforcement", obj(vec![("failOnWarnings", JsonValue::Bool(true))]))]);
    let result = evaluate_dashboard_governance_gate(&policy, &governance_report(), &query_report()).unwrap();
    assert!(!result.ok);
    assert!(result.violations.is_empty());
    let quiet = obj(vec![("riskRecords", arr(vec![]))]);
    let result = evaluate_dashboard_governance_gate(&policy, &quiet, &query_report()).unwrap();
    assert!(result.ok);
}

#[test]
fn gate_refuses_reports_without_their_lists() {
    let no_queries = obj(vec![("summary", obj(vec![]))]);
    assert_eq!(
        evaluate_dashboard_governance_gate(&obj(vec![]), &governance_report(), &no_queries).unwrap_err(),
        "Dashboard query report JSON must contain a queries array."
    );
    let no_dashboards = obj(vec![("riskRecords", arr(vec![]))]);
    assert_eq!(
        evaluate_dashboard_governance_gate(&strict_policy(), &no_dashboards, &query_report()).unwrap_err(),
        "Dashboard governance JSON must contain a dashboardGovernance array."
    );
    let no_risks = obj(vec![("dashboardGovernance", arr(vec![]))]);
    assert_eq!(
        evaluate_dashboard_governance_gate(&obj(vec![]), &no_risks, &query_report()).unwrap_err(),
        "Dashboard governance JSON must contain a riskRecords array."
    );
}

#[test]
fn record_count_prefers_query_record_count_then_row_count() {
    let report = obj(vec![
        ("summary", obj(vec![("queryRecordCount", n("9")), ("reportRowCount", n("4"))])),
        ("queries", arr(vec![])),
    ]);
    let quiet = obj(vec![("riskRecords", arr(vec![]))]);
    let result = evaluate_dashboard_governance_gate(&obj(vec![]), &quiet, &report).unwrap();
    assert_eq!(result.summary.query_record_count, 9);
    assert_eq!(result.summary.dashboard_count, 0);
    let bare = obj(vec![("queries", arr(vec![query("a", "A", "1", "P", "A", "d", "u", "f")]))]);
    let result = evaluate_dashboard_governance_gate(&obj(vec![]), &quiet, &bare).unwrap();
    assert_eq!(result.summary.query_record_count, 1);
}
