use grafana_util::dependencies::build_dashboard_dependency_rows;
use grafana_util::edges::build_dashboard_datasource_edge_rows;
use grafana_util::governance::{governance_risk_spec, normalize_family_list, normalize_family_name};
use grafana_util::governance_doc::build_export_inspection_governance_document;
use grafana_util::report::{build_query_report, ExportInspectionQueryReport, ExportInspectionQueryRow};
use grafana_util::risks::build_governance_risk_rows;
use grafana_util::summary::{DatasourceInventorySummary, ExportInspectionSummary, MixedDashboardSummary};

fn strings(v: &[&str]) -> Vec<String> {
    v.iter().map(|s| s.to_string()).collect()
}

fn inventory(uid: &str, name: &str, kind: &str, refs: usize, dashboards: usize) -> DatasourceInventorySummary {
    DatasourceInventorySummary {
        uid: uid.to_string(),
        name: name.to_string(),
        datasource_type: kind.to_string(),
        access: "proxy".to_string(),
        url: "http://example".to_string(),
        is_default: "false".to_string(),
        org: "Main Org.".to_string(),
        org_id: "1".to_string(),
        reference_count: refs,
        dashboard_count: dashboards,
    }
}

fn summary() -> ExportInspectionSummary {
    ExportInspectionSummary {
        import_dir: "dashboards/raw".to_string(),
        dashboard_count: 1,
        folder_count: 1,
        panel_count: 2,
        query_count: 2,
        datasource_inventory_count: 3,
        mixed_dashboard_count: 1,
        folder_paths: Vec::new(),
        datasource_usage: Vec::new(),
        datasource_inventory: vec![
            inventory("prom-main", "Prom", "prometheus", 1, 1),
            inventory("logs-main", "Logs", "loki", 1, 1),
            inventory("old", "Old", "mysql", 0, 0),
        ],
        mixed_dashboards: vec![MixedDashboardSummary {
            uid: "mix".to_string(),
            title: "Mixed".to_string(),
            folder_path: "Infra".to_string(),
            datasource_count: 2,
            datasources: strings(&["Prom", "Logs"]),
        }],
    }
}

fn row(panel: &str, ds: &str, ds_uid: &str, kind: &str, text: &str, metrics: &[&str]) -> ExportInspectionQueryRow {
    ExportInspectionQueryRow {
        dashboard_uid: "mix".to_string(),
        dashboard_title: "Mixed".to_string(),
        folder_path: "Infra".to_string(),
        file_path: "raw/mix.json".to_string(),
        panel_id: panel.to_string(),
        panel_title: format!("Panel {panel}"),
        panel_type: "timeseries".to_string(),
        ref_id: "A".to_string(),
        datasource: ds.to_string(),
        datasource_uid: ds_uid.to_string(),
        datasource_type: kind.to_string(),
        datasource_family: kind.to_string(),
        query_field: "expr".to_string(),
        query_text: text.to_string(),
        metrics: strings(metrics),
        functions: Vec::new(),
        measurements: Vec::new(),
        buckets: Vec::new(),
    }
}

fn report() -> ExportInspectionQueryReport {
    build_query_report(
        "dashboards/raw".to_string(),
        1,
        2,
        2,
        vec![
            row("1", "Prom", "prom-main", "prometheus", "up", &["up"]),
            row("2", "Logs", "logs-main", "loki", "{job=~\".*\"} |= \"x\"", &[]),
        ],
    )
}

#[test]
fn families_are_normalized_for_governance() {
    assert_eq!(normalize_family_name("grafana-postgresql-datasource"), "sql");
    assert_eq!(normalize_family_name(" InfluxDB "), "flux");
    assert_eq!(normalize_family_name("tempo"), "tracing");
    assert_eq!(normalize_family_name("custom-datasource"), "custom");
    assert_eq!(normalize_family_name(""), "unknown");
    assert_eq!(normalize_family_list(&strings(&["mysql", "postgres", "loki"])), strings(&["sql", "loki"]));
    assert_eq!(
        governance_risk_spec("broad-loki-selector"),
        (
            "cost".to_string(),
            "medium".to_string(),
            "Narrow the Loki stream selector before running expensive line filters or aggregations.".to_string()
        )
    );
    assert_eq!(governance_risk_spec("anything").0, "other");
}

#[test]
fn risks_are_found_and_sorted_by_severity_then_kind() {
    let risks = build_governance_risk_rows(&summary(), &report());
    let kinds: Vec<&str> = risks.iter().map(|r| r.kind.as_str()).collect();
    assert_eq!(
        kinds,
        vec!["empty-query-analysis", "orphaned-datasource", "broad-loki-selector", "mixed-datasource-dashboard"]
    );
    assert_eq!(risks[0].datasource, "Logs");
    assert_eq!(risks[0].detail, "expr");
    assert_eq!(risks[1].datasource, "old");
    assert_eq!(risks[1].detail, "mysql");
    assert_eq!(risks[2].detail, "{job=~\".*\"}");
    assert_eq!(risks[2].panel_id, "2");
    assert_eq!(risks[3].datasource, "Prom,Logs");
    assert_eq!(risks[3].detail, "Mixed");
    assert_eq!(risks[3].category, "topology");
}

#[test]
fn governance_document_counts_its_views() {
    let document = build_export_inspection_governance_document(&summary(), &report());
    assert_eq!(document.summary.dashboard_count, 1);
    assert_eq!(document.summary.query_record_count, 2);
    assert_eq!(document.summary.datasource_inventory_count, 3);
    assert_eq!(document.summary.mixed_datasource_dashboard_count, 1);
    assert_eq!(document.summary.orphaned_datasource_count, 1);
    assert_eq!(document.summary.risk_record_count, 4);
    assert_eq!(document.summary.dashboard_datasource_edge_count, document.dashboard_datasource_edges.len());
    assert_eq!(document.risk_records.len(), 4);
    let dependencies = build_dashboard_dependency_rows(&report());
    assert_eq!(dependencies.len(), 1);
    assert_eq!(dependencies[0].panel_count, 2);
    assert_eq!(dependencies[0].query_count, 2);
    let edges = build_dashboard_datasource_edge_rows(&summary(), &report());
    assert_eq!(edges.len(), 2);
    assert_eq!(edges[0].datasource_uid, "logs-main");
    assert_eq!(edges[1].datasource_uid, "prom-main");
    assert_eq!(edges[1].metrics, strings(&["up"]));
}
