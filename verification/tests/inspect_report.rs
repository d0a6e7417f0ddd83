use grafana_util::cli_defs::InspectExportReportFormat;
use grafana_util::grouping::normalize_query_report;
use grafana_util::inspect_flow::{apply_query_report_filters, render_grouped_query_report};
use grafana_util::report::{
    build_export_inspection_query_report_document, build_query_report, normalize_datasource_family,
    ordered_unique_strings, refresh_filtered_query_report_summary, render_query_report_column,
    report_column_header, report_format_supports_columns, resolve_report_column_ids, ExportInspectionQueryRow,
};

fn strings(v: &[&str]) -> Vec<String> {
    v.iter().map(|s| s.to_string()).collect()
}

fn row(uid: &str, panel: &str, panel_title: &str, ds: &str, ds_uid: &str, metrics: &[&str]) -> ExportInspectionQueryRow {
    ExportInspectionQueryRow {
        dashboard_uid: uid.to_string(),
        dashboard_title: format!("{uid} title"),
        folder_path: "Infra".to_string(),
        file_path: format!("raw/{uid}.json"),
        panel_id: panel.to_string(),
        panel_title: panel_title.to_string(),
        panel_type: "timeseries".to_string(),
        ref_id: "A".to_string(),
        datasource: ds.to_string(),
        datasource_uid: ds_uid.to_string(),
        datasource_type: "prometheus".to_string(),
        datasource_family: "prometheus".to_string(),
        query_field: "expr".to_string(),
        query_text: "up".to_string(),
        metrics: strings(metrics),
        functions: Vec::new(),
        measurements: Vec::new(),
        buckets: Vec::new(),
    }
}

fn rows() -> Vec<ExportInspectionQueryRow> {
    vec![
        row("cpu", "1", "CPU", "Prom", "prom-main", &["up", "node_cpu"]),
        row("mem", "2", "Memory", "Prom", "prom-main", &[]),
        row("cpu", "1", "CPU", "Logs", "", &[]),
        row("cpu", "3", "Load", "Prom", "prom-main", &[]),
    ]
}

#[test]
fn families_are_normalized() {
    assert_eq!(normalize_datasource_family(" Grafana-PostgreSQL-Datasource "), "postgres");
    assert_eq!(normalize_datasource_family("grafana-mysql-datasource"), "mysql");
    assert_eq!(normalize_datasource_family(""), "unknown");
    assert_eq!(normalize_datasource_family("Elasticsearch"), "elasticsearch");
    assert_eq!(ordered_unique_strings(&strings(&[" b", "a", "b ", " "])), strings(&["b", "a"]));
}

#[test]
fn report_columns_are_resolved_and_rendered() {
    let defaults = resolve_report_column_ids(&[]).unwrap();
    assert_eq!(defaults.len(), 13);
    assert_eq!(defaults[0], "dashboard_uid");
    assert_eq!(defaults[12], "query");
    assert_eq!(
        resolve_report_column_ids(&strings(&[" panel_id", "datasource_uid", "panel_id"])).unwrap(),
        strings(&["panel_id", "datasource_uid"])
    );
    assert_eq!(
        resolve_report_column_ids(&strings(&["nope"])).unwrap_err(),
        "Unsupported --report-columns value \"nope\". Supported columns: dashboard_uid,dashboard_title,folder_path,panel_id,panel_title,panel_type,ref_id,datasource,datasource_uid,query_field,metrics,measurements,buckets,query"
    );
    assert_eq!(
        resolve_report_column_ids(&strings(&[" "])).unwrap_err(),
        "--report-columns did not include any supported columns. Supported columns: dashboard_uid,dashboard_title,folder_path,panel_id,panel_title,panel_type,ref_id,datasource,datasource_uid,query_field,metrics,measurements,buckets,query"
    );
    assert_eq!(report_column_header("datasource_uid"), "DATASOURCE_UID");
    let r = row("cpu", "1", "CPU", "Prom", "prom-main", &["up", "node_cpu"]);
    assert_eq!(render_query_report_column(&r, "metrics"), "up,node_cpu");
    assert_eq!(render_query_report_column(&r, "query"), "up");
    assert!(report_format_supports_columns(InspectExportReportFormat::TreeTable));
    assert!(!report_format_supports_columns(InspectExportReportFormat::Json));
}

#[test]
fn report_summary_counts_rows_dashboards_and_panels() {
    let mut report = build_query_report("dashboards/raw".to_string(), 9, 9, 9, rows());
    assert_eq!(report.summary.report_row_count, 4);
    refresh_filtered_query_report_summary(&mut report);
    assert_eq!(report.summary.dashboard_count, 2);
    assert_eq!(report.summary.panel_count, 3);
    assert_eq!(report.summary.query_count, 4);
    let document = build_export_inspection_query_report_document(&report);
    assert_eq!(document.summary.datasource_count, 2);
    assert_eq!(document.summary.query_record_count, 4);
    assert_eq!(document.summary.datasource_inventory_count, 0);
}

#[test]
fn filters_keep_matching_rows_and_recount() {
    let report = build_query_report("dashboards/raw".to_string(), 2, 3, 4, rows());
    let filtered = apply_query_report_filters(report, Some(" Prom "), Some("1"));
    assert_eq!(filtered.queries.len(), 1);
    assert_eq!(filtered.summary.dashboard_count, 1);
    assert_eq!(filtered.summary.panel_count, 1);
    let report = build_query_report("dashboards/raw".to_string(), 2, 3, 4, rows());
    let unchanged = apply_query_report_filters(report, Some("  "), None);
    assert_eq!(unchanged.queries.len(), 4);
    assert_eq!(unchanged.summary.panel_count, 3);
    let report = build_query_report("dashboards/raw".to_string(), 2, 3, 4, rows());
    let by_uid = apply_query_report_filters(report, Some("prom-main"), None);
    assert_eq!(by_uid.queries.len(), 3);
    let report = build_query_report("dashboards/raw".to_string(), 2, 3, 4, rows());
    let by_family = apply_query_report_filters(report, Some("prometheus"), None);
    assert_eq!(by_family.queries.len(), 4);
}

#[test]
fn rows_are_grouped_by_dashboard_then_panel() {
    let report = build_query_report("dashboards/raw".to_string(), 2, 3, 4, rows());
    let normalized = normalize_query_report(&report);
    assert_eq!(normalized.dashboards.len(), 2);
    assert_eq!(normalized.dashboards[0].dashboard_uid, "cpu");
    assert_eq!(normalized.dashboards[0].panels.len(), 2);
    assert_eq!(normalized.dashboards[0].panels[0].queries.len(), 2);
    let lines = render_grouped_query_report(&report);
    assert_eq!(
        lines,
        strings(&[
            "Export inspection report: dashboards/raw",
            "",
            "# Summary",
            "dashboards=2 panels=3 queries=4 rows=4",
            "",
            "# Dashboard tree",
            "Dashboard: cpu title (uid=cpu, folder=Infra, panels=2, queries=3)",
            "  Panel: CPU (id=1, type=timeseries, queries=2)",
            "    Query: refId=A datasource=Prom datasourceUid=prom-main field=expr metrics=up,node_cpu",
            "      up",
            "    Query: refId=A datasource=Logs field=expr",
            "      up",
            "  Panel: Load (id=3, type=timeseries, queries=1)",
            "    Query: refId=A datasource=Prom datasourceUid=prom-main field=expr",
            "      up",
            "Dashboard: mem title (uid=mem, folder=Infra, panels=1, queries=1)",
            "  Panel: Memory (id=2, type=timeseries, queries=1)",
            "    Query: refId=A datasource=Prom datasourceUid=prom-main field=expr",
            "      up",
        ])
    );
}
