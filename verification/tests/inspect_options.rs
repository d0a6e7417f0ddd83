use grafana_util::cli_defs::{empty_inspect_export_args, InspectExportReportFormat, InspectOutputFormat};
use grafana_util::inspect_flow::{
    map_output_format_to_report, summarize_datasource_inventory_usage, trimmed_filter,
    validate_inspect_export_report_args, LabelUsage,
};

fn strings(v: &[&str]) -> Vec<String> {
    v.iter().map(|s| s.to_string()).collect()
}

#[test]
fn report_options_need_a_report() {
    let mut args = empty_inspect_export_args();
    assert!(validate_inspect_export_report_args(&args).is_ok());
    args.report_columns = strings(&["panel_id"]);
    assert_eq!(
        validate_inspect_export_report_args(&args).unwrap_err(),
        "--report-columns is only supported together with --report."
    );
    let mut args = empty_inspect_export_args();
    args.report_filter_panel_id = Some("7".to_string());
    assert_eq!(
        validate_inspect_export_report_args(&args).unwrap_err(),
        "--report-filter-panel-id is only supported together with --report."
    );
    let mut args = empty_inspect_export_args();
    args.report = Some(InspectExportReportFormat::Json);
    args.report_columns = strings(&["panel_id"]);
    assert_eq!(
        validate_inspect_export_report_args(&args).unwrap_err(),
        "--report-columns is only supported with table or csv --report output."
    );
    args.report = Some(InspectExportReportFormat::Csv);
    assert!(validate_inspect_export_report_args(&args).is_ok());
    args.report_columns = strings(&["bogus"]);
    assert!(validate_inspect_export_report_args(&args).unwrap_err().starts_with("Unsupported --report-columns value"));
}

#[test]
fn output_formats_map_to_reports() {
    assert_eq!(map_output_format_to_report(InspectOutputFormat::ReportCsv), Some(InspectExportReportFormat::Csv));
    assert_eq!(map_output_format_to_report(InspectOutputFormat::ReportTreeTable), Some(InspectExportReportFormat::TreeTable));
    assert_eq!(map_output_format_to_report(InspectOutputFormat::Json), None);
    assert_eq!(trimmed_filter(Some("  prom ")), Some("prom".to_string()));
    assert_eq!(trimmed_filter(Some("   ")), None);
    assert_eq!(trimmed_filter(None), None);
}

#[test]
fn inventory_usage_sums_uid_and_name_labels() {
    let usage = vec![
        LabelUsage { label: "prom-main".to_string(), reference_count: 3, dashboard_uids: strings(&["a", "b"]) },
        LabelUsage { label: "Prometheus".to_string(), reference_count: 2, dashboard_uids: strings(&["b", "c"]) },
    ];
    assert_eq!(summarize_datasource_inventory_usage("prom-main", "Prometheus", &usage), (5, 3));
    assert_eq!(summarize_datasource_inventory_usage("prom-main", "prom-main", &usage), (3, 2));
    assert_eq!(summarize_datasource_inventory_usage("", "", &usage), (0, 0));
    assert_eq!(summarize_datasource_inventory_usage("other", "", &usage), (0, 0));
}
