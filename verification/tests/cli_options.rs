use grafana_util::cli_command::{
    diff_result, parse_dashboard_list_output_column, parse_inspect_report_column, review_output_format,
    validate_export_variants, ExportArgs, ReviewArgs,
};
use grafana_util::cli_defs::CommonCliArgs;
use grafana_util::cli_defs::{
    inspect_report_from_view_format_layout, normalize_simple_output_format, parse_dashboard_import_output_column,
    InspectExportReportFormat, InspectLayout, InspectRenderFormat, InspectView, SimpleOutputFormat,
};

#[test]
fn output_columns_accept_snake_and_camel_case() {
    assert_eq!(parse_dashboard_import_output_column("folderPath").unwrap(), "folder_path");
    assert_eq!(parse_dashboard_import_output_column("file").unwrap(), "file");
    assert_eq!(
        parse_dashboard_import_output_column("bogus").unwrap_err(),
        "Unsupported --output-columns value 'bogus'. Supported values: uid, destination, action, folder_path, source_folder_path, destination_folder_path, reason, file."
    );
    assert_eq!(parse_dashboard_list_output_column("sourceUids").unwrap(), "source_uids");
    assert_eq!(parse_dashboard_list_output_column("org_id").unwrap(), "org_id");
    assert_eq!(
        parse_dashboard_list_output_column("x").unwrap_err(),
        "Unsupported --output-columns value 'x'. Supported values: uid, name, folder, folder_uid, path, org, org_id, sources, source_uids."
    );
    assert_eq!(parse_inspect_report_column("datasourceIndexPattern").unwrap(), "datasource_index_pattern");
    assert_eq!(parse_inspect_report_column("all").unwrap(), "all");
    assert!(parse_inspect_report_column("Query").unwrap_err().starts_with("Unsupported --report-columns value 'Query'."));
}

#[test]
fn output_format_sets_one_flag() {
    let (mut table, mut csv, mut json) = (false, false, false);
    normalize_simple_output_format(&mut table, &mut csv, &mut json, Some(SimpleOutputFormat::Csv));
    assert_eq!((table, csv, json), (false, true, false));
    normalize_simple_output_format(&mut table, &mut csv, &mut json, None);
    assert_eq!((table, csv, json), (false, true, false));
}

#[test]
fn inspect_views_choose_a_report() {
    assert_eq!(
        inspect_report_from_view_format_layout(InspectView::Summary, None, None).unwrap(),
        (false, false, None)
    );
    assert_eq!(
        inspect_report_from_view_format_layout(InspectView::Query, None, Some(InspectLayout::Tree)).unwrap(),
        (false, false, Some(InspectExportReportFormat::TreeTable))
    );
    assert_eq!(
        inspect_report_from_view_format_layout(InspectView::Query, Some(InspectRenderFormat::Text), None).unwrap_err(),
        "--view query with --format text requires --layout tree."
    );
    assert_eq!(
        inspect_report_from_view_format_layout(InspectView::Summary, None, Some(InspectLayout::Flat)).unwrap_err(),
        "--layout is only supported with --view query."
    );
    assert_eq!(
        inspect_report_from_view_format_layout(InspectView::Datasource, Some(InspectRenderFormat::Json), None).unwrap(),
        (false, false, Some(InspectExportReportFormat::DatasourceSummaryJson))
    );
}

fn export_args(raw_off: bool, prompt_off: bool, provisioning_off: bool) -> ExportArgs {
    ExportArgs {
        common: CommonCliArgs {
            url: "http://localhost:3000".to_string(),
            api_token: None,
            username: None,
            password: None,
            prompt_password: false,
            prompt_token: false,
            timeout: 30,
            verify_ssl: false,
        },
        export_dir: "dashboards".to_string(),
        page_size: 500,
        org_id: None,
        all_orgs: false,
        flat: false,
        overwrite: false,
        without_dashboard_raw: raw_off,
        without_dashboard_prompt: prompt_off,
        without_dashboard_provisioning: provisioning_off,
        provisioning_provider_name: "grafana-utils-dashboards".to_string(),
        provisioning_provider_org_id: None,
        provisioning_provider_path: None,
        provisioning_provider_disable_deletion: false,
        provisioning_provider_allow_ui_updates: false,
        provisioning_provider_update_interval_seconds: 30,
        dry_run: false,
        progress: false,
        verbose: false,
    }
}

#[test]
fn exports_keep_one_variant_and_diffs_count_differences() {
    assert!(validate_export_variants(&export_args(true, true, false)).is_ok());
    assert!(validate_export_variants(&export_args(false, false, false)).is_ok());
    assert_eq!(
        validate_export_variants(&export_args(true, true, true)).unwrap_err(),
        "At least one export variant must stay enabled. Remove --without-raw, --without-prompt, or --without-provisioning."
    );
    assert!(diff_result(0).is_ok());
    assert_eq!(diff_result(3).unwrap_err(), "Dashboard diff found 3 differing item(s).");
}

#[test]
fn review_output_follows_the_flags() {
    let review = |json: bool, table: bool, csv: bool, yaml: bool, output_format: Option<grafana_util::cli_command::SimpleOutputFormat>| ReviewArgs {
        input: "dashboard.json".to_string(),
        json,
        table,
        csv,
        yaml,
        output_format,
    };
    assert_eq!(review_output_format(&review(false, false, false, false, None)), grafana_util::cli_command::SimpleOutputFormat::Text);
    assert_eq!(review_output_format(&review(false, true, true, false, None)), grafana_util::cli_command::SimpleOutputFormat::Table);
    assert_eq!(review_output_format(&review(false, false, true, true, None)), grafana_util::cli_command::SimpleOutputFormat::Csv);
    assert_eq!(review_output_format(&review(false, false, false, true, None)), grafana_util::cli_command::SimpleOutputFormat::Yaml);
    assert_eq!(review_output_format(&review(true, true, false, false, None)), grafana_util::cli_command::SimpleOutputFormat::Json);
    assert_eq!(
        review_output_format(&review(true, false, false, false, Some(grafana_util::cli_command::SimpleOutputFormat::Csv))),
        grafana_util::cli_command::SimpleOutputFormat::Csv
    );
}
