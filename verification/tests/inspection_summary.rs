use grafana_util::summary::{
    DatasourceInventorySummary, ExportDatasourceUsage, ExportFolderUsage, ExportInspectionSummary, MixedDashboardSummary,
};
use grafana_util::summary_text::render_export_inspection_summary_lines;

fn strings(v: &[&str]) -> Vec<String> {
    v.iter().map(|s| s.to_string()).collect()
}

fn summary(with_extras: bool) -> ExportInspectionSummary {
    ExportInspectionSummary {
        import_dir: "dashboards/raw".to_string(),
        dashboard_count: 2,
        folder_count: 1,
        panel_count: 3,
        query_count: 4,
        datasource_inventory_count: if with_extras { 1 } else { 0 },
        mixed_dashboard_count: if with_extras { 1 } else { 0 },
        folder_paths: vec![ExportFolderUsage { path: "Infra".to_string(), dashboards: 2 }],
        datasource_usage: vec![ExportDatasourceUsage { datasource: "prom".to_string(), reference_count: 4, dashboard_count: 2 }],
        datasource_inventory: if with_extras {
            vec![DatasourceInventorySummary {
                uid: "p1".to_string(),
                name: "prom".to_string(),
                datasource_type: "prometheus".to_string(),
                access: "proxy".to_string(),
                url: "http://p".to_string(),
                is_default: "true".to_string(),
                org: "Main".to_string(),
                org_id: "1".to_string(),
                reference_count: 4,
                dashboard_count: 2,
            }]
        } else {
            Vec::new()
        },
        mixed_dashboards: if with_extras {
            vec![MixedDashboardSummary {
                uid: "cpu".to_string(),
                title: "CPU".to_string(),
                folder_path: "Infra".to_string(),
                datasource_count: 2,
                datasources: strings(&["loki", "prom"]),
            }]
        } else {
            Vec::new()
        },
    }
}

#[test]
fn summary_text_lists_counts_and_tables() {
    let lines = render_export_inspection_summary_lines(&summary(false), false, true);
    assert_eq!(
        lines,
        strings(&[
            "Export inspection: dashboards/raw",
            "Dashboards: 2",
            "Folders: 1",
            "Panels: 3",
            "Queries: 4",
            "Datasource inventory: 0",
            "Mixed datasource dashboards: 0",
            "",
            "# Folder paths",
            "FOLDER_PATH  DASHBOARDS",
            "-----------  ----------",
            "Infra        2         ",
            "",
            "# Datasource usage",
            "DATASOURCE  REFS  DASHBOARDS",
            "----------  ----  ----------",
            "prom        4     2         ",
        ])
    );
}

#[test]
fn summary_table_adds_inventory_and_mixed_sections() {
    let lines = render_export_inspection_summary_lines(&summary(true), true, false);
    assert_eq!(lines[0], "Export inspection: dashboards/raw");
    assert_eq!(lines[1], "");
    assert_eq!(lines[2], "# Summary");
    assert_eq!(lines[3], "dashboard_count                   2    ");
    assert_eq!(lines.len(), 3 + 6 + 3 + 3 + 3 + 3);
    assert_eq!(lines[lines.len() - 4], "1       p1   prom  prometheus  proxy   http://p  true        4     2         ");
    assert_eq!(lines[lines.len() - 2], "# Mixed datasource dashboards");
    assert_eq!(lines[lines.len() - 1], "cpu  CPU    Infra        loki,prom  ");
}
