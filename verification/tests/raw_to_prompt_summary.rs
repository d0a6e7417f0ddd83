use grafana_util::raw_to_prompt::{
    build_raw_to_prompt_summary, render_raw_to_prompt_summary_table, render_raw_to_prompt_summary_text,
    synthetic_name, RawToPromptItemSummary, RawToPromptResolutionKind, RawToPromptStatus,
};

fn item(file: &str, status: RawToPromptStatus, resolution: RawToPromptResolutionKind) -> RawToPromptItemSummary {
    RawToPromptItemSummary {
        input_file: file.to_string(),
        output_file: None,
        status,
        resolution,
        datasource_slots: 1,
        warnings: Vec::new(),
        error: None,
    }
}

#[test]
fn run_summary_counts_items_and_renders() {
    let items = vec![
        item("a.json", RawToPromptStatus::Converted, RawToPromptResolutionKind::Exact),
        item("b.json", RawToPromptStatus::Converted, RawToPromptResolutionKind::Inferred),
        item("c.json", RawToPromptStatus::Failed, RawToPromptResolutionKind::Failed),
    ];
    let summary = build_raw_to_prompt_summary("dir", Some("prompt".to_string()), None, items);
    assert_eq!(summary.kind, "grafana-utils-dashboard-raw-to-prompt-summary");
    assert_eq!((summary.scanned, summary.converted, summary.failed), (3, 2, 1));
    assert_eq!((summary.exact, summary.inferred, summary.unresolved), (1, 1, 1));
    assert_eq!(
        render_raw_to_prompt_summary_text(&summary),
        vec![
            "raw-to-prompt completed with failures",
            "  scanned: 3",
            "  converted: 2",
            "  failed: 1",
            "  exact: 1",
            "  inferred: 1",
            "  unresolved: 1",
            "  output: prompt",
        ]
    );
    assert_eq!(
        render_raw_to_prompt_summary_table(&summary, false),
        vec![
            "STATUS   SCANNED  CONVERTED  FAILED  EXACT  INFERRED  UNRESOLVED  OUTPUT",
            "-------  -------  ---------  ------  -----  --------  ----------  ------",
            "partial  3        2          1       1      1         1           prompt",
        ]
    );
    let clean = build_raw_to_prompt_summary("file", None, Some("log.txt".to_string()), Vec::new());
    assert_eq!(render_raw_to_prompt_summary_text(&clean)[0], "raw-to-prompt completed");
    assert_eq!(render_raw_to_prompt_summary_text(&clean).last().unwrap(), "  log: log.txt");
    assert_eq!(render_raw_to_prompt_summary_table(&clean, true).len(), 1);
    assert_eq!(synthetic_name("prometheus", "prompt-prom-main"), "prometheus (prom-main)");
}
