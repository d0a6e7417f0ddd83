use vstd::prelude::*;

pub mod cli_command;
pub mod cli_defs;
pub mod coverage;
pub mod dashboard_fields;
pub mod datasource_summary;
pub mod dependencies;
pub mod governance_gate;
pub mod edges;
pub mod export_folder;
pub mod governance;
pub mod governance_doc;
pub mod grouping;
pub mod history;
pub mod history_diff;
pub mod history_payload;
pub mod import;
pub mod import_flow;
pub mod inspect_flow;
pub mod json;
pub mod json_text;
pub mod laws;
pub mod loki;
pub mod panel_stats;
pub mod placeholders;
pub mod query_analysis;
pub mod raw_to_prompt;
pub mod render;
pub mod report;
pub mod report_laws;
pub mod risks;
pub mod strset;
pub mod summary;
pub mod summary_text;
pub mod text;
pub mod workbench;

verus! {
} // verus!
