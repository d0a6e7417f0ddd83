//! Dashboard command-line surface: option enums, argument records and the
//! normalisation that folds legacy output switches into one flag contract.
//! Paths are carried as strings; parsing argv is left to the program around
//! the library.
use vstd::prelude::*;

use crate::text::{owned, str_is};

verus! {

#[derive(Debug, Clone, Copy, PartialEq, Eq)]
pub enum SimpleOutputFormat {
    Table,
    Csv,
    Json,
}

#[derive(Debug, Clone, Copy, PartialEq, Eq)]
pub enum DryRunOutputFormat {
    Text,
    Table,
    Json,
}

#[derive(Debug, Clone, Copy, PartialEq, Eq)]
pub enum InspectExportReportFormat {
    Table,
    Csv,
    Json,
    Tree,
    TreeTable,
    DatasourceSummary,
    DatasourceSummaryJson,
    Governance,
    GovernanceJson,
}

#[derive(Debug, Clone, Copy, PartialEq, Eq)]
pub enum InspectOutputFormat {
    Text,
    Table,
    Json,
    ReportTable,
    ReportCsv,
    ReportJson,
    ReportTree,
    ReportTreeTable,
    DatasourceSummary,
    DatasourceSummaryJson,
    Governance,
    GovernanceJson,
}

/// Preferred selector for which inspection view to render.
#[derive(Debug, Clone, Copy, PartialEq, Eq)]
pub enum InspectView {
    Summary,
    Query,
    Datasource,
    Governance,
}

/// Preferred selector for output encoding within inspect views.
#[derive(Debug, Clone, Copy, PartialEq, Eq)]
pub enum InspectRenderFormat {
    Text,
    Table,
    Csv,
    Json,
}

/// Preferred selector for query-oriented inspect layouts.
#[derive(Debug, Clone, Copy, PartialEq, Eq)]
pub enum InspectLayout {
    Flat,
    Tree,
}

/// Connection and authentication options shared by the live commands.
#[derive(Debug)]
pub struct CommonCliArgs {
    pub url: String,
    pub api_token: Option<String>,
    pub username: Option<String>,
    pub password: Option<String>,
    pub prompt_password: bool,
    pub prompt_token: bool,
    pub timeout: u64,
    pub verify_ssl: bool,
}

#[derive(Debug)]
pub struct ExportArgs {
    pub common: CommonCliArgs,
    pub export_dir: String,
    pub page_size: usize,
    pub org_id: Option<i64>,
    pub all_orgs: bool,
    pub flat: bool,
    pub overwrite: bool,
    pub without_dashboard_raw: bool,
    pub without_dashboard_prompt: bool,
    pub dry_run: bool,
    pub progress: bool,
    pub verbose: bool,
}

#[derive(Debug)]
pub struct ListArgs {
    pub common: CommonCliArgs,
    pub page_size: usize,
    pub org_id: Option<i64>,
    pub all_orgs: bool,
    pub with_sources: bool,
    pub table: bool,
    pub csv: bool,
    pub json: bool,
    pub output_format: Option<SimpleOutputFormat>,
    pub no_header: bool,
}

#[derive(Debug)]
pub struct ListDataSourcesArgs {
    pub common: CommonCliArgs,
    pub table: bool,
    pub csv: bool,
    pub json: bool,
    pub output_format: Option<SimpleOutputFormat>,
    pub no_header: bool,
}

#[derive(Debug)]
pub struct ImportArgs {
    pub common: CommonCliArgs,
    pub org_id: Option<i64>,
    pub use_export_org: bool,
    pub only_org_id: Vec<i64>,
    pub create_missing_orgs: bool,
    pub import_dir: String,
    pub import_folder_uid: Option<String>,
    pub ensure_folders: bool,
    pub replace_existing: bool,
    pub update_existing_only: bool,
    pub require_matching_folder_path: bool,
    pub require_matching_export_org: bool,
    pub import_message: String,
    pub dry_run: bool,
    pub table: bool,
    pub json: bool,
    pub output_format: Option<DryRunOutputFormat>,
    pub no_header: bool,
    pub continue_on_error: bool,
    pub output_columns: Vec<String>,
    pub progress: bool,
    pub verbose: bool,
}

#[derive(Debug)]
pub struct DiffArgs {
    pub common: CommonCliArgs,
    pub import_dir: String,
    pub import_folder_uid: Option<String>,
    pub context_lines: usize,
}

#[derive(Debug)]
pub struct InspectExportArgs {
    pub import_dir: String,
    pub json: bool,
    pub table: bool,
    pub view: Option<InspectView>,
    pub format: Option<InspectRenderFormat>,
    pub layout: Option<InspectLayout>,
    pub report: Option<InspectExportReportFormat>,
    pub output_format: Option<InspectOutputFormat>,
    pub report_columns: Vec<String>,
    pub report_filter_datasource: Option<String>,
    pub report_filter_panel_id: Option<String>,
    pub help_full: bool,
    pub no_header: bool,
}

#[derive(Debug)]
pub struct InspectLiveArgs {
    pub common: CommonCliArgs,
    pub page_size: usize,
    pub org_id: Option<i64>,
    pub all_orgs: bool,
    pub json: bool,
    pub table: bool,
    pub view: Option<InspectView>,
    pub format: Option<InspectRenderFormat>,
    pub layout: Option<InspectLayout>,
    pub report: Option<InspectExportReportFormat>,
    pub output_format: Option<InspectOutputFormat>,
    pub report_columns: Vec<String>,
    pub report_filter_datasource: Option<String>,
    pub report_filter_panel_id: Option<String>,
    pub help_full: bool,
    pub no_header: bool,
}

#[derive(Debug)]
pub enum DashboardCommand {
    List(ListArgs),
    Export(ExportArgs),
    Import(ImportArgs),
    Diff(DiffArgs),
    InspectExport(InspectExportArgs),
    InspectLive(InspectLiveArgs),
}

#[derive(Debug)]
pub struct DashboardCliArgs {
    pub command: DashboardCommand,
}

/// Shared Grafana connection/authentication state for dashboard commands.
#[derive(Debug)]
pub struct DashboardAuthContext {
    pub url: String,
    pub timeout: u64,
    pub verify_ssl: bool,
    pub auth_mode: String,
    pub headers: Vec<(String, String)>,
}

/// The canonical import dry-run column for an accepted `--output-columns`
/// value, or `None` for a value that is refused.
pub open spec fn import_output_column(v: Seq<char>) -> Option<Seq<char>> {
    if v == "uid"@ {
        Some("uid"@)
    } else if v == "destination"@ {
        Some("destination"@)
    } else if v == "action"@ {
        Some("action"@)
    } else if v == "folder_path"@ || v == "folderPath"@ {
        Some("folder_path"@)
    } else if v == "source_folder_path"@ || v == "sourceFolderPath"@ {
        Some("source_folder_path"@)
    } else if v == "destination_folder_path"@ || v == "destinationFolderPath"@ {
        Some("destination_folder_path"@)
    } else if v == "reason"@ {
        Some("reason"@)
    } else if v == "file"@ {
        Some("file"@)
    } else {
        None
    }
}

pub open spec fn import_output_column_error(v: Seq<char>) -> Seq<char> {
    "Unsupported --output-columns value '"@ + v
        + "'. Supported values: uid, destination, action, folder_path, source_folder_path, destination_folder_path, reason, file."@
}

/// Accepts both user-facing camelCase aliases and canonical snake_case
/// column names for import dry-run table formatting.
pub fn parse_dashboard_import_output_column(value: &str) -> (r: Result<String, String>)
    ensures
        match (r, import_output_column(value@)) {
            (Ok(s), Some(c)) => s@ == c,
            (Err(e), None) => e@ == import_output_column_error(value@),
            _ => false,
        },
{
    if str_is(value, "uid") {
        Ok(owned("uid"))
    } else if str_is(value, "destination") {
        Ok(owned("destination"))
    } else if str_is(value, "action") {
        Ok(owned("action"))
    } else if str_is(value, "folder_path") || str_is(value, "folderPath") {
        Ok(owned("folder_path"))
    } else if str_is(value, "source_folder_path") || str_is(value, "sourceFolderPath") {
        Ok(owned("source_folder_path"))
    } else if str_is(value, "destination_folder_path") || str_is(value, "destinationFolderPath") {
        Ok(owned("destination_folder_path"))
    } else if str_is(value, "reason") {
        Ok(owned("reason"))
    } else if str_is(value, "file") {
        Ok(owned("file"))
    } else {
        let mut e = owned("Unsupported --output-columns value '");
        e.append(value);
        e.append(
            "'. Supported values: uid, destination, action, folder_path, source_folder_path, destination_folder_path, reason, file.",
        );
        Err(e)
    }
}

/// The render flags after a legacy `--output-format` selection for list
/// commands: `(table, csv, json)`.
pub open spec fn simple_flags(
    table: bool,
    csv: bool,
    json: bool,
    f: Option<SimpleOutputFormat>,
) -> (bool, bool, bool) {
    match f {
        Some(SimpleOutputFormat::Table) => (true, csv, json),
        Some(SimpleOutputFormat::Csv) => (table, true, json),
        Some(SimpleOutputFormat::Json) => (table, csv, true),
        None => (table, csv, json),
    }
}

/// Maps a legacy `--output-format` selection into the boolean render flags
/// of list commands.
pub fn normalize_simple_output_format(
    table: &mut bool,
    csv: &mut bool,
    json: &mut bool,
    output_format: Option<SimpleOutputFormat>,
)
    ensures
        (*final(table), *final(csv), *final(json)) == simple_flags(
            *old(table),
            *old(csv),
            *old(json),
            output_format,
        ),
{
    match output_format {
        Some(SimpleOutputFormat::Table) => *table = true,
        Some(SimpleOutputFormat::Csv) => *csv = true,
        Some(SimpleOutputFormat::Json) => *json = true,
        None => {},
    }
}

/// The dry-run render flags `(table, json)` after an `--output-format`
/// selection; text is the implicit default.
pub open spec fn dry_run_flags(table: bool, json: bool, f: Option<DryRunOutputFormat>) -> (
    bool,
    bool,
) {
    match f {
        Some(DryRunOutputFormat::Table) => (true, json),
        Some(DryRunOutputFormat::Json) => (table, true),
        _ => (table, json),
    }
}

/// Maps a dry-run `--output-format` selection into render flags, treating
/// text mode as the implicit default.
pub fn normalize_dry_run_output_format(
    table: &mut bool,
    json: &mut bool,
    output_format: Option<DryRunOutputFormat>,
)
    ensures
        (*final(table), *final(json)) == dry_run_flags(*old(table), *old(json), output_format),
{
    match output_format {
        Some(DryRunOutputFormat::Table) => *table = true,
        Some(DryRunOutputFormat::Json) => *json = true,
        Some(DryRunOutputFormat::Text) => {},
        None => {},
    }
}

pub open spec fn layout_requires_query() -> Seq<char> {
    "--layout is only supported with --view query."@
}

/// The `(json, table, report)` selection that `--view`, `--format` and
/// `--layout` stand for, or the message refusing the combination.
pub open spec fn view_selection(
    view: InspectView,
    format: Option<InspectRenderFormat>,
    layout: Option<InspectLayout>,
) -> Result<(bool, bool, Option<InspectExportReportFormat>), Seq<char>> {
    let chosen_format = match format {
        Some(f) => f,
        None => match view {
            InspectView::Summary => InspectRenderFormat::Text,
            _ => InspectRenderFormat::Table,
        },
    };
    let chosen_layout = match layout {
        Some(l) => l,
        None => InspectLayout::Flat,
    };
    match view {
        InspectView::Summary => if layout is Some {
            Err(layout_requires_query())
        } else {
            match chosen_format {
                InspectRenderFormat::Text => Ok((false, false, None)),
                InspectRenderFormat::Table => Ok((false, true, None)),
                InspectRenderFormat::Json => Ok((true, false, None)),
                InspectRenderFormat::Csv => Err(
                    "--view summary supports only --format text, table, or json."@,
                ),
            }
        },
        InspectView::Query => match (chosen_format, chosen_layout) {
            (InspectRenderFormat::Table, InspectLayout::Flat) => Ok(
                (false, false, Some(InspectExportReportFormat::Table)),
            ),
            (InspectRenderFormat::Table, InspectLayout::Tree) => Ok(
                (false, false, Some(InspectExportReportFormat::TreeTable)),
            ),
            (InspectRenderFormat::Csv, InspectLayout::Flat) => Ok(
                (false, false, Some(InspectExportReportFormat::Csv)),
            ),
            (InspectRenderFormat::Json, InspectLayout::Flat) => Ok(
                (false, false, Some(InspectExportReportFormat::Json)),
            ),
            (InspectRenderFormat::Text, InspectLayout::Tree) => Ok(
                (false, false, Some(InspectExportReportFormat::Tree)),
            ),
            (InspectRenderFormat::Text, InspectLayout::Flat) => Err(
                "--view query with --format text requires --layout tree."@,
            ),
            (_, InspectLayout::Tree) => Err(
                "--layout tree is only supported with --format table or text for --view query."@,
            ),
        },
        InspectView::Datasource => if layout is Some {
            Err(layout_requires_query())
        } else {
            match chosen_format {
                InspectRenderFormat::Table => Ok(
                    (false, false, Some(InspectExportReportFormat::DatasourceSummary)),
                ),
                InspectRenderFormat::Json => Ok(
                    (false, false, Some(InspectExportReportFormat::DatasourceSummaryJson)),
                ),
                _ => Err("--view datasource supports only --format table or json."@),
            }
        },
        InspectView::Governance => if layout is Some {
            Err(layout_requires_query())
        } else {
            match chosen_format {
                InspectRenderFormat::Table => Ok(
                    (false, false, Some(InspectExportReportFormat::Governance)),
                ),
                InspectRenderFormat::Json => Ok(
                    (false, false, Some(InspectExportReportFormat::GovernanceJson)),
                ),
                _ => Err("--view governance supports only --format table or json."@),
            }
        },
    }
}

/// The `(json, table, report)` selection for one `--view`, `--format`,
/// `--layout` combination.
pub fn inspect_report_from_view_format_layout(
    view: InspectView,
    format: Option<InspectRenderFormat>,
    layout: Option<InspectLayout>,
) -> (r: Result<(bool, bool, Option<InspectExportReportFormat>), String>)
    ensures
        match (r, view_selection(view, format, layout)) {
            (Ok(x), Ok(y)) => x == y,
            (Err(e), Err(m)) => e@ == m,
            _ => false,
        },
{
    let chosen_format = match format {
        Some(f) => f,
        None => match view {
            InspectView::Summary => InspectRenderFormat::Text,
            _ => InspectRenderFormat::Table,
        },
    };
    let chosen_layout = match layout {
        Some(l) => l,
        None => InspectLayout::Flat,
    };
    match view {
        InspectView::Summary => {
            if layout.is_some() {
                return Err(owned("--layout is only supported with --view query."));
            }
            match chosen_format {
                InspectRenderFormat::Text => Ok((false, false, None)),
                InspectRenderFormat::Table => Ok((false, true, None)),
                InspectRenderFormat::Json => Ok((true, false, None)),
                InspectRenderFormat::Csv => Err(
                    owned("--view summary supports only --format text, table, or json."),
                ),
            }
        },
        InspectView::Query => match (chosen_format, chosen_layout) {
            (InspectRenderFormat::Table, InspectLayout::Flat) => Ok(
                (false, false, Some(InspectExportReportFormat::Table)),
            ),
            (InspectRenderFormat::Table, InspectLayout::Tree) => Ok(
                (false, false, Some(InspectExportReportFormat::TreeTable)),
            ),
            (InspectRenderFormat::Csv, InspectLayout::Flat) => Ok(
                (false, false, Some(InspectExportReportFormat::Csv)),
            ),
            (InspectRenderFormat::Json, InspectLayout::Flat) => Ok(
                (false, false, Some(InspectExportReportFormat::Json)),
            ),
            (InspectRenderFormat::Text, InspectLayout::Tree) => Ok(
                (false, false, Some(InspectExportReportFormat::Tree)),
            ),
            (InspectRenderFormat::Text, InspectLayout::Flat) => Err(
                owned("--view query with --format text requires --layout tree."),
            ),
            (_, InspectLayout::Tree) => Err(
                owned(
                    "--layout tree is only supported with --format table or text for --view query.",
                ),
            ),
        },
        InspectView::Datasource => {
            if layout.is_some() {
                return Err(owned("--layout is only supported with --view query."));
            }
            match chosen_format {
                InspectRenderFormat::Table => Ok(
                    (false, false, Some(InspectExportReportFormat::DatasourceSummary)),
                ),
                InspectRenderFormat::Json => Ok(
                    (false, false, Some(InspectExportReportFormat::DatasourceSummaryJson)),
                ),
                _ => Err(owned("--view datasource supports only --format table or json.")),
            }
        },
        InspectView::Governance => {
            if layout.is_some() {
                return Err(owned("--layout is only supported with --view query."));
            }
            match chosen_format {
                InspectRenderFormat::Table => Ok(
                    (false, false, Some(InspectExportReportFormat::Governance)),
                ),
                InspectRenderFormat::Json => Ok(
                    (false, false, Some(InspectExportReportFormat::GovernanceJson)),
                ),
                _ => Err(owned("--view governance supports only --format table or json.")),
            }
        },
    }
}


pub open spec fn view_required() -> Seq<char> {
    "--format and --layout require --view."@
}

/// What `normalize_inspect_args` makes of the `(json, table, report)`
/// triple: unchanged when no preferred selector is given, the selection of
/// `--view` otherwise, or the message refusing the options.
pub open spec fn inspect_selection(
    json: bool,
    table: bool,
    report: Option<InspectExportReportFormat>,
    view: Option<InspectView>,
    format: Option<InspectRenderFormat>,
    layout: Option<InspectLayout>,
) -> Result<(bool, bool, Option<InspectExportReportFormat>), Seq<char>> {
    if view is None && format is None && layout is None {
        Ok((json, table, report))
    } else if view is None {
        Err(view_required())
    } else {
        view_selection(view.unwrap(), format, layout)
    }
}

/// Folds the preferred `--view/--format/--layout` selectors into the legacy
/// `json`, `table` and `report` fields; on refusal nothing changes.
pub fn normalize_inspect_args(
    json: &mut bool,
    table: &mut bool,
    report: &mut Option<InspectExportReportFormat>,
    output_format: Option<InspectOutputFormat>,
    view: Option<InspectView>,
    format: Option<InspectRenderFormat>,
    layout: Option<InspectLayout>,
) -> (r: Result<(), String>)
    ensures
        match inspect_selection(*old(json), *old(table), *old(report), view, format, layout) {
            Ok(t) => r is Ok && (*final(json), *final(table), *final(report)) == t,
            Err(m) => r matches Err(e) && e@ == m && *final(json) == *old(json)
                && *final(table) == *old(table) && *final(report) == *old(report),
        },
{
    if view.is_none() && format.is_none() && layout.is_none() {
        return Ok(());
    }
    let v = match view {
        Some(v) => v,
        None => {
            return Err(owned("--format and --layout require --view."));
        },
    };
    let (normalized_json, normalized_table, normalized_report) = match inspect_report_from_view_format_layout(v, format, layout) {
        Ok(t) => t,
        Err(e) => {
            return Err(e);
        },
    };
    *json = normalized_json;
    *table = normalized_table;
    *report = normalized_report;
    let _ = output_format;
    Ok(())
}

/// The list arguments with a legacy `--output-format` folded into the flags.
pub open spec fn normalized_list(l: ListArgs) -> ListArgs {
    let f = simple_flags(l.table, l.csv, l.json, l.output_format);
    ListArgs { table: f.0, csv: f.1, json: f.2, ..l }
}

/// The import arguments with a dry-run `--output-format` folded in.
pub open spec fn normalized_import(a: ImportArgs) -> ImportArgs {
    let f = dry_run_flags(a.table, a.json, a.output_format);
    ImportArgs { table: f.0, json: f.1, ..a }
}

pub open spec fn normalized_inspect_export(a: InspectExportArgs) -> Result<
    InspectExportArgs,
    Seq<char>,
> {
    match inspect_selection(a.json, a.table, a.report, a.view, a.format, a.layout) {
        Ok(t) => Ok(InspectExportArgs { json: t.0, table: t.1, report: t.2, ..a }),
        Err(m) => Err(m),
    }
}

pub open spec fn normalized_inspect_live(a: InspectLiveArgs) -> Result<
    InspectLiveArgs,
    Seq<char>,
> {
    match inspect_selection(a.json, a.table, a.report, a.view, a.format, a.layout) {
        Ok(t) => Ok(InspectLiveArgs { json: t.0, table: t.1, report: t.2, ..a }),
        Err(m) => Err(m),
    }
}

/// The command with its output selectors collapsed into the common flag
/// contract, or the message refusing its inspect options.
pub open spec fn normalized_command(c: DashboardCommand) -> Result<DashboardCommand, Seq<char>> {
    match c {
        DashboardCommand::List(l) => Ok(DashboardCommand::List(normalized_list(l))),
        DashboardCommand::Import(a) => Ok(DashboardCommand::Import(normalized_import(a))),
        DashboardCommand::InspectExport(a) => match normalized_inspect_export(a) {
            Ok(b) => Ok(DashboardCommand::InspectExport(b)),
            Err(m) => Err(m),
        },
        DashboardCommand::InspectLive(a) => match normalized_inspect_live(a) {
            Ok(b) => Ok(DashboardCommand::InspectLive(b)),
            Err(m) => Err(m),
        },
        other => Ok(other),
    }
}

/// Normalizes dashboard CLI variants into a common output-mode flag
/// contract: legacy boolean switches and enum-style aliases are collapsed
/// into the shared handler shape before dispatch.
pub fn try_normalize_dashboard_cli_args(args: DashboardCliArgs) -> (r: Result<
    DashboardCliArgs,
    String,
>)
    ensures
        match (r, normalized_command(args.command)) {
            (Ok(a), Ok(c)) => a.command == c,
            (Err(e), Err(m)) => e@ == m,
            _ => false,
        },
{
    match args.command {
        DashboardCommand::List(mut l) => {
            let f = l.output_format;
            normalize_simple_output_format(&mut l.table, &mut l.csv, &mut l.json, f);
            Ok(DashboardCliArgs { command: DashboardCommand::List(l) })
        },
        DashboardCommand::Import(mut a) => {
            let f = a.output_format;
            normalize_dry_run_output_format(&mut a.table, &mut a.json, f);
            Ok(DashboardCliArgs { command: DashboardCommand::Import(a) })
        },
        DashboardCommand::InspectExport(mut a) => {
            let (o, v, f, l) = (a.output_format, a.view, a.format, a.layout);
            match normalize_inspect_args(&mut a.json, &mut a.table, &mut a.report, o, v, f, l) {
                Ok(()) => Ok(DashboardCliArgs { command: DashboardCommand::InspectExport(a) }),
                Err(e) => Err(e),
            }
        },
        DashboardCommand::InspectLive(mut a) => {
            let (o, v, f, l) = (a.output_format, a.view, a.format, a.layout);
            match normalize_inspect_args(&mut a.json, &mut a.table, &mut a.report, o, v, f, l) {
                Ok(()) => Ok(DashboardCliArgs { command: DashboardCommand::InspectLive(a) }),
                Err(e) => Err(e),
            }
        },
        other => Ok(DashboardCliArgs { command: other }),
    }
}

/// `normalize_dashboard_cli_args` on arguments whose inspect options are
/// accepted; refused options end the program with a usage error before this
/// point.
pub fn normalize_dashboard_cli_args(args: DashboardCliArgs) -> (r: DashboardCliArgs)
    requires
        normalized_command(args.command) is Ok,
    ensures
        Ok::<DashboardCommand, Seq<char>>(r.command) == normalized_command(args.command),
{
    match try_normalize_dashboard_cli_args(args) {
        Ok(a) => a,
        Err(_) => {
            assert(false);
            DashboardCliArgs { command: DashboardCommand::InspectExport(empty_inspect_export_args()) }
        },
    }
}

/// Inspect-export arguments with every option at its default.
pub fn empty_inspect_export_args() -> (a: InspectExportArgs)
    ensures
        a.import_dir@.len() == 0,
        a.report is None && a.view is None && a.format is None && a.layout is None,
        a.output_format is None && a.report_columns@.len() == 0,
        a.report_filter_datasource is None && a.report_filter_panel_id is None,
        !a.json && !a.table && !a.help_full && !a.no_header,
{
    InspectExportArgs {
        import_dir: String::new(),
        json: false,
        table: false,
        view: None,
        format: None,
        layout: None,
        report: None,
        output_format: None,
        report_columns: Vec::new(),
        report_filter_datasource: None,
        report_filter_panel_id: None,
        help_full: false,
        no_header: false,
    }
}

/// The value of the first header named `Authorization`.
pub open spec fn first_authorization(headers: Seq<(String, String)>) -> Option<Seq<char>>
    decreases headers.len(),
{
    if headers.len() == 0 {
        None
    } else if headers[0].0@ == "Authorization"@ {
        Some(headers[0].1@)
    } else {
        first_authorization(headers.drop_first())
    }
}

/// `basic` for a Basic authorization header, `token` for any other one, and
/// `unknown` without one.
pub open spec fn auth_mode_of(headers: Seq<(String, String)>) -> Seq<char> {
    match first_authorization(headers) {
        Some(v) => if crate::text::starts_with(v, "Basic "@) {
            "basic"@
        } else {
            "token"@
        },
        None => "unknown"@,
    }
}

/// The authentication mode that the resolved request headers stand for.
pub fn auth_mode_for_headers(headers: &Vec<(String, String)>) -> (mode: String)
    ensures
        mode@ == auth_mode_of(headers@),
{
    let mut i: usize = 0;
    assert(headers@.skip(0) == headers@);
    while i < headers.len()
        invariant
            i <= headers.len(),
            first_authorization(headers@) == first_authorization(headers@.skip(i as int)),
        decreases headers.len() - i,
    {
        proof {
            assert(headers@.skip(i as int).drop_first() == headers@.skip(i + 1));
        }
        if str_is(headers[i].0.as_str(), "Authorization") {
            let v = crate::text::chars_of(headers[i].1.as_str());
            let p = crate::text::chars_of("Basic ");
            if crate::text::starts_with_chars(v.as_slice(), p.as_slice()) {
                return owned("basic");
            } else {
                return owned("token");
            }
        }
        i = i + 1;
    }
    owned("unknown")
}

/// The connection context for one command: the URL, timeout and TLS choice
/// of the common options, the resolved headers, and the mode they stand for.
pub fn build_auth_context(common: &CommonCliArgs, headers: Vec<(String, String)>) -> (ctx:
    DashboardAuthContext)
    ensures
        ctx.url@ == common.url@,
        ctx.timeout == common.timeout,
        ctx.verify_ssl == common.verify_ssl,
        ctx.auth_mode@ == auth_mode_of(headers@),
        ctx.headers == headers,
{
    let auth_mode = auth_mode_for_headers(&headers);
    DashboardAuthContext {
        url: common.url.clone(),
        timeout: common.timeout,
        verify_ssl: common.verify_ssl,
        auth_mode,
        headers,
    }
}

/// The headers of a request routed to one Grafana org: the context's
/// headers followed by `X-Grafana-Org-Id`.
pub fn org_scoped_headers(context: &DashboardAuthContext, org_id: i64) -> (h: Vec<(String, String)>)
    ensures
        h@.len() == context.headers@.len() + 1,
        h@.take(context.headers@.len() as int) == context.headers@,
        h@.last().0@ == "X-Grafana-Org-Id"@,
        h@.last().1@ == crate::text::signed_decimal(org_id as int),
{
    let mut h = crate::text::clone_pairs(context.headers.as_slice());
    h.push((owned("X-Grafana-Org-Id"), crate::text::i64_text(org_id)));
    h
}

/// What a JSON HTTP client for one Grafana instance is built from.
#[derive(Debug)]
pub struct JsonHttpClientConfig {
    pub base_url: String,
    pub headers: Vec<(String, String)>,
    pub timeout_secs: u64,
    pub verify_ssl: bool,
}

/// The client configuration for the common connection options and the
/// resolved authentication headers.
pub fn build_http_client(common: &CommonCliArgs, headers: Vec<(String, String)>) -> (c:
    JsonHttpClientConfig)
    ensures
        c.base_url@ == common.url@,
        c.headers == headers,
        c.timeout_secs == common.timeout,
        c.verify_ssl == common.verify_ssl,
{
    let context = build_auth_context(common, headers);
    JsonHttpClientConfig {
        base_url: context.url,
        headers: context.headers,
        timeout_secs: context.timeout,
        verify_ssl: context.verify_ssl,
    }
}

/// The client configuration routed to one Grafana org: as
/// `build_http_client`, with `X-Grafana-Org-Id` appended to the headers.
pub fn build_http_client_for_org(
    common: &CommonCliArgs,
    headers: Vec<(String, String)>,
    org_id: i64,
) -> (c: JsonHttpClientConfig)
    ensures
        c.base_url@ == common.url@,
        c.timeout_secs == common.timeout,
        c.verify_ssl == common.verify_ssl,
        c.headers@.len() == headers@.len() + 1,
        c.headers@.take(headers@.len() as int) == headers@,
        c.headers@.last().0@ == "X-Grafana-Org-Id"@,
        c.headers@.last().1@ == crate::text::signed_decimal(org_id as int),
{
    let mut context = build_auth_context(common, headers);
    let ghost before = context.headers@;
    context.headers.push((owned("X-Grafana-Org-Id"), crate::text::i64_text(org_id)));
    assert(context.headers@.take(before.len() as int) =~= before);
    JsonHttpClientConfig {
        base_url: context.url,
        headers: context.headers,
        timeout_secs: context.timeout,
        verify_ssl: context.verify_ssl,
    }
}

} // verus!
