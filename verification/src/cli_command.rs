//! The dashboard command surface of the current command line: its
//! argument records, the column parsers its options use, and the
//! normalisation that folds `--output-format` into the render flags.
//! Paths are carried as strings.
use vstd::prelude::*;

use crate::cli_defs::{CommonCliArgs, DryRunOutputFormat, InspectExportArgs, InspectLiveArgs};
use crate::text::{owned, str_is};

verus! {

/// The output selector of the listing commands.
#[derive(Debug, Clone, Copy, PartialEq, Eq)]
pub enum SimpleOutputFormat {
    Text,
    Table,
    Csv,
    Json,
    Yaml,
}

/// How an import directory is laid out.
#[derive(Debug, Clone, Copy, PartialEq, Eq)]
pub enum DashboardImportInputFormat {
    Raw,
    Provisioning,
}

/// Arguments for exporting dashboards into raw, prompt, and provisioning
/// variants.
#[derive(Debug)]
pub struct ExportArgs {
    pub common: CommonCliArgs,
    pub export_dir: String,
    pub page_size: usize,
    pub org_id: Option<i64>,
    pub all_orgs: bool,
    pub flat: bool,
    pub overwrite: bool,
    pub without_dashboard_raw: bool,
    pub without_dashboard_prompt: bool,
    pub without_dashboard_provisioning: bool,
    pub provisioning_provider_name: String,
    pub provisioning_provider_org_id: Option<i64>,
    pub provisioning_provider_path: Option<String>,
    pub provisioning_provider_disable_deletion: bool,
    pub provisioning_provider_allow_ui_updates: bool,
    pub provisioning_provider_update_interval_seconds: i64,
    pub dry_run: bool,
    pub progress: bool,
    pub verbose: bool,
}

/// Arguments for listing dashboards from live Grafana.
#[derive(Debug)]
pub struct ListArgs {
    pub common: CommonCliArgs,
    pub page_size: usize,
    pub org_id: Option<i64>,
    pub all_orgs: bool,
    pub with_sources: bool,
    pub output_columns: Vec<String>,
    pub text: bool,
    pub table: bool,
    pub csv: bool,
    pub json: bool,
    pub yaml: bool,
    pub output_format: Option<SimpleOutputFormat>,
    pub no_header: bool,
}

/// Arguments for importing dashboards from a local export directory.
#[derive(Debug)]
pub struct ImportArgs {
    pub common: CommonCliArgs,
    pub org_id: Option<i64>,
    pub use_export_org: bool,
    pub only_org_id: Vec<i64>,
    pub create_missing_orgs: bool,
    pub import_dir: String,
    pub input_format: DashboardImportInputFormat,
    pub import_folder_uid: Option<String>,
    pub ensure_folders: bool,
    pub replace_existing: bool,
    pub update_existing_only: bool,
    pub require_matching_folder_path: bool,
    pub require_matching_export_org: bool,
    pub strict_schema: bool,
    pub target_schema_version: Option<i64>,
    pub import_message: String,
    pub interactive: bool,
    pub dry_run: bool,
    pub table: bool,
    pub json: bool,
    pub output_format: Option<DryRunOutputFormat>,
    pub no_header: bool,
    pub output_columns: Vec<String>,
    pub progress: bool,
    pub verbose: bool,
}

/// Arguments for patching one local dashboard JSON file in place or to a
/// new path.
#[derive(Debug)]
pub struct PatchFileArgs {
    pub input: String,
    pub output: Option<String>,
    pub name: Option<String>,
    pub uid: Option<String>,
    pub folder_uid: Option<String>,
    pub message: Option<String>,
    pub tags: Vec<String>,
}

/// Arguments for reviewing one local dashboard JSON file without touching
/// Grafana.
#[derive(Debug)]
pub struct ReviewArgs {
    pub input: String,
    pub json: bool,
    pub table: bool,
    pub csv: bool,
    pub yaml: bool,
    pub output_format: Option<SimpleOutputFormat>,
}

/// Arguments for publishing one local dashboard JSON file through the live
/// import pipeline.
#[derive(Debug)]
pub struct PublishArgs {
    pub common: CommonCliArgs,
    pub input: String,
    pub replace_existing: bool,
    pub folder_uid: Option<String>,
    pub message: String,
    pub dry_run: bool,
    pub table: bool,
    pub json: bool,
}

/// Arguments for fetching one live dashboard into a local draft file.
#[derive(Debug)]
pub struct GetArgs {
    pub common: CommonCliArgs,
    pub dashboard_uid: String,
    pub output: String,
}

/// Arguments for cloning one live dashboard into a local draft file.
#[derive(Debug)]
pub struct CloneLiveArgs {
    pub common: CommonCliArgs,
    pub source_uid: String,
    pub output: String,
    pub name: Option<String>,
    pub uid: Option<String>,
    pub folder_uid: Option<String>,
}

/// Arguments for deleting live dashboards by UID or folder path.
#[derive(Debug)]
pub struct DeleteArgs {
    pub common: CommonCliArgs,
    pub page_size: usize,
    pub org_id: Option<i64>,
    pub uid: Option<String>,
    pub path: Option<String>,
    pub delete_folders: bool,
    pub yes: bool,
    pub interactive: bool,
    pub dry_run: bool,
    pub table: bool,
    pub json: bool,
    pub output_format: Option<DryRunOutputFormat>,
    pub no_header: bool,
}

/// Arguments for browsing the live dashboard tree.
#[derive(Debug)]
pub struct BrowseArgs {
    pub common: CommonCliArgs,
    pub page_size: usize,
    pub org_id: Option<i64>,
    pub all_orgs: bool,
    pub path: Option<String>,
}

/// Arguments for comparing local dashboard files with live Grafana.
#[derive(Debug)]
pub struct DiffArgs {
    pub common: CommonCliArgs,
    pub import_dir: String,
    pub input_format: DashboardImportInputFormat,
    pub import_folder_uid: Option<String>,
    pub context_lines: usize,
}

/// The dashboard subcommands.
#[derive(Debug)]
pub enum DashboardCommand {
    List(ListArgs),
    Get(GetArgs),
    CloneLive(CloneLiveArgs),
    Export(ExportArgs),
    Import(ImportArgs),
    Browse(BrowseArgs),
    Delete(DeleteArgs),
    Diff(DiffArgs),
    PatchFile(PatchFileArgs),
    Review(ReviewArgs),
    Publish(PublishArgs),
    InspectExport(InspectExportArgs),
    InspectLive(InspectLiveArgs),
}

/// The dashboard command line.
#[derive(Debug)]
pub struct DashboardCliArgs {
    pub command: DashboardCommand,
}

/// The canonical list column for an accepted `--output-columns` value.
pub open spec fn list_output_column(v: Seq<char>) -> Option<Seq<char>> {
    if v == "uid"@ {
        Some("uid"@)
    } else if v == "name"@ {
        Some("name"@)
    } else if v == "folder"@ {
        Some("folder"@)
    } else if v == "folder_uid"@ || v == "folderUid"@ {
        Some("folder_uid"@)
    } else if v == "path"@ {
        Some("path"@)
    } else if v == "org"@ {
        Some("org"@)
    } else if v == "org_id"@ || v == "orgId"@ {
        Some("org_id"@)
    } else if v == "sources"@ {
        Some("sources"@)
    } else if v == "source_uids"@ || v == "sourceUids"@ {
        Some("source_uids"@)
    } else {
        None
    }
}

pub open spec fn list_output_column_error(v: Seq<char>) -> Seq<char> {
    "Unsupported --output-columns value '"@ + v
        + "'. Supported values: uid, name, folder, folder_uid, path, org, org_id, sources, source_uids."@
}

/// Accepts the list columns by their snake_case names and their JSON-style
/// aliases.
pub fn parse_dashboard_list_output_column(value: &str) -> (r: Result<String, String>)
    ensures
        match (r, list_output_column(value@)) {
            (Ok(s), Some(c)) => s@ == c,
            (Err(e), None) => e@ == list_output_column_error(value@),
            _ => false,
        },
{
    if str_is(value, "uid") {
        Ok(owned("uid"))
    } else if str_is(value, "name") {
        Ok(owned("name"))
    } else if str_is(value, "folder") {
        Ok(owned("folder"))
    } else if str_is(value, "folder_uid") || str_is(value, "folderUid") {
        Ok(owned("folder_uid"))
    } else if str_is(value, "path") {
        Ok(owned("path"))
    } else if str_is(value, "org") {
        Ok(owned("org"))
    } else if str_is(value, "org_id") || str_is(value, "orgId") {
        Ok(owned("org_id"))
    } else if str_is(value, "sources") {
        Ok(owned("sources"))
    } else if str_is(value, "source_uids") || str_is(value, "sourceUids") {
        Ok(owned("source_uids"))
    } else {
        let mut e = owned("Unsupported --output-columns value '");
        e.append(value);
        e.append("'. Supported values: uid, name, folder, folder_uid, path, org, org_id, sources, source_uids.");
        Err(e)
    }
}

} // verus!
verus! {

/// The canonical report column for an accepted `--report-columns` value.
pub open spec fn inspect_report_column(v: Seq<char>) -> Option<Seq<char>> {
    if v == "all"@ {
        Some("all"@)
    } else if v == "org"@ {
        Some("org"@)
    } else if v == "org_id"@ || v == "orgId"@ {
        Some("org_id"@)
    } else if v == "dashboard_uid"@ || v == "dashboardUid"@ {
        Some("dashboard_uid"@)
    } else if v == "dashboard_title"@ || v == "dashboardTitle"@ {
        Some("dashboard_title"@)
    } else if v == "dashboard_tags"@ || v == "dashboardTags"@ {
        Some("dashboard_tags"@)
    } else if v == "folder_path"@ || v == "folderPath"@ {
        Some("folder_path"@)
    } else if v == "folder_full_path"@ || v == "folderFullPath"@ {
        Some("folder_full_path"@)
    } else if v == "folder_level"@ || v == "folderLevel"@ {
        Some("folder_level"@)
    } else if v == "folder_uid"@ || v == "folderUid"@ {
        Some("folder_uid"@)
    } else if v == "parent_folder_uid"@ || v == "parentFolderUid"@ {
        Some("parent_folder_uid"@)
    } else if v == "panel_id"@ || v == "panelId"@ {
        Some("panel_id"@)
    } else if v == "panel_title"@ || v == "panelTitle"@ {
        Some("panel_title"@)
    } else if v == "panel_type"@ || v == "panelType"@ {
        Some("panel_type"@)
    } else if v == "panel_target_count"@ || v == "panelTargetCount"@ {
        Some("panel_target_count"@)
    } else if v == "panel_query_count"@ || v == "panelQueryCount"@ {
        Some("panel_query_count"@)
    } else if v == "panel_datasource_count"@ || v == "panelDatasourceCount"@ {
        Some("panel_datasource_count"@)
    } else if v == "panel_variables"@ || v == "panelVariables"@ {
        Some("panel_variables"@)
    } else if v == "ref_id"@ || v == "refId"@ {
        Some("ref_id"@)
    } else if v == "datasource"@ {
        Some("datasource"@)
    } else if v == "datasource_name"@ || v == "datasourceName"@ {
        Some("datasource_name"@)
    } else if v == "datasource_uid"@ || v == "datasourceUid"@ {
        Some("datasource_uid"@)
    } else if v == "datasource_org"@ || v == "datasourceOrg"@ {
        Some("datasource_org"@)
    } else if v == "datasource_org_id"@ || v == "datasourceOrgId"@ {
        Some("datasource_org_id"@)
    } else if v == "datasource_database"@ || v == "datasourceDatabase"@ {
        Some("datasource_database"@)
    } else if v == "datasource_bucket"@ || v == "datasourceBucket"@ {
        Some("datasource_bucket"@)
    } else if v == "datasource_organization"@ || v == "datasourceOrganization"@ {
        Some("datasource_organization"@)
    } else if v == "datasource_index_pattern"@ || v == "datasourceIndexPattern"@ {
        Some("datasource_index_pattern"@)
    } else if v == "datasource_type"@ || v == "datasourceType"@ {
        Some("datasource_type"@)
    } else if v == "datasource_family"@ || v == "datasourceFamily"@ {
        Some("datasource_family"@)
    } else if v == "query_field"@ || v == "queryField"@ {
        Some("query_field"@)
    } else if v == "target_hidden"@ || v == "targetHidden"@ {
        Some("target_hidden"@)
    } else if v == "target_disabled"@ || v == "targetDisabled"@ {
        Some("target_disabled"@)
    } else if v == "query_variables"@ || v == "queryVariables"@ {
        Some("query_variables"@)
    } else if v == "metrics"@ {
        Some("metrics"@)
    } else if v == "functions"@ {
        Some("functions"@)
    } else if v == "measurements"@ {
        Some("measurements"@)
    } else if v == "buckets"@ {
        Some("buckets"@)
    } else if v == "query"@ {
        Some("query"@)
    } else if v == "file"@ {
        Some("file"@)
    } else {
        None
    }
}

pub open spec fn inspect_report_column_error(v: Seq<char>) -> Seq<char> {
    "Unsupported --report-columns value '"@ + v + "'. Supported values: all, org, org_id, dashboard_uid, dashboard_title, dashboard_tags, folder_path, folder_full_path, folder_level, folder_uid, parent_folder_uid, panel_id, panel_title, panel_type, panel_target_count, panel_query_count, panel_datasource_count, panel_variables, ref_id, datasource, datasource_name, datasource_uid, datasource_org, datasource_org_id, datasource_database, datasource_bucket, datasource_organization, datasource_index_pattern, datasource_type, datasource_family, query_field, target_hidden, target_disabled, query_variables, metrics, functions, measurements, buckets, query, file."@
}

/// Accepts the report columns by their snake_case names and their
/// camelCase aliases.
pub fn parse_inspect_report_column(value: &str) -> (r: Result<String, String>)
    ensures
        match (r, inspect_report_column(value@)) {
            (Ok(s), Some(c)) => s@ == c,
            (Err(e), None) => e@ == inspect_report_column_error(value@),
            _ => false,
        },
{
    if str_is(value, "all") {
        Ok(owned("all"))
    } else if str_is(value, "org") {
        Ok(owned("org"))
    } else if str_is(value, "org_id") || str_is(value, "orgId") {
        Ok(owned("org_id"))
    } else if str_is(value, "dashboard_uid") || str_is(value, "dashboardUid") {
        Ok(owned("dashboard_uid"))
    } else if str_is(value, "dashboard_title") || str_is(value, "dashboardTitle") {
        Ok(owned("dashboard_title"))
    } else if str_is(value, "dashboard_tags") || str_is(value, "dashboardTags") {
        Ok(owned("dashboard_tags"))
    } else if str_is(value, "folder_path") || str_is(value, "folderPath") {
        Ok(owned("folder_path"))
    } else if str_is(value, "folder_full_path") || str_is(value, "folderFullPath") {
        Ok(owned("folder_full_path"))
    } else if str_is(value, "folder_level") || str_is(value, "folderLevel") {
        Ok(owned("folder_level"))
    } else if str_is(value, "folder_uid") || str_is(value, "folderUid") {
        Ok(owned("folder_uid"))
    } else if str_is(value, "parent_folder_uid") || str_is(value, "parentFolderUid") {
        Ok(owned("parent_folder_uid"))
    } else if str_is(value, "panel_id") || str_is(value, "panelId") {
        Ok(owned("panel_id"))
    } else if str_is(value, "panel_title") || str_is(value, "panelTitle") {
        Ok(owned("panel_title"))
    } else if str_is(value, "panel_type") || str_is(value, "panelType") {
        Ok(owned("panel_type"))
    } else if str_is(value, "panel_target_count") || str_is(value, "panelTargetCount") {
        Ok(owned("panel_target_count"))
    } else if str_is(value, "panel_query_count") || str_is(value, "panelQueryCount") {
        Ok(owned("panel_query_count"))
    } else if str_is(value, "panel_datasource_count") || str_is(value, "panelDatasourceCount") {
        Ok(owned("panel_datasource_count"))
    } else if str_is(value, "panel_variables") || str_is(value, "panelVariables") {
        Ok(owned("panel_variables"))
    } else if str_is(value, "ref_id") || str_is(value, "refId") {
        Ok(owned("ref_id"))
    } else if str_is(value, "datasource") {
        Ok(owned("datasource"))
    } else if str_is(value, "datasource_name") || str_is(value, "datasourceName") {
        Ok(owned("datasource_name"))
    } else if str_is(value, "datasource_uid") || str_is(value, "datasourceUid") {
        Ok(owned("datasource_uid"))
    } else if str_is(value, "datasource_org") || str_is(value, "datasourceOrg") {
        Ok(owned("datasource_org"))
    } else if str_is(value, "datasource_org_id") || str_is(value, "datasourceOrgId") {
        Ok(owned("datasource_org_id"))
    } else if str_is(value, "datasource_database") || str_is(value, "datasourceDatabase") {
        Ok(owned("datasource_database"))
    } else if str_is(value, "datasource_bucket") || str_is(value, "datasourceBucket") {
        Ok(owned("datasource_bucket"))
    } else if str_is(value, "datasource_organization") || str_is(value, "datasourceOrganization") {
        Ok(owned("datasource_organization"))
    } else if str_is(value, "datasource_index_pattern") || str_is(value, "datasourceIndexPattern") {
        Ok(owned("datasource_index_pattern"))
    } else if str_is(value, "datasource_type") || str_is(value, "datasourceType") {
        Ok(owned("datasource_type"))
    } else if str_is(value, "datasource_family") || str_is(value, "datasourceFamily") {
        Ok(owned("datasource_family"))
    } else if str_is(value, "query_field") || str_is(value, "queryField") {
        Ok(owned("query_field"))
    } else if str_is(value, "target_hidden") || str_is(value, "targetHidden") {
        Ok(owned("target_hidden"))
    } else if str_is(value, "target_disabled") || str_is(value, "targetDisabled") {
        Ok(owned("target_disabled"))
    } else if str_is(value, "query_variables") || str_is(value, "queryVariables") {
        Ok(owned("query_variables"))
    } else if str_is(value, "metrics") {
        Ok(owned("metrics"))
    } else if str_is(value, "functions") {
        Ok(owned("functions"))
    } else if str_is(value, "measurements") {
        Ok(owned("measurements"))
    } else if str_is(value, "buckets") {
        Ok(owned("buckets"))
    } else if str_is(value, "query") {
        Ok(owned("query"))
    } else if str_is(value, "file") {
        Ok(owned("file"))
    } else {
        let mut e = owned("Unsupported --report-columns value '");
        e.append(value);
        e.append("'. Supported values: all, org, org_id, dashboard_uid, dashboard_title, dashboard_tags, folder_path, folder_full_path, folder_level, folder_uid, parent_folder_uid, panel_id, panel_title, panel_type, panel_target_count, panel_query_count, panel_datasource_count, panel_variables, ref_id, datasource, datasource_name, datasource_uid, datasource_org, datasource_org_id, datasource_database, datasource_bucket, datasource_organization, datasource_index_pattern, datasource_type, datasource_family, query_field, target_hidden, target_disabled, query_variables, metrics, functions, measurements, buckets, query, file.");
        Err(e)
    }
}

/// The render flags `(text, table, csv, json, yaml)` after an
/// `--output-format` selection.
pub open spec fn simple_flags(
    flags: (bool, bool, bool, bool, bool),
    f: Option<SimpleOutputFormat>,
) -> (bool, bool, bool, bool, bool) {
    match f {
        Some(SimpleOutputFormat::Text) => (true, flags.1, flags.2, flags.3, flags.4),
        Some(SimpleOutputFormat::Table) => (flags.0, true, flags.2, flags.3, flags.4),
        Some(SimpleOutputFormat::Csv) => (flags.0, flags.1, true, flags.3, flags.4),
        Some(SimpleOutputFormat::Json) => (flags.0, flags.1, flags.2, true, flags.4),
        Some(SimpleOutputFormat::Yaml) => (flags.0, flags.1, flags.2, flags.3, true),
        None => flags,
    }
}

/// Sets the render flag that an `--output-format` selection stands for.
pub fn normalize_simple_output_format(
    text: &mut bool,
    table: &mut bool,
    csv: &mut bool,
    json: &mut bool,
    yaml: &mut bool,
    output_format: Option<SimpleOutputFormat>,
)
    ensures
        (*final(text), *final(table), *final(csv), *final(json), *final(yaml)) == simple_flags(
            (*old(text), *old(table), *old(csv), *old(json), *old(yaml)),
            output_format,
        ),
{
    match output_format {
        Some(SimpleOutputFormat::Text) => *text = true,
        Some(SimpleOutputFormat::Table) => *table = true,
        Some(SimpleOutputFormat::Csv) => *csv = true,
        Some(SimpleOutputFormat::Json) => *json = true,
        Some(SimpleOutputFormat::Yaml) => *yaml = true,
        None => {},
    }
}

/// A listing command with `--output-format` folded into its flags.
pub open spec fn normalized_list(a: ListArgs) -> ListArgs {
    let f = simple_flags((a.text, a.table, a.csv, a.json, a.yaml), a.output_format);
    ListArgs { text: f.0, table: f.1, csv: f.2, json: f.3, yaml: f.4, ..a }
}

/// An import with its dry-run `--output-format` folded into its flags.
pub open spec fn normalized_import(a: ImportArgs) -> ImportArgs {
    let f = crate::cli_defs::dry_run_flags(a.table, a.json, a.output_format);
    ImportArgs { table: f.0, json: f.1, ..a }
}

/// A deletion with its dry-run `--output-format` folded into its flags.
pub open spec fn normalized_delete(a: DeleteArgs) -> DeleteArgs {
    let f = crate::cli_defs::dry_run_flags(a.table, a.json, a.output_format);
    DeleteArgs { table: f.0, json: f.1, ..a }
}

/// The command after normalisation; commands without output selectors are
/// kept as they are.
pub open spec fn normalized(c: DashboardCommand) -> DashboardCommand {
    match c {
        DashboardCommand::List(a) => DashboardCommand::List(normalized_list(a)),
        DashboardCommand::Import(a) => DashboardCommand::Import(normalized_import(a)),
        DashboardCommand::Delete(a) => DashboardCommand::Delete(normalized_delete(a)),
        other => other,
    }
}

fn normalize_list(l: ListArgs) -> (r: ListArgs)
    ensures
        r == normalized_list(l),
{
    let mut l = l;
    let f = l.output_format;
    normalize_simple_output_format(&mut l.text, &mut l.table, &mut l.csv, &mut l.json, &mut l.yaml, f);
    l
}

fn normalize_import(a: ImportArgs) -> (r: ImportArgs)
    ensures
        r == normalized_import(a),
{
    let mut a = a;
    let f = a.output_format;
    crate::cli_defs::normalize_dry_run_output_format(&mut a.table, &mut a.json, f);
    a
}

fn normalize_delete(a: DeleteArgs) -> (r: DeleteArgs)
    ensures
        r == normalized_delete(a),
{
    let mut a = a;
    let f = a.output_format;
    crate::cli_defs::normalize_dry_run_output_format(&mut a.table, &mut a.json, f);
    a
}

/// Folds `--output-format` into the boolean render flags, so that the
/// legacy and the explicit flags reach the command handlers alike.
pub fn normalize_dashboard_cli_args(args: DashboardCliArgs) -> (r: DashboardCliArgs)
    ensures
        r.command == normalized(args.command),
{
    let command = match args.command {
        DashboardCommand::List(l) => DashboardCommand::List(normalize_list(l)),
        DashboardCommand::Import(i) => DashboardCommand::Import(normalize_import(i)),
        DashboardCommand::Delete(d) => DashboardCommand::Delete(normalize_delete(d)),
        other => other,
    };
    DashboardCliArgs { command }
}


/// The refusal of an export that turns every variant off.
pub open spec fn no_export_variant_error() -> Seq<char> {
    "At least one export variant must stay enabled. Remove --without-raw, --without-prompt, or --without-provisioning."@
}

/// Checks that an export keeps at least one of its raw, prompt and
/// provisioning variants.
pub fn validate_export_variants(args: &ExportArgs) -> (r: Result<(), String>)
    ensures
        r is Ok <==> !(args.without_dashboard_raw && args.without_dashboard_prompt
            && args.without_dashboard_provisioning),
        r is Err ==> r->Err_0@ == no_export_variant_error(),
{
    if args.without_dashboard_raw && args.without_dashboard_prompt && args.without_dashboard_provisioning {
        Err(owned(
            "At least one export variant must stay enabled. Remove --without-raw, --without-prompt, or --without-provisioning.",
        ))
    } else {
        Ok(())
    }
}

/// The outcome of `diff`: success where nothing differs, else an error that
/// counts the differing dashboards.
pub fn diff_result(differences: usize) -> (r: Result<(), String>)
    ensures
        r is Ok <==> differences == 0,
        r is Err ==> r->Err_0@ == "Dashboard diff found "@ + crate::text::decimal(differences as nat)
            + " differing item(s)."@,
{
    if differences > 0 {
        let mut e = owned("Dashboard diff found ");
        e.append(crate::text::usize_text(differences).as_str());
        e.append(" differing item(s).");
        Err(e)
    } else {
        Ok(())
    }
}


/// The output format of `review`: the one named with `--output-format`,
/// else the first of `--json`, `--table`, `--csv` and `--yaml` that is set,
/// else text.
pub open spec fn review_format(a: ReviewArgs) -> SimpleOutputFormat {
    match a.output_format {
        Some(f) => f,
        None => if a.json {
            SimpleOutputFormat::Json
        } else if a.table {
            SimpleOutputFormat::Table
        } else if a.csv {
            SimpleOutputFormat::Csv
        } else if a.yaml {
            SimpleOutputFormat::Yaml
        } else {
            SimpleOutputFormat::Text
        },
    }
}

/// Chooses how `review` prints its report.
pub fn review_output_format(args: &ReviewArgs) -> (f: SimpleOutputFormat)
    ensures
        f == review_format(*args),
{
    match args.output_format {
        Some(f) => f,
        None => if args.json {
            SimpleOutputFormat::Json
        } else if args.table {
            SimpleOutputFormat::Table
        } else if args.csv {
            SimpleOutputFormat::Csv
        } else if args.yaml {
            SimpleOutputFormat::Yaml
        } else {
            SimpleOutputFormat::Text
        },
    }
}

} // verus!
