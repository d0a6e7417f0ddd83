//! The decisions of a dashboard import run, one dashboard file at a time.
//! The caller reads each file, asks Grafana what the decisions need, and
//! performs what they decide: a request, a line of output, a skip.
use vstd::prelude::*;

use crate::cli_defs::ImportArgs;
use crate::import::{
    build_import_payload, dashboard_object_of, extract_dashboard_object, import_payload,
    meta_folder_uid, object_error, opt_view,
};
use crate::json::{field, get_field, get_str, str_field, string_field, string_field_of, Json, JsonValue};
use crate::strset::views;
use crate::text::{decimal, owned, trim};

verus! {

/// The folder title Grafana shows for dashboards outside any folder.
pub open spec fn general_title() -> Seq<char> {
    "General"@
}

/// The UID under which Grafana lists its default folder.
pub open spec fn general_uid() -> Seq<char> {
    "general"@
}

/// What stands for a UID that is not known.
pub open spec fn unknown_uid() -> Seq<char> {
    "unknown"@
}

/// Whether an import may overwrite a dashboard that already exists.
pub open spec fn effective_replace(a: ImportArgs) -> bool {
    a.replace_existing || a.update_existing_only
}

/// The import mode named in the run's first line.
pub open spec fn import_mode(replace_existing: bool, update_existing_only: bool) -> Seq<char> {
    if update_existing_only {
        "update-or-skip-missing"@
    } else if replace_existing {
        "create-or-update"@
    } else {
        "create-only"@
    }
}

/// Names the import mode that the overwrite flags select.
pub fn describe_dashboard_import_mode(replace_existing: bool, update_existing_only: bool) -> (r:
    String)
    ensures
        r@ == import_mode(replace_existing, update_existing_only),
{
    if update_existing_only {
        owned("update-or-skip-missing")
    } else if replace_existing {
        owned("create-or-update")
    } else {
        owned("create-only")
    }
}

/// The destination state and the action label that a planned action
/// shows as.
pub open spec fn import_action_parts(action: Seq<char>) -> (Seq<char>, Seq<char>) {
    if action == "would-create"@ {
        ("missing"@, "create"@)
    } else if action == "would-update"@ {
        ("exists"@, "update"@)
    } else if action == "would-skip-missing"@ {
        ("missing"@, "skip-missing"@)
    } else if action == "would-fail-existing"@ {
        ("exists"@, "blocked-existing"@)
    } else if action == "would-skip-folder-mismatch"@ {
        ("exists"@, "skip-folder-mismatch"@)
    } else {
        (unknown_uid(), action)
    }
}

/// Splits a planned action into the destination state and the label shown.
pub fn describe_import_action(action: &str) -> (r: (String, String))
    ensures
        (r.0@, r.1@) == import_action_parts(action@),
{
    if crate::text::str_is(action, "would-create") {
        (owned("missing"), owned("create"))
    } else if crate::text::str_is(action, "would-update") {
        (owned("exists"), owned("update"))
    } else if crate::text::str_is(action, "would-skip-missing") {
        (owned("missing"), owned("skip-missing"))
    } else if crate::text::str_is(action, "would-fail-existing") {
        (owned("exists"), owned("blocked-existing"))
    } else if crate::text::str_is(action, "would-skip-folder-mismatch") {
        (owned("exists"), owned("skip-folder-mismatch"))
    } else {
        (owned("unknown"), owned(action))
    }
}

/// The refusal of an import option combination, if any.
pub open spec fn import_args_error(a: ImportArgs) -> Option<Seq<char>> {
    if a.table && !a.dry_run {
        Some("--table is only supported with --dry-run for import-dashboard."@)
    } else if a.json && !a.dry_run {
        Some("--json is only supported with --dry-run for import-dashboard."@)
    } else if a.table && a.json {
        Some("--table and --json are mutually exclusive for import-dashboard."@)
    } else if a.no_header && !a.table {
        Some("--no-header is only supported with --dry-run --table for import-dashboard."@)
    } else if a.output_columns@.len() > 0 && !a.table {
        Some(
            "--output-columns is only supported with --dry-run --table or table-like --output-format for import-dashboard."@,
        )
    } else if a.require_matching_folder_path && a.import_folder_uid is Some {
        Some("--require-matching-folder-path cannot be combined with --import-folder-uid."@)
    } else if a.ensure_folders && a.import_folder_uid is Some {
        Some("--ensure-folders cannot be combined with --import-folder-uid."@)
    } else {
        None
    }
}

/// Refuses the option combinations an import run does not take.
pub fn validate_import_args(args: &ImportArgs) -> (r: Result<(), String>)
    ensures
        match (r, import_args_error(*args)) {
            (Ok(_), None) => true,
            (Err(e), Some(m)) => e@ == m,
            _ => false,
        },
{
    if args.table && !args.dry_run {
        Err(owned("--table is only supported with --dry-run for import-dashboard."))
    } else if args.json && !args.dry_run {
        Err(owned("--json is only supported with --dry-run for import-dashboard."))
    } else if args.table && args.json {
        Err(owned("--table and --json are mutually exclusive for import-dashboard."))
    } else if args.no_header && !args.table {
        Err(owned("--no-header is only supported with --dry-run --table for import-dashboard."))
    } else if args.output_columns.len() > 0 && !args.table {
        Err(owned(
            "--output-columns is only supported with --dry-run --table or table-like --output-format for import-dashboard.",
        ))
    } else if args.require_matching_folder_path && args.import_folder_uid.is_some() {
        Err(owned("--require-matching-folder-path cannot be combined with --import-folder-uid."))
    } else if args.ensure_folders && args.import_folder_uid.is_some() {
        Err(owned("--ensure-folders cannot be combined with --import-folder-uid."))
    } else {
        Ok(())
    }
}

/// The action an import takes for a dashboard, given whether Grafana has
/// one with its UID. A run that only updates existing dashboards skips
/// every dashboard Grafana lacks, one without UID among them; any other run
/// creates a dashboard without UID.
pub open spec fn import_action(uid: Seq<char>, exists: bool, replace_existing: bool, update_existing_only: bool) -> Seq<char> {
    if uid.len() == 0 {
        if update_existing_only {
            "would-skip-missing"@
        } else {
            "would-create"@
        }
    } else if !exists {
        if update_existing_only {
            "would-skip-missing"@
        } else {
            "would-create"@
        }
    } else if replace_existing || update_existing_only {
        "would-update"@
    } else {
        "would-fail-existing"@
    }
}

/// Decides the import action for a dashboard UID from what Grafana has.
pub fn determine_dashboard_import_action(
    uid: &str,
    exists: bool,
    replace_existing: bool,
    update_existing_only: bool,
) -> (r: String)
    ensures
        r@ == import_action(uid@, exists, replace_existing, update_existing_only),
{
    if uid.unicode_len() == 0 {
        if update_existing_only {
            owned("would-skip-missing")
        } else {
            owned("would-create")
        }
    } else if !exists {
        if update_existing_only {
            owned("would-skip-missing")
        } else {
            owned("would-create")
        }
    } else if replace_existing || update_existing_only {
        owned("would-update")
    } else {
        owned("would-fail-existing")
    }
}

/// The message refusing a live dashboard payload that is no object.
pub open spec fn unexpected_payload(uid: Seq<char>) -> Seq<char> {
    "Unexpected dashboard payload for UID "@ + uid + "."@
}

/// The folder an import targets: the override where one is given;
/// otherwise, when existing dashboards keep their folder, the folder of the
/// live dashboard with the same UID (empty where it names none).
pub open spec fn folder_override(
    uid: Seq<char>,
    override_uid: Option<Seq<char>>,
    preserve_existing_folder: bool,
    existing: Option<Json>,
) -> Result<Option<Seq<char>>, Seq<char>> {
    match override_uid {
        Some(f) => Ok(Some(f)),
        None => if !preserve_existing_folder || uid.len() == 0 {
            Ok(None)
        } else {
            match existing {
                None => Ok(None),
                Some(p) => if p is Object {
                    Ok(
                        Some(
                            match meta_folder_uid(p) {
                                Some(f) => f,
                                None => Seq::empty(),
                            },
                        ),
                    )
                } else {
                    Err(unexpected_payload(uid))
                },
            }
        },
    }
}

/// Decides the target folder of an import from the override and from the
/// live dashboard that has the same UID, where it was looked up.
pub fn determine_import_folder_uid_override(
    uid: &str,
    folder_uid_override: Option<&str>,
    preserve_existing_folder: bool,
    existing: Option<&JsonValue>,
) -> (r: Result<Option<String>, String>)
    ensures
        match (r, folder_override(uid@, opt_view(folder_uid_override), preserve_existing_folder, opt_json(existing))) {
            (Ok(Some(f)), Ok(Some(g))) => f@ == g,
            (Ok(None), Ok(None)) => true,
            (Err(e), Err(m)) => e@ == m,
            _ => false,
        },
{
    match folder_uid_override {
        Some(f) => Ok(Some(owned(f))),
        None => {
            if !preserve_existing_folder || uid.unicode_len() == 0 {
                Ok(None)
            } else {
                match existing {
                    None => Ok(None),
                    Some(p) => match p {
                        JsonValue::Object { .. } => {
                            let f = match get_field(p, "meta") {
                                Some(m) => match get_str(m, "folderUid") {
                                    Some(s) => s.clone(),
                                    None => owned(""),
                                },
                                None => owned(""),
                            };
                            proof {
                                reveal_strlit("");
                            }
                            Ok(Some(f))
                        },
                        _ => {
                            let mut e = owned("Unexpected dashboard payload for UID ");
                            e.append(uid);
                            e.append(".");
                            Err(e)
                        },
                    },
                }
            }
        },
    }
}

/// The view of an optional JSON value.
pub open spec fn opt_json(o: Option<&JsonValue>) -> Option<Json> {
    match o {
        Some(v) => Some(v@),
        None => None,
    }
}

} // verus!
verus! {

/// The UID of the live dashboard that the decisions for a document need,
/// or `None` where they need none: where the import keeps existing folders
/// or where the run must know whether the dashboard exists.
pub open spec fn lookup_uid(a: ImportArgs, doc: Json) -> Result<Option<Seq<char>>, Seq<char>> {
    match dashboard_object_of(doc) {
        None => Err(object_error()),
        Some(d) => {
            let uid = string_field_of(d, "uid"@, Seq::empty());
            if uid.len() > 0 && ((a.import_folder_uid is None && effective_replace(a)) || a.dry_run
                || a.update_existing_only || a.ensure_folders || a.require_matching_folder_path) {
                Ok(Some(uid))
            } else {
                Ok(None)
            }
        },
    }
}

/// Names the live dashboard to look up before a document's import is
/// decided.
pub fn import_lookup_uid(args: &ImportArgs, document: &JsonValue) -> (r: Result<Option<String>, String>)
    ensures
        match (r, lookup_uid(*args, document@)) {
            (Ok(Some(u)), Ok(Some(v))) => u@ == v,
            (Ok(None), Ok(None)) => true,
            (Err(e), Err(m)) => e@ == m,
            _ => false,
        },
{
    let d = extract_dashboard_object(document)?;
    proof {
        reveal_strlit("");
    }
    let uid = string_field(d, "uid", "");
    if uid.as_str().unicode_len() > 0 && ((args.import_folder_uid.is_none() && (args.replace_existing
        || args.update_existing_only)) || args.dry_run || args.update_existing_only
        || args.ensure_folders || args.require_matching_folder_path) {
        Ok(Some(uid))
    } else {
        Ok(None)
    }
}

/// What is decided for one dashboard file before anything is sent.
#[derive(Debug)]
pub struct ImportDecision {
    /// The import request body.
    pub payload: JsonValue,
    /// The planned action, where the run needed one.
    pub action: Option<String>,
    /// The UID shown for the dashboard: `unknown` where it has none.
    pub uid: String,
    /// The target folder named in the payload, as it stands there.
    pub folder_uid: String,
}

pub ghost struct DecisionView {
    pub payload: Json,
    pub action: Option<Seq<char>>,
    pub uid: Seq<char>,
    pub folder_uid: Seq<char>,
}

impl View for ImportDecision {
    type V = DecisionView;

    open spec fn view(&self) -> DecisionView {
        DecisionView {
            payload: self.payload@,
            action: match self.action {
                Some(a) => Some(a@),
                None => None,
            },
            uid: self.uid@,
            folder_uid: self.folder_uid@,
        }
    }
}

/// The decision for a document, given the live dashboard with its UID
/// where one was looked up and found, and whether the folder paths of the
/// source and the live dashboard agree (always, unless the run requires
/// matching folder paths): the planned update of a dashboard in another
/// folder is then skipped.
pub open spec fn decision(a: ImportArgs, doc: Json, existing: Option<Json>, folder_paths_match: bool) -> Result<
    DecisionView,
    Seq<char>,
> {
    match dashboard_object_of(doc) {
        None => Err(object_error()),
        Some(d) => {
            let uid = string_field_of(d, "uid"@, Seq::empty());
            match folder_override(uid, opt_string(a.import_folder_uid), effective_replace(a), existing) {
                Err(e) => Err(e),
                Ok(fo) => match import_payload(doc, fo, effective_replace(a), a.import_message@) {
                    Err(e) => Err(e),
                    Ok(p) => {
                        let pd = field(p, "dashboard"@)->Some_0;
                        Ok(
                            DecisionView {
                                payload: p,
                                action: if a.dry_run || a.update_existing_only || a.ensure_folders
                                    || a.require_matching_folder_path {
                                    Some(
                                        guarded_action(
                                            import_action(
                                                string_field_of(pd, "uid"@, Seq::empty()),
                                                existing is Some,
                                                a.replace_existing,
                                                a.update_existing_only,
                                            ),
                                            folder_paths_match,
                                        ),
                                    )
                                } else {
                                    None
                                },
                                uid: string_field_of(pd, "uid"@, unknown_uid()),
                                folder_uid: match str_field(p, "folderUid"@) {
                                    Some(f) => f,
                                    None => Seq::empty(),
                                },
                            },
                        )
                    },
                },
            }
        },
    }
}

/// The view of an optional string.
pub open spec fn opt_string(o: Option<String>) -> Option<Seq<char>> {
    match o {
        Some(s) => Some(s@),
        None => None,
    }
}

/// Decides the import of one document: its payload, the planned action,
/// the UID shown and the target folder.
pub fn decide_dashboard_import(
    args: &ImportArgs,
    document: &JsonValue,
    existing: Option<&JsonValue>,
    folder_paths_match: bool,
) -> (r: Result<ImportDecision, String>)
    ensures
        match (r, decision(*args, document@, opt_json(existing), folder_paths_match)) {
            (Ok(d), Ok(v)) => d@ == v,
            (Err(e), Err(m)) => e@ == m,
            _ => false,
        },
{
    let d = extract_dashboard_object(document)?;
    proof {
        reveal_strlit("");
    }
    let uid = string_field(d, "uid", "");
    let effective = args.replace_existing || args.update_existing_only;
    let override_arg: Option<&str> = match &args.import_folder_uid {
        Some(s) => Some(s.as_str()),
        None => None,
    };
    let fo = determine_import_folder_uid_override(uid.as_str(), override_arg, effective, existing)?;
    let fo_arg: Option<&str> = match &fo {
        Some(s) => Some(s.as_str()),
        None => None,
    };
    let payload = build_import_payload(document, fo_arg, effective, args.import_message.as_str())?;
    let ghost p = payload@;
    proof {
        crate::json::lemma_key_pos(p->Object_0, "dashboard"@);
        reveal_strlit("dashboard");
        assert(p->Object_0[0] == "dashboard"@);
    }
    let (payload_uid, shown_uid) = match get_field(&payload, "dashboard") {
        Some(pd) => (string_field(pd, "uid", ""), string_field(pd, "uid", "unknown")),
        None => (owned(""), owned("unknown")),
    };
    let action = if args.dry_run || args.update_existing_only || args.ensure_folders
        || args.require_matching_folder_path {
        let planned = determine_dashboard_import_action(
            payload_uid.as_str(),
            existing.is_some(),
            args.replace_existing,
            args.update_existing_only,
        );
        Some(apply_folder_path_guard_to_action(planned.as_str(), folder_paths_match))
    } else {
        None
    };
    let folder_uid = match get_str(&payload, "folderUid") {
        Some(f) => f.clone(),
        None => owned(""),
    };
    let r = ImportDecision { payload, action, uid: shown_uid, folder_uid };
    proof {
        let v = decision(*args, document@, opt_json(existing), folder_paths_match)->Ok_0;
        assert(r@.payload == v.payload);
        assert(r@.action == v.action);
        assert(r@.uid == v.uid);
        assert(r@.folder_uid == v.folder_uid);
    }
    Ok(r)
}

} // verus!
verus! {

/// ` folderPath=<path>` where a non-empty path is given.
pub open spec fn folder_path_suffix(folder_path: Option<Seq<char>>) -> Seq<char> {
    match folder_path {
        Some(p) => if p.len() > 0 {
            " folderPath="@ + p
        } else {
            Seq::empty()
        },
        None => Seq::empty(),
    }
}

/// The planned action, or `unknown` where none was planned.
pub open spec fn action_or_unknown(action: Option<Seq<char>>) -> Seq<char> {
    match action {
        Some(a) => a,
        None => unknown_uid(),
    }
}

/// The `--progress` line for one dashboard.
pub open spec fn progress_line(
    current: nat,
    total: nat,
    target: Seq<char>,
    dry_run: bool,
    action: Option<Seq<char>>,
    folder_path: Option<Seq<char>>,
) -> Seq<char> {
    if dry_run {
        let parts = import_action_parts(action_or_unknown(action));
        "Dry-run dashboard "@ + decimal(current) + "/"@ + decimal(total) + ": "@ + target + " dest="@
            + parts.0 + " action="@ + parts.1 + folder_path_suffix(folder_path)
    } else {
        "Importing dashboard "@ + decimal(current) + "/"@ + decimal(total) + ": "@ + target
    }
}

/// Formats the `--progress` line for one dashboard of an import run.
pub fn format_import_progress_line(
    current: usize,
    total: usize,
    dashboard_target: &str,
    dry_run: bool,
    action: Option<&str>,
    folder_path: Option<&str>,
) -> (r: String)
    ensures
        r@ == progress_line(current as nat, total as nat, dashboard_target@, dry_run, opt_view(action), opt_view(folder_path)),
{
    if dry_run {
        let a = match action {
            Some(a) => a,
            None => "unknown",
        };
        let (destination, label) = describe_import_action(a);
        let mut t = owned("Dry-run dashboard ");
        t.append(crate::text::usize_text(current).as_str());
        t.append("/");
        t.append(crate::text::usize_text(total).as_str());
        t.append(": ");
        t.append(dashboard_target);
        t.append(" dest=");
        t.append(destination.as_str());
        t.append(" action=");
        t.append(label.as_str());
        match folder_path {
            Some(p) => {
                if p.unicode_len() > 0 {
                    t.append(" folderPath=");
                    t.append(p);
                }
            },
            None => {},
        }
        proof {
            reveal_strlit("");
        }
        t
    } else {
        let mut t = owned("Importing dashboard ");
        t.append(crate::text::usize_text(current).as_str());
        t.append("/");
        t.append(crate::text::usize_text(total).as_str());
        t.append(": ");
        t.append(dashboard_target);
        t
    }
}

/// The `--verbose` line for one dashboard.
pub open spec fn verbose_line(
    file: Seq<char>,
    dry_run: bool,
    uid: Option<Seq<char>>,
    action: Option<Seq<char>>,
    folder_path: Option<Seq<char>>,
) -> Seq<char> {
    if dry_run {
        let parts = import_action_parts(action_or_unknown(action));
        "Dry-run import uid="@ + action_or_unknown(uid) + " dest="@ + parts.0 + " action="@ + parts.1
            + folder_path_suffix(folder_path) + " file="@ + file
    } else {
        "Imported "@ + file
    }
}

/// Formats the `--verbose` line for one dashboard of an import run.
pub fn format_import_verbose_line(
    dashboard_file: &str,
    dry_run: bool,
    uid: Option<&str>,
    action: Option<&str>,
    folder_path: Option<&str>,
) -> (r: String)
    ensures
        r@ == verbose_line(dashboard_file@, dry_run, opt_view(uid), opt_view(action), opt_view(folder_path)),
{
    if dry_run {
        let a = match action {
            Some(a) => a,
            None => "unknown",
        };
        let u = match uid {
            Some(u) => u,
            None => "unknown",
        };
        let (destination, label) = describe_import_action(a);
        let mut t = owned("Dry-run import uid=");
        t.append(u);
        t.append(" dest=");
        t.append(destination.as_str());
        t.append(" action=");
        t.append(label.as_str());
        match folder_path {
            Some(p) => {
                if p.unicode_len() > 0 {
                    t.append(" folderPath=");
                    t.append(p);
                }
            },
            None => {},
        }
        t.append(" file=");
        t.append(dashboard_file);
        proof {
            reveal_strlit("");
        }
        t
    } else {
        crate::text::concat("Imported ", dashboard_file)
    }
}

/// The dry-run table record of one dashboard: UID, destination, action,
/// folder path and file.
pub open spec fn dry_run_record(file: Seq<char>, uid: Seq<char>, action: Seq<char>, folder_path: Seq<char>) -> Seq<Seq<char>> {
    let parts = import_action_parts(action);
    seq![uid, parts.0, parts.1, folder_path, file]
}

/// Builds the dry-run table record of one dashboard.
pub fn build_import_dry_run_record(dashboard_file: &str, uid: &str, action: &str, folder_path: &str) -> (r:
    Vec<String>)
    ensures
        views(r@) == dry_run_record(dashboard_file@, uid@, action@, folder_path@),
{
    let (destination, label) = describe_import_action(action);
    let r = vec![owned(uid), destination, label, owned(folder_path), owned(dashboard_file)];
    assert(views(r@) =~= dry_run_record(dashboard_file@, uid@, action@, folder_path@));
    r
}

/// The header of the dry-run table.
pub open spec fn dry_run_headers() -> Seq<Seq<char>> {
    seq!["UID"@, "DESTINATION"@, "ACTION"@, "FOLDER_PATH"@, "FILE"@]
}

/// Renders the dry-run records as a space-aligned table.
pub fn render_import_dry_run_table(records: &Vec<Vec<String>>, include_header: bool) -> (lines:
    Vec<String>)
    ensures
        views(lines@) == crate::render::table_lines(
            dry_run_headers(),
            crate::render::table_views(records@),
            include_header,
        ),
{
    let headers = vec![owned("UID"), owned("DESTINATION"), owned("ACTION"), owned("FOLDER_PATH"), owned("FILE")];
    assert(views(headers@) =~= dry_run_headers());
    crate::render::render_simple_table(headers.as_slice(), records.as_slice(), include_header)
}

} // verus!
verus! {

/// One folder of an export's folder inventory.
#[derive(Debug)]
pub struct FolderInventoryItem {
    pub uid: String,
    pub title: String,
    pub path: String,
}

/// The position of the last inventory entry with `uid`, or -1: the entry a
/// map keyed by UID keeps.
pub open spec fn last_folder_with(items: Seq<FolderInventoryItem>, uid: Seq<char>) -> int
    decreases items.len(),
{
    if items.len() == 0 {
        -1
    } else if items.last().uid@ == uid {
        items.len() - 1
    } else {
        last_folder_with(items.drop_last(), uid)
    }
}

pub proof fn lemma_last_folder_with(items: Seq<FolderInventoryItem>, uid: Seq<char>)
    ensures
        -1 <= last_folder_with(items, uid) < items.len(),
        last_folder_with(items, uid) >= 0 ==> items[last_folder_with(items, uid)].uid@ == uid,
    decreases items.len(),
{
    if items.len() > 0 && items.last().uid@ != uid {
        lemma_last_folder_with(items.drop_last(), uid);
    }
}

/// The folder path shown for a dry-run import into folder `folder_uid`:
/// `General` for the default folder; else the path Grafana reports for the
/// folder, where it has it; else the inventory's path or title; else the
/// UID itself.
pub open spec fn import_folder_path(
    folder_uid: Seq<char>,
    live_path: Option<Seq<char>>,
    inventory: Seq<FolderInventoryItem>,
) -> Seq<char> {
    let f = trim(folder_uid);
    if f.len() == 0 || f == general_uid() {
        general_title()
    } else {
        match live_path {
            Some(p) => p,
            None => {
                let k = last_folder_with(inventory, f);
                if k >= 0 && inventory[k].path@.len() > 0 {
                    inventory[k].path@
                } else if k >= 0 && inventory[k].title@.len() > 0 {
                    inventory[k].title@
                } else {
                    f
                }
            },
        }
    }
}

/// The folder whose live path a dry run looks up: the trimmed target
/// folder, unless the run is no dry run or the folder is the default one.
pub open spec fn folder_lookup_uid(a: ImportArgs, folder_uid: Seq<char>) -> Option<Seq<char>> {
    let f = trim(folder_uid);
    if a.dry_run && f.len() > 0 && f != general_uid() {
        Some(f)
    } else {
        None
    }
}

/// Names the folder to look up in Grafana before a dry-run record is made.
pub fn import_folder_lookup_uid(args: &ImportArgs, decision: &ImportDecision) -> (r: Option<String>)
    ensures
        opt_string(r) == folder_lookup_uid(*args, decision.folder_uid@),
{
    let f = crate::text::trim_str(decision.folder_uid.as_str());
    if args.dry_run && f.as_str().unicode_len() > 0 && !crate::text::str_is(f.as_str(), "general") {
        Some(f)
    } else {
        None
    }
}

/// Resolves the folder path shown for a dry-run import.
pub fn resolve_dashboard_import_folder_path(
    folder_uid: &str,
    live_path: Option<&str>,
    inventory: &Vec<FolderInventoryItem>,
) -> (r: String)
    ensures
        r@ == import_folder_path(folder_uid@, opt_view(live_path), inventory@),
{
    let f = crate::text::trim_str(folder_uid);
    if f.as_str().unicode_len() == 0 || crate::text::str_is(f.as_str(), "general") {
        return owned("General");
    }
    match live_path {
        Some(p) => owned(p),
        None => {
            let mut k: usize = inventory.len();
            let mut found = false;
            assert(inventory@.take(k as int) =~= inventory@);
            while k > 0 && !found
                invariant
                    k <= inventory@.len(),
                    found ==> k < inventory@.len() && last_folder_with(inventory@, f@) == k,
                    !found ==> last_folder_with(inventory@, f@) == last_folder_with(inventory@.take(k as int), f@),
                decreases k + (if found { 0int } else { 1int }),
            {
                proof {
                    assert(inventory@.take(k as int).drop_last() =~= inventory@.take(k - 1));
                }
                if crate::text::str_is(inventory[k - 1].uid.as_str(), f.as_str()) {
                    k = k - 1;
                    found = true;
                } else {
                    k = k - 1;
                }
            }
            proof {
                lemma_last_folder_with(inventory@, f@);
                if !found {
                    assert(inventory@.take(0) =~= Seq::<FolderInventoryItem>::empty());
                }
            }
            if found {
                let item = &inventory[k];
                if item.path.as_str().unicode_len() > 0 {
                    item.path.clone()
                } else if item.title.as_str().unicode_len() > 0 {
                    item.title.clone()
                } else {
                    f
                }
            } else {
                f
            }
        },
    }
}

} // verus!
verus! {

/// What the run does for one dashboard file once its import is decided.
#[derive(Debug)]
pub struct ImportFileOutcome {
    /// The dry-run record kept for the table or JSON report.
    pub record: Option<Vec<String>>,
    /// The line printed for the file.
    pub line: Option<String>,
    /// Whether the payload is sent to Grafana.
    pub post: bool,
    /// Whether the file is skipped because Grafana lacks the dashboard.
    pub skipped_missing: bool,
    /// Whether the file is skipped because the live dashboard lies in a
    /// folder whose path differs from the source's.
    pub skipped_folder_mismatch: bool,
    /// The folder that must exist before the payload is sent.
    pub ensure_folder: Option<String>,
}

pub ghost struct OutcomeView {
    pub record: Option<Seq<Seq<char>>>,
    pub line: Option<Seq<char>>,
    pub post: bool,
    pub skipped_missing: bool,
    pub skipped_folder_mismatch: bool,
    pub ensure_folder: Option<Seq<char>>,
}

impl View for ImportFileOutcome {
    type V = OutcomeView;

    open spec fn view(&self) -> OutcomeView {
        OutcomeView {
            record: match self.record {
                Some(r) => Some(views(r@)),
                None => None,
            },
            line: opt_string(self.line),
            post: self.post,
            skipped_missing: self.skipped_missing,
            skipped_folder_mismatch: self.skipped_folder_mismatch,
            ensure_folder: opt_string(self.ensure_folder),
        }
    }
}

/// The outcome for one file: in a dry run a record or a line; a skip for a
/// missing dashboard when only existing ones are updated; a skip for a
/// dashboard whose live folder path differs from the source's
/// (`source_path`, `destination_path`, as normalized) when matching paths
/// are required; otherwise the request, preceded by making sure the target
/// folder exists where asked.
pub open spec fn file_outcome(
    a: ImportArgs,
    d: DecisionView,
    folder_path: Seq<char>,
    file: Seq<char>,
    current: nat,
    total: nat,
    source_path: Seq<char>,
    destination_path: Option<Seq<char>>,
) -> OutcomeView {
    let action = action_or_unknown(d.action);
    if a.dry_run {
        OutcomeView {
            record: if a.table || a.json {
                Some(dry_run_record(file, d.uid, action, folder_path))
            } else {
                None
            },
            line: if a.table || a.json {
                None
            } else if a.verbose {
                Some(verbose_line(file, true, Some(d.uid), Some(action), Some(folder_path)))
            } else if a.progress {
                Some(progress_line(current, total, d.uid, true, Some(action), Some(folder_path)))
            } else {
                None
            },
            post: false,
            skipped_missing: false,
            skipped_folder_mismatch: false,
            ensure_folder: None,
        }
    } else if a.update_existing_only && d.action == Some("would-skip-missing"@) {
        OutcomeView {
            record: None,
            line: if a.verbose {
                Some("Skipped import uid="@ + d.uid + " dest=missing action=skip-missing file="@ + file)
            } else if a.progress {
                Some(
                    "Skipping dashboard "@ + decimal(current) + "/"@ + decimal(total) + ": "@ + d.uid
                        + " dest=missing action=skip-missing"@,
                )
            } else {
                None
            },
            post: false,
            skipped_missing: true,
            skipped_folder_mismatch: false,
            ensure_folder: None,
        }
    } else if (a.update_existing_only || a.require_matching_folder_path) && d.action == Some(
        "would-skip-folder-mismatch"@,
    ) {
        OutcomeView {
            record: None,
            line: if a.verbose {
                Some(
                    "Skipped import uid="@ + d.uid + " dest=exists action=skip-folder-mismatch sourceFolderPath="@
                        + source_path + " destinationFolderPath="@ + (match destination_path {
                        Some(p) => p,
                        None => "-"@,
                    }) + " file="@ + file,
                )
            } else if a.progress {
                Some(
                    "Skipping dashboard "@ + decimal(current) + "/"@ + decimal(total) + ": "@ + d.uid
                        + " dest=exists action=skip-folder-mismatch"@,
                )
            } else {
                None
            },
            post: false,
            skipped_missing: false,
            skipped_folder_mismatch: true,
            ensure_folder: None,
        }
    } else {
        OutcomeView {
            record: None,
            line: if a.verbose {
                Some(verbose_line(file, false, None, None, None))
            } else if a.progress {
                Some(progress_line(current, total, file, false, None, None))
            } else {
                None
            },
            post: true,
            skipped_missing: false,
            skipped_folder_mismatch: false,
            ensure_folder: if a.ensure_folders && d.folder_uid.len() > 0 && d.action != Some(
                "would-fail-existing"@,
            ) {
                Some(d.folder_uid)
            } else {
                None
            },
        }
    }
}

/// Decides what the run does for the file at position `index` of `total`.
pub fn import_file_outcome(
    args: &ImportArgs,
    decision: &ImportDecision,
    folder_path: &str,
    dashboard_file: &str,
    index: usize,
    total: usize,
    source_folder_path: &str,
    destination_folder_path: Option<&str>,
) -> (r: ImportFileOutcome)
    requires
        index < total,
    ensures
        r@ == file_outcome(
            *args,
            decision@,
            folder_path@,
            dashboard_file@,
            (index + 1) as nat,
            total as nat,
            source_folder_path@,
            opt_view(destination_folder_path),
        ),
{
    let current = index + 1;
    let action: &str = match &decision.action {
        Some(a) => a.as_str(),
        None => "unknown",
    };
    if args.dry_run {
        let record = if args.table || args.json {
            Some(build_import_dry_run_record(dashboard_file, decision.uid.as_str(), action, folder_path))
        } else {
            None
        };
        let line = if args.table || args.json {
            None
        } else if args.verbose {
            Some(format_import_verbose_line(dashboard_file, true, Some(decision.uid.as_str()), Some(action), Some(folder_path)))
        } else if args.progress {
            Some(format_import_progress_line(current, total, decision.uid.as_str(), true, Some(action), Some(folder_path)))
        } else {
            None
        };
        ImportFileOutcome {
            record,
            line,
            post: false,
            skipped_missing: false,
            skipped_folder_mismatch: false,
            ensure_folder: None,
        }
    } else {
        let skip = match &decision.action {
            Some(a) => crate::text::str_is(a.as_str(), "would-skip-missing"),
            None => false,
        };
        if args.update_existing_only && skip {
            let line = if args.verbose {
                let mut t = owned("Skipped import uid=");
                t.append(decision.uid.as_str());
                t.append(" dest=missing action=skip-missing file=");
                t.append(dashboard_file);
                Some(t)
            } else if args.progress {
                let mut t = owned("Skipping dashboard ");
                t.append(crate::text::usize_text(current).as_str());
                t.append("/");
                t.append(crate::text::usize_text(total).as_str());
                t.append(": ");
                t.append(decision.uid.as_str());
                t.append(" dest=missing action=skip-missing");
                Some(t)
            } else {
                None
            };
            return ImportFileOutcome {
                record: None,
                line,
                post: false,
                skipped_missing: true,
                skipped_folder_mismatch: false,
                ensure_folder: None,
            };
        }
        let folder_skip = match &decision.action {
            Some(a) => crate::text::str_is(a.as_str(), "would-skip-folder-mismatch"),
            None => false,
        };
        if (args.update_existing_only || args.require_matching_folder_path) && folder_skip {
            let line = if args.verbose {
                let mut t = owned("Skipped import uid=");
                t.append(decision.uid.as_str());
                t.append(" dest=exists action=skip-folder-mismatch sourceFolderPath=");
                t.append(source_folder_path);
                t.append(" destinationFolderPath=");
                match destination_folder_path {
                    Some(p) => t.append(p),
                    None => t.append("-"),
                }
                t.append(" file=");
                t.append(dashboard_file);
                Some(t)
            } else if args.progress {
                let mut t = owned("Skipping dashboard ");
                t.append(crate::text::usize_text(current).as_str());
                t.append("/");
                t.append(crate::text::usize_text(total).as_str());
                t.append(": ");
                t.append(decision.uid.as_str());
                t.append(" dest=exists action=skip-folder-mismatch");
                Some(t)
            } else {
                None
            };
            ImportFileOutcome {
                record: None,
                line,
                post: false,
                skipped_missing: false,
                skipped_folder_mismatch: true,
                ensure_folder: None,
            }
        } else {
            let line = if args.verbose {
                Some(format_import_verbose_line(dashboard_file, false, None, None, None))
            } else if args.progress {
                Some(format_import_progress_line(current, total, dashboard_file, false, None, None))
            } else {
                None
            };
            let blocked = match &decision.action {
                Some(a) => crate::text::str_is(a.as_str(), "would-fail-existing"),
                None => false,
            };
            let ensure_folder = if args.ensure_folders && decision.folder_uid.as_str().unicode_len() > 0
                && !blocked {
                Some(decision.folder_uid.clone())
            } else {
                None
            };
            ImportFileOutcome {
                record: None,
                line,
                post: true,
                skipped_missing: false,
                skipped_folder_mismatch: false,
                ensure_folder,
            }
        }
    }
}

} // verus!
verus! {

/// The first line of a run, unless it reports JSON.
pub fn import_mode_line(args: &ImportArgs) -> (r: Option<String>)
    ensures
        opt_string(r) == (if args.json {
            None
        } else {
            Some("Import mode: "@ + import_mode(args.replace_existing, args.update_existing_only))
        }),
{
    if args.json {
        None
    } else {
        let mode = describe_dashboard_import_mode(args.replace_existing, args.update_existing_only);
        Some(crate::text::concat("Import mode: ", mode.as_str()))
    }
}

/// The number of dry-run records whose action is `skip-missing`.
pub open spec fn skip_missing_count(records: Seq<Seq<Seq<char>>>) -> nat {
    records.filter(|r: Seq<Seq<char>>| r.len() > 2 && r[2] == "skip-missing"@).len()
}

/// Counts the dry-run records that skip a missing dashboard.
pub fn count_skip_missing(records: &Vec<Vec<String>>) -> (n: usize)
    ensures
        n == skip_missing_count(crate::render::table_views(records@)),
{
    let ghost tv = crate::render::table_views(records@);
    let ghost p = |r: Seq<Seq<char>>| r.len() > 2 && r[2] == "skip-missing"@;
    let mut n: usize = 0;
    let mut i: usize = 0;
    while i < records.len()
        invariant
            i <= records@.len(),
            tv == crate::render::table_views(records@),
            p == (|r: Seq<Seq<char>>| r.len() > 2 && r[2] == "skip-missing"@),
            n == tv.take(i as int).filter(p).len(),
            n <= i,
        decreases records.len() - i,
    {
        proof {
            assert(tv.take(i + 1) =~= tv.take(i as int).push(tv[i as int]));
            tv.take(i as int).lemma_filter_push(tv[i as int], p);
            assert(tv[i as int] == views(records@[i as int]@));
        }
        let row = &records[i];
        if row.len() > 2 && crate::text::str_is(row[2].as_str(), "skip-missing") {
            n = n + 1;
        }
        i = i + 1;
    }
    assert(tv.take(records@.len() as int) =~= tv);
    n
}

/// The lines that close a run: the dry-run table where one was asked for,
/// then the count of files checked or imported, naming the missing
/// dashboards skipped where there were any.
pub open spec fn summary_lines(
    a: ImportArgs,
    records: Seq<Seq<Seq<char>>>,
    imported: nat,
    skipped_missing: nat,
    file_count: nat,
) -> Seq<Seq<char>> {
    if a.dry_run {
        let skipped = if a.update_existing_only {
            skip_missing_count(records)
        } else {
            skipped_missing
        };
        if a.json {
            Seq::empty()
        } else {
            let table = if a.table {
                crate::render::table_lines(dry_run_headers(), records, !a.no_header)
            } else {
                Seq::empty()
            };
            let head = "Dry-run checked "@ + decimal(file_count) + " dashboard(s) from "@ + a.import_dir@;
            table.push(
                if a.update_existing_only && skipped > 0 {
                    head + "; would skip "@ + decimal(skipped) + " missing dashboards"@
                } else {
                    head
                },
            )
        }
    } else if a.update_existing_only && skipped_missing > 0 {
        seq![
            "Imported "@ + decimal(imported) + " dashboard files from "@ + a.import_dir@ + "; skipped "@
                + decimal(skipped_missing) + " missing dashboards"@,
        ]
    } else {
        Seq::empty()
    }
}

/// Builds the closing lines of an import run. A JSON dry-run report is
/// printed by the caller from `build_import_dry_run_document`.
pub fn import_summary_lines(
    args: &ImportArgs,
    records: &Vec<Vec<String>>,
    imported: usize,
    skipped_missing: usize,
    file_count: usize,
) -> (lines: Vec<String>)
    ensures
        views(lines@) == summary_lines(
            *args,
            crate::render::table_views(records@),
            imported as nat,
            skipped_missing as nat,
            file_count as nat,
        ),
{
    if args.dry_run {
        let skipped = if args.update_existing_only {
            count_skip_missing(records)
        } else {
            skipped_missing
        };
        if args.json {
            let v: Vec<String> = Vec::new();
            assert(views(v@) =~= Seq::<Seq<char>>::empty());
            v
        } else {
            let mut lines: Vec<String> = if args.table {
                render_import_dry_run_table(records, !args.no_header)
            } else {
                Vec::new()
            };
            let ghost before = lines@;
            let mut head = owned("Dry-run checked ");
            head.append(crate::text::usize_text(file_count).as_str());
            head.append(" dashboard(s) from ");
            head.append(args.import_dir.as_str());
            if args.update_existing_only && skipped > 0 {
                head.append("; would skip ");
                head.append(crate::text::usize_text(skipped).as_str());
                head.append(" missing dashboards");
            }
            lines.push(head);
            proof {
                before.lemma_push_map_commute(|s: String| s@, head);
                assert(views(before) =~= (if args.table {
                    crate::render::table_lines(dry_run_headers(), crate::render::table_views(records@), !args.no_header)
                } else {
                    Seq::empty()
                }));
            }
            lines
        }
    } else if args.update_existing_only && skipped_missing > 0 {
        let mut t = owned("Imported ");
        t.append(crate::text::usize_text(imported).as_str());
        t.append(" dashboard files from ");
        t.append(args.import_dir.as_str());
        t.append("; skipped ");
        t.append(crate::text::usize_text(skipped_missing).as_str());
        t.append(" missing dashboards");
        let v = vec![t];
        assert(views(v@) =~= seq![t@]);
        v
    } else {
        let v: Vec<String> = Vec::new();
        assert(views(v@) =~= Seq::<Seq<char>>::empty());
        v
    }
}

/// What an import run reports as its result: the files checked in a dry
/// run, the dashboards sent otherwise.
pub fn import_result_count(args: &ImportArgs, imported: usize, file_count: usize) -> (n: usize)
    ensures
        n == (if args.dry_run {
            file_count
        } else {
            imported
        }),
{
    if args.dry_run {
        file_count
    } else {
        imported
    }
}

} // verus!
verus! {

/// How a folder of the inventory compares with Grafana's.
#[derive(Debug, Clone, Copy, PartialEq, Eq, Structural)]
pub enum FolderInventoryStatusKind {
    Missing,
    Matches,
    Mismatch,
}

/// A folder of the inventory against what Grafana has under its UID.
#[derive(Debug)]
pub struct FolderInventoryStatus {
    pub uid: String,
    pub kind: FolderInventoryStatusKind,
    pub expected_title: String,
    pub actual_title: Option<String>,
    pub expected_parent_uid: Option<String>,
    pub actual_parent_uid: Option<String>,
    pub expected_path: String,
    pub actual_path: Option<String>,
}

/// The names of what differs for a mismatched folder, comma-separated.
pub open spec fn mismatch_reasons(s: FolderInventoryStatus) -> Seq<char> {
    let parts = Seq::<Seq<char>>::empty()
        + (if opt_string(s.actual_title) != Some(s.expected_title@) { seq!["title"@] } else { Seq::empty() })
        + (if opt_string(s.actual_parent_uid) != opt_string(s.expected_parent_uid) { seq!["parentUid"@] } else { Seq::empty() })
        + (if opt_string(s.actual_path) != Some(s.expected_path@) { seq!["path"@] } else { Seq::empty() });
    crate::text::join(parts, ","@)
}

/// The destination state, status label and reason a folder status shows.
pub open spec fn status_parts(s: FolderInventoryStatus) -> (Seq<char>, Seq<char>, Seq<char>) {
    match s.kind {
        FolderInventoryStatusKind::Missing => ("missing"@, "missing"@, "would-create"@),
        FolderInventoryStatusKind::Matches => ("exists"@, "match"@, Seq::empty()),
        FolderInventoryStatusKind::Mismatch => ("exists"@, "mismatch"@, mismatch_reasons(s)),
    }
}

/// The JSON entry of one folder status.
pub open spec fn folder_status_json(s: FolderInventoryStatus) -> Json {
    Json::Object(
        seq!["uid"@, "destination"@, "status"@, "reason"@, "expectedPath"@, "actualPath"@],
        seq![
            Json::Str(s.uid@),
            Json::Str(status_parts(s).0),
            Json::Str(status_parts(s).1),
            Json::Str(status_parts(s).2),
            Json::Str(s.expected_path@),
            Json::Str(match opt_string(s.actual_path) { Some(p) => p, None => Seq::empty() }),
        ],
    )
}

fn opt_eq(a: &Option<String>, b: &Option<String>) -> (r: bool)
    ensures
        r == (opt_string(*a) == opt_string(*b)),
{
    match (a, b) {
        (Some(x), Some(y)) => crate::text::str_is(x.as_str(), y.as_str()),
        (None, None) => true,
        _ => false,
    }
}

fn folder_status_entry(s: &FolderInventoryStatus) -> (r: JsonValue)
    ensures
        r@ == folder_status_json(*s),
{
    proof {
        reveal_strlit("");
    }
    let (destination, status, reason) = match s.kind {
        FolderInventoryStatusKind::Missing => (owned("missing"), owned("missing"), owned("would-create")),
        FolderInventoryStatusKind::Matches => (owned("exists"), owned("match"), owned("")),
        FolderInventoryStatusKind::Mismatch => {
            let mut parts: Vec<String> = Vec::new();
            let expected_title = Some(s.expected_title.clone());
            if !opt_eq(&s.actual_title, &expected_title) {
                parts.push(owned("title"));
            }
            if !opt_eq(&s.actual_parent_uid, &s.expected_parent_uid) {
                parts.push(owned("parentUid"));
            }
            let expected_path = Some(s.expected_path.clone());
            if !opt_eq(&s.actual_path, &expected_path) {
                parts.push(owned("path"));
            }
            let joined = crate::text::join_strings(parts.as_slice(), ",");
            proof {
                let q = Seq::<Seq<char>>::empty()
                    + (if opt_string(s.actual_title) != Some(s.expected_title@) { seq!["title"@] } else { Seq::empty() })
                    + (if opt_string(s.actual_parent_uid) != opt_string(s.expected_parent_uid) { seq!["parentUid"@] } else { Seq::empty() })
                    + (if opt_string(s.actual_path) != Some(s.expected_path@) { seq!["path"@] } else { Seq::empty() });
                assert(parts@.map_values(|p: String| p@) =~= q);
            }
            (owned("exists"), owned("mismatch"), joined)
        },
    };
    assert(destination@ == status_parts(*s).0 && status@ == status_parts(*s).1 && reason@ == status_parts(*s).2);
    let actual = match &s.actual_path {
        Some(p) => p.clone(),
        None => owned(""),
    };
    assert(actual@ == (match opt_string(s.actual_path) {
        Some(p) => p,
        None => Seq::<char>::empty(),
    }));
    proof {
        reveal_strlit("");
    }
    let keys = vec![owned("uid"), owned("destination"), owned("status"), owned("reason"), owned("expectedPath"), owned("actualPath")];
    let values = vec![
        JsonValue::Str(s.uid.clone()),
        JsonValue::Str(destination),
        JsonValue::Str(status),
        JsonValue::Str(reason),
        JsonValue::Str(s.expected_path.clone()),
        JsonValue::Str(actual),
    ];
    let r = JsonValue::Object { keys, values };
    proof {
        let q = folder_status_json(*s);
        assert(r@->Object_0 =~= q->Object_0);
        assert(values@[0]@ == q->Object_1[0]);
        assert(values@[1]@ == q->Object_1[1]);
        assert(values@[2]@ == q->Object_1[2]);
        assert(values@[3]@ == q->Object_1[3]);
        assert(values@[4]@ == q->Object_1[4]);
        assert(values@[5]@ == q->Object_1[5]);
        assert(r@->Object_1 =~= q->Object_1);
    }
    r
}

} // verus!
verus! {

/// The JSON entry of one dry-run record.
pub open spec fn record_json(r: Seq<Seq<char>>) -> Json {
    Json::Object(
        seq!["uid"@, "destination"@, "action"@, "folderPath"@, "file"@],
        seq![Json::Str(r[0]), Json::Str(r[1]), Json::Str(r[2]), Json::Str(r[3]), Json::Str(r[4])],
    )
}

/// A JSON number written in decimal.
pub open spec fn count_json(n: nat) -> Json {
    Json::Number(decimal(n))
}

/// The JSON report of an import dry run: the mode, the folder statuses, the
/// dashboard records and a summary of them.
pub open spec fn dry_run_document(
    mode: Seq<char>,
    statuses: Seq<FolderInventoryStatus>,
    records: Seq<Seq<Seq<char>>>,
    import_dir: Seq<char>,
    skipped_missing: nat,
) -> Json {
    Json::Object(
        seq!["mode"@, "folders"@, "dashboards"@, "summary"@],
        seq![
            Json::Str(mode),
            Json::Array(Seq::new(statuses.len(), |i: int| folder_status_json(statuses[i]))),
            Json::Array(Seq::new(records.len(), |i: int| record_json(records[i]))),
            Json::Object(
                seq![
                    "importDir"@,
                    "folderCount"@,
                    "missingFolders"@,
                    "mismatchedFolders"@,
                    "dashboardCount"@,
                    "missingDashboards"@,
                    "skippedMissingDashboards"@,
                ],
                seq![
                    Json::Str(import_dir),
                    count_json(statuses.len()),
                    count_json(statuses.filter(|s: FolderInventoryStatus| s.kind == FolderInventoryStatusKind::Missing).len()),
                    count_json(statuses.filter(|s: FolderInventoryStatus| s.kind == FolderInventoryStatusKind::Mismatch).len()),
                    count_json(records.len()),
                    count_json(records.filter(|r: Seq<Seq<char>>| r[1] == "missing"@).len()),
                    count_json(skipped_missing),
                ],
            ),
        ],
    )
}

fn str_value(s: &String) -> (r: JsonValue)
    ensures
        r@ == Json::Str(s@),
{
    JsonValue::Str(s.clone())
}

fn count_value(n: usize) -> (r: JsonValue)
    ensures
        r@ == count_json(n as nat),
{
    JsonValue::Number(crate::text::usize_text(n))
}

/// Builds the JSON report of an import dry run; the caller prints it.
pub fn build_import_dry_run_document(
    mode: &str,
    folder_statuses: &Vec<FolderInventoryStatus>,
    records: &Vec<Vec<String>>,
    import_dir: &str,
    skipped_missing: usize,
) -> (r: JsonValue)
    requires
        forall|i: int| 0 <= i < records@.len() ==> (#[trigger] records@[i])@.len() == 5,
    ensures
        r@ == dry_run_document(
            mode@,
            folder_statuses@,
            crate::render::table_views(records@),
            import_dir@,
            skipped_missing as nat,
        ),
{
    let ghost st = folder_statuses@;
    let ghost tv = crate::render::table_views(records@);
    let ghost pm = |s: FolderInventoryStatus| s.kind == FolderInventoryStatusKind::Missing;
    let ghost px = |s: FolderInventoryStatus| s.kind == FolderInventoryStatusKind::Mismatch;
    let ghost pd = |r: Seq<Seq<char>>| r[1] == "missing"@;
    let mut folders: Vec<JsonValue> = Vec::new();
    let mut missing_folders: usize = 0;
    let mut mismatched_folders: usize = 0;
    let mut i: usize = 0;
    while i < folder_statuses.len()
        invariant
            i <= st.len(),
            st == folder_statuses@,
            pm == (|s: FolderInventoryStatus| s.kind == FolderInventoryStatusKind::Missing),
            px == (|s: FolderInventoryStatus| s.kind == FolderInventoryStatusKind::Mismatch),
            folders@.len() == i,
            forall|k: int| 0 <= k < i ==> (#[trigger] folders@[k])@ == folder_status_json(st[k]),
            missing_folders == st.take(i as int).filter(pm).len(),
            mismatched_folders == st.take(i as int).filter(px).len(),
            missing_folders <= i,
            mismatched_folders <= i,
        decreases st.len() - i,
    {
        proof {
            assert(st.take(i + 1) =~= st.take(i as int).push(st[i as int]));
            st.take(i as int).lemma_filter_push(st[i as int], pm);
            st.take(i as int).lemma_filter_push(st[i as int], px);
        }
        let s = &folder_statuses[i];
        folders.push(folder_status_entry(s));
        match s.kind {
            FolderInventoryStatusKind::Missing => missing_folders = missing_folders + 1,
            FolderInventoryStatusKind::Mismatch => mismatched_folders = mismatched_folders + 1,
            FolderInventoryStatusKind::Matches => {},
        }
        i = i + 1;
    }
    assert(st.take(st.len() as int) =~= st);
    let mut dashboards: Vec<JsonValue> = Vec::new();
    let mut missing_dashboards: usize = 0;
    let mut j: usize = 0;
    while j < records.len()
        invariant
            j <= tv.len(),
            tv == crate::render::table_views(records@),
            forall|q: int| 0 <= q < records@.len() ==> (#[trigger] records@[q])@.len() == 5,
            pd == (|r: Seq<Seq<char>>| r[1] == "missing"@),
            dashboards@.len() == j,
            forall|k: int| 0 <= k < j ==> (#[trigger] dashboards@[k])@ == record_json(tv[k]),
            missing_dashboards == tv.take(j as int).filter(pd).len(),
            missing_dashboards <= j,
        decreases tv.len() - j,
    {
        proof {
            assert(tv.take(j + 1) =~= tv.take(j as int).push(tv[j as int]));
            tv.take(j as int).lemma_filter_push(tv[j as int], pd);
            assert(tv[j as int] == views(records@[j as int]@));
        }
        let row = &records[j];
        let keys = vec![owned("uid"), owned("destination"), owned("action"), owned("folderPath"), owned("file")];
        let values = vec![str_value(&row[0]), str_value(&row[1]), str_value(&row[2]), str_value(&row[3]), str_value(&row[4])];
        let entry = JsonValue::Object { keys, values };
        proof {
            let q = record_json(tv[j as int]);
            assert(entry@->Object_0 =~= q->Object_0);
            assert(entry@->Object_1 =~= q->Object_1);
        }
        dashboards.push(entry);
        if crate::text::str_is(row[1].as_str(), "missing") {
            missing_dashboards = missing_dashboards + 1;
        }
        j = j + 1;
    }
    assert(tv.take(tv.len() as int) =~= tv);
    let summary_keys = vec![
        owned("importDir"),
        owned("folderCount"),
        owned("missingFolders"),
        owned("mismatchedFolders"),
        owned("dashboardCount"),
        owned("missingDashboards"),
        owned("skippedMissingDashboards"),
    ];
    let summary_values = vec![
        JsonValue::Str(owned(import_dir)),
        count_value(folder_statuses.len()),
        count_value(missing_folders),
        count_value(mismatched_folders),
        count_value(records.len()),
        count_value(missing_dashboards),
        count_value(skipped_missing),
    ];
    let summary = JsonValue::Object { keys: summary_keys, values: summary_values };
    let folders_value = JsonValue::Array(folders);
    let dashboards_value = JsonValue::Array(dashboards);
    let ghost sv = summary@;
    let ghost fv = folders_value@;
    let ghost dv = dashboards_value@;
    let keys = vec![owned("mode"), owned("folders"), owned("dashboards"), owned("summary")];
    let values = vec![JsonValue::Str(owned(mode)), folders_value, dashboards_value, summary];
    let r = JsonValue::Object { keys, values };
    proof {
        let q = dry_run_document(mode@, st, tv, import_dir@, skipped_missing as nat);
        assert(fv->Array_0 =~= q->Object_1[1]->Array_0);
        assert(dv->Array_0 =~= q->Object_1[2]->Array_0);
        assert(sv->Object_0 =~= q->Object_1[3]->Object_0);
        let qs = q->Object_1[3]->Object_1;
        assert(summary_values@[0]@ == qs[0]);
        assert(summary_values@[1]@ == qs[1]);
        assert(summary_values@[2]@ == qs[2]);
        assert(summary_values@[3]@ == qs[3]);
        assert(summary_values@[4]@ == qs[4]);
        assert(summary_values@[5]@ == qs[5]);
        assert(summary_values@[6]@ == qs[6]);
        assert(sv->Object_1 =~= q->Object_1[3]->Object_1);
        assert(r@->Object_0 =~= q->Object_0);
        assert(values@[0]@ == q->Object_1[0]);
        assert(values@[1]@ == q->Object_1[1]);
        assert(values@[2]@ == q->Object_1[2]);
        assert(values@[3]@ == q->Object_1[3]);
        assert(r@->Object_1 =~= q->Object_1);
    }
    r
}

} // verus!
verus! {

/// A folder path as compared: trimmed, `General` where blank.
pub open spec fn normalized_folder_path(path: Option<Seq<char>>) -> Seq<char> {
    let v = trim(
        match path {
            Some(p) => p,
            None => Seq::empty(),
        },
    );
    if v.len() == 0 {
        general_title()
    } else {
        v
    }
}

/// Normalizes a folder path for comparison.
pub fn normalize_folder_path(path: Option<&str>) -> (r: String)
    ensures
        r@ == normalized_folder_path(opt_view(path)),
{
    let v = match path {
        Some(p) => crate::text::trim_str(p),
        None => owned(""),
    };
    proof {
        reveal_strlit("");
        crate::text::lemma_trim_empty_iff_blank(Seq::empty());
    }
    if v.as_str().unicode_len() == 0 {
        owned("General")
    } else {
        v
    }
}

/// Whether a dashboard's source folder path and the path of the live
/// dashboard with its UID agree, why not, and the two paths normalized.
pub open spec fn folder_path_match(
    source: Option<Seq<char>>,
    destination: Option<Seq<char>>,
    destination_exists: bool,
    require_matching_folder_path: bool,
) -> (bool, Seq<char>, Seq<char>, Option<Seq<char>>) {
    let ns = normalized_folder_path(source);
    let nd = match destination {
        Some(p) => Some(normalized_folder_path(Some(p))),
        None => None,
    };
    if !require_matching_folder_path || !destination_exists {
        (true, Seq::empty(), ns, nd)
    } else {
        match nd {
            None => (false, "folder-path-unknown"@, ns, nd),
            Some(d) => if ns == d {
                (true, Seq::empty(), ns, nd)
            } else {
                (false, "folder-path-mismatch"@, ns, nd)
            },
        }
    }
}

/// Compares the source and destination folder paths of a dashboard.
pub fn build_folder_path_match_result(
    source_folder_path: Option<&str>,
    destination_folder_path: Option<&str>,
    destination_exists: bool,
    require_matching_folder_path: bool,
) -> (r: (bool, String, String, Option<String>))
    ensures
        (r.0, r.1@, r.2@, opt_string(r.3)) == folder_path_match(
            opt_view(source_folder_path),
            opt_view(destination_folder_path),
            destination_exists,
            require_matching_folder_path,
        ),
{
    let ns = normalize_folder_path(source_folder_path);
    let nd: Option<String> = match destination_folder_path {
        Some(p) => Some(normalize_folder_path(Some(p))),
        None => None,
    };
    proof {
        reveal_strlit("");
    }
    if !require_matching_folder_path || !destination_exists {
        return (true, owned(""), ns, nd);
    }
    let same = match &nd {
        None => None,
        Some(d) => Some(crate::text::str_is(ns.as_str(), d.as_str())),
    };
    match same {
        None => (false, owned("folder-path-unknown"), ns, nd),
        Some(true) => (true, owned(""), ns, nd),
        Some(false) => (false, owned("folder-path-mismatch"), ns, nd),
    }
}

/// The action after the folder-path guard: an update into a folder whose
/// path does not match is skipped.
pub open spec fn guarded_action(action: Seq<char>, matches: bool) -> Seq<char> {
    if action == "would-update"@ && !matches {
        "would-skip-folder-mismatch"@
    } else {
        action
    }
}

/// Applies the folder-path guard to a planned action.
pub fn apply_folder_path_guard_to_action(action: &str, matches: bool) -> (r: String)
    ensures
        r@ == guarded_action(action@, matches),
{
    if crate::text::str_is(action, "would-update") && !matches {
        owned("would-skip-folder-mismatch")
    } else {
        owned(action)
    }
}


/// The refusal of an import directory that holds both the `raw` and the
/// `prompt` variant of an export: the root of a combined export, not one
/// variant of it.
pub open spec fn combined_root_error(import_dir: Seq<char>) -> Seq<char> {
    "Import path "@ + import_dir
        + " is a combined export root with raw/ and prompt/ variants. Point the import at one variant directory, such as "@
        + import_dir + "/raw."@
}

/// Refuses to read dashboards from a combined export root: a directory
/// with both a `raw` and a `prompt` subdirectory.
pub fn ensure_not_combined_export_root(import_dir: &str, has_raw_dir: bool, has_prompt_dir: bool) -> (r: Result<
    (),
    String,
>)
    ensures
        r is Ok <==> !(has_raw_dir && has_prompt_dir),
        r is Err ==> r->Err_0@ == combined_root_error(import_dir@),
{
    if has_raw_dir && has_prompt_dir {
        let mut e = owned("Import path ");
        e.append(import_dir);
        e.append(
            " is a combined export root with raw/ and prompt/ variants. Point the import at one variant directory, such as ",
        );
        e.append(import_dir);
        e.append("/raw.");
        Err(e)
    } else {
        Ok(())
    }
}


/// The refusal of `--ensure-folders` where the export holds no folder
/// inventory; `folders_file` is where the inventory was looked for.
pub open spec fn missing_inventory_error(folders_file: Seq<char>) -> Seq<char> {
    "Folder inventory file not found for --ensure-folders: "@ + folders_file
        + ". Re-export dashboards with raw folder inventory or omit --ensure-folders."@
}

/// Refuses to make sure of folders that the export's folder inventory does
/// not list: `--ensure-folders` needs a non-empty inventory.
pub fn check_ensure_folders_inventory(
    args: &ImportArgs,
    inventory: &Vec<FolderInventoryItem>,
    folders_file: &str,
) -> (r: Result<(), String>)
    ensures
        r is Ok <==> !(args.ensure_folders && inventory@.len() == 0),
        r is Err ==> r->Err_0@ == missing_inventory_error(folders_file@),
{
    if args.ensure_folders && inventory.len() == 0 {
        let mut e = owned("Folder inventory file not found for --ensure-folders: ");
        e.append(folders_file);
        e.append(". Re-export dashboards with raw folder inventory or omit --ensure-folders.");
        Err(e)
    } else {
        Ok(())
    }
}

} // verus!
