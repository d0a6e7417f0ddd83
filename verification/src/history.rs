//! Dashboard version history: the documents that list, restore and
//! compare versions, and their text renderings.
use vstd::prelude::*;

use crate::strset::views;
use crate::text::{decimal, join, owned, signed_decimal};

verus! {

/// One saved version of a dashboard.
#[derive(Debug)]
pub struct DashboardHistoryVersion {
    pub version: i64,
    pub created: String,
    pub created_by: String,
    pub message: String,
}

/// The versions of one dashboard.
#[derive(Debug)]
pub struct DashboardHistoryListDocument {
    pub kind: String,
    pub schema_version: i64,
    pub tool_version: String,
    pub dashboard_uid: String,
    pub version_count: usize,
    pub versions: Vec<DashboardHistoryVersion>,
}

/// What restoring an earlier version of a dashboard does.
#[derive(Debug)]
pub struct DashboardHistoryRestoreDocument {
    pub kind: String,
    pub schema_version: i64,
    pub tool_version: String,
    pub mode: String,
    pub dashboard_uid: String,
    pub current_version: i64,
    pub restore_version: i64,
    pub current_title: String,
    pub restored_title: String,
    pub target_folder_uid: Option<String>,
    pub creates_new_revision: bool,
    pub message: String,
}

/// One history artifact found in an export tree.
#[derive(Debug)]
pub struct DashboardHistoryInventoryItem {
    pub dashboard_uid: String,
    pub current_title: String,
    pub current_version: i64,
    pub version_count: usize,
    pub path: String,
    pub scope: Option<String>,
}

/// The history artifacts of an export tree.
#[derive(Debug)]
pub struct DashboardHistoryInventoryDocument {
    pub kind: String,
    pub schema_version: i64,
    pub tool_version: String,
    pub artifact_count: usize,
    pub artifacts: Vec<DashboardHistoryInventoryItem>,
}

/// What a restore preview found: the live version and title, the title of
/// the version restored, and the folder the dashboard stays in.
#[derive(Debug)]
pub struct DashboardRestorePreview {
    pub current_version: i64,
    pub current_title: String,
    pub restored_title: String,
    pub target_folder_uid: Option<String>,
}

pub open spec fn restore_kind() -> Seq<char> {
    "grafana-util-dashboard-history-restore"@
}

/// Builds the document describing a restore of `version` of dashboard
/// `uid`; a restore always saves a new revision.
pub fn build_dashboard_history_restore_document(
    uid: &str,
    version: i64,
    preview: &DashboardRestorePreview,
    message_text: &str,
    dry_run: bool,
    schema_version: i64,
    tool_version: &str,
) -> (d: DashboardHistoryRestoreDocument)
    ensures
        d.kind@ == restore_kind(),
        d.schema_version == schema_version,
        d.tool_version@ == tool_version@,
        d.mode@ == (if dry_run { "dry-run"@ } else { "live"@ }),
        d.dashboard_uid@ == uid@,
        d.current_version == preview.current_version,
        d.restore_version == version,
        d.current_title == preview.current_title,
        d.restored_title == preview.restored_title,
        d.target_folder_uid == preview.target_folder_uid,
        d.creates_new_revision,
        d.message@ == message_text@,
{
    DashboardHistoryRestoreDocument {
        kind: owned("grafana-util-dashboard-history-restore"),
        schema_version,
        tool_version: owned(tool_version),
        mode: if dry_run {
            owned("dry-run")
        } else {
            owned("live")
        },
        dashboard_uid: owned(uid),
        current_version: preview.current_version,
        restore_version: version,
        current_title: preview.current_title.clone(),
        restored_title: preview.restored_title.clone(),
        target_folder_uid: crate::text::clone_opt(&preview.target_folder_uid),
        creates_new_revision: true,
        message: owned(message_text),
    }
}

/// The line of one version: number, creation time, author, and message
/// where there is one.
pub open spec fn version_line(v: DashboardHistoryVersion) -> Seq<char> {
    "  v"@ + signed_decimal(v.version as int) + " "@ + v.created@ + " "@ + v.created_by@ + if v.message@.len() == 0 {
        Seq::<char>::empty()
    } else {
        " "@ + v.message@
    }
}

/// The text listing of a dashboard's versions.
pub open spec fn history_list_text(d: DashboardHistoryListDocument) -> Seq<char> {
    join(
        seq!["Dashboard history: "@ + d.dashboard_uid@ + " versions="@ + decimal(d.version_count as nat)]
            + d.versions@.map_values(|v: DashboardHistoryVersion| version_line(v)),
        "\n"@,
    )
}

fn push_view(lines: &mut Vec<String>, l: String)
    ensures
        views(final(lines)@) == views(old(lines)@).push(l@),
{
    let ghost before = lines@;
    let ghost lv = l;
    lines.push(l);
    proof {
        before.lemma_push_map_commute(|s: String| s@, lv);
    }
}

/// Renders a dashboard's versions as text.
pub fn render_dashboard_history_list_text(document: &DashboardHistoryListDocument) -> (t: String)
    ensures
        t@ == history_list_text(*document),
{
    let mut head = owned("Dashboard history: ");
    head.append(document.dashboard_uid.as_str());
    head.append(" versions=");
    head.append(crate::text::usize_text(document.version_count).as_str());
    let mut lines: Vec<String> = Vec::new();
    push_view(&mut lines, head);
    let ghost vs = document.versions@.map_values(|v: DashboardHistoryVersion| version_line(v));
    let ghost first = views(lines@);
    let mut i: usize = 0;
    while i < document.versions.len()
        invariant
            i <= document.versions@.len(),
            vs == document.versions@.map_values(|v: DashboardHistoryVersion| version_line(v)),
            views(lines@) == first + vs.take(i as int),
        decreases document.versions.len() - i,
    {
        let v = &document.versions[i];
        let mut l = owned("  v");
        l.append(crate::text::i64_text(v.version).as_str());
        l.append(" ");
        l.append(v.created.as_str());
        l.append(" ");
        l.append(v.created_by.as_str());
        if v.message.as_str().unicode_len() > 0 {
            l.append(" ");
            l.append(v.message.as_str());
        }
        proof {
            reveal_strlit("");
            assert(l@ == version_line(*v));
            assert(vs.take(i + 1) =~= vs.take(i as int).push(l@));
        }
        push_view(&mut lines, l);
        i = i + 1;
    }
    proof {
        assert(vs.take(document.versions@.len() as int) =~= vs);
        assert(views(lines@) =~= seq!["Dashboard history: "@ + document.dashboard_uid@ + " versions="@
            + decimal(document.version_count as nat)] + vs);
    }
    crate::text::join_strings(lines.as_slice(), "\n")
}

/// The line of one history artifact.
pub open spec fn artifact_line(a: DashboardHistoryInventoryItem) -> Seq<char> {
    "  "@ + a.dashboard_uid@ + " title="@ + a.current_title@ + " current-version="@
        + signed_decimal(a.current_version as int) + " versions="@ + decimal(a.version_count as nat)
        + " scope="@ + (match a.scope { Some(s) => s@, None => "current"@ }) + " path="@ + a.path@
}

/// The text listing of an export tree's history artifacts.
pub open spec fn history_inventory_text(d: DashboardHistoryInventoryDocument) -> Seq<char> {
    join(
        seq!["Dashboard history artifacts: count="@ + decimal(d.artifact_count as nat)]
            + d.artifacts@.map_values(|a: DashboardHistoryInventoryItem| artifact_line(a)),
        "\n"@,
    )
}

/// Renders the history artifacts of an export tree as text.
pub fn render_dashboard_history_inventory_text(document: &DashboardHistoryInventoryDocument) -> (t: String)
    ensures
        t@ == history_inventory_text(*document),
{
    let mut lines: Vec<String> = Vec::new();
    push_view(&mut lines, crate::text::concat("Dashboard history artifacts: count=", crate::text::usize_text(document.artifact_count).as_str()));
    let ghost vs = document.artifacts@.map_values(|a: DashboardHistoryInventoryItem| artifact_line(a));
    let ghost first = views(lines@);
    let mut i: usize = 0;
    while i < document.artifacts.len()
        invariant
            i <= document.artifacts@.len(),
            vs == document.artifacts@.map_values(|a: DashboardHistoryInventoryItem| artifact_line(a)),
            views(lines@) == first + vs.take(i as int),
        decreases document.artifacts.len() - i,
    {
        let a = &document.artifacts[i];
        let mut l = owned("  ");
        l.append(a.dashboard_uid.as_str());
        l.append(" title=");
        l.append(a.current_title.as_str());
        l.append(" current-version=");
        l.append(crate::text::i64_text(a.current_version).as_str());
        l.append(" versions=");
        l.append(crate::text::usize_text(a.version_count).as_str());
        l.append(" scope=");
        match &a.scope {
            Some(s) => l.append(s.as_str()),
            None => l.append("current"),
        }
        l.append(" path=");
        l.append(a.path.as_str());
        proof {
            assert(l@ == artifact_line(*a));
            assert(vs.take(i + 1) =~= vs.take(i as int).push(l@));
        }
        push_view(&mut lines, l);
        i = i + 1;
    }
    proof {
        assert(vs.take(document.artifacts@.len() as int) =~= vs);
        assert(views(lines@) =~= seq!["Dashboard history artifacts: count="@ + decimal(document.artifact_count as nat)] + vs);
    }
    crate::text::join_strings(lines.as_slice(), "\n")
}

/// The text summary of a restore.
pub open spec fn history_restore_text(d: DashboardHistoryRestoreDocument) -> Seq<char> {
    join(
        seq![
            "Dashboard history restore: "@ + d.dashboard_uid@ + " current-version="@
                + signed_decimal(d.current_version as int) + " restore-version="@
                + signed_decimal(d.restore_version as int) + " mode="@ + d.mode@
                + " creates-new-revision="@ + crate::text::bool_text(d.creates_new_revision),
            "Current title: "@ + d.current_title@,
            "Restored title: "@ + d.restored_title@,
        ] + (match crate::import_flow::opt_string(d.target_folder_uid) {
            Some(f) => seq!["Target folder UID: "@ + f],
            None => Seq::empty(),
        }) + seq!["Message: "@ + d.message@],
        "\n"@,
    )
}

/// Renders a restore summary as text.
pub fn render_dashboard_history_restore_text(document: &DashboardHistoryRestoreDocument) -> (t: String)
    ensures
        t@ == history_restore_text(*document),
{
    let mut head = owned("Dashboard history restore: ");
    head.append(document.dashboard_uid.as_str());
    head.append(" current-version=");
    head.append(crate::text::i64_text(document.current_version).as_str());
    head.append(" restore-version=");
    head.append(crate::text::i64_text(document.restore_version).as_str());
    head.append(" mode=");
    head.append(document.mode.as_str());
    head.append(" creates-new-revision=");
    head.append(crate::text::bool_string(document.creates_new_revision).as_str());
    let mut lines: Vec<String> = Vec::new();
    push_view(&mut lines, head);
    push_view(&mut lines, crate::text::concat("Current title: ", document.current_title.as_str()));
    push_view(&mut lines, crate::text::concat("Restored title: ", document.restored_title.as_str()));
    match &document.target_folder_uid {
        Some(f) => push_view(&mut lines, crate::text::concat("Target folder UID: ", f.as_str())),
        None => {},
    }
    push_view(&mut lines, crate::text::concat("Message: ", document.message.as_str()));
    proof {
        let tf = crate::import_flow::opt_string(document.target_folder_uid);
        let q = seq![
            "Dashboard history restore: "@ + document.dashboard_uid@ + " current-version="@
                + signed_decimal(document.current_version as int) + " restore-version="@
                + signed_decimal(document.restore_version as int) + " mode="@ + document.mode@
                + " creates-new-revision="@ + crate::text::bool_text(document.creates_new_revision),
            "Current title: "@ + document.current_title@,
            "Restored title: "@ + document.restored_title@,
        ] + (match tf {
            Some(f) => seq!["Target folder UID: "@ + f],
            None => Seq::empty(),
        }) + seq!["Message: "@ + document.message@];
        assert(views(lines@) =~= q);
    }
    crate::text::join_strings(lines.as_slice(), "\n")
}

/// How two sides of a version comparison are named: the UID where both are
/// the same dashboard, `<base> -> <new>` otherwise.
pub open spec fn diff_identity(base_uid: Seq<char>, new_uid: Seq<char>) -> Seq<char> {
    if base_uid == new_uid {
        base_uid
    } else {
        base_uid + " -> "@ + new_uid
    }
}

/// Names the two sides of a version comparison.
pub fn history_diff_identity(base_uid: &str, new_uid: &str) -> (r: String)
    ensures
        r@ == diff_identity(base_uid@, new_uid@),
{
    if crate::text::str_is(base_uid, new_uid) {
        owned(base_uid)
    } else {
        crate::text::concat3(base_uid, " -> ", new_uid)
    }
}

/// Where one side of a version comparison comes from.
#[derive(Debug)]
pub enum HistoryDiffSource {
    /// The live dashboard with this UID.
    Live { dashboard_uid: String },
    /// A history artifact file.
    Artifact { path: String },
    /// The artifact for this UID inside an export tree.
    ImportDir { input_dir: String, dashboard_uid: String },
}

pub open spec fn diff_source_error(uid: Option<Seq<char>>, input: Option<Seq<char>>, input_dir: Option<Seq<char>>, side: Seq<char>) -> Option<Seq<char>> {
    match (uid, input, input_dir) {
        (Some(_), None, None) => None,
        (None, Some(_), None) => None,
        (Some(_), None, Some(_)) => None,
        (None, None, Some(_)) => Some(
            "dashboard history diff "@ + side + " side requires --"@ + side + "-dashboard-uid when --"@ + side
                + "-input-dir is set."@,
        ),
        (None, None, None) => Some(
            "dashboard history diff "@ + side + " side requires exactly one source: --"@ + side
                + "-dashboard-uid, --"@ + side + "-input, or --"@ + side + "-input-dir with --"@ + side
                + "-dashboard-uid."@,
        ),
        _ => Some("dashboard history diff "@ + side + " side must choose exactly one source."@),
    }
}

/// Picks the source of one side of a version comparison from its options:
/// a live UID, an artifact file, or an export tree with a UID.
pub fn resolve_history_diff_source(
    dashboard_uid: &Option<String>,
    input: &Option<String>,
    input_dir: &Option<String>,
    side: &str,
) -> (r: Result<HistoryDiffSource, String>)
    ensures
        match (r, diff_source_error(crate::import_flow::opt_string(*dashboard_uid), crate::import_flow::opt_string(*input), crate::import_flow::opt_string(*input_dir), side@)) {
            (Ok(HistoryDiffSource::Live { dashboard_uid: u }), None) => *dashboard_uid == Some(u) && input is None && input_dir is None,
            (Ok(HistoryDiffSource::Artifact { path: p }), None) => *input == Some(p) && dashboard_uid is None && input_dir is None,
            (Ok(HistoryDiffSource::ImportDir { input_dir: d, dashboard_uid: u }), None) => *input_dir == Some(d) && *dashboard_uid == Some(u) && input is None,
            (Err(e), Some(m)) => e@ == m,
            _ => false,
        },
{
    match (dashboard_uid, input, input_dir) {
        (Some(uid), None, None) => Ok(HistoryDiffSource::Live { dashboard_uid: uid.clone() }),
        (None, Some(path), None) => Ok(HistoryDiffSource::Artifact { path: path.clone() }),
        (Some(uid), None, Some(dir)) => Ok(HistoryDiffSource::ImportDir { input_dir: dir.clone(), dashboard_uid: uid.clone() }),
        (None, None, Some(_)) => {
            let mut e = owned("dashboard history diff ");
            e.append(side);
            e.append(" side requires --");
            e.append(side);
            e.append("-dashboard-uid when --");
            e.append(side);
            e.append("-input-dir is set.");
            Err(e)
        },
        (None, None, None) => {
            let mut e = owned("dashboard history diff ");
            e.append(side);
            e.append(" side requires exactly one source: --");
            e.append(side);
            e.append("-dashboard-uid, --");
            e.append(side);
            e.append("-input, or --");
            e.append(side);
            e.append("-input-dir with --");
            e.append(side);
            e.append("-dashboard-uid.");
            Err(e)
        },
        _ => {
            let mut e = owned("dashboard history diff ");
            e.append(side);
            e.append(" side must choose exactly one source.");
            Err(e)
        },
    }
}


/// What a history restore does once its preview is rendered.
#[derive(Debug, PartialEq, Eq, Structural)]
pub enum HistoryRestoreAction {
    /// A dry run: the preview is printed and nothing is restored.
    PreviewOnly,
    /// The preview is printed and the user is asked before restoring.
    ConfirmFirst,
    /// The version is restored, then the preview is printed.
    Restore,
}

/// The refusal of a restore that is neither a dry run, nor prompted, nor
/// confirmed with `--yes`.
pub open spec fn restore_without_yes_error() -> Seq<char> {
    "Dashboard history restore requires --yes unless --dry-run or --prompt is set."@
}

/// Decides what a history restore does: a dry run only previews; a
/// prompted restore asks first; otherwise `--yes` is needed to restore.
pub fn history_restore_action(dry_run: bool, prompt: bool, yes: bool) -> (r: Result<HistoryRestoreAction, String>)
    ensures
        dry_run ==> r == Ok::<HistoryRestoreAction, String>(HistoryRestoreAction::PreviewOnly),
        !dry_run && prompt ==> r == Ok::<HistoryRestoreAction, String>(HistoryRestoreAction::ConfirmFirst),
        !dry_run && !prompt && yes ==> r == Ok::<HistoryRestoreAction, String>(HistoryRestoreAction::Restore),
        !dry_run && !prompt && !yes ==> r is Err && r->Err_0@ == restore_without_yes_error(),
{
    if dry_run {
        Ok(HistoryRestoreAction::PreviewOnly)
    } else if prompt {
        Ok(HistoryRestoreAction::ConfirmFirst)
    } else if yes {
        Ok(HistoryRestoreAction::Restore)
    } else {
        Err(owned("Dashboard history restore requires --yes unless --dry-run or --prompt is set."))
    }
}

/// The refusal of a restore that names no version and does not prompt.
pub open spec fn restore_without_version_error() -> Seq<char> {
    "Dashboard history restore requires --version unless --prompt is used."@
}

/// The version a restore starts from: the one given, or `None` where the
/// user is to pick one from a prompt; an error where neither is set.
pub fn history_restore_version(version: Option<i64>, prompt: bool) -> (r: Result<Option<i64>, String>)
    ensures
        version is Some ==> r == Ok::<Option<i64>, String>(version),
        version is None && prompt ==> r == Ok::<Option<i64>, String>(None),
        version is None && !prompt ==> r is Err && r->Err_0@ == restore_without_version_error(),
{
    match version {
        Some(v) => Ok(Some(v)),
        None => if prompt {
            Ok(None)
        } else {
            Err(owned("Dashboard history restore requires --version unless --prompt is used."))
        },
    }
}

/// The version message of a restore: the one given, or the default naming
/// the version.
pub open spec fn restore_message_text(message: Option<Seq<char>>, version: int) -> Seq<char> {
    match message {
        Some(m) => m,
        None => "Restored by grafana-util dashboard history to version "@ + signed_decimal(version),
    }
}

/// Chooses the version message of a restore.
pub fn history_restore_message(message: Option<&str>, version: i64) -> (r: String)
    ensures
        r@ == restore_message_text(
            match message {
                Some(m) => Some(m@),
                None => None,
            },
            version as int,
        ),
{
    match message {
        Some(m) => owned(m),
        None => {
            let mut t = owned("Restored by grafana-util dashboard history to version ");
            t.append(crate::text::i64_text(version).as_str());
            t
        },
    }
}


/// The version message of a restore made from the dashboard browser.
pub open spec fn browse_restore_message_text(version: int) -> Seq<char> {
    "Restored by grafana-utils dashboard browse to version "@ + signed_decimal(version)
}

/// The version message of a restore made from the dashboard browser, naming
/// the version restored.
pub fn browse_restore_message(version: i64) -> (r: String)
    ensures
        r@ == browse_restore_message_text(version as int),
{
    let mut t = owned("Restored by grafana-utils dashboard browse to version ");
    t.append(crate::text::i64_text(version).as_str());
    t
}

} // verus!
