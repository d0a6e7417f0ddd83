//! The sides of a dashboard version comparison taken from history
//! artifacts, and the inventory of the artifacts of an export tree.
use vstd::prelude::*;

use crate::history::{DashboardHistoryInventoryDocument, DashboardHistoryInventoryItem};
use crate::history_payload::{DashboardHistoryExportDocument, DashboardHistoryExportVersion};
use crate::import::{build_compare_document, compare_document};
use crate::json::{clone_json, get_str, str_field, string_field, string_field_of, Json, JsonValue};
use crate::history::diff_identity;
use crate::text::{clone_opt, join, owned, signed_decimal, trim_end};

verus! {

/// The position of the first version numbered `version`, or -1.
pub open spec fn first_version_pos(vs: Seq<DashboardHistoryExportVersion>, version: int) -> int
    decreases vs.len(),
{
    if vs.len() == 0 {
        -1
    } else if vs[0].version == version {
        0
    } else {
        let p = first_version_pos(vs.drop_first(), version);
        if p < 0 {
            -1
        } else {
            p + 1
        }
    }
}

pub proof fn lemma_first_version_pos(vs: Seq<DashboardHistoryExportVersion>, version: int)
    ensures
        -1 <= first_version_pos(vs, version) < vs.len(),
        first_version_pos(vs, version) >= 0 ==> vs[first_version_pos(vs, version)].version == version,
        first_version_pos(vs, version) < 0 ==> forall|i: int| 0 <= i < vs.len() ==> vs[i].version != version,
    decreases vs.len(),
{
    if vs.len() > 0 && vs[0].version != version {
        lemma_first_version_pos(vs.drop_first(), version);
        assert forall|i: int| 1 <= i < vs.len() implies vs[i] == vs.drop_first()[i - 1] by {}
    }
}

/// The refusal of a history source that lacks the version asked for.
pub open spec fn missing_version_error(label: Seq<char>, version: int) -> Seq<char> {
    "History source "@ + label + " does not contain dashboard version "@ + signed_decimal(version) + "."@
}

/// The version numbered `version` of a history artifact: its first entry
/// with that number.
pub fn dashboard_history_export_version<'a>(
    document: &'a DashboardHistoryExportDocument,
    version: i64,
    label: &str,
) -> (r: Result<&'a DashboardHistoryExportVersion, String>)
    ensures
        ({
            let k = first_version_pos(document.versions@, version as int);
            match r {
                Ok(v) => k >= 0 && *v == document.versions@[k],
                Err(e) => k < 0 && e@ == missing_version_error(label@, version as int),
            }
        }),
{
    let ghost vs = document.versions@;
    let mut i: usize = 0;
    assert(vs.skip(0) =~= vs);
    while i < document.versions.len()
        invariant
            vs == document.versions@,
            i <= vs.len(),
            first_version_pos(vs, version as int) == if first_version_pos(vs.skip(i as int), version as int) < 0 {
                -1
            } else {
                i + first_version_pos(vs.skip(i as int), version as int)
            },
        decreases vs.len() - i,
    {
        proof {
            assert(vs.skip(i as int).drop_first() =~= vs.skip(i + 1));
            assert(vs.skip(i as int)[0] == vs[i as int]);
        }
        if document.versions[i].version == version {
            return Ok(&document.versions[i]);
        }
        i = i + 1;
    }
    proof {
        assert(vs.skip(i as int).len() == 0);
    }
    let mut e = owned("History source ");
    e.append(label);
    e.append(" does not contain dashboard version ");
    e.append(crate::text::i64_text(version).as_str());
    e.append(".");
    Err(e)
}

/// The refusal of an artifact version that holds no dashboard object.
pub open spec fn artifact_json_error() -> Seq<char> {
    "Dashboard history artifact version did not include dashboard JSON."@
}

/// The document compared for an artifact version's dashboard: the
/// dashboard with the folder it names under `folderUid`.
pub fn build_history_compare_document(dashboard: &JsonValue) -> (r: Result<JsonValue, String>)
    ensures
        match r {
            Ok(c) => dashboard@ is Object && c@ == compare_document(dashboard@, str_field(dashboard@, "folderUid"@)),
            Err(e) => !(dashboard@ is Object) && e@ == artifact_json_error(),
        },
{
    match dashboard {
        JsonValue::Object { .. } => {
            let folder_uid = get_str(dashboard, "folderUid");
            let copy = clone_json(dashboard);
            match folder_uid {
                Some(f) => Ok(build_compare_document(copy, Some(f.as_str()))),
                None => Ok(build_compare_document(copy, None)),
            }
        },
        _ => Err(owned("Dashboard history artifact version did not include dashboard JSON.")),
    }
}

/// One side of a version comparison: where it comes from, the dashboard
/// and version, and the document compared.
#[derive(Debug)]
pub struct ResolvedHistoryDiffSide {
    pub source_label: String,
    pub dashboard_uid: String,
    pub version: i64,
    pub title: String,
    pub dashboard: JsonValue,
    pub compare_document: JsonValue,
}

/// Takes one side of a version comparison from a history artifact read
/// from `label`; `default_title` names a dashboard that has no title.
pub fn resolve_history_diff_side_from_document(
    document: &DashboardHistoryExportDocument,
    label: String,
    version: i64,
    default_title: &str,
) -> (r: Result<ResolvedHistoryDiffSide, String>)
    ensures
        ({
            let k = first_version_pos(document.versions@, version as int);
            let d = document.versions@[k].dashboard@;
            match r {
                Ok(side) => {
                    &&& k >= 0
                    &&& d is Object
                    &&& side.source_label@ == label@ + "@"@ + signed_decimal(version as int)
                    &&& side.dashboard_uid@ == document.dashboard_uid@
                    &&& side.version == version
                    &&& side.title@ == string_field_of(d, "title"@, default_title@)
                    &&& side.dashboard@ == d
                    &&& side.compare_document@ == compare_document(d, str_field(d, "folderUid"@))
                },
                Err(e) => if k < 0 {
                    e@ == missing_version_error(label@, version as int)
                } else {
                    !(d is Object) && e@ == artifact_json_error()
                },
            }
        }),
{
    let entry = dashboard_history_export_version(document, version, label.as_str())?;
    let compare = build_history_compare_document(&entry.dashboard)?;
    let title = string_field(&entry.dashboard, "title", default_title);
    let mut source_label = label;
    source_label.append("@");
    source_label.append(crate::text::i64_text(version).as_str());
    Ok(ResolvedHistoryDiffSide {
        source_label,
        dashboard_uid: document.dashboard_uid.clone(),
        version,
        title,
        dashboard: clone_json(&entry.dashboard),
        compare_document: compare,
    })
}

/// A history artifact found in an export tree: its path relative to the
/// tree, the scope it was exported under, and its content.
#[derive(Debug)]
pub struct LocalHistoryArtifact {
    pub path: String,
    pub scope: Option<String>,
    pub document: DashboardHistoryExportDocument,
}

/// The inventory entry of an artifact.
pub open spec fn inventory_item_of(i: DashboardHistoryInventoryItem, a: LocalHistoryArtifact) -> bool {
    &&& i.dashboard_uid@ == a.document.dashboard_uid@
    &&& i.current_title@ == a.document.current_title@
    &&& i.current_version == a.document.current_version
    &&& i.version_count == a.document.version_count
    &&& i.path@ == a.path@
    &&& i.scope == a.scope
}

/// The inventory of the history artifacts of an export tree, in order.
pub fn build_dashboard_history_inventory_document(
    artifacts: &Vec<LocalHistoryArtifact>,
    schema_version: i64,
    tool_version: &str,
) -> (d: DashboardHistoryInventoryDocument)
    ensures
        d.kind@ == "grafana-util-dashboard-history-inventory"@,
        d.schema_version == schema_version,
        d.tool_version@ == tool_version@,
        d.artifact_count == artifacts@.len(),
        d.artifacts@.len() == artifacts@.len(),
        forall|i: int| 0 <= i < artifacts@.len() ==> inventory_item_of(#[trigger] d.artifacts@[i], artifacts@[i]),
{
    let mut items: Vec<DashboardHistoryInventoryItem> = Vec::new();
    let mut i: usize = 0;
    while i < artifacts.len()
        invariant
            i <= artifacts@.len(),
            items@.len() == i,
            forall|k: int| 0 <= k < i ==> inventory_item_of(#[trigger] items@[k], artifacts@[k]),
        decreases artifacts.len() - i,
    {
        let a = &artifacts[i];
        items.push(DashboardHistoryInventoryItem {
            dashboard_uid: a.document.dashboard_uid.clone(),
            current_title: a.document.current_title.clone(),
            current_version: a.document.current_version,
            version_count: a.document.version_count,
            path: a.path.clone(),
            scope: clone_opt(&a.scope),
        });
        i = i + 1;
    }
    DashboardHistoryInventoryDocument {
        kind: owned("grafana-util-dashboard-history-inventory"),
        schema_version,
        tool_version: owned(tool_version),
        artifact_count: artifacts.len(),
        artifacts: items,
    }
}


/// The text report of a version comparison, from its two sides and the row
/// of its diff document: a headline with the identity, the status (from
/// the row, `different` where it has none) and both versions; the two
/// sources; the row's path where it has one; both titles; and, where the
/// row holds diff text, a blank line and that text without trailing
/// whitespace. The lines are joined with newlines.
pub open spec fn history_diff_text(base: ResolvedHistoryDiffSide, new: ResolvedHistoryDiffSide, row: Json) -> Seq<char> {
    let status = match str_field(row, "status"@) {
        Some(s) => s,
        None => "different"@,
    };
    let head = seq![
        "Dashboard history diff: "@ + diff_identity(base.dashboard_uid@, new.dashboard_uid@) + " status="@ + status
            + " base-version="@ + signed_decimal(base.version as int) + " new-version="@ + signed_decimal(
            new.version as int,
        ),
        "Base source: "@ + base.source_label@,
        "New source: "@ + new.source_label@,
    ];
    let path = match str_field(row, "path"@) {
        Some(p) => seq!["Path: "@ + p],
        None => Seq::empty(),
    };
    let titles = seq!["Base title: "@ + base.title@, "New title: "@ + new.title@];
    let diff = match str_field(row, "diffText"@) {
        Some(d) => seq![Seq::empty(), trim_end(d)],
        None => Seq::empty(),
    };
    join(head + path + titles + diff, "\n"@)
}

fn push_line(lines: &mut Vec<String>, line: String)
    ensures
        crate::strset::views(final(lines)@) == crate::strset::views(old(lines)@).push(line@),
{
    lines.push(line);
    assert(crate::strset::views(lines@) =~= crate::strset::views(old(lines)@).push(line@));
}

/// Renders the text report of a version comparison from its two sides and
/// the first row of its diff document.
pub fn render_dashboard_history_diff_text(
    base: &ResolvedHistoryDiffSide,
    new: &ResolvedHistoryDiffSide,
    row: &JsonValue,
) -> (t: String)
    ensures
        t@ == history_diff_text(*base, *new, row@),
{
    let status = match get_str(row, "status") {
        Some(s) => owned(s.as_str()),
        None => owned("different"),
    };
    let mut headline = owned("Dashboard history diff: ");
    headline.append(crate::history::history_diff_identity(base.dashboard_uid.as_str(), new.dashboard_uid.as_str()).as_str());
    headline.append(" status=");
    headline.append(status.as_str());
    headline.append(" base-version=");
    headline.append(crate::text::i64_text(base.version).as_str());
    headline.append(" new-version=");
    headline.append(crate::text::i64_text(new.version).as_str());
    let mut lines: Vec<String> = Vec::new();
    push_line(&mut lines, headline);
    push_line(&mut lines, crate::text::concat("Base source: ", base.source_label.as_str()));
    push_line(&mut lines, crate::text::concat("New source: ", new.source_label.as_str()));
    let ghost after_head = crate::strset::views(lines@);
    match get_str(row, "path") {
        Some(p) => push_line(&mut lines, crate::text::concat("Path: ", p.as_str())),
        None => {},
    }
    let ghost after_path = crate::strset::views(lines@);
    push_line(&mut lines, crate::text::concat("Base title: ", base.title.as_str()));
    push_line(&mut lines, crate::text::concat("New title: ", new.title.as_str()));
    let ghost after_titles = crate::strset::views(lines@);
    match get_str(row, "diffText") {
        Some(d) => {
            push_line(&mut lines, String::new());
            push_line(&mut lines, crate::text::trim_end_str(d.as_str()));
        },
        None => {},
    }
    proof {
        let st = match str_field(row@, "status"@) {
            Some(s) => s,
            None => "different"@,
        };
        assert(status@ == st);
        let head = seq![
            "Dashboard history diff: "@ + diff_identity(base.dashboard_uid@, new.dashboard_uid@) + " status="@ + st
                + " base-version="@ + signed_decimal(base.version as int) + " new-version="@ + signed_decimal(
                new.version as int,
            ),
            "Base source: "@ + base.source_label@,
            "New source: "@ + new.source_label@,
        ];
        let path = match str_field(row@, "path"@) {
            Some(p) => seq!["Path: "@ + p],
            None => Seq::<Seq<char>>::empty(),
        };
        let titles = seq!["Base title: "@ + base.title@, "New title: "@ + new.title@];
        let diff = match str_field(row@, "diffText"@) {
            Some(d) => seq![Seq::<char>::empty(), trim_end(d)],
            None => Seq::<Seq<char>>::empty(),
        };
        assert(after_head =~= head);
        assert(after_path =~= head + path);
        assert(after_titles =~= head + path + titles);
        assert(crate::strset::views(lines@) =~= head + path + titles + diff);
    }
    crate::text::join_strings(lines.as_slice(), "\n")
}

} // verus!
