//! What the dashboard history commands make of Grafana's replies: the
//! versions a version listing holds, the dashboard data of one version,
//! and the import request that restores a version.
use vstd::prelude::*;

use crate::governance_gate::{jviews, opt_view};
use crate::history::{DashboardHistoryListDocument, DashboardHistoryVersion};
use crate::json::{field, get_field, set_field, string_field, string_field_of, with_field, Json, JsonValue};
use crate::json_text::{as_i64, json_i64, json_text, json_to_text};
use crate::text::{join, owned, signed_decimal};

verus! {

/// A version as values.
#[verifier::ext_equal]
pub ghost struct VersionView {
    pub version: int,
    pub created: Seq<char>,
    pub created_by: Seq<char>,
    pub message: Seq<char>,
}

pub open spec fn version_view(v: DashboardHistoryVersion) -> VersionView {
    VersionView { version: v.version as int, created: v.created@, created_by: v.created_by@, message: v.message@ }
}

pub open spec fn version_views(v: Seq<DashboardHistoryVersion>) -> Seq<VersionView> {
    v.map_values(|x: DashboardHistoryVersion| version_view(x))
}

/// A value as the history listing shows it: a string as it is, anything
/// else as its JSON text.
pub open spec fn display_text(j: Json) -> Seq<char> {
    match j {
        Json::Str(t) => t,
        _ => json_text(j),
    }
}

/// The version an entry of Grafana's version listing describes: its number
/// (0 where it has none), its creation time (`-` where it has none), its
/// author (`-` where blank) and its message.
pub open spec fn version_from_item(item: Json) -> VersionView {
    VersionView {
        version: match field(item, "version"@) {
            Some(x) => match json_i64(x) {
                Some(n) => n,
                None => 0,
            },
            None => 0,
        },
        created: match field(item, "created"@) {
            Some(x) => display_text(x),
            None => "-"@,
        },
        created_by: string_field_of(item, "createdBy"@, "-"@),
        message: string_field_of(item, "message"@, Seq::empty()),
    }
}

/// The entries of a version listing reply: the reply itself where it is an
/// array, its `versions` array where it is an object (none where that is
/// missing), none where there is no reply.
pub open spec fn versions_payload(response: Option<Json>) -> Result<Seq<Json>, Seq<char>> {
    match response {
        None => Ok(Seq::empty()),
        Some(Json::Array(items)) => Ok(items),
        Some(Json::Object(ks, vs)) => match field(Json::Object(ks, vs), "versions"@) {
            Some(Json::Array(items)) => Ok(items),
            _ => Ok(Seq::empty()),
        },
        Some(_) => Err("Unexpected dashboard versions payload from Grafana."@),
    }
}

/// The entries that are objects.
pub open spec fn object_items(items: Seq<Json>) -> Seq<Json> {
    items.filter(|x: Json| x is Object)
}

/// The versions a version listing reply describes, in reply order; entries
/// that are no objects are passed over.
pub open spec fn history_versions(response: Option<Json>) -> Result<Seq<VersionView>, Seq<char>> {
    match versions_payload(response) {
        Ok(items) => Ok(object_items(items).map_values(|x: Json| version_from_item(x))),
        Err(e) => Err(e),
    }
}

/// The text a value is shown with in the history listing.
pub fn display_value(value: &JsonValue) -> (t: String)
    ensures
        t@ == display_text(value@),
{
    match value {
        JsonValue::Str(s) => s.clone(),
        _ => json_to_text(value),
    }
}

fn version_from(item: &JsonValue) -> (v: DashboardHistoryVersion)
    ensures
        version_view(v) == version_from_item(item@),
{
    proof {
        reveal_strlit("");
    }
    let version = match get_field(item, "version") {
        Some(x) => match as_i64(x) {
            Some(n) => n,
            None => 0,
        },
        None => 0,
    };
    let created = match get_field(item, "created") {
        Some(x) => display_value(x),
        None => owned("-"),
    };
    let v = DashboardHistoryVersion {
        version,
        created,
        created_by: string_field(item, "createdBy", "-"),
        message: string_field(item, "message", ""),
    };
    assert(version_view(v) =~= version_from_item(item@));
    v
}

fn versions_from_items(items: &Vec<JsonValue>) -> (out: Vec<DashboardHistoryVersion>)
    ensures
        version_views(out@) == object_items(jviews(items@)).map_values(|x: Json| version_from_item(x)),
{
    let ghost js = jviews(items@);
    let mut out: Vec<DashboardHistoryVersion> = Vec::new();
    let mut i: usize = 0;
    while i < items.len()
        invariant
            i <= items@.len(),
            js == jviews(items@),
            version_views(out@) == object_items(js.take(i as int)).map_values(|x: Json| version_from_item(x)),
        decreases items.len() - i,
    {
        proof {
            assert(js.take(i + 1) == js.take(i as int).push(js[i as int]));
            js.take(i as int).lemma_filter_push(js[i as int], |x: Json| x is Object);
            assert(js[i as int] == items@[i as int]@);
        }
        let ghost before = version_views(out@);
        match &items[i] {
            JsonValue::Object { .. } => {
                let v = version_from(&items[i]);
                out.push(v);
                assert(version_views(out@) =~= before.push(version_from_item(items@[i as int]@)));
            },
            _ => {},
        }
        assert(version_views(out@) =~= object_items(js.take(i + 1)).map_values(|x: Json| version_from_item(x)));
        i = i + 1;
    }
    assert(js.take(items@.len() as int) == js);
    out
}

/// The versions of a dashboard that Grafana's version listing reply
/// describes.
pub fn dashboard_history_versions_from_response(response: Option<&JsonValue>) -> (r: Result<
    Vec<DashboardHistoryVersion>,
    String,
>)
    ensures
        match r {
            Ok(v) => history_versions(opt_view(response)) == Ok::<Seq<VersionView>, Seq<char>>(version_views(v@)),
            Err(e) => history_versions(opt_view(response)) == Err::<Seq<VersionView>, Seq<char>>(e@),
        },
{
    match response {
        None => {
            let out: Vec<DashboardHistoryVersion> = Vec::new();
            assert(version_views(out@) =~= object_items(Seq::<Json>::empty()).map_values(
                |x: Json| version_from_item(x),
            ));
            Ok(out)
        },
        Some(v) => match v {
            JsonValue::Array(items) => {
                assert(v@->Array_0 =~= jviews(items@));
                Ok(versions_from_items(items))
            },
            JsonValue::Object { .. } => match get_field(v, "versions") {
                Some(w) => match w {
                    JsonValue::Array(items) => {
                        assert(w@->Array_0 =~= jviews(items@));
                        Ok(versions_from_items(items))
                    },
                    _ => {
                        let out: Vec<DashboardHistoryVersion> = Vec::new();
                        assert(version_views(out@) =~= object_items(Seq::<Json>::empty()).map_values(
                            |x: Json| version_from_item(x),
                        ));
                        Ok(out)
                    },
                },
                None => {
                    let out: Vec<DashboardHistoryVersion> = Vec::new();
                    assert(version_views(out@) =~= object_items(Seq::<Json>::empty()).map_values(
                        |x: Json| version_from_item(x),
                    ));
                    Ok(out)
                },
            },
            _ => Err(owned("Unexpected dashboard versions payload from Grafana.")),
        },
    }
}

/// The listing document of a dashboard's versions.
pub fn build_dashboard_history_list_document(
    uid: &str,
    versions: Vec<DashboardHistoryVersion>,
    schema_version: i64,
    tool_version: &str,
) -> (d: DashboardHistoryListDocument)
    ensures
        d.kind@ == "grafana-util-dashboard-history-list"@,
        d.schema_version == schema_version,
        d.tool_version@ == tool_version@,
        d.dashboard_uid@ == uid@,
        d.version_count == versions@.len(),
        d.versions@ == versions@,
{
    DashboardHistoryListDocument {
        kind: owned("grafana-util-dashboard-history-list"),
        schema_version,
        tool_version: owned(tool_version),
        dashboard_uid: owned(uid),
        version_count: versions.len(),
        versions,
    }
}

/// The dashboard data a version reply holds, or what is wrong with it.
pub open spec fn version_data(payload: Option<Json>, version: int) -> Result<Json, Seq<char>> {
    match payload {
        None => Err("Dashboard history version "@ + signed_decimal(version) + " was not returned."@),
        Some(p) => if !(p is Object) {
            Err("Unexpected dashboard history version payload from Grafana."@)
        } else {
            match field(p, "data"@) {
                Some(Json::Object(ks, vs)) => Ok(Json::Object(ks, vs)),
                _ => Err("Dashboard history version payload did not include dashboard data."@),
            }
        },
    }
}

/// Takes the dashboard data out of Grafana's reply for one version.
pub fn dashboard_history_version_data(payload: Option<&JsonValue>, version: i64) -> (r: Result<JsonValue, String>)
    ensures
        match r {
            Ok(d) => version_data(opt_view(payload), version as int) == Ok::<Json, Seq<char>>(d@),
            Err(e) => version_data(opt_view(payload), version as int) == Err::<Json, Seq<char>>(e@),
        },
{
    match payload {
        None => {
            let mut m = owned("Dashboard history version ");
            m.append(crate::text::i64_text(version).as_str());
            m.append(" was not returned.");
            Err(m)
        },
        Some(p) => match p {
            JsonValue::Object { .. } => match get_field(p, "data") {
                Some(d) => match d {
                    JsonValue::Object { .. } => Ok(crate::json::clone_json(d)),
                    _ => Err(owned("Dashboard history version payload did not include dashboard data.")),
                },
                None => Err(owned("Dashboard history version payload did not include dashboard data.")),
            },
            _ => Err(owned("Unexpected dashboard history version payload from Grafana.")),
        },
    }
}

/// The object under `key`, where there is one.
pub open spec fn object_field(j: Json, key: Seq<char>) -> Option<Json> {
    match field(j, key) {
        Some(Json::Object(ks, vs)) => Some(Json::Object(ks, vs)),
        _ => None,
    }
}

/// The folder a live dashboard stands in, as its reply's `meta` gives it.
pub open spec fn restore_folder(current: Json) -> Option<Seq<char>> {
    match object_field(current, "meta"@) {
        Some(m) => {
            let f = string_field_of(m, "folderUid"@, Seq::empty());
            if f.len() > 0 {
                Some(f)
            } else {
                None
            }
        },
        None => None,
    }
}

/// The restored dashboard: the version's data under the live dashboard's
/// id, UID and version number, titled `default_title` where it has no
/// title.
pub open spec fn restored_dashboard(data: Json, id: int, uid: Seq<char>, version: int, default_title: Seq<char>) -> Json {
    let d = with_field(
        with_field(with_field(data, "id"@, Json::Number(signed_decimal(id))), "uid"@, Json::Str(uid)),
        "version"@,
        Json::Number(signed_decimal(version)),
    );
    if field(d, "title"@) is Some {
        d
    } else {
        with_field(d, "title"@, Json::Str(default_title))
    }
}

/// The import request that restores the version `data` over the live
/// dashboard `current`, or what the live reply lacks: it overwrites the
/// live dashboard, keeps its id, UID, version number and folder, and
/// carries `message`.
pub open spec fn restore_payload(current: Json, data: Json, uid: Seq<char>, message: Seq<char>, default_title: Seq<char>) -> Result<
    Json,
    Seq<char>,
> {
    if !(current is Object) {
        Err("Unexpected current dashboard payload for history restore."@)
    } else {
        match object_field(current, "dashboard"@) {
            None => Err("Current dashboard payload did not include dashboard data."@),
            Some(dash) => match field(dash, "id"@) {
                Some(x) if json_i64(x) is Some => match field(dash, "version"@) {
                    Some(y) if json_i64(y) is Some => {
                        let d = restored_dashboard(data, json_i64(x)->0, uid, json_i64(y)->0, default_title);
                        let keys = seq!["dashboard"@, "overwrite"@, "message"@];
                        let values = seq![d, Json::Bool(true), Json::Str(message)];
                        Ok(
                            match restore_folder(current) {
                                Some(f) => Json::Object(keys.push("folderUid"@), values.push(Json::Str(f))),
                                None => Json::Object(keys, values),
                            },
                        )
                    },
                    _ => Err("Current dashboard payload did not include dashboard version."@),
                },
                _ => Err("Current dashboard payload did not include dashboard id."@),
            },
        }
    }
}

fn object_field_of<'a>(v: &'a JsonValue, key: &str) -> (r: Option<&'a JsonValue>)
    ensures
        match r {
            Some(x) => object_field(v@, key@) == Some(x@),
            None => object_field(v@, key@) is None,
        },
{
    match get_field(v, key) {
        Some(x) => match x {
            JsonValue::Object { .. } => Some(x),
            _ => None,
        },
        None => None,
    }
}

fn restore_folder_of(current: &JsonValue) -> (r: Option<String>)
    ensures
        match r {
            Some(f) => restore_folder(current@) == Some(f@),
            None => restore_folder(current@) is None,
        },
{
    proof {
        reveal_strlit("");
    }
    match object_field_of(current, "meta") {
        Some(m) => {
            let f = string_field(m, "folderUid", "");
            if f.as_str().unicode_len() > 0 {
                Some(f)
            } else {
                None
            }
        },
        None => None,
    }
}

/// Builds the import request that restores a version of a dashboard over
/// its live copy.
pub fn build_restore_payload(
    current: &JsonValue,
    data: JsonValue,
    uid: &str,
    message_text: &str,
    default_title: &str,
) -> (r: Result<JsonValue, String>)
    ensures
        match r {
            Ok(p) => restore_payload(current@, data@, uid@, message_text@, default_title@) == Ok::<Json, Seq<char>>(p@),
            Err(e) => restore_payload(current@, data@, uid@, message_text@, default_title@) == Err::<Json, Seq<char>>(e@),
        },
{
    let ghost data_v = data@;
    match current {
        JsonValue::Object { .. } => {},
        _ => {
            return Err(owned("Unexpected current dashboard payload for history restore."));
        },
    }
    let folder = restore_folder_of(current);
    let dash = match object_field_of(current, "dashboard") {
        Some(d) => d,
        None => {
            return Err(owned("Current dashboard payload did not include dashboard data."));
        },
    };
    let id = match get_field(dash, "id") {
        Some(x) => match as_i64(x) {
            Some(n) => n,
            None => {
                return Err(owned("Current dashboard payload did not include dashboard id."));
            },
        },
        None => {
            return Err(owned("Current dashboard payload did not include dashboard id."));
        },
    };
    let version = match get_field(dash, "version") {
        Some(y) => match as_i64(y) {
            Some(n) => n,
            None => {
                return Err(owned("Current dashboard payload did not include dashboard version."));
            },
        },
        None => {
            return Err(owned("Current dashboard payload did not include dashboard version."));
        },
    };
    let mut dashboard = data;
    set_field(&mut dashboard, owned("id"), JsonValue::Number(crate::text::i64_text(id)));
    set_field(&mut dashboard, owned("uid"), JsonValue::Str(owned(uid)));
    set_field(&mut dashboard, owned("version"), JsonValue::Number(crate::text::i64_text(version)));
    match get_field(&dashboard, "title") {
        Some(_) => {},
        None => {
            set_field(&mut dashboard, owned("title"), JsonValue::Str(owned(default_title)));
        },
    }
    let ghost d = dashboard@;
    let mut keys: Vec<String> = vec![owned("dashboard"), owned("overwrite"), owned("message")];
    let mut values: Vec<JsonValue> = vec![dashboard, JsonValue::Bool(true), JsonValue::Str(owned(message_text))];
    match folder {
        Some(f) => {
            keys.push(owned("folderUid"));
            values.push(JsonValue::Str(f));
        },
        None => {},
    }
    let out = JsonValue::Object { keys, values };
    proof {
        let q = restore_payload(current@, data_v, uid@, message_text@, default_title@);
        assert(d == q->Ok_0->Object_1[0]);
        assert(out@->Object_0 =~= q->Ok_0->Object_0);
        assert(values@[0]@ == q->Ok_0->Object_1[0]);
        assert(values@[1]@ == q->Ok_0->Object_1[1]);
        assert(values@[2]@ == q->Ok_0->Object_1[2]);
        assert(out@->Object_1.len() == q->Ok_0->Object_1.len());
        if values@.len() == 4 {
            assert(values@[3]@ == q->Ok_0->Object_1[3]);
        }
        assert(out@->Object_1 =~= q->Ok_0->Object_1);
    }
    Ok(out)
}

/// What a restore preview shows, as values.
pub ghost struct PreviewView {
    pub current_version: int,
    pub current_title: Seq<char>,
    pub restored_title: Seq<char>,
    pub target_folder_uid: Option<Seq<char>>,
}

pub open spec fn preview_view(p: crate::history::DashboardRestorePreview) -> PreviewView {
    PreviewView {
        current_version: p.current_version as int,
        current_title: p.current_title@,
        restored_title: p.restored_title@,
        target_folder_uid: match p.target_folder_uid {
            Some(f) => Some(f@),
            None => None,
        },
    }
}

/// The folder a preview names: the live dashboard's folder, where it is
/// neither blank nor the General folder.
pub open spec fn preview_folder(current: Json) -> Option<Seq<char>> {
    match object_field(current, "meta"@) {
        Some(m) => {
            let f = string_field_of(m, "folderUid"@, "general"@);
            if f.len() > 0 && f != "general"@ {
                Some(f)
            } else {
                None
            }
        },
        None => None,
    }
}

/// The preview of restoring the version `restored` over the live
/// dashboard `current`, or what the live reply lacks.
pub open spec fn restore_preview(current: Json, restored: Json, default_title: Seq<char>) -> Result<PreviewView, Seq<char>> {
    if !(current is Object) {
        Err("Unexpected current dashboard payload for history restore."@)
    } else {
        match object_field(current, "dashboard"@) {
            None => Err("Current dashboard payload did not include dashboard data."@),
            Some(dash) => Ok(
                PreviewView {
                    current_version: match field(dash, "version"@) {
                        Some(x) => match json_i64(x) {
                            Some(n) => n,
                            None => 0,
                        },
                        None => 0,
                    },
                    current_title: string_field_of(dash, "title"@, default_title),
                    restored_title: string_field_of(restored, "title"@, default_title),
                    target_folder_uid: preview_folder(current),
                },
            ),
        }
    }
}

/// Builds the preview of a restore from the live dashboard and the data of
/// the version to restore.
pub fn build_dashboard_restore_preview(current: &JsonValue, restored: &JsonValue, default_title: &str) -> (r: Result<
    crate::history::DashboardRestorePreview,
    String,
>)
    ensures
        match r {
            Ok(p) => restore_preview(current@, restored@, default_title@) == Ok::<PreviewView, Seq<char>>(preview_view(p)),
            Err(e) => restore_preview(current@, restored@, default_title@) == Err::<PreviewView, Seq<char>>(e@),
        },
{
    match current {
        JsonValue::Object { .. } => {},
        _ => {
            return Err(owned("Unexpected current dashboard payload for history restore."));
        },
    }
    let dash = match object_field_of(current, "dashboard") {
        Some(d) => d,
        None => {
            return Err(owned("Current dashboard payload did not include dashboard data."));
        },
    };
    let current_version = match get_field(dash, "version") {
        Some(x) => match as_i64(x) {
            Some(n) => n,
            None => 0,
        },
        None => 0,
    };
    let target_folder_uid = match object_field_of(current, "meta") {
        Some(m) => {
            let f = string_field(m, "folderUid", "general");
            if f.as_str().unicode_len() > 0 && !crate::text::str_is(f.as_str(), "general") {
                Some(f)
            } else {
                None
            }
        },
        None => None,
    };
    let p = crate::history::DashboardRestorePreview {
        current_version,
        current_title: string_field(dash, "title", default_title),
        restored_title: string_field(restored, "title", default_title),
        target_folder_uid,
    };
    assert(preview_view(p) == restore_preview(current@, restored@, default_title@)->Ok_0);
    Ok(p)
}

/// One version kept in a history artifact, with its dashboard.
#[derive(Debug)]
pub struct DashboardHistoryExportVersion {
    pub version: i64,
    pub created: String,
    pub created_by: String,
    pub message: String,
    pub dashboard: JsonValue,
}

/// A history artifact: the versions of one dashboard, with their
/// dashboards.
#[derive(Debug)]
pub struct DashboardHistoryExportDocument {
    pub kind: String,
    pub schema_version: i64,
    pub tool_version: String,
    pub dashboard_uid: String,
    pub current_version: i64,
    pub current_title: String,
    pub version_count: usize,
    pub versions: Vec<DashboardHistoryExportVersion>,
}

pub open spec fn export_version_view(v: DashboardHistoryExportVersion) -> VersionView {
    VersionView { version: v.version as int, created: v.created@, created_by: v.created_by@, message: v.message@ }
}

/// The listing document of a history artifact: its versions without their
/// dashboards.
pub fn build_dashboard_history_list_document_from_export_document(
    document: &DashboardHistoryExportDocument,
    schema_version: i64,
    tool_version: &str,
) -> (d: DashboardHistoryListDocument)
    ensures
        d.kind@ == "grafana-util-dashboard-history-list"@,
        d.schema_version == schema_version,
        d.tool_version@ == tool_version@,
        d.dashboard_uid@ == document.dashboard_uid@,
        d.version_count == document.version_count,
        version_views(d.versions@) == document.versions@.map_values(
            |v: DashboardHistoryExportVersion| export_version_view(v),
        ),
{
    let ghost target = document.versions@.map_values(|v: DashboardHistoryExportVersion| export_version_view(v));
    let mut versions: Vec<DashboardHistoryVersion> = Vec::new();
    let mut i: usize = 0;
    while i < document.versions.len()
        invariant
            i <= document.versions@.len(),
            target == document.versions@.map_values(|v: DashboardHistoryExportVersion| export_version_view(v)),
            version_views(versions@) == target.take(i as int),
        decreases document.versions.len() - i,
    {
        let item = &document.versions[i];
        let v = DashboardHistoryVersion {
            version: item.version,
            created: item.created.clone(),
            created_by: item.created_by.clone(),
            message: item.message.clone(),
        };
        let ghost before = version_views(versions@);
        versions.push(v);
        assert(version_views(versions@) =~= before.push(version_view(v)));
        assert(version_view(v) =~= target[i as int]);
        assert(target.take(i + 1) =~= target.take(i as int).push(target[i as int]));
        i = i + 1;
    }
    assert(target.take(document.versions@.len() as int) =~= target);
    DashboardHistoryListDocument {
        kind: owned("grafana-util-dashboard-history-list"),
        schema_version,
        tool_version: owned(tool_version),
        dashboard_uid: document.dashboard_uid.clone(),
        version_count: document.version_count,
        versions,
    }
}

/// The message refusing an artifact of another dashboard.
pub open spec fn artifact_uid_error(path: Seq<char>, found: Seq<char>, expected: Seq<char>) -> Seq<char> {
    "History artifact "@ + path + " contains dashboard UID "@ + found + " instead of "@ + expected + "."@
}

/// Refuses a history artifact that belongs to another dashboard.
pub fn ensure_history_artifact_uid_matches(
    expected_uid: &str,
    document: &DashboardHistoryExportDocument,
    path: &str,
) -> (r: Result<(), String>)
    ensures
        r is Ok <==> document.dashboard_uid@ == expected_uid@,
        r matches Err(e) ==> e@ == artifact_uid_error(path@, document.dashboard_uid@, expected_uid@),
{
    if crate::text::str_is(document.dashboard_uid.as_str(), expected_uid) {
        Ok(())
    } else {
        let mut e = owned("History artifact ");
        e.append(path);
        e.append(" contains dashboard UID ");
        e.append(document.dashboard_uid.as_str());
        e.append(" instead of ");
        e.append(expected_uid);
        e.append(".");
        Err(e)
    }
}

/// Where a history artifact was found in an export tree: its path below
/// the tree and the scope it belongs to, with the UID it holds.
#[derive(Debug)]
pub struct HistoryArtifactRef {
    pub path: String,
    pub scope: Option<String>,
    pub dashboard_uid: String,
}

/// The positions of the artifacts of dashboard `uid`, in order.
pub open spec fn artifacts_of(arts: Seq<HistoryArtifactRef>, uid: Seq<char>) -> Seq<int>
    decreases arts.len(),
{
    if arts.len() == 0 {
        Seq::empty()
    } else {
        let before = artifacts_of(arts.drop_last(), uid);
        if arts.last().dashboard_uid@ == uid {
            before.push(arts.len() - 1)
        } else {
            before
        }
    }
}

/// How an artifact is named where several match: its scope, or its path.
pub open spec fn artifact_label(a: HistoryArtifactRef) -> Seq<char> {
    match a.scope {
        Some(s) => s@,
        None => a.path@,
    }
}

/// Which artifact of an export tree lists dashboard `uid`: the one that
/// holds it, or why there is none to pick (none, or several).
pub open spec fn artifact_choice(arts: Seq<HistoryArtifactRef>, uid: Seq<char>, input_dir: Seq<char>) -> Result<int, Seq<char>> {
    let m = artifacts_of(arts, uid);
    if m.len() == 0 {
        Err("No dashboard history artifact for UID "@ + uid + " found under "@ + input_dir + "."@)
    } else if m.len() == 1 {
        Ok(m[0])
    } else {
        Err(
            "Multiple dashboard history artifacts for UID "@ + uid + " found under "@ + input_dir + ": "@ + join(
                m.map_values(|k: int| artifact_label(arts[k])),
                ", "@,
            ) + ". Narrow the export root or inspect one artifact with --input."@,
        )
    }
}

/// Picks the history artifact of dashboard `uid` among those of an export
/// tree.
pub fn select_history_artifact(artifacts: &Vec<HistoryArtifactRef>, uid: &str, input_dir: &str) -> (r: Result<
    usize,
    String,
>)
    ensures
        match r {
            Ok(k) => artifact_choice(artifacts@, uid@, input_dir@) == Ok::<int, Seq<char>>(k as int),
            Err(e) => artifact_choice(artifacts@, uid@, input_dir@) == Err::<int, Seq<char>>(e@),
        },
{
    let ghost arts = artifacts@;
    let mut matching: Vec<usize> = Vec::new();
    let mut i: usize = 0;
    while i < artifacts.len()
        invariant
            i <= artifacts@.len(),
            arts == artifacts@,
            matching@.len() == artifacts_of(arts.take(i as int), uid@).len(),
            forall|k: int| 0 <= k < matching@.len() ==> matching@[k] as int == #[trigger] artifacts_of(arts.take(i as int), uid@)[k],
            forall|k: int| 0 <= k < matching@.len() ==> matching@[k] < i,
        decreases artifacts.len() - i,
    {
        assert(arts.take(i + 1).drop_last() =~= arts.take(i as int));
        assert(arts.take(i + 1).last() == arts[i as int]);
        if crate::text::str_is(artifacts[i].dashboard_uid.as_str(), uid) {
            matching.push(i);
        }
        i = i + 1;
    }
    assert(arts.take(artifacts@.len() as int) =~= arts);
    if matching.len() == 0 {
        let mut e = owned("No dashboard history artifact for UID ");
        e.append(uid);
        e.append(" found under ");
        e.append(input_dir);
        e.append(".");
        Err(e)
    } else if matching.len() == 1 {
        Ok(matching[0])
    } else {
        let ghost m = artifacts_of(arts, uid@);
        let mut labels: Vec<String> = Vec::new();
        let mut j: usize = 0;
        while j < matching.len()
            invariant
                j <= matching@.len(),
                m == artifacts_of(arts, uid@),
                arts == artifacts@,
                matching@.len() == m.len(),
                forall|k: int| 0 <= k < matching@.len() ==> matching@[k] as int == #[trigger] m[k],
                forall|k: int| 0 <= k < matching@.len() ==> matching@[k] < arts.len(),
                labels@.len() == j,
                forall|k: int| 0 <= k < j ==> (#[trigger] labels@[k])@ == artifact_label(arts[m[k]]),
            decreases matching.len() - j,
        {
            let a = &artifacts[matching[j]];
            let label = match &a.scope {
                Some(s) => s.clone(),
                None => a.path.clone(),
            };
            labels.push(label);
            j = j + 1;
        }
        let joined = crate::text::join_strings(labels.as_slice(), ", ");
        proof {
            assert(labels@.map_values(|p: String| p@) =~= m.map_values(|k: int| artifact_label(arts[k])));
        }
        let mut e = owned("Multiple dashboard history artifacts for UID ");
        e.append(uid);
        e.append(" found under ");
        e.append(input_dir);
        e.append(": ");
        e.append(joined.as_str());
        e.append(". Narrow the export root or inspect one artifact with --input.");
        Err(e)
    }
}

/// The live version number and title a history export records, or what
/// the live reply lacks.
pub open spec fn export_current(current: Json, default_title: Seq<char>) -> Result<(int, Seq<char>), Seq<char>> {
    if !(current is Object) {
        Err("Unexpected current dashboard payload for history export."@)
    } else {
        match object_field(current, "dashboard"@) {
            None => Err("Current dashboard payload did not include dashboard data."@),
            Some(dash) => Ok(
                (
                    match field(dash, "version"@) {
                        Some(x) => match json_i64(x) {
                            Some(n) => n,
                            None => 0,
                        },
                        None => 0,
                    },
                    string_field_of(dash, "title"@, default_title),
                ),
            ),
        }
    }
}

/// Reads the live version number and title of the dashboard a history
/// export is made for.
pub fn history_export_current(current: &JsonValue, default_title: &str) -> (r: Result<(i64, String), String>)
    ensures
        match r {
            Ok((v, t)) => export_current(current@, default_title@) == Ok::<(int, Seq<char>), Seq<char>>(
                (v as int, t@),
            ),
            Err(e) => export_current(current@, default_title@) == Err::<(int, Seq<char>), Seq<char>>(e@),
        },
{
    match current {
        JsonValue::Object { .. } => {},
        _ => {
            return Err(owned("Unexpected current dashboard payload for history export."));
        },
    }
    match object_field_of(current, "dashboard") {
        Some(dash) => {
            let version = match get_field(dash, "version") {
                Some(x) => match as_i64(x) {
                    Some(n) => n,
                    None => 0,
                },
                None => 0,
            };
            Ok((version, string_field(dash, "title", default_title)))
        },
        None => Err(owned("Current dashboard payload did not include dashboard data.")),
    }
}

/// The history artifact of dashboard `uid`: its live version and title and
/// the versions given, each with its dashboard, in order.
pub fn build_dashboard_history_export_document(
    uid: &str,
    current_version: i64,
    current_title: String,
    versions: Vec<DashboardHistoryExportVersion>,
    schema_version: i64,
    tool_version: &str,
) -> (d: DashboardHistoryExportDocument)
    ensures
        d.kind@ == "grafana-util-dashboard-history-export"@,
        d.schema_version == schema_version,
        d.tool_version@ == tool_version@,
        d.dashboard_uid@ == uid@,
        d.current_version == current_version,
        d.current_title == current_title,
        d.version_count == versions@.len(),
        d.versions@ == versions@,
{
    DashboardHistoryExportDocument {
        kind: owned("grafana-util-dashboard-history-export"),
        schema_version,
        tool_version: owned(tool_version),
        dashboard_uid: owned(uid),
        current_version,
        current_title,
        version_count: versions.len(),
        versions,
    }
}


/// Builds the import request of a restore made from the dashboard browser:
/// version `version`, whose dashboard is `data`, over the live copy
/// `current`, with the message that names the version.
pub fn build_browse_restore_payload(
    current: &JsonValue,
    data: JsonValue,
    uid: &str,
    version: i64,
    default_title: &str,
) -> (r: Result<JsonValue, String>)
    ensures
        ({
            let m = crate::history::browse_restore_message_text(version as int);
            match r {
                Ok(p) => restore_payload(current@, data@, uid@, m, default_title@) == Ok::<Json, Seq<char>>(p@),
                Err(e) => restore_payload(current@, data@, uid@, m, default_title@) == Err::<Json, Seq<char>>(e@),
            }
        }),
{
    let message_text = crate::history::browse_restore_message(version);
    build_restore_payload(current, data, uid, message_text.as_str(), default_title)
}

} // verus!
