//! Dashboard import and diff: the documents sent to and compared with
//! Grafana, and the decisions taken for each dashboard file. Reading files
//! and talking to Grafana stay with the caller, which hands in what it read
//! and what Grafana answered.
use vstd::prelude::*;

use crate::json::{
    field, get_field, get_str, set_field, str_field, string_field, string_field_of, with_field,
    Json, JsonValue,
};
use crate::text::{concat, owned};

verus! {

pub open spec fn object_error() -> Seq<char> {
    "Dashboard payload must be a JSON object."@
}

/// The dashboard object that a document holds: the object under
/// `dashboard` where the document wraps one, else the document itself.
/// `None` where the document, or what it wraps, is no object.
pub open spec fn dashboard_object_of(doc: Json) -> Option<Json> {
    match doc {
        Json::Object(_, _) => match field(doc, "dashboard"@) {
            Some(d) => if d is Object {
                Some(d)
            } else {
                None
            },
            None => Some(doc),
        },
        _ => None,
    }
}

/// Finds the dashboard object of an exported or fetched document.
pub fn extract_dashboard_object(document: &JsonValue) -> (r: Result<&JsonValue, String>)
    ensures
        match r {
            Ok(d) => dashboard_object_of(document@) == Some(d@),
            Err(e) => dashboard_object_of(document@) is None && e@ == object_error(),
        },
{
    match document {
        JsonValue::Object { .. } => match get_field(document, "dashboard") {
            Some(d) => match d {
                JsonValue::Object { .. } => Ok(d),
                _ => Err(owned("Dashboard payload must be a JSON object.")),
            },
            None => Ok(document),
        },
        _ => Err(owned("Dashboard payload must be a JSON object.")),
    }
}

/// The dashboard of a document in the form Grafana's web import takes: its
/// numeric `id` cleared so that Grafana keeps the `uid`.
pub open spec fn preserved_document(doc: Json) -> Result<Json, Seq<char>> {
    match dashboard_object_of(doc) {
        Some(d) => Ok(with_field(d, "id"@, Json::Null)),
        None => Err(object_error()),
    }
}

/// Builds the dashboard document that a web import preserves the UID of.
pub fn build_preserved_web_import_document(payload: &JsonValue) -> (r: Result<JsonValue, String>)
    ensures
        match (r, preserved_document(payload@)) {
            (Ok(d), Ok(p)) => d@ == p,
            (Err(e), Err(m)) => e@ == m,
            _ => false,
        },
{
    let d = extract_dashboard_object(payload)?;
    let mut out = crate::json::clone_json(d);
    set_field(&mut out, owned("id"), JsonValue::Null);
    Ok(out)
}

/// The folder a document was exported from: `meta.folderUid`.
pub open spec fn meta_folder_uid(doc: Json) -> Option<Seq<char>> {
    match field(doc, "meta"@) {
        Some(m) => str_field(m, "folderUid"@),
        None => None,
    }
}

/// The folder an import puts a dashboard in: the override where one is
/// given, else the folder the document came from; a blank one is none.
pub open spec fn payload_folder(doc: Json, folder_override: Option<Seq<char>>) -> Option<Seq<char>> {
    let f = match folder_override {
        Some(f) => Some(f),
        None => meta_folder_uid(doc),
    };
    match f {
        Some(s) => if s.len() > 0 {
            Some(s)
        } else {
            None
        },
        None => None,
    }
}

/// The body of Grafana's dashboard import request for a document.
pub open spec fn import_payload(
    doc: Json,
    folder_override: Option<Seq<char>>,
    replace_existing: bool,
    message: Seq<char>,
) -> Result<Json, Seq<char>> {
    match preserved_document(doc) {
        Ok(dash) => {
            let base = Json::Object(
                seq!["dashboard"@, "overwrite"@, "message"@],
                seq![dash, Json::Bool(replace_existing), Json::Str(message)],
            );
            Ok(
                match payload_folder(doc, folder_override) {
                    Some(f) => Json::Object(
                        seq!["dashboard"@, "overwrite"@, "message"@, "folderUid"@],
                        seq![dash, Json::Bool(replace_existing), Json::Str(message), Json::Str(f)],
                    ),
                    None => base,
                },
            )
        },
        Err(e) => Err(e),
    }
}

/// Builds the import request body: the dashboard with its numeric id
/// cleared, the overwrite flag, the version message and the target folder.
pub fn build_import_payload(
    document: &JsonValue,
    folder_uid_override: Option<&str>,
    replace_existing: bool,
    message: &str,
) -> (r: Result<JsonValue, String>)
    ensures
        match (r, import_payload(document@, opt_view(folder_uid_override), replace_existing, message@)) {
            (Ok(p), Ok(q)) => p@ == q,
            (Err(e), Err(m)) => e@ == m,
            _ => false,
        },
{
    let dash = build_preserved_web_import_document(document)?;
    let folder: Option<String> = match folder_uid_override {
        Some(f) => Some(owned(f)),
        None => match get_field(document, "meta") {
            Some(m) => match get_str(m, "folderUid") {
                Some(s) => Some(s.clone()),
                None => None,
            },
            None => None,
        },
    };
    let mut keys: Vec<String> = vec![owned("dashboard"), owned("overwrite"), owned("message")];
    let mut values: Vec<JsonValue> = vec![dash, JsonValue::Bool(replace_existing), JsonValue::Str(owned(message))];
    match folder {
        Some(f) => {
            if f.as_str().unicode_len() > 0 {
                keys.push(owned("folderUid"));
                values.push(JsonValue::Str(f));
            }
        },
        None => {},
    }
    let out = JsonValue::Object { keys, values };
    proof {
        let q = import_payload(document@, opt_view(folder_uid_override), replace_existing, message@);
        assert(out@->Object_0 =~= q->Ok_0->Object_0);
        assert(values@[0]@ == q->Ok_0->Object_1[0]);
        assert(values@[1]@ == q->Ok_0->Object_1[1]);
        assert(values@[2]@ == q->Ok_0->Object_1[2]);
        assert(out@->Object_1.len() == q->Ok_0->Object_1.len());
        if values@.len() == 4 {
            assert(values@[3]@ == q->Ok_0->Object_1[3]);
        }
        assert(out@->Object_1 =~= q->Ok_0->Object_1);
    }
    Ok(out)
}

/// The view of an optional string slice.
pub open spec fn opt_view(o: Option<&str>) -> Option<Seq<char>> {
    match o {
        Some(s) => Some(s@),
        None => None,
    }
}

/// A relative path `name` under `dir`, joined as a path does: with one `/`
/// between them unless `dir` is empty or ends in one.
pub open spec fn join_path(dir: Seq<char>, name: Seq<char>) -> Seq<char> {
    if dir.len() == 0 {
        name
    } else if dir.last() == '/' {
        dir + name
    } else {
        dir + "/"@ + name
    }
}

/// Joins a relative `name` under `dir`.
pub fn join_path_str(dir: &str, name: &str) -> (r: String)
    ensures
        r@ == join_path(dir@, name@),
{
    let n = dir.unicode_len();
    if n == 0 {
        owned(name)
    } else if dir.get_char(n - 1) == '/' {
        concat(dir, name)
    } else {
        crate::text::concat3(dir, "/", name)
    }
}

/// The raw and prompt variant directories of an export root.
pub fn build_export_variant_dirs(output_dir: &str) -> (r: (String, String))
    ensures
        r.0@ == join_path(output_dir@, "raw"@),
        r.1@ == join_path(output_dir@, "prompt"@),
{
    (join_path_str(output_dir, "raw"), join_path_str(output_dir, "prompt"))
}

/// The document that `diff` compares: the dashboard, and its folder where
/// one is named.
pub open spec fn compare_document(dashboard: Json, folder_uid: Option<Seq<char>>) -> Json {
    match folder_uid {
        Some(f) => if f.len() > 0 {
            Json::Object(seq!["dashboard"@, "folderUid"@], seq![dashboard, Json::Str(f)])
        } else {
            Json::Object(seq!["dashboard"@], seq![dashboard])
        },
        None => Json::Object(seq!["dashboard"@], seq![dashboard]),
    }
}

/// The document that `diff` compares for a dashboard and its folder.
pub fn build_compare_document(dashboard: JsonValue, folder_uid: Option<&str>) -> (r: JsonValue)
    ensures
        r@ == compare_document(dashboard@, opt_view(folder_uid)),
{
    let ghost d = dashboard@;
    let mut keys: Vec<String> = vec![owned("dashboard")];
    let mut values: Vec<JsonValue> = vec![dashboard];
    match folder_uid {
        Some(f) => {
            if f.unicode_len() > 0 {
                keys.push(owned("folderUid"));
                values.push(JsonValue::Str(owned(f)));
            }
        },
        None => {},
    }
    let out = JsonValue::Object { keys, values };
    proof {
        let q = compare_document(d, opt_view(folder_uid));
        assert(values@[0]@ == q->Object_1[0]);
        if values@.len() == 2 {
            assert(values@[1]@ == q->Object_1[1]);
        }
        assert(out@->Object_0 =~= q->Object_0);
        assert(out@->Object_1 =~= q->Object_1);
    }
    out
}

/// The local side of a diff: the dashboard of the import payload built
/// without overwrite or message, with the folder it would go to.
pub open spec fn local_compare_document(doc: Json, folder_override: Option<Seq<char>>) -> Result<Json, Seq<char>> {
    match import_payload(doc, folder_override, false, Seq::empty()) {
        Ok(p) => Ok(compare_document(field(p, "dashboard"@)->Some_0, str_field(p, "folderUid"@))),
        Err(e) => Err(e),
    }
}

/// Builds the local side of a diff for an exported document.
pub fn build_local_compare_document(document: &JsonValue, folder_uid_override: Option<&str>) -> (r:
    Result<JsonValue, String>)
    ensures
        match (r, local_compare_document(document@, opt_view(folder_uid_override))) {
            (Ok(d), Ok(q)) => d@ == q,
            (Err(e), Err(m)) => e@ == m,
            _ => false,
        },
{
    proof {
        reveal_strlit("");
    }
    let payload = build_import_payload(document, folder_uid_override, false, "")?;
    let ghost p = payload@;
    proof {
        crate::json::lemma_key_pos(p->Object_0, "dashboard"@);
        reveal_strlit("dashboard");
        assert(p->Object_0[0] == "dashboard"@);
    }
    let dash = match get_field(&payload, "dashboard") {
        Some(d) => crate::json::clone_json(d),
        None => JsonValue::Null,
    };
    let f: Option<&str> = match get_str(&payload, "folderUid") {
        Some(s) => Some(s.as_str()),
        None => None,
    };
    Ok(build_compare_document(dash, f))
}

/// The remote side of a diff: the dashboard Grafana returned, prepared as
/// a web import would be, with the override folder or the folder Grafana
/// reports it in.
pub open spec fn remote_compare_document(payload: Json, folder_override: Option<Seq<char>>) -> Result<Json, Seq<char>> {
    match preserved_document(payload) {
        Ok(d) => Ok(
            compare_document(
                d,
                match folder_override {
                    Some(f) => Some(f),
                    None => meta_folder_uid(payload),
                },
            ),
        ),
        Err(e) => Err(e),
    }
}

/// Builds the remote side of a diff from Grafana's dashboard payload.
pub fn build_remote_compare_document(payload: &JsonValue, folder_uid_override: Option<&str>) -> (r:
    Result<JsonValue, String>)
    ensures
        match (r, remote_compare_document(payload@, opt_view(folder_uid_override))) {
            (Ok(d), Ok(q)) => d@ == q,
            (Err(e), Err(m)) => e@ == m,
            _ => false,
        },
{
    let dashboard = build_preserved_web_import_document(payload)?;
    let folder: Option<&str> = match folder_uid_override {
        Some(f) => Some(f),
        None => match get_field(payload, "meta") {
            Some(m) => match get_str(m, "folderUid") {
                Some(s) => Some(s.as_str()),
                None => None,
            },
            None => None,
        },
    };
    Ok(build_compare_document(dashboard, folder))
}

/// Each line prefixed with `p` and ended with a newline.
pub open spec fn prefixed_lines(ls: Seq<Seq<char>>, p: char) -> Seq<char>
    decreases ls.len(),
{
    if ls.len() == 0 {
        Seq::empty()
    } else {
        prefixed_lines(ls.drop_last(), p) + seq![p] + ls.last() + "\n"@
    }
}

fn append_prefixed_lines(text: &mut String, lines: &Vec<String>, p: char)
    ensures
        final(text)@ == old(text)@ + prefixed_lines(lines@.map_values(|l: String| l@), p),
{
    let ghost start = text@;
    let ghost ls = lines@.map_values(|l: String| l@);
    let mut i: usize = 0;
    proof {
        reveal_strlit("\n");
        assert(ls.take(0) =~= Seq::<Seq<char>>::empty());
    }
    while i < lines.len()
        invariant
            i <= lines@.len(),
            ls == lines@.map_values(|l: String| l@),
            text@ == start + prefixed_lines(ls.take(i as int), p),
        decreases lines.len() - i,
    {
        proof {
            reveal_strlit("\n");
            assert(ls.take(i + 1).drop_last() =~= ls.take(i as int));
        }
        crate::text::push_char(text, p);
        text.append(lines[i].as_str());
        text.append("\n");
        proof {
            assert(text@ =~= start + prefixed_lines(ls.take(i + 1), p));
        }
        i = i + 1;
    }
    assert(ls.take(lines@.len() as int) =~= ls);
}

/// The unified-style diff text of a dashboard: Grafana's pretty-printed
/// document as removed lines, the local one as added lines.
pub open spec fn compare_diff_text(remote_pretty: Seq<char>, local_pretty: Seq<char>, uid: Seq<char>, file: Seq<char>) -> Seq<char> {
    "--- grafana:"@ + uid + "\n"@ + "+++ "@ + file + "\n"@
        + prefixed_lines(crate::text::text_lines(remote_pretty), '-')
        + prefixed_lines(crate::text::text_lines(local_pretty), '+')
}

/// Builds the diff text shown for a dashboard that differs from Grafana's.
/// The context width is accepted for the command's option and not used.
pub fn build_compare_diff_text(
    remote_pretty: &str,
    local_pretty: &str,
    uid: &str,
    dashboard_file: &str,
    _context_lines: usize,
) -> (r: String)
    ensures
        r@ == compare_diff_text(remote_pretty@, local_pretty@, uid@, dashboard_file@),
{
    let mut text = owned("--- grafana:");
    text.append(uid);
    text.append("\n+++ ");
    text.append(dashboard_file);
    text.append("\n");
    let remote_lines = crate::text::split_lines(remote_pretty);
    let local_lines = crate::text::split_lines(local_pretty);
    append_prefixed_lines(&mut text, &remote_lines, '-');
    append_prefixed_lines(&mut text, &local_lines, '+');
    proof {
        reveal_strlit("--- grafana:");
        reveal_strlit("\n+++ ");
        reveal_strlit("+++ ");
        reveal_strlit("\n");
        assert(text@ =~= compare_diff_text(remote_pretty@, local_pretty@, uid@, dashboard_file@));
    }
    text
}

/// The UID whose live dashboard a diff compares a document with: that of
/// the dashboard its import payload carries.
pub open spec fn diff_uid(doc: Json) -> Result<Seq<char>, Seq<char>> {
    match import_payload(doc, None, false, Seq::empty()) {
        Ok(p) => Ok(string_field_of(field(p, "dashboard"@)->Some_0, "uid"@, Seq::empty())),
        Err(e) => Err(e),
    }
}

/// Finds the UID of the live dashboard to compare a local document with.
pub fn diff_dashboard_uid(document: &JsonValue) -> (r: Result<String, String>)
    ensures
        match (r, diff_uid(document@)) {
            (Ok(u), Ok(v)) => u@ == v,
            (Err(e), Err(m)) => e@ == m,
            _ => false,
        },
{
    proof {
        reveal_strlit("");
    }
    let payload = build_import_payload(document, None, false, "")?;
    let ghost p = payload@;
    proof {
        crate::json::lemma_key_pos(p->Object_0, "dashboard"@);
        reveal_strlit("dashboard");
        assert(p->Object_0[0] == "dashboard"@);
    }
    match get_field(&payload, "dashboard") {
        Some(d) => Ok(string_field(d, "uid", "")),
        None => Ok(owned("")),
    }
}

/// The line for a local dashboard that Grafana does not have.
pub fn diff_missing_line(uid: &str, dashboard_file: &str) -> (r: String)
    ensures
        r@ == "Diff missing in Grafana for uid="@ + uid@ + " from "@ + dashboard_file@,
{
    let mut t = owned("Diff missing in Grafana for uid=");
    t.append(uid);
    t.append(" from ");
    t.append(dashboard_file);
    t
}

/// The line for a local dashboard that matches Grafana's.
pub fn diff_matched_line(uid: &str, dashboard_file: &str) -> (r: String)
    ensures
        r@ == "Diff matched uid="@ + uid@ + " for "@ + dashboard_file@,
{
    let mut t = owned("Diff matched uid=");
    t.append(uid);
    t.append(" for ");
    t.append(dashboard_file);
    t
}

/// The closing line of a diff run.
pub fn diff_summary_line(checked: usize, differences: usize) -> (r: String)
    ensures
        r@ == "Diff checked "@ + crate::text::decimal(checked as nat) + " dashboard(s); "@
            + crate::text::decimal(differences as nat) + " difference(s) found."@,
{
    let mut t = owned("Diff checked ");
    t.append(crate::text::usize_text(checked).as_str());
    t.append(" dashboard(s); ");
    t.append(crate::text::usize_text(differences).as_str());
    t.append(" difference(s) found.");
    t
}

} // verus!
