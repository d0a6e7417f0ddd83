//! Properties that hold across the library's operations.
use vstd::prelude::*;

use crate::datasource_summary::{active_count, orphaned_count, summary_lt, summary_position, summary_sort, SummaryRowView};
use crate::governance_gate::{
    all_query_findings, dashboard_keys, dashboard_limit_findings, empty_object, family_findings, gate_outcome, having,
    listing, mixed_findings, panel_limit_findings, panel_limit_findings_in, policy_of, query_findings, section,
    uid_findings, unknown_findings, values_of, violations_of, FindingView, PolicyView,
};
use crate::import::{dashboard_object_of, import_payload, preserved_document};
use crate::import_flow::{guarded_action, import_action};
use crate::inspect_flow::row_passes;
use crate::history_payload::{object_field, restore_payload};
use crate::json_text::json_i64;
use crate::text::signed_decimal;
use crate::json::{with_field, field, lemma_field_after_set, lemma_field_after_set_other, lemma_key_pos, Json, JsonValue};
use crate::report::QueryRowView;
use crate::text::seq_lt;

verus! {

/// A value found under a key of a value's view is itself the view of a
/// value, so an object found there pairs each key with a value.
proof fn lemma_field_paired(v: JsonValue, key: Seq<char>)
    requires
        field(v@, key) matches Some(x) && x is Object,
    ensures
        field(v@, key)->Some_0->Object_0.len() == field(v@, key)->Some_0->Object_1.len(),
{
    if let JsonValue::Object { keys, values } = v {
        let j = v@;
        lemma_key_pos(j->Object_0, key);
        let p = crate::json::key_pos(j->Object_0, key);
        assert(j->Object_1[p] == values@[p]@);
        let w = values@[p];
        assert(w is Object);
    }
}

/// The dashboard object of a document's view pairs each key with a value.
proof fn lemma_dashboard_paired(document: JsonValue)
    requires
        dashboard_object_of(document@) is Some,
    ensures
        dashboard_object_of(document@)->Some_0->Object_0.len() == dashboard_object_of(document@)->Some_0->Object_1.len(),
{
    match field(document@, "dashboard"@) {
        Some(d) => {
            lemma_field_paired(document, "dashboard"@);
        },
        None => {},
    }
}

/// An import payload clears the dashboard's numeric id, keeps every other
/// field of the dashboard as the document has it, and carries the
/// overwrite flag and the version message.
pub proof fn law_import_payload_clears_id(
    document: JsonValue,
    folder_override: Option<Seq<char>>,
    replace_existing: bool,
    message: Seq<char>,
    other: Seq<char>,
)
    requires
        import_payload(document@, folder_override, replace_existing, message) is Ok,
        other != "id"@,
    ensures
        ({
            let p = import_payload(document@, folder_override, replace_existing, message)->Ok_0;
            let d = field(p, "dashboard"@)->Some_0;
            &&& field(p, "dashboard"@) is Some
            &&& field(d, "id"@) == Some(Json::Null)
            &&& field(d, other) == field(dashboard_object_of(document@)->Some_0, other)
            &&& field(p, "overwrite"@) == Some(Json::Bool(replace_existing))
            &&& field(p, "message"@) == Some(Json::Str(message))
        }),
{
    let p = import_payload(document@, folder_override, replace_existing, message)->Ok_0;
    let d0 = dashboard_object_of(document@)->Some_0;
    lemma_dashboard_paired(document);
    lemma_field_after_set(d0, "id"@, Json::Null);
    lemma_field_after_set_other(d0, "id"@, Json::Null, other);
    reveal_strlit("dashboard");
    reveal_strlit("overwrite");
    reveal_strlit("message");
    reveal_strlit("folderUid");
    lemma_key_pos(p->Object_0, "dashboard"@);
    lemma_key_pos(p->Object_0, "overwrite"@);
    lemma_key_pos(p->Object_0, "message"@);
    assert(p->Object_0[0] == "dashboard"@);
    assert(p->Object_0[1] == "overwrite"@);
    assert(p->Object_0[2] == "message"@);
    assert(p->Object_0[0] != "overwrite"@) by {
        assert("dashboard"@[0] != "overwrite"@[0]);
    }
    assert(p->Object_0[0] != "message"@);
    assert(p->Object_0[1] != "message"@);
}

/// A document prepared for web import keeps its dashboard's fields but the
/// numeric id, which it clears.
pub proof fn law_preserved_document_clears_id(document: JsonValue, other: Seq<char>)
    requires
        preserved_document(document@) is Ok,
        other != "id"@,
    ensures
        field(preserved_document(document@)->Ok_0, "id"@) == Some(Json::Null),
        field(preserved_document(document@)->Ok_0, other) == field(dashboard_object_of(document@)->Some_0, other),
{
    let d0 = dashboard_object_of(document@)->Some_0;
    lemma_dashboard_paired(document);
    lemma_field_after_set(d0, "id"@, Json::Null);
    lemma_field_after_set_other(d0, "id"@, Json::Null, other);
}

/// A run that only updates existing dashboards never plans to create a
/// dashboard, whatever its UID: one Grafana lacks, or one without UID, is
/// skipped.
pub proof fn law_update_only_never_creates(uid: Seq<char>, exists: bool, replace_existing: bool)
    ensures
        import_action(uid, exists, replace_existing, true) != "would-create"@,
        (uid.len() == 0 || !exists) ==> import_action(uid, exists, replace_existing, true) == "would-skip-missing"@,
{
    reveal_strlit("would-create");
    reveal_strlit("would-skip-missing");
    reveal_strlit("would-update");
    assert("would-skip-missing"@ != "would-create"@) by {
        assert("would-skip-missing"@[6] != "would-create"@[6]);
    }
    assert("would-update"@ != "would-create"@) by {
        assert("would-update"@[6] != "would-create"@[6]);
    }
}

/// The folder-path guard only turns a planned update into a skip; every
/// other action passes it unchanged, and so does an update into a matching
/// folder.
pub proof fn law_folder_guard_only_skips_updates(action: Seq<char>, matches: bool)
    ensures
        guarded_action(action, matches) != action ==> action == "would-update"@ && !matches,
        matches ==> guarded_action(action, matches) == action,
{
}

/// Every row of a datasource summary is either active or orphaned.
pub proof fn law_summary_active_and_orphaned(rows: Seq<SummaryRowView>)
    ensures
        active_count(rows) + orphaned_count(rows) == rows.len(),
    decreases rows.len(),
{
    if rows.len() > 0 {
        let r0 = rows.drop_last();
        law_summary_active_and_orphaned(r0);
        assert(r0.push(rows.last()) =~= rows);
        r0.lemma_filter_push(rows.last(), |r: SummaryRowView| r.orphaned != "true"@);
        r0.lemma_filter_push(rows.last(), |r: SummaryRowView| r.orphaned == "true"@);
    }
}

/// Filtering the rows of a report a second time with the same filters
/// keeps them all.
pub proof fn law_report_filter_idempotent(rows: Seq<QueryRowView>, datasource: Option<Seq<char>>, panel_id: Option<Seq<char>>)
    ensures
        rows.filter(|x: QueryRowView| row_passes(x, datasource, panel_id)).filter(
            |x: QueryRowView| row_passes(x, datasource, panel_id),
        ) == rows.filter(|x: QueryRowView| row_passes(x, datasource, panel_id)),
    decreases rows.len(),
{
    let p = |x: QueryRowView| row_passes(x, datasource, panel_id);
    if rows.len() > 0 {
        let r0 = rows.drop_last();
        law_report_filter_idempotent(r0, datasource, panel_id);
        assert(r0.push(rows.last()) =~= rows);
        r0.lemma_filter_push(rows.last(), p);
        r0.filter(p).lemma_filter_push(rows.last(), p);
    }
}

} // verus!
verus! {

proof fn lemma_summary_lt_order(a: SummaryRowView, b: SummaryRowView, c: SummaryRowView)
    ensures
        !summary_lt(a, a),
        summary_lt(a, b) && summary_lt(b, c) ==> summary_lt(a, c),
        summary_lt(a, b) ==> !summary_lt(b, a),
{
    crate::text::lemma_lt_irreflexive(a.datasource);
    crate::text::lemma_lt_irreflexive(a.datasource_uid);
    if seq_lt(a.datasource, b.datasource) && seq_lt(b.datasource, c.datasource) {
        crate::text::lemma_lt_transitive(a.datasource, b.datasource, c.datasource);
    }
    if seq_lt(a.datasource_uid, b.datasource_uid) && seq_lt(b.datasource_uid, c.datasource_uid) {
        crate::text::lemma_lt_transitive(a.datasource_uid, b.datasource_uid, c.datasource_uid);
    }
    crate::text::lemma_lt_asymmetric(a.datasource, b.datasource);
    crate::text::lemma_lt_asymmetric(a.datasource_uid, b.datasource_uid);
}

/// No row sorts strictly before one that precedes it.
pub open spec fn summary_sorted(t: Seq<SummaryRowView>) -> bool {
    forall|i: int, j: int| 0 <= i < j < t.len() ==> !summary_lt(#[trigger] t[j], #[trigger] t[i])
}

proof fn lemma_summary_position(t: Seq<SummaryRowView>, x: SummaryRowView)
    ensures
        0 <= summary_position(t, x) <= t.len(),
        forall|i: int| 0 <= i < summary_position(t, x) ==> !summary_lt(x, #[trigger] t[i]),
        summary_position(t, x) < t.len() ==> summary_lt(x, t[summary_position(t, x)]),
    decreases t.len(),
{
    if t.len() > 0 && !summary_lt(x, t[0]) {
        lemma_summary_position(t.drop_first(), x);
        assert forall|i: int| 0 <= i < summary_position(t, x) implies !summary_lt(x, #[trigger] t[i]) by {
            if i > 0 {
                assert(t[i] == t.drop_first()[i - 1]);
            }
        }
    }
}

/// The datasource summary order is a stable sort: its rows come out in
/// increasing name and UID order.
pub proof fn law_summary_sort_sorted(s: Seq<SummaryRowView>)
    ensures
        summary_sorted(summary_sort(s)),
        summary_sort(s).len() == s.len(),
    decreases s.len(),
{
    if s.len() > 0 {
        let t = summary_sort(s.drop_last());
        let x = s.last();
        law_summary_sort_sorted(s.drop_last());
        lemma_summary_position(t, x);
        let p = summary_position(t, x);
        let u = t.insert(p, x);
        assert forall|i: int, j: int| 0 <= i < j < u.len() implies !summary_lt(#[trigger] u[j], #[trigger] u[i]) by {
            if j < p {
                assert(u[i] == t[i] && u[j] == t[j]);
            } else if j == p {
                assert(u[i] == t[i]);
                assert(u[j] == x);
            } else if i == p {
                assert(u[j] == t[j - 1]);
                assert(u[i] == x);
                lemma_summary_lt_order(t[j - 1], x, t[p]);
                lemma_summary_lt_order(t[p], t[p], t[p]);
                if j - 1 > p {
                    assert(!summary_lt(t[j - 1], t[p]));
                }
            } else if i < p {
                assert(u[i] == t[i] && u[j] == t[j - 1]);
            } else {
                assert(u[i] == t[i - 1] && u[j] == t[j - 1]);
            }
        }
    }
}

} // verus!
verus! {

proof fn lemma_simple_flags_twice(f: (bool, bool, bool, bool, bool), o: Option<crate::cli_command::SimpleOutputFormat>)
    ensures
        crate::cli_command::simple_flags(crate::cli_command::simple_flags(f, o), o) == crate::cli_command::simple_flags(f, o),
{
}

proof fn lemma_dry_run_flags_twice(t: bool, j: bool, o: Option<crate::cli_defs::DryRunOutputFormat>)
    ensures
        ({
            let f = crate::cli_defs::dry_run_flags(t, j, o);
            crate::cli_defs::dry_run_flags(f.0, f.1, o) == f
        }),
{
}

proof fn lemma_list_twice(a: crate::cli_command::ListArgs)
    ensures
        crate::cli_command::normalized_list(crate::cli_command::normalized_list(a)) == crate::cli_command::normalized_list(a),
{
    lemma_simple_flags_twice((a.text, a.table, a.csv, a.json, a.yaml), a.output_format);
}

proof fn lemma_import_twice(a: crate::cli_command::ImportArgs)
    ensures
        crate::cli_command::normalized_import(crate::cli_command::normalized_import(a)) == crate::cli_command::normalized_import(a),
{
    lemma_dry_run_flags_twice(a.table, a.json, a.output_format);
}

proof fn lemma_delete_twice(a: crate::cli_command::DeleteArgs)
    ensures
        crate::cli_command::normalized_delete(crate::cli_command::normalized_delete(a)) == crate::cli_command::normalized_delete(a),
{
    lemma_dry_run_flags_twice(a.table, a.json, a.output_format);
}

/// Normalising a dashboard command line twice gives what normalising it
/// once gives.
pub proof fn law_normalize_idempotent(c: crate::cli_command::DashboardCommand)
    ensures
        crate::cli_command::normalized(crate::cli_command::normalized(c)) == crate::cli_command::normalized(c),
{
    match c {
        crate::cli_command::DashboardCommand::List(a) => lemma_list_twice(a),
        crate::cli_command::DashboardCommand::Import(a) => lemma_import_twice(a),
        crate::cli_command::DashboardCommand::Delete(a) => lemma_delete_twice(a),
        _ => {},
    }
}

/// The policy that sets nothing: no allow-list, no switch, no limit.
pub open spec fn permissive_policy() -> PolicyView {
    PolicyView {
        allowed_families: Seq::empty(),
        allowed_uids: Seq::empty(),
        forbid_unknown: false,
        forbid_mixed_families: false,
        max_queries_per_dashboard: None,
        max_queries_per_panel: None,
        fail_on_warnings: false,
    }
}

proof fn lemma_permissive_rows_pass(qs: Seq<Json>)
    ensures
        all_query_findings(permissive_policy(), qs) == Seq::<FindingView>::empty(),
    decreases qs.len(),
{
    if qs.len() > 0 {
        lemma_permissive_rows_pass(qs.drop_last());
        assert(query_findings(permissive_policy(), qs.last()) =~= Seq::<FindingView>::empty());
        assert(all_query_findings(permissive_policy(), qs) =~= Seq::<FindingView>::empty());
    }
}

/// A policy document that sets nothing is read as the policy that checks
/// nothing, and under it the check passes on any pair of reports that have
/// the lists it reads, whatever warnings they carry.
pub proof fn law_empty_policy_passes(governance: Json, queries: Json)
    requires
        field(queries, "queries"@) matches Some(Json::Array(_)),
        field(governance, "riskRecords"@) matches Some(Json::Array(_)),
    ensures
        policy_of(empty_object()) == Ok::<PolicyView, Seq<char>>(permissive_policy()),
        gate_outcome(empty_object(), governance, queries) matches Ok(v) && v.ok && v.violations.len() == 0,
{
    let e = empty_object();
    assert(field(e, "version"@) is None);
    assert(section(e, "datasources"@) == empty_object());
    assert(section(e, "queries"@) == empty_object());
    assert(section(e, "enforcement"@) == empty_object());
    assert(policy_of(e) == Ok::<PolicyView, Seq<char>>(permissive_policy()));
    let qs = field(queries, "queries"@)->Some_0->Array_0;
    lemma_permissive_rows_pass(qs);
    assert(violations_of(permissive_policy(), qs, governance) == Ok::<Seq<FindingView>, Seq<char>>(
        Seq::<FindingView>::empty(),
    ));
}

/// Every finding of the list has the severity `sev`.
pub open spec fn all_of_severity(fs: Seq<FindingView>, sev: Seq<char>) -> bool {
    forall|i: int| 0 <= i < fs.len() ==> (#[trigger] fs[i]).severity == sev
}

proof fn lemma_severity_concat(a: Seq<FindingView>, b: Seq<FindingView>, sev: Seq<char>)
    requires
        all_of_severity(a, sev),
        all_of_severity(b, sev),
    ensures
        all_of_severity(a + b, sev),
{
    assert forall|i: int| 0 <= i < (a + b).len() implies (#[trigger] (a + b)[i]).severity == sev by {
        if i < a.len() {
            assert((a + b)[i] == a[i]);
        } else {
            assert((a + b)[i] == b[i - a.len()]);
        }
    }
}

proof fn lemma_row_findings_errors(pol: PolicyView, qs: Seq<Json>)
    ensures
        all_of_severity(all_query_findings(pol, qs), "error"@),
    decreases qs.len(),
{
    if qs.len() > 0 {
        lemma_row_findings_errors(pol, qs.drop_last());
        let q = qs.last();
        lemma_severity_concat(unknown_findings(pol, q), family_findings(pol, q), "error"@);
        lemma_severity_concat(unknown_findings(pol, q) + family_findings(pol, q), uid_findings(pol, q), "error"@);
        lemma_severity_concat(all_query_findings(pol, qs.drop_last()), query_findings(pol, q), "error"@);
    }
}

proof fn lemma_dashboard_limit_errors(keys: Seq<Seq<char>>, qs: Seq<Json>, limit: int)
    ensures
        all_of_severity(dashboard_limit_findings(keys, qs, limit), "error"@),
    decreases keys.len(),
{
    if keys.len() > 0 {
        lemma_dashboard_limit_errors(keys.drop_last(), qs, limit);
    }
}

proof fn lemma_panel_limit_in_errors(u: Seq<char>, pids: Seq<Seq<char>>, g: Seq<Json>, limit: int)
    ensures
        all_of_severity(panel_limit_findings_in(u, pids, g, limit), "error"@),
    decreases pids.len(),
{
    if pids.len() > 0 {
        lemma_panel_limit_in_errors(u, pids.drop_last(), g, limit);
    }
}

proof fn lemma_panel_limit_errors(keys: Seq<Seq<char>>, qs: Seq<Json>, limit: int)
    ensures
        all_of_severity(panel_limit_findings(keys, qs, limit), "error"@),
    decreases keys.len(),
{
    if keys.len() > 0 {
        lemma_panel_limit_errors(keys.drop_last(), qs, limit);
        let u = keys.last();
        let g = having(qs, "dashboardUid"@, u);
        let pids = listing(values_of(g, "panelId"@).to_set());
        lemma_panel_limit_in_errors(u, pids, g, limit);
        lemma_severity_concat(
            panel_limit_findings(keys.drop_last(), qs, limit),
            panel_limit_findings_in(u, pids, g, limit),
            "error"@,
        );
    }
}

proof fn lemma_mixed_errors(ds: Seq<Json>)
    ensures
        all_of_severity(mixed_findings(ds), "error"@),
    decreases ds.len(),
{
    if ds.len() > 0 {
        lemma_mixed_errors(ds.drop_last());
    }
}

/// Whatever the documents, every violation the check reports has severity
/// `error` and every warning has severity `warning`.
pub proof fn law_gate_severities(policy: Json, governance: Json, queries: Json)
    requires
        gate_outcome(policy, governance, queries) is Ok,
    ensures
        all_of_severity(gate_outcome(policy, governance, queries)->Ok_0.violations, "error"@),
        all_of_severity(gate_outcome(policy, governance, queries)->Ok_0.warnings, "warning"@),
{
    let pol = policy_of(policy)->Ok_0;
    let qs = field(queries, "queries"@)->Some_0->Array_0;
    let keys = dashboard_keys(qs);
    lemma_row_findings_errors(pol, qs);
    let dk = match pol.max_queries_per_dashboard {
        Some(l) => dashboard_limit_findings(keys, qs, l),
        None => Seq::empty(),
    };
    let pk = match pol.max_queries_per_panel {
        Some(l) => panel_limit_findings(keys, qs, l),
        None => Seq::empty(),
    };
    if let Some(l) = pol.max_queries_per_dashboard {
        lemma_dashboard_limit_errors(keys, qs, l);
    }
    if let Some(l) = pol.max_queries_per_panel {
        lemma_panel_limit_errors(keys, qs, l);
    }
    lemma_severity_concat(all_query_findings(pol, qs), dk, "error"@);
    lemma_severity_concat(all_query_findings(pol, qs) + dk, pk, "error"@);
    if pol.forbid_mixed_families {
        let ds = field(governance, "dashboardGovernance"@)->Some_0->Array_0;
        lemma_mixed_errors(ds);
        lemma_severity_concat(all_query_findings(pol, qs) + dk + pk, mixed_findings(ds), "error"@);
    }
}

/// Restoring a version overwrites the live dashboard in place: the request
/// carries the version's dashboard under the live dashboard's id, the
/// restored UID and the live version number, with overwrite set.
pub proof fn law_restore_keeps_live_identity(
    current: Json,
    data: Json,
    uid: Seq<char>,
    message: Seq<char>,
    default_title: Seq<char>,
)
    requires
        data is Object,
        data->Object_0.len() == data->Object_1.len(),
        restore_payload(current, data, uid, message, default_title) is Ok,
    ensures
        ({
            let p = restore_payload(current, data, uid, message, default_title)->Ok_0;
            let dash = object_field(current, "dashboard"@)->Some_0;
            let d = field(p, "dashboard"@)->Some_0;
            &&& field(p, "overwrite"@) == Some(Json::Bool(true))
            &&& field(d, "id"@) == Some(Json::Number(signed_decimal(json_i64(field(dash, "id"@)->Some_0)->Some_0)))
            &&& field(d, "uid"@) == Some(Json::Str(uid))
            &&& field(d, "version"@) == Some(
                Json::Number(signed_decimal(json_i64(field(dash, "version"@)->Some_0)->Some_0)),
            )
        }),
{
    reveal_strlit("id");
    reveal_strlit("uid");
    reveal_strlit("version");
    reveal_strlit("title");
    assert("id"@.len() != "uid"@.len());
    assert("id"@.len() != "version"@.len());
    let dash = object_field(current, "dashboard"@)->Some_0;
    let id = json_i64(field(dash, "id"@)->Some_0)->Some_0;
    let version = json_i64(field(dash, "version"@)->Some_0)->Some_0;
    let d1 = with_field(data, "id"@, Json::Number(signed_decimal(id)));
    lemma_field_after_set(data, "id"@, Json::Number(signed_decimal(id)));
    lemma_with_field_paired(data, "id"@, Json::Number(signed_decimal(id)));
    let d2 = with_field(d1, "uid"@, Json::Str(uid));
    lemma_field_after_set(d1, "uid"@, Json::Str(uid));
    lemma_field_after_set_other(d1, "uid"@, Json::Str(uid), "id"@);
    lemma_with_field_paired(d1, "uid"@, Json::Str(uid));
    let d3 = with_field(d2, "version"@, Json::Number(signed_decimal(version)));
    lemma_field_after_set(d2, "version"@, Json::Number(signed_decimal(version)));
    lemma_field_after_set_other(d2, "version"@, Json::Number(signed_decimal(version)), "id"@);
    lemma_field_after_set_other(d2, "version"@, Json::Number(signed_decimal(version)), "uid"@);
    lemma_with_field_paired(d2, "version"@, Json::Number(signed_decimal(version)));
    if field(d3, "title"@) is None {
        let t = Json::Str(default_title);
        lemma_field_after_set_other(d3, "title"@, t, "id"@);
        lemma_field_after_set_other(d3, "title"@, t, "uid"@);
        lemma_field_after_set_other(d3, "title"@, t, "version"@);
    }
    let p = restore_payload(current, data, uid, message, default_title)->Ok_0;
    reveal_strlit("dashboard");
    reveal_strlit("overwrite");
    assert("dashboard"@[0] != "overwrite"@[0]);
    assert(p->Object_0[0] == "dashboard"@);
    assert(p->Object_0[1] == "overwrite"@);
    assert(p->Object_0.drop_first()[0] == "overwrite"@);
    assert(crate::json::key_pos(p->Object_0.drop_first(), "overwrite"@) == 0);
    assert(crate::json::key_pos(p->Object_0, "dashboard"@) == 0);
    assert(crate::json::key_pos(p->Object_0, "overwrite"@) == 1);
}

/// Setting a key of an object whose keys and values pair up keeps them
/// paired.
proof fn lemma_with_field_paired(j: Json, key: Seq<char>, value: Json)
    requires
        j is Object,
        j->Object_0.len() == j->Object_1.len(),
    ensures
        with_field(j, key, value) is Object,
        with_field(j, key, value)->Object_0.len() == with_field(j, key, value)->Object_1.len(),
{
    lemma_key_pos(j->Object_0, key);
}

} // verus!
