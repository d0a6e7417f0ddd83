//! The dashboard governance check: a small policy checked against the
//! query report and the governance report of an inspection, giving the
//! violations that fail the check and the warnings that accompany it.
use vstd::prelude::*;

use crate::json::{field, get_field, string_field, string_field_of, Json, JsonValue};
use crate::json_text::{as_i64, as_u64, json_i64, json_text, json_to_text, json_u64};
use crate::strset::{collect_unique_strings, lists, nonblank, views};
use crate::text::{concat3, decimal, join, owned, trim, trim_str};

verus! {

/// The thresholds and allow-lists of a governance policy.
#[derive(Debug)]
pub struct QueryThresholdPolicy {
    pub allowed_families: Vec<String>,
    pub allowed_uids: Vec<String>,
    pub forbid_unknown: bool,
    pub forbid_mixed_families: bool,
    pub max_queries_per_dashboard: Option<usize>,
    pub max_queries_per_panel: Option<usize>,
    pub fail_on_warnings: bool,
}

/// The policy as values: the allow-lists in increasing order.
pub ghost struct PolicyView {
    pub allowed_families: Seq<Seq<char>>,
    pub allowed_uids: Seq<Seq<char>>,
    pub forbid_unknown: bool,
    pub forbid_mixed_families: bool,
    pub max_queries_per_dashboard: Option<int>,
    pub max_queries_per_panel: Option<int>,
    pub fail_on_warnings: bool,
}

pub open spec fn opt_int(o: Option<usize>) -> Option<int> {
    match o {
        Some(n) => Some(n as int),
        None => None,
    }
}

impl View for QueryThresholdPolicy {
    type V = PolicyView;

    open spec fn view(&self) -> PolicyView {
        PolicyView {
            allowed_families: views(self.allowed_families@),
            allowed_uids: views(self.allowed_uids@),
            forbid_unknown: self.forbid_unknown,
            forbid_mixed_families: self.forbid_mixed_families,
            max_queries_per_dashboard: opt_int(self.max_queries_per_dashboard),
            max_queries_per_panel: opt_int(self.max_queries_per_panel),
            fail_on_warnings: self.fail_on_warnings,
        }
    }
}

/// The empty object, which stands for a section a policy leaves out.
pub open spec fn empty_object() -> Json {
    Json::Object(Seq::empty(), Seq::empty())
}

/// A section of the policy: the object under `key`, or an empty one.
pub open spec fn section(p: Json, key: Seq<char>) -> Json {
    match field(p, key) {
        Some(Json::Object(ks, vs)) => Json::Object(ks, vs),
        _ => empty_object(),
    }
}

/// A count setting: absent or null is no limit; a non-negative integer is
/// the limit; anything else is refused.
pub open spec fn usize_setting(v: Option<Json>) -> Result<Option<int>, Seq<char>> {
    match v {
        None => Ok(None),
        Some(Json::Null) => Ok(None),
        Some(Json::Number(t)) => match json_u64(Json::Number(t)) {
            Some(n) => Ok(Some(((n as u64) as usize) as int)),
            None => Err("Expected a non-negative integer in governance policy."@),
        },
        Some(other) => Err("Expected a non-negative integer in governance policy, got "@ + json_text(other) + "."@),
    }
}

/// A switch: absent or null is `default`; a boolean is itself; anything
/// else is refused.
pub open spec fn bool_setting(v: Option<Json>, default: bool) -> Result<bool, Seq<char>> {
    match v {
        None => Ok(default),
        Some(Json::Null) => Ok(default),
        Some(Json::Bool(b)) => Ok(b),
        Some(other) => Err("Expected a boolean in governance policy, got "@ + json_text(other) + "."@),
    }
}

/// The strings among `items`, in order; other items are passed over.
pub open spec fn str_items(items: Seq<Json>) -> Seq<Seq<char>>
    decreases items.len(),
{
    if items.len() == 0 {
        Seq::empty()
    } else {
        let before = str_items(items.drop_last());
        match items.last() {
            Json::Str(s) => before.push(s),
            _ => before,
        }
    }
}

/// The strings among `items`, trimmed.
pub open spec fn trimmed_strs(items: Seq<Json>) -> Seq<Seq<char>> {
    str_items(items).map_values(|s: Seq<char>| trim(s))
}

/// The members of a finite set of strings in increasing order.
pub open spec fn listing(set: Set<Seq<char>>) -> Seq<Seq<char>> {
    choose|l: Seq<Seq<char>>| lists(l, set)
}

/// An allow-list setting: absent or null is empty; an array gives its
/// trimmed strings that are not blank, each once, in increasing order;
/// anything else is refused.
pub open spec fn string_set_setting(v: Option<Json>) -> Result<Seq<Seq<char>>, Seq<char>> {
    match v {
        None => Ok(Seq::empty()),
        Some(Json::Null) => Ok(Seq::empty()),
        Some(Json::Array(items)) => Ok(listing(nonblank(trimmed_strs(items)).to_set())),
        Some(other) => Err("Expected an array of strings in governance policy, got "@ + json_text(other) + "."@),
    }
}

/// Whether the policy's version, where it gives one, is the integer 1.
pub open spec fn version_supported(p: Json) -> bool {
    match field(p, "version"@) {
        None => true,
        Some(Json::Number(t)) => json_i64(Json::Number(t)) == Some(1int),
        Some(_) => false,
    }
}

/// The policy that a policy document gives, or the first thing wrong with
/// it: that it is no object, its version, then each setting in turn.
pub open spec fn policy_of(p: Json) -> Result<PolicyView, Seq<char>> {
    if !(p is Object) {
        Err("Governance policy JSON must be an object."@)
    } else if !version_supported(p) {
        Err("Governance policy version is not supported. Expected version 1."@)
    } else {
        let q = section(p, "queries"@);
        let d = section(p, "datasources"@);
        let e = section(p, "enforcement"@);
        match string_set_setting(field(d, "allowedFamilies"@)) {
            Err(m) => Err(m),
            Ok(families) => match string_set_setting(field(d, "allowedUids"@)) {
                Err(m) => Err(m),
                Ok(uids) => match bool_setting(field(d, "forbidUnknown"@), false) {
                    Err(m) => Err(m),
                    Ok(forbid_unknown) => match bool_setting(field(d, "forbidMixedFamilies"@), false) {
                        Err(m) => Err(m),
                        Ok(forbid_mixed) => match usize_setting(field(q, "maxQueriesPerDashboard"@)) {
                            Err(m) => Err(m),
                            Ok(max_dashboard) => match usize_setting(field(q, "maxQueriesPerPanel"@)) {
                                Err(m) => Err(m),
                                Ok(max_panel) => match bool_setting(field(e, "failOnWarnings"@), false) {
                                    Err(m) => Err(m),
                                    Ok(fail) => Ok(
                                        PolicyView {
                                            allowed_families: families,
                                            allowed_uids: uids,
                                            forbid_unknown,
                                            forbid_mixed_families: forbid_mixed,
                                            max_queries_per_dashboard: max_dashboard,
                                            max_queries_per_panel: max_panel,
                                            fail_on_warnings: fail,
                                        },
                                    ),
                                },
                            },
                        },
                    },
                },
            },
        }
    }
}

fn opt_field<'a>(v: Option<&'a JsonValue>, key: &str) -> (r: Option<&'a JsonValue>)
    ensures
        match v {
            Some(x) => match r {
                Some(y) => field(x@, key@) == Some(y@),
                None => field(x@, key@) is None,
            },
            None => r is None,
        },
{
    match v {
        Some(x) => get_field(x, key),
        None => None,
    }
}

/// Reads a count setting.
pub fn value_to_usize(value: Option<&JsonValue>) -> (r: Result<Option<usize>, String>)
    ensures
        match r {
            Ok(o) => usize_setting(opt_view(value)) == Ok::<Option<int>, Seq<char>>(opt_int(o)),
            Err(e) => usize_setting(opt_view(value)) == Err::<Option<int>, Seq<char>>(e@),
        },
{
    match value {
        None => Ok(None),
        Some(JsonValue::Null) => Ok(None),
        Some(JsonValue::Number(_)) => match as_u64(value.unwrap()) {
            Some(n) => Ok(Some(n as usize)),
            None => Err(owned("Expected a non-negative integer in governance policy.")),
        },
        Some(other) => {
            let t = json_to_text(other);
            Err(concat3("Expected a non-negative integer in governance policy, got ", t.as_str(), "."))
        },
    }
}

/// The view of an optional value.
pub open spec fn opt_view(v: Option<&JsonValue>) -> Option<Json> {
    match v {
        Some(x) => Some(x@),
        None => None,
    }
}

/// Reads a switch.
pub fn value_to_bool(value: Option<&JsonValue>, default: bool) -> (r: Result<bool, String>)
    ensures
        match r {
            Ok(b) => bool_setting(opt_view(value), default) == Ok::<bool, Seq<char>>(b),
            Err(e) => bool_setting(opt_view(value), default) == Err::<bool, Seq<char>>(e@),
        },
{
    match value {
        None => Ok(default),
        Some(JsonValue::Null) => Ok(default),
        Some(JsonValue::Bool(b)) => Ok(*b),
        Some(other) => {
            let t = json_to_text(other);
            Err(concat3("Expected a boolean in governance policy, got ", t.as_str(), "."))
        },
    }
}

/// The trimmed strings among the items.
fn trimmed_str_items(items: &Vec<JsonValue>, Ghost(js): Ghost<Seq<Json>>) -> (out: Vec<String>)
    requires
        js.len() == items@.len(),
        forall|k: int| 0 <= k < js.len() ==> js[k] == (#[trigger] items@[k])@,
    ensures
        views(out@) == trimmed_strs(js),
{
    let mut out: Vec<String> = Vec::new();
    let mut i: usize = 0;
    while i < items.len()
        invariant
            i <= items@.len(),
            js.len() == items@.len(),
            forall|k: int| 0 <= k < js.len() ==> js[k] == (#[trigger] items@[k])@,
            views(out@) == trimmed_strs(js.take(i as int)),
        decreases items.len() - i,
    {
        assert(js.take(i + 1).drop_last() == js.take(i as int));
        assert(js.take(i + 1).last() == items@[i as int]@);
        match &items[i] {
            JsonValue::Str(s) => {
                let ghost before = views(out@);
                out.push(trim_str(s.as_str()));
                assert(str_items(js.take(i + 1)) == str_items(js.take(i as int)).push(s@));
                assert(views(out@) =~= before.push(trim(s@)));
                assert(views(out@) =~= trimmed_strs(js.take(i + 1)));
            },
            _ => {},
        }
        i = i + 1;
    }
    assert(js.take(items@.len() as int) == js);
    out
}

/// Reads an allow-list setting.
pub fn value_to_string_set(value: Option<&JsonValue>) -> (r: Result<Vec<String>, String>)
    ensures
        match r {
            Ok(l) => string_set_setting(opt_view(value)) == Ok::<Seq<Seq<char>>, Seq<char>>(views(l@))
                && crate::strset::sorted_strict(views(l@)),
            Err(e) => string_set_setting(opt_view(value)) == Err::<Seq<Seq<char>>, Seq<char>>(e@),
        },
{
    match value {
        None => {
            let l: Vec<String> = Vec::new();
            assert(views(l@) =~= Seq::<Seq<char>>::empty());
            Ok(l)
        },
        Some(JsonValue::Null) => {
            let l: Vec<String> = Vec::new();
            assert(views(l@) =~= Seq::<Seq<char>>::empty());
            Ok(l)
        },
        Some(JsonValue::Array(items)) => {
            let ghost js = value.unwrap()@->Array_0;
            let t = trimmed_str_items(items, Ghost(js));
            let l = collect_unique_strings(t.as_slice());
            proof {
                let set = nonblank(trimmed_strs(js)).to_set();
                let c = listing(set);
                assert(lists(views(l@), set));
                assert(exists|m: Seq<Seq<char>>| lists(m, set));
                crate::strset::lemma_listing_unique(c, views(l@));
            }
            Ok(l)
        },
        Some(other) => {
            let t = json_to_text(other);
            Err(concat3("Expected an array of strings in governance policy, got ", t.as_str(), "."))
        },
    }
}

/// The value under `key` in the section `sec` of a policy.
fn section_field<'a>(p: &'a JsonValue, sec: &str, key: &str) -> (r: Option<&'a JsonValue>)
    ensures
        match r {
            Some(y) => field(section(p@, sec@), key@) == Some(y@),
            None => field(section(p@, sec@), key@) is None,
        },
{
    match get_field(p, sec) {
        Some(s) => match s {
            JsonValue::Object { .. } => get_field(s, key),
            _ => None,
        },
        None => None,
    }
}

/// Reads a governance policy: the allow-lists and switches under
/// `datasources`, the limits under `queries`, and `failOnWarnings` under
/// `enforcement`.
pub fn parse_query_threshold_policy(policy: &JsonValue) -> (r: Result<QueryThresholdPolicy, String>)
    ensures
        match r {
            Ok(p) => policy_of(policy@) == Ok::<PolicyView, Seq<char>>(p@),
            Err(e) => policy_of(policy@) == Err::<PolicyView, Seq<char>>(e@),
        },
{
    match policy {
        JsonValue::Object { .. } => {},
        _ => {
            return Err(owned("Governance policy JSON must be an object."));
        },
    }
    match get_field(policy, "version") {
        None => {},
        Some(v) => {
            let supported = match v {
                JsonValue::Number(_) => match as_i64(v) {
                    Some(n) => n == 1,
                    None => false,
                },
                _ => false,
            };
            if !supported {
                return Err(owned("Governance policy version is not supported. Expected version 1."));
            }
        },
    }
    let allowed_families = match value_to_string_set(section_field(policy, "datasources", "allowedFamilies")) {
        Ok(l) => l,
        Err(e) => {
            return Err(e);
        },
    };
    let allowed_uids = match value_to_string_set(section_field(policy, "datasources", "allowedUids")) {
        Ok(l) => l,
        Err(e) => {
            return Err(e);
        },
    };
    let forbid_unknown = match value_to_bool(section_field(policy, "datasources", "forbidUnknown"), false) {
        Ok(b) => b,
        Err(e) => {
            return Err(e);
        },
    };
    let forbid_mixed_families = match value_to_bool(
        section_field(policy, "datasources", "forbidMixedFamilies"),
        false,
    ) {
        Ok(b) => b,
        Err(e) => {
            return Err(e);
        },
    };
    let max_queries_per_dashboard = match value_to_usize(
        section_field(policy, "queries", "maxQueriesPerDashboard"),
    ) {
        Ok(o) => o,
        Err(e) => {
            return Err(e);
        },
    };
    let max_queries_per_panel = match value_to_usize(section_field(policy, "queries", "maxQueriesPerPanel")) {
        Ok(o) => o,
        Err(e) => {
            return Err(e);
        },
    };
    let fail_on_warnings = match value_to_bool(section_field(policy, "enforcement", "failOnWarnings"), false) {
        Ok(b) => b,
        Err(e) => {
            return Err(e);
        },
    };
    Ok(
        QueryThresholdPolicy {
            allowed_families,
            allowed_uids,
            forbid_unknown,
            forbid_mixed_families,
            max_queries_per_dashboard,
            max_queries_per_panel,
            fail_on_warnings,
        },
    )
}

/// One finding of the check: a violation (severity `error`) or a warning.
#[derive(Debug)]
pub struct DashboardGovernanceGateFinding {
    pub severity: String,
    pub code: String,
    pub message: String,
    pub dashboard_uid: String,
    pub dashboard_title: String,
    pub panel_id: String,
    pub panel_title: String,
    pub ref_id: String,
    pub datasource: String,
    pub datasource_uid: String,
    pub datasource_family: String,
    pub risk_kind: String,
}

#[verifier::ext_equal]
pub ghost struct FindingView {
    pub severity: Seq<char>,
    pub code: Seq<char>,
    pub message: Seq<char>,
    pub dashboard_uid: Seq<char>,
    pub dashboard_title: Seq<char>,
    pub panel_id: Seq<char>,
    pub panel_title: Seq<char>,
    pub ref_id: Seq<char>,
    pub datasource: Seq<char>,
    pub datasource_uid: Seq<char>,
    pub datasource_family: Seq<char>,
    pub risk_kind: Seq<char>,
}

impl View for DashboardGovernanceGateFinding {
    type V = FindingView;

    open spec fn view(&self) -> FindingView {
        FindingView {
            severity: self.severity@,
            code: self.code@,
            message: self.message@,
            dashboard_uid: self.dashboard_uid@,
            dashboard_title: self.dashboard_title@,
            panel_id: self.panel_id@,
            panel_title: self.panel_title@,
            ref_id: self.ref_id@,
            datasource: self.datasource@,
            datasource_uid: self.datasource_uid@,
            datasource_family: self.datasource_family@,
            risk_kind: self.risk_kind@,
        }
    }
}

pub open spec fn finding_views(v: Seq<DashboardGovernanceGateFinding>) -> Seq<FindingView> {
    v.map_values(|f: DashboardGovernanceGateFinding| f@)
}

/// A text field of a report record, trimmed, or empty.
pub open spec fn sf(j: Json, key: Seq<char>) -> Seq<char> {
    string_field_of(j, key, Seq::empty())
}

/// A violation about one query row, which names the row.
pub open spec fn query_finding(code: Seq<char>, message: Seq<char>, q: Json) -> FindingView {
    FindingView {
        severity: "error"@,
        code,
        message,
        dashboard_uid: sf(q, "dashboardUid"@),
        dashboard_title: sf(q, "dashboardTitle"@),
        panel_id: sf(q, "panelId"@),
        panel_title: sf(q, "panelTitle"@),
        ref_id: sf(q, "refId"@),
        datasource: sf(q, "datasource"@),
        datasource_uid: sf(q, "datasourceUid"@),
        datasource_family: sf(q, "datasourceFamily"@),
        risk_kind: Seq::empty(),
    }
}

/// A violation about one dashboard, which names the dashboard.
pub open spec fn dashboard_finding(code: Seq<char>, message: Seq<char>, d: Json) -> FindingView {
    FindingView {
        severity: "error"@,
        code,
        message,
        dashboard_uid: sf(d, "dashboardUid"@),
        dashboard_title: sf(d, "dashboardTitle"@),
        panel_id: Seq::empty(),
        panel_title: Seq::empty(),
        ref_id: Seq::empty(),
        datasource: Seq::empty(),
        datasource_uid: Seq::empty(),
        datasource_family: Seq::empty(),
        risk_kind: Seq::empty(),
    }
}

/// A family that reads `unknown` in any ASCII case.
pub open spec fn is_unknown_family(f: Seq<char>) -> bool {
    crate::text::ascii_lower(f) == "unknown"@
}

/// The violations of one query row, in the order the check runs them:
/// an unresolved datasource (where unknown ones are forbidden), a family
/// off the allow-list, a datasource UID off the allow-list.
pub open spec fn query_findings(pol: PolicyView, q: Json) -> Seq<FindingView> {
    unknown_findings(pol, q) + family_findings(pol, q) + uid_findings(pol, q)
}

/// The violation of a row whose datasource is unresolved: no family, the
/// family `unknown`, or no datasource name.
pub open spec fn unknown_findings(pol: PolicyView, q: Json) -> Seq<FindingView> {
    let family = sf(q, "datasourceFamily"@);
    if pol.forbid_unknown && (family.len() == 0 || is_unknown_family(family) || sf(q, "datasource"@).len() == 0) {
        seq![query_finding("datasource-unknown"@, "Datasource identity could not be resolved for this query row."@, q)]
    } else {
        Seq::empty()
    }
}

/// The violation of a row whose family is off a non-empty allow-list.
pub open spec fn family_findings(pol: PolicyView, q: Json) -> Seq<FindingView> {
    let family = sf(q, "datasourceFamily"@);
    if pol.allowed_families.len() > 0 && !pol.allowed_families.contains(family) {
        seq![
            query_finding(
                "datasource-family-not-allowed"@,
                "Datasource family "@ + (if family.len() == 0 {
                    "unknown"@
                } else {
                    family
                }) + " is not allowed by policy."@,
                q,
            ),
        ]
    } else {
        Seq::empty()
    }
}

/// The violation of a row whose datasource UID is off a non-empty
/// allow-list; a row without a UID passes.
pub open spec fn uid_findings(pol: PolicyView, q: Json) -> Seq<FindingView> {
    let uid = sf(q, "datasourceUid"@);
    if pol.allowed_uids.len() > 0 && uid.len() > 0 && !pol.allowed_uids.contains(uid) {
        seq![query_finding("datasource-uid-not-allowed"@, "Datasource uid "@ + uid + " is not allowed by policy."@, q)]
    } else {
        Seq::empty()
    }
}

/// The violations of the query rows, row by row.
pub open spec fn all_query_findings(pol: PolicyView, qs: Seq<Json>) -> Seq<FindingView>
    decreases qs.len(),
{
    if qs.len() == 0 {
        Seq::empty()
    } else {
        all_query_findings(pol, qs.drop_last()) + query_findings(pol, qs.last())
    }
}

fn empty_string() -> (s: String)
    ensures
        s@ == Seq::<char>::empty(),
{
    String::new()
}

fn build_query_violation(code: &str, message_text: String, query: &JsonValue) -> (f: DashboardGovernanceGateFinding)
    ensures
        f@ == query_finding(code@, message_text@, query@),
{
    proof {
        reveal_strlit("");
    }
    let f = DashboardGovernanceGateFinding {
        severity: owned("error"),
        code: owned(code),
        message: message_text,
        dashboard_uid: string_field(query, "dashboardUid", ""),
        dashboard_title: string_field(query, "dashboardTitle", ""),
        panel_id: string_field(query, "panelId", ""),
        panel_title: string_field(query, "panelTitle", ""),
        ref_id: string_field(query, "refId", ""),
        datasource: string_field(query, "datasource", ""),
        datasource_uid: string_field(query, "datasourceUid", ""),
        datasource_family: string_field(query, "datasourceFamily", ""),
        risk_kind: empty_string(),
    };
    assert(f@ =~= query_finding(code@, message_text@, query@));
    f
}

fn build_dashboard_violation(code: &str, message_text: String, dashboard: &JsonValue) -> (f: DashboardGovernanceGateFinding)
    ensures
        f@ == dashboard_finding(code@, message_text@, dashboard@),
{
    proof {
        reveal_strlit("");
    }
    let f = DashboardGovernanceGateFinding {
        severity: owned("error"),
        code: owned(code),
        message: message_text,
        dashboard_uid: string_field(dashboard, "dashboardUid", ""),
        dashboard_title: string_field(dashboard, "dashboardTitle", ""),
        panel_id: empty_string(),
        panel_title: empty_string(),
        ref_id: empty_string(),
        datasource: empty_string(),
        datasource_uid: empty_string(),
        datasource_family: empty_string(),
        risk_kind: empty_string(),
    };
    assert(f@ =~= dashboard_finding(code@, message_text@, dashboard@));
    f
}

fn is_unknown_family_str(f: &str) -> (r: bool)
    ensures
        r == is_unknown_family(f@),
{
    let cs = crate::text::chars_of(f);
    let l = crate::text::ascii_lower_chars(cs.as_slice());
    let u = crate::text::chars_of("unknown");
    crate::text::seq_eq(l.as_slice(), u.as_slice())
}

fn list_has(v: &Vec<String>, x: &String) -> (r: bool)
    ensures
        r == views(v@).contains(x@),
{
    crate::report::contains_string_in(v, x)
}

/// Appends the violations of one query row.
fn push_query_findings(out: &mut Vec<DashboardGovernanceGateFinding>, pol: &QueryThresholdPolicy, q: &JsonValue)
    ensures
        finding_views(final(out)@) == finding_views(old(out)@) + query_findings(pol@, q@),
{
    let ghost before = finding_views(out@);
    proof {
        reveal_strlit("");
    }
    let family = string_field(q, "datasourceFamily", "");
    let ds = string_field(q, "datasource", "");
    let uid = string_field(q, "datasourceUid", "");
    let mut found: Vec<DashboardGovernanceGateFinding> = Vec::new();
    if pol.forbid_unknown && (family.as_str().unicode_len() == 0 || is_unknown_family_str(family.as_str()) || ds.as_str().unicode_len() == 0) {
        found.push(
            build_query_violation(
                "datasource-unknown",
                owned("Datasource identity could not be resolved for this query row."),
                q,
            ),
        );
    }
    assert(finding_views(found@) =~= unknown_findings(pol@, q@));
    let off_family = pol.allowed_families.len() > 0 && !list_has(&pol.allowed_families, &family);
    assert(off_family == (pol@.allowed_families.len() > 0 && !pol@.allowed_families.contains(family@)));
    assert(family@ == sf(q@, "datasourceFamily"@));
    assert(!off_family ==> family_findings(pol@, q@) =~= Seq::<FindingView>::empty());
    if off_family {
        let shown = if family.as_str().unicode_len() == 0 {
            owned("unknown")
        } else {
            family.clone()
        };
        assert(shown@ == (if family@.len() == 0 {
            "unknown"@
        } else {
            family@
        }));
        assert(views(pol.allowed_families@).len() > 0);
        assert(!pol@.allowed_families.contains(family@));
        let ghost before_family = finding_views(found@);
        let msg = concat3("Datasource family ", shown.as_str(), " is not allowed by policy.");
        let f = build_query_violation("datasource-family-not-allowed", msg, q);
        assert(f@ == query_finding("datasource-family-not-allowed"@, msg@, q@));
        assert(family@ == sf(q@, "datasourceFamily"@));
        assert(msg@ == "Datasource family "@ + (if family@.len() == 0 {
            "unknown"@
        } else {
            family@
        }) + " is not allowed by policy."@);
        assert(family_findings(pol@, q@) == seq![f@]);
        found.push(f);
        assert(finding_views(found@) =~= before_family.push(f@));
    }
    assert(finding_views(found@) =~= unknown_findings(pol@, q@) + family_findings(pol@, q@));
    let ghost after_family = finding_views(found@);
    let off_uid = pol.allowed_uids.len() > 0 && uid.as_str().unicode_len() > 0 && !list_has(&pol.allowed_uids, &uid);
    assert(off_uid == (pol@.allowed_uids.len() > 0 && uid@.len() > 0 && !pol@.allowed_uids.contains(uid@)));
    if off_uid {
        let msg = concat3("Datasource uid ", uid.as_str(), " is not allowed by policy.");
        let f = build_query_violation("datasource-uid-not-allowed", msg, q);
        assert(f@ == query_finding("datasource-uid-not-allowed"@, msg@, q@));
        assert(uid@ == sf(q@, "datasourceUid"@));
        assert(views(pol.allowed_uids@).len() > 0);
        assert(uid_findings(pol@, q@) == seq![f@]);
        found.push(f);
        assert(finding_views(found@) =~= after_family.push(f@));
    }
    assert(finding_views(found@) =~= query_findings(pol@, q@));
    let ghost fv = finding_views(found@);
    out.append(&mut found);
    assert(finding_views(out@) =~= before + fv);
}

/// The views of a list of JSON values.
pub open spec fn jviews(v: Seq<JsonValue>) -> Seq<Json> {
    v.map_values(|x: JsonValue| x@)
}

/// The text field `key` of each record.
pub open spec fn values_of(js: Seq<Json>, key: Seq<char>) -> Seq<Seq<char>> {
    js.map_values(|q: Json| sf(q, key))
}

/// The records whose text field `key` is `value`, in order.
pub open spec fn having(js: Seq<Json>, key: Seq<char>, value: Seq<char>) -> Seq<Json> {
    js.filter(|q: Json| sf(q, key) == value)
}

/// A violation with only the fields given set, the rest empty.
pub open spec fn limit_finding(
    code: Seq<char>,
    message: Seq<char>,
    dashboard_uid: Seq<char>,
    dashboard_title: Seq<char>,
    panel_id: Seq<char>,
    panel_title: Seq<char>,
) -> FindingView {
    FindingView {
        severity: "error"@,
        code,
        message,
        dashboard_uid,
        dashboard_title,
        panel_id,
        panel_title,
        ref_id: Seq::empty(),
        datasource: Seq::empty(),
        datasource_uid: Seq::empty(),
        datasource_family: Seq::empty(),
        risk_kind: Seq::empty(),
    }
}

/// The violations of the dashboards, taken in the order of `keys`, whose
/// number of query rows exceeds `limit`; each is named by its UID and by
/// the title of its first row.
pub open spec fn dashboard_limit_findings(keys: Seq<Seq<char>>, qs: Seq<Json>, limit: int) -> Seq<FindingView>
    decreases keys.len(),
{
    if keys.len() == 0 {
        Seq::empty()
    } else {
        let before = dashboard_limit_findings(keys.drop_last(), qs, limit);
        let u = keys.last();
        let g = having(qs, "dashboardUid"@, u);
        if g.len() > limit {
            before.push(
                limit_finding(
                    "max-queries-per-dashboard"@,
                    "Dashboard query count "@ + decimal(g.len()) + " exceeds policy maxQueriesPerDashboard="@
                        + decimal(limit as nat) + "."@,
                    u,
                    sf(g[0], "dashboardTitle"@),
                    Seq::empty(),
                    Seq::empty(),
                ),
            )
        } else {
            before
        }
    }
}

/// The violations of the panels of dashboard `u`, taken in the order of
/// `pids`, among its rows `g`.
pub open spec fn panel_limit_findings_in(u: Seq<char>, pids: Seq<Seq<char>>, g: Seq<Json>, limit: int) -> Seq<FindingView>
    decreases pids.len(),
{
    if pids.len() == 0 {
        Seq::empty()
    } else {
        let before = panel_limit_findings_in(u, pids.drop_last(), g, limit);
        let p = pids.last();
        let h = having(g, "panelId"@, p);
        if h.len() > limit {
            before.push(
                limit_finding(
                    "max-queries-per-panel"@,
                    "Panel query count "@ + decimal(h.len()) + " exceeds policy maxQueriesPerPanel="@ + decimal(
                        limit as nat,
                    ) + "."@,
                    u,
                    sf(h[0], "dashboardTitle"@),
                    p,
                    sf(h[0], "panelTitle"@),
                ),
            )
        } else {
            before
        }
    }
}

/// The violations of the panels whose number of query rows exceeds
/// `limit`, by dashboard UID in the order of `keys`, then by panel id in
/// increasing order: the order of the pairs (UID, panel id).
pub open spec fn panel_limit_findings(keys: Seq<Seq<char>>, qs: Seq<Json>, limit: int) -> Seq<FindingView>
    decreases keys.len(),
{
    if keys.len() == 0 {
        Seq::empty()
    } else {
        let u = keys.last();
        let g = having(qs, "dashboardUid"@, u);
        panel_limit_findings(keys.drop_last(), qs, limit) + panel_limit_findings_in(
            u,
            listing(values_of(g, "panelId"@).to_set()),
            g,
            limit,
        )
    }
}

proof fn lemma_having_push(js: Seq<Json>, x: Json, key: Seq<char>, value: Seq<char>)
    ensures
        having(js.push(x), key, value) == (if sf(x, key) == value {
            having(js, key, value).push(x)
        } else {
            having(js, key, value)
        }),
{
    js.lemma_filter_push(x, |q: Json| sf(q, key) == value);
}

/// Copies of the records whose text field `key` is `value`, in order.
fn select_having(items: &Vec<JsonValue>, key: &str, value: &str) -> (out: Vec<JsonValue>)
    ensures
        jviews(out@) == having(jviews(items@), key@, value@),
{
    proof {
        reveal_strlit("");
    }
    let ghost js = jviews(items@);
    let mut out: Vec<JsonValue> = Vec::new();
    let mut i: usize = 0;
    while i < items.len()
        invariant
            i <= items@.len(),
            js == jviews(items@),
            jviews(out@) == having(js.take(i as int), key@, value@),
        decreases items.len() - i,
    {
        proof {
            assert(js.take(i + 1) == js.take(i as int).push(js[i as int]));
            lemma_having_push(js.take(i as int), js[i as int], key@, value@);
        }
        proof {
            reveal_strlit("");
        }
        let f = string_field(&items[i], key, "");
        assert(js[i as int] == items@[i as int]@);
        assert(f@ == sf(js[i as int], key@));
        let ghost before = jviews(out@);
        if crate::text::str_is(f.as_str(), value) {
            let c = crate::json::clone_json(&items[i]);
            out.push(c);
            assert(jviews(out@) =~= before.push(js[i as int]));
        } else {
            assert(jviews(out@) == before);
        }
        i = i + 1;
    }
    assert(js.take(items@.len() as int) == js);
    out
}

/// The distinct values of the text field `key`, in increasing order.
fn key_listing(items: &Vec<JsonValue>, key: &str) -> (out: Vec<String>)
    ensures
        views(out@) == listing(values_of(jviews(items@), key@).to_set()),
        crate::strset::sorted_strict(views(out@)),
{
    proof {
        reveal_strlit("");
    }
    let ghost vs = values_of(jviews(items@), key@);
    let mut out: Vec<String> = Vec::new();
    let mut i: usize = 0;
    while i < items.len()
        invariant
            i <= items@.len(),
            vs == values_of(jviews(items@), key@),
            crate::strset::sorted_strict(views(out@)),
            views(out@).to_set() == vs.take(i as int).to_set(),
        decreases items.len() - i,
    {
        proof {
            assert(vs.take(i + 1) == vs.take(i as int).push(vs[i as int]));
            vs.take(i as int).lemma_push_to_set_commute(vs[i as int]);
        }
        proof {
            reveal_strlit("");
        }
        let x = string_field(&items[i], key, "");
        assert(jviews(items@)[i as int] == items@[i as int]@);
        assert(x@ == vs[i as int]);
        crate::strset::set_insert(&mut out, x);
        i = i + 1;
    }
    assert(vs.take(items@.len() as int) == vs);
    proof {
        let set = vs.to_set();
        assert(lists(views(out@), set));
        assert(exists|m: Seq<Seq<char>>| lists(m, set));
        crate::strset::lemma_listing_unique(listing(set), views(out@));
    }
    out
}

/// `a`, then `b`, then `c`, then `d`, then `e`.
fn concat5(a: &str, b: &str, c: &str, d: &str, e: &str) -> (out: String)
    ensures
        out@ == a@ + b@ + c@ + d@ + e@,
{
    let mut out = owned(a);
    out.append(b);
    out.append(c);
    out.append(d);
    out.append(e);
    out
}

fn build_limit_finding(
    code: &str,
    message: String,
    dashboard_uid: String,
    dashboard_title: String,
    panel_id: String,
    panel_title: String,
) -> (f: DashboardGovernanceGateFinding)
    ensures
        f@ == limit_finding(code@, message@, dashboard_uid@, dashboard_title@, panel_id@, panel_title@),
{
    let f = DashboardGovernanceGateFinding {
        severity: owned("error"),
        code: owned(code),
        message,
        dashboard_uid,
        dashboard_title,
        panel_id,
        panel_title,
        ref_id: empty_string(),
        datasource: empty_string(),
        datasource_uid: empty_string(),
        datasource_family: empty_string(),
        risk_kind: empty_string(),
    };
    assert(f@ =~= limit_finding(code@, message@, dashboard_uid@, dashboard_title@, panel_id@, panel_title@));
    f
}

/// Appends the violations of the dashboards over `limit` query rows.
fn push_dashboard_limit_findings(
    out: &mut Vec<DashboardGovernanceGateFinding>,
    items: &Vec<JsonValue>,
    keys: &Vec<String>,
    limit: usize,
)
    ensures
        finding_views(final(out)@) == finding_views(old(out)@) + dashboard_limit_findings(
            views(keys@),
            jviews(items@),
            limit as int,
        ),
{
    proof {
        reveal_strlit("");
    }
    let ghost base = finding_views(out@);
    let ghost ks = views(keys@);
    let mut i: usize = 0;
    while i < keys.len()
        invariant
            i <= keys@.len(),
            ks == views(keys@),
            finding_views(out@) == base + dashboard_limit_findings(ks.take(i as int), jviews(items@), limit as int),
        decreases keys.len() - i,
    {
        proof {
            reveal_strlit("");
        }
        let g = select_having(items, "dashboardUid", keys[i].as_str());
        let ghost before = finding_views(out@);
        assert(ks.take(i + 1).drop_last() == ks.take(i as int));
        assert(ks.take(i + 1).last() == keys@[i as int]@);
        assert(jviews(g@).len() == g@.len());
        if g.len() > limit {
            let count = crate::text::usize_text(g.len());
            let lim = crate::text::usize_text(limit);
            let message = concat5(
                "Dashboard query count ",
                count.as_str(),
                " exceeds policy maxQueriesPerDashboard=",
                lim.as_str(),
                ".",
            );
            assert(jviews(g@)[0] == g@[0]@);
            let f = build_limit_finding(
                "max-queries-per-dashboard",
                message,
                keys[i].clone(),
                string_field(&g[0], "dashboardTitle", ""),
                empty_string(),
                empty_string(),
            );
            let ghost gv = having(jviews(items@), "dashboardUid"@, keys@[i as int]@);
            assert(gv == jviews(g@));
            assert(message@ == "Dashboard query count "@ + decimal(gv.len()) + " exceeds policy maxQueriesPerDashboard="@
                + decimal(limit as nat) + "."@);
            assert(f@ == limit_finding(
                "max-queries-per-dashboard"@,
                message@,
                keys@[i as int]@,
                sf(gv[0], "dashboardTitle"@),
                Seq::empty(),
                Seq::empty(),
            ));
            assert(dashboard_limit_findings(ks.take(i + 1), jviews(items@), limit as int) == dashboard_limit_findings(
                ks.take(i as int),
                jviews(items@),
                limit as int,
            ).push(f@));
            out.push(f);
            assert(finding_views(out@) =~= before.push(f@));
        } else {
            assert(dashboard_limit_findings(ks.take(i + 1), jviews(items@), limit as int) == dashboard_limit_findings(
                ks.take(i as int),
                jviews(items@),
                limit as int,
            ));
        }
        assert(finding_views(out@) =~= base + dashboard_limit_findings(ks.take(i + 1), jviews(items@), limit as int));
        i = i + 1;
    }
    assert(ks.take(keys@.len() as int) == ks);
}

/// Appends the violations of the panels of dashboard `u` over `limit`
/// query rows, where `g` holds the rows of that dashboard.
fn push_panel_limit_findings_in(
    out: &mut Vec<DashboardGovernanceGateFinding>,
    u: &String,
    g: &Vec<JsonValue>,
    limit: usize,
)
    ensures
        finding_views(final(out)@) == finding_views(old(out)@) + panel_limit_findings_in(
            u@,
            listing(values_of(jviews(g@), "panelId"@).to_set()),
            jviews(g@),
            limit as int,
        ),
{
    proof {
        reveal_strlit("");
    }
    let pids = key_listing(g, "panelId");
    let ghost base = finding_views(out@);
    let ghost ps = views(pids@);
    let mut i: usize = 0;
    while i < pids.len()
        invariant
            i <= pids@.len(),
            ps == views(pids@),
            finding_views(out@) == base + panel_limit_findings_in(u@, ps.take(i as int), jviews(g@), limit as int),
        decreases pids.len() - i,
    {
        proof {
            reveal_strlit("");
        }
        let h = select_having(g, "panelId", pids[i].as_str());
        let ghost before = finding_views(out@);
        assert(ps.take(i + 1).drop_last() == ps.take(i as int));
        assert(ps.take(i + 1).last() == pids@[i as int]@);
        assert(jviews(h@).len() == h@.len());
        if h.len() > limit {
            let count = crate::text::usize_text(h.len());
            let lim = crate::text::usize_text(limit);
            let message = concat5(
                "Panel query count ",
                count.as_str(),
                " exceeds policy maxQueriesPerPanel=",
                lim.as_str(),
                ".",
            );
            assert(jviews(h@)[0] == h@[0]@);
            let f = build_limit_finding(
                "max-queries-per-panel",
                message,
                u.clone(),
                string_field(&h[0], "dashboardTitle", ""),
                pids[i].clone(),
                string_field(&h[0], "panelTitle", ""),
            );
            let ghost hv = having(jviews(g@), "panelId"@, pids@[i as int]@);
            assert(hv == jviews(h@));
            assert(message@ == "Panel query count "@ + decimal(hv.len()) + " exceeds policy maxQueriesPerPanel="@
                + decimal(limit as nat) + "."@);
            assert(f@ == limit_finding(
                "max-queries-per-panel"@,
                message@,
                u@,
                sf(hv[0], "dashboardTitle"@),
                pids@[i as int]@,
                sf(hv[0], "panelTitle"@),
            ));
            assert(panel_limit_findings_in(u@, ps.take(i + 1), jviews(g@), limit as int) == panel_limit_findings_in(
                u@,
                ps.take(i as int),
                jviews(g@),
                limit as int,
            ).push(f@));
            out.push(f);
            assert(finding_views(out@) =~= before.push(f@));
        } else {
            assert(panel_limit_findings_in(u@, ps.take(i + 1), jviews(g@), limit as int) == panel_limit_findings_in(
                u@,
                ps.take(i as int),
                jviews(g@),
                limit as int,
            ));
        }
        assert(finding_views(out@) =~= base + panel_limit_findings_in(u@, ps.take(i + 1), jviews(g@), limit as int));
        i = i + 1;
    }
    assert(ps.take(pids@.len() as int) == ps);
}

/// Appends the violations of the panels over `limit` query rows.
fn push_panel_limit_findings(
    out: &mut Vec<DashboardGovernanceGateFinding>,
    items: &Vec<JsonValue>,
    keys: &Vec<String>,
    limit: usize,
)
    ensures
        finding_views(final(out)@) == finding_views(old(out)@) + panel_limit_findings(
            views(keys@),
            jviews(items@),
            limit as int,
        ),
{
    let ghost base = finding_views(out@);
    let ghost ks = views(keys@);
    let mut i: usize = 0;
    while i < keys.len()
        invariant
            i <= keys@.len(),
            ks == views(keys@),
            finding_views(out@) == base + panel_limit_findings(ks.take(i as int), jviews(items@), limit as int),
        decreases keys.len() - i,
    {
        proof {
            reveal_strlit("");
        }
        let g = select_having(items, "dashboardUid", keys[i].as_str());
        let ghost before = finding_views(out@);
        assert(ks.take(i + 1).drop_last() == ks.take(i as int));
        assert(ks.take(i + 1).last() == keys@[i as int]@);
        push_panel_limit_findings_in(out, &keys[i], &g, limit);
        assert(finding_views(out@) =~= base + panel_limit_findings(ks.take(i + 1), jviews(items@), limit as int));
        i = i + 1;
    }
    assert(ks.take(keys@.len() as int) == ks);
}

/// The families of a dashboard of the governance report, joined with
/// commas; empty where it lists none.
pub open spec fn families_text(d: Json) -> Seq<char> {
    match field(d, "datasourceFamilies"@) {
        Some(Json::Array(items)) => join(str_items(items), seq![',']),
        _ => Seq::empty(),
    }
}

/// Whether the governance report marks a dashboard as mixing datasources.
pub open spec fn is_mixed(d: Json) -> bool {
    field(d, "mixedDatasource"@) == Some(Json::Bool(true))
}

pub open spec fn mixed_message(d: Json) -> Seq<char> {
    "Dashboard uses mixed datasource families"@ + (if families_text(d).len() == 0 {
        Seq::empty()
    } else {
        ": "@
    }) + families_text(d) + "."@
}

/// The violations of the dashboards that mix datasource families, in
/// report order.
pub open spec fn mixed_findings(ds: Seq<Json>) -> Seq<FindingView>
    decreases ds.len(),
{
    if ds.len() == 0 {
        Seq::empty()
    } else {
        let before = mixed_findings(ds.drop_last());
        let d = ds.last();
        if is_mixed(d) {
            before.push(dashboard_finding("mixed-datasource-families-not-allowed"@, mixed_message(d), d))
        } else {
            before
        }
    }
}

/// The detail of a risk record, or a stock sentence where it has none.
pub open spec fn detail_or_default(r: Json) -> Seq<char> {
    let d = sf(r, "detail"@);
    if d.len() == 0 {
        "Governance warning surfaced from inspect report."@
    } else {
        d
    }
}

/// The message of a warning: the record's recommendation as written where
/// it is not blank, else its detail.
pub open spec fn warning_message(r: Json) -> Seq<char> {
    match field(r, "recommendation"@) {
        Some(Json::Str(s)) => if trim(s).len() > 0 {
            s
        } else {
            detail_or_default(r)
        },
        _ => detail_or_default(r),
    }
}

/// The warning a risk record of the governance report gives.
pub open spec fn warning_of(r: Json) -> FindingView {
    FindingView {
        severity: "warning"@,
        code: sf(r, "kind"@),
        message: warning_message(r),
        dashboard_uid: sf(r, "dashboardUid"@),
        dashboard_title: Seq::empty(),
        panel_id: sf(r, "panelId"@),
        panel_title: Seq::empty(),
        ref_id: Seq::empty(),
        datasource: sf(r, "datasource"@),
        datasource_uid: Seq::empty(),
        datasource_family: Seq::empty(),
        risk_kind: sf(r, "kind"@),
    }
}

pub open spec fn warnings_of(rs: Seq<Json>) -> Seq<FindingView> {
    rs.map_values(|r: Json| warning_of(r))
}

/// The strings among the items, as they are.
fn str_items_of(items: &Vec<JsonValue>) -> (out: Vec<String>)
    ensures
        views(out@) == str_items(jviews(items@)),
{
    let ghost js = jviews(items@);
    let mut out: Vec<String> = Vec::new();
    let mut i: usize = 0;
    while i < items.len()
        invariant
            i <= items@.len(),
            js == jviews(items@),
            views(out@) == str_items(js.take(i as int)),
        decreases items.len() - i,
    {
        assert(js.take(i + 1).drop_last() == js.take(i as int));
        assert(js.take(i + 1).last() == items@[i as int]@);
        match &items[i] {
            JsonValue::Str(s) => {
                let ghost before = views(out@);
                out.push(s.clone());
                assert(views(out@) =~= before.push(s@));
            },
            _ => {},
        }
        i = i + 1;
    }
    assert(js.take(items@.len() as int) == js);
    out
}

fn families_text_of(d: &JsonValue) -> (t: String)
    ensures
        t@ == families_text(d@),
{
    match get_field(d, "datasourceFamilies") {
        Some(v) => match v {
            JsonValue::Array(items) => {
                let parts = str_items_of(items);
                assert(jviews(items@) =~= v@->Array_0);
                proof {
                    reveal_strlit(",");
                }
                let t = crate::text::join_strings(parts.as_slice(), ",");
                assert(parts@.map_values(|p: String| p@) =~= views(parts@));
                assert(","@ == seq![',']);
                assert(t@ == join(str_items(v@->Array_0), seq![',']));
                assert(field(d@, "datasourceFamilies"@) == Some(v@));
                t
            },
            _ => empty_string(),
        },
        None => empty_string(),
    }
}

/// Appends the violations of the dashboards that mix datasource families.
fn push_mixed_findings(out: &mut Vec<DashboardGovernanceGateFinding>, ds: &Vec<JsonValue>)
    ensures
        finding_views(final(out)@) == finding_views(old(out)@) + mixed_findings(jviews(ds@)),
{
    let ghost base = finding_views(out@);
    let ghost js = jviews(ds@);
    let mut i: usize = 0;
    while i < ds.len()
        invariant
            i <= ds@.len(),
            js == jviews(ds@),
            finding_views(out@) == base + mixed_findings(js.take(i as int)),
        decreases ds.len() - i,
    {
        let d = &ds[i];
        assert(js.take(i + 1).drop_last() == js.take(i as int));
        assert(js.take(i + 1).last() == d@);
        let mixed = match get_field(d, "mixedDatasource") {
            Some(JsonValue::Bool(b)) => *b,
            _ => false,
        };
        let ghost before = finding_views(out@);
        if mixed {
            let families = families_text_of(d);
            let sep = if families.as_str().unicode_len() == 0 {
                empty_string()
            } else {
                owned(": ")
            };
            let message = concat5(
                "Dashboard uses mixed datasource families",
                sep.as_str(),
                families.as_str(),
                ".",
                "",
            );
            proof {
                reveal_strlit("");
            }
            assert(message@ =~= mixed_message(d@));
            let f = build_dashboard_violation("mixed-datasource-families-not-allowed", message, d);
            out.push(f);
            assert(finding_views(out@) =~= before.push(f@));
        }
        assert(finding_views(out@) =~= base + mixed_findings(js.take(i + 1)));
        i = i + 1;
    }
    assert(js.take(ds@.len() as int) == js);
}

fn warning_message_of(r: &JsonValue) -> (m: String)
    ensures
        m@ == warning_message(r@),
{
    proof {
        reveal_strlit("");
    }
    let detail = string_field(r, "detail", "");
    let fallback = if detail.as_str().unicode_len() == 0 {
        owned("Governance warning surfaced from inspect report.")
    } else {
        detail
    };
    match get_field(r, "recommendation") {
        Some(JsonValue::Str(s)) => {
            let t = trim_str(s.as_str());
            if t.as_str().unicode_len() > 0 {
                s.clone()
            } else {
                fallback
            }
        },
        _ => fallback,
    }
}

fn build_warning(r: &JsonValue) -> (f: DashboardGovernanceGateFinding)
    ensures
        f@ == warning_of(r@),
{
    proof {
        reveal_strlit("");
    }
    let f = DashboardGovernanceGateFinding {
        severity: owned("warning"),
        code: string_field(r, "kind", ""),
        message: warning_message_of(r),
        dashboard_uid: string_field(r, "dashboardUid", ""),
        dashboard_title: empty_string(),
        panel_id: string_field(r, "panelId", ""),
        panel_title: empty_string(),
        ref_id: empty_string(),
        datasource: string_field(r, "datasource", ""),
        datasource_uid: empty_string(),
        datasource_family: empty_string(),
        risk_kind: string_field(r, "kind", ""),
    };
    assert(f@ =~= warning_of(r@));
    f
}

/// The warnings of the risk records, in report order.
fn build_warnings(rs: &Vec<JsonValue>) -> (out: Vec<DashboardGovernanceGateFinding>)
    ensures
        finding_views(out@) == warnings_of(jviews(rs@)),
{
    let mut out: Vec<DashboardGovernanceGateFinding> = Vec::new();
    let mut i: usize = 0;
    while i < rs.len()
        invariant
            i <= rs@.len(),
            finding_views(out@) == warnings_of(jviews(rs@).take(i as int)),
        decreases rs.len() - i,
    {
        let f = build_warning(&rs[i]);
        let ghost before = finding_views(out@);
        out.push(f);
        assert(jviews(rs@)[i as int] == rs@[i as int]@);
        assert(finding_views(out@) =~= before.push(f@));
        assert(warnings_of(jviews(rs@).take(i + 1)) =~= warnings_of(jviews(rs@).take(i as int)).push(
            warning_of(rs@[i as int]@),
        ));
        i = i + 1;
    }
    assert(jviews(rs@).take(rs@.len() as int) =~= jviews(rs@));
    out
}

/// An array of strings.
pub open spec fn str_array(l: Seq<Seq<char>>) -> Json {
    Json::Array(l.map_values(|x: Seq<char>| Json::Str(x)))
}

/// A count, or null where there is none.
pub open spec fn opt_count(o: Option<int>) -> Json {
    match o {
        Some(n) => Json::Number(decimal(n as nat)),
        None => Json::Null,
    }
}

/// The rules the check ran, as the result reports them: an object whose
/// keys stand in increasing order, as `serde_json` keeps them.
pub open spec fn checked_rules_json(p: PolicyView) -> Json {
    Json::Object(
        seq![
            "datasourceAllowedFamilies"@,
            "datasourceAllowedUids"@,
            "failOnWarnings"@,
            "forbidMixedFamilies"@,
            "forbidUnknown"@,
            "maxQueriesPerDashboard"@,
            "maxQueriesPerPanel"@,
        ],
        seq![
            str_array(p.allowed_families),
            str_array(p.allowed_uids),
            Json::Bool(p.fail_on_warnings),
            Json::Bool(p.forbid_mixed_families),
            Json::Bool(p.forbid_unknown),
            opt_count(p.max_queries_per_dashboard),
            opt_count(p.max_queries_per_panel),
        ],
    )
}

fn str_array_value(l: &Vec<String>) -> (v: JsonValue)
    ensures
        v@ == str_array(views(l@)),
{
    let mut items: Vec<JsonValue> = Vec::new();
    let mut i: usize = 0;
    while i < l.len()
        invariant
            i <= l@.len(),
            items@.len() == i,
            forall|k: int| 0 <= k < i ==> (#[trigger] items@[k])@ == Json::Str(l@[k]@),
        decreases l.len() - i,
    {
        items.push(JsonValue::Str(l[i].clone()));
        i = i + 1;
    }
    let v = JsonValue::Array(items);
    assert(v@->Array_0 =~= views(l@).map_values(|x: Seq<char>| Json::Str(x)));
    v
}

fn opt_count_value(o: Option<usize>) -> (v: JsonValue)
    ensures
        v@ == opt_count(opt_int(o)),
{
    match o {
        Some(n) => JsonValue::Number(crate::text::usize_text(n)),
        None => JsonValue::Null,
    }
}

/// The rules of a policy, as the check's result reports them.
pub fn build_checked_rules(policy: &QueryThresholdPolicy) -> (v: JsonValue)
    ensures
        v@ == checked_rules_json(policy@),
{
    let keys: Vec<String> = vec![
        owned("datasourceAllowedFamilies"),
        owned("datasourceAllowedUids"),
        owned("failOnWarnings"),
        owned("forbidMixedFamilies"),
        owned("forbidUnknown"),
        owned("maxQueriesPerDashboard"),
        owned("maxQueriesPerPanel"),
    ];
    let values: Vec<JsonValue> = vec![
        str_array_value(&policy.allowed_families),
        str_array_value(&policy.allowed_uids),
        JsonValue::Bool(policy.fail_on_warnings),
        JsonValue::Bool(policy.forbid_mixed_families),
        JsonValue::Bool(policy.forbid_unknown),
        opt_count_value(policy.max_queries_per_dashboard),
        opt_count_value(policy.max_queries_per_panel),
    ];
    assert(values@[0]@ == str_array(policy@.allowed_families));
    assert(values@[1]@ == str_array(policy@.allowed_uids));
    assert(values@[5]@ == opt_count(policy@.max_queries_per_dashboard));
    assert(values@[6]@ == opt_count(policy@.max_queries_per_panel));
    let v = JsonValue::Object { keys, values };
    let ghost c = checked_rules_json(policy@);
    assert(v@->Object_0 =~= c->Object_0);
    assert(values@.len() == 7);
    assert(v@->Object_1.len() == 7);
    assert forall|k: int| 0 <= k < 7 implies v@->Object_1[k] == c->Object_1[k] by {
        assert(v@->Object_1[k] == values@[k]@);
        if k == 2 {
            assert(values@[2]@ == Json::Bool(policy.fail_on_warnings));
        }
    }
    assert(v@->Object_1 =~= c->Object_1);
    v
}

/// The counts of the check's result.
#[derive(Debug)]
pub struct DashboardGovernanceGateSummary {
    pub dashboard_count: usize,
    pub query_record_count: usize,
    pub violation_count: usize,
    pub warning_count: usize,
    pub checked_rules: JsonValue,
}

/// What the check decided, with the findings behind it.
#[derive(Debug)]
pub struct DashboardGovernanceGateResult {
    pub ok: bool,
    pub summary: DashboardGovernanceGateSummary,
    pub violations: Vec<DashboardGovernanceGateFinding>,
    pub warnings: Vec<DashboardGovernanceGateFinding>,
}

/// The check's result as values.
pub ghost struct GateView {
    pub ok: bool,
    pub dashboard_count: int,
    pub query_record_count: int,
    pub checked_rules: Json,
    pub violations: Seq<FindingView>,
    pub warnings: Seq<FindingView>,
}

/// A count the query report's summary gives under `key`, where it is a
/// non-negative integer.
pub open spec fn summary_value(q: Json, key: Seq<char>) -> Option<Json> {
    match field(q, "summary"@) {
        Some(s) => field(s, key),
        None => None,
    }
}

/// The number of dashboards the query report's summary gives, or 0.
pub open spec fn dashboard_count_of(q: Json) -> int {
    match summary_value(q, "dashboardCount"@) {
        Some(x) => match json_u64(x) {
            Some(n) => (n as usize) as int,
            None => 0,
        },
        None => 0,
    }
}

/// The number of query rows the query report's summary gives (as
/// `queryRecordCount`, or else as `reportRowCount`), or the number of rows.
pub open spec fn query_record_count_of(q: Json, row_count: int) -> int {
    let c = match summary_value(q, "queryRecordCount"@) {
        Some(x) => Some(x),
        None => summary_value(q, "reportRowCount"@),
    };
    match c {
        Some(x) => match json_u64(x) {
            Some(n) => (n as usize) as int,
            None => row_count,
        },
        None => row_count,
    }
}

/// The dashboard UIDs of the rows, each once, in increasing order.
pub open spec fn dashboard_keys(qs: Seq<Json>) -> Seq<Seq<char>> {
    listing(values_of(qs, "dashboardUid"@).to_set())
}

/// The violations, or what is missing for them: the violations of each
/// row, then of each dashboard over its limit, then of each panel over its
/// limit, then (where mixed families are forbidden) of each mixing
/// dashboard of the governance report.
pub open spec fn violations_of(pol: PolicyView, qs: Seq<Json>, g: Json) -> Result<Seq<FindingView>, Seq<char>> {
    let keys = dashboard_keys(qs);
    let base = all_query_findings(pol, qs) + match pol.max_queries_per_dashboard {
        Some(l) => dashboard_limit_findings(keys, qs, l),
        None => Seq::empty(),
    } + match pol.max_queries_per_panel {
        Some(l) => panel_limit_findings(keys, qs, l),
        None => Seq::empty(),
    };
    if pol.forbid_mixed_families {
        match field(g, "dashboardGovernance"@) {
            Some(Json::Array(ds)) => Ok(base + mixed_findings(ds)),
            _ => Err("Dashboard governance JSON must contain a dashboardGovernance array."@),
        }
    } else {
        Ok(base)
    }
}

/// What the check gives for a policy, a governance report and a query
/// report: its result, or the first thing wrong with the documents.
pub open spec fn gate_outcome(p: Json, g: Json, q: Json) -> Result<GateView, Seq<char>> {
    match policy_of(p) {
        Err(e) => Err(e),
        Ok(pol) => match field(q, "queries"@) {
            Some(Json::Array(qs)) => match violations_of(pol, qs, g) {
                Err(e) => Err(e),
                Ok(v) => match field(g, "riskRecords"@) {
                    Some(Json::Array(rs)) => {
                        let w = warnings_of(rs);
                        Ok(
                            GateView {
                                ok: v.len() == 0 && !(pol.fail_on_warnings && w.len() > 0),
                                dashboard_count: dashboard_count_of(q),
                                query_record_count: query_record_count_of(q, qs.len() as int),
                                checked_rules: checked_rules_json(pol),
                                violations: v,
                                warnings: w,
                            },
                        )
                    },
                    _ => Err("Dashboard governance JSON must contain a riskRecords array."@),
                },
            },
            _ => Err("Dashboard query report JSON must contain a queries array."@),
        },
    }
}

/// The result as values.
pub open spec fn gate_view(r: DashboardGovernanceGateResult) -> GateView {
    GateView {
        ok: r.ok,
        dashboard_count: r.summary.dashboard_count as int,
        query_record_count: r.summary.query_record_count as int,
        checked_rules: r.summary.checked_rules@,
        violations: finding_views(r.violations@),
        warnings: finding_views(r.warnings@),
    }
}

fn summary_value_of<'a>(q: &'a JsonValue, key: &str) -> (r: Option<&'a JsonValue>)
    ensures
        match r {
            Some(x) => summary_value(q@, key@) == Some(x@),
            None => summary_value(q@, key@) is None,
        },
{
    opt_field(get_field(q, "summary"), key)
}

fn count_of(v: Option<&JsonValue>, default: usize) -> (n: usize)
    ensures
        n == match opt_view(v) {
            Some(x) => match json_u64(x) {
                Some(m) => (m as usize) as int,
                None => default as int,
            },
            None => default as int,
        },
{
    match v {
        Some(x) => match as_u64(x) {
            Some(m) => m as usize,
            None => default,
        },
        None => default,
    }
}

/// Evaluates the governance check: reads the policy, checks every query row
/// of the query report against it, counts the rows of each dashboard and
/// of each panel against the limits, checks for mixed datasource families
/// where the policy forbids them, and turns the governance report's risk
/// records into warnings. The check passes when there is no violation, and
/// no warning either where the policy fails on warnings.
pub fn evaluate_dashboard_governance_gate(
    policy: &JsonValue,
    governance_document: &JsonValue,
    query_document: &JsonValue,
) -> (r: Result<DashboardGovernanceGateResult, String>)
    ensures
        match r {
            Ok(res) => gate_outcome(policy@, governance_document@, query_document@) == Ok::<GateView, Seq<char>>(
                gate_view(res),
            ) && res.summary.violation_count == res.violations@.len() && res.summary.warning_count
                == res.warnings@.len(),
            Err(e) => gate_outcome(policy@, governance_document@, query_document@) == Err::<GateView, Seq<char>>(e@),
        },
{
    let pol = match parse_query_threshold_policy(policy) {
        Ok(p) => p,
        Err(e) => {
            return Err(e);
        },
    };
    let queries = match get_field(query_document, "queries") {
        Some(JsonValue::Array(items)) => items,
        _ => {
            return Err(owned("Dashboard query report JSON must contain a queries array."));
        },
    };
    let ghost qs = jviews(queries@);
    proof {
        let qv = field(query_document@, "queries"@)->0;
        assert(qv->Array_0 =~= qs);
    }
    let dashboard_count = count_of(summary_value_of(query_document, "dashboardCount"), 0);
    let record = match summary_value_of(query_document, "queryRecordCount") {
        Some(x) => Some(x),
        None => summary_value_of(query_document, "reportRowCount"),
    };
    let query_record_count = count_of(record, queries.len());
    let mut violations: Vec<DashboardGovernanceGateFinding> = Vec::new();
    let mut i: usize = 0;
    while i < queries.len()
        invariant
            i <= queries@.len(),
            qs == jviews(queries@),
            finding_views(violations@) == all_query_findings(pol@, qs.take(i as int)),
        decreases queries.len() - i,
    {
        assert(qs.take(i + 1).drop_last() == qs.take(i as int));
        assert(qs.take(i + 1).last() == queries@[i as int]@);
        push_query_findings(&mut violations, &pol, &queries[i]);
        i = i + 1;
    }
    assert(qs.take(queries@.len() as int) == qs);
    let keys = key_listing(queries, "dashboardUid");
    let ghost base0 = finding_views(violations@);
    match pol.max_queries_per_dashboard {
        Some(limit) => push_dashboard_limit_findings(&mut violations, queries, &keys, limit),
        None => {},
    }
    let ghost base1 = finding_views(violations@);
    match pol.max_queries_per_panel {
        Some(limit) => push_panel_limit_findings(&mut violations, queries, &keys, limit),
        None => {},
    }
    proof {
        let pv = pol@;
        let dk = match pv.max_queries_per_dashboard {
            Some(l) => dashboard_limit_findings(dashboard_keys(qs), qs, l),
            None => Seq::empty(),
        };
        let pk = match pv.max_queries_per_panel {
            Some(l) => panel_limit_findings(dashboard_keys(qs), qs, l),
            None => Seq::empty(),
        };
        assert(base1 =~= base0 + dk);
        assert(finding_views(violations@) =~= all_query_findings(pv, qs) + dk + pk);
    }
    if pol.forbid_mixed_families {
        match get_field(governance_document, "dashboardGovernance") {
            Some(JsonValue::Array(ds)) => {
                proof {
                    let dv = field(governance_document@, "dashboardGovernance"@)->0;
                    assert(dv->Array_0 =~= jviews(ds@));
                }
                push_mixed_findings(&mut violations, ds);
            },
            _ => {
                return Err(owned("Dashboard governance JSON must contain a dashboardGovernance array."));
            },
        }
    }
    let warnings = match get_field(governance_document, "riskRecords") {
        Some(JsonValue::Array(rs)) => {
            proof {
                let rv = field(governance_document@, "riskRecords"@)->0;
                assert(rv->Array_0 =~= jviews(rs@));
            }
            build_warnings(rs)
        },
        _ => {
            return Err(owned("Dashboard governance JSON must contain a riskRecords array."));
        },
    };
    let ok = violations.len() == 0 && !(pol.fail_on_warnings && warnings.len() > 0);
    let checked_rules = build_checked_rules(&pol);
    let res = DashboardGovernanceGateResult {
        ok,
        summary: DashboardGovernanceGateSummary {
            dashboard_count,
            query_record_count,
            violation_count: violations.len(),
            warning_count: warnings.len(),
            checked_rules,
        },
        violations,
        warnings,
    };
    Ok(res)
}

/// A field as the text report shows it: `-` where it is empty.
pub open spec fn or_dash(s: Seq<char>) -> Seq<char> {
    if s.len() == 0 {
        "-"@
    } else {
        s
    }
}

/// The report line of a violation.
pub open spec fn violation_line(f: FindingView) -> Seq<char> {
    "  ERROR ["@ + f.code + "] dashboard="@ + or_dash(f.dashboard_uid) + " panel="@ + or_dash(f.panel_id)
        + " datasource="@ + or_dash(f.datasource_uid) + ": "@ + f.message
}

/// The report line of a warning, which shows the risk kind where it has
/// one and names the datasource rather than its UID.
pub open spec fn warning_line(f: FindingView) -> Seq<char> {
    "  WARN ["@ + (if f.risk_kind.len() == 0 {
        f.code
    } else {
        f.risk_kind
    }) + "] dashboard="@ + or_dash(f.dashboard_uid) + " panel="@ + or_dash(f.panel_id) + " datasource="@
        + or_dash(f.datasource) + ": "@ + f.message
}

/// The lines of the text report of the check's result: the verdict, the
/// counts, then the violations and the warnings, each list under its
/// heading after a blank line where it is not empty.
pub open spec fn gate_report_lines(r: DashboardGovernanceGateResult) -> Seq<Seq<char>> {
    let vs = finding_views(r.violations@);
    let ws = finding_views(r.warnings@);
    seq![
        "Dashboard governance gate: "@ + (if r.ok {
            "PASS"@
        } else {
            "FAIL"@
        }),
        "Dashboards: "@ + decimal(r.summary.dashboard_count as nat) + "  Queries: "@ + decimal(
            r.summary.query_record_count as nat,
        ) + "  Violations: "@ + decimal(r.summary.violation_count as nat) + "  Warnings: "@ + decimal(
            r.summary.warning_count as nat,
        ),
    ] + (if vs.len() > 0 {
        seq![Seq::empty(), "Violations:"@] + vs.map_values(|f: FindingView| violation_line(f))
    } else {
        Seq::empty()
    }) + (if ws.len() > 0 {
        seq![Seq::empty(), "Warnings:"@] + ws.map_values(|f: FindingView| warning_line(f))
    } else {
        Seq::empty()
    })
}

fn or_dash_str(s: &String) -> (t: String)
    ensures
        t@ == or_dash(s@),
{
    if s.as_str().unicode_len() == 0 {
        owned("-")
    } else {
        s.clone()
    }
}

fn push_line(lines: &mut Vec<String>, l: String)
    ensures
        views(final(lines)@) == views(old(lines)@).push(l@),
{
    let ghost before = lines@;
    let ghost lv = l;
    lines.push(l);
    proof {
        before.lemma_push_map_commute(|s: String| s@, lv);
    }
}

fn push_finding_lines(lines: &mut Vec<String>, fs: &Vec<DashboardGovernanceGateFinding>, warning: bool)
    ensures
        views(final(lines)@) == views(old(lines)@) + (if warning {
            finding_views(fs@).map_values(|f: FindingView| warning_line(f))
        } else {
            finding_views(fs@).map_values(|f: FindingView| violation_line(f))
        }),
{
    let ghost base = views(lines@);
    let ghost target = if warning {
        finding_views(fs@).map_values(|f: FindingView| warning_line(f))
    } else {
        finding_views(fs@).map_values(|f: FindingView| violation_line(f))
    };
    let mut i: usize = 0;
    while i < fs.len()
        invariant
            i <= fs@.len(),
            target.len() == fs@.len(),
            target == (if warning {
                finding_views(fs@).map_values(|f: FindingView| warning_line(f))
            } else {
                finding_views(fs@).map_values(|f: FindingView| violation_line(f))
            }),
            views(lines@) == base + target.take(i as int),
        decreases fs.len() - i,
    {
        let f = &fs[i];
        let mut l = if warning {
            owned("  WARN [")
        } else {
            owned("  ERROR [")
        };
        if warning && f.risk_kind.as_str().unicode_len() > 0 {
            l.append(f.risk_kind.as_str());
        } else {
            l.append(f.code.as_str());
        }
        l.append("] dashboard=");
        l.append(or_dash_str(&f.dashboard_uid).as_str());
        l.append(" panel=");
        l.append(or_dash_str(&f.panel_id).as_str());
        l.append(" datasource=");
        if warning {
            l.append(or_dash_str(&f.datasource).as_str());
        } else {
            l.append(or_dash_str(&f.datasource_uid).as_str());
        }
        l.append(": ");
        l.append(f.message.as_str());
        proof {
            assert(finding_views(fs@)[i as int] == f@);
            if warning {
                assert(l@ == warning_line(f@));
            } else {
                assert(l@ == violation_line(f@));
            }
            assert(target[i as int] == l@);
            assert(target.take(i + 1) =~= target.take(i as int).push(l@));
        }
        push_line(lines, l);
        i = i + 1;
    }
    assert(target.take(fs@.len() as int) =~= target);
}

/// Renders the check's result as text.
pub fn render_dashboard_governance_gate_result(result: &DashboardGovernanceGateResult) -> (t: String)
    ensures
        t@ == join(gate_report_lines(*result), "\n"@),
{
    let mut lines: Vec<String> = Vec::new();
    let verdict = if result.ok {
        owned("PASS")
    } else {
        owned("FAIL")
    };
    push_line(&mut lines, crate::text::concat("Dashboard governance gate: ", verdict.as_str()));
    let mut counts = owned("Dashboards: ");
    counts.append(crate::text::usize_text(result.summary.dashboard_count).as_str());
    counts.append("  Queries: ");
    counts.append(crate::text::usize_text(result.summary.query_record_count).as_str());
    counts.append("  Violations: ");
    counts.append(crate::text::usize_text(result.summary.violation_count).as_str());
    counts.append("  Warnings: ");
    counts.append(crate::text::usize_text(result.summary.warning_count).as_str());
    push_line(&mut lines, counts);
    let ghost head = views(lines@);
    if result.violations.len() > 0 {
        push_line(&mut lines, empty_string());
        push_line(&mut lines, owned("Violations:"));
        push_finding_lines(&mut lines, &result.violations, false);
    }
    let ghost mid = views(lines@);
    if result.warnings.len() > 0 {
        push_line(&mut lines, empty_string());
        push_line(&mut lines, owned("Warnings:"));
        push_finding_lines(&mut lines, &result.warnings, true);
    }
    proof {
        let vs = finding_views(result.violations@);
        let ws = finding_views(result.warnings@);
        let vpart = if vs.len() > 0 {
            seq![Seq::empty(), "Violations:"@] + vs.map_values(|f: FindingView| violation_line(f))
        } else {
            Seq::empty()
        };
        let wpart = if ws.len() > 0 {
            seq![Seq::empty(), "Warnings:"@] + ws.map_values(|f: FindingView| warning_line(f))
        } else {
            Seq::empty()
        };
        assert(mid =~= head + vpart);
        assert(views(lines@) =~= head + vpart + wpart);
        assert(views(lines@) =~= gate_report_lines(*result));
        assert(lines@.map_values(|p: String| p@) =~= views(lines@));
    }
    crate::text::join_strings(lines.as_slice(), "\n")
}

} // verus!
