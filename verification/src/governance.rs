//! Governance review of an export inspection: datasource families, the
//! datasources each dashboard depends on, coverage per datasource, and the
//! risk records (mixed dashboards, orphaned datasources, unknown families,
//! empty query analysis, broad Loki selectors).
use vstd::prelude::*;

use crate::report::{chars_are, row_views, trimmed_lower, ExportInspectionQueryRow, QueryRowView};
use crate::strset::views;
use crate::summary::{inventory_views, DatasourceInventorySummary, ExportInspectionSummary, InventoryView};
use crate::text::{
    ascii_lower, ends_with, ends_with_chars, is_blank, is_blank_str, owned, slice_chars,
    starts_with, starts_with_chars, string_from_chars, trim,
};

verus! {

/// A datasource type with a `grafana-…-datasource` or `…-datasource`
/// wrapping removed, after trimming and lower-casing.
pub open spec fn family_stem(datasource_type: Seq<char>) -> Seq<char> {
    let l = ascii_lower(trim(datasource_type));
    let rest = l.skip(8);
    if starts_with(l, "grafana-"@) && ends_with(rest, "-datasource"@) {
        rest.take(rest.len() - 11)
    } else if ends_with(l, "-datasource"@) {
        l.take(l.len() - 11)
    } else {
        l
    }
}

/// The governance family a datasource type belongs to.
pub open spec fn family_of(datasource_type: Seq<char>) -> Seq<char> {
    let n = family_stem(datasource_type);
    if n.len() == 0 {
        "unknown"@
    } else if n == "influxdb"@ || n == "flux"@ {
        "flux"@
    } else if n == "mysql"@ || n == "postgres"@ || n == "mssql"@ || n == "postgresql"@ {
        "sql"@
    } else if n == "elasticsearch"@ || n == "opensearch"@ {
        "search"@
    } else if n == "tempo"@ || n == "jaeger"@ || n == "zipkin"@ {
        "tracing"@
    } else {
        n
    }
}

/// Collapses a datasource type name into the family label used in
/// governance summaries and risk grouping.
pub fn normalize_family_name(datasource_type: &str) -> (f: String)
    ensures
        f@ == family_of(datasource_type@),
{
    let l = trimmed_lower(datasource_type);
    let prefix = crate::text::chars_of("grafana-");
    let suffix = crate::text::chars_of("-datasource");
    proof {
        reveal_strlit("grafana-");
        reveal_strlit("-datasource");
    }
    let mut n: Vec<char> = Vec::new();
    let mut done = false;
    if starts_with_chars(l.as_slice(), prefix.as_slice()) {
        let rest = slice_chars(l.as_slice(), 8, l.len());
        assert(rest@ == l@.skip(8));
        if ends_with_chars(rest.as_slice(), suffix.as_slice()) {
            n = slice_chars(rest.as_slice(), 0, rest.len() - 11);
            assert(n@ == rest@.take(rest@.len() - 11));
            done = true;
        }
    }
    if !done {
        if ends_with_chars(l.as_slice(), suffix.as_slice()) {
            n = slice_chars(l.as_slice(), 0, l.len() - 11);
            assert(n@ == l@.take(l@.len() - 11));
        } else {
            n = l;
        }
    }
    assert(n@ == family_stem(datasource_type@));
    let s = n.as_slice();
    if n.len() == 0 {
        owned("unknown")
    } else if chars_are(s, "influxdb") || chars_are(s, "flux") {
        owned("flux")
    } else if chars_are(s, "mysql") || chars_are(s, "postgres") || chars_are(s, "mssql")
        || chars_are(s, "postgresql") {
        owned("sql")
    } else if chars_are(s, "elasticsearch") || chars_are(s, "opensearch") {
        owned("search")
    } else if chars_are(s, "tempo") || chars_are(s, "jaeger") || chars_are(s, "zipkin") {
        owned("tracing")
    } else {
        string_from_chars(s)
    }
}

/// The families of the listed types, each once, in first-seen order.
pub open spec fn family_list(families: Seq<Seq<char>>) -> Seq<Seq<char>> {
    families.map_values(|f: Seq<char>| family_of(f)).remove_duplicates(Seq::empty())
}

/// Normalizes and de-duplicates a list of families, keeping first-seen order.
pub fn normalize_family_list(families: &[String]) -> (out: Vec<String>)
    ensures
        views(out@) == family_list(views(families@)),
{
    let ghost fs = views(families@).map_values(|f: Seq<char>| family_of(f));
    let mut out: Vec<String> = Vec::new();
    let mut i: usize = 0;
    while i < families.len()
        invariant
            i <= families.len(),
            fs == views(families@).map_values(|f: Seq<char>| family_of(f)),
            views(out@) == fs.take(i as int).remove_duplicates(Seq::empty()),
        decreases families.len() - i,
    {
        let family = normalize_family_name(families[i].as_str());
        let ghost p = fs.take(i as int);
        proof {
            assert(fs.take(i + 1) == p + seq![family@]);
            p.lemma_remove_duplicates_properties(Seq::empty());
            p.lemma_remove_duplicates_append(family@, Seq::empty());
            assert(p + Seq::<Seq<char>>::empty() == p);
        }
        if !crate::report::contains_string_in(&out, &family) {
            let ghost before = out@;
            out.push(family);
            proof {
                before.lemma_push_map_commute(|s: String| s@, out@.last());
                assert(out@ == before.push(out@.last()));
            }
        }
        i = i + 1;
    }
    assert(fs.take(families.len() as int) == fs);
    out
}

/// A datasource as the governance review knows it: UID, name and type.
pub ghost struct IdentityView {
    pub uid: Seq<char>,
    pub name: Seq<char>,
    pub datasource_type: Seq<char>,
}

pub open spec fn identity_of(d: InventoryView) -> IdentityView {
    IdentityView { uid: d.uid, name: d.name, datasource_type: d.datasource_type }
}

/// The identity the inventory records under a UID: the last entry with that
/// (non-blank) UID.
pub open spec fn inventory_by_uid(inv: Seq<InventoryView>, key: Seq<char>) -> Option<IdentityView>
    decreases inv.len(),
{
    if inv.len() == 0 {
        None
    } else if !is_blank(inv.last().uid) && inv.last().uid == key {
        Some(identity_of(inv.last()))
    } else {
        inventory_by_uid(inv.drop_last(), key)
    }
}

/// The identity the inventory records under a name: the last entry with
/// that (non-blank) name.
pub open spec fn inventory_by_name(inv: Seq<InventoryView>, key: Seq<char>) -> Option<IdentityView>
    decreases inv.len(),
{
    if inv.len() == 0 {
        None
    } else if !is_blank(inv.last().name) && inv.last().name == key {
        Some(identity_of(inv.last()))
    } else {
        inventory_by_name(inv.drop_last(), key)
    }
}

/// A lookup table from a key to the `(uid, name, type)` of a datasource.
pub struct InventoryLookup {
    pub entries: Vec<(String, (String, String, String))>,
}

pub open spec fn entry_identity(e: (String, (String, String, String))) -> IdentityView {
    IdentityView { uid: e.1.0@, name: e.1.1@, datasource_type: e.1.2@ }
}

impl InventoryLookup {
    /// The identity stored under `key`.
    pub open spec fn get_spec(self, key: Seq<char>) -> Option<IdentityView> {
        if exists|i: int| 0 <= i < self.entries@.len() && self.entries@[i].0@ == key {
            let i = choose|i: int| 0 <= i < self.entries@.len() && self.entries@[i].0@ == key;
            Some(entry_identity(self.entries@[i]))
        } else {
            None
        }
    }

    /// Each key is stored once.
    pub open spec fn well_formed(self) -> bool {
        forall|i: int, j: int|
            0 <= i < j < self.entries@.len() ==> #[trigger] self.entries@[i].0@
                != #[trigger] self.entries@[j].0@
    }

    fn position(&self, key: &str) -> (r: Option<usize>)
        requires
            self.well_formed(),
        ensures
            match r {
                Some(i) => i < self.entries@.len() && self.entries@[i as int].0@ == key@,
                None => forall|i: int| 0 <= i < self.entries@.len() ==> self.entries@[i].0@ != key@,
            },
    {
        let mut i: usize = 0;
        while i < self.entries.len()
            invariant
                i <= self.entries@.len(),
                forall|k: int| 0 <= k < i ==> self.entries@[k].0@ != key@,
            decreases self.entries.len() - i,
        {
            if crate::text::str_is(self.entries[i].0.as_str(), key) {
                return Some(i);
            }
            i = i + 1;
        }
        None
    }

    /// The identity stored under `key`.
    pub fn get(&self, key: &str) -> (r: Option<(String, String, String)>)
        requires
            self.well_formed(),
        ensures
            match (r, self.get_spec(key@)) {
                (Some(t), Some(v)) => t.0@ == v.uid && t.1@ == v.name && t.2@ == v.datasource_type,
                (None, None) => true,
                _ => false,
            },
    {
        match self.position(key) {
            Some(i) => {
                let e = &self.entries[i];
                Some((e.1.0.clone(), e.1.1.clone(), e.1.2.clone()))
            },
            None => None,
        }
    }

    /// Stores `value` under `key`, replacing an earlier value.
    fn insert(&mut self, key: String, value: (String, String, String))
        requires
            old(self).well_formed(),
        ensures
            final(self).well_formed(),
            forall|k: Seq<char>| #[trigger] final(self).get_spec(k) == if k == key@ {
                Some(IdentityView { uid: value.0@, name: value.1@, datasource_type: value.2@ })
            } else {
                old(self).get_spec(k)
            },
    {
        let ghost old_entries = self.entries@;
        match self.position(key.as_str()) {
            Some(i) => {
                self.entries.set(i, (key, value));
                assert forall|k: Seq<char>| #[trigger] self.get_spec(k) == if k == key@ {
                    Some(IdentityView { uid: value.0@, name: value.1@, datasource_type: value.2@ })
                } else {
                    old(self).get_spec(k)
                } by {
                    if k == key@ {
                        let j = choose|j: int| 0 <= j < self.entries@.len() && self.entries@[j].0@ == k;
                        assert(self.entries@[i as int].0@ == k);
                        if j != i {
                            assert(old_entries[j].0@ == k && old_entries[i as int].0@ == k);
                        }
                    } else {
                        if exists|j: int| 0 <= j < old_entries.len() && old_entries[j].0@ == k {
                            let j = choose|j: int| 0 <= j < old_entries.len() && old_entries[j].0@ == k;
                            assert(self.entries@[j].0@ == k);
                            let j2 = choose|j2: int| 0 <= j2 < self.entries@.len() && self.entries@[j2].0@ == k;
                            assert(old_entries[j2].0@ == k);
                        } else {
                            assert forall|j: int| 0 <= j < self.entries@.len() implies self.entries@[j].0@ != k by {
                                if j != i {
                                    assert(old_entries[j].0@ != k);
                                }
                            }
                        }
                    }
                }
            },
            None => {
                self.entries.push((key, value));
                assert forall|k: Seq<char>| #[trigger] self.get_spec(k) == if k == key@ {
                    Some(IdentityView { uid: value.0@, name: value.1@, datasource_type: value.2@ })
                } else {
                    old(self).get_spec(k)
                } by {
                    let n = old_entries.len() as int;
                    if k == key@ {
                        assert(self.entries@[n].0@ == k);
                        let j = choose|j: int| 0 <= j < self.entries@.len() && self.entries@[j].0@ == k;
                        if j != n {
                            assert(old_entries[j].0@ == k);
                        }
                    } else {
                        if exists|j: int| 0 <= j < old_entries.len() && old_entries[j].0@ == k {
                            let j = choose|j: int| 0 <= j < old_entries.len() && old_entries[j].0@ == k;
                            assert(self.entries@[j].0@ == k);
                            let j2 = choose|j2: int| 0 <= j2 < self.entries@.len() && self.entries@[j2].0@ == k;
                            assert(old_entries[j2].0@ == k);
                        } else {
                            assert forall|j: int| 0 <= j < self.entries@.len() implies self.entries@[j].0@ != k by {
                                if j != n {
                                    assert(old_entries[j].0@ != k);
                                }
                            }
                        }
                    }
                }
            },
        }
    }
}

/// The lookups by UID and by name of the summary's datasource inventory;
/// blank keys are left out and a later entry replaces an earlier one.
pub fn build_inventory_lookup(summary: &ExportInspectionSummary) -> (r: (InventoryLookup, InventoryLookup))
    ensures
        r.0.well_formed(),
        r.1.well_formed(),
        forall|k: Seq<char>| #[trigger] r.0.get_spec(k) == inventory_by_uid(
            inventory_views(summary.datasource_inventory@),
            k,
        ),
        forall|k: Seq<char>| #[trigger] r.1.get_spec(k) == inventory_by_name(
            inventory_views(summary.datasource_inventory@),
            k,
        ),
{
    let ghost inv = inventory_views(summary.datasource_inventory@);
    let mut by_uid = InventoryLookup { entries: Vec::new() };
    let mut by_name = InventoryLookup { entries: Vec::new() };
    let mut i: usize = 0;
    while i < summary.datasource_inventory.len()
        invariant
            i <= summary.datasource_inventory@.len(),
            inv == inventory_views(summary.datasource_inventory@),
            by_uid.well_formed(),
            by_name.well_formed(),
            forall|k: Seq<char>| #[trigger] by_uid.get_spec(k) == inventory_by_uid(inv.take(i as int), k),
            forall|k: Seq<char>| #[trigger] by_name.get_spec(k) == inventory_by_name(inv.take(i as int), k),
        decreases summary.datasource_inventory.len() - i,
    {
        let d = &summary.datasource_inventory[i];
        proof {
            assert(inv.take(i + 1).drop_last() == inv.take(i as int));
            assert(inv.take(i + 1).last() == d@);
        }
        if !is_blank_str(d.uid.as_str()) {
            by_uid.insert(
                d.uid.clone(),
                (d.uid.clone(), d.name.clone(), d.datasource_type.clone()),
            );
        }
        if !is_blank_str(d.name.as_str()) {
            by_name.insert(
                d.name.clone(),
                (d.uid.clone(), d.name.clone(), d.datasource_type.clone()),
            );
        }
        i = i + 1;
    }
    assert(inv.take(summary.datasource_inventory@.len() as int) == inv);
    (by_uid, by_name)
}


/// The datasource identity a query row resolves to, given the lookups: the
/// inventory entry under the row's UID, else under its datasource label (as
/// a UID, then as a name), else the row's own labels with a type that is
/// kept only for search and tracing families.
pub open spec fn identity_with(r: QueryRowView, by_uid: InventoryLookup, by_name: InventoryLookup) -> IdentityView {
    let fam = family_of(r.datasource_type);
    let dtype = if fam == "search"@ || fam == "tracing"@ {
        r.datasource_type
    } else {
        "unknown"@
    };
    if !is_blank(r.datasource_uid) && by_uid.get_spec(r.datasource_uid) is Some {
        by_uid.get_spec(r.datasource_uid).unwrap()
    } else if !is_blank(r.datasource) && by_uid.get_spec(r.datasource) is Some {
        by_uid.get_spec(r.datasource).unwrap()
    } else if !is_blank(r.datasource) && by_name.get_spec(r.datasource) is Some {
        by_name.get_spec(r.datasource).unwrap()
    } else if !is_blank(r.datasource_uid) {
        IdentityView {
            uid: r.datasource_uid,
            name: if is_blank(r.datasource) {
                r.datasource_uid
            } else {
                r.datasource
            },
            datasource_type: dtype,
        }
    } else if !is_blank(r.datasource) {
        IdentityView { uid: r.datasource, name: r.datasource, datasource_type: dtype }
    } else {
        IdentityView { uid: "unknown"@, name: "unknown"@, datasource_type: dtype }
    }
}

/// The datasource identity of a query row against the summary's inventory.
pub open spec fn identity_for(r: QueryRowView, inv: Seq<InventoryView>) -> IdentityView {
    let fam = family_of(r.datasource_type);
    let dtype = if fam == "search"@ || fam == "tracing"@ {
        r.datasource_type
    } else {
        "unknown"@
    };
    if !is_blank(r.datasource_uid) && inventory_by_uid(inv, r.datasource_uid) is Some {
        inventory_by_uid(inv, r.datasource_uid).unwrap()
    } else if !is_blank(r.datasource) && inventory_by_uid(inv, r.datasource) is Some {
        inventory_by_uid(inv, r.datasource).unwrap()
    } else if !is_blank(r.datasource) && inventory_by_name(inv, r.datasource) is Some {
        inventory_by_name(inv, r.datasource).unwrap()
    } else if !is_blank(r.datasource_uid) {
        IdentityView {
            uid: r.datasource_uid,
            name: if is_blank(r.datasource) {
                r.datasource_uid
            } else {
                r.datasource
            },
            datasource_type: dtype,
        }
    } else if !is_blank(r.datasource) {
        IdentityView { uid: r.datasource, name: r.datasource, datasource_type: dtype }
    } else {
        IdentityView { uid: "unknown"@, name: "unknown"@, datasource_type: dtype }
    }
}

/// A resolved datasource identity.
#[derive(Debug)]
pub struct ResolvedDatasourceIdentity {
    pub uid: String,
    pub name: String,
    pub datasource_type: String,
}

impl View for ResolvedDatasourceIdentity {
    type V = IdentityView;

    open spec fn view(&self) -> IdentityView {
        IdentityView { uid: self.uid@, name: self.name@, datasource_type: self.datasource_type@ }
    }
}

/// Resolves the datasource a query row uses against the inventory lookups.
pub fn resolve_datasource_identity(
    row: &ExportInspectionQueryRow,
    inventory_by_uid: &InventoryLookup,
    inventory_by_name: &InventoryLookup,
) -> (id: ResolvedDatasourceIdentity)
    requires
        inventory_by_uid.well_formed(),
        inventory_by_name.well_formed(),
    ensures
        id@ == identity_with(row@, *inventory_by_uid, *inventory_by_name),
{
    let normalized_family = normalize_family_name(row.datasource_type.as_str());
    let datasource_type = if crate::text::str_is(normalized_family.as_str(), "search")
        || crate::text::str_is(normalized_family.as_str(), "tracing") {
        row.datasource_type.clone()
    } else {
        owned("unknown")
    };
    let uid_blank = is_blank_str(row.datasource_uid.as_str());
    let name_blank = is_blank_str(row.datasource.as_str());
    if !uid_blank {
        if let Some((uid, name, t)) = inventory_by_uid.get(row.datasource_uid.as_str()) {
            return ResolvedDatasourceIdentity { uid, name, datasource_type: t };
        }
    }
    if !name_blank {
        if let Some((uid, name, t)) = inventory_by_uid.get(row.datasource.as_str()) {
            return ResolvedDatasourceIdentity { uid, name, datasource_type: t };
        }
        if let Some((uid, name, t)) = inventory_by_name.get(row.datasource.as_str()) {
            return ResolvedDatasourceIdentity { uid, name, datasource_type: t };
        }
    }
    if !uid_blank {
        return ResolvedDatasourceIdentity {
            uid: row.datasource_uid.clone(),
            name: if name_blank {
                row.datasource_uid.clone()
            } else {
                row.datasource.clone()
            },
            datasource_type,
        };
    }
    if !name_blank {
        return ResolvedDatasourceIdentity {
            uid: row.datasource.clone(),
            name: row.datasource.clone(),
            datasource_type,
        };
    }
    ResolvedDatasourceIdentity { uid: owned("unknown"), name: owned("unknown"), datasource_type }
}

/// Category, severity and recommendation of a governance risk kind.
pub open spec fn risk_spec_of(kind: Seq<char>) -> (Seq<char>, Seq<char>, Seq<char>) {
    if kind == "mixed-datasource-dashboard"@ {
        (
            "topology"@,
            "medium"@,
            "Split panel queries by datasource or document why mixed datasource composition is required."@,
        )
    } else if kind == "orphaned-datasource"@ {
        (
            "inventory"@,
            "low"@,
            "Remove the unused datasource or reattach it to retained dashboards before the next cleanup cycle."@,
        )
    } else if kind == "unknown-datasource-family"@ {
        (
            "coverage"@,
            "medium"@,
            "Map this datasource plugin type to a known governance family or extend analyzer support for it."@,
        )
    } else if kind == "empty-query-analysis"@ {
        (
            "coverage"@,
            "low"@,
            "Review the query text and extend analyzer coverage if this datasource family should emit governance signals."@,
        )
    } else if kind == "broad-loki-selector"@ {
        (
            "cost"@,
            "medium"@,
            "Narrow the Loki stream selector before running expensive line filters or aggregations."@,
        )
    } else {
        (
            "other"@,
            "low"@,
            "Review this governance finding and assign a follow-up owner if action is needed."@,
        )
    }
}

/// Category, severity and recommendation of a governance risk kind.
pub fn governance_risk_spec(kind: &str) -> (r: (String, String, String))
    ensures
        (r.0@, r.1@, r.2@) == risk_spec_of(kind@),
{
    if crate::text::str_is(kind, "mixed-datasource-dashboard") {
        (
            owned("topology"),
            owned("medium"),
            owned(
                "Split panel queries by datasource or document why mixed datasource composition is required.",
            ),
        )
    } else if crate::text::str_is(kind, "orphaned-datasource") {
        (
            owned("inventory"),
            owned("low"),
            owned(
                "Remove the unused datasource or reattach it to retained dashboards before the next cleanup cycle.",
            ),
        )
    } else if crate::text::str_is(kind, "unknown-datasource-family") {
        (
            owned("coverage"),
            owned("medium"),
            owned(
                "Map this datasource plugin type to a known governance family or extend analyzer support for it.",
            ),
        )
    } else if crate::text::str_is(kind, "empty-query-analysis") {
        (
            owned("coverage"),
            owned("low"),
            owned(
                "Review the query text and extend analyzer coverage if this datasource family should emit governance signals.",
            ),
        )
    } else if crate::text::str_is(kind, "broad-loki-selector") {
        (
            owned("cost"),
            owned("medium"),
            owned(
                "Narrow the Loki stream selector before running expensive line filters or aggregations.",
            ),
        )
    } else {
        (
            owned("other"),
            owned("low"),
            owned("Review this governance finding and assign a follow-up owner if action is needed."),
        )
    }
}

/// One governance finding.
#[derive(Debug)]
pub struct GovernanceRiskRow {
    pub kind: String,
    pub severity: String,
    pub category: String,
    pub dashboard_uid: String,
    pub panel_id: String,
    pub datasource: String,
    pub detail: String,
    pub recommendation: String,
}

pub ghost struct RiskView {
    pub kind: Seq<char>,
    pub severity: Seq<char>,
    pub category: Seq<char>,
    pub dashboard_uid: Seq<char>,
    pub panel_id: Seq<char>,
    pub datasource: Seq<char>,
    pub detail: Seq<char>,
    pub recommendation: Seq<char>,
}

impl View for GovernanceRiskRow {
    type V = RiskView;

    open spec fn view(&self) -> RiskView {
        RiskView {
            kind: self.kind@,
            severity: self.severity@,
            category: self.category@,
            dashboard_uid: self.dashboard_uid@,
            panel_id: self.panel_id@,
            datasource: self.datasource@,
            detail: self.detail@,
            recommendation: self.recommendation@,
        }
    }
}

/// The finding of a kind about a dashboard, panel and datasource.
pub open spec fn risk_row_of(
    kind: Seq<char>,
    dashboard_uid: Seq<char>,
    panel_id: Seq<char>,
    datasource: Seq<char>,
    detail: Seq<char>,
) -> RiskView {
    let (category, severity, recommendation) = risk_spec_of(kind);
    RiskView { kind, severity, category, dashboard_uid, panel_id, datasource, detail, recommendation }
}

/// A governance finding with the category, severity and recommendation of
/// its kind.
pub fn build_governance_risk_row(
    kind: &str,
    dashboard_uid: String,
    panel_id: String,
    datasource: String,
    detail: String,
) -> (r: GovernanceRiskRow)
    ensures
        r@ == risk_row_of(kind@, dashboard_uid@, panel_id@, datasource@, detail@),
{
    let (category, severity, recommendation) = governance_risk_spec(kind);
    GovernanceRiskRow {
        kind: owned(kind),
        severity,
        category,
        dashboard_uid,
        panel_id,
        datasource,
        detail,
        recommendation,
    }
}
} // verus!
