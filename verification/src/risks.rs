//! Governance risk records: one record per distinct finding, in the order
//! severity, kind, dashboard, panel, datasource.
use vstd::prelude::*;

use crate::coverage::{
    empty_analysis, inventory_key, inventory_key_of, orphans, resolve_identities, resolved_rows,
    row_family, ResolvedRow,
};
use crate::governance::{build_governance_risk_row, family_of, normalize_family_name, risk_row_of, GovernanceRiskRow, RiskView};
use crate::report::{row_views, ExportInspectionQueryReport};
use crate::strset::views;
use crate::summary::{inventory_views, is_orphaned, ExportInspectionSummary, InventoryView, MixedDashboardSummary};
use crate::text::{join, join_strings, owned, seq_lt};

verus! {

/// The finding of a mixed-datasource dashboard.
pub open spec fn mixed_risk(m: MixedDashboardSummary) -> RiskView {
    risk_row_of(
        "mixed-datasource-dashboard"@,
        m.uid@,
        Seq::empty(),
        join(views(m.datasources@), ","@),
        m.title@,
    )
}

/// The finding of an orphaned inventory datasource.
pub open spec fn orphan_risk(d: InventoryView) -> RiskView {
    risk_row_of("orphaned-datasource"@, Seq::empty(), Seq::empty(), inventory_key(d), d.datasource_type)
}

/// The findings of one query row: an unknown family, a broad Loki
/// selector, an empty query analysis, in that order.
pub open spec fn row_risks(x: ResolvedRow) -> Seq<RiskView> {
    let r = x.row;
    let unknown = if row_family(x) == "unknown"@ {
        seq![risk_row_of("unknown-datasource-family"@, r.dashboard_uid, r.panel_id, x.id.name, r.query_field)]
    } else {
        Seq::empty()
    };
    let loki = if row_family(x) == "loki"@ && crate::loki::first_broad_selector(r.query_text) is Some {
        seq![risk_row_of(
            "broad-loki-selector"@,
            r.dashboard_uid,
            r.panel_id,
            x.id.name,
            crate::loki::first_broad_selector(r.query_text).unwrap(),
        )]
    } else {
        Seq::empty()
    };
    let empty = if empty_analysis(r) {
        seq![risk_row_of("empty-query-analysis"@, r.dashboard_uid, r.panel_id, x.id.name, r.query_field)]
    } else {
        Seq::empty()
    };
    unknown + loki + empty
}

/// Every finding in the order the review meets them: mixed dashboards,
/// orphaned datasources, then the findings of each query row.
pub open spec fn risk_candidates(
    mixed: Seq<MixedDashboardSummary>,
    inv: Seq<InventoryView>,
    z: Seq<ResolvedRow>,
) -> Seq<RiskView> {
    mixed.map_values(|m: MixedDashboardSummary| mixed_risk(m)) + orphans(inv).map_values(
        |d: InventoryView| orphan_risk(d),
    ) + z.flat_map(|x: ResolvedRow| row_risks(x))
}

/// The sort key order: severity, kind, dashboard, panel, datasource.
pub open spec fn risk_key_lt(a: RiskView, b: RiskView) -> bool {
    seq_lt(a.severity, b.severity) || (a.severity == b.severity && (seq_lt(a.kind, b.kind) || (
    a.kind == b.kind && (seq_lt(a.dashboard_uid, b.dashboard_uid) || (a.dashboard_uid
        == b.dashboard_uid && (seq_lt(a.panel_id, b.panel_id) || (a.panel_id == b.panel_id
        && seq_lt(a.datasource, b.datasource))))))))
}

/// Where a stable insertion places `x`: before the first element it sorts
/// strictly before.
pub open spec fn stable_position(t: Seq<RiskView>, x: RiskView) -> int
    decreases t.len(),
{
    if t.len() == 0 {
        0
    } else if risk_key_lt(x, t[0]) {
        0
    } else {
        1 + stable_position(t.drop_first(), x)
    }
}

/// A stable sort by the risk key: the elements inserted one by one, each
/// after every element it does not sort strictly before.
pub open spec fn stable_sort(s: Seq<RiskView>) -> Seq<RiskView>
    decreases s.len(),
{
    if s.len() == 0 {
        Seq::empty()
    } else {
        let t = stable_sort(s.drop_last());
        t.insert(stable_position(t, s.last()), s.last())
    }
}

/// The risk records: the distinct findings, stably sorted by severity,
/// kind, dashboard, panel and datasource.
pub open spec fn risk_records(
    mixed: Seq<MixedDashboardSummary>,
    inv: Seq<InventoryView>,
    z: Seq<ResolvedRow>,
) -> Seq<RiskView> {
    stable_sort(risk_candidates(mixed, inv, z).remove_duplicates(Seq::empty()))
}

fn risk_less(a: &GovernanceRiskRow, b: &GovernanceRiskRow) -> (r: bool)
    ensures
        r == risk_key_lt(a@, b@),
{
    if crate::text::str_less(a.severity.as_str(), b.severity.as_str()) {
        return true;
    }
    if a.severity != b.severity {
        return false;
    }
    if crate::text::str_less(a.kind.as_str(), b.kind.as_str()) {
        return true;
    }
    if a.kind != b.kind {
        return false;
    }
    if crate::text::str_less(a.dashboard_uid.as_str(), b.dashboard_uid.as_str()) {
        return true;
    }
    if a.dashboard_uid != b.dashboard_uid {
        return false;
    }
    if crate::text::str_less(a.panel_id.as_str(), b.panel_id.as_str()) {
        return true;
    }
    if a.panel_id != b.panel_id {
        return false;
    }
    crate::text::str_less(a.datasource.as_str(), b.datasource.as_str())
}

fn same_risk(a: &GovernanceRiskRow, b: &GovernanceRiskRow) -> (r: bool)
    ensures
        r == (a@ == b@),
{
    a.kind == b.kind && a.severity == b.severity && a.category == b.category && a.dashboard_uid
        == b.dashboard_uid && a.panel_id == b.panel_id && a.datasource == b.datasource && a.detail
        == b.detail && a.recommendation == b.recommendation
}

pub open spec fn risk_views(v: Seq<GovernanceRiskRow>) -> Seq<RiskView> {
    v.map_values(|r: GovernanceRiskRow| r@)
}

/// Appends `r` unless an equal finding is already listed.
fn push_distinct(risks: &mut Vec<GovernanceRiskRow>, r: GovernanceRiskRow, Ghost(seen): Ghost<Seq<RiskView>>)
    requires
        risk_views(old(risks)@) == seen.remove_duplicates(Seq::empty()),
    ensures
        risk_views(final(risks)@) == seen.push(r@).remove_duplicates(Seq::empty()),
{
    let ghost rv = risk_views(risks@);
    let mut found = false;
    let mut i: usize = 0;
    while i < risks.len()
        invariant
            i <= risks@.len(),
            rv == risk_views(risks@),
            found ==> rv.contains(r@),
            !found ==> forall|q: int| 0 <= q < i ==> rv[q] != r@,
        decreases risks.len() - i,
    {
        if same_risk(&risks[i], &r) {
            assert(rv[i as int] == r@);
            found = true;
        }
        i = i + 1;
    }
    proof {
        seen.lemma_remove_duplicates_properties(Seq::empty());
        seen.lemma_remove_duplicates_append(r@, Seq::empty());
        assert(seen + Seq::<RiskView>::empty() == seen);
        assert(seen.push(r@) == seen + seq![r@]);
    }
    if !found {
        let ghost before = risks@;
        risks.push(r);
        proof {
            before.lemma_push_map_commute(|x: GovernanceRiskRow| x@, risks@.last());
            assert(risks@ == before.push(risks@.last()));
            assert(!rv.contains(r@));
            assert(!(seen + Seq::<RiskView>::empty()).contains(r@));
        }
    } else {
        assert((seen + Seq::<RiskView>::empty()).contains(r@));
    }
}

/// Stable insertion of `r` into a list sorted by the risk key.
fn insert_stable(sorted: &mut Vec<GovernanceRiskRow>, r: GovernanceRiskRow)
    ensures
        risk_views(final(sorted)@) == risk_views(old(sorted)@).insert(
            stable_position(risk_views(old(sorted)@), r@),
            r@,
        ),
{
    let ghost t = risk_views(sorted@);
    let mut pos: usize = 0;
    assert(t.skip(0) == t);
    while pos < sorted.len() && !risk_less(&r, &sorted[pos])
        invariant
            pos <= sorted@.len(),
            t == risk_views(sorted@),
            sorted@ == old(sorted)@,
            stable_position(t, r@) == pos + stable_position(t.skip(pos as int), r@),
        decreases sorted.len() - pos,
    {
        proof {
            assert(t.skip(pos as int).drop_first() == t.skip(pos + 1));
            assert(t.skip(pos as int)[0] == t[pos as int]);
        }
        pos = pos + 1;
    }
    proof {
        if pos < sorted@.len() {
            assert(t.skip(pos as int)[0] == t[pos as int]);
        } else {
            assert(t.skip(pos as int).len() == 0);
        }
    }
    let ghost before = sorted@;
    sorted.insert(pos, r);
    proof {
        assert(risk_views(sorted@) =~= t.insert(pos as int, r@));
    }
}

/// Governance risk records: each distinct finding once, stably sorted by
/// severity, kind, dashboard, panel and datasource.
pub fn build_governance_risk_rows(
    summary: &ExportInspectionSummary,
    report: &ExportInspectionQueryReport,
) -> (out: Vec<GovernanceRiskRow>)
    ensures
        risk_views(out@) == risk_records(
            summary.mixed_dashboards@,
            inventory_views(summary.datasource_inventory@),
            resolved_rows(row_views(report.queries@), inventory_views(summary.datasource_inventory@)),
        ),
{
    let ghost inv = inventory_views(summary.datasource_inventory@);
    let ghost z = resolved_rows(row_views(report.queries@), inv);
    let ghost mp = summary.mixed_dashboards@.map_values(|m: MixedDashboardSummary| mixed_risk(m));
    let ghost op = orphans(inv).map_values(|d: InventoryView| orphan_risk(d));
    let ghost rp = z.flat_map(|x: ResolvedRow| row_risks(x));
    let mut risks: Vec<GovernanceRiskRow> = Vec::new();
    let mut i: usize = 0;
    while i < summary.mixed_dashboards.len()
        invariant
            i <= summary.mixed_dashboards@.len(),
            mp == summary.mixed_dashboards@.map_values(|m: MixedDashboardSummary| mixed_risk(m)),
            risk_views(risks@) == mp.take(i as int).remove_duplicates(Seq::empty()),
        decreases summary.mixed_dashboards.len() - i,
    {
        let m = &summary.mixed_dashboards[i];
        let r = build_governance_risk_row(
            "mixed-datasource-dashboard",
            m.uid.clone(),
            String::new(),
            join_strings(m.datasources.as_slice(), ","),
            m.title.clone(),
        );
        assert(r@ == mp[i as int]);
        assert(mp.take(i + 1) == mp.take(i as int).push(mp[i as int]));
        push_distinct(&mut risks, r, Ghost(mp.take(i as int)));
        i = i + 1;
    }
    assert(mp.take(summary.mixed_dashboards@.len() as int) == mp);
    let ghost opred = |d: InventoryView| is_orphaned(d);
    let mut j: usize = 0;
    while j < summary.datasource_inventory.len()
        invariant
            j <= inv.len(),
            inv == inventory_views(summary.datasource_inventory@),
            opred == (|d: InventoryView| is_orphaned(d)),
            risk_views(risks@) == (mp + inv.take(j as int).filter(opred).map_values(
                |d: InventoryView| orphan_risk(d),
            )).remove_duplicates(Seq::empty()),
        decreases summary.datasource_inventory.len() - j,
    {
        let d = &summary.datasource_inventory[j];
        let ghost t = inv.take(j as int);
        proof {
            assert(inv.take(j + 1) == t.push(inv[j as int]));
            t.lemma_filter_push(inv[j as int], opred);
        }
        if d.reference_count == 0 && d.dashboard_count == 0 {
            let r = build_governance_risk_row(
                "orphaned-datasource",
                String::new(),
                String::new(),
                inventory_key_of(d),
                d.datasource_type.clone(),
            );
            proof {
                t.filter(opred).lemma_push_map_commute(|d: InventoryView| orphan_risk(d), inv[j as int]);
                assert(mp + t.push(inv[j as int]).filter(opred).map_values(|d: InventoryView| orphan_risk(d))
                    == (mp + t.filter(opred).map_values(|d: InventoryView| orphan_risk(d))).push(r@));
            }
            push_distinct(&mut risks, r, Ghost(mp + t.filter(opred).map_values(|d: InventoryView| orphan_risk(d))));
        }
        j = j + 1;
    }
    assert(inv.take(inv.len() as int) == inv);
    assert(orphans(inv) == inv.filter(opred));
    let ids = resolve_identities(summary, report);
    let mut k: usize = 0;
    while k < report.queries.len()
        invariant
            k <= report.queries@.len(),
            z == resolved_rows(row_views(report.queries@), inv),
            ids@.len() == z.len(),
            forall|q: int| 0 <= q < ids@.len() ==> #[trigger] ids@[q]@ == z[q].id,
            risk_views(risks@) == (mp + op + z.take(k as int).flat_map(|x: ResolvedRow| row_risks(x))).remove_duplicates(Seq::empty()),
        decreases report.queries.len() - k,
    {
        let row = &report.queries[k];
        let id = &ids[k];
        let ghost x = z[k as int];
        let ghost base = mp + op + z.take(k as int).flat_map(|x: ResolvedRow| row_risks(x));
        assert(ids@[k as int]@ == x.id);
        assert(x.row == row@);
        proof {
            z.take(k as int).lemma_flat_map_push(|x: ResolvedRow| row_risks(x), x);
            assert(z.take(k + 1) == z.take(k as int).push(x));
        }
        let family = normalize_family_name(id.datasource_type.as_str());
        let ghost acc0 = base;
        let ghost mut acc = base;
        if crate::text::str_is(family.as_str(), "unknown") {
            let r = build_governance_risk_row(
                "unknown-datasource-family",
                row.dashboard_uid.clone(),
                row.panel_id.clone(),
                id.name.clone(),
                row.query_field.clone(),
            );
            push_distinct(&mut risks, r, Ghost(acc));
            proof {
                acc = acc.push(r@);
            }
        }
        let ghost acc1 = acc;
        if crate::text::str_is(family.as_str(), "loki") {
            if let Some(selector) = crate::loki::find_broad_loki_selector(row.query_text.as_str()) {
                let r = build_governance_risk_row(
                    "broad-loki-selector",
                    row.dashboard_uid.clone(),
                    row.panel_id.clone(),
                    id.name.clone(),
                    selector,
                );
                push_distinct(&mut risks, r, Ghost(acc));
                proof {
                    acc = acc.push(r@);
                }
            }
        }
        let ghost acc2 = acc;
        if row.metrics.len() == 0 && row.functions.len() == 0 && row.measurements.len() == 0
            && row.buckets.len() == 0 {
            let r = build_governance_risk_row(
                "empty-query-analysis",
                row.dashboard_uid.clone(),
                row.panel_id.clone(),
                id.name.clone(),
                row.query_field.clone(),
            );
            push_distinct(&mut risks, r, Ghost(acc));
            proof {
                acc = acc.push(r@);
            }
        }
        proof {
            assert(acc =~= base + row_risks(x));
            assert(mp + op + z.take(k + 1).flat_map(|x: ResolvedRow| row_risks(x)) =~= base + row_risks(x));
        }
        k = k + 1;
    }
    proof {
        assert(z.take(report.queries@.len() as int) == z);
    }
    let ghost rest0 = risk_views(risks@);
    let mut sorted: Vec<GovernanceRiskRow> = Vec::new();
    let mut n: usize = 0;
    let mut rest = risks;
    assert(rest0.skip(0) == rest0);
    let total = rest.len();
    assert(rest0.len() == total);
    while rest.len() > 0
        invariant
            n <= rest0.len(),
            rest0.len() <= usize::MAX,
            risk_views(rest@) == rest0.skip(n as int),
            risk_views(sorted@) == stable_sort(rest0.take(n as int)),
        decreases rest.len(),
    {
        let ghost before = rest@;
        assert(risk_views(before).len() == before.len());
        assert(n < rest0.len());
        assert(risk_views(before)[0] == before[0]@);
        assert(rest0.skip(n as int)[0] == rest0[n as int]);
        let r = rest.remove(0);
        proof {
            assert(r@ == rest0[n as int]);
            assert(rest0.take(n + 1).drop_last() == rest0.take(n as int));
            assert(rest0.take(n + 1).last() == r@);
            assert forall|i: int| 0 <= i < rest@.len() implies risk_views(rest@)[i] == rest0.skip(n + 1)[i] by {
                assert(rest@[i] == before[i + 1]);
                assert(risk_views(before)[i + 1] == rest0.skip(n as int)[i + 1]);
            }
            assert(risk_views(rest@) =~= rest0.skip(n + 1));
        }
        insert_stable(&mut sorted, r);
        n = n + 1;
    }
    proof {
        assert(rest0.take(n as int) == rest0);
    }
    sorted
}

} // verus!
