//! Datasource roll-ups of the governance review. Each roll-up first lists
//! its keys in increasing order, as the ordered maps of the review iterate
//! them, and then gathers, for each key, the rows and inventory entries that
//! belong to it.
use vstd::prelude::*;

use crate::governance::{
    build_inventory_lookup, family_of, identity_for, normalize_family_name,
    resolve_datasource_identity, IdentityView, InventoryLookup, ResolvedDatasourceIdentity,
};
use crate::report::{row_views, ExportInspectionQueryReport, QueryRowView};
use crate::strset::{lemma_sorted_no_duplicates, lists, set_insert, sorted_strict, views};
use crate::summary::{inventory_views, is_orphaned, ExportInspectionSummary, InventoryView};
use crate::text::{is_blank, is_blank_str, owned};

verus! {

/// A query row with the datasource identity it resolves to.
pub ghost struct ResolvedRow {
    pub row: QueryRowView,
    pub id: IdentityView,
}

/// The report's rows, each with its resolved identity.
pub open spec fn resolved_rows(rows: Seq<QueryRowView>, inv: Seq<InventoryView>) -> Seq<ResolvedRow> {
    Seq::new(rows.len(), |i: int| ResolvedRow { row: rows[i], id: identity_for(rows[i], inv) })
}

/// The key of a panel: `dashboard_uid:panel_id`.
pub open spec fn panel_key(r: QueryRowView) -> Seq<char> {
    r.dashboard_uid + ":"@ + r.panel_id
}

pub proof fn lemma_filter_map_set_push<A, B>(s: Seq<A>, x: A, p: spec_fn(A) -> bool, f: spec_fn(A) -> B)
    ensures
        s.push(x).filter(p).map_values(f).to_set() == if p(x) {
            s.filter(p).map_values(f).to_set().insert(f(x))
        } else {
            s.filter(p).map_values(f).to_set()
        },
        s.push(x).filter(p).len() == if p(x) {
            s.filter(p).len() + 1
        } else {
            s.filter(p).len() + 0
        },
{
    s.lemma_filter_push(x, p);
    if p(x) {
        s.filter(p).lemma_push_map_commute(f, x);
        s.filter(p).map_values(f).lemma_push_to_set_commute(f(x));
    }
}

/// The identities of the report's rows, resolved once.
pub fn resolve_identities(
    summary: &ExportInspectionSummary,
    report: &ExportInspectionQueryReport,
) -> (ids: Vec<ResolvedDatasourceIdentity>)
    ensures
        ids@.len() == report.queries@.len(),
        forall|i: int| 0 <= i < ids@.len() ==> #[trigger] ids@[i]@ == identity_for(
            row_views(report.queries@)[i],
            inventory_views(summary.datasource_inventory@),
        ),
{
    let (by_uid, by_name) = build_inventory_lookup(summary);
    let ghost inv = inventory_views(summary.datasource_inventory@);
    let mut ids: Vec<ResolvedDatasourceIdentity> = Vec::new();
    let mut i: usize = 0;
    while i < report.queries.len()
        invariant
            i <= report.queries@.len(),
            ids@.len() == i,
            inv == inventory_views(summary.datasource_inventory@),
            by_uid.well_formed(),
            by_name.well_formed(),
            forall|k: Seq<char>| #[trigger] by_uid.get_spec(k) == crate::governance::inventory_by_uid(inv, k),
            forall|k: Seq<char>| #[trigger] by_name.get_spec(k) == crate::governance::inventory_by_name(inv, k),
            forall|q: int| 0 <= q < i ==> #[trigger] ids@[q]@ == identity_for(
                row_views(report.queries@)[q],
                inv,
            ),
        decreases report.queries.len() - i,
    {
        let id = resolve_datasource_identity(&report.queries[i], &by_uid, &by_name);
        ids.push(id);
        i = i + 1;
    }
    ids
}

/// One row of the datasource-family coverage.
#[derive(Debug)]
pub struct DatasourceFamilyCoverageRow {
    pub family: String,
    pub datasource_types: Vec<String>,
    pub datasource_count: usize,
    pub orphaned_datasource_count: usize,
    pub dashboard_count: usize,
    pub panel_count: usize,
    pub query_count: usize,
}

/// The family a resolved row counts under.
pub open spec fn row_family(z: ResolvedRow) -> Seq<char> {
    family_of(z.id.datasource_type)
}

/// The inventory entries that no dashboard uses.
pub open spec fn orphans(inv: Seq<InventoryView>) -> Seq<InventoryView> {
    inv.filter(|d: InventoryView| is_orphaned(d))
}

/// The families of the coverage: those of the rows and of orphaned entries.
pub open spec fn coverage_families(z: Seq<ResolvedRow>, inv: Seq<InventoryView>) -> Set<Seq<char>> {
    z.map_values(|r: ResolvedRow| row_family(r)).to_set() + orphans(inv).map_values(
        |d: InventoryView| family_of(d.datasource_type),
    ).to_set()
}

/// The rows of a family.
pub open spec fn family_rows(z: Seq<ResolvedRow>, f: Seq<char>) -> Seq<ResolvedRow> {
    z.filter(|r: ResolvedRow| row_family(r) == f)
}

/// The orphaned entries of a family.
pub open spec fn family_orphans(inv: Seq<InventoryView>, f: Seq<char>) -> Seq<InventoryView> {
    orphans(inv).filter(|d: InventoryView| family_of(d.datasource_type) == f)
}

/// The coverage of one family: the datasource types seen (blank types of
/// orphaned entries left out), distinct datasources, dashboards and panels,
/// queries, and orphaned entries.
pub open spec fn family_coverage_ok(
    r: DatasourceFamilyCoverageRow,
    z: Seq<ResolvedRow>,
    inv: Seq<InventoryView>,
) -> bool {
    let f = r.family@;
    let g = family_rows(z, f);
    let o = family_orphans(inv, f);
    &&& lists(
        views(r.datasource_types@),
        g.map_values(|x: ResolvedRow| x.id.datasource_type).to_set() + o.filter(
            |d: InventoryView| !is_blank(d.datasource_type),
        ).map_values(|d: InventoryView| d.datasource_type).to_set(),
    )
    &&& r.datasource_count == g.map_values(|x: ResolvedRow| x.id.uid).to_set().len()
    &&& r.dashboard_count == g.map_values(|x: ResolvedRow| x.row.dashboard_uid).to_set().len()
    &&& r.panel_count == g.map_values(|x: ResolvedRow| panel_key(x.row)).to_set().len()
    &&& r.query_count == g.len()
    &&& r.orphaned_datasource_count == o.len()
}

/// `dashboard_uid:panel_id` of a row.
pub fn panel_key_of(r: &crate::report::ExportInspectionQueryRow) -> (k: String)
    ensures
        k@ == panel_key(r@),
{
    let mut k = r.dashboard_uid.clone();
    k.append(":");
    k.append(r.panel_id.as_str());
    k
}

/// Datasource-family coverage: per family, in increasing order, the types,
/// datasources, dashboards, panels and queries of its rows and its orphaned
/// inventory entries.
pub fn build_datasource_family_coverage_rows(
    summary: &ExportInspectionSummary,
    report: &ExportInspectionQueryReport,
) -> (out: Vec<DatasourceFamilyCoverageRow>)
    ensures
        ({
            let z = resolved_rows(
                row_views(report.queries@),
                inventory_views(summary.datasource_inventory@),
            );
            let inv = inventory_views(summary.datasource_inventory@);
            &&& lists(
                out@.map_values(|r: DatasourceFamilyCoverageRow| r.family@),
                coverage_families(z, inv),
            )
            &&& forall|i: int| 0 <= i < out@.len() ==> family_coverage_ok(#[trigger] out@[i], z, inv)
        }),
{
    let ghost inv = inventory_views(summary.datasource_inventory@);
    let ghost rows = row_views(report.queries@);
    let ghost z = resolved_rows(rows, inv);
    let ids = resolve_identities(summary, report);
    let mut fams: Vec<String> = Vec::new();
    let mut i: usize = 0;
    while i < ids.len()
        invariant
            i <= ids@.len(),
            ids@.len() == z.len(),
            z == resolved_rows(rows, inv),
            rows == row_views(report.queries@),
            inv == inventory_views(summary.datasource_inventory@),
            forall|q: int| 0 <= q < ids@.len() ==> #[trigger] ids@[q]@ == z[q].id,
            fams@.len() == i,
            forall|q: int| 0 <= q < i ==> #[trigger] fams@[q]@ == row_family(z[q]),
        decreases ids.len() - i,
    {
        assert(ids@[i as int]@ == z[i as int].id);
        fams.push(normalize_family_name(ids[i].datasource_type.as_str()));
        i = i + 1;
    }
    let mut keys: Vec<String> = Vec::new();
    let ghost zf = z.map_values(|r: ResolvedRow| row_family(r));
    let mut i: usize = 0;
    while i < fams.len()
        invariant
            i <= fams@.len(),
            fams@.len() == z.len(),
            forall|q: int| 0 <= q < fams@.len() ==> #[trigger] fams@[q]@ == row_family(z[q]),
            zf == z.map_values(|r: ResolvedRow| row_family(r)),
            sorted_strict(views(keys@)),
            views(keys@).to_set() == zf.take(i as int).to_set(),
        decreases fams.len() - i,
    {
        proof {
            assert(zf.take(i + 1) == zf.take(i as int).push(zf[i as int]));
            zf.take(i as int).lemma_push_to_set_commute(zf[i as int]);
        }
        set_insert(&mut keys, fams[i].clone());
        i = i + 1;
    }
    assert(zf.take(fams.len() as int) == zf);
    let ghost of = orphans(inv).map_values(|d: InventoryView| family_of(d.datasource_type));
    let ghost op = |d: InventoryView| is_orphaned(d);
    let mut inv_fams: Vec<String> = Vec::new();
    let mut j: usize = 0;
    while j < summary.datasource_inventory.len()
        invariant
            j <= summary.datasource_inventory@.len(),
            inv == inventory_views(summary.datasource_inventory@),
            op == (|d: InventoryView| is_orphaned(d)),
            sorted_strict(views(keys@)),
            views(keys@).to_set() == zf.to_set() + inv.take(j as int).filter(op).map_values(
                |d: InventoryView| family_of(d.datasource_type),
            ).to_set(),
            inv_fams@.len() == j,
            forall|q: int| 0 <= q < j ==> #[trigger] inv_fams@[q]@ == family_of(inv[q].datasource_type),
        decreases summary.datasource_inventory.len() - j,
    {
        let d = &summary.datasource_inventory[j];
        let f = normalize_family_name(d.datasource_type.as_str());
        proof {
            assert(inv.take(j + 1) == inv.take(j as int).push(inv[j as int]));
            lemma_filter_map_set_push(inv.take(j as int), inv[j as int], op, |d: InventoryView| family_of(d.datasource_type));
        }
        if d.reference_count == 0 && d.dashboard_count == 0 {
            set_insert(&mut keys, f.clone());
        }
        inv_fams.push(f);
        j = j + 1;
    }
    assert(inv.take(summary.datasource_inventory@.len() as int) == inv);
    assert(views(keys@).to_set() =~= coverage_families(z, inv));
    let mut out: Vec<DatasourceFamilyCoverageRow> = Vec::new();
    let mut k: usize = 0;
    while k < keys.len()
        invariant
            k <= keys@.len(),
            lists(views(keys@), coverage_families(z, inv)),
            z == resolved_rows(rows, inv),
            rows == row_views(report.queries@),
            inv == inventory_views(summary.datasource_inventory@),
            ids@.len() == z.len(),
            fams@.len() == z.len(),
            forall|q: int| 0 <= q < ids@.len() ==> #[trigger] ids@[q]@ == z[q].id,
            forall|q: int| 0 <= q < fams@.len() ==> #[trigger] fams@[q]@ == row_family(z[q]),
            inv_fams@.len() == inv.len(),
            forall|q: int| 0 <= q < inv_fams@.len() ==> #[trigger] inv_fams@[q]@ == family_of(inv[q].datasource_type),
            out@.len() == k,
            forall|q: int| 0 <= q < k ==> (#[trigger] out@[q]).family@ == views(keys@)[q],
            forall|q: int| 0 <= q < k ==> family_coverage_ok(#[trigger] out@[q], z, inv),
        decreases keys.len() - k,
    {
        let row = family_row(summary, report, &ids, &fams, &inv_fams, &keys[k], Ghost(z), Ghost(inv));
        out.push(row);
        k = k + 1;
    }
    assert(out@.map_values(|r: DatasourceFamilyCoverageRow| r.family@) =~= views(keys@));
    out
}

fn family_row(
    summary: &ExportInspectionSummary,
    report: &ExportInspectionQueryReport,
    ids: &Vec<ResolvedDatasourceIdentity>,
    fams: &Vec<String>,
    inv_fams: &Vec<String>,
    f: &String,
    Ghost(z): Ghost<Seq<ResolvedRow>>,
    Ghost(inv): Ghost<Seq<InventoryView>>,
) -> (r: DatasourceFamilyCoverageRow)
    requires
        z == resolved_rows(row_views(report.queries@), inv),
        inv == inventory_views(summary.datasource_inventory@),
        ids@.len() == z.len(),
        fams@.len() == z.len(),
        forall|q: int| 0 <= q < ids@.len() ==> #[trigger] ids@[q]@ == z[q].id,
        forall|q: int| 0 <= q < fams@.len() ==> #[trigger] fams@[q]@ == row_family(z[q]),
        inv_fams@.len() == inv.len(),
        forall|q: int| 0 <= q < inv_fams@.len() ==> #[trigger] inv_fams@[q]@ == family_of(inv[q].datasource_type),
    ensures
        r.family@ == f@,
        family_coverage_ok(r, z, inv),
{
    let ghost p = |x: ResolvedRow| row_family(x) == f@;
    let ghost ft = |x: ResolvedRow| x.id.datasource_type;
    let ghost fu = |x: ResolvedRow| x.id.uid;
    let ghost fd = |x: ResolvedRow| x.row.dashboard_uid;
    let ghost fp = |x: ResolvedRow| panel_key(x.row);
    let mut types: Vec<String> = Vec::new();
    let mut uids: Vec<String> = Vec::new();
    let mut dashboards: Vec<String> = Vec::new();
    let mut panels: Vec<String> = Vec::new();
    let mut count: usize = 0;
    let mut i: usize = 0;
    while i < ids.len()
        invariant
            i <= ids@.len(),
            z == resolved_rows(row_views(report.queries@), inv),
            ids@.len() == z.len(),
            fams@.len() == z.len(),
            forall|q: int| 0 <= q < ids@.len() ==> #[trigger] ids@[q]@ == z[q].id,
            forall|q: int| 0 <= q < fams@.len() ==> #[trigger] fams@[q]@ == row_family(z[q]),
            p == (|x: ResolvedRow| row_family(x) == f@),
            ft == (|x: ResolvedRow| x.id.datasource_type),
            fu == (|x: ResolvedRow| x.id.uid),
            fd == (|x: ResolvedRow| x.row.dashboard_uid),
            fp == (|x: ResolvedRow| panel_key(x.row)),
            sorted_strict(views(types@)),
            sorted_strict(views(uids@)),
            sorted_strict(views(dashboards@)),
            sorted_strict(views(panels@)),
            views(types@).to_set() == z.take(i as int).filter(p).map_values(ft).to_set(),
            views(uids@).to_set() == z.take(i as int).filter(p).map_values(fu).to_set(),
            views(dashboards@).to_set() == z.take(i as int).filter(p).map_values(fd).to_set(),
            views(panels@).to_set() == z.take(i as int).filter(p).map_values(fp).to_set(),
            count == z.take(i as int).filter(p).len(),
        decreases ids.len() - i,
    {
        assert(ids@[i as int]@ == z[i as int].id);
        assert(fams@[i as int]@ == row_family(z[i as int]));
        proof {
            assert(z.take(i + 1) == z.take(i as int).push(z[i as int]));
            lemma_filter_map_set_push(z.take(i as int), z[i as int], p, ft);
            lemma_filter_map_set_push(z.take(i as int), z[i as int], p, fu);
            lemma_filter_map_set_push(z.take(i as int), z[i as int], p, fd);
            lemma_filter_map_set_push(z.take(i as int), z[i as int], p, fp);
        }
        if fams[i] == *f {
            assert(z[i as int].row == report.queries@[i as int]@);
            set_insert(&mut types, ids[i].datasource_type.clone());
            set_insert(&mut uids, ids[i].uid.clone());
            set_insert(&mut dashboards, report.queries[i].dashboard_uid.clone());
            set_insert(&mut panels, panel_key_of(&report.queries[i]));
            proof {
                assert(z.take(i as int).filter(p).len() <= i) by {
                    z.take(i as int).lemma_filter_len(p);
                }
            }
            count = count + 1;
        }
        i = i + 1;
    }
    assert(z.take(ids.len() as int) == z);
    let ghost o = orphans(inv);
    let ghost op = |d: InventoryView| is_orphaned(d);
    let ghost pf = |d: InventoryView| family_of(d.datasource_type) == f@;
    let ghost pt = |d: InventoryView| !is_blank(d.datasource_type);
    let ghost gt = |d: InventoryView| d.datasource_type;
    let ghost base = z.filter(p).map_values(ft).to_set();
    let mut orphaned: usize = 0;
    let mut j: usize = 0;
    while j < summary.datasource_inventory.len()
        invariant
            j <= inv.len(),
            inv == inventory_views(summary.datasource_inventory@),
            inv_fams@.len() == inv.len(),
            forall|q: int| 0 <= q < inv_fams@.len() ==> #[trigger] inv_fams@[q]@ == family_of(inv[q].datasource_type),
            op == (|d: InventoryView| is_orphaned(d)),
            pf == (|d: InventoryView| family_of(d.datasource_type) == f@),
            pt == (|d: InventoryView| !is_blank(d.datasource_type)),
            gt == (|d: InventoryView| d.datasource_type),
            sorted_strict(views(types@)),
            views(types@).to_set() == base + inv.take(j as int).filter(op).filter(pf).filter(pt).map_values(gt).to_set(),
            orphaned == inv.take(j as int).filter(op).filter(pf).len(),
        decreases summary.datasource_inventory.len() - j,
    {
        let d = &summary.datasource_inventory[j];
        proof {
            let t = inv.take(j as int);
            let x = inv[j as int];
            assert(inv.take(j + 1) == t.push(x));
            t.lemma_filter_push(x, op);
            t.filter(op).lemma_filter_push(x, pf);
            t.filter(op).filter(pf).lemma_filter_push(x, pt);
            lemma_filter_map_set_push(t.filter(op).filter(pf), x, pt, gt);
            assert(t.filter(op).filter(pf).len() <= j) by {
                t.lemma_filter_len(op);
                t.filter(op).lemma_filter_len(pf);
            }
        }
        if d.reference_count == 0 && d.dashboard_count == 0 && inv_fams[j] == *f {
            if !is_blank_str(d.datasource_type.as_str()) {
                set_insert(&mut types, d.datasource_type.clone());
            }
            orphaned = orphaned + 1;
        }
        j = j + 1;
    }
    proof {
        assert(inv.take(inv.len() as int) == inv);
        assert(family_orphans(inv, f@) == inv.filter(op).filter(pf));
        lemma_sorted_no_duplicates(views(uids@));
        lemma_sorted_no_duplicates(views(dashboards@));
        lemma_sorted_no_duplicates(views(panels@));
    }
    DatasourceFamilyCoverageRow {
        family: f.clone(),
        datasource_types: types,
        datasource_count: uids.len(),
        orphaned_datasource_count: orphaned,
        dashboard_count: dashboards.len(),
        panel_count: panels.len(),
        query_count: count,
    }
}


/// Coverage of one datasource.
#[derive(Debug)]
pub struct DatasourceCoverageRow {
    pub datasource_uid: String,
    pub datasource: String,
    pub family: String,
    pub query_count: usize,
    pub dashboard_count: usize,
    pub panel_count: usize,
    pub dashboard_uids: Vec<String>,
    pub query_fields: Vec<String>,
    pub orphaned: bool,
}

/// The key of an inventory entry: its UID, or its name when the UID is
/// blank.
pub open spec fn inventory_key(d: InventoryView) -> Seq<char> {
    if is_blank(d.uid) {
        d.name
    } else {
        d.uid
    }
}

/// The last inventory entry with a key.
pub open spec fn last_with_key(inv: Seq<InventoryView>, k: Seq<char>) -> Option<InventoryView>
    decreases inv.len(),
{
    if inv.len() == 0 {
        None
    } else if inventory_key(inv.last()) == k {
        Some(inv.last())
    } else {
        last_with_key(inv.drop_last(), k)
    }
}

/// The rows resolved to a datasource UID.
pub open spec fn uid_rows(z: Seq<ResolvedRow>, k: Seq<char>) -> Seq<ResolvedRow> {
    z.filter(|r: ResolvedRow| r.id.uid == k)
}

/// The datasources of the coverage: inventory keys and resolved UIDs.
pub open spec fn coverage_keys(z: Seq<ResolvedRow>, inv: Seq<InventoryView>) -> Set<Seq<char>> {
    inv.map_values(|d: InventoryView| inventory_key(d)).to_set() + z.map_values(
        |r: ResolvedRow| r.id.uid,
    ).to_set()
}

/// The name and family a datasource is shown with: those of its last
/// inventory entry, else those its first row resolves to.
pub open spec fn coverage_label(z: Seq<ResolvedRow>, inv: Seq<InventoryView>, k: Seq<char>) -> (
    Seq<char>,
    Seq<char>,
) {
    match last_with_key(inv, k) {
        Some(d) => (d.name, family_of(d.datasource_type)),
        None => {
            let r = uid_rows(z, k)[0];
            (r.id.name, family_of(r.id.datasource_type))
        },
    }
}

/// The coverage of one datasource: its label, queries, dashboards, panels,
/// non-blank query fields, and whether it is an orphaned inventory entry
/// that no query uses.
pub open spec fn datasource_coverage_ok(
    r: DatasourceCoverageRow,
    z: Seq<ResolvedRow>,
    inv: Seq<InventoryView>,
) -> bool {
    let k = r.datasource_uid@;
    let g = uid_rows(z, k);
    let label = coverage_label(z, inv, k);
    &&& r.datasource@ == label.0
    &&& r.family@ == label.1
    &&& r.query_count == g.len()
    &&& lists(views(r.dashboard_uids@), g.map_values(|x: ResolvedRow| x.row.dashboard_uid).to_set())
    &&& r.dashboard_count == g.map_values(|x: ResolvedRow| x.row.dashboard_uid).to_set().len()
    &&& r.panel_count == g.map_values(|x: ResolvedRow| panel_key(x.row)).to_set().len()
    &&& lists(
        views(r.query_fields@),
        g.map_values(|x: ResolvedRow| x.row.query_field).filter(|q: Seq<char>| !is_blank(q)).to_set(),
    )
    &&& r.orphaned == (g.len() == 0 && match last_with_key(inv, k) {
        Some(d) => is_orphaned(d),
        None => false,
    })
}

/// The key of an inventory entry.
pub fn inventory_key_of(d: &crate::summary::DatasourceInventorySummary) -> (k: String)
    ensures
        k@ == inventory_key(d@),
{
    if is_blank_str(d.uid.as_str()) {
        d.name.clone()
    } else {
        d.uid.clone()
    }
}

/// The keys of the datasource coverage, in increasing order.
fn collect_coverage_keys(
    summary: &ExportInspectionSummary,
    ids: &Vec<ResolvedDatasourceIdentity>,
    Ghost(z): Ghost<Seq<ResolvedRow>>,
    Ghost(inv): Ghost<Seq<InventoryView>>,
) -> (keys: Vec<String>)
    requires
        inv == inventory_views(summary.datasource_inventory@),
        ids@.len() == z.len(),
        forall|q: int| 0 <= q < ids@.len() ==> #[trigger] ids@[q]@ == z[q].id,
    ensures
        lists(views(keys@), coverage_keys(z, inv)),
{
    let ghost ik = inv.map_values(|d: InventoryView| inventory_key(d));
    let mut keys: Vec<String> = Vec::new();
    let mut j: usize = 0;
    while j < summary.datasource_inventory.len()
        invariant
            j <= inv.len(),
            inv == inventory_views(summary.datasource_inventory@),
            ik == inv.map_values(|d: InventoryView| inventory_key(d)),
            sorted_strict(views(keys@)),
            views(keys@).to_set() == ik.take(j as int).to_set(),
        decreases summary.datasource_inventory.len() - j,
    {
        proof {
            assert(ik.take(j + 1) == ik.take(j as int).push(ik[j as int]));
            ik.take(j as int).lemma_push_to_set_commute(ik[j as int]);
        }
        set_insert(&mut keys, inventory_key_of(&summary.datasource_inventory[j]));
        j = j + 1;
    }
    assert(ik.take(inv.len() as int) == ik);
    let ghost zu = z.map_values(|r: ResolvedRow| r.id.uid);
    let mut i: usize = 0;
    while i < ids.len()
        invariant
            i <= ids@.len(),
            ids@.len() == z.len(),
            forall|q: int| 0 <= q < ids@.len() ==> #[trigger] ids@[q]@ == z[q].id,
            zu == z.map_values(|r: ResolvedRow| r.id.uid),
            sorted_strict(views(keys@)),
            views(keys@).to_set() == ik.to_set() + zu.take(i as int).to_set(),
        decreases ids.len() - i,
    {
        assert(ids@[i as int]@ == z[i as int].id);
        proof {
            assert(zu.take(i + 1) == zu.take(i as int).push(zu[i as int]));
            zu.take(i as int).lemma_push_to_set_commute(zu[i as int]);
        }
        set_insert(&mut keys, ids[i].uid.clone());
        i = i + 1;
    }
    assert(zu.take(ids.len() as int) == zu);
    keys
}

/// The last inventory entry with key `k`, by index.
fn find_last_with_key(
    summary: &ExportInspectionSummary,
    k: &String,
) -> (r: Option<usize>)
    ensures
        match (r, last_with_key(inventory_views(summary.datasource_inventory@), k@)) {
            (Some(i), Some(d)) => i < summary.datasource_inventory@.len()
                && summary.datasource_inventory@[i as int]@ == d,
            (None, None) => true,
            _ => false,
        },
{
    let ghost inv = inventory_views(summary.datasource_inventory@);
    let mut found: Option<usize> = None;
    let mut j: usize = 0;
    while j < summary.datasource_inventory.len()
        invariant
            j <= inv.len(),
            inv == inventory_views(summary.datasource_inventory@),
            match (found, last_with_key(inv.take(j as int), k@)) {
                (Some(i), Some(d)) => i < j && summary.datasource_inventory@[i as int]@ == d,
                (None, None) => true,
                _ => false,
            },
        decreases summary.datasource_inventory.len() - j,
    {
        proof {
            assert(inv.take(j + 1).drop_last() == inv.take(j as int));
            assert(inv.take(j + 1).last() == inv[j as int]);
        }
        let key = inventory_key_of(&summary.datasource_inventory[j]);
        if key == *k {
            found = Some(j);
        }
        j = j + 1;
    }
    assert(inv.take(inv.len() as int) == inv);
    found
}

/// Datasource coverage: one row per inventory datasource and per resolved
/// query datasource, in increasing key order.
pub fn build_datasource_coverage_rows(
    summary: &ExportInspectionSummary,
    report: &ExportInspectionQueryReport,
) -> (out: Vec<DatasourceCoverageRow>)
    ensures
        ({
            let z = resolved_rows(
                row_views(report.queries@),
                inventory_views(summary.datasource_inventory@),
            );
            let inv = inventory_views(summary.datasource_inventory@);
            &&& lists(
                out@.map_values(|r: DatasourceCoverageRow| r.datasource_uid@),
                coverage_keys(z, inv),
            )
            &&& forall|i: int| 0 <= i < out@.len() ==> datasource_coverage_ok(#[trigger] out@[i], z, inv)
        }),
{
    let ghost inv = inventory_views(summary.datasource_inventory@);
    let ghost z = resolved_rows(row_views(report.queries@), inv);
    let ids = resolve_identities(summary, report);
    let keys = collect_coverage_keys(summary, &ids, Ghost(z), Ghost(inv));
    let mut out: Vec<DatasourceCoverageRow> = Vec::new();
    let mut k: usize = 0;
    while k < keys.len()
        invariant
            k <= keys@.len(),
            lists(views(keys@), coverage_keys(z, inv)),
            z == resolved_rows(row_views(report.queries@), inv),
            inv == inventory_views(summary.datasource_inventory@),
            ids@.len() == z.len(),
            forall|q: int| 0 <= q < ids@.len() ==> #[trigger] ids@[q]@ == z[q].id,
            out@.len() == k,
            forall|q: int| 0 <= q < k ==> (#[trigger] out@[q]).datasource_uid@ == views(keys@)[q],
            forall|q: int| 0 <= q < k ==> datasource_coverage_ok(#[trigger] out@[q], z, inv),
        decreases keys.len() - k,
    {
        proof {
            assert(views(keys@).to_set().contains(views(keys@)[k as int]));
        }
        let row = coverage_row(summary, report, &ids, &keys[k], Ghost(z), Ghost(inv));
        out.push(row);
        k = k + 1;
    }
    assert(out@.map_values(|r: DatasourceCoverageRow| r.datasource_uid@) =~= views(keys@));
    out
}

fn coverage_row(
    summary: &ExportInspectionSummary,
    report: &ExportInspectionQueryReport,
    ids: &Vec<ResolvedDatasourceIdentity>,
    key: &String,
    Ghost(z): Ghost<Seq<ResolvedRow>>,
    Ghost(inv): Ghost<Seq<InventoryView>>,
) -> (r: DatasourceCoverageRow)
    requires
        z == resolved_rows(row_views(report.queries@), inv),
        inv == inventory_views(summary.datasource_inventory@),
        ids@.len() == z.len(),
        forall|q: int| 0 <= q < ids@.len() ==> #[trigger] ids@[q]@ == z[q].id,
        coverage_keys(z, inv).contains(key@),
    ensures
        r.datasource_uid@ == key@,
        datasource_coverage_ok(r, z, inv),
{
    let ghost p = |x: ResolvedRow| x.id.uid == key@;
    let ghost fd = |x: ResolvedRow| x.row.dashboard_uid;
    let ghost fp = |x: ResolvedRow| panel_key(x.row);
    let ghost fq = |x: ResolvedRow| x.row.query_field;
    let ghost nb = |q: Seq<char>| !is_blank(q);
    let mut dashboards: Vec<String> = Vec::new();
    let mut panels: Vec<String> = Vec::new();
    let mut fields: Vec<String> = Vec::new();
    let mut first: Option<usize> = None;
    let mut count: usize = 0;
    let mut i: usize = 0;
    while i < ids.len()
        invariant
            i <= ids@.len(),
            z == resolved_rows(row_views(report.queries@), inv),
            ids@.len() == z.len(),
            forall|q: int| 0 <= q < ids@.len() ==> #[trigger] ids@[q]@ == z[q].id,
            p == (|x: ResolvedRow| x.id.uid == key@),
            fd == (|x: ResolvedRow| x.row.dashboard_uid),
            fp == (|x: ResolvedRow| panel_key(x.row)),
            fq == (|x: ResolvedRow| x.row.query_field),
            nb == (|q: Seq<char>| !is_blank(q)),
            sorted_strict(views(dashboards@)),
            sorted_strict(views(panels@)),
            sorted_strict(views(fields@)),
            views(dashboards@).to_set() == z.take(i as int).filter(p).map_values(fd).to_set(),
            views(panels@).to_set() == z.take(i as int).filter(p).map_values(fp).to_set(),
            views(fields@).to_set() == z.take(i as int).filter(p).map_values(fq).filter(nb).to_set(),
            count == z.take(i as int).filter(p).len(),
            match first {
                Some(f) => f < i && count > 0 && z.take(i as int).filter(p)[0] == z[f as int],
                None => count == 0,
            },
        decreases ids.len() - i,
    {
        assert(ids@[i as int]@ == z[i as int].id);
        let ghost t = z.take(i as int);
        let ghost x = z[i as int];
        proof {
            assert(z.take(i + 1) == t.push(x));
            lemma_filter_map_set_push(t, x, p, fd);
            lemma_filter_map_set_push(t, x, p, fp);
            t.lemma_filter_push(x, p);
            if p(x) {
                t.filter(p).lemma_push_map_commute(fq, x);
                t.filter(p).map_values(fq).lemma_filter_push(fq(x), nb);
                if nb(fq(x)) {
                    t.filter(p).map_values(fq).filter(nb).lemma_push_to_set_commute(fq(x));
                }
            }
        }
        if ids[i].uid == *key {
            assert(x.row == report.queries@[i as int]@);
            set_insert(&mut dashboards, report.queries[i].dashboard_uid.clone());
            set_insert(&mut panels, panel_key_of(&report.queries[i]));
            if !is_blank_str(report.queries[i].query_field.as_str()) {
                set_insert(&mut fields, report.queries[i].query_field.clone());
            }
            if first.is_none() {
                first = Some(i);
            }
            proof {
                assert(t.filter(p).len() <= i) by {
                    t.lemma_filter_len(p);
                }
            }
            count = count + 1;
        }
        i = i + 1;
    }
    proof {
        assert(z.take(ids.len() as int) == z);
        lemma_sorted_no_duplicates(views(dashboards@));
        lemma_sorted_no_duplicates(views(panels@));
    }
    let inv_index = find_last_with_key(summary, key);
    let (name, family, orphaned) = match inv_index {
        Some(j) => {
            let d = &summary.datasource_inventory[j];
            (
                d.name.clone(),
                normalize_family_name(d.datasource_type.as_str()),
                count == 0 && d.reference_count == 0 && d.dashboard_count == 0,
            )
        },
        None => {
            let f = match first {
                Some(f) => f,
                None => {
                    proof {
                        assert(!inv.map_values(|d: InventoryView| inventory_key(d)).to_set().contains(key@)) by {
                            if inv.map_values(|d: InventoryView| inventory_key(d)).to_set().contains(key@) {
                                let j = choose|j: int| 0 <= j < inv.len() && inventory_key(inv[j]) == key@;
                                lemma_last_with_key_some(inv, key@, j);
                            }
                        }
                        let q = choose|q: int| 0 <= q < z.len() && #[trigger] z[q].id.uid == key@;
                        assert(z.map_values(|r: ResolvedRow| r.id.uid)[q] == key@);
                        lemma_filter_contains_index(z, p, q);
                    }
                    0
                },
            };
            assert(ids@[f as int]@ == z[f as int].id);
            assert(z.take(ids@.len() as int) == z);
            assert(uid_rows(z, key@) == z.filter(p));
            assert(uid_rows(z, key@)[0] == z[f as int]);
            (
                ids[f].name.clone(),
                normalize_family_name(ids[f].datasource_type.as_str()),
                false,
            )
        },
    };
    DatasourceCoverageRow {
        datasource_uid: key.clone(),
        datasource: name,
        family,
        query_count: count,
        dashboard_count: dashboards.len(),
        panel_count: panels.len(),
        dashboard_uids: dashboards,
        query_fields: fields,
        orphaned,
    }
}

proof fn lemma_last_with_key_some(inv: Seq<InventoryView>, k: Seq<char>, j: int)
    requires
        0 <= j < inv.len(),
        inventory_key(inv[j]) == k,
    ensures
        last_with_key(inv, k) is Some,
    decreases inv.len(),
{
    if inventory_key(inv.last()) != k {
        assert(j < inv.len() - 1);
        assert(inv.drop_last()[j] == inv[j]);
        lemma_last_with_key_some(inv.drop_last(), k, j);
    }
}

proof fn lemma_filter_contains_index<A>(s: Seq<A>, p: spec_fn(A) -> bool, q: int)
    requires
        0 <= q < s.len(),
        p(s[q]),
    ensures
        s.filter(p).len() > 0,
    decreases s.len(),
{
    s.drop_last().lemma_filter_push(s.last(), p);
    assert(s == s.drop_last().push(s.last()));
    if q < s.len() - 1 {
        assert(s.drop_last()[q] == s[q]);
        lemma_filter_contains_index(s.drop_last(), p, q);
    }
}

/// Governance view of one datasource.
#[derive(Debug)]
pub struct DatasourceGovernanceRow {
    pub datasource_uid: String,
    pub datasource: String,
    pub family: String,
    pub query_count: usize,
    pub dashboard_count: usize,
    pub panel_count: usize,
    pub mixed_dashboard_count: usize,
    pub risk_count: usize,
    pub risk_kinds: Vec<String>,
    pub dashboard_uids: Vec<String>,
    pub orphaned: bool,
}

/// The inventory entries with a key, in order.
pub open spec fn entries_with_key(inv: Seq<InventoryView>, k: Seq<char>) -> Seq<InventoryView> {
    inv.filter(|d: InventoryView| inventory_key(d) == k)
}

/// The UIDs of the mixed-datasource dashboards.
pub open spec fn mixed_uids(summary: ExportInspectionSummary) -> Seq<Seq<char>> {
    summary.mixed_dashboards@.map_values(|m: crate::summary::MixedDashboardSummary| m.uid@)
}

/// A row whose query analysis found no metric, function, measurement or
/// bucket.
pub open spec fn empty_analysis(r: QueryRowView) -> bool {
    r.metrics.len() == 0 && r.functions.len() == 0 && r.measurements.len() == 0 && r.buckets.len()
        == 0
}

/// The `(dashboard, panel)` of a row.
pub open spec fn panel_pair(x: ResolvedRow) -> (Seq<char>, Seq<char>) {
    (x.row.dashboard_uid, x.row.panel_id)
}

pub open spec fn is_unknown_family(x: ResolvedRow) -> bool {
    row_family(x) == "unknown"@
}

pub open spec fn is_broad_loki(x: ResolvedRow) -> bool {
    row_family(x) == "loki"@ && crate::loki::first_broad_selector(x.row.query_text) is Some
}

pub open spec fn is_empty_analysis(x: ResolvedRow) -> bool {
    empty_analysis(x.row)
}

/// The distinct dashboards of a datasource's rows that are mixed.
pub open spec fn mixed_hits(g: Seq<ResolvedRow>, mixed: Seq<Seq<char>>) -> Set<Seq<char>> {
    g.map_values(|x: ResolvedRow| x.row.dashboard_uid).filter(|u: Seq<char>| mixed.contains(u)).to_set()
}

/// The distinct `(dashboard, panel)` pairs of the rows meeting `p`.
pub open spec fn pair_hits(g: Seq<ResolvedRow>, p: spec_fn(ResolvedRow) -> bool) -> Set<(Seq<char>, Seq<char>)> {
    g.filter(p).map_values(|x: ResolvedRow| panel_pair(x)).to_set()
}

/// Some inventory entry with the key is orphaned.
pub open spec fn has_orphan_entry(inv: Seq<InventoryView>, k: Seq<char>) -> bool {
    exists|j: int| 0 <= j < inv.len() && inventory_key(inv[j]) == k && is_orphaned(inv[j])
}

/// The risk kinds of a datasource, in increasing order.
pub open spec fn risk_kind_set(
    g: Seq<ResolvedRow>,
    inv: Seq<InventoryView>,
    k: Seq<char>,
    mixed: Seq<Seq<char>>,
) -> Set<Seq<char>> {
    Set::new(
        |kind: Seq<char>|
            (kind == "orphaned-datasource"@ && has_orphan_entry(inv, k)) || (kind
                == "mixed-datasource-dashboard"@ && mixed_hits(g, mixed).len() > 0) || (kind
                == "unknown-datasource-family"@ && pair_hits(g, |x: ResolvedRow| is_unknown_family(x)).len() > 0)
                || (kind == "broad-loki-selector"@ && pair_hits(g, |x: ResolvedRow| is_broad_loki(x)).len() > 0)
                || (kind == "empty-query-analysis"@ && pair_hits(g, |x: ResolvedRow| is_empty_analysis(x)).len() > 0),
    )
}

/// The governance view of one datasource: the label of its first inventory
/// entry (or of its first row), its usage, its distinct risk occurrences by
/// kind (one for an orphaned inventory entry, one per mixed dashboard, one
/// per panel with an unknown family, a broad Loki selector or an empty
/// query analysis), and whether it is orphaned.
pub open spec fn governance_row_ok(
    r: DatasourceGovernanceRow,
    z: Seq<ResolvedRow>,
    inv: Seq<InventoryView>,
    mixed: Seq<Seq<char>>,
) -> bool {
    let k = r.datasource_uid@;
    let g = uid_rows(z, k);
    let e = entries_with_key(inv, k);
    let label = if e.len() > 0 {
        (e[0].name, family_of(e[0].datasource_type))
    } else {
        (g[0].id.name, family_of(g[0].id.datasource_type))
    };
    &&& r.datasource@ == label.0
    &&& r.family@ == label.1
    &&& r.query_count == g.len()
    &&& lists(views(r.dashboard_uids@), g.map_values(|x: ResolvedRow| x.row.dashboard_uid).to_set())
    &&& r.dashboard_count == g.map_values(|x: ResolvedRow| x.row.dashboard_uid).to_set().len()
    &&& r.panel_count == g.map_values(|x: ResolvedRow| panel_key(x.row)).to_set().len()
    &&& r.mixed_dashboard_count == mixed_hits(g, mixed).len()
    &&& r.risk_count == (if has_orphan_entry(inv, k) { 1nat } else { 0nat }) + mixed_hits(g, mixed).len()
        + pair_hits(g, |x: ResolvedRow| is_unknown_family(x)).len() + pair_hits(
        g,
        |x: ResolvedRow| is_broad_loki(x),
    ).len() + pair_hits(g, |x: ResolvedRow| is_empty_analysis(x)).len()
    &&& lists(views(r.risk_kinds@), risk_kind_set(g, inv, k, mixed))
    &&& r.orphaned == (g.len() == 0 && match last_with_key(inv, k) {
        Some(d) => is_orphaned(d),
        None => false,
    })
}

/// The order of the governance table: more risks first, then more mixed
/// dashboards, then more queries, then by UID.
pub open spec fn governance_before(a: DatasourceGovernanceRow, b: DatasourceGovernanceRow) -> bool {
    a.risk_count > b.risk_count || (a.risk_count == b.risk_count && (a.mixed_dashboard_count
        > b.mixed_dashboard_count || (a.mixed_dashboard_count == b.mixed_dashboard_count && (
    a.query_count > b.query_count || (a.query_count == b.query_count && crate::text::seq_lt(
        a.datasource_uid@,
        b.datasource_uid@,
    ))))))
}

fn governance_row_before(a: &DatasourceGovernanceRow, b: &DatasourceGovernanceRow) -> (r: bool)
    ensures
        r == governance_before(*a, *b),
{
    if a.risk_count != b.risk_count {
        return a.risk_count > b.risk_count;
    }
    if a.mixed_dashboard_count != b.mixed_dashboard_count {
        return a.mixed_dashboard_count > b.mixed_dashboard_count;
    }
    if a.query_count != b.query_count {
        return a.query_count > b.query_count;
    }
    crate::text::str_less(a.datasource_uid.as_str(), b.datasource_uid.as_str())
}

/// A set of distinct string pairs.
fn pair_insert(v: &mut Vec<(String, String)>, a: &String, b: &String)
    requires
        old(v)@.map_values(|p: (String, String)| (p.0@, p.1@)).no_duplicates(),
    ensures
        final(v)@.map_values(|p: (String, String)| (p.0@, p.1@)).no_duplicates(),
        final(v)@.map_values(|p: (String, String)| (p.0@, p.1@)).to_set() == old(v)@.map_values(
            |p: (String, String)| (p.0@, p.1@),
        ).to_set().insert((a@, b@)),
{
    let ghost pv = v@.map_values(|p: (String, String)| (p.0@, p.1@));
    let mut found = false;
    let mut i: usize = 0;
    while i < v.len()
        invariant
            i <= v@.len(),
            v@ == old(v)@,
            pv == v@.map_values(|p: (String, String)| (p.0@, p.1@)),
            found ==> pv.contains((a@, b@)),
            !found ==> forall|q: int| 0 <= q < i ==> pv[q] != (a@, b@),
        decreases v.len() - i,
    {
        if v[i].0 == *a && v[i].1 == *b {
            assert(pv[i as int] == (a@, b@));
            found = true;
        }
        i = i + 1;
    }
    if found {
        assert(pv.to_set().insert((a@, b@)) =~= pv.to_set());
    } else {
    v.push((a.clone(), b.clone()));
    proof {
        let nv = v@.map_values(|p: (String, String)| (p.0@, p.1@));
        assert(nv == pv.push((a@, b@)));
        pv.lemma_push_to_set_commute((a@, b@));
    }
    }
}

fn is_mixed_dashboard(summary: &ExportInspectionSummary, uid: &String) -> (r: bool)
    ensures
        r == mixed_uids(*summary).contains(uid@),
{
    let ghost m = mixed_uids(*summary);
    let mut i: usize = 0;
    while i < summary.mixed_dashboards.len()
        invariant
            i <= summary.mixed_dashboards@.len(),
            m == mixed_uids(*summary),
            forall|q: int| 0 <= q < i ==> m[q] != uid@,
        decreases summary.mixed_dashboards.len() - i,
    {
        if summary.mixed_dashboards[i].uid == *uid {
            assert(m[i as int] == uid@);
            return true;
        }
        i = i + 1;
    }
    false
}

/// The occurrences gathered for one datasource while scanning its rows.
struct RiskScan {
    dashboards: Vec<String>,
    panels: Vec<String>,
    mixed: Vec<String>,
    unknown: Vec<(String, String)>,
    loki: Vec<(String, String)>,
    empty: Vec<(String, String)>,
    count: usize,
    first: Option<usize>,
}

spec fn pair_views(v: Seq<(String, String)>) -> Seq<(Seq<char>, Seq<char>)> {
    v.map_values(|p: (String, String)| (p.0@, p.1@))
}

#[verifier::rlimit(50)]
fn scan_datasource_rows(
    summary: &ExportInspectionSummary,
    report: &ExportInspectionQueryReport,
    ids: &Vec<ResolvedDatasourceIdentity>,
    fams: &Vec<String>,
    key: &String,
    Ghost(z): Ghost<Seq<ResolvedRow>>,
    Ghost(inv): Ghost<Seq<InventoryView>>,
) -> (sc: RiskScan)
    requires
        z == resolved_rows(row_views(report.queries@), inv),
        ids@.len() == z.len(),
        fams@.len() == z.len(),
        forall|q: int| 0 <= q < ids@.len() ==> #[trigger] ids@[q]@ == z[q].id,
        forall|q: int| 0 <= q < fams@.len() ==> #[trigger] fams@[q]@ == row_family(z[q]),
    ensures
        ({
            let g = uid_rows(z, key@);
            &&& lists(views(sc.dashboards@), g.map_values(|x: ResolvedRow| x.row.dashboard_uid).to_set())
            &&& lists(views(sc.panels@), g.map_values(|x: ResolvedRow| panel_key(x.row)).to_set())
            &&& lists(views(sc.mixed@), mixed_hits(g, mixed_uids(*summary)))
            &&& pair_views(sc.unknown@).no_duplicates()
            &&& pair_views(sc.unknown@).to_set() == pair_hits(g, |x: ResolvedRow| is_unknown_family(x))
            &&& pair_views(sc.loki@).no_duplicates()
            &&& pair_views(sc.loki@).to_set() == pair_hits(g, |x: ResolvedRow| is_broad_loki(x))
            &&& pair_views(sc.empty@).no_duplicates()
            &&& pair_views(sc.empty@).to_set() == pair_hits(g, |x: ResolvedRow| is_empty_analysis(x))
            &&& sc.count == g.len()
            &&& sc.unknown@.len() <= g.len()
            &&& sc.loki@.len() <= g.len()
            &&& sc.empty@.len() <= g.len()
            &&& sc.mixed@.len() <= g.len()
            &&& match sc.first {
                Some(f) => f < z.len() && g.len() > 0 && g[0] == z[f as int],
                None => g.len() == 0,
            }
        }),
{
    let ghost p = |x: ResolvedRow| x.id.uid == key@;
    let ghost fd = |x: ResolvedRow| x.row.dashboard_uid;
    let ghost fp = |x: ResolvedRow| panel_key(x.row);
    let ghost inm = |u: Seq<char>| mixed_uids(*summary).contains(u);
    let ghost pu = |x: ResolvedRow| is_unknown_family(x);
    let ghost pl = |x: ResolvedRow| is_broad_loki(x);
    let ghost pe = |x: ResolvedRow| is_empty_analysis(x);
    let ghost pp = |x: ResolvedRow| panel_pair(x);
    let mut sc = RiskScan {
        dashboards: Vec::new(),
        panels: Vec::new(),
        mixed: Vec::new(),
        unknown: Vec::new(),
        loki: Vec::new(),
        empty: Vec::new(),
        count: 0,
        first: None,
    };
    let mut i: usize = 0;
    while i < ids.len()
        invariant
            i <= ids@.len(),
            z == resolved_rows(row_views(report.queries@), inv),
            ids@.len() == z.len(),
            fams@.len() == z.len(),
            forall|q: int| 0 <= q < ids@.len() ==> #[trigger] ids@[q]@ == z[q].id,
            forall|q: int| 0 <= q < fams@.len() ==> #[trigger] fams@[q]@ == row_family(z[q]),
            p == (|x: ResolvedRow| x.id.uid == key@),
            fd == (|x: ResolvedRow| x.row.dashboard_uid),
            fp == (|x: ResolvedRow| panel_key(x.row)),
            inm == (|u: Seq<char>| mixed_uids(*summary).contains(u)),
            pu == (|x: ResolvedRow| is_unknown_family(x)),
            pl == (|x: ResolvedRow| is_broad_loki(x)),
            pe == (|x: ResolvedRow| is_empty_analysis(x)),
            pp == (|x: ResolvedRow| panel_pair(x)),
            sorted_strict(views(sc.dashboards@)),
            sorted_strict(views(sc.panels@)),
            sorted_strict(views(sc.mixed@)),
            views(sc.dashboards@).to_set() == z.take(i as int).filter(p).map_values(fd).to_set(),
            views(sc.panels@).to_set() == z.take(i as int).filter(p).map_values(fp).to_set(),
            views(sc.mixed@).to_set() == z.take(i as int).filter(p).map_values(fd).filter(inm).to_set(),
            pair_views(sc.unknown@).no_duplicates(),
            pair_views(sc.loki@).no_duplicates(),
            pair_views(sc.empty@).no_duplicates(),
            pair_views(sc.unknown@).to_set() == z.take(i as int).filter(p).filter(pu).map_values(pp).to_set(),
            pair_views(sc.loki@).to_set() == z.take(i as int).filter(p).filter(pl).map_values(pp).to_set(),
            pair_views(sc.empty@).to_set() == z.take(i as int).filter(p).filter(pe).map_values(pp).to_set(),
            sc.count == z.take(i as int).filter(p).len(),
            sc.count <= i,
            sc.unknown@.len() <= sc.count,
            sc.loki@.len() <= sc.count,
            sc.empty@.len() <= sc.count,
            sc.mixed@.len() <= sc.count,
            match sc.first {
                Some(f) => f < i && sc.count > 0 && z.take(i as int).filter(p)[0] == z[f as int],
                None => sc.count == 0,
            },
        decreases ids.len() - i,
    {
        assert(ids@[i as int]@ == z[i as int].id);
        assert(fams@[i as int]@ == row_family(z[i as int]));
        let ghost t = z.take(i as int);
        let ghost x = z[i as int];
        proof {
            assert(z.take(i + 1) == t.push(x));
            lemma_filter_map_set_push(t, x, p, fd);
            lemma_filter_map_set_push(t, x, p, fp);
            t.lemma_filter_push(x, p);
            if p(x) {
                t.filter(p).lemma_push_map_commute(fd, x);
                t.filter(p).map_values(fd).lemma_filter_push(fd(x), inm);
                if inm(fd(x)) {
                    t.filter(p).map_values(fd).filter(inm).lemma_push_to_set_commute(fd(x));
                }
                lemma_filter_map_set_push(t.filter(p), x, pu, pp);
                lemma_filter_map_set_push(t.filter(p), x, pl, pp);
                lemma_filter_map_set_push(t.filter(p), x, pe, pp);
            }
            pair_views(sc.unknown@).unique_seq_to_set();
            pair_views(sc.loki@).unique_seq_to_set();
            pair_views(sc.empty@).unique_seq_to_set();
            crate::strset::lemma_sorted_no_duplicates(views(sc.mixed@));
            t.filter(p).filter(pu).map_values(pp).lemma_cardinality_of_set();
            t.filter(p).filter(pl).map_values(pp).lemma_cardinality_of_set();
            t.filter(p).filter(pe).map_values(pp).lemma_cardinality_of_set();
            t.filter(p).map_values(fd).filter(inm).lemma_cardinality_of_set();
            t.filter(p).lemma_filter_len(pu);
            t.filter(p).lemma_filter_len(pl);
            t.filter(p).lemma_filter_len(pe);
            t.filter(p).map_values(fd).lemma_filter_len(inm);
        }
        if ids[i].uid == *key {
            let row = &report.queries[i];
            assert(x.row == row@);
            let d = row.dashboard_uid.clone();
            set_insert(&mut sc.dashboards, d.clone());
            set_insert(&mut sc.panels, panel_key_of(row));
            if is_mixed_dashboard(summary, &d) {
                set_insert(&mut sc.mixed, d.clone());
            }
            if crate::text::str_is(fams[i].as_str(), "unknown") {
                pair_insert(&mut sc.unknown, &row.dashboard_uid, &row.panel_id);
            }
            if crate::text::str_is(fams[i].as_str(), "loki") && crate::loki::find_broad_loki_selector(
                row.query_text.as_str(),
            ).is_some() {
                pair_insert(&mut sc.loki, &row.dashboard_uid, &row.panel_id);
            }
            if row.metrics.len() == 0 && row.functions.len() == 0 && row.measurements.len() == 0
                && row.buckets.len() == 0 {
                pair_insert(&mut sc.empty, &row.dashboard_uid, &row.panel_id);
            }
            if sc.first.is_none() {
                sc.first = Some(i);
            }
            proof {
                crate::strset::lemma_sorted_no_duplicates(views(sc.mixed@));
                pair_views(sc.unknown@).unique_seq_to_set();
                pair_views(sc.loki@).unique_seq_to_set();
                pair_views(sc.empty@).unique_seq_to_set();
                t.filter(p).push(x).filter(pu).map_values(pp).lemma_cardinality_of_set();
                t.filter(p).push(x).filter(pl).map_values(pp).lemma_cardinality_of_set();
                t.filter(p).push(x).filter(pe).map_values(pp).lemma_cardinality_of_set();
                t.filter(p).push(x).map_values(fd).filter(inm).lemma_cardinality_of_set();
                t.filter(p).push(x).lemma_filter_len(pu);
                t.filter(p).push(x).lemma_filter_len(pl);
                t.filter(p).push(x).lemma_filter_len(pe);
                t.filter(p).push(x).map_values(fd).lemma_filter_len(inm);
            }
            sc.count = sc.count + 1;
        }
        i = i + 1;
    }
    proof {
        assert(z.take(ids.len() as int) == z);
        assert(uid_rows(z, key@) == z.filter(p));
        let g = z.filter(p);
        assert(mixed_hits(g, mixed_uids(*summary)) == g.map_values(fd).filter(inm).to_set());
        assert(pair_hits(g, |x: ResolvedRow| is_unknown_family(x)) == g.filter(pu).map_values(pp).to_set());
        assert(pair_hits(g, |x: ResolvedRow| is_broad_loki(x)) == g.filter(pl).map_values(pp).to_set());
        assert(pair_hits(g, |x: ResolvedRow| is_empty_analysis(x)) == g.filter(pe).map_values(pp).to_set());
    }
    sc
}

/// The first inventory entry with a key, whether any entry with the key is
/// orphaned.
fn inventory_facts(summary: &ExportInspectionSummary, key: &String) -> (r: (Option<usize>, bool))
    ensures
        ({
            let inv = inventory_views(summary.datasource_inventory@);
            let e = entries_with_key(inv, key@);
            &&& match r.0 {
                Some(f) => f < inv.len() && e.len() > 0 && e[0] == inv[f as int],
                None => e.len() == 0,
            }
            &&& r.1 == has_orphan_entry(inv, key@)
        }),
{
    let ghost inv = inventory_views(summary.datasource_inventory@);
    let ghost pk = |d: InventoryView| inventory_key(d) == key@;
    let mut first: Option<usize> = None;
    let mut any = false;
    let mut j: usize = 0;
    while j < summary.datasource_inventory.len()
        invariant
            j <= inv.len(),
            inv == inventory_views(summary.datasource_inventory@),
            pk == (|d: InventoryView| inventory_key(d) == key@),
            match first {
                Some(f) => f < j && inv.take(j as int).filter(pk).len() > 0 && inv.take(j as int).filter(pk)[0] == inv[f as int],
                None => inv.take(j as int).filter(pk).len() == 0,
            },
            any == exists|q: int| 0 <= q < j && inventory_key(inv[q]) == key@ && is_orphaned(inv[q]),
        decreases summary.datasource_inventory.len() - j,
    {
        let d = &summary.datasource_inventory[j];
        proof {
            assert(inv.take(j + 1) == inv.take(j as int).push(inv[j as int]));
            inv.take(j as int).lemma_filter_push(inv[j as int], pk);
        }
        let k = inventory_key_of(d);
        if k == *key {
            if first.is_none() {
                first = Some(j);
            }
            if d.reference_count == 0 && d.dashboard_count == 0 {
                any = true;
            }
        }
        j = j + 1;
    }
    assert(inv.take(inv.len() as int) == inv);
    assert(entries_with_key(inv, key@) == inv.filter(pk));
    (first, any)
}

fn governance_row(
    summary: &ExportInspectionSummary,
    report: &ExportInspectionQueryReport,
    ids: &Vec<ResolvedDatasourceIdentity>,
    fams: &Vec<String>,
    key: &String,
    Ghost(z): Ghost<Seq<ResolvedRow>>,
    Ghost(inv): Ghost<Seq<InventoryView>>,
) -> (r: DatasourceGovernanceRow)
    requires
        z == resolved_rows(row_views(report.queries@), inv),
        inv == inventory_views(summary.datasource_inventory@),
        ids@.len() == z.len(),
        fams@.len() == z.len(),
        z.len() < usize::MAX / 8,
        forall|q: int| 0 <= q < ids@.len() ==> #[trigger] ids@[q]@ == z[q].id,
        forall|q: int| 0 <= q < fams@.len() ==> #[trigger] fams@[q]@ == row_family(z[q]),
        coverage_keys(z, inv).contains(key@),
    ensures
        r.datasource_uid@ == key@,
        governance_row_ok(r, z, inv, mixed_uids(*summary)),
{
    let sc = scan_datasource_rows(summary, report, ids, fams, key, Ghost(z), Ghost(inv));
    let (first_entry, any_orphan) = inventory_facts(summary, key);
    let last = find_last_with_key(summary, key);
    let ghost g = uid_rows(z, key@);
    proof {
        assert(g.len() <= z.len()) by {
            z.lemma_filter_len(|x: ResolvedRow| x.id.uid == key@);
        }
        crate::strset::lemma_sorted_no_duplicates(views(sc.dashboards@));
        crate::strset::lemma_sorted_no_duplicates(views(sc.panels@));
        crate::strset::lemma_sorted_no_duplicates(views(sc.mixed@));
        pair_views(sc.unknown@).unique_seq_to_set();
        pair_views(sc.loki@).unique_seq_to_set();
        pair_views(sc.empty@).unique_seq_to_set();
    }
    let (name, family) = match first_entry {
        Some(f) => {
            let d = &summary.datasource_inventory[f];
            (d.name.clone(), normalize_family_name(d.datasource_type.as_str()))
        },
        None => {
            let f = match sc.first {
                Some(f) => f,
                None => {
                    proof {
                        assert(!inv.map_values(|d: InventoryView| inventory_key(d)).to_set().contains(key@)) by {
                            if inv.map_values(|d: InventoryView| inventory_key(d)).to_set().contains(key@) {
                                let j = choose|j: int| 0 <= j < inv.len() && inventory_key(inv[j]) == key@;
                                lemma_filter_contains_index(inv, |d: InventoryView| inventory_key(d) == key@, j);
                            }
                        }
                        let q = choose|q: int| 0 <= q < z.len() && #[trigger] z[q].id.uid == key@;
                        assert(z.map_values(|r: ResolvedRow| r.id.uid)[q] == key@);
                        lemma_filter_contains_index(z, |x: ResolvedRow| x.id.uid == key@, q);
                    }
                    0
                },
            };
            assert(ids@[f as int]@ == z[f as int].id);
            (ids[f].name.clone(), normalize_family_name(ids[f].datasource_type.as_str()))
        },
    };
    let orphaned = match last {
        Some(j) => {
            let d = &summary.datasource_inventory[j];
            sc.count == 0 && d.reference_count == 0 && d.dashboard_count == 0
        },
        None => false,
    };
    let orphan_count: usize = if any_orphan { 1 } else { 0 };
    let risk_count = orphan_count + sc.mixed.len() + sc.unknown.len() + sc.loki.len() + sc.empty.len();
    let mut kinds: Vec<String> = Vec::new();
    if any_orphan {
        set_insert(&mut kinds, owned("orphaned-datasource"));
    }
    if sc.mixed.len() > 0 {
        set_insert(&mut kinds, owned("mixed-datasource-dashboard"));
    }
    if sc.unknown.len() > 0 {
        set_insert(&mut kinds, owned("unknown-datasource-family"));
    }
    if sc.loki.len() > 0 {
        set_insert(&mut kinds, owned("broad-loki-selector"));
    }
    if sc.empty.len() > 0 {
        set_insert(&mut kinds, owned("empty-query-analysis"));
    }
    proof {
        assert(views(kinds@).to_set() =~= risk_kind_set(g, inv, key@, mixed_uids(*summary)));
    }
    DatasourceGovernanceRow {
        datasource_uid: key.clone(),
        datasource: name,
        family,
        query_count: sc.count,
        dashboard_count: sc.dashboards.len(),
        panel_count: sc.panels.len(),
        mixed_dashboard_count: sc.mixed.len(),
        risk_count,
        risk_kinds: kinds,
        dashboard_uids: sc.dashboards,
        orphaned,
    }
}

proof fn lemma_before_transitive(a: DatasourceGovernanceRow, b: DatasourceGovernanceRow, c: DatasourceGovernanceRow)
    requires
        governance_before(a, b),
        governance_before(b, c),
    ensures
        governance_before(a, c),
{
    if a.risk_count == b.risk_count && b.risk_count == c.risk_count && a.mixed_dashboard_count
        == b.mixed_dashboard_count && b.mixed_dashboard_count == c.mixed_dashboard_count
        && a.query_count == b.query_count && b.query_count == c.query_count {
        crate::text::lemma_lt_transitive(a.datasource_uid@, b.datasource_uid@, c.datasource_uid@);
    }
}

proof fn lemma_before_total(a: DatasourceGovernanceRow, b: DatasourceGovernanceRow)
    requires
        a.datasource_uid@ != b.datasource_uid@,
    ensures
        governance_before(a, b) || governance_before(b, a),
{
    crate::text::lemma_lt_total(a.datasource_uid@, b.datasource_uid@);
}

proof fn lemma_before_irreflexive(a: DatasourceGovernanceRow)
    ensures
        !governance_before(a, a),
{
    crate::text::lemma_lt_irreflexive(a.datasource_uid@);
}

/// Datasource governance: one row per inventory datasource and per resolved
/// query datasource, ordered by risk count, mixed dashboards and queries
/// (most first), then by UID.
pub fn build_datasource_governance_rows(
    summary: &ExportInspectionSummary,
    report: &ExportInspectionQueryReport,
) -> (out: Vec<DatasourceGovernanceRow>)
    requires
        report.queries@.len() < usize::MAX / 8,
    ensures
        ({
            let inv = inventory_views(summary.datasource_inventory@);
            let z = resolved_rows(row_views(report.queries@), inv);
            &&& out@.map_values(|r: DatasourceGovernanceRow| r.datasource_uid@).to_set()
                == coverage_keys(z, inv)
            &&& forall|a: int, b: int| 0 <= a < b < out@.len() ==> governance_before(
                #[trigger] out@[a],
                #[trigger] out@[b],
            )
            &&& forall|i: int| 0 <= i < out@.len() ==> governance_row_ok(
                #[trigger] out@[i],
                z,
                inv,
                mixed_uids(*summary),
            )
        }),
{
    let ghost inv = inventory_views(summary.datasource_inventory@);
    let ghost z = resolved_rows(row_views(report.queries@), inv);
    let ids = resolve_identities(summary, report);
    let mut fams: Vec<String> = Vec::new();
    let mut i: usize = 0;
    while i < ids.len()
        invariant
            i <= ids@.len(),
            ids@.len() == z.len(),
            forall|q: int| 0 <= q < ids@.len() ==> #[trigger] ids@[q]@ == z[q].id,
            fams@.len() == i,
            forall|q: int| 0 <= q < i ==> #[trigger] fams@[q]@ == row_family(z[q]),
        decreases ids.len() - i,
    {
        assert(ids@[i as int]@ == z[i as int].id);
        fams.push(normalize_family_name(ids[i].datasource_type.as_str()));
        i = i + 1;
    }
    let keys = collect_coverage_keys(summary, &ids, Ghost(z), Ghost(inv));
    let ghost kv = views(keys@);
    let mut sorted: Vec<DatasourceGovernanceRow> = Vec::new();
    let mut k: usize = 0;
    while k < keys.len()
        invariant
            k <= keys@.len(),
            kv == views(keys@),
            lists(kv, coverage_keys(z, inv)),
            z == resolved_rows(row_views(report.queries@), inv),
            inv == inventory_views(summary.datasource_inventory@),
            z.len() == report.queries@.len(),
            report.queries@.len() < usize::MAX / 8,
            ids@.len() == z.len(),
            fams@.len() == z.len(),
            forall|q: int| 0 <= q < ids@.len() ==> #[trigger] ids@[q]@ == z[q].id,
            forall|q: int| 0 <= q < fams@.len() ==> #[trigger] fams@[q]@ == row_family(z[q]),
            sorted@.map_values(|r: DatasourceGovernanceRow| r.datasource_uid@).to_set() == kv.take(k as int).to_set(),
            forall|a: int, b: int| 0 <= a < b < sorted@.len() ==> governance_before(
                #[trigger] sorted@[a],
                #[trigger] sorted@[b],
            ),
            forall|q: int| 0 <= q < sorted@.len() ==> governance_row_ok(
                #[trigger] sorted@[q],
                z,
                inv,
                mixed_uids(*summary),
            ),
        decreases keys.len() - k,
    {
        proof {
            assert(kv.to_set().contains(kv[k as int]));
        }
        let row = governance_row(summary, report, &ids, &fams, &keys[k], Ghost(z), Ghost(inv));
        let ghost su = sorted@.map_values(|r: DatasourceGovernanceRow| r.datasource_uid@);
        proof {
            crate::strset::lemma_sorted_no_duplicates(kv);
            assert(!kv.take(k as int).to_set().contains(kv[k as int])) by {
                if kv.take(k as int).to_set().contains(kv[k as int]) {
                    let q = choose|q: int| 0 <= q < k && kv.take(k as int)[q] == kv[k as int];
                    assert(kv[q] == kv[k as int]);
                }
            }
        }
        let mut pos: usize = 0;
        while pos < sorted.len() && !governance_row_before(&row, &sorted[pos])
            invariant
                pos <= sorted@.len(),
                forall|q: int| 0 <= q < pos ==> !governance_before(row, #[trigger] sorted@[q]),
            decreases sorted.len() - pos,
        {
            pos = pos + 1;
        }
        let ghost before = sorted@;
        proof {
            assert forall|q: int| 0 <= q < before.len() implies before[q].datasource_uid@ != row.datasource_uid@ by {
                assert(su[q] == before[q].datasource_uid@);
                assert(su.to_set().contains(su[q]));
            }
        }
        sorted.insert(pos, row);
        proof {
            let nv = sorted@;
            assert(nv == before.insert(pos as int, nv[pos as int]));
            assert forall|a: int, b: int| 0 <= a < b < nv.len() implies governance_before(
                #[trigger] nv[a],
                #[trigger] nv[b],
            ) by {
                if a < pos && b < pos {
                    assert(nv[a] == before[a] && nv[b] == before[b]);
                } else if a < pos && b == pos {
                    assert(!governance_before(nv[b], before[a]));
                    lemma_before_total(before[a], nv[b]);
                } else if a < pos && b > pos {
                    assert(nv[a] == before[a] && nv[b] == before[b - 1]);
                } else if a == pos {
                    assert(nv[b] == before[b - 1]);
                    if b - 1 > pos {
                        assert(governance_before(before[pos as int], before[b - 1]));
                        lemma_before_transitive(nv[a], before[pos as int], before[b - 1]);
                    }
                } else {
                    assert(nv[a] == before[a - 1] && nv[b] == before[b - 1]);
                }
            }
            assert forall|q: int| 0 <= q < nv.len() implies governance_row_ok(
                #[trigger] nv[q],
                z,
                inv,
                mixed_uids(*summary),
            ) by {
                if q < pos {
                    assert(nv[q] == before[q]);
                } else if q > pos {
                    assert(nv[q] == before[q - 1]);
                }
            }
            let nu = nv.map_values(|r: DatasourceGovernanceRow| r.datasource_uid@);
            assert(kv.take(k + 1) == kv.take(k as int).push(kv[k as int]));
            kv.take(k as int).lemma_push_to_set_commute(kv[k as int]);
            assert forall|x: Seq<char>| nu.to_set().contains(x) <==> su.to_set().insert(kv[k as int]).contains(x) by {
                if nu.to_set().contains(x) {
                    let q = choose|q: int| 0 <= q < nu.len() && nu[q] == x;
                    if q < pos {
                        assert(su[q] == x);
                    } else if q > pos {
                        assert(su[q - 1] == x);
                    }
                }
                if su.to_set().contains(x) {
                    let q = choose|q: int| 0 <= q < su.len() && su[q] == x;
                    if q < pos {
                        assert(nu[q] == x);
                    } else {
                        assert(nu[q + 1] == x);
                    }
                }
                if x == kv[k as int] {
                    assert(nu[pos as int] == x);
                }
            }
            assert(nu.to_set() =~= kv.take(k + 1).to_set());
        }
        k = k + 1;
    }
    proof {
        assert(kv.take(keys@.len() as int) == kv);
    }
    sorted
}

pub proof fn lemma_filter_contains_index_pub<A>(s: Seq<A>, p: spec_fn(A) -> bool, q: int)
    requires
        0 <= q < s.len(),
        p(s[q]),
    ensures
        s.filter(p).len() > 0,
{
    lemma_filter_contains_index(s, p, q);
}

pub proof fn lemma_push_to_set_pub<A>(s: Seq<A>, x: A)
    ensures
        s.push(x).to_set() == s.to_set().insert(x),
{
    s.lemma_push_to_set_commute(x);
}

/// A member of `s` that meets `p` has its image among the images of the
/// filtered sequence.
pub proof fn lemma_filter_map_member<A, B>(s: Seq<A>, p: spec_fn(A) -> bool, f: spec_fn(A) -> B, r: int)
    requires
        0 <= r < s.len(),
        p(s[r]),
    ensures
        s.filter(p).map_values(f).to_set().contains(f(s[r])),
    decreases s.len(),
{
    let t = s.drop_last();
    assert(s == t.push(s.last()));
    t.lemma_filter_push(s.last(), p);
    if r == s.len() - 1 {
        assert(s.filter(p) == t.filter(p).push(s[r]));
        let g = s.filter(p);
        assert(g.map_values(f)[g.len() - 1] == f(s[r]));
    } else {
        assert(t[r] == s[r]);
        lemma_filter_map_member(t, p, f, r);
        let j = choose|j: int| 0 <= j < t.filter(p).map_values(f).len() && t.filter(p).map_values(f)[j] == f(s[r]);
        if p(s.last()) {
            assert(s.filter(p).map_values(f)[j] == f(s[r]));
        } else {
            assert(s.filter(p).map_values(f)[j] == f(s[r]));
        }
    }
}
} // verus!
