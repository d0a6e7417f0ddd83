//! Dashboard-to-datasource edges of the governance review: one edge per
//! dashboard and resolved datasource, in increasing `(dashboard, datasource)`
//! order.
use vstd::prelude::*;

use crate::coverage::{
    lemma_filter_map_set_push, panel_key, panel_key_of, resolve_identities, resolved_rows,
    ResolvedRow,
};
use crate::governance::{family_of, normalize_family_name, ResolvedDatasourceIdentity};
use crate::report::{row_views, ExportInspectionQueryReport};
use crate::strset::{lemma_concat_to_set, lemma_sorted_no_duplicates, lists, set_insert, sorted_strict, union_into, views};
use crate::summary::{inventory_views, ExportInspectionSummary, InventoryView};
use crate::text::{is_blank, is_blank_str, seq_lt};

verus! {

#[derive(Debug)]
pub struct DashboardDatasourceEdgeRow {
    pub dashboard_uid: String,
    pub dashboard_title: String,
    pub folder_path: String,
    pub datasource_uid: String,
    pub datasource: String,
    pub datasource_type: String,
    pub family: String,
    pub panel_count: usize,
    pub query_count: usize,
    pub query_fields: Vec<String>,
    pub metrics: Vec<String>,
    pub functions: Vec<String>,
    pub measurements: Vec<String>,
    pub buckets: Vec<String>,
}

/// The `(dashboard, datasource)` pair of a resolved row.
pub open spec fn edge_key(x: ResolvedRow) -> (Seq<char>, Seq<char>) {
    (x.row.dashboard_uid, x.id.uid)
}

/// Lexicographic order of pairs of strings.
pub open spec fn pair_lt(a: (Seq<char>, Seq<char>), b: (Seq<char>, Seq<char>)) -> bool {
    seq_lt(a.0, b.0) || (a.0 == b.0 && seq_lt(a.1, b.1))
}

/// The rows of one edge.
pub open spec fn edge_rows(z: Seq<ResolvedRow>, k: (Seq<char>, Seq<char>)) -> Seq<ResolvedRow> {
    z.filter(|x: ResolvedRow| edge_key(x) == k)
}

/// One edge: the labels of its first row, and the panels, queries, non-blank
/// query fields and analysed names of all its rows.
pub open spec fn edge_ok(e: DashboardDatasourceEdgeRow, z: Seq<ResolvedRow>) -> bool {
    let g = edge_rows(z, (e.dashboard_uid@, e.datasource_uid@));
    &&& g.len() > 0
    &&& e.dashboard_title@ == g[0].row.dashboard_title
    &&& e.folder_path@ == g[0].row.folder_path
    &&& e.datasource@ == g[0].id.name
    &&& e.datasource_type@ == g[0].id.datasource_type
    &&& e.family@ == family_of(g[0].id.datasource_type)
    &&& e.panel_count == g.map_values(|x: ResolvedRow| panel_key(x.row)).to_set().len()
    &&& e.query_count == g.len()
    &&& lists(
        views(e.query_fields@),
        g.map_values(|x: ResolvedRow| x.row.query_field).filter(|q: Seq<char>| !is_blank(q)).to_set(),
    )
    &&& lists(views(e.metrics@), g.flat_map(|x: ResolvedRow| x.row.metrics).to_set())
    &&& lists(views(e.functions@), g.flat_map(|x: ResolvedRow| x.row.functions).to_set())
    &&& lists(views(e.measurements@), g.flat_map(|x: ResolvedRow| x.row.measurements).to_set())
    &&& lists(views(e.buckets@), g.flat_map(|x: ResolvedRow| x.row.buckets).to_set())
}

pub open spec fn edge_keys_of(out: Seq<DashboardDatasourceEdgeRow>) -> Seq<(Seq<char>, Seq<char>)> {
    out.map_values(|e: DashboardDatasourceEdgeRow| (e.dashboard_uid@, e.datasource_uid@))
}

fn edge_row(
    report: &ExportInspectionQueryReport,
    ids: &Vec<ResolvedDatasourceIdentity>,
    d: &String,
    u: &String,
    Ghost(z): Ghost<Seq<ResolvedRow>>,
    Ghost(inv): Ghost<Seq<InventoryView>>,
) -> (e: DashboardDatasourceEdgeRow)
    requires
        z == resolved_rows(row_views(report.queries@), inv),
        ids@.len() == z.len(),
        forall|q: int| 0 <= q < ids@.len() ==> #[trigger] ids@[q]@ == z[q].id,
        z.map_values(|x: ResolvedRow| edge_key(x)).to_set().contains((d@, u@)),
    ensures
        e.dashboard_uid@ == d@,
        e.datasource_uid@ == u@,
        edge_ok(e, z),
{
    let ghost k = (d@, u@);
    let ghost p = |x: ResolvedRow| edge_key(x) == k;
    let ghost fp = |x: ResolvedRow| panel_key(x.row);
    let ghost fq = |x: ResolvedRow| x.row.query_field;
    let ghost nb = |q: Seq<char>| !is_blank(q);
    let ghost fm = |x: ResolvedRow| x.row.metrics;
    let ghost ff = |x: ResolvedRow| x.row.functions;
    let ghost fs = |x: ResolvedRow| x.row.measurements;
    let ghost fb = |x: ResolvedRow| x.row.buckets;
    let mut panels: Vec<String> = Vec::new();
    let mut fields: Vec<String> = Vec::new();
    let mut metrics: Vec<String> = Vec::new();
    let mut functions: Vec<String> = Vec::new();
    let mut measurements: Vec<String> = Vec::new();
    let mut buckets: Vec<String> = Vec::new();
    let mut first: Option<usize> = None;
    let mut count: usize = 0;
    let mut i: usize = 0;
    while i < ids.len()
        invariant
            i <= ids@.len(),
            z == resolved_rows(row_views(report.queries@), inv),
            ids@.len() == z.len(),
            forall|q: int| 0 <= q < ids@.len() ==> #[trigger] ids@[q]@ == z[q].id,
            k == (d@, u@),
            p == (|x: ResolvedRow| edge_key(x) == k),
            fp == (|x: ResolvedRow| panel_key(x.row)),
            fq == (|x: ResolvedRow| x.row.query_field),
            nb == (|q: Seq<char>| !is_blank(q)),
            fm == (|x: ResolvedRow| x.row.metrics),
            ff == (|x: ResolvedRow| x.row.functions),
            fs == (|x: ResolvedRow| x.row.measurements),
            fb == (|x: ResolvedRow| x.row.buckets),
            sorted_strict(views(panels@)),
            sorted_strict(views(fields@)),
            sorted_strict(views(metrics@)),
            sorted_strict(views(functions@)),
            sorted_strict(views(measurements@)),
            sorted_strict(views(buckets@)),
            views(panels@).to_set() == z.take(i as int).filter(p).map_values(fp).to_set(),
            views(fields@).to_set() == z.take(i as int).filter(p).map_values(fq).filter(nb).to_set(),
            views(metrics@).to_set() == z.take(i as int).filter(p).flat_map(fm).to_set(),
            views(functions@).to_set() == z.take(i as int).filter(p).flat_map(ff).to_set(),
            views(measurements@).to_set() == z.take(i as int).filter(p).flat_map(fs).to_set(),
            views(buckets@).to_set() == z.take(i as int).filter(p).flat_map(fb).to_set(),
            count == z.take(i as int).filter(p).len(),
            count <= i,
            match first {
                Some(f) => f < i && count > 0 && z.take(i as int).filter(p)[0] == z[f as int],
                None => count == 0,
            },
        decreases ids.len() - i,
    {
        assert(ids@[i as int]@ == z[i as int].id);
        let ghost t = z.take(i as int);
        let ghost x = z[i as int];
        proof {
            assert(z.take(i + 1) == t.push(x));
            lemma_filter_map_set_push(t, x, p, fp);
            t.lemma_filter_push(x, p);
            if p(x) {
                t.filter(p).lemma_push_map_commute(fq, x);
                t.filter(p).map_values(fq).lemma_filter_push(fq(x), nb);
                if nb(fq(x)) {
                    t.filter(p).map_values(fq).filter(nb).lemma_push_to_set_commute(fq(x));
                }
                t.filter(p).lemma_flat_map_push(fm, x);
                t.filter(p).lemma_flat_map_push(ff, x);
                t.filter(p).lemma_flat_map_push(fs, x);
                t.filter(p).lemma_flat_map_push(fb, x);
                lemma_concat_to_set(t.filter(p).flat_map(fm), fm(x));
                lemma_concat_to_set(t.filter(p).flat_map(ff), ff(x));
                lemma_concat_to_set(t.filter(p).flat_map(fs), fs(x));
                lemma_concat_to_set(t.filter(p).flat_map(fb), fb(x));
            }
        }
        let row = &report.queries[i];
        assert(x.row == row@);
        if row.dashboard_uid == *d && ids[i].uid == *u {
            set_insert(&mut panels, panel_key_of(row));
            if !is_blank_str(row.query_field.as_str()) {
                set_insert(&mut fields, row.query_field.clone());
            }
            union_into(&mut metrics, &row.metrics);
            union_into(&mut functions, &row.functions);
            union_into(&mut measurements, &row.measurements);
            union_into(&mut buckets, &row.buckets);
            if first.is_none() {
                first = Some(i);
            }
            count = count + 1;
        }
        i = i + 1;
    }
    proof {
        assert(z.take(ids.len() as int) == z);
        assert(edge_rows(z, k) == z.filter(p));
        lemma_sorted_no_duplicates(views(panels@));
    }
    let f = match first {
        Some(f) => f,
        None => {
            proof {
                let q = choose|q: int| 0 <= q < z.len() && #[trigger] edge_key(z[q]) == k;
                assert(z.map_values(|x: ResolvedRow| edge_key(x))[q] == k);
                crate::coverage::lemma_filter_contains_index_pub(z, p, q);
            }
            0
        },
    };
    assert(ids@[f as int]@ == z[f as int].id);
    let row = &report.queries[f];
    assert(z[f as int].row == row@);
    let id = &ids[f];
    DashboardDatasourceEdgeRow {
        dashboard_uid: d.clone(),
        dashboard_title: row.dashboard_title.clone(),
        folder_path: row.folder_path.clone(),
        datasource_uid: u.clone(),
        datasource: id.name.clone(),
        datasource_type: id.datasource_type.clone(),
        family: normalize_family_name(id.datasource_type.as_str()),
        panel_count: panels.len(),
        query_count: count,
        query_fields: fields,
        metrics,
        functions,
        measurements,
        buckets,
    }
}

/// Dashboard-datasource edges: for every dashboard and every datasource its
/// queries resolve to, one edge, in increasing `(dashboard, datasource)`
/// order.
pub fn build_dashboard_datasource_edge_rows(
    summary: &ExportInspectionSummary,
    report: &ExportInspectionQueryReport,
) -> (out: Vec<DashboardDatasourceEdgeRow>)
    ensures
        ({
            let z = resolved_rows(
                row_views(report.queries@),
                inventory_views(summary.datasource_inventory@),
            );
            &&& edge_keys_of(out@).to_set() == z.map_values(|x: ResolvedRow| edge_key(x)).to_set()
            &&& forall|a: int, b: int| 0 <= a < b < out@.len() ==> pair_lt(
                #[trigger] edge_keys_of(out@)[a],
                #[trigger] edge_keys_of(out@)[b],
            )
            &&& forall|i: int| 0 <= i < out@.len() ==> edge_ok(#[trigger] out@[i], z)
        }),
{
    let ghost inv = inventory_views(summary.datasource_inventory@);
    let ghost z = resolved_rows(row_views(report.queries@), inv);
    let ghost all = z.map_values(|x: ResolvedRow| edge_key(x));
    let ids = resolve_identities(summary, report);
    let mut dashboards: Vec<String> = Vec::new();
    let ghost zd = z.map_values(|x: ResolvedRow| x.row.dashboard_uid);
    let mut i: usize = 0;
    while i < report.queries.len()
        invariant
            i <= report.queries@.len(),
            z == resolved_rows(row_views(report.queries@), inv),
            zd == z.map_values(|x: ResolvedRow| x.row.dashboard_uid),
            sorted_strict(views(dashboards@)),
            views(dashboards@).to_set() == zd.take(i as int).to_set(),
        decreases report.queries.len() - i,
    {
        proof {
            assert(zd.take(i + 1) == zd.take(i as int).push(zd[i as int]));
            zd.take(i as int).lemma_push_to_set_commute(zd[i as int]);
        }
        set_insert(&mut dashboards, report.queries[i].dashboard_uid.clone());
        i = i + 1;
    }
    assert(zd.take(report.queries@.len() as int) == zd);
    let ghost dv = views(dashboards@);
    let mut out: Vec<DashboardDatasourceEdgeRow> = Vec::new();
    let mut a: usize = 0;
    while a < dashboards.len()
        invariant
            a <= dashboards@.len(),
            dv == views(dashboards@),
            lists(dv, zd.to_set()),
            z == resolved_rows(row_views(report.queries@), inv),
            zd == z.map_values(|x: ResolvedRow| x.row.dashboard_uid),
            all == z.map_values(|x: ResolvedRow| edge_key(x)),
            ids@.len() == z.len(),
            forall|q: int| 0 <= q < ids@.len() ==> #[trigger] ids@[q]@ == z[q].id,
            edge_keys_of(out@).to_set() == all.to_set().filter(|k: (Seq<char>, Seq<char>)| dv.take(a as int).contains(k.0)),
            forall|x: int, y: int| 0 <= x < y < out@.len() ==> pair_lt(
                #[trigger] edge_keys_of(out@)[x],
                #[trigger] edge_keys_of(out@)[y],
            ),
            forall|x: int| 0 <= x < out@.len() ==> dv.take(a as int).contains(#[trigger] edge_keys_of(out@)[x].0),
            forall|x: int| 0 <= x < out@.len() ==> edge_ok(#[trigger] out@[x], z),
        decreases dashboards.len() - a,
    {
        let d = &dashboards[a];
        let mut uids: Vec<String> = Vec::new();
        let ghost pd = |x: ResolvedRow| x.row.dashboard_uid == d@;
        let ghost fu = |x: ResolvedRow| x.id.uid;
        let mut j: usize = 0;
        while j < ids.len()
            invariant
                j <= ids@.len(),
                z == resolved_rows(row_views(report.queries@), inv),
                ids@.len() == z.len(),
                forall|q: int| 0 <= q < ids@.len() ==> #[trigger] ids@[q]@ == z[q].id,
                pd == (|x: ResolvedRow| x.row.dashboard_uid == d@),
                fu == (|x: ResolvedRow| x.id.uid),
                sorted_strict(views(uids@)),
                views(uids@).to_set() == z.take(j as int).filter(pd).map_values(fu).to_set(),
            decreases ids.len() - j,
        {
            assert(ids@[j as int]@ == z[j as int].id);
            proof {
                assert(z.take(j + 1) == z.take(j as int).push(z[j as int]));
                lemma_filter_map_set_push(z.take(j as int), z[j as int], pd, fu);
            }
            assert(z[j as int].row == report.queries@[j as int]@);
            if report.queries[j].dashboard_uid == *d {
                set_insert(&mut uids, ids[j].uid.clone());
            }
            j = j + 1;
        }
        assert(z.take(ids@.len() as int) == z);
        let ghost uv = views(uids@);
        let ghost before_out = edge_keys_of(out@);
        let mut b: usize = 0;
        while b < uids.len()
            invariant
                b <= uids@.len(),
                a < dv.len(),
                d@ == dv[a as int],
                uv == views(uids@),
                sorted_strict(uv),
                uv.to_set() == z.filter(pd).map_values(fu).to_set(),
                pd == (|x: ResolvedRow| x.row.dashboard_uid == d@),
                fu == (|x: ResolvedRow| x.id.uid),
                dv == views(dashboards@),
                lists(dv, zd.to_set()),
                z == resolved_rows(row_views(report.queries@), inv),
                zd == z.map_values(|x: ResolvedRow| x.row.dashboard_uid),
                all == z.map_values(|x: ResolvedRow| edge_key(x)),
                ids@.len() == z.len(),
                forall|q: int| 0 <= q < ids@.len() ==> #[trigger] ids@[q]@ == z[q].id,
                edge_keys_of(out@).to_set() == all.to_set().filter(|k: (Seq<char>, Seq<char>)| dv.take(a as int).contains(k.0))
                    + Set::new(|k: (Seq<char>, Seq<char>)| k.0 == d@ && uv.take(b as int).contains(k.1)),
                forall|x: int, y: int| 0 <= x < y < out@.len() ==> pair_lt(
                    #[trigger] edge_keys_of(out@)[x],
                    #[trigger] edge_keys_of(out@)[y],
                ),
                forall|x: int| 0 <= x < out@.len() ==> (dv.take(a as int).contains(#[trigger] edge_keys_of(out@)[x].0)
                    || (edge_keys_of(out@)[x].0 == d@ && uv.take(b as int).contains(edge_keys_of(out@)[x].1))),
                forall|x: int| 0 <= x < out@.len() ==> edge_ok(#[trigger] out@[x], z),
            decreases uids.len() - b,
        {
            let u = &uids[b];
            proof {
                assert(uv.to_set().contains(uv[b as int]));
                let q = choose|q: int| 0 <= q < z.filter(pd).map_values(fu).len() && z.filter(pd).map_values(fu)[q] == uv[b as int];
                let w = z.filter(pd)[q];
                assert(z.filter(pd).contains(w));
                z.lemma_filter_contains_rev(pd, w);
                let r = choose|r: int| 0 <= r < z.len() && z[r] == w;
                assert(z.filter(pd)[q] == w);
                assert(pd(w)) by {
                    z.lemma_filter_pred(pd, q);
                }
                assert(fu(w) == u@);
                assert(all[r] == (d@, u@));
                assert(all.to_set().contains((d@, u@)));
            }
            let e = edge_row(report, &ids, d, u, Ghost(z), Ghost(inv));
            let ghost ok = edge_keys_of(out@);
            out.push(e);
            proof {
                let nk = edge_keys_of(out@);
                assert(nk == ok.push((d@, u@)));
                crate::strset::lemma_sorted_no_duplicates(dv);
                assert forall|x: int, y: int| 0 <= x < y < nk.len() implies pair_lt(
                    #[trigger] nk[x],
                    #[trigger] nk[y],
                ) by {
                    if y == nk.len() - 1 {
                        if dv.take(a as int).contains(nk[x].0) {
                            let c = choose|c: int| 0 <= c < a && dv.take(a as int)[c] == nk[x].0;
                            assert(seq_lt(dv[c], dv[a as int]));
                        } else {
                            let c = choose|c: int| 0 <= c < b && uv.take(b as int)[c] == nk[x].1;
                            assert(seq_lt(uv[c], uv[b as int]));
                        }
                    } else {
                        assert(nk[x] == ok[x] && nk[y] == ok[y]);
                    }
                }
                assert(uv.take(b + 1) == uv.take(b as int).push(uv[b as int]));
                assert forall|y: Seq<char>| #[trigger] uv.take(b + 1).contains(y) <==> (uv.take(b as int).contains(y) || y == u@) by {
                    if uv.take(b + 1).contains(y) {
                        let c = choose|c: int| 0 <= c < b + 1 && #[trigger] uv.take(b + 1)[c] == y;
                        if c < b {
                            assert(uv.take(b as int)[c] == y);
                        }
                    }
                    if uv.take(b as int).contains(y) {
                        let c = choose|c: int| 0 <= c < b && #[trigger] uv.take(b as int)[c] == y;
                        assert(uv.take(b + 1)[c] == y);
                    }
                    if y == u@ {
                        assert(uv.take(b + 1)[b as int] == y);
                    }
                }
                crate::coverage::lemma_push_to_set_pub(ok, (d@, u@));
                assert forall|x: int| 0 <= x < nk.len() implies (dv.take(a as int).contains(#[trigger] nk[x].0)
                    || (nk[x].0 == d@ && uv.take(b + 1).contains(nk[x].1))) by {
                    if x < nk.len() - 1 {
                        assert(nk[x] == ok[x]);
                    }
                }
                assert(edge_keys_of(out@).to_set() =~= all.to_set().filter(|k: (Seq<char>, Seq<char>)| dv.take(a as int).contains(k.0))
                    + Set::new(|k: (Seq<char>, Seq<char>)| k.0 == d@ && uv.take(b + 1).contains(k.1)));
            }
            b = b + 1;
        }
        proof {
            assert(uv.take(uids@.len() as int) == uv);
            assert(dv.take(a + 1) == dv.take(a as int).push(dv[a as int]));
            assert forall|k: (Seq<char>, Seq<char>)| #[trigger] all.to_set().contains(k) && k.0 == d@ implies uv.contains(k.1) by {
                let r = choose|r: int| 0 <= r < all.len() && all[r] == k;
                assert(pd(z[r]));
                crate::coverage::lemma_filter_map_member(z, pd, fu, r);
                assert(uv.to_set().contains(k.1));
            }
            assert forall|k: (Seq<char>, Seq<char>)| k.0 == d@ && #[trigger] uv.contains(k.1) implies all.to_set().contains(k) by {
                assert(uv.to_set().contains(k.1));
                let q = choose|q: int| 0 <= q < z.filter(pd).map_values(fu).len() && z.filter(pd).map_values(fu)[q] == k.1;
                let w = z.filter(pd)[q];
                assert(z.filter(pd).contains(w));
                z.lemma_filter_contains_rev(pd, w);
                let r = choose|r: int| 0 <= r < z.len() && z[r] == w;
                assert(pd(w)) by {
                    z.lemma_filter_pred(pd, q);
                }
                assert(fu(w) == k.1);
                assert(all[r] == k);
            }
            assert forall|y: Seq<char>| #[trigger] dv.take(a + 1).contains(y) <==> (dv.take(a as int).contains(y) || y == d@) by {
                if dv.take(a + 1).contains(y) {
                    let c = choose|c: int| 0 <= c < a + 1 && #[trigger] dv.take(a + 1)[c] == y;
                    if c < a {
                        assert(dv.take(a as int)[c] == y);
                    }
                }
                if dv.take(a as int).contains(y) {
                    let c = choose|c: int| 0 <= c < a && #[trigger] dv.take(a as int)[c] == y;
                    assert(dv.take(a + 1)[c] == y);
                }
                if y == d@ {
                    assert(dv.take(a + 1)[a as int] == y);
                }
            }
            assert(edge_keys_of(out@).to_set() =~= all.to_set().filter(|k: (Seq<char>, Seq<char>)| dv.take(a + 1).contains(k.0)));
            assert forall|x: int| 0 <= x < out@.len() implies dv.take(a + 1).contains(#[trigger] edge_keys_of(out@)[x].0) by {
                if !dv.take(a as int).contains(edge_keys_of(out@)[x].0) {
                    assert(edge_keys_of(out@)[x].0 == d@);
                }
            }
        }
        a = a + 1;
    }
    proof {
        assert(dv.take(dashboards@.len() as int) == dv);
        assert forall|k: (Seq<char>, Seq<char>)| #[trigger] all.to_set().contains(k) implies dv.contains(k.0) by {
            let r = choose|r: int| 0 <= r < all.len() && all[r] == k;
            assert(zd[r] == k.0);
            assert(zd.to_set().contains(k.0));
            assert(dv.to_set().contains(k.0));
        }
        assert(edge_keys_of(out@).to_set() =~= all.to_set());
    }
    out
}

} // verus!
