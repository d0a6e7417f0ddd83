//! The datasource summary of an export inspection: one row per inventory
//! datasource and per datasource that queries reference, with what the
//! queries use of it.
use vstd::prelude::*;

use crate::dependencies::{all_of, RowList};
use crate::report::{
    datasource_family_of, ordered_unique, ordered_unique_strings, row_views,
    ExportInspectionDatasourceSummaryDocument, ExportInspectionDatasourceSummaryDocumentSummary,
    ExportInspectionDatasourceSummaryRow, ExportInspectionQueryReport, ExportInspectionQueryRow,
    QueryRowView,
};
use crate::strset::{lists, sorted_strict, views};
use crate::summary::{inventory_views, ExportInspectionSummary, InventoryView};
use crate::text::{owned, seq_lt};

verus! {

/// The key a query row counts under: its datasource UID, or its datasource
/// name where it has no UID.
pub open spec fn row_key(r: QueryRowView) -> Seq<char> {
    if r.datasource_uid.len() > 0 {
        r.datasource_uid
    } else {
        r.datasource
    }
}

/// Whether a row takes part in the summary: it has a key, and it names the
/// filtered datasource where there is a filter.
pub open spec fn row_selected(r: QueryRowView, f: Option<Seq<char>>) -> bool {
    row_key(r).len() > 0 && match f {
        Some(x) => r.datasource == x || r.datasource_uid == x,
        None => true,
    }
}

pub open spec fn selected_rows(rows: Seq<QueryRowView>, f: Option<Seq<char>>) -> Seq<QueryRowView> {
    rows.filter(|r: QueryRowView| row_selected(r, f))
}

pub open spec fn key_rows(sel: Seq<QueryRowView>, k: Seq<char>) -> Seq<QueryRowView> {
    sel.filter(|r: QueryRowView| row_key(r) == k)
}

/// The first non-empty value, or the empty text.
pub open spec fn first_nonempty(vals: Seq<Seq<char>>) -> Seq<char>
    decreases vals.len(),
{
    if vals.len() == 0 {
        Seq::empty()
    } else {
        let p = first_nonempty(vals.drop_last());
        if p.len() > 0 {
            p
        } else {
            vals.last()
        }
    }
}

/// What the queries of one key add up to.
pub ghost struct UsageState {
    pub datasource: Seq<char>,
    pub datasource_uid: Seq<char>,
    pub dashboard_count: nat,
    pub panel_count: nat,
    pub query_count: nat,
    pub metrics: Seq<Seq<char>>,
    pub measurements: Seq<Seq<char>>,
    pub buckets: Seq<Seq<char>>,
}

pub open spec fn state_of(sel: Seq<QueryRowView>, k: Seq<char>) -> UsageState {
    let kr = key_rows(sel, k);
    UsageState {
        datasource: first_nonempty(kr.map_values(|r: QueryRowView| r.datasource)),
        datasource_uid: first_nonempty(kr.map_values(|r: QueryRowView| r.datasource_uid)),
        dashboard_count: kr.map_values(|r: QueryRowView| r.dashboard_uid).to_set().len(),
        panel_count: kr.map_values(|r: QueryRowView| (r.dashboard_uid, r.panel_id)).to_set().len(),
        query_count: kr.len(),
        metrics: ordered_unique(all_of(kr, RowList::Metrics)),
        measurements: ordered_unique(all_of(kr, RowList::Measurements)),
        buckets: ordered_unique(all_of(kr, RowList::Buckets)),
    }
}

/// The summary row of one datasource.
pub ghost struct SummaryRowView {
    pub datasource: Seq<char>,
    pub datasource_uid: Seq<char>,
    pub datasource_type: Seq<char>,
    pub family: Seq<char>,
    pub dashboard_count: nat,
    pub panel_count: nat,
    pub query_count: nat,
    pub orphaned: Seq<char>,
    pub metrics: Seq<Seq<char>>,
    pub measurements: Seq<Seq<char>>,
    pub buckets: Seq<Seq<char>>,
}

impl View for ExportInspectionDatasourceSummaryRow {
    type V = SummaryRowView;

    open spec fn view(&self) -> SummaryRowView {
        SummaryRowView {
            datasource: self.datasource@,
            datasource_uid: self.datasource_uid@,
            datasource_type: self.datasource_type@,
            family: self.family@,
            dashboard_count: self.dashboard_count as nat,
            panel_count: self.panel_count as nat,
            query_count: self.query_count as nat,
            orphaned: self.orphaned@,
            metrics: views(self.metrics@),
            measurements: views(self.measurements@),
            buckets: views(self.buckets@),
        }
    }
}

/// The key an inventory entry is found under: its UID, or its name where
/// it has no UID.
pub open spec fn inventory_key(d: InventoryView) -> Seq<char> {
    if d.uid.len() == 0 {
        d.name
    } else {
        d.uid
    }
}

pub open spec fn key_set(sel: Seq<QueryRowView>) -> Set<Seq<char>> {
    sel.map_values(|r: QueryRowView| row_key(r)).to_set()
}

/// The row of an inventory entry, with the usage of its key where the
/// queries have some and no earlier entry claimed it.
pub open spec fn inventory_row(d: InventoryView, st: Option<UsageState>) -> SummaryRowView {
    let (dc, pc, qc, m, me, b) = match st {
        Some(s) => (s.dashboard_count, s.panel_count, s.query_count, s.metrics, s.measurements, s.buckets),
        None => (0nat, 0nat, 0nat, Seq::empty(), Seq::empty(), Seq::empty()),
    };
    SummaryRowView {
        datasource: d.name,
        datasource_uid: d.uid,
        datasource_type: d.datasource_type,
        family: datasource_family_of(d.datasource_type),
        dashboard_count: dc,
        panel_count: pc,
        query_count: qc,
        orphaned: crate::text::bool_text(dc == 0 && qc == 0),
        metrics: m,
        measurements: me,
        buckets: b,
    }
}

/// Whether the last inventory entry takes the usage of its key: the
/// queries use the key and no earlier entry has it.
pub open spec fn claims_usage(inv: Seq<InventoryView>, sel: Seq<QueryRowView>) -> bool {
    let k = inventory_key(inv.last());
    key_set(sel).contains(k) && !inv.drop_last().map_values(|d: InventoryView| inventory_key(d)).contains(k)
}

/// Whether an inventory entry passes the filter.
pub open spec fn inventory_matches(d: InventoryView, f: Option<Seq<char>>) -> bool {
    match f {
        Some(x) => d.uid == x || d.name == x,
        None => true,
    }
}

/// The rows of the inventory entries that pass the filter or carry usage.
pub open spec fn inventory_rows(inv: Seq<InventoryView>, sel: Seq<QueryRowView>, f: Option<Seq<char>>) -> Seq<SummaryRowView>
    decreases inv.len(),
{
    if inv.len() == 0 {
        Seq::empty()
    } else {
        let before = inventory_rows(inv.drop_last(), sel, f);
        let claims = claims_usage(inv, sel);
        if inventory_matches(inv.last(), f) || claims {
            before.push(
                inventory_row(
                    inv.last(),
                    if claims {
                        Some(state_of(sel, inventory_key(inv.last())))
                    } else {
                        None
                    },
                ),
            )
        } else {
            before
        }
    }
}

/// The row of a key the queries use that no inventory entry has.
pub open spec fn unlisted_row(s: UsageState) -> SummaryRowView {
    SummaryRowView {
        datasource: s.datasource,
        datasource_uid: s.datasource_uid,
        datasource_type: Seq::empty(),
        family: "unknown"@,
        dashboard_count: s.dashboard_count,
        panel_count: s.panel_count,
        query_count: s.query_count,
        orphaned: "false"@,
        metrics: s.metrics,
        measurements: s.measurements,
        buckets: s.buckets,
    }
}

/// Whether an unlisted key passes the filter.
pub open spec fn unlisted_matches(k: Seq<char>, s: UsageState, f: Option<Seq<char>>) -> bool {
    match f {
        Some(x) => k == x || s.datasource == x || s.datasource_uid == x,
        None => true,
    }
}

/// The keys the queries use, in increasing order.
pub open spec fn sorted_keys(sel: Seq<QueryRowView>) -> Seq<Seq<char>> {
    choose|l: Seq<Seq<char>>| lists(l, key_set(sel))
}

/// The rows of the keys no inventory entry has, in key order.
pub open spec fn unlisted_rows(keys: Seq<Seq<char>>, inv: Seq<InventoryView>, sel: Seq<QueryRowView>, f: Option<Seq<char>>) -> Seq<SummaryRowView>
    decreases keys.len(),
{
    if keys.len() == 0 {
        Seq::empty()
    } else {
        let before = unlisted_rows(keys.drop_last(), inv, sel, f);
        let k = keys.last();
        let s = state_of(sel, k);
        if !inv.map_values(|d: InventoryView| inventory_key(d)).contains(k) && unlisted_matches(k, s, f) {
            before.push(unlisted_row(s))
        } else {
            before
        }
    }
}

/// The order of the summary: by datasource name, then UID.
pub open spec fn summary_lt(a: SummaryRowView, b: SummaryRowView) -> bool {
    seq_lt(a.datasource, b.datasource) || (a.datasource == b.datasource && seq_lt(a.datasource_uid, b.datasource_uid))
}

pub open spec fn summary_position(t: Seq<SummaryRowView>, x: SummaryRowView) -> int
    decreases t.len(),
{
    if t.len() == 0 {
        0
    } else if summary_lt(x, t[0]) {
        0
    } else {
        1 + summary_position(t.drop_first(), x)
    }
}

/// A stable sort in summary order.
pub open spec fn summary_sort(s: Seq<SummaryRowView>) -> Seq<SummaryRowView>
    decreases s.len(),
{
    if s.len() == 0 {
        Seq::empty()
    } else {
        let t = summary_sort(s.drop_last());
        t.insert(summary_position(t, s.last()), s.last())
    }
}

/// The rows of the datasource summary.
pub open spec fn summary_rows(inv: Seq<InventoryView>, rows: Seq<QueryRowView>, f: Option<Seq<char>>) -> Seq<SummaryRowView> {
    let sel = selected_rows(rows, f);
    summary_sort(inventory_rows(inv, sel, f) + unlisted_rows(sorted_keys(sel), inv, sel, f))
}

pub open spec fn summary_row_views(v: Seq<ExportInspectionDatasourceSummaryRow>) -> Seq<SummaryRowView> {
    v.map_values(|r: ExportInspectionDatasourceSummaryRow| r@)
}

} // verus!
verus! {

fn key_of(r: &ExportInspectionQueryRow) -> (k: String)
    ensures
        k@ == row_key(r@),
{
    if r.datasource_uid.as_str().unicode_len() > 0 {
        r.datasource_uid.clone()
    } else {
        r.datasource.clone()
    }
}

fn select_rows(rows: &Vec<ExportInspectionQueryRow>, f: &Option<String>) -> (out: Vec<ExportInspectionQueryRow>)
    ensures
        row_views(out@) == selected_rows(row_views(rows@), crate::import_flow::opt_string(*f)),
{
    let ghost rv = row_views(rows@);
    let ghost fv = crate::import_flow::opt_string(*f);
    let ghost p = |r: QueryRowView| row_selected(r, fv);
    let mut out: Vec<ExportInspectionQueryRow> = Vec::new();
    let mut i: usize = 0;
    while i < rows.len()
        invariant
            i <= rows@.len(),
            rv == row_views(rows@),
            fv == crate::import_flow::opt_string(*f),
            p == (|r: QueryRowView| row_selected(r, fv)),
            row_views(out@) == rv.take(i as int).filter(p),
        decreases rows.len() - i,
    {
        proof {
            assert(rv.take(i + 1) =~= rv.take(i as int).push(rv[i as int]));
            rv.take(i as int).lemma_filter_push(rv[i as int], p);
        }
        let r = &rows[i];
        let k = key_of(r);
        let passes = match f {
            Some(x) => r.datasource == *x || r.datasource_uid == *x,
            None => true,
        };
        if k.as_str().unicode_len() > 0 && passes {
            let ghost before = out@;
            let c = r.duplicate();
            out.push(c);
            proof {
                before.lemma_push_map_commute(|x: ExportInspectionQueryRow| x@, c);
            }
        }
        i = i + 1;
    }
    assert(rv.take(rows@.len() as int) =~= rv);
    out
}

fn rows_with_key(sel: &Vec<ExportInspectionQueryRow>, k: &String) -> (out: Vec<ExportInspectionQueryRow>)
    ensures
        row_views(out@) == key_rows(row_views(sel@), k@),
{
    let ghost rv = row_views(sel@);
    let ghost p = |r: QueryRowView| row_key(r) == k@;
    let mut out: Vec<ExportInspectionQueryRow> = Vec::new();
    let mut i: usize = 0;
    while i < sel.len()
        invariant
            i <= sel@.len(),
            rv == row_views(sel@),
            p == (|r: QueryRowView| row_key(r) == k@),
            row_views(out@) == rv.take(i as int).filter(p),
        decreases sel.len() - i,
    {
        proof {
            assert(rv.take(i + 1) =~= rv.take(i as int).push(rv[i as int]));
            rv.take(i as int).lemma_filter_push(rv[i as int], p);
        }
        let r = &sel[i];
        let rk = key_of(r);
        if rk == *k {
            let ghost before = out@;
            let c = r.duplicate();
            out.push(c);
            proof {
                before.lemma_push_map_commute(|x: ExportInspectionQueryRow| x@, c);
            }
        }
        i = i + 1;
    }
    assert(rv.take(sel@.len() as int) =~= rv);
    out
}

fn collect_keys(sel: &Vec<ExportInspectionQueryRow>) -> (keys: Vec<String>)
    ensures
        lists(views(keys@), key_set(row_views(sel@))),
{
    let ghost rv = row_views(sel@);
    let ghost ks = rv.map_values(|r: QueryRowView| row_key(r));
    let mut keys: Vec<String> = Vec::new();
    let mut i: usize = 0;
    while i < sel.len()
        invariant
            i <= sel@.len(),
            rv == row_views(sel@),
            ks == rv.map_values(|r: QueryRowView| row_key(r)),
            sorted_strict(views(keys@)),
            views(keys@).to_set() == ks.take(i as int).to_set(),
        decreases sel.len() - i,
    {
        proof {
            assert(ks.take(i + 1) =~= ks.take(i as int).push(ks[i as int]));
            ks.take(i as int).lemma_push_to_set_commute(ks[i as int]);
        }
        crate::strset::set_insert(&mut keys, key_of(&sel[i]));
        i = i + 1;
    }
    assert(ks.take(sel@.len() as int) =~= ks);
    keys
}

fn first_nonempty_of(rows: &Vec<ExportInspectionQueryRow>, uid: bool) -> (out: String)
    ensures
        out@ == first_nonempty(
            if uid {
                row_views(rows@).map_values(|r: QueryRowView| r.datasource_uid)
            } else {
                row_views(rows@).map_values(|r: QueryRowView| r.datasource)
            },
        ),
{
    let ghost vs = if uid {
        row_views(rows@).map_values(|r: QueryRowView| r.datasource_uid)
    } else {
        row_views(rows@).map_values(|r: QueryRowView| r.datasource)
    };
    let mut out = String::new();
    proof {
        reveal_strlit("");
        assert(vs.take(0) =~= Seq::<Seq<char>>::empty());
    }
    let mut i: usize = 0;
    while i < rows.len()
        invariant
            i <= rows@.len(),
            vs == (if uid {
                row_views(rows@).map_values(|r: QueryRowView| r.datasource_uid)
            } else {
                row_views(rows@).map_values(|r: QueryRowView| r.datasource)
            }),
            out@ == first_nonempty(vs.take(i as int)),
        decreases rows.len() - i,
    {
        proof {
            assert(vs.take(i + 1).drop_last() =~= vs.take(i as int));
        }
        if out.as_str().unicode_len() == 0 {
            out = if uid {
                rows[i].datasource_uid.clone()
            } else {
                rows[i].datasource.clone()
            };
        }
        i = i + 1;
    }
    assert(vs.take(rows@.len() as int) =~= vs);
    out
}

fn count_dashboards(rows: &Vec<ExportInspectionQueryRow>) -> (n: usize)
    ensures
        n == row_views(rows@).map_values(|r: QueryRowView| r.dashboard_uid).to_set().len(),
{
    let ghost us = row_views(rows@).map_values(|r: QueryRowView| r.dashboard_uid);
    let mut uids: Vec<String> = Vec::new();
    let mut i: usize = 0;
    while i < rows.len()
        invariant
            i <= rows@.len(),
            us == row_views(rows@).map_values(|r: QueryRowView| r.dashboard_uid),
            views(uids@) == us.take(i as int),
        decreases rows.len() - i,
    {
        let ghost before = uids@;
        let u = rows[i].dashboard_uid.clone();
        uids.push(u);
        proof {
            before.lemma_push_map_commute(|s: String| s@, u);
            assert(us.take(i + 1) =~= us.take(i as int).push(u@));
        }
        i = i + 1;
    }
    assert(us.take(rows@.len() as int) =~= us);
    crate::strset::count_distinct(uids.as_slice())
}

fn count_panels(rows: &Vec<ExportInspectionQueryRow>) -> (n: usize)
    ensures
        n == row_views(rows@).map_values(|r: QueryRowView| (r.dashboard_uid, r.panel_id)).to_set().len(),
{
    let ghost ts = row_views(rows@).map_values(|r: QueryRowView| (r.dashboard_uid, r.panel_id));
    let mut reps: Vec<usize> = Vec::new();
    let mut i: usize = 0;
    while i < rows.len()
        invariant
            i <= rows.len(),
            ts == row_views(rows@).map_values(|r: QueryRowView| (r.dashboard_uid, r.panel_id)),
            forall|k: int| 0 <= k < reps@.len() ==> #[trigger] reps@[k] < i,
            reps@.map_values(|j: usize| ts[j as int]).no_duplicates(),
            reps@.map_values(|j: usize| ts[j as int]).to_set() == ts.take(i as int).to_set(),
        decreases rows.len() - i,
    {
        let ghost rv = reps@.map_values(|j: usize| ts[j as int]);
        let mut found = false;
        let mut k: usize = 0;
        while k < reps.len()
            invariant
                k <= reps.len(),
                i < rows.len(),
                ts == row_views(rows@).map_values(|r: QueryRowView| (r.dashboard_uid, r.panel_id)),
                forall|q: int| 0 <= q < reps@.len() ==> #[trigger] reps@[q] < i,
                rv == reps@.map_values(|j: usize| ts[j as int]),
                found ==> rv.contains(ts[i as int]),
                !found ==> forall|q: int| 0 <= q < k ==> rv[q] != ts[i as int],
            decreases reps.len() - k,
        {
            let j = reps[k];
            if rows[j].dashboard_uid == rows[i].dashboard_uid && rows[j].panel_id == rows[i].panel_id {
                assert(rv[k as int] == ts[i as int]);
                found = true;
            }
            k = k + 1;
        }
        proof {
            assert(ts.take(i + 1) == ts.take(i as int).push(ts[i as int]));
            ts.take(i as int).lemma_push_to_set_commute(ts[i as int]);
        }
        if !found {
            reps.push(i);
            proof {
                let nv = reps@.map_values(|j: usize| ts[j as int]);
                assert(nv == rv.push(ts[i as int]));
                assert(!rv.contains(ts[i as int]));
                rv.lemma_push_to_set_commute(ts[i as int]);
            }
        } else {
            proof {
                assert(rv.to_set().contains(ts[i as int]));
                assert(ts.take(i as int).to_set().insert(ts[i as int]) =~= ts.take(i as int).to_set());
            }
        }
        i = i + 1;
    }
    proof {
        assert(ts.take(rows@.len() as int) == ts);
        reps@.map_values(|j: usize| ts[j as int]).unique_seq_to_set();
    }
    reps.len()
}

} // verus!
verus! {

/// The usage the queries of one key add up to.
struct Usage {
    datasource: String,
    datasource_uid: String,
    dashboard_count: usize,
    panel_count: usize,
    query_count: usize,
    metrics: Vec<String>,
    measurements: Vec<String>,
    buckets: Vec<String>,
}

impl Usage {
    spec fn state(&self) -> UsageState {
        UsageState {
            datasource: self.datasource@,
            datasource_uid: self.datasource_uid@,
            dashboard_count: self.dashboard_count as nat,
            panel_count: self.panel_count as nat,
            query_count: self.query_count as nat,
            metrics: views(self.metrics@),
            measurements: views(self.measurements@),
            buckets: views(self.buckets@),
        }
    }
}

fn usage_of(sel: &Vec<ExportInspectionQueryRow>, k: &String) -> (u: Usage)
    ensures
        u.state() == state_of(row_views(sel@), k@),
{
    let kr = rows_with_key(sel, k);
    Usage {
        datasource: first_nonempty_of(&kr, false),
        datasource_uid: first_nonempty_of(&kr, true),
        dashboard_count: count_dashboards(&kr),
        panel_count: count_panels(&kr),
        query_count: kr.len(),
        metrics: ordered_unique_strings(crate::dependencies::gather_list(&kr, RowList::Metrics).as_slice()),
        measurements: ordered_unique_strings(crate::dependencies::gather_list(&kr, RowList::Measurements).as_slice()),
        buckets: ordered_unique_strings(crate::dependencies::gather_list(&kr, RowList::Buckets).as_slice()),
    }
}

fn summary_less(a: &ExportInspectionDatasourceSummaryRow, b: &ExportInspectionDatasourceSummaryRow) -> (r: bool)
    ensures
        r == summary_lt(a@, b@),
{
    crate::text::str_less(a.datasource.as_str(), b.datasource.as_str()) || (a.datasource == b.datasource
        && crate::text::str_less(a.datasource_uid.as_str(), b.datasource_uid.as_str()))
}

fn insert_in_order(sorted: &mut Vec<ExportInspectionDatasourceSummaryRow>, r: ExportInspectionDatasourceSummaryRow)
    ensures
        summary_row_views(final(sorted)@) == summary_row_views(old(sorted)@).insert(
            summary_position(summary_row_views(old(sorted)@), r@),
            r@,
        ),
{
    let ghost t = summary_row_views(sorted@);
    let mut pos: usize = 0;
    assert(t.skip(0) == t);
    while pos < sorted.len() && !summary_less(&r, &sorted[pos])
        invariant
            pos <= sorted@.len(),
            t == summary_row_views(sorted@),
            sorted@ == old(sorted)@,
            summary_position(t, r@) == pos + summary_position(t.skip(pos as int), r@),
        decreases sorted.len() - pos,
    {
        proof {
            assert(t.skip(pos as int).drop_first() == t.skip(pos + 1));
            assert(t.skip(pos as int)[0] == t[pos as int]);
        }
        pos = pos + 1;
    }
    proof {
        if pos < sorted@.len() {
            assert(t.skip(pos as int)[0] == t[pos as int]);
        } else {
            assert(t.skip(pos as int).len() == 0);
        }
    }
    sorted.insert(pos, r);
    proof {
        assert(summary_row_views(sorted@) =~= t.insert(pos as int, r@));
    }
}

fn sort_summary_rows(rows: Vec<ExportInspectionDatasourceSummaryRow>) -> (out: Vec<ExportInspectionDatasourceSummaryRow>)
    ensures
        summary_row_views(out@) == summary_sort(summary_row_views(rows@)),
{
    let ghost s = summary_row_views(rows@);
    let mut out: Vec<ExportInspectionDatasourceSummaryRow> = Vec::new();
    let mut rows = rows;
    let mut taken: Vec<ExportInspectionDatasourceSummaryRow> = Vec::new();
    let ghost n = rows@.len();
    // Rows are taken from the back so each can be moved; the order of
    // insertion is restored by reversing.
    while rows.len() > 0
        invariant
            rows@.len() + taken@.len() == n,
            summary_row_views(rows@) == s.take(rows@.len() as int),
            forall|k: int| 0 <= k < taken@.len() ==> (#[trigger] taken@[k])@ == s[n - 1 - k],
            s.len() == n,
        decreases rows.len(),
    {
        let ghost before = rows@;
        let r = rows.pop().unwrap();
        proof {
            assert(summary_row_views(rows@) =~= s.take(rows@.len() as int));
            assert(r == before[before.len() - 1]);
            assert(summary_row_views(before)[before.len() - 1] == r@);
            assert(r@ == s[rows@.len() as int]);
        }
        let ghost tb = taken@;
        taken.push(r);
        proof {
            assert forall|k: int| 0 <= k < taken@.len() implies (#[trigger] taken@[k])@ == s[n - 1 - k] by {
                if k < tb.len() {
                    assert(taken@[k] == tb[k]);
                }
            }
        }
    }
    let mut i: usize = taken.len();
    while i > 0
        invariant
            i <= n,
            s.len() == n,
            forall|k: int| 0 <= k < taken@.len() ==> (#[trigger] taken@[k])@ == s[n - 1 - k],
            summary_row_views(out@) == summary_sort(s.take(n - i)),
            taken@.len() == i,
        decreases i,
    {
        let ghost tb = taken@;
        let r = taken.pop().unwrap();
        proof {
            assert(s.take(n - i + 1).drop_last() =~= s.take(n - i));
            assert(r == tb[i - 1]);
            assert(r@ == s[n - i]);
            assert forall|k: int| 0 <= k < taken@.len() implies (#[trigger] taken@[k])@ == s[n - 1 - k] by {
                assert(taken@[k] == tb[k]);
            }
        }
        insert_in_order(&mut out, r);
        i = i - 1;
    }
    assert(s.take(n as int) =~= s);
    out
}

} // verus!
verus! {

fn inventory_summary_row(d: &crate::summary::DatasourceInventorySummary, usage: Option<&Usage>) -> (r:
    ExportInspectionDatasourceSummaryRow)
    ensures
        r@ == inventory_row(
            d@,
            match usage {
                Some(u) => Some(u.state()),
                None => None,
            },
        ),
{
    let (dc, pc, qc, m, me, b) = match usage {
        Some(u) => (
            u.dashboard_count,
            u.panel_count,
            u.query_count,
            crate::text::clone_strings(u.metrics.as_slice()),
            crate::text::clone_strings(u.measurements.as_slice()),
            crate::text::clone_strings(u.buckets.as_slice()),
        ),
        None => (0, 0, 0, Vec::new(), Vec::new(), Vec::new()),
    };
    let r = ExportInspectionDatasourceSummaryRow {
        datasource: d.name.clone(),
        datasource_uid: d.uid.clone(),
        datasource_type: d.datasource_type.clone(),
        family: crate::report::normalize_datasource_family(d.datasource_type.as_str()),
        dashboard_count: dc,
        panel_count: pc,
        query_count: qc,
        orphaned: crate::text::bool_string(dc == 0 && qc == 0),
        metrics: m,
        measurements: me,
        buckets: b,
    };
    proof {
        if usage is None {
            assert(views(r.metrics@) =~= Seq::<Seq<char>>::empty());
            assert(views(r.measurements@) =~= Seq::<Seq<char>>::empty());
            assert(views(r.buckets@) =~= Seq::<Seq<char>>::empty());
        }
    }
    r
}

fn unlisted_summary_row(u: &Usage) -> (r: ExportInspectionDatasourceSummaryRow)
    ensures
        r@ == unlisted_row(u.state()),
{
    let r = ExportInspectionDatasourceSummaryRow {
        datasource: u.datasource.clone(),
        datasource_uid: u.datasource_uid.clone(),
        datasource_type: String::new(),
        family: owned("unknown"),
        dashboard_count: u.dashboard_count,
        panel_count: u.panel_count,
        query_count: u.query_count,
        orphaned: owned("false"),
        metrics: crate::text::clone_strings(u.metrics.as_slice()),
        measurements: crate::text::clone_strings(u.measurements.as_slice()),
        buckets: crate::text::clone_strings(u.buckets.as_slice()),
    };
    proof {
        reveal_strlit("");
    }
    r
}

fn position_of(keys: &Vec<String>, k: &String) -> (r: Option<usize>)
    ensures
        match r {
            Some(p) => p < keys@.len() && keys@[p as int]@ == k@,
            None => !views(keys@).contains(k@),
        },
{
    let mut i: usize = 0;
    while i < keys.len()
        invariant
            i <= keys@.len(),
            forall|q: int| 0 <= q < i ==> keys@[q]@ != k@,
        decreases keys.len() - i,
    {
        if keys[i] == *k {
            return Some(i);
        }
        i = i + 1;
    }
    proof {
        if views(keys@).contains(k@) {
            let q = choose|q: int| 0 <= q < views(keys@).len() && views(keys@)[q] == k@;
            assert(keys@[q]@ == k@);
        }
    }
    None
}

/// The rows whose orphaned flag reads `true`.
pub open spec fn orphaned_count(rows: Seq<SummaryRowView>) -> nat {
    rows.filter(|r: SummaryRowView| r.orphaned == "true"@).len()
}

/// The rows whose orphaned flag reads anything else.
pub open spec fn active_count(rows: Seq<SummaryRowView>) -> nat {
    rows.filter(|r: SummaryRowView| r.orphaned != "true"@).len()
}

fn count_orphaned_rows(rows: &Vec<ExportInspectionDatasourceSummaryRow>) -> (r: (usize, usize))
    ensures
        r.0 == active_count(summary_row_views(rows@)),
        r.1 == orphaned_count(summary_row_views(rows@)),
{
    let ghost s = summary_row_views(rows@);
    let ghost pa = |r: SummaryRowView| r.orphaned != "true"@;
    let ghost po = |r: SummaryRowView| r.orphaned == "true"@;
    let mut active: usize = 0;
    let mut orphaned: usize = 0;
    let mut i: usize = 0;
    while i < rows.len()
        invariant
            i <= rows@.len(),
            s == summary_row_views(rows@),
            pa == (|r: SummaryRowView| r.orphaned != "true"@),
            po == (|r: SummaryRowView| r.orphaned == "true"@),
            active == s.take(i as int).filter(pa).len(),
            orphaned == s.take(i as int).filter(po).len(),
            active <= i,
            orphaned <= i,
        decreases rows.len() - i,
    {
        proof {
            assert(s.take(i + 1) =~= s.take(i as int).push(s[i as int]));
            s.take(i as int).lemma_filter_push(s[i as int], pa);
            s.take(i as int).lemma_filter_push(s[i as int], po);
        }
        if crate::text::str_is(rows[i].orphaned.as_str(), "true") {
            orphaned = orphaned + 1;
        } else {
            active = active + 1;
        }
        i = i + 1;
    }
    assert(s.take(rows@.len() as int) =~= s);
    (active, orphaned)
}

/// Builds the datasource summary of an export: one row per inventory
/// datasource that passes the filter or that queries use, then one per
/// datasource the queries use that the inventory lacks, sorted by name and
/// UID, with the counts of active and orphaned datasources.
pub fn build_export_inspection_datasource_summary_document(
    summary: &ExportInspectionSummary,
    report: &ExportInspectionQueryReport,
    datasource_filter: Option<&str>,
) -> (doc: ExportInspectionDatasourceSummaryDocument)
    ensures
        summary_row_views(doc.datasources@) == summary_rows(
            inventory_views(summary.datasource_inventory@),
            row_views(report.queries@),
            crate::inspect_flow::filter_value(crate::import::opt_view(datasource_filter)),
        ),
        doc.summary.dashboard_count == report.summary.dashboard_count,
        doc.summary.query_record_count == report.queries@.len(),
        doc.summary.datasource_count == doc.datasources@.len(),
        doc.summary.active_datasource_count == active_count(summary_row_views(doc.datasources@)),
        doc.summary.orphaned_datasource_count == orphaned_count(summary_row_views(doc.datasources@)),
{
    let f = crate::inspect_flow::trimmed_filter(datasource_filter);
    let ghost fv = crate::import_flow::opt_string(f);
    let sel = select_rows(&report.queries, &f);
    let ghost selv = row_views(sel@);
    let keys = collect_keys(&sel);
    proof {
        let l = sorted_keys(selv);
        assert(lists(views(keys@), key_set(selv)));
        assert(lists(l, key_set(selv)));
        crate::strset::lemma_listing_unique(views(keys@), l);
    }
    let mut usages: Vec<Usage> = Vec::new();
    let mut j: usize = 0;
    while j < keys.len()
        invariant
            j <= keys@.len(),
            usages@.len() == j,
            forall|q: int| 0 <= q < j ==> (#[trigger] usages@[q]).state() == state_of(selv, keys@[q]@),
            selv == row_views(sel@),
        decreases keys.len() - j,
    {
        usages.push(usage_of(&sel, &keys[j]));
        j = j + 1;
    }
    let inventory = &summary.datasource_inventory;
    let ghost inv = inventory_views(inventory@);
    let mut rows: Vec<ExportInspectionDatasourceSummaryRow> = Vec::new();
    let mut seen: Vec<String> = Vec::new();
    let mut i: usize = 0;
    while i < inventory.len()
        invariant
            i <= inventory@.len(),
            inv == inventory_views(inventory@),
            selv == row_views(sel@),
            fv == crate::import_flow::opt_string(f),
            lists(views(keys@), key_set(selv)),
            usages@.len() == keys@.len(),
            forall|q: int| 0 <= q < keys@.len() ==> (#[trigger] usages@[q]).state() == state_of(selv, keys@[q]@),
            views(seen@) == inv.take(i as int).map_values(|d: InventoryView| inventory_key(d)),
            summary_row_views(rows@) == inventory_rows(inv.take(i as int), selv, fv),
        decreases inventory.len() - i,
    {
        let d = &inventory[i];
        let k = if d.uid.as_str().unicode_len() == 0 {
            d.name.clone()
        } else {
            d.uid.clone()
        };
        assert(inv[i as int] == d@);
        let matches = match &f {
            Some(x) => d.uid == *x || d.name == *x,
            None => true,
        };
        let pos = position_of(&keys, &k);
        let earlier = crate::report::contains_string_in(&seen, &k);
        let claims = pos.is_some() && !earlier;
        proof {
            let t = inv.take(i + 1);
            assert(t.drop_last() =~= inv.take(i as int));
            assert(t.last() == inv[i as int]);
            assert(key_set(selv).contains(k@) == views(keys@).contains(k@)) by {
                if pos.is_some() {
                    assert(views(keys@)[pos.unwrap() as int] == k@);
                }
            }
            assert(inventory_key(t.last()) == k@);
            assert(pos.is_some() == views(keys@).contains(k@)) by {
                if pos.is_some() {
                    assert(views(keys@)[pos.unwrap() as int] == k@);
                }
            }
            assert(earlier == views(seen@).contains(k@));
            assert(t.drop_last().map_values(|d: InventoryView| inventory_key(d)) == views(seen@));
            assert(claims == claims_usage(t, selv));
        }
        if matches || claims {
            let u: Option<&Usage> = if claims {
                Some(&usages[pos.unwrap()])
            } else {
                None
            };
            let row = inventory_summary_row(d, u);
            let ghost before = rows@;
            rows.push(row);
            proof {
                before.lemma_push_map_commute(|r: ExportInspectionDatasourceSummaryRow| r@, row);
            }
        }
        let ghost sb = seen@;
        seen.push(k);
        proof {
            sb.lemma_push_map_commute(|s: String| s@, k);
            assert(inv.take(i + 1).map_values(|d: InventoryView| inventory_key(d))
                =~= inv.take(i as int).map_values(|d: InventoryView| inventory_key(d)).push(k@));
        }
        i = i + 1;
    }
    assert(inv.take(inventory@.len() as int) =~= inv);
    let ghost head = summary_row_views(rows@);
    let ghost kv = views(keys@);
    let mut j: usize = 0;
    while j < keys.len()
        invariant
            j <= keys@.len(),
            kv == views(keys@),
            selv == row_views(sel@),
            fv == crate::import_flow::opt_string(f),
            usages@.len() == keys@.len(),
            forall|q: int| 0 <= q < keys@.len() ==> (#[trigger] usages@[q]).state() == state_of(selv, keys@[q]@),
            views(seen@) == inv.map_values(|d: InventoryView| inventory_key(d)),
            summary_row_views(rows@) == head + unlisted_rows(kv.take(j as int), inv, selv, fv),
        decreases keys.len() - j,
    {
        proof {
            assert(kv.take(j + 1).drop_last() =~= kv.take(j as int));
            assert(kv.take(j + 1).last() == keys@[j as int]@);
        }
        let k = &keys[j];
        let u = &usages[j];
        let listed = crate::report::contains_string_in(&seen, k);
        let matches = match &f {
            Some(x) => *k == *x || u.datasource == *x || u.datasource_uid == *x,
            None => true,
        };
        if !listed && matches {
            let row = unlisted_summary_row(u);
            let ghost before = rows@;
            rows.push(row);
            proof {
                before.lemma_push_map_commute(|r: ExportInspectionDatasourceSummaryRow| r@, row);
            }
        }
        j = j + 1;
    }
    assert(kv.take(keys@.len() as int) =~= kv);
    let rows = sort_summary_rows(rows);
    let (active, orphaned) = count_orphaned_rows(&rows);
    ExportInspectionDatasourceSummaryDocument {
        summary: ExportInspectionDatasourceSummaryDocumentSummary {
            dashboard_count: report.summary.dashboard_count,
            query_record_count: report.queries.len(),
            datasource_count: rows.len(),
            active_datasource_count: active,
            orphaned_datasource_count: orphaned,
        },
        datasources: rows,
    }
}

} // verus!
