//! Grouping of query rows by dashboard and panel, in first-seen order, and
//! the tree rendering built on it.
use vstd::prelude::*;

use crate::report::{
    clone_rows, row_views, ExportInspectionQueryReport, ExportInspectionQueryRow,
    GroupedQueryDashboard, GroupedQueryPanel, NormalizedQueryReport, QueryRowView,
};
use crate::strset::views;
use crate::text::{decimal, join, join_strings, owned, usize_text};

verus! {

/// The identity of a panel within a dashboard: id, title and type.
pub open spec fn panel_identity(r: QueryRowView) -> (Seq<char>, Seq<char>, Seq<char>) {
    (r.panel_id, r.panel_title, r.panel_type)
}

pub ghost struct PanelGroupView {
    pub panel_id: Seq<char>,
    pub panel_title: Seq<char>,
    pub panel_type: Seq<char>,
    pub queries: Seq<QueryRowView>,
}

pub ghost struct DashboardGroupView {
    pub dashboard_uid: Seq<char>,
    pub dashboard_title: Seq<char>,
    pub folder_path: Seq<char>,
    pub panels: Seq<PanelGroupView>,
}

impl View for GroupedQueryPanel {
    type V = PanelGroupView;

    open spec fn view(&self) -> PanelGroupView {
        PanelGroupView {
            panel_id: self.panel_id@,
            panel_title: self.panel_title@,
            panel_type: self.panel_type@,
            queries: row_views(self.queries@),
        }
    }
}

impl View for GroupedQueryDashboard {
    type V = DashboardGroupView;

    open spec fn view(&self) -> DashboardGroupView {
        DashboardGroupView {
            dashboard_uid: self.dashboard_uid@,
            dashboard_title: self.dashboard_title@,
            folder_path: self.folder_path@,
            panels: self.panels@.map_values(|p: GroupedQueryPanel| p@),
        }
    }
}

/// The rows of one dashboard, in order.
pub open spec fn dashboard_rows(rows: Seq<QueryRowView>, uid: Seq<char>) -> Seq<QueryRowView> {
    rows.filter(|r: QueryRowView| r.dashboard_uid == uid)
}

/// The rows of one panel, in order.
pub open spec fn panel_rows(rows: Seq<QueryRowView>, k: (Seq<char>, Seq<char>, Seq<char>)) -> Seq<QueryRowView> {
    rows.filter(|r: QueryRowView| panel_identity(r) == k)
}

/// The panels of a dashboard's rows, each once in first-seen order, with
/// their rows.
pub open spec fn group_panels(drows: Seq<QueryRowView>) -> Seq<PanelGroupView> {
    let keys = drows.map_values(|r: QueryRowView| panel_identity(r)).remove_duplicates(Seq::empty());
    keys.map_values(
        |k: (Seq<char>, Seq<char>, Seq<char>)|
            PanelGroupView { panel_id: k.0, panel_title: k.1, panel_type: k.2, queries: panel_rows(drows, k) },
    )
}

/// The dashboards of the rows, each once in first-seen order, labelled by
/// their first row, with their panels.
pub open spec fn group_dashboards(rows: Seq<QueryRowView>) -> Seq<DashboardGroupView> {
    let uids = rows.map_values(|r: QueryRowView| r.dashboard_uid).remove_duplicates(Seq::empty());
    uids.map_values(
        |u: Seq<char>|
            {
                let d = dashboard_rows(rows, u);
                DashboardGroupView {
                    dashboard_uid: u,
                    dashboard_title: d[0].dashboard_title,
                    folder_path: d[0].folder_path,
                    panels: group_panels(d),
                }
            },
    )
}

pub open spec fn group_views(v: Seq<GroupedQueryDashboard>) -> Seq<DashboardGroupView> {
    v.map_values(|d: GroupedQueryDashboard| d@)
}

/// First occurrences of the values produced by `key` over the rows: indices
/// of the first row of each distinct value.
fn dashboard_firsts(rows: &Vec<ExportInspectionQueryRow>) -> (firsts: Vec<usize>)
    ensures
        firsts@.map_values(|i: usize| row_views(rows@)[i as int].dashboard_uid)
            == row_views(rows@).map_values(|r: QueryRowView| r.dashboard_uid).remove_duplicates(Seq::empty()),
        forall|q: int| 0 <= q < firsts@.len() ==> #[trigger] firsts@[q] < rows@.len(),
{
    let ghost rv = row_views(rows@);
    let ghost us = rv.map_values(|r: QueryRowView| r.dashboard_uid);
    let mut firsts: Vec<usize> = Vec::new();
    let mut i: usize = 0;
    while i < rows.len()
        invariant
            i <= rows@.len(),
            rv == row_views(rows@),
            us == rv.map_values(|r: QueryRowView| r.dashboard_uid),
            forall|q: int| 0 <= q < firsts@.len() ==> #[trigger] firsts@[q] < i,
            firsts@.map_values(|j: usize| rv[j as int].dashboard_uid) == us.take(i as int).remove_duplicates(Seq::empty()),
        decreases rows.len() - i,
    {
        let ghost fv = firsts@.map_values(|j: usize| rv[j as int].dashboard_uid);
        let mut found = false;
        let mut k: usize = 0;
        while k < firsts.len()
            invariant
                k <= firsts@.len(),
                i < rows@.len(),
                rv == row_views(rows@),
                forall|q: int| 0 <= q < firsts@.len() ==> #[trigger] firsts@[q] < i,
                fv == firsts@.map_values(|j: usize| rv[j as int].dashboard_uid),
                found ==> fv.contains(rv[i as int].dashboard_uid),
                !found ==> forall|q: int| 0 <= q < k ==> fv[q] != rv[i as int].dashboard_uid,
            decreases firsts.len() - k,
        {
            if rows[firsts[k]].dashboard_uid == rows[i].dashboard_uid {
                assert(fv[k as int] == rv[i as int].dashboard_uid);
                found = true;
            }
            k = k + 1;
        }
        let ghost p = us.take(i as int);
        proof {
            assert(us.take(i + 1) == p + seq![us[i as int]]);
            p.lemma_remove_duplicates_properties(Seq::empty());
            p.lemma_remove_duplicates_append(us[i as int], Seq::empty());
            assert(p + Seq::<Seq<char>>::empty() == p);
            if !found {
                assert(!fv.contains(rv[i as int].dashboard_uid));
            }
        }
        if !found {
            let ghost before = firsts@;
            firsts.push(i);
            proof {
                assert(firsts@.map_values(|j: usize| rv[j as int].dashboard_uid) =~= fv.push(us[i as int]));
            }
        }
        i = i + 1;
    }
    assert(us.take(rows@.len() as int) == us);
    firsts
}

/// The rows of one dashboard, copied in order.
pub fn rows_of_dashboard(rows: &Vec<ExportInspectionQueryRow>, uid: &String) -> (out: Vec<ExportInspectionQueryRow>)
    ensures
        row_views(out@) == dashboard_rows(row_views(rows@), uid@),
{
    let ghost rv = row_views(rows@);
    let ghost p = |r: QueryRowView| r.dashboard_uid == uid@;
    let mut out: Vec<ExportInspectionQueryRow> = Vec::new();
    let mut i: usize = 0;
    while i < rows.len()
        invariant
            i <= rows@.len(),
            rv == row_views(rows@),
            p == (|r: QueryRowView| r.dashboard_uid == uid@),
            row_views(out@) == rv.take(i as int).filter(p),
        decreases rows.len() - i,
    {
        proof {
            assert(rv.take(i + 1) == rv.take(i as int).push(rv[i as int]));
            rv.take(i as int).lemma_filter_push(rv[i as int], p);
        }
        if rows[i].dashboard_uid == *uid {
            let ghost before = out@;
            let d = rows[i].duplicate();
            out.push(d);
            proof {
                before.lemma_push_map_commute(|r: ExportInspectionQueryRow| r@, d);
            }
        }
        i = i + 1;
    }
    assert(rv.take(rows@.len() as int) == rv);
    out
}

/// The rows of one panel identity, copied in order.
fn rows_of_panel(rows: &Vec<ExportInspectionQueryRow>, id: &String, title: &String, ty: &String) -> (out: Vec<ExportInspectionQueryRow>)
    ensures
        row_views(out@) == panel_rows(row_views(rows@), (id@, title@, ty@)),
{
    let ghost rv = row_views(rows@);
    let ghost p = |r: QueryRowView| panel_identity(r) == (id@, title@, ty@);
    let mut out: Vec<ExportInspectionQueryRow> = Vec::new();
    let mut i: usize = 0;
    while i < rows.len()
        invariant
            i <= rows@.len(),
            rv == row_views(rows@),
            p == (|r: QueryRowView| panel_identity(r) == (id@, title@, ty@)),
            row_views(out@) == rv.take(i as int).filter(p),
        decreases rows.len() - i,
    {
        proof {
            assert(rv.take(i + 1) == rv.take(i as int).push(rv[i as int]));
            rv.take(i as int).lemma_filter_push(rv[i as int], p);
        }
        if rows[i].panel_id == *id && rows[i].panel_title == *title && rows[i].panel_type == *ty {
            let ghost before = out@;
            let d = rows[i].duplicate();
            out.push(d);
            proof {
                before.lemma_push_map_commute(|r: ExportInspectionQueryRow| r@, d);
            }
        }
        i = i + 1;
    }
    assert(rv.take(rows@.len() as int) == rv);
    out
}

/// The distinct panels of some rows, in first-seen order.
fn panel_firsts(rows: &Vec<ExportInspectionQueryRow>) -> (firsts: Vec<usize>)
    ensures
        firsts@.map_values(|i: usize| panel_identity(row_views(rows@)[i as int]))
            == row_views(rows@).map_values(|r: QueryRowView| panel_identity(r)).remove_duplicates(Seq::empty()),
        forall|q: int| 0 <= q < firsts@.len() ==> #[trigger] firsts@[q] < rows@.len(),
{
    let ghost rv = row_views(rows@);
    let ghost us = rv.map_values(|r: QueryRowView| panel_identity(r));
    let mut firsts: Vec<usize> = Vec::new();
    let mut i: usize = 0;
    while i < rows.len()
        invariant
            i <= rows@.len(),
            rv == row_views(rows@),
            us == rv.map_values(|r: QueryRowView| panel_identity(r)),
            forall|q: int| 0 <= q < firsts@.len() ==> #[trigger] firsts@[q] < i,
            firsts@.map_values(|j: usize| panel_identity(rv[j as int])) == us.take(i as int).remove_duplicates(Seq::empty()),
        decreases rows.len() - i,
    {
        let ghost fv = firsts@.map_values(|j: usize| panel_identity(rv[j as int]));
        let mut found = false;
        let mut k: usize = 0;
        while k < firsts.len()
            invariant
                k <= firsts@.len(),
                i < rows@.len(),
                rv == row_views(rows@),
                forall|q: int| 0 <= q < firsts@.len() ==> #[trigger] firsts@[q] < i,
                fv == firsts@.map_values(|j: usize| panel_identity(rv[j as int])),
                found ==> fv.contains(panel_identity(rv[i as int])),
                !found ==> forall|q: int| 0 <= q < k ==> fv[q] != panel_identity(rv[i as int]),
            decreases firsts.len() - k,
        {
            let j = firsts[k];
            if rows[j].panel_id == rows[i].panel_id && rows[j].panel_title == rows[i].panel_title
                && rows[j].panel_type == rows[i].panel_type {
                assert(fv[k as int] == panel_identity(rv[i as int]));
                found = true;
            }
            k = k + 1;
        }
        let ghost p = us.take(i as int);
        proof {
            assert(us.take(i + 1) == p + seq![us[i as int]]);
            p.lemma_remove_duplicates_properties(Seq::empty());
            p.lemma_remove_duplicates_append(us[i as int], Seq::empty());
            assert(p + Seq::<(Seq<char>, Seq<char>, Seq<char>)>::empty() == p);
            if !found {
                assert(!fv.contains(panel_identity(rv[i as int])));
            }
        }
        if !found {
            firsts.push(i);
            proof {
                assert(firsts@.map_values(|j: usize| panel_identity(rv[j as int])) =~= fv.push(us[i as int]));
            }
        }
        i = i + 1;
    }
    assert(us.take(rows@.len() as int) == us);
    firsts
}

/// Groups query rows by dashboard and panel so report output is
/// deterministic and renderable.
pub fn normalize_query_report(report: &ExportInspectionQueryReport) -> (n: NormalizedQueryReport)
    ensures
        n.import_dir@ == report.import_dir@,
        n.summary == report.summary,
        group_views(n.dashboards@) == group_dashboards(row_views(report.queries@)),
{
    let ghost rv = row_views(report.queries@);
    let firsts = dashboard_firsts(&report.queries);
    let ghost uids = rv.map_values(|r: QueryRowView| r.dashboard_uid).remove_duplicates(Seq::empty());
    let mut dashboards: Vec<GroupedQueryDashboard> = Vec::new();
    let mut a: usize = 0;
    while a < firsts.len()
        invariant
            a <= firsts@.len(),
            rv == row_views(report.queries@),
            uids == rv.map_values(|r: QueryRowView| r.dashboard_uid).remove_duplicates(Seq::empty()),
            firsts@.map_values(|i: usize| rv[i as int].dashboard_uid) == uids,
            forall|q: int| 0 <= q < firsts@.len() ==> #[trigger] firsts@[q] < rv.len(),
            group_views(dashboards@) == group_dashboards(rv).take(a as int),
        decreases firsts.len() - a,
    {
        let uid = report.queries[firsts[a]].dashboard_uid.clone();
        assert(uid@ == uids[a as int]);
        let drows = rows_of_dashboard(&report.queries, &uid);
        let ghost dr = row_views(drows@);
        proof {
            let us = rv.map_values(|r: QueryRowView| r.dashboard_uid);
            us.lemma_remove_duplicates_properties(Seq::empty());
            assert(uids.contains(uid@));
            let q = choose|q: int| 0 <= q < us.len() && us[q] == uid@;
            crate::coverage::lemma_filter_contains_index_pub(rv, |r: QueryRowView| r.dashboard_uid == uid@, q);
        }
        let pfirsts = panel_firsts(&drows);
        let ghost pkeys = dr.map_values(|r: QueryRowView| panel_identity(r)).remove_duplicates(Seq::empty());
        let mut panels: Vec<GroupedQueryPanel> = Vec::new();
        let mut b: usize = 0;
        while b < pfirsts.len()
            invariant
                b <= pfirsts@.len(),
                dr == row_views(drows@),
                pkeys == dr.map_values(|r: QueryRowView| panel_identity(r)).remove_duplicates(Seq::empty()),
                pfirsts@.map_values(|i: usize| panel_identity(dr[i as int])) == pkeys,
                forall|q: int| 0 <= q < pfirsts@.len() ==> #[trigger] pfirsts@[q] < dr.len(),
                panels@.map_values(|p: GroupedQueryPanel| p@) == group_panels(dr).take(b as int),
            decreases pfirsts.len() - b,
        {
            let r = &drows[pfirsts[b]];
            assert(panel_identity(r@) == pkeys[b as int]);
            let queries = rows_of_panel(&drows, &r.panel_id, &r.panel_title, &r.panel_type);
            let p = GroupedQueryPanel {
                panel_id: r.panel_id.clone(),
                panel_title: r.panel_title.clone(),
                panel_type: r.panel_type.clone(),
                queries,
            };
            let ghost before = panels@;
            panels.push(p);
            proof {
                before.lemma_push_map_commute(|p: GroupedQueryPanel| p@, p);
                assert(group_panels(dr).take(b + 1) =~= group_panels(dr).take(b as int).push(group_panels(dr)[b as int]));
            }
            b = b + 1;
        }
        assert(group_panels(dr).take(pfirsts@.len() as int) =~= group_panels(dr));
        let first_row = &drows[0];
        let dash = GroupedQueryDashboard {
            dashboard_uid: uid,
            dashboard_title: first_row.dashboard_title.clone(),
            folder_path: first_row.folder_path.clone(),
            panels,
        };
        let ghost before = dashboards@;
        dashboards.push(dash);
        proof {
            before.lemma_push_map_commute(|d: GroupedQueryDashboard| d@, dash);
            assert(group_dashboards(rv).take(a + 1) =~= group_dashboards(rv).take(a as int).push(group_dashboards(rv)[a as int]));
        }
        a = a + 1;
    }
    assert(group_dashboards(rv).take(firsts@.len() as int) =~= group_dashboards(rv));
    NormalizedQueryReport {
        import_dir: report.import_dir.clone(),
        summary: report.summary.duplicate(),
        dashboards,
    }
}

/// Every dashboard group stands for at least one row.
pub proof fn lemma_group_has_rows(rows: Seq<QueryRowView>, k: int)
    requires
        0 <= k < group_dashboards(rows).len(),
    ensures
        dashboard_rows(rows, group_dashboards(rows)[k].dashboard_uid).len() > 0,
{
    let us = rows.map_values(|r: QueryRowView| r.dashboard_uid);
    let uids = us.remove_duplicates(Seq::empty());
    us.lemma_remove_duplicates_properties(Seq::empty());
    let uid = uids[k];
    assert(group_dashboards(rows)[k].dashboard_uid == uid);
    assert(uids.contains(uid));
    let q = choose|q: int| 0 <= q < us.len() && us[q] == uid;
    crate::coverage::lemma_filter_contains_index_pub(rows, |r: QueryRowView| r.dashboard_uid == uid, q);
}

/// The panel identities of some rows, each once, in first-seen order.
pub open spec fn panel_keys(rows: Seq<QueryRowView>) -> Seq<(Seq<char>, Seq<char>, Seq<char>)> {
    rows.map_values(|r: QueryRowView| panel_identity(r)).remove_duplicates(Seq::empty())
}

/// The number of query rows the panel groups hold together.
pub open spec fn panel_query_total(panels: Seq<PanelGroupView>) -> nat
    decreases panels.len(),
{
    if panels.len() == 0 {
        0
    } else {
        panel_query_total(panels.drop_last()) + panels.last().queries.len()
    }
}

/// The rows of the given panels, counted key by key.
pub open spec fn key_total(rows: Seq<QueryRowView>, ks: Seq<(Seq<char>, Seq<char>, Seq<char>)>) -> nat
    decreases ks.len(),
{
    if ks.len() == 0 {
        0
    } else {
        key_total(rows, ks.drop_last()) + panel_rows(rows, ks.last()).len()
    }
}

proof fn lemma_panel_rows_push(rows: Seq<QueryRowView>, x: QueryRowView, k: (Seq<char>, Seq<char>, Seq<char>))
    ensures
        panel_rows(rows.push(x), k).len() == panel_rows(rows, k).len() + (if panel_identity(x) == k { 1int } else { 0int }),
{
    rows.lemma_filter_push(x, |r: QueryRowView| panel_identity(r) == k);
}

proof fn lemma_panel_rows_none(rows: Seq<QueryRowView>, k: (Seq<char>, Seq<char>, Seq<char>))
    requires
        forall|i: int| 0 <= i < rows.len() ==> panel_identity(#[trigger] rows[i]) != k,
    ensures
        panel_rows(rows, k).len() == 0,
    decreases rows.len(),
{
    if rows.len() > 0 {
        let r0 = rows.drop_last();
        assert forall|i: int| 0 <= i < r0.len() implies panel_identity(#[trigger] r0[i]) != k by {
            assert(r0[i] == rows[i]);
        }
        lemma_panel_rows_none(r0, k);
        assert(r0.push(rows.last()) =~= rows);
        lemma_panel_rows_push(r0, rows.last(), k);
    }
}

proof fn lemma_key_total_push(rows: Seq<QueryRowView>, x: QueryRowView, ks: Seq<(Seq<char>, Seq<char>, Seq<char>)>)
    requires
        ks.no_duplicates(),
    ensures
        key_total(rows.push(x), ks) == key_total(rows, ks) + (if ks.contains(panel_identity(x)) { 1int } else { 0int }),
    decreases ks.len(),
{
    if ks.len() > 0 {
        let k0 = ks.drop_last();
        assert(k0.no_duplicates()) by {
            assert forall|i: int, j: int| 0 <= i < k0.len() && 0 <= j < k0.len() && i != j implies k0[i] != k0[j] by {
                assert(k0[i] == ks[i] && k0[j] == ks[j]);
            }
        }
        lemma_key_total_push(rows, x, k0);
        lemma_panel_rows_push(rows, x, ks.last());
        if k0.contains(panel_identity(x)) {
            let i = choose|i: int| 0 <= i < k0.len() && k0[i] == panel_identity(x);
            assert(ks[i] == k0[i]);
            assert(ks.last() != panel_identity(x));
            assert(ks.contains(panel_identity(x)));
        } else if ks.last() == panel_identity(x) {
            assert(ks.contains(panel_identity(x)));
        } else {
            assert(!ks.contains(panel_identity(x))) by {
                if ks.contains(panel_identity(x)) {
                    let i = choose|i: int| 0 <= i < ks.len() && ks[i] == panel_identity(x);
                    if i < ks.len() - 1 {
                        assert(k0[i] == ks[i]);
                    }
                }
            }
        }
    }
}

/// Every row of a dashboard lands in exactly one panel group: the panel
/// keys are distinct and the groups hold all the rows between them.
pub proof fn lemma_panel_partition(d: Seq<QueryRowView>)
    ensures
        panel_keys(d).no_duplicates(),
        key_total(d, panel_keys(d)) == d.len(),
    decreases d.len(),
{
    if d.len() > 0 {
        let d0 = d.drop_last();
        let x = d.last();
        lemma_panel_partition(d0);
        let us = d.map_values(|r: QueryRowView| panel_identity(r));
        let us0 = d0.map_values(|r: QueryRowView| panel_identity(r));
        assert(us =~= us0 + seq![panel_identity(x)]);
        assert(us0 + Seq::<(Seq<char>, Seq<char>, Seq<char>)>::empty() =~= us0);
        us0.lemma_remove_duplicates_append(panel_identity(x), Seq::empty());
        us0.lemma_remove_duplicates_properties(Seq::empty());
        let k0 = panel_keys(d0);
        assert(d0.push(x) =~= d);
        lemma_key_total_push(d0, x, k0);
        if us0.contains(panel_identity(x)) {
            assert(k0.contains(panel_identity(x)));
            assert(panel_keys(d) == k0);
        } else {
            assert(!k0.contains(panel_identity(x)));
            let k = k0.push(panel_identity(x));
            assert(panel_keys(d) =~= k);
            assert(k.drop_last() =~= k0);
            assert forall|i: int| 0 <= i < d0.len() implies panel_identity(#[trigger] d0[i]) != panel_identity(x) by {
                assert(us0[i] == panel_identity(d0[i]));
            }
            lemma_panel_rows_none(d0, panel_identity(x));
            lemma_panel_rows_push(d0, x, panel_identity(x));
            assert(k.no_duplicates()) by {
                assert forall|i: int, j: int| 0 <= i < k.len() && 0 <= j < k.len() && i != j implies k[i] != k[j] by {
                    if i < k0.len() && j < k0.len() {
                    } else if i == k0.len() {
                        assert(k0[j] == k[j]);
                    } else {
                        assert(k0[i] == k[i]);
                    }
                }
            }
        }
    }
}

/// The panel groups of a dashboard's rows hold each of its rows once.
pub proof fn lemma_group_panels_total(d: Seq<QueryRowView>)
    ensures
        panel_query_total(group_panels(d)) == d.len(),
{
    lemma_panel_partition(d);
    lemma_total_matches(d, panel_keys(d));
}

proof fn lemma_total_matches(d: Seq<QueryRowView>, ks: Seq<(Seq<char>, Seq<char>, Seq<char>)>)
    ensures
        panel_query_total(
            ks.map_values(
                |k: (Seq<char>, Seq<char>, Seq<char>)|
                    PanelGroupView { panel_id: k.0, panel_title: k.1, panel_type: k.2, queries: panel_rows(d, k) },
            ),
        ) == key_total(d, ks),
    decreases ks.len(),
{
    let f = |k: (Seq<char>, Seq<char>, Seq<char>)|
        PanelGroupView { panel_id: k.0, panel_title: k.1, panel_type: k.2, queries: panel_rows(d, k) };
    if ks.len() > 0 {
        lemma_total_matches(d, ks.drop_last());
        assert(ks.map_values(f).drop_last() =~= ks.drop_last().map_values(f));
    }
}

} // verus!
