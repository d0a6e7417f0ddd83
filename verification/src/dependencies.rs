//! What each dashboard of an export depends on: its panels, its queries,
//! the datasources and families it reads, and the query facts it uses.
use vstd::prelude::*;

use crate::governance::{family_list, normalize_family_list};
use crate::grouping::{dashboard_rows, group_dashboards, group_views, normalize_query_report, rows_of_dashboard};
use crate::report::{
    ordered_unique, ordered_unique_strings, row_views, ExportInspectionQueryReport,
    ExportInspectionQueryRow, QueryRowView,
};
use crate::strset::{collect_unique_strings, lists, nonblank, views};

verus! {

/// The dependency summary of one dashboard.
#[derive(Debug)]
pub struct DashboardDependencyRow {
    pub dashboard_uid: String,
    pub dashboard_title: String,
    pub folder_path: String,
    pub file_path: String,
    pub panel_count: usize,
    pub query_count: usize,
    pub datasource_count: usize,
    pub datasource_family_count: usize,
    pub datasources: Vec<String>,
    pub datasource_families: Vec<String>,
    pub query_fields: Vec<String>,
    pub metrics: Vec<String>,
    pub functions: Vec<String>,
    pub measurements: Vec<String>,
    pub buckets: Vec<String>,
}

/// The list-valued query facts a row carries.
#[derive(Debug, Clone, Copy, PartialEq, Eq, Structural)]
pub enum RowList {
    Metrics,
    Functions,
    Measurements,
    Buckets,
}

pub open spec fn row_list(r: QueryRowView, which: RowList) -> Seq<Seq<char>> {
    match which {
        RowList::Metrics => r.metrics,
        RowList::Functions => r.functions,
        RowList::Measurements => r.measurements,
        RowList::Buckets => r.buckets,
    }
}

/// One list of every row, in row order.
pub open spec fn all_of(rows: Seq<QueryRowView>, which: RowList) -> Seq<Seq<char>>
    decreases rows.len(),
{
    if rows.len() == 0 {
        Seq::empty()
    } else {
        all_of(rows.drop_last(), which) + row_list(rows.last(), which)
    }
}

pub fn gather_list(rows: &Vec<ExportInspectionQueryRow>, which: RowList) -> (out: Vec<String>)
    ensures
        views(out@) == all_of(row_views(rows@), which),
{
    let ghost rv = row_views(rows@);
    let mut out: Vec<String> = Vec::new();
    let mut i: usize = 0;
    while i < rows.len()
        invariant
            i <= rows@.len(),
            rv == row_views(rows@),
            views(out@) == all_of(rv.take(i as int), which),
        decreases rows.len() - i,
    {
        proof {
            assert(rv.take(i + 1).drop_last() =~= rv.take(i as int));
        }
        let r = &rows[i];
        let items = match which {
            RowList::Metrics => &r.metrics,
            RowList::Functions => &r.functions,
            RowList::Measurements => &r.measurements,
            RowList::Buckets => &r.buckets,
        };
        let mut k: usize = 0;
        let ghost base = views(out@);
        while k < items.len()
            invariant
                k <= items@.len(),
                views(out@) == base + views(items@).take(k as int),
            decreases items.len() - k,
        {
            let ghost before = out@;
            let item = items[k].clone();
            out.push(item);
            proof {
                before.lemma_push_map_commute(|s: String| s@, item);
                assert(views(items@).take(k + 1) =~= views(items@).take(k as int).push(items@[k as int]@));
                assert(views(out@) =~= base + views(items@).take(k + 1));
            }
            k = k + 1;
        }
        proof {
            assert(views(items@).take(items@.len() as int) =~= views(items@));
            assert(row_list(rv[i as int], which) == views(items@));
        }
        i = i + 1;
    }
    assert(rv.take(rows@.len() as int) =~= rv);
    out
}

fn gather_field(rows: &Vec<ExportInspectionQueryRow>, which: u8) -> (out: Vec<String>)
    ensures
        views(out@) == row_views(rows@).map_values(|r: QueryRowView| row_field(r, which)),
{
    let ghost rv = row_views(rows@);
    let mut out: Vec<String> = Vec::new();
    let mut i: usize = 0;
    while i < rows.len()
        invariant
            i <= rows@.len(),
            rv == row_views(rows@),
            views(out@) == rv.take(i as int).map_values(|r: QueryRowView| row_field(r, which)),
        decreases rows.len() - i,
    {
        let r = &rows[i];
        let v = if which == 0 {
            r.datasource.clone()
        } else if which == 1 {
            r.datasource_family.clone()
        } else {
            r.query_field.clone()
        };
        let ghost before = out@;
        out.push(v);
        proof {
            before.lemma_push_map_commute(|s: String| s@, v);
            assert(views(out@) =~= rv.take(i + 1).map_values(|r: QueryRowView| row_field(r, which)));
        }
        i = i + 1;
    }
    assert(rv.take(rows@.len() as int) =~= rv);
    out
}

/// A single-valued fact of a row: its datasource (0), its family (1) or
/// its query field (any other).
pub open spec fn row_field(r: QueryRowView, which: u8) -> Seq<char> {
    if which == 0 {
        r.datasource
    } else if which == 1 {
        r.datasource_family
    } else {
        r.query_field
    }
}

pub ghost struct DependencyView {
    pub dashboard_uid: Seq<char>,
    pub dashboard_title: Seq<char>,
    pub folder_path: Seq<char>,
    pub file_path: Seq<char>,
    pub panel_count: nat,
    pub query_count: nat,
    pub datasource_count: nat,
    pub datasource_family_count: nat,
    pub datasources: Seq<Seq<char>>,
    pub datasource_families: Seq<Seq<char>>,
    pub query_fields: Seq<Seq<char>>,
    pub metrics: Seq<Seq<char>>,
    pub functions: Seq<Seq<char>>,
    pub measurements: Seq<Seq<char>>,
    pub buckets: Seq<Seq<char>>,
}

impl View for DashboardDependencyRow {
    type V = DependencyView;

    open spec fn view(&self) -> DependencyView {
        DependencyView {
            dashboard_uid: self.dashboard_uid@,
            dashboard_title: self.dashboard_title@,
            folder_path: self.folder_path@,
            file_path: self.file_path@,
            panel_count: self.panel_count as nat,
            query_count: self.query_count as nat,
            datasource_count: self.datasource_count as nat,
            datasource_family_count: self.datasource_family_count as nat,
            datasources: views(self.datasources@),
            datasource_families: views(self.datasource_families@),
            query_fields: views(self.query_fields@),
            metrics: views(self.metrics@),
            functions: views(self.functions@),
            measurements: views(self.measurements@),
            buckets: views(self.buckets@),
        }
    }
}

/// The dependency row of the dashboard that the group `k` of the report's
/// rows stands for: its label, panel and query counts, the datasources and
/// families its rows name (first-seen order), and the query facts they use
/// (each once, in increasing order, blanks left out).
pub open spec fn dependency_row_ok(v: DependencyView, rows: Seq<QueryRowView>, k: int) -> bool {
    let g = group_dashboards(rows)[k];
    let d = dashboard_rows(rows, g.dashboard_uid);
    &&& v.dashboard_uid == g.dashboard_uid
    &&& v.dashboard_title == g.dashboard_title
    &&& v.folder_path == g.folder_path
    &&& v.file_path == d[0].file_path
    &&& v.panel_count == g.panels.len()
    &&& v.query_count == d.len()
    &&& v.datasources == ordered_unique(d.map_values(|r: QueryRowView| r.datasource))
    &&& v.datasource_families == family_list(d.map_values(|r: QueryRowView| r.datasource_family))
    &&& v.datasource_count == v.datasources.len()
    &&& v.datasource_family_count == v.datasource_families.len()
    &&& lists(v.query_fields, nonblank(d.map_values(|r: QueryRowView| r.query_field)).to_set())
    &&& lists(v.metrics, nonblank(all_of(d, RowList::Metrics)).to_set())
    &&& lists(v.functions, nonblank(all_of(d, RowList::Functions)).to_set())
    &&& lists(v.measurements, nonblank(all_of(d, RowList::Measurements)).to_set())
    &&& lists(v.buckets, nonblank(all_of(d, RowList::Buckets)).to_set())
}

/// One dependency row per dashboard of the report, in first-seen order.
pub fn build_dashboard_dependency_rows(report: &ExportInspectionQueryReport) -> (out: Vec<
    DashboardDependencyRow,
>)
    ensures
        out@.len() == group_dashboards(row_views(report.queries@)).len(),
        forall|k: int| 0 <= k < out@.len() ==> dependency_row_ok(#[trigger] out@[k]@, row_views(report.queries@), k),
{
    let ghost rv = row_views(report.queries@);
    let normalized = normalize_query_report(report);
    let ghost gv = group_views(normalized.dashboards@);
    let mut out: Vec<DashboardDependencyRow> = Vec::new();
    let mut i: usize = 0;
    while i < normalized.dashboards.len()
        invariant
            i <= normalized.dashboards@.len(),
            rv == row_views(report.queries@),
            gv == group_views(normalized.dashboards@),
            gv == group_dashboards(rv),
            out@.len() == i,
            forall|k: int| 0 <= k < i ==> dependency_row_ok(#[trigger] out@[k]@, rv, k),
        decreases normalized.dashboards.len() - i,
    {
        let g = &normalized.dashboards[i];
        assert(gv[i as int] == g@);
        let drows = rows_of_dashboard(&report.queries, &g.dashboard_uid);
        let ghost d = row_views(drows@);
        proof {
            crate::grouping::lemma_group_has_rows(rv, i as int);
        }
        let datasources = ordered_unique_strings(gather_field(&drows, 0).as_slice());
        let datasource_families = normalize_family_list(gather_field(&drows, 1).as_slice());
        let query_fields = collect_unique_strings(gather_field(&drows, 2).as_slice());
        let metrics = collect_unique_strings(gather_list(&drows, RowList::Metrics).as_slice());
        let functions = collect_unique_strings(gather_list(&drows, RowList::Functions).as_slice());
        let measurements = collect_unique_strings(gather_list(&drows, RowList::Measurements).as_slice());
        let buckets = collect_unique_strings(gather_list(&drows, RowList::Buckets).as_slice());
        let row = DashboardDependencyRow {
            dashboard_uid: g.dashboard_uid.clone(),
            dashboard_title: g.dashboard_title.clone(),
            folder_path: g.folder_path.clone(),
            file_path: drows[0].file_path.clone(),
            panel_count: g.panels.len(),
            query_count: drows.len(),
            datasource_count: datasources.len(),
            datasource_family_count: datasource_families.len(),
            datasources,
            datasource_families,
            query_fields,
            metrics,
            functions,
            measurements,
            buckets,
        };
        proof {
            assert(d.map_values(|r: QueryRowView| r.datasource) =~= d.map_values(|r: QueryRowView| row_field(r, 0)));
            assert(d.map_values(|r: QueryRowView| r.datasource_family) =~= d.map_values(|r: QueryRowView| row_field(r, 1)));
            assert(d.map_values(|r: QueryRowView| r.query_field) =~= d.map_values(|r: QueryRowView| row_field(r, 2)));
        }
        out.push(row);
        i = i + 1;
    }
    out
}

} // verus!
