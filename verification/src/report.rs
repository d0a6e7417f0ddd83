//! Inspection report model: the per-query rows extracted from dashboard
//! exports, their summaries, column selection, datasource roll-ups and the
//! dashboard/panel grouping used by the tree renderers.
use vstd::prelude::*;

use crate::cli_defs::InspectExportReportFormat;
use crate::strset::{count_distinct, lists, set_insert, sorted_strict, views};
use crate::text::{
    ascii_lower, ascii_lower_chars, chars_of, clone_strings, is_blank, owned, seq_eq,
    string_from_chars, trim, trim_chars,
};

verus! {

#[derive(Debug)]
pub struct QueryReportSummary {
    pub dashboard_count: usize,
    pub panel_count: usize,
    pub query_count: usize,
    pub report_row_count: usize,
}

/// One query target of one panel, with the datasource and the names its
/// query text mentions.
#[derive(Debug)]
pub struct ExportInspectionQueryRow {
    pub dashboard_uid: String,
    pub dashboard_title: String,
    pub folder_path: String,
    pub file_path: String,
    pub panel_id: String,
    pub panel_title: String,
    pub panel_type: String,
    pub ref_id: String,
    pub datasource: String,
    pub datasource_uid: String,
    pub datasource_type: String,
    pub datasource_family: String,
    pub query_field: String,
    pub query_text: String,
    pub metrics: Vec<String>,
    pub functions: Vec<String>,
    pub measurements: Vec<String>,
    pub buckets: Vec<String>,
}

/// The mathematical content of a query row.
pub ghost struct QueryRowView {
    pub dashboard_uid: Seq<char>,
    pub dashboard_title: Seq<char>,
    pub folder_path: Seq<char>,
    pub file_path: Seq<char>,
    pub panel_id: Seq<char>,
    pub panel_title: Seq<char>,
    pub panel_type: Seq<char>,
    pub ref_id: Seq<char>,
    pub datasource: Seq<char>,
    pub datasource_uid: Seq<char>,
    pub datasource_type: Seq<char>,
    pub datasource_family: Seq<char>,
    pub query_field: Seq<char>,
    pub query_text: Seq<char>,
    pub metrics: Seq<Seq<char>>,
    pub functions: Seq<Seq<char>>,
    pub measurements: Seq<Seq<char>>,
    pub buckets: Seq<Seq<char>>,
}

impl View for ExportInspectionQueryRow {
    type V = QueryRowView;

    open spec fn view(&self) -> QueryRowView {
        QueryRowView {
            dashboard_uid: self.dashboard_uid@,
            dashboard_title: self.dashboard_title@,
            folder_path: self.folder_path@,
            file_path: self.file_path@,
            panel_id: self.panel_id@,
            panel_title: self.panel_title@,
            panel_type: self.panel_type@,
            ref_id: self.ref_id@,
            datasource: self.datasource@,
            datasource_uid: self.datasource_uid@,
            datasource_type: self.datasource_type@,
            datasource_family: self.datasource_family@,
            query_field: self.query_field@,
            query_text: self.query_text@,
            metrics: views(self.metrics@),
            functions: views(self.functions@),
            measurements: views(self.measurements@),
            buckets: views(self.buckets@),
        }
    }
}

/// The views of a list of rows.
pub open spec fn row_views(rows: Seq<ExportInspectionQueryRow>) -> Seq<QueryRowView> {
    rows.map_values(|r: ExportInspectionQueryRow| r@)
}

#[derive(Debug)]
pub struct ExportInspectionQueryReport {
    pub import_dir: String,
    pub summary: QueryReportSummary,
    pub queries: Vec<ExportInspectionQueryRow>,
}

#[derive(Debug)]
pub struct ExportInspectionQueryReportJsonSummary {
    pub dashboard_count: usize,
    pub datasource_count: usize,
    pub datasource_inventory_count: usize,
    pub query_record_count: usize,
}

#[derive(Debug)]
pub struct ExportInspectionQueryReportDocument {
    pub summary: ExportInspectionQueryReportJsonSummary,
    pub queries: Vec<ExportInspectionQueryRow>,
}

#[derive(Debug)]
pub struct ExportInspectionDatasourceSummaryRow {
    pub datasource: String,
    pub datasource_uid: String,
    pub datasource_type: String,
    pub family: String,
    pub dashboard_count: usize,
    pub panel_count: usize,
    pub query_count: usize,
    pub orphaned: String,
    pub metrics: Vec<String>,
    pub measurements: Vec<String>,
    pub buckets: Vec<String>,
}

#[derive(Debug)]
pub struct ExportInspectionDatasourceSummaryDocumentSummary {
    pub dashboard_count: usize,
    pub query_record_count: usize,
    pub datasource_count: usize,
    pub active_datasource_count: usize,
    pub orphaned_datasource_count: usize,
}

#[derive(Debug)]
pub struct ExportInspectionDatasourceSummaryDocument {
    pub summary: ExportInspectionDatasourceSummaryDocumentSummary,
    pub datasources: Vec<ExportInspectionDatasourceSummaryRow>,
}

#[derive(Debug)]
pub struct GroupedQueryPanel {
    pub panel_id: String,
    pub panel_title: String,
    pub panel_type: String,
    pub queries: Vec<ExportInspectionQueryRow>,
}

#[derive(Debug)]
pub struct GroupedQueryDashboard {
    pub dashboard_uid: String,
    pub dashboard_title: String,
    pub folder_path: String,
    pub panels: Vec<GroupedQueryPanel>,
}

#[derive(Debug)]
pub struct NormalizedQueryReport {
    pub import_dir: String,
    pub summary: QueryReportSummary,
    pub dashboards: Vec<GroupedQueryDashboard>,
}

impl QueryReportSummary {
    pub fn duplicate(&self) -> (r: Self)
        ensures
            r == *self,
    {
        QueryReportSummary {
            dashboard_count: self.dashboard_count,
            panel_count: self.panel_count,
            query_count: self.query_count,
            report_row_count: self.report_row_count,
        }
    }
}

impl ExportInspectionQueryRow {
    /// A field-by-field copy of the row.
    pub fn duplicate(&self) -> (r: Self)
        ensures
            r@ == self@,
    {
        ExportInspectionQueryRow {
            dashboard_uid: self.dashboard_uid.clone(),
            dashboard_title: self.dashboard_title.clone(),
            folder_path: self.folder_path.clone(),
            file_path: self.file_path.clone(),
            panel_id: self.panel_id.clone(),
            panel_title: self.panel_title.clone(),
            panel_type: self.panel_type.clone(),
            ref_id: self.ref_id.clone(),
            datasource: self.datasource.clone(),
            datasource_uid: self.datasource_uid.clone(),
            datasource_type: self.datasource_type.clone(),
            datasource_family: self.datasource_family.clone(),
            query_field: self.query_field.clone(),
            query_text: self.query_text.clone(),
            metrics: clone_strings(self.metrics.as_slice()),
            functions: clone_strings(self.functions.as_slice()),
            measurements: clone_strings(self.measurements.as_slice()),
            buckets: clone_strings(self.buckets.as_slice()),
        }
    }
}

/// A copy of a list of rows.
pub fn clone_rows(rows: &[ExportInspectionQueryRow]) -> (out: Vec<ExportInspectionQueryRow>)
    ensures
        row_views(out@) == row_views(rows@),
{
    let mut out: Vec<ExportInspectionQueryRow> = Vec::new();
    let mut i: usize = 0;
    while i < rows.len()
        invariant
            i <= rows.len(),
            row_views(out@) == row_views(rows@).take(i as int),
        decreases rows.len() - i,
    {
        let ghost before = out@;
        let d = rows[i].duplicate();
        out.push(d);
        proof {
            before.lemma_push_map_commute(|r: ExportInspectionQueryRow| r@, d);
            assert(row_views(rows@).take(i + 1) == row_views(rows@).take(i as int).push(
                rows@[i as int]@,
            ));
        }
        i = i + 1;
    }
    assert(row_views(rows@).take(rows.len() as int) == row_views(rows@));
    out
}

/// A report over the given rows; its row count is the number of rows.
pub fn build_query_report(
    import_dir: String,
    dashboard_count: usize,
    panel_count: usize,
    query_count: usize,
    queries: Vec<ExportInspectionQueryRow>,
) -> (r: ExportInspectionQueryReport)
    ensures
        r.import_dir == import_dir,
        r.summary == (QueryReportSummary {
            dashboard_count,
            panel_count,
            query_count,
            report_row_count: queries@.len() as usize,
        }),
        r.queries@ == queries@,
{
    let n = queries.len();
    ExportInspectionQueryReport {
        import_dir,
        summary: QueryReportSummary { dashboard_count, panel_count, query_count, report_row_count: n },
        queries,
    }
}

/// The datasource a row is counted under: its UID, or its name when the UID
/// is empty.
pub open spec fn datasource_key(r: QueryRowView) -> Seq<char> {
    if r.datasource_uid.len() == 0 {
        r.datasource
    } else {
        r.datasource_uid
    }
}

/// The non-empty datasource keys of the rows.
pub open spec fn datasource_keys(rows: Seq<QueryRowView>) -> Set<Seq<char>> {
    rows.map_values(|r: QueryRowView| datasource_key(r)).to_set().remove(Seq::empty())
}

fn datasource_key_of(r: &ExportInspectionQueryRow) -> (k: String)
    ensures
        k@ == datasource_key(r@),
{
    if r.datasource_uid.as_str().unicode_len() == 0 {
        r.datasource.clone()
    } else {
        r.datasource_uid.clone()
    }
}

/// The JSON document of a query report: its rows with a summary counting
/// dashboards, distinct datasources and rows.
pub fn build_export_inspection_query_report_document(
    report: &ExportInspectionQueryReport,
) -> (d: ExportInspectionQueryReportDocument)
    ensures
        d.summary.dashboard_count == report.summary.dashboard_count,
        d.summary.datasource_count == datasource_keys(row_views(report.queries@)).len(),
        d.summary.datasource_inventory_count == 0,
        d.summary.query_record_count == report.queries@.len(),
        row_views(d.queries@) == row_views(report.queries@),
{
    let mut seen: Vec<String> = Vec::new();
    let ghost rows = row_views(report.queries@);
    let ghost keys = rows.map_values(|r: QueryRowView| datasource_key(r));
    let mut i: usize = 0;
    while i < report.queries.len()
        invariant
            i <= report.queries.len(),
            rows == row_views(report.queries@),
            keys == rows.map_values(|r: QueryRowView| datasource_key(r)),
            sorted_strict(views(seen@)),
            views(seen@).to_set() == keys.take(i as int).to_set().remove(Seq::empty()),
        decreases report.queries.len() - i,
    {
        let k = datasource_key_of(&report.queries[i]);
        assert(k@ == keys[i as int]);
        proof {
            assert(keys.take(i + 1) == keys.take(i as int).push(keys[i as int]));
            keys.take(i as int).lemma_push_to_set_commute(keys[i as int]);
        }
        if k.as_str().unicode_len() != 0 {
            let ghost before = views(seen@).to_set();
            set_insert(&mut seen, k);
            assert(views(seen@).to_set() == before.insert(keys[i as int]));
            assert(keys[i as int] != Seq::<char>::empty());
            proof {
                assert(views(seen@).to_set() =~= keys.take(i + 1).to_set().remove(Seq::empty()));
            }
        } else {
            proof {
                assert(keys[i as int] =~= Seq::<char>::empty());
                assert(views(seen@).to_set() =~= keys.take(i + 1).to_set().remove(Seq::empty()));
            }
        }
        i = i + 1;
    }
    proof {
        assert(keys.take(rows.len() as int) == keys);
        crate::strset::lemma_sorted_no_duplicates(views(seen@));
    }
    ExportInspectionQueryReportDocument {
        summary: ExportInspectionQueryReportJsonSummary {
            dashboard_count: report.summary.dashboard_count,
            datasource_count: seen.len(),
            datasource_inventory_count: 0,
            query_record_count: report.queries.len(),
        },
        queries: clone_rows(report.queries.as_slice()),
    }
}


/// The trimmed, non-empty values, each kept at its first occurrence.
pub open spec fn ordered_unique(values: Seq<Seq<char>>) -> Seq<Seq<char>> {
    values.map_values(|v: Seq<char>| trim(v)).filter(|v: Seq<char>| v.len() > 0).remove_duplicates(
        Seq::empty(),
    )
}

/// Whether `x` occurs in `v`.
pub fn contains_string_in(v: &Vec<String>, x: &String) -> (r: bool)
    ensures
        r == views(v@).contains(x@),
{
    contains_string(v, x)
}

fn contains_string(v: &Vec<String>, x: &String) -> (r: bool)
    ensures
        r == views(v@).contains(x@),
{
    let mut i: usize = 0;
    while i < v.len()
        invariant
            i <= v.len(),
            forall|k: int| 0 <= k < i ==> views(v@)[k] != x@,
        decreases v.len() - i,
    {
        if v[i] == *x {
            assert(views(v@)[i as int] == x@);
            return true;
        }
        i = i + 1;
    }
    false
}

/// Trimmed values in first-seen order, without blanks or repeats.
pub fn ordered_unique_strings(values: &[String]) -> (out: Vec<String>)
    ensures
        views(out@) == ordered_unique(views(values@)),
{
    let ghost vs = views(values@);
    let ghost tr = vs.map_values(|v: Seq<char>| trim(v));
    let ghost pred = |v: Seq<char>| v.len() > 0;
    let mut out: Vec<String> = Vec::new();
    let mut i: usize = 0;
    while i < values.len()
        invariant
            i <= values.len(),
            vs == views(values@),
            tr == vs.map_values(|v: Seq<char>| trim(v)),
            pred == (|v: Seq<char>| v.len() > 0),
            views(out@) == tr.take(i as int).filter(pred).remove_duplicates(Seq::empty()),
        decreases values.len() - i,
    {
        let t = crate::text::trim_str(values[i].as_str());
        proof {
            assert(tr.take(i + 1) == tr.take(i as int).push(tr[i as int]));
            tr.take(i as int).lemma_filter_push(tr[i as int], pred);
        }
        let ghost f = tr.take(i as int).filter(pred);
        if t.as_str().unicode_len() > 0 {
            let present = contains_string(&out, &t);
            proof {
                f.lemma_remove_duplicates_properties(Seq::empty());
                f.lemma_remove_duplicates_append(t@, Seq::empty());
                assert(f + Seq::<Seq<char>>::empty() == f);
                assert(f.push(t@) == f + seq![t@]);
            }
            if !present {
                let ghost before = out@;
                out.push(t);
                proof {
                    before.lemma_push_map_commute(|s: String| s@, out@.last());
                    assert(out@ == before.push(out@.last()));
                }
            }
        } else {
            proof {
                assert(!pred(tr[i as int]));
            }
        }
        i = i + 1;
    }
    assert(tr.take(values.len() as int) == tr);
    out
}

/// The datasource family label that a datasource type reports under.
pub open spec fn datasource_family_of(datasource_type: Seq<char>) -> Seq<char> {
    let t = ascii_lower(trim(datasource_type));
    if t.len() == 0 {
        "unknown"@
    } else if t == "grafana-postgresql-datasource"@ {
        "postgres"@
    } else if t == "grafana-mysql-datasource"@ {
        "mysql"@
    } else {
        t
    }
}

/// The lower-cased, trimmed text of `s`.
pub fn trimmed_lower(s: &str) -> (out: Vec<char>)
    ensures
        out@ == ascii_lower(trim(s@)),
{
    let cs = chars_of(s);
    let t = trim_chars(cs.as_slice());
    ascii_lower_chars(t.as_slice())
}

/// `t` equals the literal `lit`.
pub fn chars_are(t: &[char], lit: &str) -> (r: bool)
    ensures
        r == (t@ == lit@),
{
    let l = chars_of(lit);
    seq_eq(t, l.as_slice())
}

/// The family label of a datasource type in the datasource summary.
pub fn normalize_datasource_family(datasource_type: &str) -> (f: String)
    ensures
        f@ == datasource_family_of(datasource_type@),
{
    let t = trimmed_lower(datasource_type);
    if t.len() == 0 {
        owned("unknown")
    } else if chars_are(t.as_slice(), "grafana-postgresql-datasource") {
        owned("postgres")
    } else if chars_are(t.as_slice(), "grafana-mysql-datasource") {
        owned("mysql")
    } else {
        string_from_chars(t.as_slice())
    }
}

/// The panel a row belongs to for summary counting.
pub open spec fn panel_triple(r: QueryRowView) -> (Seq<char>, Seq<char>, Seq<char>) {
    (r.dashboard_uid, r.panel_id, r.panel_title)
}

/// The number of distinct `(dashboard, panel id, panel title)` triples.
fn count_distinct_panels(rows: &Vec<ExportInspectionQueryRow>) -> (n: usize)
    ensures
        n == row_views(rows@).map_values(|r: QueryRowView| panel_triple(r)).to_set().len(),
{
    let ghost ts = row_views(rows@).map_values(|r: QueryRowView| panel_triple(r));
    let mut reps: Vec<usize> = Vec::new();
    let mut i: usize = 0;
    while i < rows.len()
        invariant
            i <= rows.len(),
            ts == row_views(rows@).map_values(|r: QueryRowView| panel_triple(r)),
            forall|k: int| 0 <= k < reps@.len() ==> #[trigger] reps@[k] < i,
            reps@.map_values(|j: usize| ts[j as int]).no_duplicates(),
            reps@.map_values(|j: usize| ts[j as int]).to_set() == ts.take(i as int).to_set(),
        decreases rows.len() - i,
    {
        let ghost rv = reps@.map_values(|j: usize| ts[j as int]);
        let mut found = false;
        let mut k: usize = 0;
        while k < reps.len()
            invariant
                k <= reps.len(),
                i < rows.len(),
                ts == row_views(rows@).map_values(|r: QueryRowView| panel_triple(r)),
                forall|q: int| 0 <= q < reps@.len() ==> #[trigger] reps@[q] < i,
                rv == reps@.map_values(|j: usize| ts[j as int]),
                found ==> rv.contains(ts[i as int]),
                !found ==> forall|q: int| 0 <= q < k ==> rv[q] != ts[i as int],
            decreases reps.len() - k,
        {
            let j = reps[k];
            if rows[j].dashboard_uid == rows[i].dashboard_uid && rows[j].panel_id == rows[i].panel_id
                && rows[j].panel_title == rows[i].panel_title {
                assert(rv[k as int] == ts[i as int]);
                found = true;
            }
            k = k + 1;
        }
        proof {
            assert(ts.take(i + 1) == ts.take(i as int).push(ts[i as int]));
            ts.take(i as int).lemma_push_to_set_commute(ts[i as int]);
        }
        if !found {
            let ghost before = reps@;
            reps.push(i);
            proof {
                let nv = reps@.map_values(|j: usize| ts[j as int]);
                assert(nv == rv.push(ts[i as int]));
                assert(!rv.contains(ts[i as int]));
                rv.lemma_push_to_set_commute(ts[i as int]);
            }
        } else {
            proof {
                assert(rv.to_set().contains(ts[i as int]));
                assert(ts.take(i as int).to_set().insert(ts[i as int]) =~= ts.take(i as int).to_set());
            }
        }
        i = i + 1;
    }
    proof {
        assert(ts.take(rows.len() as int) == ts);
        reps@.map_values(|j: usize| ts[j as int]).unique_seq_to_set();
    }
    reps.len()
}

/// The dashboard UIDs of the rows.
pub open spec fn dashboard_uids_of(rows: Seq<QueryRowView>) -> Seq<Seq<char>> {
    rows.map_values(|r: QueryRowView| r.dashboard_uid)
}

/// Recounts a filtered report: distinct dashboards, distinct panels, and
/// the remaining rows as both query and row count.
pub fn refresh_filtered_query_report_summary(report: &mut ExportInspectionQueryReport)
    ensures
        final(report).import_dir == old(report).import_dir,
        final(report).queries == old(report).queries,
        final(report).summary.dashboard_count == dashboard_uids_of(
            row_views(old(report).queries@),
        ).to_set().len(),
        final(report).summary.panel_count == row_views(old(report).queries@).map_values(
            |r: QueryRowView| panel_triple(r),
        ).to_set().len(),
        final(report).summary.query_count == old(report).queries@.len(),
        final(report).summary.report_row_count == old(report).queries@.len(),
{
    let mut uids: Vec<String> = Vec::new();
    let mut i: usize = 0;
    while i < report.queries.len()
        invariant
            i <= report.queries.len(),
            report.queries == old(report).queries,
            views(uids@) == dashboard_uids_of(row_views(report.queries@)).take(i as int),
        decreases report.queries.len() - i,
    {
        let ghost before = uids@;
        let u = report.queries[i].dashboard_uid.clone();
        uids.push(u);
        proof {
            before.lemma_push_map_commute(|s: String| s@, u);
            assert(dashboard_uids_of(row_views(report.queries@)).take(i + 1) == dashboard_uids_of(
                row_views(report.queries@),
            ).take(i as int).push(u@));
        }
        i = i + 1;
    }
    assert(dashboard_uids_of(row_views(report.queries@)).take(report.queries.len() as int)
        == dashboard_uids_of(row_views(report.queries@)));
    let dashboards = count_distinct(uids.as_slice());
    let panels = count_distinct_panels(&report.queries);
    let n = report.queries.len();
    report.summary.dashboard_count = dashboards;
    report.summary.panel_count = panels;
    report.summary.query_count = n;
    report.summary.report_row_count = n;
}

/// The report columns shown when none are selected.
pub open spec fn default_report_columns() -> Seq<Seq<char>> {
    seq![
        "dashboard_uid"@,
        "dashboard_title"@,
        "folder_path"@,
        "panel_id"@,
        "panel_title"@,
        "panel_type"@,
        "ref_id"@,
        "datasource"@,
        "query_field"@,
        "metrics"@,
        "measurements"@,
        "buckets"@,
        "query"@,
    ]
}

/// The report columns that can be selected.
pub open spec fn is_report_column(c: Seq<char>) -> bool {
    ||| c == "dashboard_uid"@
    ||| c == "dashboard_title"@
    ||| c == "folder_path"@
    ||| c == "panel_id"@
    ||| c == "panel_title"@
    ||| c == "panel_type"@
    ||| c == "ref_id"@
    ||| c == "datasource"@
    ||| c == "datasource_uid"@
    ||| c == "query_field"@
    ||| c == "metrics"@
    ||| c == "measurements"@
    ||| c == "buckets"@
    ||| c == "query"@
}

/// The text of `{:?}` applied to a string: the string quoted, with the
/// characters that `str::escape_debug` escapes written as escapes.
pub uninterp spec fn debug_str(s: Seq<char>) -> Seq<char>;

/// `format!("{:?}", s)`.
///
/// Calls the standard library's `Debug` formatting of `str`; the result is
/// named by `debug_str`, which is a function of the text alone.
#[verifier::external_body]
fn debug_quoted(s: &str) -> (r: String)
    ensures
        r@ == debug_str(s@),
{
    format!("{:?}", s)
}

pub open spec fn supported_columns_text() -> Seq<char> {
    "dashboard_uid,dashboard_title,folder_path,panel_id,panel_title,panel_type,ref_id,datasource,datasource_uid,query_field,metrics,measurements,buckets,query"@
}

pub open spec fn unsupported_column_message(v: Seq<char>) -> Seq<char> {
    "Unsupported --report-columns value "@ + debug_str(v) + ". Supported columns: "@
        + supported_columns_text()
}

pub open spec fn no_columns_message() -> Seq<char> {
    "--report-columns did not include any supported columns. Supported columns: "@
        + supported_columns_text()
}

/// The trimmed, non-empty selected values, in order.
pub open spec fn selected_columns(selected: Seq<Seq<char>>) -> Seq<Seq<char>> {
    selected.map_values(|v: Seq<char>| trim(v)).filter(|v: Seq<char>| v.len() > 0)
}

/// The selected values that name no report column.
pub open spec fn unsupported_columns(selected: Seq<Seq<char>>) -> Seq<Seq<char>> {
    selected_columns(selected).filter(|v: Seq<char>| !is_report_column(v))
}

/// The columns a `--report-columns` selection stands for: the defaults
/// without a selection; the first unsupported value refused; a selection of
/// blanks refused; otherwise the selected columns once each, in order.
pub open spec fn report_columns_for(selected: Seq<Seq<char>>) -> Result<Seq<Seq<char>>, Seq<char>> {
    if selected.len() == 0 {
        Ok(default_report_columns())
    } else if unsupported_columns(selected).len() > 0 {
        Err(unsupported_column_message(unsupported_columns(selected)[0]))
    } else if ordered_unique(selected).len() == 0 {
        Err(no_columns_message())
    } else {
        Ok(ordered_unique(selected))
    }
}

/// Whether `c` names a report column.
pub fn is_supported_report_column(c: &str) -> (r: bool)
    ensures
        r == is_report_column(c@),
{
    crate::text::str_is(c, "dashboard_uid") || crate::text::str_is(c, "dashboard_title")
        || crate::text::str_is(c, "folder_path") || crate::text::str_is(c, "panel_id")
        || crate::text::str_is(c, "panel_title") || crate::text::str_is(c, "panel_type")
        || crate::text::str_is(c, "ref_id") || crate::text::str_is(c, "datasource")
        || crate::text::str_is(c, "datasource_uid") || crate::text::str_is(c, "query_field")
        || crate::text::str_is(c, "metrics") || crate::text::str_is(c, "measurements")
        || crate::text::str_is(c, "buckets") || crate::text::str_is(c, "query")
}

/// The default report columns.
pub fn default_report_column_ids() -> (out: Vec<String>)
    ensures
        views(out@) == default_report_columns(),
{
    let out = vec![
        owned("dashboard_uid"),
        owned("dashboard_title"),
        owned("folder_path"),
        owned("panel_id"),
        owned("panel_title"),
        owned("panel_type"),
        owned("ref_id"),
        owned("datasource"),
        owned("query_field"),
        owned("metrics"),
        owned("measurements"),
        owned("buckets"),
        owned("query"),
    ];
    assert(views(out@) =~= default_report_columns());
    out
}

/// Resolves a `--report-columns` selection into column ids.
pub fn resolve_report_column_ids(selected: &[String]) -> (r: Result<Vec<String>, String>)
    ensures
        match (r, report_columns_for(views(selected@))) {
            (Ok(v), Ok(c)) => views(v@) == c,
            (Err(e), Err(m)) => e@ == m,
            _ => false,
        },
{
    if selected.len() == 0 {
        return Ok(default_report_column_ids());
    }
    let ghost vs = views(selected@);
    let ghost tr = vs.map_values(|v: Seq<char>| trim(v));
    let ghost pred = |v: Seq<char>| v.len() > 0;
    let ghost bad = |v: Seq<char>| !is_report_column(v);
    let mut result: Vec<String> = Vec::new();
    let mut i: usize = 0;
    while i < selected.len()
        invariant
            i <= selected.len(),
            vs == views(selected@),
            tr == vs.map_values(|v: Seq<char>| trim(v)),
            pred == (|v: Seq<char>| v.len() > 0),
            bad == (|v: Seq<char>| !is_report_column(v)),
            views(result@) == tr.take(i as int).filter(pred).remove_duplicates(Seq::empty()),
            tr.take(i as int).filter(pred).filter(bad).len() == 0,
        decreases selected.len() - i,
    {
        let t = crate::text::trim_str(selected[i].as_str());
        let ghost f = tr.take(i as int).filter(pred);
        proof {
            assert(tr.take(i + 1) == tr.take(i as int).push(tr[i as int]));
            tr.take(i as int).lemma_filter_push(tr[i as int], pred);
        }
        if t.as_str().unicode_len() > 0 {
            proof {
                f.lemma_filter_push(t@, bad);
            }
            if !is_supported_report_column(t.as_str()) {
                proof {
                    let all = tr.filter(pred);
                    assert(tr == tr.take(i + 1) + tr.skip(i + 1));
                    Seq::filter_distributes_over_add(tr.take(i + 1), tr.skip(i + 1), pred);
                    Seq::filter_distributes_over_add(f.push(t@), tr.skip(i + 1).filter(pred), bad);
                    assert(f.push(t@).filter(bad) =~= seq![t@]);
                    assert(unsupported_columns(vs) == all.filter(bad));
                    assert(all.filter(bad)[0] == t@);
                }
                let d = debug_quoted(t.as_str());
                let mut e = owned("Unsupported --report-columns value ");
                e.append(d.as_str());
                e.append(". Supported columns: ");
                e.append(
                    "dashboard_uid,dashboard_title,folder_path,panel_id,panel_title,panel_type,ref_id,datasource,datasource_uid,query_field,metrics,measurements,buckets,query",
                );
                return Err(e);
            }
            let present = contains_string(&result, &t);
            proof {
                f.lemma_remove_duplicates_properties(Seq::empty());
                f.lemma_remove_duplicates_append(t@, Seq::empty());
                assert(f + Seq::<Seq<char>>::empty() == f);
                assert(f.push(t@) == f + seq![t@]);
            }
            if !present {
                let ghost before = result@;
                result.push(t);
                proof {
                    before.lemma_push_map_commute(|s: String| s@, result@.last());
                    assert(result@ == before.push(result@.last()));
                }
            }
        } else {
            proof {
                assert(!pred(tr[i as int]));
            }
        }
        i = i + 1;
    }
    proof {
        assert(tr.take(selected.len() as int) == tr);
    }
    if result.len() == 0 {
        let mut e = owned("--report-columns did not include any supported columns. Supported columns: ");
        e.append(
            "dashboard_uid,dashboard_title,folder_path,panel_id,panel_title,panel_type,ref_id,datasource,datasource_uid,query_field,metrics,measurements,buckets,query",
        );
        return Err(e);
    }
    Ok(result)
}

/// The table header of a report column.
pub open spec fn report_column_header_of(c: Seq<char>) -> Seq<char> {
    if c == "dashboard_uid"@ {
        "DASHBOARD_UID"@
    } else if c == "dashboard_title"@ {
        "DASHBOARD_TITLE"@
    } else if c == "folder_path"@ {
        "FOLDER_PATH"@
    } else if c == "panel_id"@ {
        "PANEL_ID"@
    } else if c == "panel_title"@ {
        "PANEL_TITLE"@
    } else if c == "panel_type"@ {
        "PANEL_TYPE"@
    } else if c == "ref_id"@ {
        "REF_ID"@
    } else if c == "datasource"@ {
        "DATASOURCE"@
    } else if c == "datasource_uid"@ {
        "DATASOURCE_UID"@
    } else if c == "query_field"@ {
        "QUERY_FIELD"@
    } else if c == "metrics"@ {
        "METRICS"@
    } else if c == "measurements"@ {
        "MEASUREMENTS"@
    } else if c == "buckets"@ {
        "BUCKETS"@
    } else {
        "QUERY"@
    }
}

/// The table header of a supported report column.
pub fn report_column_header(column_id: &str) -> (h: String)
    requires
        is_report_column(column_id@),
    ensures
        h@ == report_column_header_of(column_id@),
{
    if crate::text::str_is(column_id, "dashboard_uid") {
        owned("DASHBOARD_UID")
    } else if crate::text::str_is(column_id, "dashboard_title") {
        owned("DASHBOARD_TITLE")
    } else if crate::text::str_is(column_id, "folder_path") {
        owned("FOLDER_PATH")
    } else if crate::text::str_is(column_id, "panel_id") {
        owned("PANEL_ID")
    } else if crate::text::str_is(column_id, "panel_title") {
        owned("PANEL_TITLE")
    } else if crate::text::str_is(column_id, "panel_type") {
        owned("PANEL_TYPE")
    } else if crate::text::str_is(column_id, "ref_id") {
        owned("REF_ID")
    } else if crate::text::str_is(column_id, "datasource") {
        owned("DATASOURCE")
    } else if crate::text::str_is(column_id, "datasource_uid") {
        owned("DATASOURCE_UID")
    } else if crate::text::str_is(column_id, "query_field") {
        owned("QUERY_FIELD")
    } else if crate::text::str_is(column_id, "metrics") {
        owned("METRICS")
    } else if crate::text::str_is(column_id, "measurements") {
        owned("MEASUREMENTS")
    } else if crate::text::str_is(column_id, "buckets") {
        owned("BUCKETS")
    } else {
        owned("QUERY")
    }
}

/// The cell a report column shows for a row; list columns are joined
/// with commas.
pub open spec fn report_cell(r: QueryRowView, c: Seq<char>) -> Seq<char> {
    if c == "dashboard_uid"@ {
        r.dashboard_uid
    } else if c == "dashboard_title"@ {
        r.dashboard_title
    } else if c == "folder_path"@ {
        r.folder_path
    } else if c == "panel_id"@ {
        r.panel_id
    } else if c == "panel_title"@ {
        r.panel_title
    } else if c == "panel_type"@ {
        r.panel_type
    } else if c == "ref_id"@ {
        r.ref_id
    } else if c == "datasource"@ {
        r.datasource
    } else if c == "datasource_uid"@ {
        r.datasource_uid
    } else if c == "query_field"@ {
        r.query_field
    } else if c == "metrics"@ {
        crate::text::join(r.metrics, ","@)
    } else if c == "measurements"@ {
        crate::text::join(r.measurements, ","@)
    } else if c == "buckets"@ {
        crate::text::join(r.buckets, ","@)
    } else {
        r.query_text
    }
}

/// The cell a supported report column shows for a row.
pub fn render_query_report_column(row: &ExportInspectionQueryRow, column_id: &str) -> (v: String)
    requires
        is_report_column(column_id@),
    ensures
        v@ == report_cell(row@, column_id@),
{
    if crate::text::str_is(column_id, "dashboard_uid") {
        row.dashboard_uid.clone()
    } else if crate::text::str_is(column_id, "dashboard_title") {
        row.dashboard_title.clone()
    } else if crate::text::str_is(column_id, "folder_path") {
        row.folder_path.clone()
    } else if crate::text::str_is(column_id, "panel_id") {
        row.panel_id.clone()
    } else if crate::text::str_is(column_id, "panel_title") {
        row.panel_title.clone()
    } else if crate::text::str_is(column_id, "panel_type") {
        row.panel_type.clone()
    } else if crate::text::str_is(column_id, "ref_id") {
        row.ref_id.clone()
    } else if crate::text::str_is(column_id, "datasource") {
        row.datasource.clone()
    } else if crate::text::str_is(column_id, "datasource_uid") {
        row.datasource_uid.clone()
    } else if crate::text::str_is(column_id, "query_field") {
        row.query_field.clone()
    } else if crate::text::str_is(column_id, "metrics") {
        crate::text::join_strings(row.metrics.as_slice(), ",")
    } else if crate::text::str_is(column_id, "measurements") {
        crate::text::join_strings(row.measurements.as_slice(), ",")
    } else if crate::text::str_is(column_id, "buckets") {
        crate::text::join_strings(row.buckets.as_slice(), ",")
    } else {
        row.query_text.clone()
    }
}

/// The report formats that honour `--report-columns`.
pub open spec fn supports_columns(f: InspectExportReportFormat) -> bool {
    f == InspectExportReportFormat::Table || f == InspectExportReportFormat::Csv || f
        == InspectExportReportFormat::TreeTable
}

/// Whether a report format honours `--report-columns`.
pub fn report_format_supports_columns(format: InspectExportReportFormat) -> (b: bool)
    ensures
        b == supports_columns(format),
{
    match format {
        InspectExportReportFormat::Table => true,
        InspectExportReportFormat::Csv => true,
        InspectExportReportFormat::TreeTable => true,
        _ => false,
    }
}
} // verus!
