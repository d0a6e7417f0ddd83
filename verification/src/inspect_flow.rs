//! The decisions around an export inspection: which report an option set
//! selects, which rows a filtered report keeps, and the arguments a live
//! inspection hands to its export and inspect steps.
use vstd::prelude::*;

use crate::cli_defs::{
    CommonCliArgs, ExportArgs, InspectExportArgs, InspectExportReportFormat, InspectLiveArgs,
    InspectOutputFormat,
};
use crate::report::{
    panel_triple, refresh_filtered_query_report_summary, report_columns_for,
    resolve_report_column_ids, row_views, dashboard_uids_of, ExportInspectionQueryReport,
    ExportInspectionQueryRow, QueryRowView,
};
use crate::strset::{sorted_strict, views};
use crate::text::{owned, trim};

verus! {

/// The report an `--output-format` selects, if it selects one.
pub open spec fn report_of_output(f: InspectOutputFormat) -> Option<InspectExportReportFormat> {
    match f {
        InspectOutputFormat::Text | InspectOutputFormat::Table | InspectOutputFormat::Json => None,
        InspectOutputFormat::ReportTable => Some(InspectExportReportFormat::Table),
        InspectOutputFormat::ReportCsv => Some(InspectExportReportFormat::Csv),
        InspectOutputFormat::ReportJson => Some(InspectExportReportFormat::Json),
        InspectOutputFormat::ReportTree => Some(InspectExportReportFormat::Tree),
        InspectOutputFormat::ReportTreeTable => Some(InspectExportReportFormat::TreeTable),
        InspectOutputFormat::DatasourceSummary => Some(InspectExportReportFormat::DatasourceSummary),
        InspectOutputFormat::DatasourceSummaryJson => Some(InspectExportReportFormat::DatasourceSummaryJson),
        InspectOutputFormat::Governance => Some(InspectExportReportFormat::Governance),
        InspectOutputFormat::GovernanceJson => Some(InspectExportReportFormat::GovernanceJson),
    }
}

/// Maps an `--output-format` to the report it stands for.
pub fn map_output_format_to_report(output_format: InspectOutputFormat) -> (r: Option<InspectExportReportFormat>)
    ensures
        r == report_of_output(output_format),
{
    match output_format {
        InspectOutputFormat::Text | InspectOutputFormat::Table | InspectOutputFormat::Json => None,
        InspectOutputFormat::ReportTable => Some(InspectExportReportFormat::Table),
        InspectOutputFormat::ReportCsv => Some(InspectExportReportFormat::Csv),
        InspectOutputFormat::ReportJson => Some(InspectExportReportFormat::Json),
        InspectOutputFormat::ReportTree => Some(InspectExportReportFormat::Tree),
        InspectOutputFormat::ReportTreeTable => Some(InspectExportReportFormat::TreeTable),
        InspectOutputFormat::DatasourceSummary => Some(InspectExportReportFormat::DatasourceSummary),
        InspectOutputFormat::DatasourceSummaryJson => Some(InspectExportReportFormat::DatasourceSummaryJson),
        InspectOutputFormat::Governance => Some(InspectExportReportFormat::Governance),
        InspectOutputFormat::GovernanceJson => Some(InspectExportReportFormat::GovernanceJson),
    }
}

/// The report an inspection renders: `--report` where given, else the one
/// `--output-format` selects.
pub open spec fn effective_report(a: InspectExportArgs) -> Option<InspectExportReportFormat> {
    match a.report {
        Some(r) => Some(r),
        None => match a.output_format {
            Some(f) => report_of_output(f),
            None => None,
        },
    }
}

/// Finds the report an inspection renders, if any.
pub fn effective_inspect_report_format(args: &InspectExportArgs) -> (r: Option<InspectExportReportFormat>)
    ensures
        r == effective_report(*args),
{
    match args.report {
        Some(r) => Some(r),
        None => match args.output_format {
            Some(f) => map_output_format_to_report(f),
            None => None,
        },
    }
}

/// Whether the summary is rendered as JSON.
pub fn effective_inspect_json(args: &InspectExportArgs) -> (b: bool)
    ensures
        b == (args.json || args.output_format == Some(InspectOutputFormat::Json)),
{
    args.json || match args.output_format {
        Some(InspectOutputFormat::Json) => true,
        _ => false,
    }
}

/// Whether the summary is rendered as a table.
pub fn effective_inspect_table(args: &InspectExportArgs) -> (b: bool)
    ensures
        b == (args.table || args.output_format == Some(InspectOutputFormat::Table)),
{
    args.table || match args.output_format {
        Some(InspectOutputFormat::Table) => true,
        _ => false,
    }
}

/// A filter value: trimmed, and none where blank.
pub open spec fn filter_value(f: Option<Seq<char>>) -> Option<Seq<char>> {
    match f {
        Some(v) => if trim(v).len() > 0 {
            Some(trim(v))
        } else {
            None
        },
        None => None,
    }
}

/// Whether a row passes the datasource and panel-id filters: the
/// datasource filter matches the row's datasource label, UID, type or
/// family.
pub open spec fn row_passes(r: QueryRowView, datasource: Option<Seq<char>>, panel_id: Option<Seq<char>>) -> bool {
    (match datasource {
        Some(d) => r.datasource == d || r.datasource_uid == d || r.datasource_type == d || r.datasource_family
            == d,
        None => true,
    }) && (match panel_id {
        Some(p) => r.panel_id == p,
        None => true,
    })
}

pub fn trimmed_filter(f: Option<&str>) -> (r: Option<String>)
    ensures
        crate::import_flow::opt_string(r) == filter_value(crate::import::opt_view(f)),
{
    match f {
        Some(v) => {
            let t = crate::text::trim_str(v);
            if t.as_str().unicode_len() > 0 {
                Some(t)
            } else {
                None
            }
        },
        None => None,
    }
}

/// Keeps the rows of a report that match the datasource and panel-id
/// filters and recounts its summary; blank filters keep the report as it
/// is.
pub fn apply_query_report_filters(
    report: ExportInspectionQueryReport,
    datasource_filter: Option<&str>,
    panel_id_filter: Option<&str>,
) -> (r: ExportInspectionQueryReport)
    ensures
        ({
            let d = filter_value(crate::import::opt_view(datasource_filter));
            let p = filter_value(crate::import::opt_view(panel_id_filter));
            if d is None && p is None {
                r == report
            } else {
                let kept = row_views(report.queries@).filter(|x: QueryRowView| row_passes(x, d, p));
                &&& r.import_dir == report.import_dir
                &&& row_views(r.queries@) == kept
                &&& r.summary.dashboard_count == dashboard_uids_of(kept).to_set().len()
                &&& r.summary.panel_count == kept.map_values(|x: QueryRowView| panel_triple(x)).to_set().len()
                &&& r.summary.query_count == kept.len()
                &&& r.summary.report_row_count == kept.len()
            }
        }),
{
    let d = trimmed_filter(datasource_filter);
    let p = trimmed_filter(panel_id_filter);
    if d.is_none() && p.is_none() {
        return report;
    }
    let ghost dv = crate::import_flow::opt_string(d);
    let ghost pv = crate::import_flow::opt_string(p);
    let ghost pred = |x: QueryRowView| row_passes(x, dv, pv);
    let ghost rv = row_views(report.queries@);
    let mut report = report;
    let mut rows: Vec<ExportInspectionQueryRow> = Vec::new();
    std::mem::swap(&mut rows, &mut report.queries);
    let mut kept: Vec<ExportInspectionQueryRow> = Vec::new();
    let mut i: usize = 0;
    while i < rows.len()
        invariant
            i <= rows@.len(),
            row_views(rows@) == rv,
            pred == (|x: QueryRowView| row_passes(x, dv, pv)),
            dv == crate::import_flow::opt_string(d),
            pv == crate::import_flow::opt_string(p),
            row_views(kept@) == rv.take(i as int).filter(pred),
        decreases rows.len() - i,
    {
        proof {
            assert(rv.take(i + 1) =~= rv.take(i as int).push(rv[i as int]));
            rv.take(i as int).lemma_filter_push(rv[i as int], pred);
        }
        let r = &rows[i];
        let dm = match &d {
            Some(v) => r.datasource == *v || r.datasource_uid == *v || r.datasource_type == *v
                || r.datasource_family == *v,
            None => true,
        };
        let pm = match &p {
            Some(v) => r.panel_id == *v,
            None => true,
        };
        if dm && pm {
            let ghost before = kept@;
            let c = r.duplicate();
            kept.push(c);
            proof {
                before.lemma_push_map_commute(|x: ExportInspectionQueryRow| x@, c);
            }
        }
        i = i + 1;
    }
    assert(rv.take(rows@.len() as int) =~= rv);
    report.queries = kept;
    refresh_filtered_query_report_summary(&mut report);
    report
}

} // verus!
verus! {

/// The refusal of an inspect option set, if any: report-only options
/// without `--report`, columns with a JSON or tree report, or a column
/// selection that does not resolve.
pub open spec fn inspect_report_args_error(a: InspectExportArgs) -> Option<Seq<char>> {
    match a.report {
        None => if a.report_columns@.len() > 0 {
            Some("--report-columns is only supported together with --report."@)
        } else if a.report_filter_datasource is Some {
            Some("--report-filter-datasource is only supported together with --report."@)
        } else if a.report_filter_panel_id is Some {
            Some("--report-filter-panel-id is only supported together with --report."@)
        } else {
            None
        },
        Some(f) => if (f == InspectExportReportFormat::Json || f == InspectExportReportFormat::Tree)
            && a.report_columns@.len() > 0 {
            Some("--report-columns is only supported with table or csv --report output."@)
        } else {
            match report_columns_for(views(a.report_columns@)) {
                Ok(_) => None,
                Err(e) => Some(e),
            }
        },
    }
}

/// Refuses the inspect option sets that cannot be rendered.
pub fn validate_inspect_export_report_args(args: &InspectExportArgs) -> (r: Result<(), String>)
    ensures
        match (r, inspect_report_args_error(*args)) {
            (Ok(_), None) => true,
            (Err(e), Some(m)) => e@ == m,
            _ => false,
        },
{
    match args.report {
        None => {
            if args.report_columns.len() > 0 {
                Err(owned("--report-columns is only supported together with --report."))
            } else if args.report_filter_datasource.is_some() {
                Err(owned("--report-filter-datasource is only supported together with --report."))
            } else if args.report_filter_panel_id.is_some() {
                Err(owned("--report-filter-panel-id is only supported together with --report."))
            } else {
                Ok(())
            }
        },
        Some(f) => {
            let json_or_tree = match f {
                InspectExportReportFormat::Json | InspectExportReportFormat::Tree => true,
                _ => false,
            };
            if json_or_tree && args.report_columns.len() > 0 {
                Err(owned("--report-columns is only supported with table or csv --report output."))
            } else {
                match resolve_report_column_ids(args.report_columns.as_slice()) {
                    Ok(_) => Ok(()),
                    Err(e) => Err(e),
                }
            }
        },
    }
}

/// A copy of the connection options.
pub fn clone_common_args(c: &CommonCliArgs) -> (r: CommonCliArgs)
    ensures
        r == *c,
{
    CommonCliArgs {
        url: c.url.clone(),
        api_token: crate::text::clone_opt(&c.api_token),
        username: crate::text::clone_opt(&c.username),
        password: crate::text::clone_opt(&c.password),
        prompt_password: c.prompt_password,
        prompt_token: c.prompt_token,
        timeout: c.timeout,
        verify_ssl: c.verify_ssl,
    }
}

/// The export a live inspection runs first: the raw variant of the
/// selected org into `export_dir`, without the prompt variant, quietly.
pub fn build_live_export_args(args: &InspectLiveArgs, export_dir: String) -> (e: ExportArgs)
    ensures
        e.common == args.common,
        e.export_dir == export_dir,
        e.page_size == args.page_size,
        e.org_id == args.org_id,
        e.all_orgs == args.all_orgs,
        !e.flat && !e.overwrite && !e.without_dashboard_raw && e.without_dashboard_prompt,
        !e.dry_run && !e.progress && !e.verbose,
{
    ExportArgs {
        common: clone_common_args(&args.common),
        export_dir,
        page_size: args.page_size,
        org_id: args.org_id,
        all_orgs: args.all_orgs,
        flat: false,
        overwrite: false,
        without_dashboard_raw: false,
        without_dashboard_prompt: true,
        dry_run: false,
        progress: false,
        verbose: false,
    }
}

/// The inspection a live run performs on the exported raw variant in
/// `import_dir`, with the live run's render and report options.
pub fn build_export_inspect_args_from_live(args: &InspectLiveArgs, import_dir: String) -> (a:
    InspectExportArgs)
    ensures
        a.import_dir == import_dir,
        a.json == args.json,
        a.table == args.table,
        a.view == args.view,
        a.format == args.format,
        a.layout == args.layout,
        a.report == args.report,
        a.output_format == args.output_format,
        views(a.report_columns@) == views(args.report_columns@),
        a.report_filter_datasource == args.report_filter_datasource,
        a.report_filter_panel_id == args.report_filter_panel_id,
        a.help_full == args.help_full,
        a.no_header == args.no_header,
{
    InspectExportArgs {
        import_dir,
        json: args.json,
        table: args.table,
        view: args.view,
        format: args.format,
        layout: args.layout,
        report: args.report,
        output_format: args.output_format,
        report_columns: crate::text::clone_strings(args.report_columns.as_slice()),
        report_filter_datasource: crate::text::clone_opt(&args.report_filter_datasource),
        report_filter_panel_id: crate::text::clone_opt(&args.report_filter_panel_id),
        help_full: args.help_full,
        no_header: args.no_header,
    }
}

} // verus!
verus! {

/// The dashboards of a report grouped by UID, and their panels by identity,
/// in first-seen order.
pub fn build_grouped_query_report(report: &ExportInspectionQueryReport) -> (out: Vec<crate::report::GroupedQueryDashboard>)
    ensures
        crate::grouping::group_views(out@) == crate::grouping::group_dashboards(row_views(report.queries@)),
{
    crate::grouping::normalize_query_report(report).dashboards
}

/// `<label><value>` where the value is not empty.
pub open spec fn detail_if(label: Seq<char>, value: Seq<char>) -> Seq<Seq<char>> {
    if value.len() > 0 {
        seq![label + value]
    } else {
        Seq::empty()
    }
}

/// `<label><items joined by commas>` where there are items.
pub open spec fn list_detail_if(label: Seq<char>, items: Seq<Seq<char>>) -> Seq<Seq<char>> {
    if items.len() > 0 {
        seq![label + crate::text::join(items, ","@)]
    } else {
        Seq::empty()
    }
}

/// The details a query line shows, space-separated.
pub open spec fn query_details(q: QueryRowView) -> Seq<char> {
    crate::text::join(
        seq!["refId="@ + q.ref_id] + detail_if("datasource="@, q.datasource) + detail_if("datasourceUid="@, q.datasource_uid)
            + detail_if("field="@, q.query_field) + list_detail_if("metrics="@, q.metrics)
            + list_detail_if("measurements="@, q.measurements) + list_detail_if("buckets="@, q.buckets),
        " "@,
    )
}

/// The lines of one query: its details, then its text where it has one.
pub open spec fn query_lines(q: QueryRowView) -> Seq<Seq<char>> {
    seq!["    Query: "@ + query_details(q)] + if q.query_text.len() > 0 {
        seq!["      "@ + q.query_text]
    } else {
        Seq::empty()
    }
}

pub open spec fn queries_lines(qs: Seq<QueryRowView>) -> Seq<Seq<char>>
    decreases qs.len(),
{
    if qs.len() == 0 {
        Seq::empty()
    } else {
        queries_lines(qs.drop_last()) + query_lines(qs.last())
    }
}

pub open spec fn panel_lines(p: crate::grouping::PanelGroupView) -> Seq<Seq<char>> {
    seq![
        "  Panel: "@ + p.panel_title + " (id="@ + p.panel_id + ", type="@ + p.panel_type + ", queries="@
            + crate::text::decimal(p.queries.len()) + ")"@,
    ] + queries_lines(p.queries)
}

pub open spec fn panels_lines(ps: Seq<crate::grouping::PanelGroupView>) -> Seq<Seq<char>>
    decreases ps.len(),
{
    if ps.len() == 0 {
        Seq::empty()
    } else {
        panels_lines(ps.drop_last()) + panel_lines(ps.last())
    }
}

pub open spec fn dashboard_lines(g: crate::grouping::DashboardGroupView) -> Seq<Seq<char>> {
    seq![
        "Dashboard: "@ + g.dashboard_title + " (uid="@ + g.dashboard_uid + ", folder="@ + g.folder_path
            + ", panels="@ + crate::text::decimal(g.panels.len()) + ", queries="@
            + crate::text::decimal(crate::grouping::panel_query_total(g.panels)) + ")"@,
    ] + panels_lines(g.panels)
}

pub open spec fn dashboards_lines(gs: Seq<crate::grouping::DashboardGroupView>) -> Seq<Seq<char>>
    decreases gs.len(),
{
    if gs.len() == 0 {
        Seq::empty()
    } else {
        dashboards_lines(gs.drop_last()) + dashboard_lines(gs.last())
    }
}

/// The tree report of a query report: a summary line, then each dashboard
/// with its panels and their queries.
pub open spec fn grouped_report(r: ExportInspectionQueryReport) -> Seq<Seq<char>> {
    seq![
        "Export inspection report: "@ + r.import_dir@,
        Seq::empty(),
        "# Summary"@,
        "dashboards="@ + crate::text::decimal(r.summary.dashboard_count as nat) + " panels="@
            + crate::text::decimal(r.summary.panel_count as nat) + " queries="@
            + crate::text::decimal(r.summary.query_count as nat) + " rows="@
            + crate::text::decimal(r.summary.report_row_count as nat),
        Seq::empty(),
        "# Dashboard tree"@,
    ] + dashboards_lines(crate::grouping::group_dashboards(row_views(r.queries@)))
}

fn push_detail(details: &mut Vec<String>, label: &str, value: &String)
    ensures
        views(final(details)@) == views(old(details)@) + detail_if(label@, value@),
{
    if value.as_str().unicode_len() > 0 {
        let ghost before = details@;
        let d = crate::text::concat(label, value.as_str());
        details.push(d);
        proof {
            before.lemma_push_map_commute(|s: String| s@, d);
        }
    }
}

fn push_list_detail(details: &mut Vec<String>, label: &str, items: &Vec<String>)
    ensures
        views(final(details)@) == views(old(details)@) + list_detail_if(label@, views(items@)),
{
    if items.len() > 0 {
        let ghost before = details@;
        let joined = crate::text::join_strings(items.as_slice(), ",");
        let d = crate::text::concat(label, joined.as_str());
        details.push(d);
        proof {
            before.lemma_push_map_commute(|s: String| s@, d);
        }
    }
}

fn push_line(lines: &mut Vec<String>, l: String)
    ensures
        views(final(lines)@) == views(old(lines)@).push(l@),
{
    let ghost before = lines@;
    let ghost lv = l;
    lines.push(l);
    proof {
        before.lemma_push_map_commute(|s: String| s@, lv);
    }
}

fn append_query_lines(lines: &mut Vec<String>, q: &ExportInspectionQueryRow)
    ensures
        views(final(lines)@) == views(old(lines)@) + query_lines(q@),
{
    let mut details: Vec<String> = vec![crate::text::concat("refId=", q.ref_id.as_str())];
    assert(views(details@) =~= seq!["refId="@ + q.ref_id@]);
    push_detail(&mut details, "datasource=", &q.datasource);
    push_detail(&mut details, "datasourceUid=", &q.datasource_uid);
    push_detail(&mut details, "field=", &q.query_field);
    push_list_detail(&mut details, "metrics=", &q.metrics);
    push_list_detail(&mut details, "measurements=", &q.measurements);
    push_list_detail(&mut details, "buckets=", &q.buckets);
    assert(views(details@) =~= seq!["refId="@ + q@.ref_id] + detail_if("datasource="@, q@.datasource)
        + detail_if("datasourceUid="@, q@.datasource_uid) + detail_if("field="@, q@.query_field)
        + list_detail_if("metrics="@, q@.metrics) + list_detail_if("measurements="@, q@.measurements)
        + list_detail_if("buckets="@, q@.buckets));
    let joined = crate::text::join_strings(details.as_slice(), " ");
    assert(joined@ == query_details(q@));
    let ghost start = views(lines@);
    push_line(lines, crate::text::concat("    Query: ", joined.as_str()));
    if q.query_text.as_str().unicode_len() > 0 {
        push_line(lines, crate::text::concat("      ", q.query_text.as_str()));
    }
    proof {
        assert(views(lines@) =~= start + query_lines(q@));
    }
}

fn append_panel_lines(lines: &mut Vec<String>, p: &crate::report::GroupedQueryPanel)
    ensures
        views(final(lines)@) == views(old(lines)@) + panel_lines(p@),
{
    let ghost start = views(lines@);
    let mut head = crate::text::concat("  Panel: ", p.panel_title.as_str());
    head.append(" (id=");
    head.append(p.panel_id.as_str());
    head.append(", type=");
    head.append(p.panel_type.as_str());
    head.append(", queries=");
    head.append(crate::text::usize_text(p.queries.len()).as_str());
    head.append(")");
    push_line(lines, head);
    let ghost qs = row_views(p.queries@);
    let ghost mid = views(lines@);
    let mut i: usize = 0;
    while i < p.queries.len()
        invariant
            i <= p.queries@.len(),
            qs == row_views(p.queries@),
            views(lines@) == mid + queries_lines(qs.take(i as int)),
        decreases p.queries.len() - i,
    {
        proof {
            assert(qs.take(i + 1).drop_last() =~= qs.take(i as int));
        }
        append_query_lines(lines, &p.queries[i]);
        i = i + 1;
    }
    proof {
        assert(qs.take(p.queries@.len() as int) =~= qs);
        assert(views(lines@) =~= start + panel_lines(p@));
    }
}

fn append_dashboard_lines(lines: &mut Vec<String>, g: &crate::report::GroupedQueryDashboard, Ghost(bound): Ghost<nat>)
    requires
        crate::grouping::panel_query_total(g@.panels) <= bound,
        bound <= usize::MAX,
    ensures
        views(final(lines)@) == views(old(lines)@) + dashboard_lines(g@),
{
    let ghost ps = g@.panels;
    let mut total: usize = 0;
    let mut j: usize = 0;
    while j < g.panels.len()
        invariant
            j <= g.panels@.len(),
            ps == g@.panels,
            total == crate::grouping::panel_query_total(ps.take(j as int)),
            crate::grouping::panel_query_total(ps) <= bound <= usize::MAX,
        decreases g.panels.len() - j,
    {
        proof {
            assert(ps.take(j + 1).drop_last() =~= ps.take(j as int));
            assert(ps[j as int] == g.panels@[j as int]@);
            lemma_total_prefix(ps, j + 1);
        }
        total = total + g.panels[j].queries.len();
        j = j + 1;
    }
    assert(ps.take(g.panels@.len() as int) =~= ps);
    let ghost start = views(lines@);
    let mut head = crate::text::concat("Dashboard: ", g.dashboard_title.as_str());
    head.append(" (uid=");
    head.append(g.dashboard_uid.as_str());
    head.append(", folder=");
    head.append(g.folder_path.as_str());
    head.append(", panels=");
    head.append(crate::text::usize_text(g.panels.len()).as_str());
    head.append(", queries=");
    head.append(crate::text::usize_text(total).as_str());
    head.append(")");
    push_line(lines, head);
    let ghost mid = views(lines@);
    let mut i: usize = 0;
    while i < g.panels.len()
        invariant
            i <= g.panels@.len(),
            ps == g@.panels,
            views(lines@) == mid + panels_lines(ps.take(i as int)),
        decreases g.panels.len() - i,
    {
        proof {
            assert(ps.take(i + 1).drop_last() =~= ps.take(i as int));
            assert(ps[i as int] == g.panels@[i as int]@);
        }
        append_panel_lines(lines, &g.panels[i]);
        i = i + 1;
    }
    proof {
        assert(ps.take(g.panels@.len() as int) =~= ps);
        assert(views(lines@) =~= start + dashboard_lines(g@));
    }
}

proof fn lemma_total_prefix(ps: Seq<crate::grouping::PanelGroupView>, j: int)
    requires
        0 <= j <= ps.len(),
    ensures
        crate::grouping::panel_query_total(ps.take(j)) <= crate::grouping::panel_query_total(ps),
    decreases ps.len(),
{
    if j < ps.len() {
        assert(ps.drop_last().take(j) =~= ps.take(j));
        lemma_total_prefix(ps.drop_last(), j);
    } else {
        assert(ps.take(j) =~= ps);
    }
}

/// Renders a query report as a dashboard / panel / query tree.
pub fn render_grouped_query_report(report: &ExportInspectionQueryReport) -> (lines: Vec<String>)
    ensures
        views(lines@) == grouped_report(*report),
{
    let ghost rv = row_views(report.queries@);
    let grouped = build_grouped_query_report(report);
    let ghost gs = crate::grouping::group_views(grouped@);
    let mut lines: Vec<String> = Vec::new();
    push_line(&mut lines, crate::text::concat("Export inspection report: ", report.import_dir.as_str()));
    push_line(&mut lines, String::new());
    push_line(&mut lines, owned("# Summary"));
    let mut s = owned("dashboards=");
    s.append(crate::text::usize_text(report.summary.dashboard_count).as_str());
    s.append(" panels=");
    s.append(crate::text::usize_text(report.summary.panel_count).as_str());
    s.append(" queries=");
    s.append(crate::text::usize_text(report.summary.query_count).as_str());
    s.append(" rows=");
    s.append(crate::text::usize_text(report.summary.report_row_count).as_str());
    push_line(&mut lines, s);
    push_line(&mut lines, String::new());
    push_line(&mut lines, owned("# Dashboard tree"));
    let ghost head = views(lines@);
    let n = report.queries.len();
    let mut a: usize = 0;
    while a < grouped.len()
        invariant
            a <= grouped@.len(),
            n == rv.len(),
            gs == crate::grouping::group_views(grouped@),
            gs == crate::grouping::group_dashboards(rv),
            rv == row_views(report.queries@),
            views(lines@) == head + dashboards_lines(gs.take(a as int)),
        decreases grouped.len() - a,
    {
        proof {
            assert(gs.take(a + 1).drop_last() =~= gs.take(a as int));
            assert(gs[a as int] == grouped@[a as int]@);
            let d = crate::grouping::dashboard_rows(rv, gs[a as int].dashboard_uid);
            crate::grouping::lemma_group_panels_total(d);
            broadcast use vstd::seq_lib::group_filter_ensures;
            assert(d.len() <= rv.len());
            assert(rv.len() == report.queries@.len());
        }
        append_dashboard_lines(&mut lines, &grouped[a], Ghost(n as nat));
        a = a + 1;
    }
    proof {
        assert(gs.take(grouped@.len() as int) =~= gs);
        reveal_strlit("");
        assert(views(lines@) =~= grouped_report(*report));
    }
    lines
}

} // verus!
verus! {

/// How often one datasource label is referenced, and by which dashboards.
#[derive(Debug)]
pub struct LabelUsage {
    pub label: String,
    pub reference_count: usize,
    pub dashboard_uids: Vec<String>,
}

/// The position of the first usage entry for `label`, or -1.
pub open spec fn usage_pos(entries: Seq<LabelUsage>, label: Seq<char>) -> int
    decreases entries.len(),
{
    if entries.len() == 0 {
        -1
    } else if entries.last().label@ == label && usage_pos(entries.drop_last(), label) < 0 {
        entries.len() - 1
    } else {
        usage_pos(entries.drop_last(), label)
    }
}

proof fn lemma_usage_pos(entries: Seq<LabelUsage>, label: Seq<char>)
    ensures
        -1 <= usage_pos(entries, label) < entries.len(),
        usage_pos(entries, label) >= 0 ==> entries[usage_pos(entries, label)].label@ == label,
        usage_pos(entries, label) < 0 ==> forall|i: int| 0 <= i < entries.len() ==> entries[i].label@ != label,
        forall|i: int| 0 <= i < usage_pos(entries, label) ==> entries[i].label@ != label,
    decreases entries.len(),
{
    if entries.len() > 0 {
        let e0 = entries.drop_last();
        lemma_usage_pos(e0, label);
        assert forall|i: int| 0 <= i < e0.len() implies e0[i] == entries[i] by {}
    }
}

/// The references counted under `label`.
pub open spec fn label_count(entries: Seq<LabelUsage>, label: Seq<char>) -> nat {
    let p = usage_pos(entries, label);
    if p >= 0 {
        entries[p].reference_count as nat
    } else {
        0
    }
}

/// The dashboards counted under `label`.
pub open spec fn label_dashboards(entries: Seq<LabelUsage>, label: Seq<char>) -> Set<Seq<char>> {
    let p = usage_pos(entries, label);
    if p >= 0 {
        views(entries[p].dashboard_uids@).to_set()
    } else {
        Set::empty()
    }
}

/// The labels a datasource of the inventory is referenced by: its UID,
/// and its name where that differs; blank ones left out.
pub open spec fn inventory_labels(uid: Seq<char>, name: Seq<char>) -> Seq<Seq<char>> {
    (if uid.len() > 0 { seq![uid] } else { Seq::empty() }) + (if name.len() > 0 && name != uid {
        seq![name]
    } else {
        Seq::empty()
    })
}

/// The references and the distinct dashboards of a datasource, summed over
/// its labels.
pub open spec fn inventory_usage(entries: Seq<LabelUsage>, uid: Seq<char>, name: Seq<char>) -> (nat, nat) {
    let ls = inventory_labels(uid, name);
    let count = if ls.len() == 0 {
        0
    } else if ls.len() == 1 {
        label_count(entries, ls[0])
    } else {
        label_count(entries, ls[0]) + label_count(entries, ls[1])
    };
    let dashboards = if ls.len() == 0 {
        Set::empty()
    } else if ls.len() == 1 {
        label_dashboards(entries, ls[0])
    } else {
        label_dashboards(entries, ls[0]) + label_dashboards(entries, ls[1])
    };
    (count, dashboards.len())
}

fn find_usage(entries: &Vec<LabelUsage>, label: &str) -> (r: Option<usize>)
    ensures
        match r {
            Some(p) => p == usage_pos(entries@, label@) && p < entries@.len(),
            None => usage_pos(entries@, label@) < 0,
        },
{
    proof {
        lemma_usage_pos(entries@, label@);
    }
    let mut i: usize = 0;
    while i < entries.len()
        invariant
            i <= entries@.len(),
            forall|q: int| 0 <= q < i ==> entries@[q].label@ != label@,
            -1 <= usage_pos(entries@, label@) < entries@.len(),
            usage_pos(entries@, label@) >= 0 ==> entries@[usage_pos(entries@, label@)].label@ == label@,
            usage_pos(entries@, label@) < 0 ==> forall|q: int| 0 <= q < entries@.len() ==> entries@[q].label@ != label@,
            forall|q: int| 0 <= q < usage_pos(entries@, label@) ==> entries@[q].label@ != label@,
        decreases entries.len() - i,
    {
        if crate::text::str_is(entries[i].label.as_str(), label) {
            return Some(i);
        }
        i = i + 1;
    }
    None
}

/// Sums the references and counts the distinct dashboards of one datasource
/// of the inventory, over the usage recorded under its UID and its name.
pub fn summarize_datasource_inventory_usage(uid: &str, name: &str, usage_by_label: &Vec<LabelUsage>) -> (r: (
    usize,
    usize,
))
    requires
        label_count(usage_by_label@, uid@) + label_count(usage_by_label@, name@) <= usize::MAX,
    ensures
        (r.0 as nat, r.1 as nat) == inventory_usage(usage_by_label@, uid@, name@),
{
    let mut labels: Vec<&str> = Vec::new();
    if uid.unicode_len() > 0 {
        labels.push(uid);
    }
    if name.unicode_len() > 0 && !crate::text::str_is(name, uid) {
        labels.push(name);
    }
    let ghost ls = inventory_labels(uid@, name@);
    assert(labels@.map_values(|s: &str| s@) =~= ls);
    let mut count: usize = 0;
    let mut dashboards: Vec<String> = Vec::new();
    let mut i: usize = 0;
    while i < labels.len()
        invariant
            i <= labels@.len() <= 2,
            labels@.map_values(|s: &str| s@) == ls,
            ls == inventory_labels(uid@, name@),
            label_count(usage_by_label@, uid@) + label_count(usage_by_label@, name@) <= usize::MAX,
            sorted_strict(views(dashboards@)),
            count == (if i == 0 {
                0
            } else if i == 1 {
                label_count(usage_by_label@, ls[0])
            } else {
                label_count(usage_by_label@, ls[0]) + label_count(usage_by_label@, ls[1])
            }),
            views(dashboards@).to_set() == (if i == 0 {
                Set::empty()
            } else if i == 1 {
                label_dashboards(usage_by_label@, ls[0])
            } else {
                label_dashboards(usage_by_label@, ls[0]) + label_dashboards(usage_by_label@, ls[1])
            }),
        decreases labels.len() - i,
    {
        assert(labels@[i as int]@ == ls[i as int]);
        match find_usage(usage_by_label, labels[i]) {
            Some(p) => {
                let e = &usage_by_label[p];
                count = count + e.reference_count;
                crate::strset::union_into(&mut dashboards, &e.dashboard_uids);
            },
            None => {},
        }
        proof {
            assert(views(dashboards@).to_set() =~= (if i + 1 == 1 {
                label_dashboards(usage_by_label@, ls[0])
            } else {
                label_dashboards(usage_by_label@, ls[0]) + label_dashboards(usage_by_label@, ls[1])
            }));
        }
        i = i + 1;
    }
    proof {
        crate::strset::lemma_sorted_no_duplicates(views(dashboards@));
    }
    (count, dashboards.len())
}

} // verus!
