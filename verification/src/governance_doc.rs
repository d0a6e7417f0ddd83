//! The governance document of an export inspection, and its text report.
use vstd::prelude::*;

use crate::coverage::{
    build_datasource_coverage_rows, build_datasource_family_coverage_rows,
    build_datasource_governance_rows, coverage_families, coverage_keys, datasource_coverage_ok,
    family_coverage_ok, governance_before, governance_row_ok, mixed_uids, resolved_rows,
    DatasourceCoverageRow, DatasourceFamilyCoverageRow, DatasourceGovernanceRow,
};
use crate::dependencies::{build_dashboard_dependency_rows, dependency_row_ok, DashboardDependencyRow};
use crate::edges::{build_dashboard_datasource_edge_rows, edge_key, edge_keys_of, edge_ok, pair_lt, DashboardDatasourceEdgeRow};
use crate::governance::GovernanceRiskRow;
use crate::grouping::group_dashboards;
use crate::report::{row_views, ExportInspectionQueryReport};
use crate::risks::{build_governance_risk_rows, risk_records, risk_views};
use crate::strset::{lists, views};
use crate::summary::{inventory_views, DatasourceInventorySummary, ExportInspectionSummary, InventoryView};
use crate::coverage::ResolvedRow;

verus! {

/// The counts at the head of a governance document.
#[derive(Debug)]
pub struct GovernanceSummary {
    pub dashboard_count: usize,
    pub query_record_count: usize,
    pub datasource_inventory_count: usize,
    pub datasource_family_count: usize,
    pub datasource_coverage_count: usize,
    pub dashboard_datasource_edge_count: usize,
    pub datasource_risk_coverage_count: usize,
    pub mixed_datasource_dashboard_count: usize,
    pub orphaned_datasource_count: usize,
    pub risk_record_count: usize,
}

/// Every governance view of an export in one document.
#[derive(Debug)]
pub struct ExportInspectionGovernanceDocument {
    pub summary: GovernanceSummary,
    pub datasource_families: Vec<DatasourceFamilyCoverageRow>,
    pub dashboard_dependencies: Vec<DashboardDependencyRow>,
    pub dashboard_datasource_edges: Vec<DashboardDatasourceEdgeRow>,
    pub datasource_governance: Vec<DatasourceGovernanceRow>,
    pub datasources: Vec<DatasourceCoverageRow>,
    pub risk_records: Vec<GovernanceRiskRow>,
}

/// Inventory entries that no query references and no dashboard uses.
pub open spec fn orphaned_inventory(inv: Seq<InventoryView>) -> nat {
    inv.filter(|d: InventoryView| d.reference_count == 0 && d.dashboard_count == 0).len()
}

/// Governance rows that carry at least one risk.
pub open spec fn rows_with_risks(rows: Seq<DatasourceGovernanceRow>) -> nat {
    rows.filter(|r: DatasourceGovernanceRow| r.risk_count != 0).len()
}

/// The document assembles the views that the row builders state, and its
/// summary counts them.
pub open spec fn governance_document_ok(
    doc: ExportInspectionGovernanceDocument,
    summary: ExportInspectionSummary,
    report: ExportInspectionQueryReport,
) -> bool {
    let inv = inventory_views(summary.datasource_inventory@);
    let rows = row_views(report.queries@);
    let z = resolved_rows(rows, inv);
    &&& lists(doc.datasource_families@.map_values(|r: DatasourceFamilyCoverageRow| r.family@), coverage_families(z, inv))
    &&& (forall|i: int| 0 <= i < doc.datasource_families@.len() ==> family_coverage_ok(#[trigger] doc.datasource_families@[i], z, inv))
    &&& doc.dashboard_dependencies@.len() == group_dashboards(rows).len()
    &&& (forall|k: int| 0 <= k < doc.dashboard_dependencies@.len() ==> dependency_row_ok(#[trigger] doc.dashboard_dependencies@[k]@, rows, k))
    &&& edge_keys_of(doc.dashboard_datasource_edges@).to_set() == z.map_values(|x: ResolvedRow| edge_key(x)).to_set()
    &&& (forall|a: int, b: int| 0 <= a < b < doc.dashboard_datasource_edges@.len() ==> pair_lt(
        #[trigger] edge_keys_of(doc.dashboard_datasource_edges@)[a],
        #[trigger] edge_keys_of(doc.dashboard_datasource_edges@)[b],
    ))
    &&& (forall|i: int| 0 <= i < doc.dashboard_datasource_edges@.len() ==> edge_ok(#[trigger] doc.dashboard_datasource_edges@[i], z))
    &&& doc.datasource_governance@.map_values(|r: DatasourceGovernanceRow| r.datasource_uid@).to_set() == coverage_keys(z, inv)
    &&& (forall|a: int, b: int| 0 <= a < b < doc.datasource_governance@.len() ==> governance_before(
        #[trigger] doc.datasource_governance@[a],
        #[trigger] doc.datasource_governance@[b],
    ))
    &&& (forall|i: int| 0 <= i < doc.datasource_governance@.len() ==> governance_row_ok(
        #[trigger] doc.datasource_governance@[i],
        z,
        inv,
        mixed_uids(summary),
    ))
    &&& lists(doc.datasources@.map_values(|r: DatasourceCoverageRow| r.datasource_uid@), coverage_keys(z, inv))
    &&& (forall|i: int| 0 <= i < doc.datasources@.len() ==> datasource_coverage_ok(#[trigger] doc.datasources@[i], z, inv))
    &&& risk_views(doc.risk_records@) == risk_records(summary.mixed_dashboards@, inv, z)
    &&& doc.summary.dashboard_count == summary.dashboard_count
    &&& doc.summary.query_record_count == report.summary.report_row_count
    &&& doc.summary.datasource_inventory_count == summary.datasource_inventory_count
    &&& doc.summary.datasource_family_count == doc.datasource_families@.len()
    &&& doc.summary.datasource_coverage_count == doc.datasources@.len()
    &&& doc.summary.dashboard_datasource_edge_count == doc.dashboard_datasource_edges@.len()
    &&& doc.summary.datasource_risk_coverage_count == rows_with_risks(doc.datasource_governance@)
    &&& doc.summary.mixed_datasource_dashboard_count == summary.mixed_dashboard_count
    &&& doc.summary.orphaned_datasource_count == orphaned_inventory(inv)
    &&& doc.summary.risk_record_count == doc.risk_records@.len()
}

fn count_rows_with_risks(rows: &Vec<DatasourceGovernanceRow>) -> (n: usize)
    ensures
        n == rows_with_risks(rows@),
{
    let ghost p = |r: DatasourceGovernanceRow| r.risk_count != 0;
    let mut n: usize = 0;
    let mut i: usize = 0;
    while i < rows.len()
        invariant
            i <= rows@.len(),
            p == (|r: DatasourceGovernanceRow| r.risk_count != 0),
            n == rows@.take(i as int).filter(p).len(),
            n <= i,
        decreases rows.len() - i,
    {
        proof {
            assert(rows@.take(i + 1) =~= rows@.take(i as int).push(rows@[i as int]));
            rows@.take(i as int).lemma_filter_push(rows@[i as int], p);
        }
        if rows[i].risk_count != 0 {
            n = n + 1;
        }
        i = i + 1;
    }
    assert(rows@.take(rows@.len() as int) =~= rows@);
    n
}

fn count_orphaned(inventory: &Vec<DatasourceInventorySummary>) -> (n: usize)
    ensures
        n == orphaned_inventory(inventory_views(inventory@)),
{
    let ghost inv = inventory_views(inventory@);
    let ghost p = |d: InventoryView| d.reference_count == 0 && d.dashboard_count == 0;
    let mut n: usize = 0;
    let mut i: usize = 0;
    while i < inventory.len()
        invariant
            i <= inventory@.len(),
            inv == inventory_views(inventory@),
            p == (|d: InventoryView| d.reference_count == 0 && d.dashboard_count == 0),
            n == inv.take(i as int).filter(p).len(),
            n <= i,
        decreases inventory.len() - i,
    {
        proof {
            assert(inv.take(i + 1) =~= inv.take(i as int).push(inv[i as int]));
            inv.take(i as int).lemma_filter_push(inv[i as int], p);
        }
        if inventory[i].reference_count == 0 && inventory[i].dashboard_count == 0 {
            n = n + 1;
        }
        i = i + 1;
    }
    assert(inv.take(inventory@.len() as int) =~= inv);
    n
}

/// Builds the governance document of an export from its inspection summary
/// and its query report.
pub fn build_export_inspection_governance_document(
    summary: &ExportInspectionSummary,
    report: &ExportInspectionQueryReport,
) -> (doc: ExportInspectionGovernanceDocument)
    requires
        report.queries@.len() < usize::MAX / 8,
    ensures
        governance_document_ok(doc, *summary, *report),
{
    let datasource_families = build_datasource_family_coverage_rows(summary, report);
    let dashboard_dependencies = build_dashboard_dependency_rows(report);
    let dashboard_datasource_edges = build_dashboard_datasource_edge_rows(summary, report);
    let datasource_governance = build_datasource_governance_rows(summary, report);
    let datasources = build_datasource_coverage_rows(summary, report);
    let risk_records = build_governance_risk_rows(summary, report);
    let gsummary = GovernanceSummary {
        dashboard_count: summary.dashboard_count,
        query_record_count: report.summary.report_row_count,
        datasource_inventory_count: summary.datasource_inventory_count,
        datasource_family_count: datasource_families.len(),
        datasource_coverage_count: datasources.len(),
        dashboard_datasource_edge_count: dashboard_datasource_edges.len(),
        datasource_risk_coverage_count: count_rows_with_risks(&datasource_governance),
        mixed_datasource_dashboard_count: summary.mixed_dashboard_count,
        orphaned_datasource_count: count_orphaned(&summary.datasource_inventory),
        risk_record_count: risk_records.len(),
    };
    ExportInspectionGovernanceDocument {
        summary: gsummary,
        datasource_families,
        dashboard_dependencies,
        dashboard_datasource_edges,
        datasource_governance,
        datasources,
        risk_records,
    }
}

} // verus!
verus! {

/// A list's items joined with commas.
pub open spec fn commas(v: Seq<String>) -> Seq<char> {
    crate::text::join(views(v), ","@)
}

/// A list's items joined with commas, or `(none)` for an empty list.
pub open spec fn commas_or_none(v: Seq<String>) -> Seq<char> {
    if v.len() == 0 {
        "(none)"@
    } else {
        commas(v)
    }
}

pub open spec fn num(n: usize) -> Seq<char> {
    crate::text::decimal(n as nat)
}

pub open spec fn summary_cells(s: GovernanceSummary) -> Seq<Seq<char>> {
    seq![
        num(s.dashboard_count),
        num(s.query_record_count),
        num(s.datasource_family_count),
        num(s.datasource_coverage_count),
        num(s.dashboard_datasource_edge_count),
        num(s.datasource_risk_coverage_count),
        num(s.mixed_datasource_dashboard_count),
        num(s.orphaned_datasource_count),
        num(s.risk_record_count),
    ]
}

pub open spec fn family_cells(r: DatasourceFamilyCoverageRow) -> Seq<Seq<char>> {
    seq![
        r.family@,
        commas(r.datasource_types@),
        num(r.datasource_count),
        num(r.orphaned_datasource_count),
        num(r.dashboard_count),
        num(r.panel_count),
        num(r.query_count),
    ]
}

pub open spec fn dependency_cells(r: DashboardDependencyRow) -> Seq<Seq<char>> {
    seq![
        r.dashboard_uid@,
        r.dashboard_title@,
        r.folder_path@,
        num(r.panel_count),
        num(r.query_count),
        num(r.datasource_count),
        num(r.datasource_family_count),
        commas(r.datasources@),
        commas(r.datasource_families@),
        commas(r.query_fields@),
        commas(r.metrics@),
        commas(r.functions@),
        commas(r.measurements@),
        commas(r.buckets@),
        r.file_path@,
    ]
}

pub open spec fn edge_cells(r: DashboardDatasourceEdgeRow) -> Seq<Seq<char>> {
    seq![
        r.dashboard_uid@,
        r.dashboard_title@,
        r.folder_path@,
        r.datasource_uid@,
        r.datasource@,
        r.datasource_type@,
        r.family@,
        num(r.panel_count),
        num(r.query_count),
        commas(r.query_fields@),
        commas(r.metrics@),
        commas(r.functions@),
        commas(r.measurements@),
        commas(r.buckets@),
    ]
}

pub open spec fn governance_cells(r: DatasourceGovernanceRow) -> Seq<Seq<char>> {
    seq![
        r.datasource_uid@,
        r.datasource@,
        r.family@,
        num(r.query_count),
        num(r.dashboard_count),
        num(r.panel_count),
        num(r.mixed_dashboard_count),
        num(r.risk_count),
        commas_or_none(r.risk_kinds@),
        commas_or_none(r.dashboard_uids@),
        crate::text::bool_text(r.orphaned),
    ]
}

pub open spec fn coverage_cells(r: DatasourceCoverageRow) -> Seq<Seq<char>> {
    seq![
        r.datasource_uid@,
        r.datasource@,
        r.family@,
        num(r.query_count),
        num(r.dashboard_count),
        num(r.panel_count),
        commas_or_none(r.dashboard_uids@),
        commas_or_none(r.query_fields@),
        crate::text::bool_text(r.orphaned),
    ]
}

pub open spec fn risk_cells(r: GovernanceRiskRow) -> Seq<Seq<char>> {
    seq![
        r.severity@,
        r.category@,
        r.kind@,
        r.dashboard_uid@,
        r.panel_id@,
        r.datasource@,
        r.detail@,
        r.recommendation@,
    ]
}

/// One section of the report: a blank line, its title, then its table or
/// `(none)`.
pub open spec fn section(title: Seq<char>, headers: Seq<Seq<char>>, rows: Seq<Seq<Seq<char>>>) -> Seq<Seq<char>> {
    seq![Seq::empty(), "# "@ + title] + if rows.len() == 0 {
        seq!["(none)"@]
    } else {
        crate::render::table_lines(headers, rows, true)
    }
}

pub open spec fn summary_headers() -> Seq<Seq<char>> {
    seq!["DASHBOARDS"@, "QUERIES"@, "FAMILIES"@, "DATASOURCES"@, "DASHBOARD_DATASOURCE_EDGES"@,
        "DATASOURCES_WITH_RISKS"@, "MIXED_DASHBOARDS"@, "ORPHANED_DATASOURCES"@, "RISKS"@]
}

pub open spec fn family_headers() -> Seq<Seq<char>> {
    seq!["FAMILY"@, "TYPES"@, "DATASOURCES"@, "ORPHANED_DATASOURCES"@, "DASHBOARDS"@, "PANELS"@, "QUERIES"@]
}

pub open spec fn dependency_headers() -> Seq<Seq<char>> {
    seq!["DASHBOARD_UID"@, "TITLE"@, "FOLDER_PATH"@, "PANELS"@, "QUERIES"@, "DATASOURCE_COUNT"@,
        "DATASOURCE_FAMILY_COUNT"@, "DATASOURCES"@, "FAMILIES"@, "QUERY_FIELDS"@, "METRICS"@,
        "FUNCTIONS"@, "MEASUREMENTS"@, "BUCKETS"@, "FILE"@]
}

pub open spec fn edge_headers() -> Seq<Seq<char>> {
    seq!["DASHBOARD_UID"@, "TITLE"@, "FOLDER_PATH"@, "DATASOURCE_UID"@, "DATASOURCE"@,
        "DATASOURCE_TYPE"@, "FAMILY"@, "PANELS"@, "QUERIES"@, "QUERY_FIELDS"@, "METRICS"@,
        "FUNCTIONS"@, "MEASUREMENTS"@, "BUCKETS"@]
}

pub open spec fn governance_headers() -> Seq<Seq<char>> {
    seq!["UID"@, "DATASOURCE"@, "FAMILY"@, "QUERIES"@, "DASHBOARDS"@, "PANELS"@,
        "MIXED_DASHBOARDS"@, "RISKS"@, "RISK_KINDS"@, "DASHBOARD_UIDS"@, "ORPHANED"@]
}

pub open spec fn coverage_headers() -> Seq<Seq<char>> {
    seq!["UID"@, "DATASOURCE"@, "FAMILY"@, "QUERIES"@, "DASHBOARDS"@, "PANELS"@,
        "DASHBOARD_UIDS"@, "QUERY_FIELDS"@, "ORPHANED"@]
}

pub open spec fn risk_headers() -> Seq<Seq<char>> {
    seq!["SEVERITY"@, "CATEGORY"@, "KIND"@, "DASHBOARD_UID"@, "PANEL_ID"@, "DATASOURCE"@,
        "DETAIL"@, "RECOMMENDATION"@]
}

/// The text report of a governance document: its title, the summary table,
/// then one section per view of the document.
pub open spec fn governance_report(import_dir: Seq<char>, d: ExportInspectionGovernanceDocument) -> Seq<Seq<char>> {
    seq!["Export inspection governance: "@ + import_dir, Seq::empty(), "# Summary"@]
        + crate::render::table_lines(summary_headers(), seq![summary_cells(d.summary)], true)
        + section("Datasource Families"@, family_headers(), d.datasource_families@.map_values(|r: DatasourceFamilyCoverageRow| family_cells(r)))
        + section("Dashboard Dependencies"@, dependency_headers(), d.dashboard_dependencies@.map_values(|r: DashboardDependencyRow| dependency_cells(r)))
        + section("Dashboard Datasource Edges"@, edge_headers(), d.dashboard_datasource_edges@.map_values(|r: DashboardDatasourceEdgeRow| edge_cells(r)))
        + section("Datasource Governance"@, governance_headers(), d.datasource_governance@.map_values(|r: DatasourceGovernanceRow| governance_cells(r)))
        + section("Datasources"@, coverage_headers(), d.datasources@.map_values(|r: DatasourceCoverageRow| coverage_cells(r)))
        + section("Risks"@, risk_headers(), d.risk_records@.map_values(|r: GovernanceRiskRow| risk_cells(r)))
}

fn strings(v: &Vec<&str>) -> (out: Vec<String>)
    ensures
        views(out@) == v@.map_values(|s: &str| s@),
{
    let mut out: Vec<String> = Vec::new();
    let mut i: usize = 0;
    while i < v.len()
        invariant
            i <= v@.len(),
            views(out@) == v@.take(i as int).map_values(|s: &str| s@),
        decreases v.len() - i,
    {
        let ghost before = out@;
        let s = crate::text::owned(v[i]);
        out.push(s);
        proof {
            before.lemma_push_map_commute(|s: String| s@, s);
            assert(v@.take(i + 1).map_values(|s: &str| s@) =~= v@.take(i as int).map_values(|s: &str| s@).push(v@[i as int]@));
        }
        i = i + 1;
    }
    assert(v@.take(v@.len() as int) =~= v@);
    out
}

fn append_section(lines: &mut Vec<String>, title: &str, headers: &Vec<&str>, rows: &Vec<Vec<String>>)
    ensures
        views(final(lines)@) == views(old(lines)@) + section(
            title@,
            headers@.map_values(|s: &str| s@),
            crate::render::table_views(rows@),
        ),
{
    let ghost start = views(lines@);
    lines.push(String::new());
    lines.push(crate::text::concat("# ", title));
    let body: Vec<String> = if rows.len() == 0 {
        vec![crate::text::owned("(none)")]
    } else {
        let hs = strings(headers);
        crate::render::render_simple_table(hs.as_slice(), rows.as_slice(), true)
    };
    let mut i: usize = 0;
    let ghost mid = views(lines@);
    proof {
        assert(mid =~= start + seq![Seq::<char>::empty(), "# "@ + title@]);
    }
    while i < body.len()
        invariant
            i <= body@.len(),
            views(lines@) == mid + views(body@).take(i as int),
        decreases body.len() - i,
    {
        let ghost before = lines@;
        let s = body[i].clone();
        lines.push(s);
        proof {
            before.lemma_push_map_commute(|s: String| s@, s);
            assert(views(body@).take(i + 1) =~= views(body@).take(i as int).push(body@[i as int]@));
        }
        i = i + 1;
    }
    proof {
        assert(views(body@).take(body@.len() as int) =~= views(body@));
        if rows@.len() == 0 {
            assert(views(body@) =~= seq!["(none)"@]);
        }
        assert(views(lines@) =~= start + section(
            title@,
            headers@.map_values(|s: &str| s@),
            crate::render::table_views(rows@),
        ));
    }
}

} // verus!
verus! {

fn commas_or_none_string(v: &Vec<String>) -> (r: String)
    ensures
        r@ == commas_or_none(v@),
{
    if v.len() == 0 {
        crate::text::owned("(none)")
    } else {
        crate::text::join_strings(v.as_slice(), ",")
    }
}

fn family_rows(records: &Vec<DatasourceFamilyCoverageRow>) -> (out: Vec<Vec<String>>)
    ensures
        crate::render::table_views(out@) == records@.map_values(|r: DatasourceFamilyCoverageRow| family_cells(r)),
{
    let mut out: Vec<Vec<String>> = Vec::new();
    let mut i: usize = 0;
    while i < records.len()
        invariant
            i <= records@.len(),
            crate::render::table_views(out@) == records@.take(i as int).map_values(|r: DatasourceFamilyCoverageRow| family_cells(r)),
        decreases records.len() - i,
    {
        let r = &records[i];
        let cells = vec![
            r.family.clone(),
            crate::text::join_strings(r.datasource_types.as_slice(), ","),
            crate::text::usize_text(r.datasource_count),
            crate::text::usize_text(r.orphaned_datasource_count),
            crate::text::usize_text(r.dashboard_count),
            crate::text::usize_text(r.panel_count),
            crate::text::usize_text(r.query_count),
        ];
        let ghost before = out@;
        proof {
            assert(views(cells@) =~= family_cells(*r));
        }
        let ghost cv = cells;
        out.push(cells);
        proof {
            before.lemma_push_map_commute(|r: Vec<String>| views(r@), cv);
            assert(crate::render::table_views(out@) =~= records@.take(i + 1).map_values(|r: DatasourceFamilyCoverageRow| family_cells(r)));
        }
        i = i + 1;
    }
    assert(records@.take(records@.len() as int) =~= records@);
    out
}

fn dependency_rows(records: &Vec<DashboardDependencyRow>) -> (out: Vec<Vec<String>>)
    ensures
        crate::render::table_views(out@) == records@.map_values(|r: DashboardDependencyRow| dependency_cells(r)),
{
    let mut out: Vec<Vec<String>> = Vec::new();
    let mut i: usize = 0;
    while i < records.len()
        invariant
            i <= records@.len(),
            crate::render::table_views(out@) == records@.take(i as int).map_values(|r: DashboardDependencyRow| dependency_cells(r)),
        decreases records.len() - i,
    {
        let r = &records[i];
        let cells = vec![
            r.dashboard_uid.clone(),
            r.dashboard_title.clone(),
            r.folder_path.clone(),
            crate::text::usize_text(r.panel_count),
            crate::text::usize_text(r.query_count),
            crate::text::usize_text(r.datasource_count),
            crate::text::usize_text(r.datasource_family_count),
            crate::text::join_strings(r.datasources.as_slice(), ","),
            crate::text::join_strings(r.datasource_families.as_slice(), ","),
            crate::text::join_strings(r.query_fields.as_slice(), ","),
            crate::text::join_strings(r.metrics.as_slice(), ","),
            crate::text::join_strings(r.functions.as_slice(), ","),
            crate::text::join_strings(r.measurements.as_slice(), ","),
            crate::text::join_strings(r.buckets.as_slice(), ","),
            r.file_path.clone(),
        ];
        let ghost before = out@;
        proof {
            assert(views(cells@) =~= dependency_cells(*r));
        }
        let ghost cv = cells;
        out.push(cells);
        proof {
            before.lemma_push_map_commute(|r: Vec<String>| views(r@), cv);
            assert(crate::render::table_views(out@) =~= records@.take(i + 1).map_values(|r: DashboardDependencyRow| dependency_cells(r)));
        }
        i = i + 1;
    }
    assert(records@.take(records@.len() as int) =~= records@);
    out
}

fn edge_rows(records: &Vec<DashboardDatasourceEdgeRow>) -> (out: Vec<Vec<String>>)
    ensures
        crate::render::table_views(out@) == records@.map_values(|r: DashboardDatasourceEdgeRow| edge_cells(r)),
{
    let mut out: Vec<Vec<String>> = Vec::new();
    let mut i: usize = 0;
    while i < records.len()
        invariant
            i <= records@.len(),
            crate::render::table_views(out@) == records@.take(i as int).map_values(|r: DashboardDatasourceEdgeRow| edge_cells(r)),
        decreases records.len() - i,
    {
        let r = &records[i];
        let cells = vec![
            r.dashboard_uid.clone(),
            r.dashboard_title.clone(),
            r.folder_path.clone(),
            r.datasource_uid.clone(),
            r.datasource.clone(),
            r.datasource_type.clone(),
            r.family.clone(),
            crate::text::usize_text(r.panel_count),
            crate::text::usize_text(r.query_count),
            crate::text::join_strings(r.query_fields.as_slice(), ","),
            crate::text::join_strings(r.metrics.as_slice(), ","),
            crate::text::join_strings(r.functions.as_slice(), ","),
            crate::text::join_strings(r.measurements.as_slice(), ","),
            crate::text::join_strings(r.buckets.as_slice(), ","),
        ];
        let ghost before = out@;
        proof {
            assert(views(cells@) =~= edge_cells(*r));
        }
        let ghost cv = cells;
        out.push(cells);
        proof {
            before.lemma_push_map_commute(|r: Vec<String>| views(r@), cv);
            assert(crate::render::table_views(out@) =~= records@.take(i + 1).map_values(|r: DashboardDatasourceEdgeRow| edge_cells(r)));
        }
        i = i + 1;
    }
    assert(records@.take(records@.len() as int) =~= records@);
    out
}

fn governance_rows(records: &Vec<DatasourceGovernanceRow>) -> (out: Vec<Vec<String>>)
    ensures
        crate::render::table_views(out@) == records@.map_values(|r: DatasourceGovernanceRow| governance_cells(r)),
{
    let mut out: Vec<Vec<String>> = Vec::new();
    let mut i: usize = 0;
    while i < records.len()
        invariant
            i <= records@.len(),
            crate::render::table_views(out@) == records@.take(i as int).map_values(|r: DatasourceGovernanceRow| governance_cells(r)),
        decreases records.len() - i,
    {
        let r = &records[i];
        let cells = vec![
            r.datasource_uid.clone(),
            r.datasource.clone(),
            r.family.clone(),
            crate::text::usize_text(r.query_count),
            crate::text::usize_text(r.dashboard_count),
            crate::text::usize_text(r.panel_count),
            crate::text::usize_text(r.mixed_dashboard_count),
            crate::text::usize_text(r.risk_count),
            commas_or_none_string(&r.risk_kinds),
            commas_or_none_string(&r.dashboard_uids),
            crate::text::bool_string(r.orphaned),
        ];
        let ghost before = out@;
        proof {
            assert(views(cells@) =~= governance_cells(*r));
        }
        let ghost cv = cells;
        out.push(cells);
        proof {
            before.lemma_push_map_commute(|r: Vec<String>| views(r@), cv);
            assert(crate::render::table_views(out@) =~= records@.take(i + 1).map_values(|r: DatasourceGovernanceRow| governance_cells(r)));
        }
        i = i + 1;
    }
    assert(records@.take(records@.len() as int) =~= records@);
    out
}

fn coverage_rows(records: &Vec<DatasourceCoverageRow>) -> (out: Vec<Vec<String>>)
    ensures
        crate::render::table_views(out@) == records@.map_values(|r: DatasourceCoverageRow| coverage_cells(r)),
{
    let mut out: Vec<Vec<String>> = Vec::new();
    let mut i: usize = 0;
    while i < records.len()
        invariant
            i <= records@.len(),
            crate::render::table_views(out@) == records@.take(i as int).map_values(|r: DatasourceCoverageRow| coverage_cells(r)),
        decreases records.len() - i,
    {
        let r = &records[i];
        let cells = vec![
            r.datasource_uid.clone(),
            r.datasource.clone(),
            r.family.clone(),
            crate::text::usize_text(r.query_count),
            crate::text::usize_text(r.dashboard_count),
            crate::text::usize_text(r.panel_count),
            commas_or_none_string(&r.dashboard_uids),
            commas_or_none_string(&r.query_fields),
            crate::text::bool_string(r.orphaned),
        ];
        let ghost before = out@;
        proof {
            assert(views(cells@) =~= coverage_cells(*r));
        }
        let ghost cv = cells;
        out.push(cells);
        proof {
            before.lemma_push_map_commute(|r: Vec<String>| views(r@), cv);
            assert(crate::render::table_views(out@) =~= records@.take(i + 1).map_values(|r: DatasourceCoverageRow| coverage_cells(r)));
        }
        i = i + 1;
    }
    assert(records@.take(records@.len() as int) =~= records@);
    out
}

fn risk_rows(records: &Vec<GovernanceRiskRow>) -> (out: Vec<Vec<String>>)
    ensures
        crate::render::table_views(out@) == records@.map_values(|r: GovernanceRiskRow| risk_cells(r)),
{
    let mut out: Vec<Vec<String>> = Vec::new();
    let mut i: usize = 0;
    while i < records.len()
        invariant
            i <= records@.len(),
            crate::render::table_views(out@) == records@.take(i as int).map_values(|r: GovernanceRiskRow| risk_cells(r)),
        decreases records.len() - i,
    {
        let r = &records[i];
        let cells = vec![
            r.severity.clone(),
            r.category.clone(),
            r.kind.clone(),
            r.dashboard_uid.clone(),
            r.panel_id.clone(),
            r.datasource.clone(),
            r.detail.clone(),
            r.recommendation.clone(),
        ];
        let ghost before = out@;
        proof {
            assert(views(cells@) =~= risk_cells(*r));
        }
        let ghost cv = cells;
        out.push(cells);
        proof {
            before.lemma_push_map_commute(|r: Vec<String>| views(r@), cv);
            assert(crate::render::table_views(out@) =~= records@.take(i + 1).map_values(|r: GovernanceRiskRow| risk_cells(r)));
        }
        i = i + 1;
    }
    assert(records@.take(records@.len() as int) =~= records@);
    out
}

} // verus!
verus! {

/// Renders a governance document as the text report of an export
/// inspection.
pub fn render_governance_table_report(import_dir: &str, document: &ExportInspectionGovernanceDocument) -> (lines:
    Vec<String>)
    ensures
        views(lines@) == governance_report(import_dir@, *document),
{
    let mut lines: Vec<String> = Vec::new();
    lines.push(crate::text::concat("Export inspection governance: ", import_dir));
    lines.push(String::new());
    lines.push(crate::text::owned("# Summary"));
    let s = &document.summary;
    let summary_row = vec![
        crate::text::usize_text(s.dashboard_count),
        crate::text::usize_text(s.query_record_count),
        crate::text::usize_text(s.datasource_family_count),
        crate::text::usize_text(s.datasource_coverage_count),
        crate::text::usize_text(s.dashboard_datasource_edge_count),
        crate::text::usize_text(s.datasource_risk_coverage_count),
        crate::text::usize_text(s.mixed_datasource_dashboard_count),
        crate::text::usize_text(s.orphaned_datasource_count),
        crate::text::usize_text(s.risk_record_count),
    ];
    assert(views(summary_row@) =~= summary_cells(*s));
    let summary_rows = vec![summary_row];
    assert(crate::render::table_views(summary_rows@) =~= seq![summary_cells(*s)]);
    let sh = strings(&vec![
        "DASHBOARDS",
        "QUERIES",
        "FAMILIES",
        "DATASOURCES",
        "DASHBOARD_DATASOURCE_EDGES",
        "DATASOURCES_WITH_RISKS",
        "MIXED_DASHBOARDS",
        "ORPHANED_DATASOURCES",
        "RISKS",
    ]);
    assert(views(sh@) =~= summary_headers());
    let table = crate::render::render_simple_table(sh.as_slice(), summary_rows.as_slice(), true);
    let ghost head = views(lines@);
    let mut i: usize = 0;
    while i < table.len()
        invariant
            i <= table@.len(),
            views(lines@) == head + views(table@).take(i as int),
        decreases table.len() - i,
    {
        let ghost before = lines@;
        let t = table[i].clone();
        lines.push(t);
        proof {
            before.lemma_push_map_commute(|s: String| s@, t);
            assert(views(table@).take(i + 1) =~= views(table@).take(i as int).push(table@[i as int]@));
        }
        i = i + 1;
    }
    proof {
        assert(views(table@).take(table@.len() as int) =~= views(table@));
    }
    let fh = vec!["FAMILY", "TYPES", "DATASOURCES", "ORPHANED_DATASOURCES", "DASHBOARDS", "PANELS", "QUERIES"];
    assert(fh@.map_values(|s: &str| s@) =~= family_headers());
    append_section(&mut lines, "Datasource Families", &fh, &family_rows(&document.datasource_families));
    let dh = vec![
        "DASHBOARD_UID",
        "TITLE",
        "FOLDER_PATH",
        "PANELS",
        "QUERIES",
        "DATASOURCE_COUNT",
        "DATASOURCE_FAMILY_COUNT",
        "DATASOURCES",
        "FAMILIES",
        "QUERY_FIELDS",
        "METRICS",
        "FUNCTIONS",
        "MEASUREMENTS",
        "BUCKETS",
        "FILE",
    ];
    assert(dh@.map_values(|s: &str| s@) =~= dependency_headers());
    append_section(&mut lines, "Dashboard Dependencies", &dh, &dependency_rows(&document.dashboard_dependencies));
    let eh = vec![
        "DASHBOARD_UID",
        "TITLE",
        "FOLDER_PATH",
        "DATASOURCE_UID",
        "DATASOURCE",
        "DATASOURCE_TYPE",
        "FAMILY",
        "PANELS",
        "QUERIES",
        "QUERY_FIELDS",
        "METRICS",
        "FUNCTIONS",
        "MEASUREMENTS",
        "BUCKETS",
    ];
    assert(eh@.map_values(|s: &str| s@) =~= edge_headers());
    append_section(&mut lines, "Dashboard Datasource Edges", &eh, &edge_rows(&document.dashboard_datasource_edges));
    let gh = vec![
        "UID",
        "DATASOURCE",
        "FAMILY",
        "QUERIES",
        "DASHBOARDS",
        "PANELS",
        "MIXED_DASHBOARDS",
        "RISKS",
        "RISK_KINDS",
        "DASHBOARD_UIDS",
        "ORPHANED",
    ];
    assert(gh@.map_values(|s: &str| s@) =~= governance_headers());
    append_section(&mut lines, "Datasource Governance", &gh, &governance_rows(&document.datasource_governance));
    let ch = vec![
        "UID",
        "DATASOURCE",
        "FAMILY",
        "QUERIES",
        "DASHBOARDS",
        "PANELS",
        "DASHBOARD_UIDS",
        "QUERY_FIELDS",
        "ORPHANED",
    ];
    assert(ch@.map_values(|s: &str| s@) =~= coverage_headers());
    append_section(&mut lines, "Datasources", &ch, &coverage_rows(&document.datasources));
    let rh = vec!["SEVERITY", "CATEGORY", "KIND", "DASHBOARD_UID", "PANEL_ID", "DATASOURCE", "DETAIL", "RECOMMENDATION"];
    assert(rh@.map_values(|s: &str| s@) =~= risk_headers());
    append_section(&mut lines, "Risks", &rh, &risk_rows(&document.risk_records));
    proof {
        assert(views(lines@) =~= governance_report(import_dir@, *document));
    }
    lines
}

} // verus!
