//! Properties of the inspection and import reports: which datasources are
//! orphaned, which family a search datasource belongs to, how skipped
//! dashboards are counted, and that report cells stand under their headers.
use vstd::prelude::*;

use crate::coverage::{DatasourceCoverageRow, DatasourceFamilyCoverageRow, DatasourceGovernanceRow};
use crate::dependencies::DashboardDependencyRow;
use crate::edges::DashboardDatasourceEdgeRow;
use crate::governance::GovernanceRiskRow;
use crate::governance_doc::GovernanceSummary;
use crate::datasource_summary::{active_count, inventory_row, orphaned_count, unlisted_row, SummaryRowView, UsageState};
use crate::governance::family_of;
use crate::governance_doc::{
    commas, commas_or_none, coverage_cells, coverage_headers, dependency_cells, dependency_headers, edge_cells, edge_headers,
    family_cells, family_headers, governance_cells, governance_headers, risk_cells, risk_headers, summary_cells,
    summary_headers,
};
use crate::import_flow::{dry_run_record, import_action_parts, skip_missing_count};
use crate::report::{datasource_family_of, report_cell, QueryRowView};
use crate::summary::InventoryView;
use crate::text::{ascii_lower, decimal, join, trim};

verus! {

/// An inventory datasource is orphaned exactly when no query uses it: its
/// row reads `true` when its query and dashboard counts are zero, and
/// `false` otherwise; a datasource that queries use is never orphaned. A
/// datasource that only the queries name is never orphaned either.
pub proof fn law_orphaned_means_unused(d: InventoryView, usage: Option<UsageState>, s: UsageState)
    ensures
        inventory_row(d, usage).query_count == 0 && inventory_row(d, usage).dashboard_count == 0
            ==> inventory_row(d, usage).orphaned == "true"@,
        inventory_row(d, usage).query_count > 0 ==> inventory_row(d, usage).orphaned == "false"@,
        inventory_row(d, usage).dashboard_count > 0 ==> inventory_row(d, usage).orphaned == "false"@,
        usage is None ==> inventory_row(d, usage).orphaned == "true"@,
        unlisted_row(s).orphaned == "false"@,
{
}

/// A dry-run record planned as `would-skip-missing` adds one to the count
/// of skipped missing dashboards; a record planned as any other action
/// leaves it as it is.
pub proof fn law_skip_missing_counts_skip_records(
    records: Seq<Seq<Seq<char>>>,
    file: Seq<char>,
    uid: Seq<char>,
    folder_path: Seq<char>,
)
    ensures
        skip_missing_count(records.push(dry_run_record(file, uid, "would-skip-missing"@, folder_path)))
            == skip_missing_count(records) + 1,
        skip_missing_count(records.push(dry_run_record(file, uid, "would-create"@, folder_path)))
            == skip_missing_count(records),
        skip_missing_count(records.push(dry_run_record(file, uid, "would-update"@, folder_path)))
            == skip_missing_count(records),
        skip_missing_count(records.push(dry_run_record(file, uid, "would-fail-existing"@, folder_path)))
            == skip_missing_count(records),
        skip_missing_count(records.push(dry_run_record(file, uid, "would-skip-folder-mismatch"@, folder_path)))
            == skip_missing_count(records),
{
    let p = |r: Seq<Seq<char>>| r.len() > 2 && r[2] == "skip-missing"@;
    reveal_strlit("skip-missing");
    reveal_strlit("would-skip-missing");
    reveal_strlit("would-create");
    reveal_strlit("would-update");
    reveal_strlit("would-fail-existing");
    reveal_strlit("would-skip-folder-mismatch");
    reveal_strlit("create");
    reveal_strlit("update");
    reveal_strlit("blocked-existing");
    reveal_strlit("skip-folder-mismatch");
    reveal_strlit("missing");
    reveal_strlit("exists");
    assert("would-skip-missing"@ != "would-create"@) by {
        assert("would-skip-missing"@[6] != "would-create"@[6]);
    }
    assert("would-skip-missing"@ != "would-update"@) by {
        assert("would-skip-missing"@[6] != "would-update"@[6]);
    }
    assert("would-fail-existing"@ != "would-create"@) by {
        assert("would-fail-existing"@.len() != "would-create"@.len());
    }
    assert("would-fail-existing"@ != "would-update"@) by {
        assert("would-fail-existing"@.len() != "would-update"@.len());
    }
    assert("would-fail-existing"@ != "would-skip-missing"@) by {
        assert("would-fail-existing"@[6] != "would-skip-missing"@[6]);
    }
    assert("would-update"@ != "would-create"@) by {
        assert("would-update"@[6] != "would-create"@[6]);
    }
    assert("would-skip-folder-mismatch"@ != "would-fail-existing"@) by {
        assert("would-skip-folder-mismatch"@.len() != "would-fail-existing"@.len());
    }
    assert("would-skip-folder-mismatch"@ != "would-skip-missing"@) by {
        assert("would-skip-folder-mismatch"@.len() != "would-skip-missing"@.len());
    }
    assert("would-skip-folder-mismatch"@ != "would-create"@) by {
        assert("would-skip-folder-mismatch"@.len() != "would-create"@.len());
    }
    assert("would-skip-folder-mismatch"@ != "would-update"@) by {
        assert("would-skip-folder-mismatch"@.len() != "would-update"@.len());
    }
    let actions = seq![
        "would-skip-missing"@,
        "would-create"@,
        "would-update"@,
        "would-fail-existing"@,
        "would-skip-folder-mismatch"@,
    ];
    assert forall|i: int| 0 <= i < actions.len() implies records.push(
        dry_run_record(file, uid, #[trigger] actions[i], folder_path),
    ).filter(p) == if i == 0 {
        records.filter(p).push(dry_run_record(file, uid, actions[i], folder_path))
    } else {
        records.filter(p)
    } by {
        records.lemma_filter_push(dry_run_record(file, uid, actions[i], folder_path), p);
        if i == 1 {
            assert("create"@ != "skip-missing"@) by {
                assert("create"@.len() != "skip-missing"@.len());
            }
        } else if i == 2 {
            assert("update"@ != "skip-missing"@) by {
                assert("update"@.len() != "skip-missing"@.len());
            }
        } else if i == 3 {
            assert("blocked-existing"@ != "skip-missing"@) by {
                assert("blocked-existing"@.len() != "skip-missing"@.len());
            }
        } else if i == 4 {
            assert("skip-folder-mismatch"@ != "skip-missing"@) by {
                assert("skip-folder-mismatch"@.len() != "skip-missing"@.len());
            }
        }
    }
    assert(actions[0] == "would-skip-missing"@);
    assert(actions[1] == "would-create"@);
    assert(actions[2] == "would-update"@);
    assert(actions[3] == "would-fail-existing"@);
    assert(actions[4] == "would-skip-folder-mismatch"@);
}


/// In the datasources section of the governance report every cell stands
/// under the header that names it: the UID, name and family under `UID`,
/// `DATASOURCE` and `FAMILY`, the query, dashboard and panel counts under
/// `QUERIES`, `DASHBOARDS` and `PANELS`, the dashboard UIDs and query
/// fields under their headers, and the orphaned flag under `ORPHANED`.
pub proof fn law_datasource_cells_under_their_headers(r: DatasourceCoverageRow)
    ensures
        coverage_cells(r).len() == coverage_headers().len(),
        forall|k: int|
            0 <= k < coverage_headers().len() ==> {
                &&& (coverage_headers()[k] == "UID"@ ==> coverage_cells(r)[k] == r.datasource_uid@)
                &&& (coverage_headers()[k] == "DATASOURCE"@ ==> coverage_cells(r)[k] == r.datasource@)
                &&& (coverage_headers()[k] == "FAMILY"@ ==> coverage_cells(r)[k] == r.family@)
                &&& (coverage_headers()[k] == "QUERIES"@ ==> coverage_cells(r)[k] == decimal(r.query_count as nat))
                &&& (coverage_headers()[k] == "DASHBOARDS"@ ==> coverage_cells(r)[k] == decimal(r.dashboard_count as nat))
                &&& (coverage_headers()[k] == "PANELS"@ ==> coverage_cells(r)[k] == decimal(r.panel_count as nat))
                &&& (coverage_headers()[k] == "DASHBOARD_UIDS"@ ==> coverage_cells(r)[k] == commas_or_none(r.dashboard_uids@))
                &&& (coverage_headers()[k] == "QUERY_FIELDS"@ ==> coverage_cells(r)[k] == commas_or_none(r.query_fields@))
                &&& (coverage_headers()[k] == "ORPHANED"@ ==> coverage_cells(r)[k] == (if r.orphaned { "true"@ } else { "false"@ }))
            },
{
    reveal_strlit("UID");
    reveal_strlit("DATASOURCE");
    reveal_strlit("FAMILY");
    reveal_strlit("QUERIES");
    reveal_strlit("DASHBOARDS");
    reveal_strlit("PANELS");
    reveal_strlit("DASHBOARD_UIDS");
    reveal_strlit("QUERY_FIELDS");
    reveal_strlit("ORPHANED");
    assert("UID"@.len() == 3 && "DATASOURCE"@.len() == 10 && "FAMILY"@.len() == 6 && "QUERIES"@.len() == 7 && "DASHBOARDS"@.len() == 10 && "PANELS"@.len() == 6 && "DASHBOARD_UIDS"@.len() == 14 && "QUERY_FIELDS"@.len() == 12 && "ORPHANED"@.len() == 8);
    let h = coverage_headers();
    assert(h[0] == "UID"@ && h[1] == "DATASOURCE"@ && h[2] == "FAMILY"@ && h[3] == "QUERIES"@);
    assert(h[4] == "DASHBOARDS"@ && h[5] == "PANELS"@ && h[6] == "DASHBOARD_UIDS"@);
    assert(h[7] == "QUERY_FIELDS"@ && h[8] == "ORPHANED"@);
    assert(h[2] != "PANELS"@) by {
        assert(h[2][0] != "PANELS"@[0]);
    }
    assert(h[5] != "FAMILY"@) by {
        assert(h[5][0] != "FAMILY"@[0]);
    }
    assert(h[1] != "DASHBOARDS"@) by {
        assert(h[1][2] != "DASHBOARDS"@[2]);
    }
    assert(h[4] != "DATASOURCE"@) by {
        assert(h[4][2] != "DATASOURCE"@[2]);
    }
    assert forall|k: int| 0 <= k < h.len() implies {
        &&& (h[k] == "UID"@ ==> coverage_cells(r)[k] == r.datasource_uid@)
        &&& (h[k] == "DATASOURCE"@ ==> coverage_cells(r)[k] == r.datasource@)
        &&& (h[k] == "FAMILY"@ ==> coverage_cells(r)[k] == r.family@)
        &&& (h[k] == "QUERIES"@ ==> coverage_cells(r)[k] == decimal(r.query_count as nat))
        &&& (h[k] == "DASHBOARDS"@ ==> coverage_cells(r)[k] == decimal(r.dashboard_count as nat))
        &&& (h[k] == "PANELS"@ ==> coverage_cells(r)[k] == decimal(r.panel_count as nat))
        &&& (h[k] == "DASHBOARD_UIDS"@ ==> coverage_cells(r)[k] == commas_or_none(r.dashboard_uids@))
        &&& (h[k] == "QUERY_FIELDS"@ ==> coverage_cells(r)[k] == commas_or_none(r.query_fields@))
        &&& (h[k] == "ORPHANED"@ ==> coverage_cells(r)[k] == (if r.orphaned { "true"@ } else { "false"@ }))
    } by {
        if k == 0 {
        } else if k == 1 {
        } else if k == 2 {
        } else if k == 3 {
        } else if k == 4 {
        } else if k == 5 {
        } else if k == 6 {
        } else if k == 7 {
        } else {
        }
    }
}

/// Each column of the query report shows the row field it is named after:
/// the texts as they are, the name lists joined with commas, and the query
/// text under `query`.
pub proof fn law_report_columns_show_their_fields(r: QueryRowView)
    ensures
        report_cell(r, "dashboard_uid"@) == r.dashboard_uid,
        report_cell(r, "dashboard_title"@) == r.dashboard_title,
        report_cell(r, "folder_path"@) == r.folder_path,
        report_cell(r, "panel_id"@) == r.panel_id,
        report_cell(r, "panel_title"@) == r.panel_title,
        report_cell(r, "panel_type"@) == r.panel_type,
        report_cell(r, "ref_id"@) == r.ref_id,
        report_cell(r, "datasource"@) == r.datasource,
        report_cell(r, "datasource_uid"@) == r.datasource_uid,
        report_cell(r, "query_field"@) == r.query_field,
        report_cell(r, "metrics"@) == join(r.metrics, ","@),
        report_cell(r, "measurements"@) == join(r.measurements, ","@),
        report_cell(r, "buckets"@) == join(r.buckets, ","@),
        report_cell(r, "query"@) == r.query_text,
{
    reveal_strlit("dashboard_uid");
    reveal_strlit("dashboard_title");
    reveal_strlit("folder_path");
    reveal_strlit("panel_id");
    reveal_strlit("panel_title");
    reveal_strlit("panel_type");
    reveal_strlit("ref_id");
    reveal_strlit("datasource");
    reveal_strlit("datasource_uid");
    reveal_strlit("query_field");
    reveal_strlit("metrics");
    reveal_strlit("measurements");
    reveal_strlit("buckets");
    reveal_strlit("query");
    let names = seq![
        "dashboard_uid"@,
        "dashboard_title"@,
        "folder_path"@,
        "panel_id"@,
        "panel_title"@,
        "panel_type"@,
        "ref_id"@,
        "datasource"@,
        "datasource_uid"@,
        "query_field"@,
        "metrics"@,
        "measurements"@,
        "buckets"@,
        "query"@,
    ];
    assert forall|i: int, j: int| 0 <= i < j < names.len() implies #[trigger] names[i] != #[trigger] names[j] by {
        if names[i].len() == names[j].len() {
            assert(names[i][0] != names[j][0] || names[i][1] != names[j][1] || names[i][6] != names[j][6]);
        }
    }
    assert(names[0] != names[1]);
}


/// Elasticsearch and OpenSearch datasources belong to the `search` family,
/// whatever the case and surrounding whitespace of their type, and whether
/// the type is written plainly, as `…-datasource`, or as
/// `grafana-…-datasource`.
pub proof fn law_search_types_form_the_search_family(datasource_type: Seq<char>)
    requires
        ({
            let l = ascii_lower(trim(datasource_type));
            ||| l == "elasticsearch"@
            ||| l == "opensearch"@
            ||| l == "elasticsearch-datasource"@
            ||| l == "opensearch-datasource"@
            ||| l == "grafana-elasticsearch-datasource"@
            ||| l == "grafana-opensearch-datasource"@
        }),
    ensures
        family_of(datasource_type) == "search"@,
{
    reveal_strlit("elasticsearch");
    reveal_strlit("opensearch");
    reveal_strlit("elasticsearch-datasource");
    reveal_strlit("opensearch-datasource");
    reveal_strlit("grafana-elasticsearch-datasource");
    reveal_strlit("grafana-opensearch-datasource");
    reveal_strlit("grafana-");
    reveal_strlit("-datasource");
    reveal_strlit("influxdb");
    reveal_strlit("flux");
    reveal_strlit("mysql");
    reveal_strlit("postgres");
    reveal_strlit("mssql");
    reveal_strlit("postgresql");
    reveal_strlit("search");
    let l = ascii_lower(trim(datasource_type));
    let n = crate::governance::family_stem(datasource_type);
    if l == "elasticsearch"@ {
        assert(!starts_with_grafana(l)) by {
            assert(l.take(8)[0] != "grafana-"@[0]);
        }
        assert(l.skip(l.len() - 11) != "-datasource"@) by {
            assert(l.skip(l.len() - 11)[0] != "-datasource"@[0]);
        }
        assert(n == "elasticsearch"@);
    } else if l == "opensearch"@ {
        assert(!starts_with_grafana(l)) by {
            assert(l.take(8)[0] != "grafana-"@[0]);
        }
        assert(n == "opensearch"@);
    } else if l == "elasticsearch-datasource"@ {
        assert(!starts_with_grafana(l)) by {
            assert(l.take(8)[0] != "grafana-"@[0]);
        }
        assert(l.skip(l.len() - 11) =~= "-datasource"@);
        assert(l.take(l.len() - 11) =~= "elasticsearch"@);
        assert(n == "elasticsearch"@);
    } else if l == "opensearch-datasource"@ {
        assert(!starts_with_grafana(l)) by {
            assert(l.take(8)[0] != "grafana-"@[0]);
        }
        assert(l.skip(l.len() - 11) =~= "-datasource"@);
        assert(l.take(l.len() - 11) =~= "opensearch"@);
        assert(n == "opensearch"@);
    } else if l == "grafana-elasticsearch-datasource"@ {
        assert(l.take(8) =~= "grafana-"@);
        let rest = l.skip(8);
        assert(rest =~= "elasticsearch-datasource"@);
        assert(rest.skip(rest.len() - 11) =~= "-datasource"@);
        assert(rest.take(rest.len() - 11) =~= "elasticsearch"@);
        assert(n == "elasticsearch"@);
    } else {
        assert(l.take(8) =~= "grafana-"@);
        let rest = l.skip(8);
        assert(rest =~= "opensearch-datasource"@);
        assert(rest.skip(rest.len() - 11) =~= "-datasource"@);
        assert(rest.take(rest.len() - 11) =~= "opensearch"@);
        assert(n == "opensearch"@);
    }
    assert(n.len() > 0);
    assert(n != "influxdb"@ && n != "flux"@) by {
        assert(n.len() != "influxdb"@.len() || n[0] != 'i');
    }
    assert(n != "mysql"@ && n != "postgres"@ && n != "mssql"@ && n != "postgresql"@) by {
        assert(n[0] != 'm' && n[0] != 'p');
    }
}

/// Whether a type begins with `grafana-`.
spec fn starts_with_grafana(l: Seq<char>) -> bool {
    crate::text::starts_with(l, "grafana-"@)
}


/// In the summary table of the governance report every cell stands under the header
/// that names it.
pub proof fn law_summary_cells_under_their_headers(s: GovernanceSummary)
    ensures
        summary_cells(s).len() == summary_headers().len(),
        forall|k: int|
            0 <= k < summary_headers().len() ==> {
                &&& (summary_headers()[k] == "DASHBOARDS"@ ==> summary_cells(s)[k] == decimal(s.dashboard_count as nat))
                &&& (summary_headers()[k] == "QUERIES"@ ==> summary_cells(s)[k] == decimal(s.query_record_count as nat))
                &&& (summary_headers()[k] == "FAMILIES"@ ==> summary_cells(s)[k] == decimal(s.datasource_family_count as nat))
                &&& (summary_headers()[k] == "DATASOURCES"@ ==> summary_cells(s)[k] == decimal(s.datasource_coverage_count as nat))
                &&& (summary_headers()[k] == "DASHBOARD_DATASOURCE_EDGES"@ ==> summary_cells(s)[k] == decimal(s.dashboard_datasource_edge_count as nat))
                &&& (summary_headers()[k] == "DATASOURCES_WITH_RISKS"@ ==> summary_cells(s)[k] == decimal(s.datasource_risk_coverage_count as nat))
                &&& (summary_headers()[k] == "MIXED_DASHBOARDS"@ ==> summary_cells(s)[k] == decimal(s.mixed_datasource_dashboard_count as nat))
                &&& (summary_headers()[k] == "ORPHANED_DATASOURCES"@ ==> summary_cells(s)[k] == decimal(s.orphaned_datasource_count as nat))
                &&& (summary_headers()[k] == "RISKS"@ ==> summary_cells(s)[k] == decimal(s.risk_record_count as nat))
            },
{
    reveal_strlit("DASHBOARDS");
    reveal_strlit("QUERIES");
    reveal_strlit("FAMILIES");
    reveal_strlit("DATASOURCES");
    reveal_strlit("DASHBOARD_DATASOURCE_EDGES");
    reveal_strlit("DATASOURCES_WITH_RISKS");
    reveal_strlit("MIXED_DASHBOARDS");
    reveal_strlit("ORPHANED_DATASOURCES");
    reveal_strlit("RISKS");
    assert("DASHBOARDS"@.len() == 10 && "QUERIES"@.len() == 7 && "FAMILIES"@.len() == 8 && "DATASOURCES"@.len() == 11 && "DASHBOARD_DATASOURCE_EDGES"@.len() == 26 && "DATASOURCES_WITH_RISKS"@.len() == 22 && "MIXED_DASHBOARDS"@.len() == 16 && "ORPHANED_DATASOURCES"@.len() == 20 && "RISKS"@.len() == 5);
    let h = summary_headers();
    assert(h =~= seq!["DASHBOARDS"@, "QUERIES"@, "FAMILIES"@, "DATASOURCES"@, "DASHBOARD_DATASOURCE_EDGES"@, "DATASOURCES_WITH_RISKS"@, "MIXED_DASHBOARDS"@, "ORPHANED_DATASOURCES"@, "RISKS"@]);
    assert forall|k: int| 0 <= k < h.len() implies {
        &&& (h[k] == "DASHBOARDS"@ ==> summary_cells(s)[k] == decimal(s.dashboard_count as nat))
        &&& (h[k] == "QUERIES"@ ==> summary_cells(s)[k] == decimal(s.query_record_count as nat))
        &&& (h[k] == "FAMILIES"@ ==> summary_cells(s)[k] == decimal(s.datasource_family_count as nat))
        &&& (h[k] == "DATASOURCES"@ ==> summary_cells(s)[k] == decimal(s.datasource_coverage_count as nat))
        &&& (h[k] == "DASHBOARD_DATASOURCE_EDGES"@ ==> summary_cells(s)[k] == decimal(s.dashboard_datasource_edge_count as nat))
        &&& (h[k] == "DATASOURCES_WITH_RISKS"@ ==> summary_cells(s)[k] == decimal(s.datasource_risk_coverage_count as nat))
        &&& (h[k] == "MIXED_DASHBOARDS"@ ==> summary_cells(s)[k] == decimal(s.mixed_datasource_dashboard_count as nat))
        &&& (h[k] == "ORPHANED_DATASOURCES"@ ==> summary_cells(s)[k] == decimal(s.orphaned_datasource_count as nat))
        &&& (h[k] == "RISKS"@ ==> summary_cells(s)[k] == decimal(s.risk_record_count as nat))
    } by {
        if k == 0 {
        } else if k == 1 {
        } else if k == 2 {
        } else if k == 3 {
        } else if k == 4 {
        } else if k == 5 {
        } else if k == 6 {
        } else if k == 7 {
        } else {
        }
    }
}

/// In the datasource-family section of the governance report every cell stands under the header
/// that names it.
pub proof fn law_family_cells_under_their_headers(r: DatasourceFamilyCoverageRow)
    ensures
        family_cells(r).len() == family_headers().len(),
        forall|k: int|
            0 <= k < family_headers().len() ==> {
                &&& (family_headers()[k] == "FAMILY"@ ==> family_cells(r)[k] == r.family@)
                &&& (family_headers()[k] == "TYPES"@ ==> family_cells(r)[k] == commas(r.datasource_types@))
                &&& (family_headers()[k] == "DATASOURCES"@ ==> family_cells(r)[k] == decimal(r.datasource_count as nat))
                &&& (family_headers()[k] == "ORPHANED_DATASOURCES"@ ==> family_cells(r)[k] == decimal(r.orphaned_datasource_count as nat))
                &&& (family_headers()[k] == "DASHBOARDS"@ ==> family_cells(r)[k] == decimal(r.dashboard_count as nat))
                &&& (family_headers()[k] == "PANELS"@ ==> family_cells(r)[k] == decimal(r.panel_count as nat))
                &&& (family_headers()[k] == "QUERIES"@ ==> family_cells(r)[k] == decimal(r.query_count as nat))
            },
{
    reveal_strlit("FAMILY");
    reveal_strlit("TYPES");
    reveal_strlit("DATASOURCES");
    reveal_strlit("ORPHANED_DATASOURCES");
    reveal_strlit("DASHBOARDS");
    reveal_strlit("PANELS");
    reveal_strlit("QUERIES");
    assert("FAMILY"@.len() == 6 && "TYPES"@.len() == 5 && "DATASOURCES"@.len() == 11 && "ORPHANED_DATASOURCES"@.len() == 20 && "DASHBOARDS"@.len() == 10 && "PANELS"@.len() == 6 && "QUERIES"@.len() == 7);
    let h = family_headers();
    assert(h =~= seq!["FAMILY"@, "TYPES"@, "DATASOURCES"@, "ORPHANED_DATASOURCES"@, "DASHBOARDS"@, "PANELS"@, "QUERIES"@]);
    assert("FAMILY"@ != "PANELS"@) by {
        assert("FAMILY"@[0] != "PANELS"@[0]);
    }
    assert forall|k: int| 0 <= k < h.len() implies {
        &&& (h[k] == "FAMILY"@ ==> family_cells(r)[k] == r.family@)
        &&& (h[k] == "TYPES"@ ==> family_cells(r)[k] == commas(r.datasource_types@))
        &&& (h[k] == "DATASOURCES"@ ==> family_cells(r)[k] == decimal(r.datasource_count as nat))
        &&& (h[k] == "ORPHANED_DATASOURCES"@ ==> family_cells(r)[k] == decimal(r.orphaned_datasource_count as nat))
        &&& (h[k] == "DASHBOARDS"@ ==> family_cells(r)[k] == decimal(r.dashboard_count as nat))
        &&& (h[k] == "PANELS"@ ==> family_cells(r)[k] == decimal(r.panel_count as nat))
        &&& (h[k] == "QUERIES"@ ==> family_cells(r)[k] == decimal(r.query_count as nat))
    } by {
        if k == 0 {
        } else if k == 1 {
        } else if k == 2 {
        } else if k == 3 {
        } else if k == 4 {
        } else if k == 5 {
        } else {
        }
    }
}

/// In the dashboard-dependency section of the governance report every cell stands under the header
/// that names it.
pub proof fn law_dependency_cells_under_their_headers(r: DashboardDependencyRow)
    ensures
        dependency_cells(r).len() == dependency_headers().len(),
        forall|k: int|
            0 <= k < dependency_headers().len() ==> {
                &&& (dependency_headers()[k] == "DASHBOARD_UID"@ ==> dependency_cells(r)[k] == r.dashboard_uid@)
                &&& (dependency_headers()[k] == "TITLE"@ ==> dependency_cells(r)[k] == r.dashboard_title@)
                &&& (dependency_headers()[k] == "FOLDER_PATH"@ ==> dependency_cells(r)[k] == r.folder_path@)
                &&& (dependency_headers()[k] == "PANELS"@ ==> dependency_cells(r)[k] == decimal(r.panel_count as nat))
                &&& (dependency_headers()[k] == "QUERIES"@ ==> dependency_cells(r)[k] == decimal(r.query_count as nat))
                &&& (dependency_headers()[k] == "DATASOURCE_COUNT"@ ==> dependency_cells(r)[k] == decimal(r.datasource_count as nat))
                &&& (dependency_headers()[k] == "DATASOURCE_FAMILY_COUNT"@ ==> dependency_cells(r)[k] == decimal(r.datasource_family_count as nat))
                &&& (dependency_headers()[k] == "DATASOURCES"@ ==> dependency_cells(r)[k] == commas(r.datasources@))
                &&& (dependency_headers()[k] == "FAMILIES"@ ==> dependency_cells(r)[k] == commas(r.datasource_families@))
                &&& (dependency_headers()[k] == "QUERY_FIELDS"@ ==> dependency_cells(r)[k] == commas(r.query_fields@))
                &&& (dependency_headers()[k] == "METRICS"@ ==> dependency_cells(r)[k] == commas(r.metrics@))
                &&& (dependency_headers()[k] == "FUNCTIONS"@ ==> dependency_cells(r)[k] == commas(r.functions@))
                &&& (dependency_headers()[k] == "MEASUREMENTS"@ ==> dependency_cells(r)[k] == commas(r.measurements@))
                &&& (dependency_headers()[k] == "BUCKETS"@ ==> dependency_cells(r)[k] == commas(r.buckets@))
                &&& (dependency_headers()[k] == "FILE"@ ==> dependency_cells(r)[k] == r.file_path@)
            },
{
    reveal_strlit("DASHBOARD_UID");
    reveal_strlit("TITLE");
    reveal_strlit("FOLDER_PATH");
    reveal_strlit("PANELS");
    reveal_strlit("QUERIES");
    reveal_strlit("DATASOURCE_COUNT");
    reveal_strlit("DATASOURCE_FAMILY_COUNT");
    reveal_strlit("DATASOURCES");
    reveal_strlit("FAMILIES");
    reveal_strlit("QUERY_FIELDS");
    reveal_strlit("METRICS");
    reveal_strlit("FUNCTIONS");
    reveal_strlit("MEASUREMENTS");
    reveal_strlit("BUCKETS");
    reveal_strlit("FILE");
    assert("DASHBOARD_UID"@.len() == 13 && "TITLE"@.len() == 5 && "FOLDER_PATH"@.len() == 11 && "PANELS"@.len() == 6 && "QUERIES"@.len() == 7 && "DATASOURCE_COUNT"@.len() == 16 && "DATASOURCE_FAMILY_COUNT"@.len() == 23 && "DATASOURCES"@.len() == 11 && "FAMILIES"@.len() == 8 && "QUERY_FIELDS"@.len() == 12 && "METRICS"@.len() == 7 && "FUNCTIONS"@.len() == 9 && "MEASUREMENTS"@.len() == 12 && "BUCKETS"@.len() == 7 && "FILE"@.len() == 4);
    let h = dependency_headers();
    assert(h =~= seq!["DASHBOARD_UID"@, "TITLE"@, "FOLDER_PATH"@, "PANELS"@, "QUERIES"@, "DATASOURCE_COUNT"@, "DATASOURCE_FAMILY_COUNT"@, "DATASOURCES"@, "FAMILIES"@, "QUERY_FIELDS"@, "METRICS"@, "FUNCTIONS"@, "MEASUREMENTS"@, "BUCKETS"@, "FILE"@]);
    assert("FOLDER_PATH"@ != "DATASOURCES"@) by {
        assert("FOLDER_PATH"@[0] != "DATASOURCES"@[0]);
    }
    assert("QUERIES"@ != "METRICS"@) by {
        assert("QUERIES"@[0] != "METRICS"@[0]);
    }
    assert("QUERIES"@ != "BUCKETS"@) by {
        assert("QUERIES"@[0] != "BUCKETS"@[0]);
    }
    assert("QUERY_FIELDS"@ != "MEASUREMENTS"@) by {
        assert("QUERY_FIELDS"@[0] != "MEASUREMENTS"@[0]);
    }
    assert("METRICS"@ != "BUCKETS"@) by {
        assert("METRICS"@[0] != "BUCKETS"@[0]);
    }
    assert forall|k: int| 0 <= k < h.len() implies {
        &&& (h[k] == "DASHBOARD_UID"@ ==> dependency_cells(r)[k] == r.dashboard_uid@)
        &&& (h[k] == "TITLE"@ ==> dependency_cells(r)[k] == r.dashboard_title@)
        &&& (h[k] == "FOLDER_PATH"@ ==> dependency_cells(r)[k] == r.folder_path@)
        &&& (h[k] == "PANELS"@ ==> dependency_cells(r)[k] == decimal(r.panel_count as nat))
        &&& (h[k] == "QUERIES"@ ==> dependency_cells(r)[k] == decimal(r.query_count as nat))
        &&& (h[k] == "DATASOURCE_COUNT"@ ==> dependency_cells(r)[k] == decimal(r.datasource_count as nat))
        &&& (h[k] == "DATASOURCE_FAMILY_COUNT"@ ==> dependency_cells(r)[k] == decimal(r.datasource_family_count as nat))
        &&& (h[k] == "DATASOURCES"@ ==> dependency_cells(r)[k] == commas(r.datasources@))
        &&& (h[k] == "FAMILIES"@ ==> dependency_cells(r)[k] == commas(r.datasource_families@))
        &&& (h[k] == "QUERY_FIELDS"@ ==> dependency_cells(r)[k] == commas(r.query_fields@))
        &&& (h[k] == "METRICS"@ ==> dependency_cells(r)[k] == commas(r.metrics@))
        &&& (h[k] == "FUNCTIONS"@ ==> dependency_cells(r)[k] == commas(r.functions@))
        &&& (h[k] == "MEASUREMENTS"@ ==> dependency_cells(r)[k] == commas(r.measurements@))
        &&& (h[k] == "BUCKETS"@ ==> dependency_cells(r)[k] == commas(r.buckets@))
        &&& (h[k] == "FILE"@ ==> dependency_cells(r)[k] == r.file_path@)
    } by {
        if k == 0 {
        } else if k == 1 {
        } else if k == 2 {
        } else if k == 3 {
        } else if k == 4 {
        } else if k == 5 {
        } else if k == 6 {
        } else if k == 7 {
        } else if k == 8 {
        } else if k == 9 {
        } else if k == 10 {
        } else if k == 11 {
        } else if k == 12 {
        } else if k == 13 {
        } else {
        }
    }
}

/// In the dashboard-datasource edge section of the governance report every cell stands under the header
/// that names it.
pub proof fn law_edge_cells_under_their_headers(r: DashboardDatasourceEdgeRow)
    ensures
        edge_cells(r).len() == edge_headers().len(),
        forall|k: int|
            0 <= k < edge_headers().len() ==> {
                &&& (edge_headers()[k] == "DASHBOARD_UID"@ ==> edge_cells(r)[k] == r.dashboard_uid@)
                &&& (edge_headers()[k] == "TITLE"@ ==> edge_cells(r)[k] == r.dashboard_title@)
                &&& (edge_headers()[k] == "FOLDER_PATH"@ ==> edge_cells(r)[k] == r.folder_path@)
                &&& (edge_headers()[k] == "DATASOURCE_UID"@ ==> edge_cells(r)[k] == r.datasource_uid@)
                &&& (edge_headers()[k] == "DATASOURCE"@ ==> edge_cells(r)[k] == r.datasource@)
                &&& (edge_headers()[k] == "DATASOURCE_TYPE"@ ==> edge_cells(r)[k] == r.datasource_type@)
                &&& (edge_headers()[k] == "FAMILY"@ ==> edge_cells(r)[k] == r.family@)
                &&& (edge_headers()[k] == "PANELS"@ ==> edge_cells(r)[k] == decimal(r.panel_count as nat))
                &&& (edge_headers()[k] == "QUERIES"@ ==> edge_cells(r)[k] == decimal(r.query_count as nat))
                &&& (edge_headers()[k] == "QUERY_FIELDS"@ ==> edge_cells(r)[k] == commas(r.query_fields@))
                &&& (edge_headers()[k] == "METRICS"@ ==> edge_cells(r)[k] == commas(r.metrics@))
                &&& (edge_headers()[k] == "FUNCTIONS"@ ==> edge_cells(r)[k] == commas(r.functions@))
                &&& (edge_headers()[k] == "MEASUREMENTS"@ ==> edge_cells(r)[k] == commas(r.measurements@))
                &&& (edge_headers()[k] == "BUCKETS"@ ==> edge_cells(r)[k] == commas(r.buckets@))
            },
{
    reveal_strlit("DASHBOARD_UID");
    reveal_strlit("TITLE");
    reveal_strlit("FOLDER_PATH");
    reveal_strlit("DATASOURCE_UID");
    reveal_strlit("DATASOURCE");
    reveal_strlit("DATASOURCE_TYPE");
    reveal_strlit("FAMILY");
    reveal_strlit("PANELS");
    reveal_strlit("QUERIES");
    reveal_strlit("QUERY_FIELDS");
    reveal_strlit("METRICS");
    reveal_strlit("FUNCTIONS");
    reveal_strlit("MEASUREMENTS");
    reveal_strlit("BUCKETS");
    assert("DASHBOARD_UID"@.len() == 13 && "TITLE"@.len() == 5 && "FOLDER_PATH"@.len() == 11 && "DATASOURCE_UID"@.len() == 14 && "DATASOURCE"@.len() == 10 && "DATASOURCE_TYPE"@.len() == 15 && "FAMILY"@.len() == 6 && "PANELS"@.len() == 6 && "QUERIES"@.len() == 7 && "QUERY_FIELDS"@.len() == 12 && "METRICS"@.len() == 7 && "FUNCTIONS"@.len() == 9 && "MEASUREMENTS"@.len() == 12 && "BUCKETS"@.len() == 7);
    let h = edge_headers();
    assert(h =~= seq!["DASHBOARD_UID"@, "TITLE"@, "FOLDER_PATH"@, "DATASOURCE_UID"@, "DATASOURCE"@, "DATASOURCE_TYPE"@, "FAMILY"@, "PANELS"@, "QUERIES"@, "QUERY_FIELDS"@, "METRICS"@, "FUNCTIONS"@, "MEASUREMENTS"@, "BUCKETS"@]);
    assert("FAMILY"@ != "PANELS"@) by {
        assert("FAMILY"@[0] != "PANELS"@[0]);
    }
    assert("QUERIES"@ != "METRICS"@) by {
        assert("QUERIES"@[0] != "METRICS"@[0]);
    }
    assert("QUERIES"@ != "BUCKETS"@) by {
        assert("QUERIES"@[0] != "BUCKETS"@[0]);
    }
    assert("QUERY_FIELDS"@ != "MEASUREMENTS"@) by {
        assert("QUERY_FIELDS"@[0] != "MEASUREMENTS"@[0]);
    }
    assert("METRICS"@ != "BUCKETS"@) by {
        assert("METRICS"@[0] != "BUCKETS"@[0]);
    }
    assert forall|k: int| 0 <= k < h.len() implies {
        &&& (h[k] == "DASHBOARD_UID"@ ==> edge_cells(r)[k] == r.dashboard_uid@)
        &&& (h[k] == "TITLE"@ ==> edge_cells(r)[k] == r.dashboard_title@)
        &&& (h[k] == "FOLDER_PATH"@ ==> edge_cells(r)[k] == r.folder_path@)
        &&& (h[k] == "DATASOURCE_UID"@ ==> edge_cells(r)[k] == r.datasource_uid@)
        &&& (h[k] == "DATASOURCE"@ ==> edge_cells(r)[k] == r.datasource@)
        &&& (h[k] == "DATASOURCE_TYPE"@ ==> edge_cells(r)[k] == r.datasource_type@)
        &&& (h[k] == "FAMILY"@ ==> edge_cells(r)[k] == r.family@)
        &&& (h[k] == "PANELS"@ ==> edge_cells(r)[k] == decimal(r.panel_count as nat))
        &&& (h[k] == "QUERIES"@ ==> edge_cells(r)[k] == decimal(r.query_count as nat))
        &&& (h[k] == "QUERY_FIELDS"@ ==> edge_cells(r)[k] == commas(r.query_fields@))
        &&& (h[k] == "METRICS"@ ==> edge_cells(r)[k] == commas(r.metrics@))
        &&& (h[k] == "FUNCTIONS"@ ==> edge_cells(r)[k] == commas(r.functions@))
        &&& (h[k] == "MEASUREMENTS"@ ==> edge_cells(r)[k] == commas(r.measurements@))
        &&& (h[k] == "BUCKETS"@ ==> edge_cells(r)[k] == commas(r.buckets@))
    } by {
        if k == 0 {
        } else if k == 1 {
        } else if k == 2 {
        } else if k == 3 {
        } else if k == 4 {
        } else if k == 5 {
        } else if k == 6 {
        } else if k == 7 {
        } else if k == 8 {
        } else if k == 9 {
        } else if k == 10 {
        } else if k == 11 {
        } else if k == 12 {
        } else {
        }
    }
}

/// In the datasource-governance section of the governance report every cell stands under the header
/// that names it.
pub proof fn law_governance_cells_under_their_headers(r: DatasourceGovernanceRow)
    ensures
        governance_cells(r).len() == governance_headers().len(),
        forall|k: int|
            0 <= k < governance_headers().len() ==> {
                &&& (governance_headers()[k] == "UID"@ ==> governance_cells(r)[k] == r.datasource_uid@)
                &&& (governance_headers()[k] == "DATASOURCE"@ ==> governance_cells(r)[k] == r.datasource@)
                &&& (governance_headers()[k] == "FAMILY"@ ==> governance_cells(r)[k] == r.family@)
                &&& (governance_headers()[k] == "QUERIES"@ ==> governance_cells(r)[k] == decimal(r.query_count as nat))
                &&& (governance_headers()[k] == "DASHBOARDS"@ ==> governance_cells(r)[k] == decimal(r.dashboard_count as nat))
                &&& (governance_headers()[k] == "PANELS"@ ==> governance_cells(r)[k] == decimal(r.panel_count as nat))
                &&& (governance_headers()[k] == "MIXED_DASHBOARDS"@ ==> governance_cells(r)[k] == decimal(r.mixed_dashboard_count as nat))
                &&& (governance_headers()[k] == "RISKS"@ ==> governance_cells(r)[k] == decimal(r.risk_count as nat))
                &&& (governance_headers()[k] == "RISK_KINDS"@ ==> governance_cells(r)[k] == commas_or_none(r.risk_kinds@))
                &&& (governance_headers()[k] == "DASHBOARD_UIDS"@ ==> governance_cells(r)[k] == commas_or_none(r.dashboard_uids@))
                &&& (governance_headers()[k] == "ORPHANED"@ ==> governance_cells(r)[k] == (if r.orphaned { "true"@ } else { "false"@ }))
            },
{
    reveal_strlit("UID");
    reveal_strlit("DATASOURCE");
    reveal_strlit("FAMILY");
    reveal_strlit("QUERIES");
    reveal_strlit("DASHBOARDS");
    reveal_strlit("PANELS");
    reveal_strlit("MIXED_DASHBOARDS");
    reveal_strlit("RISKS");
    reveal_strlit("RISK_KINDS");
    reveal_strlit("DASHBOARD_UIDS");
    reveal_strlit("ORPHANED");
    assert("UID"@.len() == 3 && "DATASOURCE"@.len() == 10 && "FAMILY"@.len() == 6 && "QUERIES"@.len() == 7 && "DASHBOARDS"@.len() == 10 && "PANELS"@.len() == 6 && "MIXED_DASHBOARDS"@.len() == 16 && "RISKS"@.len() == 5 && "RISK_KINDS"@.len() == 10 && "DASHBOARD_UIDS"@.len() == 14 && "ORPHANED"@.len() == 8);
    let h = governance_headers();
    assert(h =~= seq!["UID"@, "DATASOURCE"@, "FAMILY"@, "QUERIES"@, "DASHBOARDS"@, "PANELS"@, "MIXED_DASHBOARDS"@, "RISKS"@, "RISK_KINDS"@, "DASHBOARD_UIDS"@, "ORPHANED"@]);
    assert("DATASOURCE"@ != "DASHBOARDS"@) by {
        assert("DATASOURCE"@[2] != "DASHBOARDS"@[2]);
    }
    assert("DATASOURCE"@ != "RISK_KINDS"@) by {
        assert("DATASOURCE"@[0] != "RISK_KINDS"@[0]);
    }
    assert("FAMILY"@ != "PANELS"@) by {
        assert("FAMILY"@[0] != "PANELS"@[0]);
    }
    assert("DASHBOARDS"@ != "RISK_KINDS"@) by {
        assert("DASHBOARDS"@[0] != "RISK_KINDS"@[0]);
    }
    assert forall|k: int| 0 <= k < h.len() implies {
        &&& (h[k] == "UID"@ ==> governance_cells(r)[k] == r.datasource_uid@)
        &&& (h[k] == "DATASOURCE"@ ==> governance_cells(r)[k] == r.datasource@)
        &&& (h[k] == "FAMILY"@ ==> governance_cells(r)[k] == r.family@)
        &&& (h[k] == "QUERIES"@ ==> governance_cells(r)[k] == decimal(r.query_count as nat))
        &&& (h[k] == "DASHBOARDS"@ ==> governance_cells(r)[k] == decimal(r.dashboard_count as nat))
        &&& (h[k] == "PANELS"@ ==> governance_cells(r)[k] == decimal(r.panel_count as nat))
        &&& (h[k] == "MIXED_DASHBOARDS"@ ==> governance_cells(r)[k] == decimal(r.mixed_dashboard_count as nat))
        &&& (h[k] == "RISKS"@ ==> governance_cells(r)[k] == decimal(r.risk_count as nat))
        &&& (h[k] == "RISK_KINDS"@ ==> governance_cells(r)[k] == commas_or_none(r.risk_kinds@))
        &&& (h[k] == "DASHBOARD_UIDS"@ ==> governance_cells(r)[k] == commas_or_none(r.dashboard_uids@))
        &&& (h[k] == "ORPHANED"@ ==> governance_cells(r)[k] == (if r.orphaned { "true"@ } else { "false"@ }))
    } by {
        if k == 0 {
        } else if k == 1 {
        } else if k == 2 {
        } else if k == 3 {
        } else if k == 4 {
        } else if k == 5 {
        } else if k == 6 {
        } else if k == 7 {
        } else if k == 8 {
        } else if k == 9 {
        } else {
        }
    }
}

/// In the risk section of the governance report every cell stands under the header
/// that names it.
pub proof fn law_risk_cells_under_their_headers(r: GovernanceRiskRow)
    ensures
        risk_cells(r).len() == risk_headers().len(),
        forall|k: int|
            0 <= k < risk_headers().len() ==> {
                &&& (risk_headers()[k] == "SEVERITY"@ ==> risk_cells(r)[k] == r.severity@)
                &&& (risk_headers()[k] == "CATEGORY"@ ==> risk_cells(r)[k] == r.category@)
                &&& (risk_headers()[k] == "KIND"@ ==> risk_cells(r)[k] == r.kind@)
                &&& (risk_headers()[k] == "DASHBOARD_UID"@ ==> risk_cells(r)[k] == r.dashboard_uid@)
                &&& (risk_headers()[k] == "PANEL_ID"@ ==> risk_cells(r)[k] == r.panel_id@)
                &&& (risk_headers()[k] == "DATASOURCE"@ ==> risk_cells(r)[k] == r.datasource@)
                &&& (risk_headers()[k] == "DETAIL"@ ==> risk_cells(r)[k] == r.detail@)
                &&& (risk_headers()[k] == "RECOMMENDATION"@ ==> risk_cells(r)[k] == r.recommendation@)
            },
{
    reveal_strlit("SEVERITY");
    reveal_strlit("CATEGORY");
    reveal_strlit("KIND");
    reveal_strlit("DASHBOARD_UID");
    reveal_strlit("PANEL_ID");
    reveal_strlit("DATASOURCE");
    reveal_strlit("DETAIL");
    reveal_strlit("RECOMMENDATION");
    assert("SEVERITY"@.len() == 8 && "CATEGORY"@.len() == 8 && "KIND"@.len() == 4 && "DASHBOARD_UID"@.len() == 13 && "PANEL_ID"@.len() == 8 && "DATASOURCE"@.len() == 10 && "DETAIL"@.len() == 6 && "RECOMMENDATION"@.len() == 14);
    let h = risk_headers();
    assert(h =~= seq!["SEVERITY"@, "CATEGORY"@, "KIND"@, "DASHBOARD_UID"@, "PANEL_ID"@, "DATASOURCE"@, "DETAIL"@, "RECOMMENDATION"@]);
    assert("SEVERITY"@ != "CATEGORY"@) by {
        assert("SEVERITY"@[0] != "CATEGORY"@[0]);
    }
    assert("SEVERITY"@ != "PANEL_ID"@) by {
        assert("SEVERITY"@[0] != "PANEL_ID"@[0]);
    }
    assert("CATEGORY"@ != "PANEL_ID"@) by {
        assert("CATEGORY"@[0] != "PANEL_ID"@[0]);
    }
    assert forall|k: int| 0 <= k < h.len() implies {
        &&& (h[k] == "SEVERITY"@ ==> risk_cells(r)[k] == r.severity@)
        &&& (h[k] == "CATEGORY"@ ==> risk_cells(r)[k] == r.category@)
        &&& (h[k] == "KIND"@ ==> risk_cells(r)[k] == r.kind@)
        &&& (h[k] == "DASHBOARD_UID"@ ==> risk_cells(r)[k] == r.dashboard_uid@)
        &&& (h[k] == "PANEL_ID"@ ==> risk_cells(r)[k] == r.panel_id@)
        &&& (h[k] == "DATASOURCE"@ ==> risk_cells(r)[k] == r.datasource@)
        &&& (h[k] == "DETAIL"@ ==> risk_cells(r)[k] == r.detail@)
        &&& (h[k] == "RECOMMENDATION"@ ==> risk_cells(r)[k] == r.recommendation@)
    } by {
        if k == 0 {
        } else if k == 1 {
        } else if k == 2 {
        } else if k == 3 {
        } else if k == 4 {
        } else if k == 5 {
        } else if k == 6 {
        } else {
        }
    }
}


/// A lower-cased type that neither starts with `g` nor ends with `e` has
/// no `grafana-` or `-datasource` wrapping to remove.
proof fn lemma_plain_stem(datasource_type: Seq<char>)
    requires
        ascii_lower(trim(datasource_type)).len() > 0,
        ascii_lower(trim(datasource_type))[0] != 'g',
        ascii_lower(trim(datasource_type)).last() != 'e',
    ensures
        crate::governance::family_stem(datasource_type) == ascii_lower(trim(datasource_type)),
{
    reveal_strlit("grafana-");
    reveal_strlit("-datasource");
    let l = ascii_lower(trim(datasource_type));
    if l.len() >= 8 {
        assert(l.take(8)[0] != "grafana-"@[0]);
    }
    if l.len() >= 11 {
        assert(l.skip(l.len() - 11)[10] != "-datasource"@[10]);
    }
}

/// The families of the other grouped datasource types, written plainly in
/// any case and with any surrounding whitespace: InfluxDB and Flux are
/// `flux`; MySQL, Postgres, PostgreSQL and MSSQL are `sql`; Tempo, Jaeger
/// and Zipkin are `tracing`; a blank type is `unknown`.
pub proof fn law_grouped_types_form_their_families(datasource_type: Seq<char>)
    ensures
        ({
            let l = ascii_lower(trim(datasource_type));
            &&& (l == "influxdb"@ || l == "flux"@) ==> family_of(datasource_type) == "flux"@
            &&& (l == "mysql"@ || l == "postgres"@ || l == "postgresql"@ || l == "mssql"@)
                ==> family_of(datasource_type) == "sql"@
            &&& (l == "tempo"@ || l == "jaeger"@ || l == "zipkin"@) ==> family_of(datasource_type) == "tracing"@
            &&& trim(datasource_type).len() == 0 ==> family_of(datasource_type) == "unknown"@
        }),
{
    reveal_strlit("influxdb");
    reveal_strlit("flux");
    reveal_strlit("mysql");
    reveal_strlit("postgres");
    reveal_strlit("postgresql");
    reveal_strlit("mssql");
    reveal_strlit("tempo");
    reveal_strlit("jaeger");
    reveal_strlit("zipkin");
    reveal_strlit("elasticsearch");
    reveal_strlit("opensearch");
    reveal_strlit("grafana-");
    reveal_strlit("-datasource");
    let l = ascii_lower(trim(datasource_type));
    let n = crate::governance::family_stem(datasource_type);
    if l == "influxdb"@ || l == "flux"@ || l == "mysql"@ || l == "postgres"@ || l == "postgresql"@ || l
        == "mssql"@ || l == "tempo"@ || l == "jaeger"@ || l == "zipkin"@ {
        lemma_plain_stem(datasource_type);
        assert(n == l);
        assert(n != "elasticsearch"@ && n != "opensearch"@) by {
            assert(n[0] != 'e' && n[0] != 'o');
        }
        if l == "mysql"@ || l == "postgres"@ || l == "postgresql"@ || l == "mssql"@ {
            assert(n != "influxdb"@ && n != "flux"@) by {
                assert(n[0] != 'i' && n[0] != 'f');
            }
        }
        if l == "tempo"@ || l == "jaeger"@ || l == "zipkin"@ {
            assert(n != "influxdb"@ && n != "flux"@ && n != "mysql"@ && n != "postgres"@ && n != "postgresql"@
                && n != "mssql"@) by {
                assert(n[0] != 'i' && n[0] != 'f' && n[0] != 'm' && n[0] != 'p');
            }
        }
    }
    if trim(datasource_type).len() == 0 {
        assert(l.len() == 0);
        assert(n.len() == 0);
    }
}

/// The family a query report shows for a datasource type: `unknown` for a
/// blank type, `postgres` and `mysql` for Grafana's wrapped PostgreSQL and
/// MySQL plugins, and otherwise the type itself, trimmed and lower-cased.
pub proof fn law_report_family_of_types(datasource_type: Seq<char>)
    ensures
        ({
            let l = ascii_lower(trim(datasource_type));
            &&& l.len() == 0 ==> datasource_family_of(datasource_type) == "unknown"@
            &&& l == "grafana-postgresql-datasource"@ ==> datasource_family_of(datasource_type) == "postgres"@
            &&& l == "grafana-mysql-datasource"@ ==> datasource_family_of(datasource_type) == "mysql"@
            &&& (l.len() > 0 && l != "grafana-postgresql-datasource"@ && l != "grafana-mysql-datasource"@)
                ==> datasource_family_of(datasource_type) == l
        }),
{
    reveal_strlit("grafana-postgresql-datasource");
    reveal_strlit("grafana-mysql-datasource");
    let l = ascii_lower(trim(datasource_type));
    if l == "grafana-mysql-datasource"@ {
        assert(l != "grafana-postgresql-datasource"@) by {
            assert(l.len() != "grafana-postgresql-datasource"@.len());
        }
    }
}


/// Every row of a datasource summary is counted once, as active or as
/// orphaned: an orphaned row adds to the orphaned count, any other row to
/// the active count.
pub proof fn law_summary_rows_are_active_or_orphaned(rows: Seq<SummaryRowView>, r: SummaryRowView)
    ensures
        active_count(rows) + orphaned_count(rows) == rows.len(),
        r.orphaned == "true"@ ==> orphaned_count(rows.push(r)) == orphaned_count(rows) + 1
            && active_count(rows.push(r)) == active_count(rows),
        r.orphaned != "true"@ ==> active_count(rows.push(r)) == active_count(rows) + 1
            && orphaned_count(rows.push(r)) == orphaned_count(rows),
    decreases rows.len(),
{
    rows.lemma_filter_push(r, |x: SummaryRowView| x.orphaned != "true"@);
    rows.lemma_filter_push(r, |x: SummaryRowView| x.orphaned == "true"@);
    if rows.len() > 0 {
        let init = rows.drop_last();
        law_summary_rows_are_active_or_orphaned(init, r);
        assert(rows == init.push(rows.last()));
        init.lemma_filter_push(rows.last(), |r: SummaryRowView| r.orphaned != "true"@);
        init.lemma_filter_push(rows.last(), |r: SummaryRowView| r.orphaned == "true"@);
    }
}

/// How the import report shows each planned action: the destination state
/// and the action label.
pub proof fn law_import_actions_are_shown(uid: Seq<char>, file: Seq<char>, folder_path: Seq<char>)
    ensures
        import_action_parts("would-create"@) == ("missing"@, "create"@),
        import_action_parts("would-update"@) == ("exists"@, "update"@),
        import_action_parts("would-skip-missing"@) == ("missing"@, "skip-missing"@),
        import_action_parts("would-fail-existing"@) == ("exists"@, "blocked-existing"@),
        import_action_parts("would-skip-folder-mismatch"@) == ("exists"@, "skip-folder-mismatch"@),
        dry_run_record(file, uid, "would-create"@, folder_path) == seq![uid, "missing"@, "create"@, folder_path, file],
{
    reveal_strlit("would-skip-missing");
    reveal_strlit("would-create");
    reveal_strlit("would-update");
    reveal_strlit("would-fail-existing");
    reveal_strlit("would-skip-folder-mismatch");
    assert("would-update"@ != "would-create"@) by {
        assert("would-update"@[6] != "would-create"@[6]);
    }
    assert("would-skip-missing"@.len() == 18 && "would-fail-existing"@.len() == 19);
    assert("would-skip-folder-mismatch"@.len() == 26 && "would-create"@.len() == 12);
}

} // verus!
