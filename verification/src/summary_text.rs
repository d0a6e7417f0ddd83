//! The text of an export inspection summary: its counts, then tables of
//! folder paths, datasource usage, the datasource inventory and the
//! dashboards that mix datasources.
use vstd::prelude::*;

use crate::render::{render_simple_table, table_lines, table_views};
use crate::strset::views;
use crate::summary::{
    DatasourceInventorySummary, ExportDatasourceUsage, ExportFolderUsage, ExportInspectionSummary,
    MixedDashboardSummary,
};
use crate::text::{decimal, join, join_strings, owned, usize_text};

verus! {

pub open spec fn folder_row(f: ExportFolderUsage) -> Seq<Seq<char>> {
    seq![f.path@, decimal(f.dashboards as nat)]
}

pub open spec fn usage_row(u: ExportDatasourceUsage) -> Seq<Seq<char>> {
    seq![u.datasource@, decimal(u.reference_count as nat), decimal(u.dashboard_count as nat)]
}

pub open spec fn inventory_row(d: DatasourceInventorySummary) -> Seq<Seq<char>> {
    seq![
        d.org_id@,
        d.uid@,
        d.name@,
        d.datasource_type@,
        d.access@,
        d.url@,
        d.is_default@,
        decimal(d.reference_count as nat),
        decimal(d.dashboard_count as nat),
    ]
}

pub open spec fn mixed_row(m: MixedDashboardSummary) -> Seq<Seq<char>> {
    seq![m.uid@, m.title@, m.folder_path@, join(views(m.datasources@), ","@)]
}

/// The counts of a summary as `METRIC`/`VALUE` rows.
pub open spec fn metric_rows(s: ExportInspectionSummary) -> Seq<Seq<Seq<char>>> {
    seq![
        seq!["dashboard_count"@, decimal(s.dashboard_count as nat)],
        seq!["folder_count"@, decimal(s.folder_count as nat)],
        seq!["panel_count"@, decimal(s.panel_count as nat)],
        seq!["query_count"@, decimal(s.query_count as nat)],
        seq!["datasource_inventory_count"@, decimal(s.datasource_inventory_count as nat)],
        seq!["mixed_datasource_dashboard_count"@, decimal(s.mixed_dashboard_count as nat)],
    ]
}

/// The counts of a summary as plain lines.
pub open spec fn count_lines(s: ExportInspectionSummary) -> Seq<Seq<char>> {
    seq![
        "Dashboards: "@ + decimal(s.dashboard_count as nat),
        "Folders: "@ + decimal(s.folder_count as nat),
        "Panels: "@ + decimal(s.panel_count as nat),
        "Queries: "@ + decimal(s.query_count as nat),
        "Datasource inventory: "@ + decimal(s.datasource_inventory_count as nat),
        "Mixed datasource dashboards: "@ + decimal(s.mixed_dashboard_count as nat),
    ]
}

/// A blank line, a section title and the section's table.
pub open spec fn section(title: Seq<char>, headers: Seq<Seq<char>>, rows: Seq<Seq<Seq<char>>>, h: bool) -> Seq<
    Seq<char>,
> {
    seq![Seq::empty(), title] + table_lines(headers, rows, h)
}

pub open spec fn inventory_headers() -> Seq<Seq<char>> {
    seq![
        "ORG_ID"@,
        "UID"@,
        "NAME"@,
        "TYPE"@,
        "ACCESS"@,
        "URL"@,
        "IS_DEFAULT"@,
        "REFS"@,
        "DASHBOARDS"@,
    ]
}

/// The text of an export inspection summary: the export directory; the
/// counts, as a table or as lines; the folder-path and datasource-usage
/// tables; and the inventory and mixed-dashboard tables where they have
/// rows. `h` asks for table headers.
pub open spec fn summary_text_lines(s: ExportInspectionSummary, table: bool, h: bool) -> Seq<Seq<char>> {
    let head = seq!["Export inspection: "@ + s.import_dir@];
    let counts = if table {
        section("# Summary"@, seq!["METRIC"@, "VALUE"@], metric_rows(s), h)
    } else {
        count_lines(s)
    };
    let folders = section(
        "# Folder paths"@,
        seq!["FOLDER_PATH"@, "DASHBOARDS"@],
        s.folder_paths@.map_values(|f: ExportFolderUsage| folder_row(f)),
        h,
    );
    let usage = section(
        "# Datasource usage"@,
        seq!["DATASOURCE"@, "REFS"@, "DASHBOARDS"@],
        s.datasource_usage@.map_values(|u: ExportDatasourceUsage| usage_row(u)),
        h,
    );
    let inventory = if s.datasource_inventory@.len() > 0 {
        section(
            "# Datasource inventory"@,
            inventory_headers(),
            s.datasource_inventory@.map_values(|d: DatasourceInventorySummary| inventory_row(d)),
            h,
        )
    } else {
        Seq::empty()
    };
    let mixed = if s.mixed_dashboards@.len() > 0 {
        section(
            "# Mixed datasource dashboards"@,
            seq!["UID"@, "TITLE"@, "FOLDER_PATH"@, "DATASOURCES"@],
            s.mixed_dashboards@.map_values(|m: MixedDashboardSummary| mixed_row(m)),
            h,
        )
    } else {
        Seq::empty()
    };
    head + counts + folders + usage + inventory + mixed
}

fn append_lines(out: &mut Vec<String>, more: Vec<String>)
    ensures
        views(final(out)@) == views(old(out)@) + views(more@),
{
    let mut i: usize = 0;
    while i < more.len()
        invariant
            i <= more@.len(),
            views(out@) == views(old(out)@) + views(more@.take(i as int)),
        decreases more.len() - i,
    {
        let c = more[i].clone();
        assert(c@ == more@[i as int]@);
        let ghost prev = views(out@);
        out.push(c);
        proof {
            assert(views(out@) =~= prev.push(c@));
            assert(views(more@.take(i + 1)) =~= views(more@.take(i as int)).push(more@[i as int]@));
            assert(views(out@) =~= views(old(out)@) + views(more@.take(i + 1)));
        }
        i = i + 1;
    }
    assert(more@.take(more@.len() as int) =~= more@);
}

fn strs(items: &[&str]) -> (r: Vec<String>)
    ensures
        r@.len() == items@.len(),
        forall|i: int| 0 <= i < items@.len() ==> (#[trigger] r@[i])@ == items@[i]@,
{
    let mut r: Vec<String> = Vec::new();
    let mut i: usize = 0;
    while i < items.len()
        invariant
            i <= items@.len(),
            r@.len() == i,
            forall|k: int| 0 <= k < i ==> (#[trigger] r@[k])@ == items@[k]@,
        decreases items.len() - i,
    {
        r.push(owned(items[i]));
        i = i + 1;
    }
    r
}

fn push_section(out: &mut Vec<String>, title: &str, headers: Vec<String>, rows: &Vec<Vec<String>>, h: bool)
    ensures
        views(final(out)@) == views(old(out)@) + section(title@, views(headers@), table_views(rows@), h),
{
    let lines = render_simple_table(headers.as_slice(), rows.as_slice(), h);
    let ghost before = views(out@);
    out.push(String::new());
    out.push(owned(title));
    assert(views(out@) =~= before + seq![Seq::<char>::empty(), title@]);
    append_lines(out, lines);
    assert(views(out@) =~= before + section(title@, views(headers@), table_views(rows@), h));
}

fn cell_pair(a: String, b: String) -> (r: Vec<String>)
    ensures
        views(r@) == seq![a@, b@],
{
    let r = vec![a, b];
    assert(views(r@) =~= seq![a@, b@]);
    r
}

/// The lines of an export inspection summary, as the inspection prints
/// them; `table` renders the counts as a table, `include_header` gives the
/// tables their headers.
pub fn render_export_inspection_summary_lines(summary: &ExportInspectionSummary, table: bool, include_header: bool) -> (lines:
    Vec<String>)
    ensures
        views(lines@) == summary_text_lines(*summary, table, include_header),
{
    let s = summary;
    let h = include_header;
    let mut out: Vec<String> = Vec::new();
    out.push(crate::text::concat("Export inspection: ", s.import_dir.as_str()));
    assert(views(out@) =~= seq!["Export inspection: "@ + s.import_dir@]);
    if table {
        let rows: Vec<Vec<String>> = vec![
            cell_pair(owned("dashboard_count"), usize_text(s.dashboard_count)),
            cell_pair(owned("folder_count"), usize_text(s.folder_count)),
            cell_pair(owned("panel_count"), usize_text(s.panel_count)),
            cell_pair(owned("query_count"), usize_text(s.query_count)),
            cell_pair(owned("datasource_inventory_count"), usize_text(s.datasource_inventory_count)),
            cell_pair(owned("mixed_datasource_dashboard_count"), usize_text(s.mixed_dashboard_count)),
        ];
        assert(table_views(rows@) =~= metric_rows(*s));
        let headers = strs(&["METRIC", "VALUE"]);
        assert(views(headers@) =~= seq!["METRIC"@, "VALUE"@]);
        push_section(&mut out, "# Summary", headers, &rows, h);
    } else {
        let ghost before = views(out@);
        out.push(crate::text::concat("Dashboards: ", usize_text(s.dashboard_count).as_str()));
        out.push(crate::text::concat("Folders: ", usize_text(s.folder_count).as_str()));
        out.push(crate::text::concat("Panels: ", usize_text(s.panel_count).as_str()));
        out.push(crate::text::concat("Queries: ", usize_text(s.query_count).as_str()));
        out.push(crate::text::concat("Datasource inventory: ", usize_text(s.datasource_inventory_count).as_str()));
        out.push(crate::text::concat("Mixed datasource dashboards: ", usize_text(s.mixed_dashboard_count).as_str()));
        assert(views(out@) =~= before + count_lines(*s));
    }
    let ghost after_counts = views(out@);
    // folder paths
    let mut folder_rows: Vec<Vec<String>> = Vec::new();
    let mut i: usize = 0;
    while i < s.folder_paths.len()
        invariant
            i <= s.folder_paths@.len(),
            table_views(folder_rows@) == s.folder_paths@.take(i as int).map_values(|f: ExportFolderUsage| folder_row(f)),
        decreases s.folder_paths.len() - i,
    {
        let f = &s.folder_paths[i];
        let row = cell_pair(f.path.clone(), usize_text(f.dashboards));
        let ghost prev = table_views(folder_rows@);
        folder_rows.push(row);
        proof {
            assert(table_views(folder_rows@) =~= prev.push(views(row@)));
            assert(s.folder_paths@.take(i + 1) =~= s.folder_paths@.take(i as int).push(s.folder_paths@[i as int]));
            assert(table_views(folder_rows@) =~= s.folder_paths@.take(i + 1).map_values(|f: ExportFolderUsage| folder_row(f)));
        }
        i = i + 1;
    }
    assert(s.folder_paths@.take(s.folder_paths@.len() as int) =~= s.folder_paths@);
    let headers = strs(&["FOLDER_PATH", "DASHBOARDS"]);
    assert(views(headers@) =~= seq!["FOLDER_PATH"@, "DASHBOARDS"@]);
    push_section(&mut out, "# Folder paths", headers, &folder_rows, h);
    // datasource usage
    let mut usage_rows: Vec<Vec<String>> = Vec::new();
    let mut i: usize = 0;
    while i < s.datasource_usage.len()
        invariant
            i <= s.datasource_usage@.len(),
            table_views(usage_rows@) == s.datasource_usage@.take(i as int).map_values(|u: ExportDatasourceUsage| usage_row(u)),
        decreases s.datasource_usage.len() - i,
    {
        let u = &s.datasource_usage[i];
        let row = vec![u.datasource.clone(), usize_text(u.reference_count), usize_text(u.dashboard_count)];
        assert(views(row@) =~= usage_row(*u));
        let ghost prev = table_views(usage_rows@);
        usage_rows.push(row);
        proof {
            assert(table_views(usage_rows@) =~= prev.push(views(row@)));
            assert(s.datasource_usage@.take(i + 1) =~= s.datasource_usage@.take(i as int).push(s.datasource_usage@[i as int]));
            assert(table_views(usage_rows@) =~= s.datasource_usage@.take(i + 1).map_values(|u: ExportDatasourceUsage| usage_row(u)));
        }
        i = i + 1;
    }
    assert(s.datasource_usage@.take(s.datasource_usage@.len() as int) =~= s.datasource_usage@);
    let headers = strs(&["DATASOURCE", "REFS", "DASHBOARDS"]);
    assert(views(headers@) =~= seq!["DATASOURCE"@, "REFS"@, "DASHBOARDS"@]);
    push_section(&mut out, "# Datasource usage", headers, &usage_rows, h);
    let ghost after_usage = views(out@);
    // inventory
    if s.datasource_inventory.len() > 0 {
        let mut inv_rows: Vec<Vec<String>> = Vec::new();
        let mut i: usize = 0;
        while i < s.datasource_inventory.len()
            invariant
                i <= s.datasource_inventory@.len(),
                table_views(inv_rows@) == s.datasource_inventory@.take(i as int).map_values(
                    |d: DatasourceInventorySummary| inventory_row(d),
                ),
            decreases s.datasource_inventory.len() - i,
        {
            let d = &s.datasource_inventory[i];
            let row = vec![
                d.org_id.clone(),
                d.uid.clone(),
                d.name.clone(),
                d.datasource_type.clone(),
                d.access.clone(),
                d.url.clone(),
                d.is_default.clone(),
                usize_text(d.reference_count),
                usize_text(d.dashboard_count),
            ];
            assert(views(row@) =~= inventory_row(*d));
            let ghost prev = table_views(inv_rows@);
            inv_rows.push(row);
            proof {
                assert(table_views(inv_rows@) =~= prev.push(views(row@)));
                assert(s.datasource_inventory@.take(i + 1) =~= s.datasource_inventory@.take(i as int).push(
                    s.datasource_inventory@[i as int],
                ));
                assert(table_views(inv_rows@) =~= s.datasource_inventory@.take(i + 1).map_values(
                    |d: DatasourceInventorySummary| inventory_row(d),
                ));
            }
            i = i + 1;
        }
        assert(s.datasource_inventory@.take(s.datasource_inventory@.len() as int) =~= s.datasource_inventory@);
        let headers = strs(&["ORG_ID", "UID", "NAME", "TYPE", "ACCESS", "URL", "IS_DEFAULT", "REFS", "DASHBOARDS"]);
        assert(views(headers@) =~= inventory_headers());
        push_section(&mut out, "# Datasource inventory", headers, &inv_rows, h);
    }
    let ghost after_inventory = views(out@);
    // mixed dashboards
    if s.mixed_dashboards.len() > 0 {
        let mut mixed_rows: Vec<Vec<String>> = Vec::new();
        let mut i: usize = 0;
        while i < s.mixed_dashboards.len()
            invariant
                i <= s.mixed_dashboards@.len(),
                table_views(mixed_rows@) == s.mixed_dashboards@.take(i as int).map_values(
                    |m: MixedDashboardSummary| mixed_row(m),
                ),
            decreases s.mixed_dashboards.len() - i,
        {
            let m = &s.mixed_dashboards[i];
            let row = vec![
                m.uid.clone(),
                m.title.clone(),
                m.folder_path.clone(),
                join_strings(m.datasources.as_slice(), ","),
            ];
            assert(views(row@) =~= mixed_row(*m));
            let ghost prev = table_views(mixed_rows@);
            mixed_rows.push(row);
            proof {
                assert(table_views(mixed_rows@) =~= prev.push(views(row@)));
                assert(s.mixed_dashboards@.take(i + 1) =~= s.mixed_dashboards@.take(i as int).push(
                    s.mixed_dashboards@[i as int],
                ));
                assert(table_views(mixed_rows@) =~= s.mixed_dashboards@.take(i + 1).map_values(
                    |m: MixedDashboardSummary| mixed_row(m),
                ));
            }
            i = i + 1;
        }
        assert(s.mixed_dashboards@.take(s.mixed_dashboards@.len() as int) =~= s.mixed_dashboards@);
        let headers = strs(&["UID", "TITLE", "FOLDER_PATH", "DATASOURCES"]);
        assert(views(headers@) =~= seq!["UID"@, "TITLE"@, "FOLDER_PATH"@, "DATASOURCES"@]);
        push_section(&mut out, "# Mixed datasource dashboards", headers, &mixed_rows, h);
    }
    assert(views(out@) =~= summary_text_lines(*s, table, h));
    out
}

} // verus!
