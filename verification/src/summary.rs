//! The export inspection summary: folder usage, datasource usage, the
//! datasource inventory with its reference counts, and mixed-datasource
//! dashboards.
use vstd::prelude::*;

verus! {

#[derive(Debug)]
pub struct ExportFolderUsage {
    pub path: String,
    pub dashboards: usize,
}

#[derive(Debug)]
pub struct ExportDatasourceUsage {
    pub datasource: String,
    pub reference_count: usize,
    pub dashboard_count: usize,
}

/// One datasource of the exported inventory with how often dashboards use it.
#[derive(Debug)]
pub struct DatasourceInventorySummary {
    pub uid: String,
    pub name: String,
    pub datasource_type: String,
    pub access: String,
    pub url: String,
    pub is_default: String,
    pub org: String,
    pub org_id: String,
    pub reference_count: usize,
    pub dashboard_count: usize,
}

#[derive(Debug)]
pub struct MixedDashboardSummary {
    pub uid: String,
    pub title: String,
    pub folder_path: String,
    pub datasource_count: usize,
    pub datasources: Vec<String>,
}

#[derive(Debug)]
pub struct ExportInspectionSummary {
    pub import_dir: String,
    pub dashboard_count: usize,
    pub folder_count: usize,
    pub panel_count: usize,
    pub query_count: usize,
    pub datasource_inventory_count: usize,
    pub mixed_dashboard_count: usize,
    pub folder_paths: Vec<ExportFolderUsage>,
    pub datasource_usage: Vec<ExportDatasourceUsage>,
    pub datasource_inventory: Vec<DatasourceInventorySummary>,
    pub mixed_dashboards: Vec<MixedDashboardSummary>,
}

/// The identifying content of an inventory entry.
pub ghost struct InventoryView {
    pub uid: Seq<char>,
    pub name: Seq<char>,
    pub datasource_type: Seq<char>,
    pub reference_count: nat,
    pub dashboard_count: nat,
}

impl View for DatasourceInventorySummary {
    type V = InventoryView;

    open spec fn view(&self) -> InventoryView {
        InventoryView {
            uid: self.uid@,
            name: self.name@,
            datasource_type: self.datasource_type@,
            reference_count: self.reference_count as nat,
            dashboard_count: self.dashboard_count as nat,
        }
    }
}

/// The views of the inventory entries.
pub open spec fn inventory_views(s: Seq<DatasourceInventorySummary>) -> Seq<InventoryView> {
    s.map_values(|d: DatasourceInventorySummary| d@)
}

/// An inventory entry that no dashboard references.
pub open spec fn is_orphaned(d: InventoryView) -> bool {
    d.reference_count == 0 && d.dashboard_count == 0
}

} // verus!
