use grafana_util::history::{
    build_dashboard_history_restore_document, history_diff_identity, render_dashboard_history_inventory_text,
    render_dashboard_history_list_text, render_dashboard_history_restore_text, resolve_history_diff_source,
    DashboardHistoryInventoryDocument, DashboardHistoryInventoryItem, HistoryDiffSource,
};
use grafana_util::history::{history_restore_action, history_restore_message, history_restore_version, HistoryRestoreAction};
use grafana_util::history_payload::{
    build_browse_restore_payload, build_dashboard_history_list_document, build_dashboard_restore_preview,
    build_restore_payload,
    dashboard_history_version_data, dashboard_history_versions_from_response, display_value,
};
use grafana_util::history_payload::{
    build_dashboard_history_export_document, build_dashboard_history_list_document_from_export_document,
    ensure_history_artifact_uid_matches, history_export_current, select_history_artifact,
    DashboardHistoryExportVersion, HistoryArtifactRef,
};
use grafana_util::history_diff::{
    build_dashboard_history_inventory_document, build_history_compare_document, dashboard_history_export_version,
    render_dashboard_history_diff_text, resolve_history_diff_side_from_document, LocalHistoryArtifact,
    ResolvedHistoryDiffSide,
};
use grafana_util::json::{get_field, JsonValue};
use grafana_util::json_text::json_to_text;

fn s(t: &str) -> JsonValue {
    JsonValue::Str(t.to_string())
}

fn n(t: &str) -> JsonValue {
    JsonValue::Number(t.to_string())
}

fn obj(entries: Vec<(&str, JsonValue)>) -> JsonValue {
    let mut keys = Vec::new();
    let mut values = Vec::new();
    for (k, v) in entries {
        keys.push(k.to_string());
        values.push(v);
    }
    JsonValue::Object { keys, values }
}

fn listing_reply() -> JsonValue {
    JsonValue::Array(vec![
        obj(vec![
            ("version", n("19")),
            ("created", s("2026-04-01T10:00:00Z")),
            ("createdBy", s("ops")),
            ("message", s("Tune CPU panel")),
        ]),
        obj(vec![
            ("version", n("18")),
            ("created", s("2026-03-30T09:00:00Z")),
            ("createdBy", s("sre")),
            ("message", s("Add datasource override")),
        ]),
    ])
}

#[test]
fn dashboard_history_list_document_collects_recent_versions() {
    let versions = dashboard_history_versions_from_response(Some(&listing_reply())).unwrap();
    let document = build_dashboard_history_list_document("cpu-main", versions, 1, "0.8.0-dev");
    assert_eq!(document.kind, "grafana-util-dashboard-history-list");
    assert_eq!(document.dashboard_uid, "cpu-main");
    assert_eq!(document.version_count, 2);
    assert_eq!(document.versions[0].version, 19);
    assert_eq!(document.versions[1].created_by, "sre");
    assert_eq!(
        render_dashboard_history_list_text(&document),
        "Dashboard history: cpu-main versions=2\n  v19 2026-04-01T10:00:00Z ops Tune CPU panel\n  v18 2026-03-30T09:00:00Z sre Add datasource override"
    );
}

#[test]
fn version_listing_replies_of_every_shape() {
    assert!(dashboard_history_versions_from_response(None).unwrap().is_empty());
    let wrapped = obj(vec![("versions", listing_reply())]);
    assert_eq!(dashboard_history_versions_from_response(Some(&wrapped)).unwrap().len(), 2);
    let without = obj(vec![("other", listing_reply())]);
    assert!(dashboard_history_versions_from_response(Some(&without)).unwrap().is_empty());
    assert_eq!(
        dashboard_history_versions_from_response(Some(&s("x"))).unwrap_err(),
        "Unexpected dashboard versions payload from Grafana."
    );
    let odd = JsonValue::Array(vec![
        n("3"),
        obj(vec![("version", s("7")), ("created", n("1700000000")), ("createdBy", s("  "))]),
    ]);
    let versions = dashboard_history_versions_from_response(Some(&odd)).unwrap();
    assert_eq!(versions.len(), 1);
    assert_eq!(versions[0].version, 0);
    assert_eq!(versions[0].created, "1700000000");
    assert_eq!(versions[0].created_by, "-");
    assert_eq!(versions[0].message, "");
    assert_eq!(display_value(&obj(vec![("a", JsonValue::Null)])), "{\"a\":null}");
}

fn live_dashboard() -> JsonValue {
    obj(vec![
        (
            "dashboard",
            obj(vec![("id", n("42")), ("uid", s("cpu-main")), ("title", s("CPU Main")), ("version", n("7"))]),
        ),
        ("meta", obj(vec![("folderUid", s("infra"))])),
    ])
}

#[test]
fn restore_dashboard_history_version_keeps_live_dashboard_id_and_version() {
    let reply = obj(vec![
        ("version", n("5")),
        ("data", obj(vec![("id", n("42")), ("version", n("5")), ("uid", s("cpu-main")), ("title", s("CPU Old"))])),
    ]);
    let data = dashboard_history_version_data(Some(&reply), 5).unwrap();
    let payload = build_browse_restore_payload(&live_dashboard(), data, "cpu-main", 5, "Untitled").unwrap();
    assert!(matches!(get_field(&payload, "overwrite"), Some(JsonValue::Bool(true))));
    assert_eq!(json_to_text(get_field(&payload, "folderUid").unwrap()), "\"infra\"");
    assert_eq!(
        json_to_text(get_field(&payload, "message").unwrap()),
        "\"Restored by grafana-utils dashboard browse to version 5\""
    );
    let dashboard = get_field(&payload, "dashboard").unwrap();
    assert_eq!(json_to_text(get_field(dashboard, "uid").unwrap()), "\"cpu-main\"");
    assert_eq!(json_to_text(get_field(dashboard, "id").unwrap()), "42");
    assert_eq!(json_to_text(get_field(dashboard, "version").unwrap()), "7");
    assert_eq!(json_to_text(get_field(dashboard, "title").unwrap()), "\"CPU Old\"");
}

#[test]
fn restore_refuses_incomplete_replies() {
    assert_eq!(
        dashboard_history_version_data(None, 17).unwrap_err(),
        "Dashboard history version 17 was not returned."
    );
    assert_eq!(
        dashboard_history_version_data(Some(&s("x")), 17).unwrap_err(),
        "Unexpected dashboard history version payload from Grafana."
    );
    assert_eq!(
        dashboard_history_version_data(Some(&obj(vec![("data", s("x"))])), 17).unwrap_err(),
        "Dashboard history version payload did not include dashboard data."
    );
    let no_id = obj(vec![("dashboard", obj(vec![("version", n("3"))]))]);
    assert_eq!(
        build_restore_payload(&no_id, obj(vec![]), "u", "m", "Untitled").unwrap_err(),
        "Current dashboard payload did not include dashboard id."
    );
    let no_version = obj(vec![("dashboard", obj(vec![("id", n("3"))]))]);
    assert_eq!(
        build_restore_payload(&no_version, obj(vec![]), "u", "m", "Untitled").unwrap_err(),
        "Current dashboard payload did not include dashboard version."
    );
    let payload = build_restore_payload(
        &obj(vec![("dashboard", obj(vec![("id", n("3")), ("version", n("9"))]))]),
        obj(vec![]),
        "u",
        "m",
        "Untitled",
    )
    .unwrap();
    assert!(get_field(&payload, "folderUid").is_none());
    let dashboard = get_field(&payload, "dashboard").unwrap();
    assert_eq!(json_to_text(get_field(dashboard, "title").unwrap()), "\"Untitled\"");
}

#[test]
fn restore_preview_and_document() {
    let restored = obj(vec![("title", s("CPU Old"))]);
    let preview = build_dashboard_restore_preview(&live_dashboard(), &restored, "Untitled").unwrap();
    assert_eq!(preview.current_version, 7);
    assert_eq!(preview.current_title, "CPU Main");
    assert_eq!(preview.restored_title, "CPU Old");
    assert_eq!(preview.target_folder_uid, Some("infra".to_string()));
    let general = obj(vec![("dashboard", obj(vec![])), ("meta", obj(vec![("folderUid", s("general"))]))]);
    let preview2 = build_dashboard_restore_preview(&general, &obj(vec![]), "Untitled").unwrap();
    assert_eq!(preview2.target_folder_uid, None);
    assert_eq!(preview2.current_title, "Untitled");
    let document = build_dashboard_history_restore_document("cpu-main", 5, &preview, "Restore", true, 1, "0.8.0-dev");
    assert_eq!(document.mode, "dry-run");
    assert!(document.creates_new_revision);
    assert_eq!(
        render_dashboard_history_restore_text(&document),
        "Dashboard history restore: cpu-main current-version=7 restore-version=5 mode=dry-run creates-new-revision=true\nCurrent title: CPU Main\nRestored title: CPU Old\nTarget folder UID: infra\nMessage: Restore"
    );
}

#[test]
fn inventory_text_and_diff_naming() {
    let document = DashboardHistoryInventoryDocument {
        kind: "grafana-util-dashboard-history-inventory".to_string(),
        schema_version: 1,
        tool_version: "0.8.0-dev".to_string(),
        artifact_count: 1,
        artifacts: vec![DashboardHistoryInventoryItem {
            dashboard_uid: "cpu-main".to_string(),
            current_title: "CPU Main".to_string(),
            current_version: 21,
            version_count: 2,
            path: "history/cpu-main.history.json".to_string(),
            scope: None,
        }],
    };
    assert_eq!(
        render_dashboard_history_inventory_text(&document),
        "Dashboard history artifacts: count=1\n  cpu-main title=CPU Main current-version=21 versions=2 scope=current path=history/cpu-main.history.json"
    );
    assert_eq!(history_diff_identity("a", "a"), "a");
    assert_eq!(history_diff_identity("a", "b"), "a -> b");
    let uid = Some("cpu-main".to_string());
    assert!(matches!(
        resolve_history_diff_source(&uid, &None, &None, "base"),
        Ok(HistoryDiffSource::Live { .. })
    ));
    assert_eq!(
        resolve_history_diff_source(&None, &None, &Some("dir".to_string()), "new").unwrap_err(),
        "dashboard history diff new side requires --new-dashboard-uid when --new-input-dir is set."
    );
    assert_eq!(
        resolve_history_diff_source(&uid, &Some("f".to_string()), &None, "base").unwrap_err(),
        "dashboard history diff base side must choose exactly one source."
    );
}

#[test]
fn history_artifacts_are_listed_checked_and_picked() {
    let (version, title) = history_export_current(&live_dashboard(), "Untitled").unwrap();
    assert_eq!((version, title.as_str()), (7, "CPU Main"));
    assert_eq!(
        history_export_current(&s("x"), "Untitled").unwrap_err(),
        "Unexpected current dashboard payload for history export."
    );
    let versions = vec![DashboardHistoryExportVersion {
        version: 21,
        created: "2026-04-02T12:00:00Z".to_string(),
        created_by: "ops".to_string(),
        message: "Tune thresholds".to_string(),
        dashboard: obj(vec![("uid", s("cpu-main"))]),
    }];
    let document = build_dashboard_history_export_document("cpu-main", 21, "CPU Main".to_string(), versions, 1, "0.8.0-dev");
    assert_eq!(document.kind, "grafana-util-dashboard-history-export");
    assert_eq!(document.version_count, 1);
    let listing = build_dashboard_history_list_document_from_export_document(&document, 1, "0.8.0-dev");
    assert_eq!(listing.versions[0].version, 21);
    assert_eq!(listing.versions[0].message, "Tune thresholds");
    assert!(ensure_history_artifact_uid_matches("cpu-main", &document, "cpu-main.history.json").is_ok());
    let error = ensure_history_artifact_uid_matches("memory-main", &document, "cpu-main.history.json").unwrap_err();
    assert!(error.contains("contains dashboard UID cpu-main instead of memory-main"));
    let artifacts = vec![
        HistoryArtifactRef {
            path: "all-orgs/org_1_Main_Org/history/cpu-main.history.json".to_string(),
            scope: Some("all-orgs/org_1_Main_Org".to_string()),
            dashboard_uid: "cpu-main".to_string(),
        },
        HistoryArtifactRef {
            path: "all-orgs/org_2_Ops_Org/history/ops-main.history.json".to_string(),
            scope: Some("all-orgs/org_2_Ops_Org".to_string()),
            dashboard_uid: "ops-main".to_string(),
        },
        HistoryArtifactRef {
            path: "history/cpu-main.history.json".to_string(),
            scope: None,
            dashboard_uid: "cpu-main".to_string(),
        },
    ];
    assert_eq!(select_history_artifact(&artifacts, "ops-main", "dashboards").unwrap(), 1);
    assert_eq!(
        select_history_artifact(&artifacts, "none", "dashboards").unwrap_err(),
        "No dashboard history artifact for UID none found under dashboards."
    );
    let error = select_history_artifact(&artifacts, "cpu-main", "dashboards").unwrap_err();
    assert!(error.contains("Multiple dashboard history artifacts for UID cpu-main"));
    assert!(error.contains(": all-orgs/org_1_Main_Org, history/cpu-main.history.json. Narrow"));
}

#[test]
fn dashboard_history_restore_requires_yes_without_dry_run() {
    assert_eq!(history_restore_version(Some(17), false), Ok(Some(17)));
    let error = history_restore_action(false, false, false).unwrap_err();
    assert!(error.contains("requires --yes"));
}

#[test]
fn restore_steps_follow_the_flags() {
    assert_eq!(history_restore_action(true, false, false), Ok(HistoryRestoreAction::PreviewOnly));
    assert_eq!(history_restore_action(true, true, true), Ok(HistoryRestoreAction::PreviewOnly));
    assert_eq!(history_restore_action(false, true, false), Ok(HistoryRestoreAction::ConfirmFirst));
    assert_eq!(history_restore_action(false, false, true), Ok(HistoryRestoreAction::Restore));
    assert_eq!(history_restore_version(None, true), Ok(None));
    assert_eq!(
        history_restore_version(None, false).unwrap_err(),
        "Dashboard history restore requires --version unless --prompt is used."
    );
    assert_eq!(history_restore_message(Some("keep"), 3), "keep");
    assert_eq!(
        history_restore_message(None, 17),
        "Restored by grafana-util dashboard history to version 17"
    );
}

fn export_version(version: i64, dashboard: JsonValue) -> DashboardHistoryExportVersion {
    DashboardHistoryExportVersion {
        version,
        created: "2026-04-02T12:00:00Z".to_string(),
        created_by: "ops".to_string(),
        message: "m".to_string(),
        dashboard,
    }
}

#[test]
fn diff_sides_come_from_artifact_versions() {
    let versions = vec![
        export_version(5, obj(vec![("uid", s("cpu-main")), ("title", s(" CPU Old ")), ("folderUid", s("infra"))])),
        export_version(7, s("not a dashboard")),
        export_version(8, obj(vec![("uid", s("cpu-main"))])),
    ];
    let document = build_dashboard_history_export_document("cpu-main", 8, "CPU Main".to_string(), versions, 1, "0.8.0-dev");
    assert_eq!(
        dashboard_history_export_version(&document, 9, "cpu.history.json").unwrap_err(),
        "History source cpu.history.json does not contain dashboard version 9."
    );
    assert_eq!(dashboard_history_export_version(&document, 7, "x").unwrap().version, 7);
    let side = resolve_history_diff_side_from_document(&document, "cpu.history.json".to_string(), 5, "Untitled").unwrap();
    assert_eq!(side.source_label, "cpu.history.json@5");
    assert_eq!(side.dashboard_uid, "cpu-main");
    assert_eq!(side.version, 5);
    assert_eq!(side.title, "CPU Old");
    assert_eq!(
        json_to_text(&side.compare_document),
        "{\"dashboard\":{\"uid\":\"cpu-main\",\"title\":\" CPU Old \",\"folderUid\":\"infra\"},\"folderUid\":\"infra\"}"
    );
    let untitled = resolve_history_diff_side_from_document(&document, "a".to_string(), 8, "Untitled").unwrap();
    assert_eq!(untitled.title, "Untitled");
    assert_eq!(json_to_text(&untitled.compare_document), "{\"dashboard\":{\"uid\":\"cpu-main\"}}");
    assert_eq!(
        resolve_history_diff_side_from_document(&document, "a".to_string(), 7, "Untitled").unwrap_err(),
        "Dashboard history artifact version did not include dashboard JSON."
    );
    assert_eq!(
        build_history_compare_document(&s("x")).unwrap_err(),
        "Dashboard history artifact version did not include dashboard JSON."
    );
}

#[test]
fn inventory_documents_list_artifacts_in_order() {
    let doc = |uid: &str, title: &str, current: i64| {
        build_dashboard_history_export_document(uid, current, title.to_string(), Vec::new(), 1, "0.8.0-dev")
    };
    let artifacts = vec![
        LocalHistoryArtifact { path: "history/a.history.json".to_string(), scope: None, document: doc("a", "A", 3) },
        LocalHistoryArtifact {
            path: "org_2/history/b.history.json".to_string(),
            scope: Some("org_2".to_string()),
            document: doc("b", "B", 9),
        },
    ];
    let inventory = build_dashboard_history_inventory_document(&artifacts, 1, "0.8.0-dev");
    assert_eq!(inventory.kind, "grafana-util-dashboard-history-inventory");
    assert_eq!(inventory.artifact_count, 2);
    assert_eq!(inventory.artifacts[1].dashboard_uid, "b");
    assert_eq!(inventory.artifacts[1].current_version, 9);
    assert_eq!(inventory.artifacts[1].scope.as_deref(), Some("org_2"));
    assert_eq!(
        render_dashboard_history_inventory_text(&inventory),
        "Dashboard history artifacts: count=2\n  a title=A current-version=3 versions=0 scope=current path=history/a.history.json\n  b title=B current-version=9 versions=0 scope=org_2 path=org_2/history/b.history.json"
    );
}

fn side(label: &str, uid: &str, version: i64, title: &str) -> ResolvedHistoryDiffSide {
    ResolvedHistoryDiffSide {
        source_label: label.to_string(),
        dashboard_uid: uid.to_string(),
        version,
        title: title.to_string(),
        dashboard: JsonValue::Null,
        compare_document: JsonValue::Null,
    }
}

#[test]
fn diff_reports_name_both_sides() {
    let base = side("grafana:cpu-main@17", "cpu-main", 17, "CPU Old");
    let new = side("cpu.history.json@21", "cpu-main", 21, "CPU Main");
    let row = obj(vec![
        ("status", s("different")),
        ("path", s("grafana:cpu-main@17 -> cpu.history.json@21")),
        ("diffText", s("--- a\n+++ b\n  \n")),
    ]);
    assert_eq!(
        render_dashboard_history_diff_text(&base, &new, &row),
        "Dashboard history diff: cpu-main status=different base-version=17 new-version=21\nBase source: grafana:cpu-main@17\nNew source: cpu.history.json@21\nPath: grafana:cpu-main@17 -> cpu.history.json@21\nBase title: CPU Old\nNew title: CPU Main\n\n--- a\n+++ b"
    );
    let other = side("b.json@2", "mem-main", 2, "Mem");
    let same = obj(vec![("status", s("same")), ("diffText", JsonValue::Null)]);
    assert_eq!(
        render_dashboard_history_diff_text(&base, &other, &same),
        "Dashboard history diff: cpu-main -> mem-main status=same base-version=17 new-version=2\nBase source: grafana:cpu-main@17\nNew source: b.json@2\nBase title: CPU Old\nNew title: Mem"
    );
    assert!(render_dashboard_history_diff_text(&base, &new, &obj(vec![])).contains("status=different"));
}
