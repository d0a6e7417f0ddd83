use grafana_util::cli_defs::{CommonCliArgs, ImportArgs};
use grafana_util::import_flow::{
    apply_folder_path_guard_to_action, build_folder_path_match_result, build_import_dry_run_record,
    check_ensure_folders_inventory, decide_dashboard_import, describe_dashboard_import_mode, describe_import_action,
    determine_dashboard_import_action, determine_import_folder_uid_override, format_import_progress_line,
    format_import_verbose_line, import_file_outcome, import_lookup_uid, import_summary_lines, normalize_folder_path,
    render_import_dry_run_table, resolve_dashboard_import_folder_path, validate_import_args, FolderInventoryItem,
};
use grafana_util::json::{get_field, JsonValue};
use grafana_util::json_text::json_to_text;

fn s(t: &str) -> JsonValue {
    JsonValue::Str(t.to_string())
}

fn obj(entries: Vec<(&str, JsonValue)>) -> JsonValue {
    let mut keys = Vec::new();
    let mut values = Vec::new();
    for (k, v) in entries {
        keys.push(k.to_string());
        values.push(v);
    }
    JsonValue::Object { keys, values }
}

fn common() -> CommonCliArgs {
    CommonCliArgs {
        url: "http://127.0.0.1:3000".to_string(),
        api_token: Some("token".to_string()),
        username: None,
        password: None,
        prompt_password: false,
        prompt_token: false,
        timeout: 30,
        verify_ssl: false,
    }
}

fn import_args() -> ImportArgs {
    ImportArgs {
        common: common(),
        org_id: None,
        use_export_org: false,
        only_org_id: Vec::new(),
        create_missing_orgs: false,
        import_dir: "dashboards/raw".to_string(),
        import_folder_uid: None,
        ensure_folders: false,
        replace_existing: false,
        update_existing_only: false,
        require_matching_folder_path: false,
        require_matching_export_org: false,
        import_message: "sync dashboards".to_string(),
        dry_run: false,
        table: false,
        json: false,
        output_format: None,
        no_header: false,
        continue_on_error: false,
        output_columns: Vec::new(),
        progress: false,
        verbose: false,
    }
}

fn document() -> JsonValue {
    obj(vec![
        ("dashboard", obj(vec![("id", JsonValue::Number("7".to_string())), ("uid", s("abc")), ("title", s("CPU"))])),
        ("meta", obj(vec![("folderUid", s("old-folder"))])),
    ])
}

#[test]
fn modes_and_actions_are_named() {
    assert_eq!(describe_dashboard_import_mode(false, false), "create-only");
    assert_eq!(describe_dashboard_import_mode(true, false), "create-or-update");
    assert_eq!(describe_dashboard_import_mode(true, true), "update-or-skip-missing");
    assert_eq!(describe_import_action("would-create"), ("missing".to_string(), "create".to_string()));
    assert_eq!(describe_import_action("would-update"), ("exists".to_string(), "update".to_string()));
    assert_eq!(describe_import_action("would-skip-missing"), ("missing".to_string(), "skip-missing".to_string()));
    assert_eq!(describe_import_action("would-fail-existing"), ("exists".to_string(), "blocked-existing".to_string()));
    assert_eq!(describe_import_action("odd"), ("unknown".to_string(), "odd".to_string()));
}

#[test]
fn import_action_follows_existence_and_flags() {
    assert_eq!(determine_dashboard_import_action("", true, false, false), "would-create");
    assert_eq!(determine_dashboard_import_action("", false, false, true), "would-skip-missing");
    assert_eq!(determine_dashboard_import_action("", true, true, true), "would-skip-missing");
    assert_eq!(determine_dashboard_import_action("abc", false, false, false), "would-create");
    assert_eq!(determine_dashboard_import_action("abc", false, false, true), "would-skip-missing");
    assert_eq!(determine_dashboard_import_action("abc", true, true, false), "would-update");
    assert_eq!(determine_dashboard_import_action("abc", true, false, true), "would-update");
    assert_eq!(determine_dashboard_import_action("abc", true, false, false), "would-fail-existing");
    assert_eq!(apply_folder_path_guard_to_action("would-update", false), "would-skip-folder-mismatch");
    assert_eq!(apply_folder_path_guard_to_action("would-update", true), "would-update");
    assert_eq!(apply_folder_path_guard_to_action("would-create", false), "would-create");
}

#[test]
fn option_combinations_are_refused() {
    let mut args = import_args();
    assert!(validate_import_args(&args).is_ok());
    args.table = true;
    assert_eq!(
        validate_import_args(&args).unwrap_err(),
        "--table is only supported with --dry-run for import-dashboard."
    );
    args.dry_run = true;
    args.json = true;
    assert_eq!(
        validate_import_args(&args).unwrap_err(),
        "--table and --json are mutually exclusive for import-dashboard."
    );
    let mut args = import_args();
    args.no_header = true;
    assert_eq!(
        validate_import_args(&args).unwrap_err(),
        "--no-header is only supported with --dry-run --table for import-dashboard."
    );
    let mut args = import_args();
    args.ensure_folders = true;
    args.import_folder_uid = Some("f".to_string());
    assert_eq!(
        validate_import_args(&args).unwrap_err(),
        "--ensure-folders cannot be combined with --import-folder-uid."
    );
    let mut args = import_args();
    args.output_columns = vec!["uid".to_string()];
    assert_eq!(
        validate_import_args(&args).unwrap_err(),
        "--output-columns is only supported with --dry-run --table or table-like --output-format for import-dashboard."
    );
    args.dry_run = true;
    args.table = true;
    assert!(validate_import_args(&args).is_ok());
    let mut args = import_args();
    args.require_matching_folder_path = true;
    assert!(validate_import_args(&args).is_ok());
    args.import_folder_uid = Some("f".to_string());
    assert_eq!(
        validate_import_args(&args).unwrap_err(),
        "--require-matching-folder-path cannot be combined with --import-folder-uid."
    );
}

#[test]
fn ensure_folders_needs_an_inventory() {
    let mut args = import_args();
    assert!(check_ensure_folders_inventory(&args, &Vec::new(), "dashboards/raw/folders.json").is_ok());
    args.ensure_folders = true;
    assert_eq!(
        check_ensure_folders_inventory(&args, &Vec::new(), "dashboards/raw/folders.json").unwrap_err(),
        "Folder inventory file not found for --ensure-folders: dashboards/raw/folders.json. Re-export dashboards with raw folder inventory or omit --ensure-folders."
    );
    let inventory = vec![FolderInventoryItem { uid: "f".to_string(), title: "F".to_string(), path: "F".to_string() }];
    assert!(check_ensure_folders_inventory(&args, &inventory, "x").is_ok());
}

#[test]
fn update_only_skips_dashboards_without_uid() {
    let mut args = import_args();
    args.update_existing_only = true;
    let no_uid = obj(vec![("dashboard", obj(vec![("title", s("CPU"))]))]);
    let decision = decide_dashboard_import(&args, &no_uid, None, true).unwrap();
    assert_eq!(decision.action.as_deref(), Some("would-skip-missing"));
    let outcome = import_file_outcome(&args, &decision, "General", "raw/a.json", 0, 1, "", None);
    assert!(!outcome.post);
    assert!(outcome.skipped_missing);
}

#[test]
fn mismatched_folder_paths_skip_updates() {
    let mut args = import_args();
    args.require_matching_folder_path = true;
    args.replace_existing = true;
    args.verbose = true;
    let live = obj(vec![
        ("dashboard", obj(vec![("uid", s("abc"))])),
        ("meta", obj(vec![("folderUid", s("other"))])),
    ]);
    let decision = decide_dashboard_import(&args, &document(), Some(&live), false).unwrap();
    assert_eq!(decision.action.as_deref(), Some("would-skip-folder-mismatch"));
    let outcome = import_file_outcome(&args, &decision, "Infra", "raw/a.json", 0, 1, "Infra", Some("Other"));
    assert!(!outcome.post);
    assert!(outcome.skipped_folder_mismatch);
    assert_eq!(
        outcome.line.as_deref(),
        Some("Skipped import uid=abc dest=exists action=skip-folder-mismatch sourceFolderPath=Infra destinationFolderPath=Other file=raw/a.json")
    );
    let decision = decide_dashboard_import(&args, &document(), Some(&live), true).unwrap();
    assert_eq!(decision.action.as_deref(), Some("would-update"));
    assert!(import_file_outcome(&args, &decision, "Infra", "raw/a.json", 0, 1, "Infra", Some("Infra")).post);
    assert_eq!(describe_import_action("would-skip-folder-mismatch"), ("exists".to_string(), "skip-folder-mismatch".to_string()));
}

#[test]
fn folder_override_prefers_flag_then_live_folder() {
    assert_eq!(
        determine_import_folder_uid_override("abc", Some("new"), true, None).unwrap(),
        Some("new".to_string())
    );
    assert_eq!(determine_import_folder_uid_override("abc", None, false, None).unwrap(), None);
    let live = obj(vec![("meta", obj(vec![("folderUid", s("live-folder"))]))]);
    assert_eq!(
        determine_import_folder_uid_override("abc", None, true, Some(&live)).unwrap(),
        Some("live-folder".to_string())
    );
    assert_eq!(
        determine_import_folder_uid_override("abc", None, true, Some(&obj(vec![]))).unwrap(),
        Some(String::new())
    );
    assert_eq!(
        determine_import_folder_uid_override("abc", None, true, Some(&s("x"))).unwrap_err(),
        "Unexpected dashboard payload for UID abc."
    );
}

#[test]
fn decision_builds_payload_and_action() {
    let mut args = import_args();
    args.dry_run = true;
    args.replace_existing = true;
    assert_eq!(import_lookup_uid(&args, &document()).unwrap(), Some("abc".to_string()));
    let live = obj(vec![("meta", obj(vec![("folderUid", s("live-folder"))]))]);
    let decision = decide_dashboard_import(&args, &document(), Some(&live), true).unwrap();
    assert_eq!(decision.action, Some("would-update".to_string()));
    assert_eq!(decision.uid, "abc");
    assert_eq!(decision.folder_uid, "live-folder");
    let dashboard = get_field(&decision.payload, "dashboard").unwrap();
    assert!(matches!(get_field(dashboard, "id"), Some(JsonValue::Null)));
    assert_eq!(json_to_text(get_field(&decision.payload, "message").unwrap()), "\"sync dashboards\"");
    let plain = import_args();
    assert_eq!(import_lookup_uid(&plain, &document()).unwrap(), None);
    let decision = decide_dashboard_import(&plain, &document(), None, true).unwrap();
    assert_eq!(decision.action, None);
    assert_eq!(decision.folder_uid, "old-folder");
    assert_eq!(
        decide_dashboard_import(&plain, &s("x"), None, true).unwrap_err(),
        "Dashboard payload must be a JSON object."
    );
}

#[test]
fn progress_and_verbose_lines() {
    assert_eq!(
        format_import_progress_line(2, 5, "abc", true, Some("would-create"), Some("Infra")),
        "Dry-run dashboard 2/5: abc dest=missing action=create folderPath=Infra"
    );
    assert_eq!(
        format_import_progress_line(2, 5, "abc", true, None, Some("")),
        "Dry-run dashboard 2/5: abc dest=unknown action=unknown"
    );
    assert_eq!(format_import_progress_line(1, 1, "abc", false, None, None), "Importing dashboard 1/1: abc");
    assert_eq!(
        format_import_verbose_line("raw/a.json", true, Some("abc"), Some("would-update"), Some("Infra")),
        "Dry-run import uid=abc dest=exists action=update folderPath=Infra file=raw/a.json"
    );
    assert_eq!(
        format_import_verbose_line("raw/a.json", true, None, None, None),
        "Dry-run import uid=unknown dest=unknown action=unknown file=raw/a.json"
    );
    assert_eq!(format_import_verbose_line("raw/a.json", false, None, None, None), "Imported raw/a.json");
}

#[test]
fn dry_run_table_pads_columns() {
    let record = build_import_dry_run_record("raw/a.json", "abc", "would-create", "General");
    assert_eq!(record, vec!["abc", "missing", "create", "General", "raw/a.json"]);
    let lines = render_import_dry_run_table(&vec![record], true);
    assert_eq!(
        lines,
        vec![
            "UID  DESTINATION  ACTION  FOLDER_PATH  FILE      ",
            "---  -----------  ------  -----------  ----------",
            "abc  missing      create  General      raw/a.json",
        ]
    );
}

#[test]
fn folder_paths_are_normalized_and_compared() {
    assert_eq!(normalize_folder_path(None), "General");
    assert_eq!(normalize_folder_path(Some("  ")), "General");
    assert_eq!(normalize_folder_path(Some(" Infra/Prod ")), "Infra/Prod");
    assert_eq!(
        build_folder_path_match_result(Some("Infra"), Some(" Infra "), true, true),
        (true, String::new(), "Infra".to_string(), Some("Infra".to_string()))
    );
    assert_eq!(
        build_folder_path_match_result(Some("Infra"), Some("Ops"), true, true),
        (false, "folder-path-mismatch".to_string(), "Infra".to_string(), Some("Ops".to_string()))
    );
    assert_eq!(
        build_folder_path_match_result(None, None, true, true),
        (false, "folder-path-unknown".to_string(), "General".to_string(), None)
    );
    assert_eq!(
        build_folder_path_match_result(Some("Infra"), Some("Ops"), false, true),
        (true, String::new(), "Infra".to_string(), Some("Ops".to_string()))
    );
    let inventory = vec![
        FolderInventoryItem { uid: "infra".to_string(), title: "Infra".to_string(), path: String::new() },
        FolderInventoryItem { uid: "ops".to_string(), title: "Ops".to_string(), path: "Platform/Ops".to_string() },
    ];
    assert_eq!(resolve_dashboard_import_folder_path("", None, &inventory), "General");
    assert_eq!(resolve_dashboard_import_folder_path("general", None, &inventory), "General");
    assert_eq!(resolve_dashboard_import_folder_path("ops", Some("Live/Ops"), &inventory), "Live/Ops");
    assert_eq!(resolve_dashboard_import_folder_path("ops", None, &inventory), "Platform/Ops");
    assert_eq!(resolve_dashboard_import_folder_path("infra", None, &inventory), "Infra");
    assert_eq!(resolve_dashboard_import_folder_path("nowhere", None, &inventory), "nowhere");
}

#[test]
fn file_outcomes_and_summary() {
    let mut args = import_args();
    args.dry_run = true;
    args.table = true;
    let decision = decide_dashboard_import(&args, &document(), None, true).unwrap();
    let outcome = import_file_outcome(&args, &decision, "Infra", "raw/a.json", 0, 1, "", None);
    assert_eq!(
        outcome.record,
        Some(vec![
            "abc".to_string(),
            "missing".to_string(),
            "create".to_string(),
            "Infra".to_string(),
            "raw/a.json".to_string()
        ])
    );
    assert!(!outcome.post);
    let records = vec![outcome.record.unwrap()];
    let lines = import_summary_lines(&args, &records, 0, 0, 1);
    assert_eq!(lines.last().unwrap(), "Dry-run checked 1 dashboard(s) from dashboards/raw");
    assert_eq!(lines.len(), 4);
    let live = import_args();
    let decision = decide_dashboard_import(&live, &document(), None, true).unwrap();
    let outcome = import_file_outcome(&live, &decision, "Infra", "raw/a.json", 0, 1, "", None);
    assert!(outcome.post);
    assert!(!outcome.skipped_missing);
}
