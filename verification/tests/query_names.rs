use grafana_util::export_folder::{resolve_export_folder_path, resolve_source_dashboard_folder_path};
use grafana_util::import_flow::FolderInventoryItem;
use grafana_util::json::JsonValue;
use grafana_util::query_analysis::{capture_values, metric_names_from_matches, extract_metric_names, extract_query_buckets, extract_query_measurements, quoted_captures};

fn s(t: &str) -> JsonValue {
    JsonValue::Str(t.to_string())
}

fn obj(entries: Vec<(&str, JsonValue)>) -> JsonValue {
    let mut keys = Vec::new();
    let mut values = Vec::new();
    for (k, v) in entries {
        keys.push(k.to_string());
        values.push(v);
    }
    JsonValue::Object { keys, values }
}

fn strings(v: &[&str]) -> Vec<String> {
    v.iter().map(|x| x.to_string()).collect()
}

fn folder(uid: &str, title: &str, path: &str) -> FolderInventoryItem {
    FolderInventoryItem { uid: uid.to_string(), title: title.to_string(), path: path.to_string() }
}

#[test]
fn blank_queries_name_no_metrics() {
    assert!(extract_metric_names("").is_empty());
    assert!(extract_metric_names("  \n\t ").is_empty());
}

#[test]
fn a_bare_selector_names_its_metric() {
    assert_eq!(extract_metric_names("up"), strings(&["up"]));
    assert_eq!(extract_metric_names("  node_cpu_seconds_total  "), strings(&["node_cpu_seconds_total"]));
}

#[test]
fn functions_and_keywords_are_no_metrics() {
    assert_eq!(
        extract_metric_names("sum(rate(http_requests_total{job=\"api\"}[5m])) by (job)"),
        strings(&["api", "http_requests_total", "job"])
    );
    assert_eq!(extract_metric_names("a and on(job) b or c unless d"), strings(&["a", "b", "c", "d", "job"]));
    assert_eq!(extract_metric_names("rate (x[1m])"), strings(&["x"]));
}

#[test]
fn name_matchers_name_their_metric() {
    assert_eq!(
        extract_metric_names("{__name__=\"node_load1\", instance=\"a\"}"),
        strings(&["__name__", "a", "instance", "node_load1"])
    );
    assert_eq!(extract_metric_names("{__name__ = \"x:y\"}"), strings(&["__name__", "x:y"]));
}

#[test]
fn captures_are_trimmed_sorted_and_unique() {
    assert_eq!(quoted_captures("a=\" b \" a=\"c\" a=\"b\" a=\"  \"", "a=\"([^\"]*)\""), strings(&["b", "c"]));
    assert!(quoted_captures("nothing here", "a=\"([^\"]*)\"").is_empty());
    assert!(quoted_captures("a=\"b\"", "(").is_empty());
}

#[test]
fn measurements_come_from_fields_and_query_text() {
    let target = obj(vec![
        ("measurement", s(" cpu ")),
        ("measurements", JsonValue::Array(vec![s("mem"), s(" "), s("disk")])),
    ]);
    assert_eq!(
        extract_query_measurements(&target, "SELECT mean(value) FROM \"net\" WHERE time > now() - 1h"),
        strings(&["cpu", "disk", "mem", "net"])
    );
    let flux = "from(bucket: \"prod\") |> range(start: -1h) |> filter(fn: (r) => r._measurement == \"cpu\")";
    assert_eq!(extract_query_measurements(&obj(vec![]), flux), strings(&["cpu"]));
    assert_eq!(extract_query_measurements(&obj(vec![]), "select * from logs.events"), strings(&["logs.events"]));
    assert!(extract_query_measurements(&obj(vec![("measurement", s("  "))]), "").is_empty());
}

#[test]
fn buckets_come_from_fields_and_flux_sources() {
    let flux = "from(bucket: \"prod\") |> range(start: -1h)";
    let target = obj(vec![("bucket", s("metrics")), ("buckets", JsonValue::Array(vec![s("prod"), s("archive")]))]);
    assert_eq!(extract_query_buckets(&target, flux), strings(&["archive", "metrics", "prod"]));
    assert_eq!(extract_query_buckets(&obj(vec![]), "from ( bucket : \"b1\" )"), strings(&["b1"]));
    assert!(extract_query_buckets(&obj(vec![]), "SELECT 1").is_empty());
}

#[test]
fn export_folders_follow_metadata_first() {
    let folders = vec![folder("f1", "Ops", "Team / Ops"), folder("f2", "Dev", "Team / Dev")];
    let document = obj(vec![("meta", obj(vec![("folderUid", s(" f2 "))]))]);
    assert_eq!(resolve_export_folder_path(&document, "Ops", &folders), "Team / Dev");
    let unknown = obj(vec![("meta", obj(vec![("folderUid", s("zz"))]))]);
    assert_eq!(resolve_export_folder_path(&unknown, "Ops", &folders), "Team / Ops");
}

#[test]
fn export_folders_match_a_single_title() {
    let folders = vec![folder("f1", "Ops", "Team / Ops"), folder("f2", "Ops", "Other / Ops")];
    let document = obj(vec![]);
    assert_eq!(resolve_export_folder_path(&document, "Ops", &folders), "Ops");
    assert_eq!(resolve_export_folder_path(&document, "Ops", &folders[..1].iter().map(|f| folder(&f.uid, &f.title, &f.path)).collect()), "Team / Ops");
    let shadowed = vec![folder("a", "Ops", "P1"), folder("a", "Other", "P2")];
    assert_eq!(resolve_export_folder_path(&document, "Ops", &shadowed), "Ops");
    assert_eq!(resolve_export_folder_path(&document, "Other", &shadowed), "P2");
}

#[test]
fn export_folders_default_to_general() {
    let folders = vec![folder("g", "General", "Somewhere")];
    let document = obj(vec![]);
    assert_eq!(resolve_export_folder_path(&document, "", &folders), "General");
    assert_eq!(resolve_export_folder_path(&document, ".", &folders), "General");
    assert_eq!(resolve_export_folder_path(&document, "General", &folders), "General");
    assert_eq!(resolve_export_folder_path(&document, "Unlisted", &folders), "Unlisted");
}

#[test]
fn import_folders_follow_metadata_then_directories() {
    let folders = vec![folder("f1", "Ops", "Team / Ops"), folder("f2", "Dev", ""), folder("f3", "", "")];
    let parts = strings(&["team", "ops"]);
    let meta = |uid: &str| obj(vec![("meta", obj(vec![("folderUid", s(uid))]))]);
    assert_eq!(resolve_source_dashboard_folder_path(&meta(" f1 "), &parts, &folders), Ok("Team / Ops".to_string()));
    assert_eq!(resolve_source_dashboard_folder_path(&meta("f2"), &parts, &folders), Ok("Dev".to_string()));
    assert_eq!(resolve_source_dashboard_folder_path(&meta("f3"), &parts, &folders), Ok("team / ops".to_string()));
    assert_eq!(resolve_source_dashboard_folder_path(&meta("nope"), &parts, &folders), Ok("team / ops".to_string()));
    assert_eq!(resolve_source_dashboard_folder_path(&meta("general"), &parts, &folders), Ok("General".to_string()));
    assert_eq!(resolve_source_dashboard_folder_path(&meta("  "), &parts, &folders), Ok("General".to_string()));
    assert_eq!(resolve_source_dashboard_folder_path(&obj(vec![]), &parts, &folders), Ok("team / ops".to_string()));
    assert_eq!(resolve_source_dashboard_folder_path(&obj(vec![]), &Vec::new(), &folders), Ok("General".to_string()));
    assert_eq!(
        resolve_source_dashboard_folder_path(&s("x"), &parts, &folders),
        Err("Dashboard payload must be a JSON object.".to_string())
    );
}

#[test]
fn metric_names_follow_the_matches_given() {
    let captures = vec![Some(" x ".to_string()), None, Some("  ".to_string())];
    assert_eq!(capture_values(&captures), strings(&["x"]));
    let part = |b: &str, t: &str, a: &str| (b.to_string(), t.to_string(), a.to_string());
    let parts = vec![
        part("", "rate", "(m[5m])"),
        part("rate(", "m", "[5m])"),
        part("5", "m", "])"),
        part("", "by", " (job)"),
        part("a", "bc", ""),
        part("", "up", " "),
    ];
    assert_eq!(metric_names_from_matches(&captures, &parts), strings(&["m", "up", "x"]));
    assert!(metric_names_from_matches(&Vec::new(), &Vec::new()).is_empty());
}
