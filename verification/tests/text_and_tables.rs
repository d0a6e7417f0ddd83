use grafana_util::loki::{
    extract_loki_stream_selectors, find_broad_loki_selector, loki_regex_is_wildcard, loki_selector_is_broad,
    split_loki_selector_matchers,
};
use grafana_util::render::{escape_csv, render_csv, render_simple_table};
use grafana_util::strset::{collect_unique_strings, count_distinct};
use grafana_util::text::{rendered_output_to_lines, split_lines, trim_end_str};
use grafana_util::workbench::{
    blank_or, compact_count_label, fact, item_badge_label, item_row_text, join_or_none, matches_root_path,
    slice_visible, wrap_text_chunks, yes_no, BrowserItem,
};

fn strings(v: &[&str]) -> Vec<String> {
    v.iter().map(|s| s.to_string()).collect()
}

fn chars(s: &str) -> Vec<char> {
    s.chars().collect()
}

#[test]
fn loki_selectors_are_extracted_once_each_outside_quotes() {
    let q = "sum(rate({job=\"api\"}[5m])) / count({job=\"api\"}) + {app=\"x{y}\"}";
    assert_eq!(extract_loki_stream_selectors(q), strings(&["{job=\"api\"}", "{app=\"x{y}\"}"]));
    assert!(extract_loki_stream_selectors("no selector").is_empty());
}

#[test]
fn loki_matchers_split_on_commas_outside_quotes() {
    let parts = split_loki_selector_matchers(&chars(" job=\"a,b\" , env=~\".*\" "));
    let parts: Vec<String> = parts.into_iter().map(|p| p.into_iter().collect()).collect();
    assert_eq!(parts, strings(&["job=\"a,b\"", "env=~\".*\""]));
    assert!(loki_regex_is_wildcard(&chars(" \".*\" ")));
    assert!(loki_regex_is_wildcard(&chars("^.+$")));
    assert!(!loki_regex_is_wildcard(&chars("\"api.*\"")));
}

#[test]
fn broad_selectors_match_everything() {
    assert!(loki_selector_is_broad("{}"));
    assert!(loki_selector_is_broad(" { job=~\".*\" } "));
    assert!(!loki_selector_is_broad("{job=\"api\"}"));
    assert!(!loki_selector_is_broad("{job=~\".*\", env=\"prod\"}"));
    assert!(!loki_selector_is_broad("{ , }"));
    assert!(!loki_selector_is_broad("job"));
    assert_eq!(
        find_broad_loki_selector("{job=\"api\"} or {app=~\".+\"}"),
        Some("{app=~\".+\"}".to_string())
    );
    assert_eq!(find_broad_loki_selector("{job=\"api\"}"), None);
}

#[test]
fn csv_quotes_only_where_needed() {
    assert_eq!(escape_csv("plain"), "plain");
    assert_eq!(escape_csv("a,b"), "\"a,b\"");
    assert_eq!(escape_csv("say \"hi\""), "\"say \"\"hi\"\"\"");
    let lines = render_csv(&strings(&["UID", "TITLE"]), &vec![strings(&["abc", "CPU, main"])]);
    assert_eq!(lines, strings(&["UID,TITLE", "abc,\"CPU, main\""]));
}

#[test]
fn simple_table_pads_to_widest_cell() {
    let rows = vec![strings(&["abc", "CPU"]), strings(&["x", "Memory"])];
    let lines = render_simple_table(&strings(&["UID", "TITLE"]), &rows, true);
    assert_eq!(lines, strings(&["UID  TITLE ", "---  ------", "abc  CPU   ", "x    Memory"]));
    let lines = render_simple_table(&strings(&["UID", "TITLE"]), &rows, false);
    assert_eq!(lines.len(), 2);
}

#[test]
fn string_sets_and_lines() {
    let values = strings(&["b", " ", "a", "b", ""]);
    assert_eq!(collect_unique_strings(&values), strings(&["a", "b"]));
    assert_eq!(count_distinct(&values), 4);
    assert_eq!(split_lines("a\r\nb\n\nc\n"), strings(&["a", "b", "", "c"]));
    assert!(split_lines("").is_empty());
}

#[test]
fn workbench_labels_and_rows() {
    assert_eq!(fact("Queries", "3"), "Queries: 3");
    assert_eq!(join_or_none(&[]), "(none)");
    assert_eq!(join_or_none(&strings(&["a", "b"])), "a, b");
    assert_eq!(yes_no(true), "yes");
    assert_eq!(blank_or("", "-"), "-");
    assert_eq!(blank_or("x", "-"), "x");
    assert_eq!(item_badge_label("query-review"), "REVIEW");
    assert_eq!(item_badge_label("custom-kind"), "CUSTOM-KIND");
    let item = BrowserItem {
        kind: "query".to_string(),
        title: "CPU".to_string(),
        meta: "A".to_string(),
        details: Vec::new(),
    };
    assert_eq!(item_row_text(0, &item), " 1. [QUERY] CPU  A");
    assert_eq!(item_row_text(11, &item), "12. [QUERY] CPU  A");
    assert_eq!(slice_visible("abcdef", 2, 3), "cde");
    assert_eq!(slice_visible("abcdef", 2, 0), "");
    assert_eq!(slice_visible("ab", 5, 3), "");
    assert_eq!(compact_count_label(7), " 7");
    assert_eq!(compact_count_label(100), "99+");
    assert_eq!(wrap_text_chunks("abcdefg", 3), strings(&["abc", "def", "g"]));
    assert_eq!(wrap_text_chunks("", 3), strings(&[""]));
    assert!(matches_root_path("Infra / Prod", Some("Infra")));
    assert!(!matches_root_path("Infrastructure", Some("Infra")));
    assert!(matches_root_path("x", None));
}

#[test]
fn rendered_output_splits_into_lines() {
    assert_eq!(rendered_output_to_lines("a\nb\n\n".to_string()), strings(&["a", "b"]));
    assert_eq!(rendered_output_to_lines("a\n\nb".to_string()), strings(&["a", "", "b"]));
    assert_eq!(rendered_output_to_lines("\n\n".to_string()), strings(&[""]));
    assert_eq!(rendered_output_to_lines(String::new()), strings(&[""]));
    assert_eq!(trim_end_str("  x \t\n"), "  x");
    assert_eq!(trim_end_str(""), "");
}
