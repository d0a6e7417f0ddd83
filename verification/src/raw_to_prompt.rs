//! The summary of a raw-to-prompt conversion run and the names it gives
//! to synthetic datasources.
use vstd::prelude::*;

use crate::text::owned;

verus! {

/// Whether a file was converted.
#[derive(Debug, Clone, Copy, PartialEq, Eq, Structural)]
pub enum RawToPromptStatus {
    Converted,
    Failed,
}

/// How the datasources of a file were resolved.
#[derive(Debug, Clone, Copy, PartialEq, Eq, Structural)]
pub enum RawToPromptResolutionKind {
    Exact,
    Inferred,
    Failed,
}

/// The outcome for one converted file.
#[derive(Debug)]
pub struct RawToPromptItemSummary {
    pub input_file: String,
    pub output_file: Option<String>,
    pub status: RawToPromptStatus,
    pub resolution: RawToPromptResolutionKind,
    pub datasource_slots: usize,
    pub warnings: Vec<String>,
    pub error: Option<String>,
}

/// The counts of a conversion run.
#[derive(Debug)]
pub struct RawToPromptCounts {
    pub scanned: usize,
    pub converted: usize,
    pub failed: usize,
    pub exact: usize,
    pub inferred: usize,
    pub unresolved: usize,
}

pub open spec fn count_status(items: Seq<RawToPromptItemSummary>, s: RawToPromptStatus) -> nat {
    items.filter(|i: RawToPromptItemSummary| i.status == s).len()
}

pub open spec fn count_resolution(items: Seq<RawToPromptItemSummary>, r: RawToPromptResolutionKind) -> nat {
    items.filter(|i: RawToPromptItemSummary| i.resolution == r).len()
}

/// Counts the files of a run: scanned, converted and failed ones, and
/// those resolved exactly, by inference, or not at all.
pub fn build_summary(items: &Vec<RawToPromptItemSummary>) -> (c: RawToPromptCounts)
    ensures
        c.scanned == items@.len(),
        c.converted == count_status(items@, RawToPromptStatus::Converted),
        c.failed == count_status(items@, RawToPromptStatus::Failed),
        c.exact == count_resolution(items@, RawToPromptResolutionKind::Exact),
        c.inferred == count_resolution(items@, RawToPromptResolutionKind::Inferred),
        c.unresolved == count_resolution(items@, RawToPromptResolutionKind::Failed),
{
    let ghost s = items@;
    let mut converted: usize = 0;
    let mut failed: usize = 0;
    let mut exact: usize = 0;
    let mut inferred: usize = 0;
    let mut unresolved: usize = 0;
    let mut i: usize = 0;
    while i < items.len()
        invariant
            i <= s.len(),
            s == items@,
            converted == count_status(s.take(i as int), RawToPromptStatus::Converted),
            failed == count_status(s.take(i as int), RawToPromptStatus::Failed),
            exact == count_resolution(s.take(i as int), RawToPromptResolutionKind::Exact),
            inferred == count_resolution(s.take(i as int), RawToPromptResolutionKind::Inferred),
            unresolved == count_resolution(s.take(i as int), RawToPromptResolutionKind::Failed),
            converted <= i && failed <= i && exact <= i && inferred <= i && unresolved <= i,
        decreases items.len() - i,
    {
        proof {
            let t = s.take(i as int);
            assert(s.take(i + 1) =~= t.push(s[i as int]));
            t.lemma_filter_push(s[i as int], |x: RawToPromptItemSummary| x.status == RawToPromptStatus::Converted);
            t.lemma_filter_push(s[i as int], |x: RawToPromptItemSummary| x.status == RawToPromptStatus::Failed);
            t.lemma_filter_push(s[i as int], |x: RawToPromptItemSummary| x.resolution == RawToPromptResolutionKind::Exact);
            t.lemma_filter_push(s[i as int], |x: RawToPromptItemSummary| x.resolution == RawToPromptResolutionKind::Inferred);
            t.lemma_filter_push(s[i as int], |x: RawToPromptItemSummary| x.resolution == RawToPromptResolutionKind::Failed);
        }
        match items[i].status {
            RawToPromptStatus::Converted => converted = converted + 1,
            RawToPromptStatus::Failed => failed = failed + 1,
        }
        match items[i].resolution {
            RawToPromptResolutionKind::Exact => exact = exact + 1,
            RawToPromptResolutionKind::Inferred => inferred = inferred + 1,
            RawToPromptResolutionKind::Failed => unresolved = unresolved + 1,
        }
        i = i + 1;
    }
    assert(s.take(s.len() as int) =~= s);
    RawToPromptCounts { scanned: items.len(), converted, failed, exact, inferred, unresolved }
}

/// `s` with every leading occurrence of `p` removed, as
/// `str::trim_start_matches` does with a non-empty pattern.
pub open spec fn trim_leading(s: Seq<char>, p: Seq<char>) -> Seq<char>
    decreases s.len(),
{
    if p.len() > 0 && crate::text::starts_with(s, p) {
        trim_leading(s.skip(p.len() as int), p)
    } else {
        s
    }
}

fn trim_start_matches(s: &str, p: &str) -> (r: String)
    requires
        p@.len() > 0,
    ensures
        r@ == trim_leading(s@, p@),
{
    let cs = crate::text::chars_of(s);
    let pc = crate::text::chars_of(p);
    let mut start: usize = 0;
    assert(cs@.skip(0) =~= cs@);
    while cs.len() - start >= pc.len() && crate::text::starts_with_chars(
        crate::text::slice_chars(cs.as_slice(), start, cs.len()).as_slice(),
        pc.as_slice(),
    )
        invariant
            start <= cs@.len(),
            cs@ == s@,
            pc@ == p@,
            p@.len() > 0,
            trim_leading(s@, p@) == trim_leading(cs@.skip(start as int), p@),
        decreases cs.len() - start,
    {
        proof {
            assert(cs@.subrange(start as int, cs@.len() as int) =~= cs@.skip(start as int));
            assert(cs@.skip(start as int).skip(p@.len() as int) =~= cs@.skip(start + p@.len()));
        }
        start = start + pc.len();
    }
    proof {
        assert(cs@.subrange(start as int, cs@.len() as int) =~= cs@.skip(start as int));
        if cs@.len() - start < pc@.len() {
            assert(!crate::text::starts_with(cs@.skip(start as int), p@));
        }
    }
    let rest = crate::text::slice_chars(cs.as_slice(), start, cs.len());
    proof {
        assert(rest@ =~= cs@.skip(start as int));
    }
    crate::text::string_from_chars(rest.as_slice())
}

/// The name of a synthetic datasource: its type, then its UID without the
/// `prompt-` prefix, in brackets.
pub open spec fn synthetic_datasource_name(datasource_type: Seq<char>, uid: Seq<char>) -> Seq<char> {
    datasource_type + " ("@ + trim_leading(uid, "prompt-"@) + ")"@
}

/// Names a synthetic datasource.
pub fn synthetic_name(datasource_type: &str, uid: &str) -> (r: String)
    ensures
        r@ == synthetic_datasource_name(datasource_type@, uid@),
{
    proof {
        reveal_strlit("prompt-");
    }
    let mut r = owned(datasource_type);
    r.append(" (");
    r.append(trim_start_matches(uid, "prompt-").as_str());
    r.append(")");
    r
}

/// The summary of a raw-to-prompt run.
#[derive(Debug)]
pub struct RawToPromptSummary {
    pub kind: String,
    pub schema_version: i64,
    pub mode: String,
    pub scanned: usize,
    pub converted: usize,
    pub failed: usize,
    pub exact: usize,
    pub inferred: usize,
    pub unresolved: usize,
    pub output_root: Option<String>,
    pub log_file: Option<String>,
    pub items: Vec<RawToPromptItemSummary>,
}

/// Summarizes a run: its mode and output, the counts of its items by
/// status and by resolution, and the items themselves.
pub fn build_raw_to_prompt_summary(
    mode: &str,
    output_root: Option<String>,
    log_file: Option<String>,
    items: Vec<RawToPromptItemSummary>,
) -> (s: RawToPromptSummary)
    ensures
        s.kind@ == "grafana-utils-dashboard-raw-to-prompt-summary"@,
        s.schema_version == 1,
        s.mode@ == mode@,
        s.scanned == items@.len(),
        s.converted == count_status(items@, RawToPromptStatus::Converted),
        s.failed == count_status(items@, RawToPromptStatus::Failed),
        s.exact == count_resolution(items@, RawToPromptResolutionKind::Exact),
        s.inferred == count_resolution(items@, RawToPromptResolutionKind::Inferred),
        s.unresolved == count_resolution(items@, RawToPromptResolutionKind::Failed),
        s.output_root == output_root,
        s.log_file == log_file,
        s.items@ == items@,
{
    let c = build_summary(&items);
    RawToPromptSummary {
        kind: owned("grafana-utils-dashboard-raw-to-prompt-summary"),
        schema_version: 1,
        mode: owned(mode),
        scanned: c.scanned,
        converted: c.converted,
        failed: c.failed,
        exact: c.exact,
        inferred: c.inferred,
        unresolved: c.unresolved,
        output_root,
        log_file,
        items,
    }
}

/// The table headers of a run summary.
pub open spec fn summary_headers() -> Seq<Seq<char>> {
    seq![
        "STATUS"@,
        "SCANNED"@,
        "CONVERTED"@,
        "FAILED"@,
        "EXACT"@,
        "INFERRED"@,
        "UNRESOLVED"@,
        "OUTPUT"@,
    ]
}

/// The one table row of a run summary.
pub open spec fn summary_row(s: RawToPromptSummary) -> Seq<Seq<char>> {
    seq![
        if s.failed == 0 {
            "ok"@
        } else {
            "partial"@
        },
        crate::text::decimal(s.scanned as nat),
        crate::text::decimal(s.converted as nat),
        crate::text::decimal(s.failed as nat),
        crate::text::decimal(s.exact as nat),
        crate::text::decimal(s.inferred as nat),
        crate::text::decimal(s.unresolved as nat),
        match s.output_root {
            Some(o) => o@,
            None => "-"@,
        },
    ]
}

/// Renders a run summary as a table.
pub fn render_raw_to_prompt_summary_table(summary: &RawToPromptSummary, no_header: bool) -> (lines: Vec<String>)
    ensures
        crate::strset::views(lines@) == crate::render::table_lines(summary_headers(), seq![summary_row(*summary)], !no_header),
{
    let headers: Vec<String> = vec![
        owned("STATUS"),
        owned("SCANNED"),
        owned("CONVERTED"),
        owned("FAILED"),
        owned("EXACT"),
        owned("INFERRED"),
        owned("UNRESOLVED"),
        owned("OUTPUT"),
    ];
    let row: Vec<String> = vec![
        if summary.failed == 0 {
            owned("ok")
        } else {
            owned("partial")
        },
        crate::text::usize_text(summary.scanned),
        crate::text::usize_text(summary.converted),
        crate::text::usize_text(summary.failed),
        crate::text::usize_text(summary.exact),
        crate::text::usize_text(summary.inferred),
        crate::text::usize_text(summary.unresolved),
        match &summary.output_root {
            Some(o) => o.clone(),
            None => owned("-"),
        },
    ];
    let ghost rv = crate::strset::views(row@);
    assert(rv =~= summary_row(*summary));
    assert(crate::strset::views(headers@) =~= summary_headers());
    let rows: Vec<Vec<String>> = vec![row];
    assert(crate::render::table_views(rows@) =~= seq![summary_row(*summary)]);
    crate::render::render_simple_table(headers.as_slice(), rows.as_slice(), !no_header)
}

/// The lines of the text summary of a run.
pub open spec fn summary_text_lines(s: RawToPromptSummary) -> Seq<Seq<char>> {
    seq![
        if s.failed == 0 {
            "raw-to-prompt completed"@
        } else {
            "raw-to-prompt completed with failures"@
        },
        "  scanned: "@ + crate::text::decimal(s.scanned as nat),
        "  converted: "@ + crate::text::decimal(s.converted as nat),
        "  failed: "@ + crate::text::decimal(s.failed as nat),
        "  exact: "@ + crate::text::decimal(s.exact as nat),
        "  inferred: "@ + crate::text::decimal(s.inferred as nat),
        "  unresolved: "@ + crate::text::decimal(s.unresolved as nat),
    ] + (match s.output_root {
        Some(o) => seq!["  output: "@ + o@],
        None => Seq::empty(),
    }) + (match s.log_file {
        Some(l) => seq!["  log: "@ + l@],
        None => Seq::empty(),
    })
}

fn count_line(label: &str, n: usize) -> (r: String)
    ensures
        r@ == label@ + crate::text::decimal(n as nat),
{
    crate::text::concat(label, crate::text::usize_text(n).as_str())
}

/// Renders the text summary of a run, one line each.
pub fn render_raw_to_prompt_summary_text(summary: &RawToPromptSummary) -> (lines: Vec<String>)
    ensures
        crate::strset::views(lines@) == summary_text_lines(*summary),
{
    let mut lines: Vec<String> = vec![
        if summary.failed == 0 {
            owned("raw-to-prompt completed")
        } else {
            owned("raw-to-prompt completed with failures")
        },
        count_line("  scanned: ", summary.scanned),
        count_line("  converted: ", summary.converted),
        count_line("  failed: ", summary.failed),
        count_line("  exact: ", summary.exact),
        count_line("  inferred: ", summary.inferred),
        count_line("  unresolved: ", summary.unresolved),
    ];
    let ghost head = crate::strset::views(lines@);
    match &summary.output_root {
        Some(o) => lines.push(crate::text::concat("  output: ", o.as_str())),
        None => {},
    }
    let ghost mid = crate::strset::views(lines@);
    match &summary.log_file {
        Some(l) => lines.push(crate::text::concat("  log: ", l.as_str())),
        None => {},
    }
    proof {
        let o = match &summary.output_root {
            Some(o) => seq!["  output: "@ + o@],
            None => Seq::<Seq<char>>::empty(),
        };
        let l = match &summary.log_file {
            Some(l) => seq!["  log: "@ + l@],
            None => Seq::<Seq<char>>::empty(),
        };
        assert(mid =~= head + o);
        assert(crate::strset::views(lines@) =~= summary_text_lines(*summary));
    }
    lines
}

} // verus!
