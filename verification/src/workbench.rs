//! The browsable items of the inspection workbench: one item per
//! datasource of a governance document, with its facts as detail lines.
use vstd::prelude::*;

use crate::coverage::{DatasourceCoverageRow, DatasourceGovernanceRow};
use crate::governance_doc::ExportInspectionGovernanceDocument;
use crate::strset::views;
use crate::text::{decimal, join, owned, seq_lt};

verus! {

/// One item of a browsable list: its kind, title, one-line meta text and
/// detail lines.
#[derive(Debug)]
pub struct BrowserItem {
    pub kind: String,
    pub title: String,
    pub meta: String,
    pub details: Vec<String>,
}

pub ghost struct BrowserItemView {
    pub kind: Seq<char>,
    pub title: Seq<char>,
    pub meta: Seq<char>,
    pub details: Seq<Seq<char>>,
}

impl View for BrowserItem {
    type V = BrowserItemView;

    open spec fn view(&self) -> BrowserItemView {
        BrowserItemView { kind: self.kind@, title: self.title@, meta: self.meta@, details: views(self.details@) }
    }
}

/// `<label>: <value>`.
pub open spec fn fact_text(label: Seq<char>, value: Seq<char>) -> Seq<char> {
    label + ": "@ + value
}

/// Formats one detail line.
pub fn fact(label: &str, value: &str) -> (r: String)
    ensures
        r@ == fact_text(label@, value@),
{
    let mut t = owned(label);
    t.append(": ");
    t.append(value);
    t
}

/// Formats one detail line with a count.
pub fn fact_count(label: &str, value: usize) -> (r: String)
    ensures
        r@ == fact_text(label@, decimal(value as nat)),
{
    fact(label, crate::text::usize_text(value).as_str())
}

/// The values joined with `, `, or `(none)` for no values.
pub open spec fn joined_or_none(values: Seq<Seq<char>>) -> Seq<char> {
    if values.len() == 0 {
        "(none)"@
    } else {
        join(values, ", "@)
    }
}

/// Joins the values for display, or names their absence.
pub fn join_or_none(values: &[String]) -> (r: String)
    ensures
        r@ == joined_or_none(views(values@)),
{
    if values.len() == 0 {
        owned("(none)")
    } else {
        crate::text::join_strings(values, ", ")
    }
}

pub open spec fn yes_no_text(value: bool) -> Seq<char> {
    if value {
        "yes"@
    } else {
        "no"@
    }
}

/// `yes` or `no`.
pub fn yes_no(value: bool) -> (r: String)
    ensures
        r@ == yes_no_text(value),
{
    if value {
        owned("yes")
    } else {
        owned("no")
    }
}

pub open spec fn blank_or_text(value: Seq<char>, fallback: Seq<char>) -> Seq<char> {
    if value.len() == 0 {
        fallback
    } else {
        value
    }
}

/// The value, or the fallback where the value is empty.
pub fn blank_or(value: &str, fallback: &str) -> (r: String)
    ensures
        r@ == blank_or_text(value@, fallback@),
{
    if value.unicode_len() == 0 {
        owned(fallback)
    } else {
        owned(value)
    }
}

/// The usage item of a datasource.
pub open spec fn coverage_item(r: DatasourceCoverageRow) -> BrowserItemView {
    BrowserItemView {
        kind: "datasource-usage"@,
        title: blank_or_text(r.datasource@, "(unknown datasource)"@),
        meta: blank_or_text(r.family@, "unknown"@) + " uid="@ + blank_or_text(r.datasource_uid@, "-"@)
            + " queries="@ + decimal(r.query_count as nat) + " dashboards="@ + decimal(r.dashboard_count as nat),
        details: seq![
            fact_text("Datasource"@, blank_or_text(r.datasource@, "-"@)),
            fact_text("Datasource UID"@, blank_or_text(r.datasource_uid@, "-"@)),
            fact_text("Family"@, blank_or_text(r.family@, "-"@)),
            fact_text("Query Count"@, decimal(r.query_count as nat)),
            fact_text("Dashboard Count"@, decimal(r.dashboard_count as nat)),
            fact_text("Panel Count"@, decimal(r.panel_count as nat)),
            fact_text("Dashboard UIDs"@, joined_or_none(views(r.dashboard_uids@))),
            fact_text("Query Fields"@, joined_or_none(views(r.query_fields@))),
            fact_text("Orphaned"@, yes_no_text(r.orphaned)),
        ],
    }
}

/// The finding-coverage item of a datasource.
pub open spec fn governance_item(r: DatasourceGovernanceRow) -> BrowserItemView {
    BrowserItemView {
        kind: "datasource-finding-coverage"@,
        title: blank_or_text(r.datasource@, "(unknown datasource)"@),
        meta: blank_or_text(r.family@, "unknown"@) + " findings="@ + decimal(r.risk_count as nat) + " mixed="@
            + decimal(r.mixed_dashboard_count as nat) + " orphaned="@ + yes_no_text(r.orphaned),
        details: seq![
            fact_text("Datasource"@, blank_or_text(r.datasource@, "-"@)),
            fact_text("Datasource UID"@, blank_or_text(r.datasource_uid@, "-"@)),
            fact_text("Family"@, blank_or_text(r.family@, "-"@)),
            fact_text("Query Count"@, decimal(r.query_count as nat)),
            fact_text("Dashboard Count"@, decimal(r.dashboard_count as nat)),
            fact_text("Panel Count"@, decimal(r.panel_count as nat)),
            fact_text("Mixed Dashboard Count"@, decimal(r.mixed_dashboard_count as nat)),
            fact_text("Finding Count"@, decimal(r.risk_count as nat)),
            fact_text("Finding Kinds"@, joined_or_none(views(r.risk_kinds@))),
            fact_text("Dashboard UIDs"@, joined_or_none(views(r.dashboard_uids@))),
            fact_text("Orphaned"@, yes_no_text(r.orphaned)),
        ],
    }
}

/// Where a stable insertion by title places `x`.
pub open spec fn title_position(t: Seq<BrowserItemView>, x: BrowserItemView) -> int
    decreases t.len(),
{
    if t.len() == 0 {
        0
    } else if seq_lt(x.title, t[0].title) {
        0
    } else {
        1 + title_position(t.drop_first(), x)
    }
}

/// A stable sort of items by title.
pub open spec fn sort_by_title(s: Seq<BrowserItemView>) -> Seq<BrowserItemView>
    decreases s.len(),
{
    if s.len() == 0 {
        Seq::empty()
    } else {
        let t = sort_by_title(s.drop_last());
        t.insert(title_position(t, s.last()), s.last())
    }
}

pub open spec fn item_views(v: Seq<BrowserItem>) -> Seq<BrowserItemView> {
    v.map_values(|i: BrowserItem| i@)
}

fn insert_by_title(sorted: &mut Vec<BrowserItem>, item: BrowserItem)
    ensures
        item_views(final(sorted)@) == item_views(old(sorted)@).insert(
            title_position(item_views(old(sorted)@), item@),
            item@,
        ),
{
    let ghost t = item_views(sorted@);
    let mut pos: usize = 0;
    assert(t.skip(0) == t);
    while pos < sorted.len() && !crate::text::str_less(item.title.as_str(), sorted[pos].title.as_str())
        invariant
            pos <= sorted@.len(),
            t == item_views(sorted@),
            sorted@ == old(sorted)@,
            title_position(t, item@) == pos + title_position(t.skip(pos as int), item@),
        decreases sorted.len() - pos,
    {
        proof {
            assert(t.skip(pos as int).drop_first() == t.skip(pos + 1));
            assert(t.skip(pos as int)[0] == t[pos as int]);
        }
        pos = pos + 1;
    }
    proof {
        if pos < sorted@.len() {
            assert(t.skip(pos as int)[0] == t[pos as int]);
        } else {
            assert(t.skip(pos as int).len() == 0);
        }
    }
    sorted.insert(pos, item);
    proof {
        assert(item_views(sorted@) =~= t.insert(pos as int, item@));
    }
}

fn coverage_browser_item(r: &DatasourceCoverageRow) -> (i: BrowserItem)
    ensures
        i@ == coverage_item(*r),
{
    let mut meta = blank_or(r.family.as_str(), "unknown");
    meta.append(" uid=");
    meta.append(blank_or(r.datasource_uid.as_str(), "-").as_str());
    meta.append(" queries=");
    meta.append(crate::text::usize_text(r.query_count).as_str());
    meta.append(" dashboards=");
    meta.append(crate::text::usize_text(r.dashboard_count).as_str());
    let details = vec![
        fact("Datasource", blank_or(r.datasource.as_str(), "-").as_str()),
        fact("Datasource UID", blank_or(r.datasource_uid.as_str(), "-").as_str()),
        fact("Family", blank_or(r.family.as_str(), "-").as_str()),
        fact_count("Query Count", r.query_count),
        fact_count("Dashboard Count", r.dashboard_count),
        fact_count("Panel Count", r.panel_count),
        fact("Dashboard UIDs", join_or_none(r.dashboard_uids.as_slice()).as_str()),
        fact("Query Fields", join_or_none(r.query_fields.as_slice()).as_str()),
        fact("Orphaned", yes_no(r.orphaned).as_str()),
    ];
    let i = BrowserItem {
        kind: owned("datasource-usage"),
        title: blank_or(r.datasource.as_str(), "(unknown datasource)"),
        meta,
        details,
    };
    assert(i@.details =~= coverage_item(*r).details);
    i
}

fn governance_browser_item(r: &DatasourceGovernanceRow) -> (i: BrowserItem)
    ensures
        i@ == governance_item(*r),
{
    let mut meta = blank_or(r.family.as_str(), "unknown");
    meta.append(" findings=");
    meta.append(crate::text::usize_text(r.risk_count).as_str());
    meta.append(" mixed=");
    meta.append(crate::text::usize_text(r.mixed_dashboard_count).as_str());
    meta.append(" orphaned=");
    meta.append(yes_no(r.orphaned).as_str());
    let details = vec![
        fact("Datasource", blank_or(r.datasource.as_str(), "-").as_str()),
        fact("Datasource UID", blank_or(r.datasource_uid.as_str(), "-").as_str()),
        fact("Family", blank_or(r.family.as_str(), "-").as_str()),
        fact_count("Query Count", r.query_count),
        fact_count("Dashboard Count", r.dashboard_count),
        fact_count("Panel Count", r.panel_count),
        fact_count("Mixed Dashboard Count", r.mixed_dashboard_count),
        fact_count("Finding Count", r.risk_count),
        fact("Finding Kinds", join_or_none(r.risk_kinds.as_slice()).as_str()),
        fact("Dashboard UIDs", join_or_none(r.dashboard_uids.as_slice()).as_str()),
        fact("Orphaned", yes_no(r.orphaned).as_str()),
    ];
    let i = BrowserItem {
        kind: owned("datasource-finding-coverage"),
        title: blank_or(r.datasource.as_str(), "(unknown datasource)"),
        meta,
        details,
    };
    assert(i@.details =~= governance_item(*r).details);
    i
}

/// The usage items of a governance document's datasources, sorted by title.
pub fn build_datasource_coverage_items(governance: &ExportInspectionGovernanceDocument) -> (items: Vec<BrowserItem>)
    ensures
        item_views(items@) == sort_by_title(
            governance.datasources@.map_values(|r: DatasourceCoverageRow| coverage_item(r)),
        ),
{
    let ghost s = governance.datasources@.map_values(|r: DatasourceCoverageRow| coverage_item(r));
    let mut items: Vec<BrowserItem> = Vec::new();
    let mut i: usize = 0;
    while i < governance.datasources.len()
        invariant
            i <= governance.datasources@.len(),
            s == governance.datasources@.map_values(|r: DatasourceCoverageRow| coverage_item(r)),
            item_views(items@) == sort_by_title(s.take(i as int)),
        decreases governance.datasources.len() - i,
    {
        proof {
            assert(s.take(i + 1).drop_last() =~= s.take(i as int));
        }
        insert_by_title(&mut items, coverage_browser_item(&governance.datasources[i]));
        i = i + 1;
    }
    assert(s.take(governance.datasources@.len() as int) =~= s);
    items
}

/// The finding-coverage items of a governance document's datasources,
/// sorted by title.
pub fn build_datasource_governance_items(governance: &ExportInspectionGovernanceDocument) -> (items: Vec<BrowserItem>)
    ensures
        item_views(items@) == sort_by_title(
            governance.datasource_governance@.map_values(|r: DatasourceGovernanceRow| governance_item(r)),
        ),
{
    let ghost s = governance.datasource_governance@.map_values(|r: DatasourceGovernanceRow| governance_item(r));
    let mut items: Vec<BrowserItem> = Vec::new();
    let mut i: usize = 0;
    while i < governance.datasource_governance.len()
        invariant
            i <= governance.datasource_governance@.len(),
            s == governance.datasource_governance@.map_values(|r: DatasourceGovernanceRow| governance_item(r)),
            item_views(items@) == sort_by_title(s.take(i as int)),
        decreases governance.datasource_governance.len() - i,
    {
        proof {
            assert(s.take(i + 1).drop_last() =~= s.take(i as int));
        }
        insert_by_title(&mut items, governance_browser_item(&governance.datasource_governance[i]));
        i = i + 1;
    }
    assert(s.take(governance.datasource_governance@.len() as int) =~= s);
    items
}

} // verus!
verus! {

/// `s` padded on the left with spaces to `width` characters.
pub open spec fn pad_left(s: Seq<char>, width: nat) -> Seq<char> {
    if s.len() >= width {
        s
    } else {
        Seq::new((width - s.len()) as nat, |i: int| ' ') + s
    }
}

/// `{value:>width$}`: the value padded on the left to `width` characters.
pub fn pad_left_str(s: &str, width: usize) -> (r: String)
    ensures
        r@ == pad_left(s@, width as nat),
{
    let n = s.unicode_len();
    if n >= width {
        owned(s)
    } else {
        let mut r = crate::text::repeat_char(' ', width - n);
        r.append(s);
        proof {
            assert(r@ =~= pad_left(s@, width as nat));
        }
        r
    }
}

/// What a string's `to_uppercase` gives: the Unicode upper-case mapping of
/// each character.
pub uninterp spec fn unicode_uppercase(s: Seq<char>) -> Seq<char>;

/// Upper-cases a string.
///
/// Calls `str::to_uppercase`, whose result depends on the text alone; the
/// Unicode case tables it applies are not restated here, only named.
#[verifier::external_body]
fn to_uppercase(s: &str) -> (r: String)
    ensures
        r@ == unicode_uppercase(s@),
{
    s.to_uppercase()
}

/// The badge an item kind shows as.
pub open spec fn badge_label(kind: Seq<char>) -> Seq<char> {
    if kind == "dashboard-summary"@ {
        "DASHBOARD"@
    } else if kind == "dashboard-finding-summary"@ {
        "SUMMARY"@
    } else if kind == "query"@ {
        "QUERY"@
    } else if kind == "query-review"@ {
        "REVIEW"@
    } else if kind == "finding"@ {
        "FINDING"@
    } else if kind == "datasource-usage"@ {
        "DATASOURCE"@
    } else if kind == "datasource-finding-coverage"@ {
        "COVERAGE"@
    } else {
        unicode_uppercase(kind)
    }
}

/// Names the badge of an item kind.
pub fn item_badge_label(kind: &str) -> (r: String)
    ensures
        r@ == badge_label(kind@),
{
    if crate::text::str_is(kind, "dashboard-summary") {
        owned("DASHBOARD")
    } else if crate::text::str_is(kind, "dashboard-finding-summary") {
        owned("SUMMARY")
    } else if crate::text::str_is(kind, "query") {
        owned("QUERY")
    } else if crate::text::str_is(kind, "query-review") {
        owned("REVIEW")
    } else if crate::text::str_is(kind, "finding") {
        owned("FINDING")
    } else if crate::text::str_is(kind, "datasource-usage") {
        owned("DATASOURCE")
    } else if crate::text::str_is(kind, "datasource-finding-coverage") {
        owned("COVERAGE")
    } else {
        to_uppercase(kind)
    }
}

/// The list row of the item at `index`: its position from one, right
/// aligned, its badge, title and meta text.
pub open spec fn row_text(index: nat, item: BrowserItemView) -> Seq<char> {
    pad_left(decimal(index + 1), 2) + ". ["@ + badge_label(item.kind) + "] "@ + item.title + "  "@ + item.meta
}

/// Formats the list row of an item.
pub fn item_row_text(index: usize, item: &BrowserItem) -> (r: String)
    requires
        index < usize::MAX,
    ensures
        r@ == row_text(index as nat, item@),
{
    let n = crate::text::usize_text(index + 1);
    let mut r = pad_left_str(n.as_str(), 2);
    r.append(". [");
    r.append(item_badge_label(item.kind.as_str()).as_str());
    r.append("] ");
    r.append(item.title.as_str());
    r.append("  ");
    r.append(item.meta.as_str());
    r
}

/// The characters of `value` visible through a window of `width`
/// characters that starts `offset` characters in.
pub open spec fn visible_slice(value: Seq<char>, offset: nat, width: nat) -> Seq<char> {
    if width == 0 || offset >= value.len() {
        Seq::empty()
    } else if offset + width >= value.len() {
        value.skip(offset as int)
    } else {
        value.subrange(offset as int, (offset + width) as int)
    }
}

/// Cuts the visible part of a line.
pub fn slice_visible(value: &str, offset: usize, width: usize) -> (r: String)
    ensures
        r@ == visible_slice(value@, offset as nat, width as nat),
{
    let cs = crate::text::chars_of(value);
    let n = cs.len();
    if width == 0 || offset >= n {
        String::new()
    } else {
        let end = if width >= n - offset { n } else { offset + width };
        let part = crate::text::slice_chars(cs.as_slice(), offset, end);
        proof {
            if end == n {
                assert(cs@.subrange(offset as int, n as int) =~= cs@.skip(offset as int));
            }
        }
        crate::text::string_from_chars(part.as_slice())
    }
}

/// A count as a badge: right-aligned to two characters, `99+` above 99.
pub open spec fn compact_count(count: nat) -> Seq<char> {
    if count > 99 {
        "99+"@
    } else {
        pad_left(decimal(count), 2)
    }
}

/// Formats a count badge.
pub fn compact_count_label(count: usize) -> (r: String)
    ensures
        r@ == compact_count(count as nat),
{
    if count > 99 {
        owned("99+")
    } else {
        pad_left_str(crate::text::usize_text(count).as_str(), 2)
    }
}

/// A text cut into pieces of `width` characters, the last possibly
/// shorter; an empty text or a zero width gives the text itself.
pub open spec fn chunks_of(value: Seq<char>, width: nat) -> Seq<Seq<char>>
    decreases value.len(),
{
    if width == 0 || value.len() == 0 {
        seq![value]
    } else if value.len() <= width {
        seq![value]
    } else {
        seq![value.take(width as int)] + chunks_of(value.skip(width as int), width)
    }
}

/// Wraps a text into pieces of `width` characters.
pub fn wrap_text_chunks(value: &str, width: usize) -> (r: Vec<String>)
    ensures
        views(r@) == chunks_of(value@, width as nat),
{
    let cs = crate::text::chars_of(value);
    if width == 0 || cs.len() == 0 {
        let r = vec![owned(value)];
        assert(views(r@) =~= seq![value@]);
        return r;
    }
    let mut out: Vec<String> = Vec::new();
    let mut start: usize = 0;
    assert(cs@.skip(0) =~= cs@);
    assert(views(out@) =~= Seq::<Seq<char>>::empty());
    assert(views(out@) + chunks_of(cs@.skip(0), width as nat) =~= chunks_of(value@, width as nat));
    while cs.len() - start > width
        invariant
            start < cs@.len(),
            width > 0,
            cs@ == value@,
            views(out@) + chunks_of(cs@.skip(start as int), width as nat) == chunks_of(value@, width as nat),
        decreases cs.len() - start,
    {
        let ghost rest = cs@.skip(start as int);
        let part = crate::text::slice_chars(cs.as_slice(), start, start + width);
        let piece = crate::text::string_from_chars(part.as_slice());
        let ghost before = out@;
        out.push(piece);
        proof {
            before.lemma_push_map_commute(|s: String| s@, piece);
            assert(rest.take(width as int) =~= cs@.subrange(start as int, start + width));
            assert(rest.skip(width as int) =~= cs@.skip(start + width));
            assert(chunks_of(rest, width as nat) == seq![rest.take(width as int)] + chunks_of(rest.skip(width as int), width as nat));
            assert(views(out@) + chunks_of(cs@.skip(start + width), width as nat)
                =~= views(before) + chunks_of(rest, width as nat));
        }
        start = start + width;
    }
    let last = crate::text::slice_chars(cs.as_slice(), start, cs.len());
    let piece = crate::text::string_from_chars(last.as_slice());
    let ghost before = out@;
    out.push(piece);
    proof {
        before.lemma_push_map_commute(|s: String| s@, piece);
        let rest = cs@.skip(start as int);
        assert(rest =~= cs@.subrange(start as int, cs@.len() as int));
        assert(chunks_of(rest, width as nat) == seq![rest]);
        assert(views(out@) =~= views(before) + chunks_of(rest, width as nat));
    }
    out
}

/// Whether a folder path lies at or under the browse root.
pub open spec fn under_root(path: Seq<char>, root: Option<Seq<char>>) -> bool {
    match root {
        Some(r) => path == r || crate::text::starts_with(path, r + " / "@),
        None => true,
    }
}

/// Tells whether a folder path lies at or under the browse root.
pub fn matches_root_path(path: &str, root_path: Option<&str>) -> (b: bool)
    ensures
        b == under_root(path@, crate::import::opt_view(root_path)),
{
    match root_path {
        Some(root) => {
            let prefix = crate::text::concat(root, " / ");
            let pc = crate::text::chars_of(path);
            let xc = crate::text::chars_of(prefix.as_str());
            crate::text::str_is(path, root) || crate::text::starts_with_chars(pc.as_slice(), xc.as_slice())
        },
        None => true,
    }
}

} // verus!
