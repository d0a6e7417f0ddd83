//! Plain-text renderers: CSV lines and space-aligned tables.
use vstd::prelude::*;

use crate::strset::views;
use crate::text::{
    chars_of, contains_char, join, join_strings, owned, pad_right, pad_right_str, push_char,
    repeat_char,
};

verus! {

/// `"` written twice, every other character as it is.
pub open spec fn double_quotes(v: Seq<char>) -> Seq<char> {
    v.flat_map(|c: char| if c == '"' { seq!['"', '"'] } else { seq![c] })
}

/// A CSV cell: quoted, with doubled quotes, when it holds a comma, a quote
/// or a newline; as it is otherwise.
pub open spec fn csv_cell(v: Seq<char>) -> Seq<char> {
    if v.contains(',') || v.contains('"') || v.contains('\n') {
        seq!['"'] + double_quotes(v) + seq!['"']
    } else {
        v
    }
}

/// A CSV line of cells.
pub open spec fn csv_line(cells: Seq<Seq<char>>) -> Seq<char> {
    join(cells.map_values(|c: Seq<char>| csv_cell(c)), ","@)
}

/// The views of a list of rows of cells.
pub open spec fn table_views(rows: Seq<Vec<String>>) -> Seq<Seq<Seq<char>>> {
    rows.map_values(|r: Vec<String>| views(r@))
}

/// One CSV cell.
pub fn escape_csv(value: &str) -> (out: String)
    ensures
        out@ == csv_cell(value@),
{
    let cs = chars_of(value);
    if contains_char(cs.as_slice(), ',') || contains_char(cs.as_slice(), '"') || contains_char(
        cs.as_slice(),
        '\n',
    ) {
        let mut out = String::new();
        push_char(&mut out, '"');
        let mut i: usize = 0;
        while i < cs.len()
            invariant
                i <= cs.len(),
                out@ == seq!['"'] + double_quotes(cs@.take(i as int)),
            decreases cs.len() - i,
        {
            let c = cs[i];
            proof {
                let f = |c: char| if c == '"' { seq!['"', '"'] } else { seq![c] };
                cs@.take(i as int).lemma_flat_map_push(f, c);
                assert(cs@.take(i + 1) == cs@.take(i as int).push(c));
            }
            if c == '"' {
                push_char(&mut out, '"');
                push_char(&mut out, '"');
            } else {
                push_char(&mut out, c);
            }
            i = i + 1;
        }
        assert(cs@.take(cs.len() as int) == cs@);
        push_char(&mut out, '"');
        out
    } else {
        owned(value)
    }
}

/// One CSV line.
pub fn csv_row(cells: &[String]) -> (line: String)
    ensures
        line@ == csv_line(views(cells@)),
{
    let mut escaped: Vec<String> = Vec::new();
    let mut i: usize = 0;
    while i < cells.len()
        invariant
            i <= cells.len(),
            views(escaped@) == views(cells@).take(i as int).map_values(|c: Seq<char>| csv_cell(c)),
        decreases cells.len() - i,
    {
        let ghost before = escaped@;
        let e = escape_csv(cells[i].as_str());
        escaped.push(e);
        proof {
            before.lemma_push_map_commute(|s: String| s@, e);
            let t = views(cells@).take(i as int);
            t.lemma_push_map_commute(|c: Seq<char>| csv_cell(c), views(cells@)[i as int]);
            assert(views(cells@).take(i + 1) == t.push(views(cells@)[i as int]));
        }
        i = i + 1;
    }
    assert(views(cells@).take(cells.len() as int) == views(cells@));
    join_strings(escaped.as_slice(), ",")
}

/// CSV output: the header line, then one line per row.
pub fn render_csv(headers: &[String], rows: &[Vec<String>]) -> (lines: Vec<String>)
    ensures
        lines@.len() == rows@.len() + 1,
        lines@[0]@ == csv_line(views(headers@)),
        forall|i: int| 0 <= i < rows@.len() ==> #[trigger] lines@[i + 1]@ == csv_line(
            views(rows@[i]@),
        ),
{
    let mut lines: Vec<String> = Vec::new();
    lines.push(csv_row(headers));
    let mut i: usize = 0;
    while i < rows.len()
        invariant
            i <= rows.len(),
            lines@.len() == i + 1,
            lines@[0]@ == csv_line(views(headers@)),
            forall|k: int| 0 <= k < i ==> #[trigger] lines@[k + 1]@ == csv_line(views(rows@[k]@)),
        decreases rows.len() - i,
    {
        lines.push(csv_row(rows[i].as_slice()));
        i = i + 1;
    }
    lines
}

/// The number of bytes of the UTF-8 encoding of `s`, which `str::len`
/// returns (a string held in memory always has fewer than `usize::MAX`
/// bytes, so the conversion below loses nothing).
pub open spec fn byte_len(s: Seq<char>) -> nat {
    (vstd::utf8::encode_utf8(s).len() as usize) as nat
}

/// Column widths after widening `w` to fit the cells of one more row.
pub open spec fn widen(w: Seq<nat>, row: Seq<Seq<char>>) -> Seq<nat> {
    Seq::new(
        if w.len() >= row.len() { w.len() } else { row.len() },
        |k: int|
            if k < w.len() && k < row.len() {
                if w[k] >= byte_len(row[k]) { w[k] } else { byte_len(row[k]) }
            } else if k < w.len() {
                w[k]
            } else {
                byte_len(row[k])
            },
    )
}

/// The width of each column: the longest of its header and its cells, in
/// bytes.
pub open spec fn column_widths(headers: Seq<Seq<char>>, rows: Seq<Seq<Seq<char>>>) -> Seq<nat>
    decreases rows.len(),
{
    if rows.len() == 0 {
        headers.map_values(|h: Seq<char>| byte_len(h))
    } else {
        widen(column_widths(headers, rows.drop_last()), rows.last())
    }
}

/// One table line: each cell padded to its column's width, two spaces
/// between cells.
pub open spec fn table_line(cells: Seq<Seq<char>>, widths: Seq<nat>) -> Seq<char> {
    join(Seq::new(cells.len(), |i: int| pad_right(cells[i], widths[i])), "  "@)
}

/// The lines of a table: the header and a divider of dashes when asked
/// for, then one line per row.
pub open spec fn table_lines(
    headers: Seq<Seq<char>>,
    rows: Seq<Seq<Seq<char>>>,
    include_header: bool,
) -> Seq<Seq<char>> {
    let w = column_widths(headers, rows);
    let body = Seq::new(rows.len(), |i: int| table_line(rows[i], w));
    if include_header {
        seq![
            table_line(headers, w),
            table_line(Seq::new(w.len(), |k: int| Seq::new(w[k], |j: int| '-')), w),
        ] + body
    } else {
        body
    }
}

proof fn lemma_widths_cover(headers: Seq<Seq<char>>, rows: Seq<Seq<Seq<char>>>)
    ensures
        column_widths(headers, rows).len() >= headers.len(),
        forall|i: int| 0 <= i < rows.len() ==> column_widths(headers, rows).len() >= (
        #[trigger] rows[i]).len(),
    decreases rows.len(),
{
    if rows.len() > 0 {
        lemma_widths_cover(headers, rows.drop_last());
        assert forall|i: int| 0 <= i < rows.len() implies column_widths(headers, rows).len() >= (
        #[trigger] rows[i]).len() by {
            if i < rows.len() - 1 {
                assert(rows.drop_last()[i] == rows[i]);
            }
        }
    }
}

/// One padded table line.
fn format_row(values: &[String], widths: &Vec<usize>) -> (line: String)
    requires
        values@.len() <= widths@.len(),
    ensures
        line@ == table_line(views(values@), widths@.map_values(|w: usize| w as nat)),
{
    let ghost ws = widths@.map_values(|w: usize| w as nat);
    let ghost cells = views(values@);
    let mut padded: Vec<String> = Vec::new();
    let mut i: usize = 0;
    while i < values.len()
        invariant
            i <= values.len() <= widths.len(),
            ws == widths@.map_values(|w: usize| w as nat),
            cells == views(values@),
            views(padded@) == Seq::new(i as nat, |k: int| pad_right(cells[k], ws[k])),
        decreases values.len() - i,
    {
        let p = pad_right_str(values[i].as_str(), widths[i]);
        let ghost before = padded@;
        padded.push(p);
        proof {
            before.lemma_push_map_commute(|s: String| s@, p);
            assert(views(padded@) =~= Seq::new((i + 1) as nat, |k: int| pad_right(cells[k], ws[k])));
        }
        i = i + 1;
    }
    join_strings(padded.as_slice(), "  ")
}

/// A space-aligned table, with a header and a divider when asked for.
pub fn render_simple_table(headers: &[String], rows: &[Vec<String>], include_header: bool) -> (lines:
    Vec<String>)
    ensures
        views(lines@) == table_lines(views(headers@), table_views(rows@), include_header),
{
    let ghost hv = views(headers@);
    let ghost tv = table_views(rows@);
    let mut widths: Vec<usize> = Vec::new();
    let mut h: usize = 0;
    while h < headers.len()
        invariant
            h <= headers.len(),
            hv == views(headers@),
            widths@.map_values(|w: usize| w as nat) == hv.take(h as int).map_values(
                |s: Seq<char>| byte_len(s),
            ),
        decreases headers.len() - h,
    {
        let n = headers[h].as_str().len();
        assert(n as nat == byte_len(hv[h as int]));
        let ghost before = widths@;
        widths.push(n);
        proof {
            before.lemma_push_map_commute(|w: usize| w as nat, n);
            hv.take(h as int).lemma_push_map_commute(|s: Seq<char>| byte_len(s), hv[h as int]);
            assert(hv.take(h + 1) == hv.take(h as int).push(hv[h as int]));
        }
        h = h + 1;
    }
    assert(hv.take(headers.len() as int) == hv);
    assert(tv.take(0) =~= Seq::<Seq<Seq<char>>>::empty());
    let mut r: usize = 0;
    while r < rows.len()
        invariant
            r <= rows.len(),
            hv == views(headers@),
            tv == table_views(rows@),
            widths@.map_values(|w: usize| w as nat) == column_widths(hv, tv.take(r as int)),
        decreases rows.len() - r,
    {
        let row = &rows[r];
        let ghost w0 = widths@.map_values(|w: usize| w as nat);
        let ghost rv = tv[r as int];
        let mut k: usize = 0;
        while k < row.len()
            invariant
                k <= row.len(),
                rv == views(row@),
                widths@.len() == (if w0.len() >= k { w0.len() } else { k as nat }),
                forall|j: int| 0 <= j < widths@.len() ==> (widths@[j] as nat) == (if j < k {
                    widen(w0, rv)[j]
                } else {
                    w0[j]
                }),
            decreases row.len() - k,
        {
            let n = row[k].as_str().len();
            assert(n as nat == byte_len(rv[k as int]));
            if k >= widths.len() {
                widths.push(n);
            } else if widths[k] < n {
                widths.set(k, n);
            }
            k = k + 1;
        }
        proof {
            assert(tv.take(r + 1).drop_last() == tv.take(r as int));
            assert(tv.take(r + 1).last() == rv);
            assert(widths@.map_values(|w: usize| w as nat) =~= widen(w0, rv));
        }
        r = r + 1;
    }
    assert(tv.take(rows.len() as int) == tv);
    let ghost w = column_widths(hv, tv);
    proof {
        lemma_widths_cover(hv, tv);
    }
    let mut lines: Vec<String> = Vec::new();
    if include_header {
        lines.push(format_row(headers, &widths));
        let mut divider: Vec<String> = Vec::new();
        let mut k: usize = 0;
        while k < widths.len()
            invariant
                k <= widths.len(),
                w == widths@.map_values(|x: usize| x as nat),
                views(divider@) == Seq::new(k as nat, |j: int| Seq::new(w[j], |q: int| '-')),
            decreases widths.len() - k,
        {
            let d = repeat_char('-', widths[k]);
            let ghost before = divider@;
            divider.push(d);
            proof {
                before.lemma_push_map_commute(|s: String| s@, d);
                assert(views(divider@) =~= Seq::new((k + 1) as nat, |j: int| Seq::new(w[j], |q: int| '-')));
            }
            k = k + 1;
        }
        lines.push(format_row(divider.as_slice(), &widths));
    }
    let ghost start = views(lines@);
    let mut r: usize = 0;
    while r < rows.len()
        invariant
            r <= rows.len(),
            tv == table_views(rows@),
            w == widths@.map_values(|x: usize| x as nat),
            w.len() >= hv.len(),
            forall|i: int| 0 <= i < tv.len() ==> w.len() >= (#[trigger] tv[i]).len(),
            views(lines@) == start + Seq::new(r as nat, |i: int| table_line(tv[i], w)),
        decreases rows.len() - r,
    {
        assert(tv[r as int] == views(rows@[r as int]@));
        let line = format_row(rows[r].as_slice(), &widths);
        let ghost before = lines@;
        lines.push(line);
        proof {
            before.lemma_push_map_commute(|s: String| s@, line);
            assert(views(lines@) =~= start + Seq::new((r + 1) as nat, |i: int| table_line(tv[i], w)));
        }
        r = r + 1;
    }
    proof {
        if include_header {
            assert(views(lines@) =~= table_lines(hv, tv, include_header));
        } else {
            assert(views(lines@) =~= table_lines(hv, tv, include_header));
        }
    }
    lines
}


} // verus!
