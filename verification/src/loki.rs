//! Loki stream selectors: finding `{…}` selectors outside quoted strings in a
//! query, splitting them into matchers, and telling whether a selector only
//! matches streams by wildcard regular expressions.
use vstd::prelude::*;

use crate::text::{
    chars_of, contains_seq, ends_with, is_blank, owned, seq_eq, slice_chars, starts_with,
    string_from_chars, trim, trim_chars,
};

verus! {

/// The state of the selector scan after some characters of a query.
pub ghost struct SelectorScan {
    pub in_quotes: bool,
    pub escaped: bool,
    pub start: Option<int>,
    pub values: Seq<Seq<char>>,
}

/// One character of the selector scan: a backslash inside quotes escapes
/// the next character, quotes toggle quoting, and outside quotes `{` opens
/// a selector that the next `}` closes; each selector is kept once.
pub open spec fn selector_step(st: SelectorScan, s: Seq<char>, i: int) -> SelectorScan {
    let c = s[i];
    if st.escaped {
        SelectorScan { escaped: false, ..st }
    } else if c == '\\' && st.in_quotes {
        SelectorScan { escaped: true, ..st }
    } else if c == '"' {
        SelectorScan { in_quotes: !st.in_quotes, ..st }
    } else if c == '{' && !st.in_quotes {
        SelectorScan { start: Some(i), ..st }
    } else if c == '}' && !st.in_quotes {
        match st.start {
            Some(b) => {
                let sel = s.subrange(b, i + 1);
                SelectorScan {
                    start: None,
                    values: if st.values.contains(sel) {
                        st.values
                    } else {
                        st.values.push(sel)
                    },
                    ..st
                }
            },
            None => st,
        }
    } else {
        st
    }
}

/// The selector scan after the first `n` characters of `s`.
pub open spec fn selector_scan(s: Seq<char>, n: int) -> SelectorScan
    decreases n,
{
    if n <= 0 {
        SelectorScan { in_quotes: false, escaped: false, start: None, values: Seq::empty() }
    } else {
        selector_step(selector_scan(s, n - 1), s, n - 1)
    }
}

/// The stream selectors of a query, each once, in first-seen order.
pub open spec fn stream_selectors(s: Seq<char>) -> Seq<Seq<char>> {
    selector_scan(s, s.len() as int).values
}

fn string_in(v: &Vec<String>, x: &Vec<char>) -> (r: bool)
    ensures
        r == crate::strset::views(v@).contains(x@),
{
    let mut i: usize = 0;
    while i < v.len()
        invariant
            i <= v.len(),
            forall|k: int| 0 <= k < i ==> crate::strset::views(v@)[k] != x@,
        decreases v.len() - i,
    {
        let c = chars_of(v[i].as_str());
        if seq_eq(c.as_slice(), x.as_slice()) {
            assert(crate::strset::views(v@)[i as int] == x@);
            return true;
        }
        i = i + 1;
    }
    false
}

/// The `{…}` stream selectors of a Loki query, outside quoted strings.
pub fn extract_loki_stream_selectors(query_text: &str) -> (out: Vec<String>)
    ensures
        crate::strset::views(out@) == stream_selectors(query_text@),
{
    let s = chars_of(query_text);
    let mut values: Vec<String> = Vec::new();
    let mut in_quotes = false;
    let mut escaped = false;
    let mut capture_start: Option<usize> = None;
    let mut i: usize = 0;
    while i < s.len()
        invariant
            i <= s.len(),
            s@ == query_text@,
            ({
                let st = selector_scan(s@, i as int);
                &&& st.in_quotes == in_quotes
                &&& st.escaped == escaped
                &&& st.values == crate::strset::views(values@)
                &&& match capture_start {
                    Some(b) => st.start == Some(b as int) && b < i,
                    None => st.start is None,
                }
            }),
        decreases s.len() - i,
    {
        let c = s[i];
        let ghost st = selector_scan(s@, i as int);
        if escaped {
            escaped = false;
        } else if c == '\\' && in_quotes {
            escaped = true;
        } else if c == '"' {
            in_quotes = !in_quotes;
        } else if c == '{' && !in_quotes {
            capture_start = Some(i);
        } else if c == '}' && !in_quotes {
            match capture_start {
                Some(b) => {
                    let sel = slice_chars(s.as_slice(), b, i + 1);
                    if !string_in(&values, &sel) {
                        let ghost before = values@;
                        let v = string_from_chars(sel.as_slice());
                        values.push(v);
                        proof {
                            before.lemma_push_map_commute(|x: String| x@, v);
                        }
                    }
                    capture_start = None;
                },
                None => {},
            }
        }
        i = i + 1;
    }
    values
}

/// The state of splitting a selector body at commas outside quotes.
pub ghost struct SplitScan {
    pub start: int,
    pub in_quotes: bool,
    pub escaped: bool,
    pub matchers: Seq<Seq<char>>,
}

pub open spec fn split_step(st: SplitScan, s: Seq<char>, i: int) -> SplitScan {
    let c = s[i];
    if st.escaped {
        SplitScan { escaped: false, ..st }
    } else if c == '\\' && st.in_quotes {
        SplitScan { escaped: true, ..st }
    } else if c == '"' {
        SplitScan { in_quotes: !st.in_quotes, ..st }
    } else if c == ',' && !st.in_quotes {
        SplitScan { start: i + 1, matchers: st.matchers.push(trim(s.subrange(st.start, i))), ..st }
    } else {
        st
    }
}

pub open spec fn split_scan(s: Seq<char>, n: int) -> SplitScan
    decreases n,
{
    if n <= 0 {
        SplitScan { start: 0, in_quotes: false, escaped: false, matchers: Seq::empty() }
    } else {
        split_step(split_scan(s, n - 1), s, n - 1)
    }
}

/// The trimmed matchers of a selector body, split at commas outside quotes.
pub open spec fn selector_matchers(s: Seq<char>) -> Seq<Seq<char>> {
    let st = split_scan(s, s.len() as int);
    st.matchers.push(trim(s.subrange(st.start, s.len() as int)))
}

proof fn lemma_split_start(s: Seq<char>, n: int)
    requires
        0 <= n <= s.len(),
    ensures
        0 <= split_scan(s, n).start <= n,
    decreases n,
{
    if n > 0 {
        lemma_split_start(s, n - 1);
    }
}

/// Splits a selector body into trimmed matchers at commas outside quotes.
pub fn split_loki_selector_matchers(selector: &[char]) -> (out: Vec<Vec<char>>)
    ensures
        out@.map_values(|m: Vec<char>| m@) == selector_matchers(selector@),
{
    let mut matchers: Vec<Vec<char>> = Vec::new();
    let mut start: usize = 0;
    let mut in_quotes = false;
    let mut escaped = false;
    let mut i: usize = 0;
    while i < selector.len()
        invariant
            i <= selector.len(),
            ({
                let st = split_scan(selector@, i as int);
                &&& st.in_quotes == in_quotes
                &&& st.escaped == escaped
                &&& st.start == start as int
                &&& st.matchers == matchers@.map_values(|m: Vec<char>| m@)
            }),
            start <= i,
        decreases selector.len() - i,
    {
        let c = selector[i];
        if escaped {
            escaped = false;
        } else if c == '\\' && in_quotes {
            escaped = true;
        } else if c == '"' {
            in_quotes = !in_quotes;
        } else if c == ',' && !in_quotes {
            let piece = slice_chars(selector, start, i);
            let t = trim_chars(piece.as_slice());
            let ghost before = matchers@;
            matchers.push(t);
            proof {
                before.lemma_push_map_commute(|m: Vec<char>| m@, t);
            }
            start = i + 1;
        }
        i = i + 1;
    }
    let piece = slice_chars(selector, start, selector.len());
    let t = trim_chars(piece.as_slice());
    let ghost before = matchers@;
    matchers.push(t);
    proof {
        before.lemma_push_map_commute(|m: Vec<char>| m@, t);
    }
    matchers
}

/// A matcher value that matches anything: `.*`, `^.*$`, `.+` or `^.+$`,
/// quoted or not.
pub open spec fn regex_is_wildcard(value: Seq<char>) -> bool {
    let t = trim(value);
    let unquoted = if starts_with(t, "\""@) && ends_with(t.skip(1), "\""@) {
        t.skip(1).drop_last()
    } else {
        t
    };
    let u = trim(unquoted);
    u == ".*"@ || u == "^.*$"@ || u == ".+"@ || u == "^.+$"@
}

/// Whether a regular-expression matcher value matches anything.
pub fn loki_regex_is_wildcard(value: &[char]) -> (b: bool)
    ensures
        b == regex_is_wildcard(value@),
{
    proof {
        reveal_strlit("\"");
    }
    let t = trim_chars(value);
    let unquoted = if t.len() >= 2 && t[0] == '"' && t[t.len() - 1] == '"' {
        let u = slice_chars(t.as_slice(), 1, t.len() - 1);
        assert(u@ == t@.skip(1).drop_last());
        u
    } else {
        slice_chars(t.as_slice(), 0, t.len())
    };
    if !(t.len() >= 2 && t[0] == '"' && t[t.len() - 1] == '"') {
        assert(unquoted@ == t@);
        proof {
            if starts_with(t@, "\""@) && ends_with(t@.skip(1), "\""@) {
                assert(t@.take(1)[0] == t@[0]);
                assert(t@.skip(1).skip(t@.skip(1).len() - 1)[0] == t@[t@.len() - 1]);
            }
        }
    }
    proof {
        if t.len() >= 2 && t@[0] == '"' && t@[t@.len() - 1] == '"' {
            assert(t@.take(1) =~= "\""@);
            assert(t@.skip(1).skip(t@.skip(1).len() - 1) =~= "\""@);
        }
    }
    let u = trim_chars(unquoted.as_slice());
    crate::report::chars_are(u.as_slice(), ".*") || crate::report::chars_are(u.as_slice(), "^.*$")
        || crate::report::chars_are(u.as_slice(), ".+") || crate::report::chars_are(
        u.as_slice(),
        "^.+$",
    )
}

/// `p` occurs in `s` at index `i`.
pub open spec fn occurs_at(s: Seq<char>, p: Seq<char>, i: int) -> bool {
    0 <= i && i + p.len() <= s.len() && s.subrange(i, i + p.len()) == p
}

/// The first index at which `p` occurs in `s`.
pub open spec fn first_occurrence(s: Seq<char>, p: Seq<char>) -> int {
    choose|i: int| occurs_at(s, p, i) && forall|j: int| 0 <= j < i ==> !occurs_at(s, p, j)
}

/// The first index at which `p` occurs in `s`, if any.
pub fn find_chars(s: &[char], p: &[char]) -> (r: Option<usize>)
    ensures
        match r {
            Some(i) => occurs_at(s@, p@, i as int) && forall|j: int| 0 <= j < i ==> !occurs_at(
                s@,
                p@,
                j,
            ),
            None => forall|j: int| !occurs_at(s@, p@, j),
        },
{
    if p.len() > s.len() {
        return None;
    }
    let last = s.len() - p.len();
    let mut i: usize = 0;
    loop
        invariant
            i <= last,
            last + p.len() == s.len(),
            forall|j: int| 0 <= j < i ==> !occurs_at(s@, p@, j),
        decreases last - i,
    {
        let piece = slice_chars(s, i, i + p.len());
        if seq_eq(piece.as_slice(), p) {
            return Some(i);
        }
        if i == last {
            return None;
        }
        i = i + 1;
    }
}

/// A matcher of a broad selector: a regular-expression match whose value
/// matches anything.
pub open spec fn wildcard_matcher(m: Seq<char>) -> bool {
    contains_seq(m, "=~"@) && regex_is_wildcard(m.skip(first_occurrence(m, "=~"@) + 2))
}

/// A selector that selects streams only by wildcard regular expressions, or
/// by nothing at all.
pub open spec fn selector_is_broad(selector: Seq<char>) -> bool {
    let t = trim(selector);
    if !(starts_with(t, "{"@) && ends_with(t.skip(1), "}"@)) {
        false
    } else {
        let inner = t.skip(1).drop_last();
        if trim(inner).len() == 0 {
            true
        } else {
            let ms = selector_matchers(inner).filter(|m: Seq<char>| trim(m).len() > 0);
            ms.len() > 0 && forall|k: int| 0 <= k < ms.len() ==> wildcard_matcher(trim(#[trigger] ms[k]))
        }
    }
}

/// Whether a stream selector is broad.
#[verifier::loop_isolation(false)]
pub fn loki_selector_is_broad(selector: &str) -> (b: bool)
    ensures
        b == selector_is_broad(selector@),
{
    proof {
        reveal_strlit("{");
        reveal_strlit("}");
        reveal_strlit("=~");
    }
    let cs = chars_of(selector);
    let t = trim_chars(cs.as_slice());
    if !(t.len() >= 2 && t[0] == '{' && t[t.len() - 1] == '}') {
        proof {
            if starts_with(t@, "{"@) && ends_with(t@.skip(1), "}"@) {
                assert(t@.take(1)[0] == t@[0]);
                assert(t@.skip(1).skip(t@.skip(1).len() - 1)[0] == t@[t@.len() - 1]);
            }
        }
        return false;
    }
    proof {
        assert(t@.take(1) =~= "{"@);
        assert(t@.skip(1).skip(t@.skip(1).len() - 1) =~= "}"@);
    }
    let inner = slice_chars(t.as_slice(), 1, t.len() - 1);
    assert(inner@ == t@.skip(1).drop_last());
    let inner_trim = trim_chars(inner.as_slice());
    if inner_trim.len() == 0 {
        return true;
    }
    let matchers = split_loki_selector_matchers(inner.as_slice());
    let ghost all = matchers@.map_values(|m: Vec<char>| m@);
    let ghost pred = |m: Seq<char>| trim(m).len() > 0;
    let eq_tilde = chars_of("=~");
    let mut saw_matcher = false;
    let mut k: usize = 0;
    while k < matchers.len()
        invariant
            k <= matchers.len(),
            all == matchers@.map_values(|m: Vec<char>| m@),
            pred == (|m: Seq<char>| trim(m).len() > 0),
            eq_tilde@ == "=~"@,
            saw_matcher == (all.take(k as int).filter(pred).len() > 0),
            forall|q: int| 0 <= q < all.take(k as int).filter(pred).len() ==> wildcard_matcher(
                trim(#[trigger] all.take(k as int).filter(pred)[q]),
            ),
        decreases matchers.len() - k,
    {
        let m = trim_chars(matchers[k].as_slice());
        proof {
            reveal_strlit("=~");
            assert(all.take(k + 1) == all.take(k as int).push(all[k as int]));
            all.take(k as int).lemma_filter_push(all[k as int], pred);
        }
        if m.len() == 0 {
            k = k + 1;
            continue;
        }
        saw_matcher = true;
        let ok = match find_chars(m.as_slice(), eq_tilde.as_slice()) {
            Some(pos) => {
                proof {
                    assert(first_occurrence(m@, "=~"@) == pos as int) by {
                        let f = first_occurrence(m@, "=~"@);
                        assert(occurs_at(m@, "=~"@, pos as int));
                        assert(occurs_at(m@, "=~"@, f));
                        if f < pos {
                        } else if f > pos {
                        }
                    }
                    assert(contains_seq(m@, "=~"@)) by {
                        assert(m@.subrange(pos as int, pos + 2) == "=~"@);
                    }
                }
                let value = slice_chars(m.as_slice(), pos + 2, m.len());
                assert(value@ == m@.skip(pos + 2));
                loki_regex_is_wildcard(value.as_slice())
            },
            None => {
                proof {
                    if contains_seq(m@, "=~"@) {
                        let i = choose|i: int| 0 <= i && i + 2 <= m@.len() && #[trigger] m@.subrange(i, i + 2) == "=~"@;
                        assert(occurs_at(m@, "=~"@, i));
                    }
                }
                false
            },
        };
        if !ok {
            proof {
                let ms = selector_matchers(inner@).filter(pred);
                assert(all == selector_matchers(inner@));
                assert(all == all.take(k + 1) + all.skip(k + 1));
                Seq::filter_distributes_over_add(all.take(k + 1), all.skip(k + 1), pred);
                let idx = all.take(k as int).filter(pred).len() as int;
                assert(ms[idx] == all[k as int]);
                assert(!wildcard_matcher(trim(ms[idx])));
            }
            return false;
        }
        k = k + 1;
    }
    proof {
        assert(all.take(matchers.len() as int) == all);
        assert(all == selector_matchers(inner@));
    }
    saw_matcher
}

/// The first stream selector of a query that is broad.
pub open spec fn first_broad_selector(query: Seq<char>) -> Option<Seq<char>> {
    let broad = stream_selectors(query).filter(|s: Seq<char>| selector_is_broad(s));
    if broad.len() > 0 {
        Some(broad[0])
    } else {
        None
    }
}

/// The first broad stream selector of a Loki query.
pub fn find_broad_loki_selector(query_text: &str) -> (r: Option<String>)
    ensures
        match (r, first_broad_selector(query_text@)) {
            (Some(s), Some(t)) => s@ == t,
            (None, None) => true,
            _ => false,
        },
{
    let selectors = extract_loki_stream_selectors(query_text);
    let ghost all = crate::strset::views(selectors@);
    let ghost pred = |s: Seq<char>| selector_is_broad(s);
    let mut i: usize = 0;
    while i < selectors.len()
        invariant
            i <= selectors.len(),
            all == crate::strset::views(selectors@),
            all == stream_selectors(query_text@),
            pred == (|s: Seq<char>| selector_is_broad(s)),
            all.take(i as int).filter(pred).len() == 0,
        decreases selectors.len() - i,
    {
        proof {
            assert(all.take(i + 1) == all.take(i as int).push(all[i as int]));
            all.take(i as int).lemma_filter_push(all[i as int], pred);
        }
        if loki_selector_is_broad(selectors[i].as_str()) {
            proof {
                assert(all == all.take(i + 1) + all.skip(i + 1));
                Seq::filter_distributes_over_add(all.take(i + 1), all.skip(i + 1), pred);
            }
            return Some(selectors[i].clone());
        }
        i = i + 1;
    }
    assert(all.take(selectors.len() as int) == all);
    None
}

} // verus!
