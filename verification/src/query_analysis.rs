//! The names a query text mentions: metrics, measurements and buckets,
//! found with the `regex` crate and sorted into sets.
use vstd::prelude::*;

use crate::dashboard_fields::{string_list_field, string_list_of};
use crate::json::{get_str, str_field, Json, JsonValue};
use crate::strset::{lists, set_insert, sorted_strict, union_into, views};
use crate::text::{char_is_ws, chars_of, is_blank_str, trim_str, lemma_trim_start_skip, owned, str_is, trim, trim_start};

verus! {

/// What `regex` finds for `pattern` in `haystack` with `captures_iter`: for
/// each successive match, the text of its first capture group where that
/// group took part; `None` where the pattern does not compile.
pub uninterp spec fn regex_captures(pattern: Seq<char>, haystack: Seq<char>) -> Option<Seq<Option<Seq<char>>>>;

/// What `regex` finds for `pattern` in `haystack` with `find_iter`: for
/// each successive match, the text before it, the matched text and the text
/// after it; `None` where the pattern does not compile.
pub uninterp spec fn regex_matches(pattern: Seq<char>, haystack: Seq<char>) -> Option<
    Seq<(Seq<char>, Seq<char>, Seq<char>)>,
>;

pub open spec fn opt_view(o: Option<String>) -> Option<Seq<char>> {
    match o {
        Some(s) => Some(s@),
        None => None,
    }
}

/// Compiles `pattern` with `regex::Regex::new` and collects, with
/// `Regex::captures_iter` over `haystack`, the first capture group of each
/// match (`Captures::get(1)`, `Match::as_str`). The contract only names the
/// result: that it is what `regex` gives for these two strings, and `None`
/// exactly where `Regex::new` fails. What `regex` matches is not stated.
#[verifier::external_body]
fn regex_group1_captures(pattern: &str, haystack: &str) -> (r: Option<Vec<Option<String>>>)
    ensures
        match r {
            Some(v) => regex_captures(pattern@, haystack@) == Some(v@.map_values(|o: Option<String>| opt_view(o))),
            None => regex_captures(pattern@, haystack@) is None,
        },
{
    match regex::Regex::new(pattern) {
        Ok(re) => Some(re.captures_iter(haystack).map(|c| c.get(1).map(|m| m.as_str().to_string())).collect()),
        Err(_) => None,
    }
}

/// Compiles `pattern` with `regex::Regex::new` and lists, with
/// `Regex::find_iter` over `haystack`, each match as the haystack before
/// it, the matched text (`Match::as_str`) and the haystack after it (sliced
/// at `Match::start` and `Match::end`). The contract only names the result,
/// and `None` exactly where `Regex::new` fails. What `regex` matches is not
/// stated.
#[verifier::external_body]
fn regex_find_parts(pattern: &str, haystack: &str) -> (r: Option<Vec<(String, String, String)>>)
    ensures
        match r {
            Some(v) => regex_matches(pattern@, haystack@) == Some(
                v@.map_values(|t: (String, String, String)| (t.0@, t.1@, t.2@)),
            ),
            None => regex_matches(pattern@, haystack@) is None,
        },
{
    match regex::Regex::new(pattern) {
        Ok(re) => Some(
            re.find_iter(haystack).map(
                |m| (haystack[..m.start()].to_string(), m.as_str().to_string(), haystack[m.end()..].to_string()),
            ).collect(),
        ),
        Err(_) => None,
    }
}

/// The captured texts, trimmed, that are not blank.
pub open spec fn captured_values(caps: Option<Seq<Option<Seq<char>>>>) -> Set<Seq<char>> {
    match caps {
        Some(c) => Set::new(
            |t: Seq<char>| t.len() > 0 && exists|i: int| 0 <= i < c.len() && c[i] is Some && trim(c[i]->0) == t,
        ),
        None => Set::empty(),
    }
}

/// The captures of successive matches, as plain values.
pub open spec fn capture_views(caps: Seq<Option<String>>) -> Seq<Option<Seq<char>>> {
    caps.map_values(|o: Option<String>| opt_view(o))
}

fn collect_captures(caps: &Vec<Option<String>>, out: &mut Vec<String>)
    requires
        sorted_strict(views(old(out)@)),
    ensures
        sorted_strict(views(final(out)@)),
        views(final(out)@).to_set() == views(old(out)@).to_set() + captured_values(Some(capture_views(caps@))),
{
    let ghost base = views(out@).to_set();
    {
        {
            let ghost c = caps@.map_values(|o: Option<String>| opt_view(o));
            let mut i: usize = 0;
            while i < caps.len()
                invariant
                    i <= caps@.len(),
                    c == caps@.map_values(|o: Option<String>| opt_view(o)),
                    sorted_strict(views(out@)),
                    views(out@).to_set() == base + Set::new(
                        |t: Seq<char>| t.len() > 0 && exists|k: int| 0 <= k < i && c[k] is Some && trim(c[k]->0) == t,
                    ),
                decreases caps.len() - i,
            {
                let ghost before = views(out@).to_set();
                match &caps[i] {
                    Some(s) => {
                        let t = crate::text::trim_str(s.as_str());
                        if t.as_str().unicode_len() > 0 {
                            set_insert(out, t);
                        }
                    },
                    None => {},
                }
                proof {
                    assert(c[i as int] == opt_view(caps@[i as int]));
                    assert(views(out@).to_set() =~= base + Set::new(
                        |t: Seq<char>| t.len() > 0 && exists|k: int| 0 <= k < i + 1 && c[k] is Some && trim(c[k]->0) == t,
                    )) by {
                        assert forall|t: Seq<char>| views(out@).to_set().contains(t) == (base + Set::new(
                            |t: Seq<char>| t.len() > 0 && exists|k: int| 0 <= k < i + 1 && c[k] is Some && trim(c[k]->0) == t,
                        )).contains(t) by {
                            if t.len() > 0 && c[i as int] is Some && trim(c[i as int]->0) == t {
                                assert(exists|k: int| 0 <= k < i + 1 && c[k] is Some && trim(c[k]->0) == t);
                            }
                            if exists|k: int| 0 <= k < i + 1 && c[k] is Some && trim(c[k]->0) == t {
                                let k = choose|k: int| 0 <= k < i + 1 && c[k] is Some && trim(c[k]->0) == t;
                                if k < i {
                                    assert(exists|k2: int| 0 <= k2 < i && c[k2] is Some && trim(c[k2]->0) == t);
                                }
                            }
                        }
                    }
                }
                i = i + 1;
            }
            assert(views(out@).to_set() =~= base + captured_values(Some(capture_views(caps@))));
        }
    }
}

/// Each capture of `pattern` in `text`, trimmed, that is not blank, once,
/// in increasing order; none where the pattern does not compile.
pub fn quoted_captures(text: &str, pattern: &str) -> (out: Vec<String>)
    ensures
        lists(views(out@), captured_values(regex_captures(pattern@, text@))),
{
    match regex_group1_captures(pattern, text) {
        Some(caps) => capture_values(&caps),
        None => {
            let out: Vec<String> = Vec::new();
            assert(views(out@).to_set() =~= Set::<Seq<char>>::empty());
            out
        },
    }
}

/// The captured texts of successive matches, trimmed, that are not blank,
/// once each, in increasing order.
pub fn capture_values(captures: &Vec<Option<String>>) -> (out: Vec<String>)
    ensures
        lists(views(out@), captured_values(Some(capture_views(captures@)))),
{
    let mut out: Vec<String> = Vec::new();
    assert(views(out@).to_set() =~= Set::<Seq<char>>::empty());
    collect_captures(captures, &mut out);
    assert(views(out@).to_set() =~= captured_values(Some(capture_views(captures@))));
    out
}


/// A character that may continue a metric name: an ASCII letter or digit,
/// `_` or `:`.
pub open spec fn ident_char(c: char) -> bool {
    ||| 'a' <= c <= 'z'
    ||| 'A' <= c <= 'Z'
    ||| '0' <= c <= '9'
    ||| c == '_'
    ||| c == ':'
}

fn is_ident_char(c: char) -> (b: bool)
    ensures
        b == ident_char(c),
{
    ('a' <= c && c <= 'z') || ('A' <= c && c <= 'Z') || ('0' <= c && c <= '9') || c == '_' || c
        == ':'
}

/// The PromQL keywords that look like metric names but are none.
pub open spec fn reserved_word(t: Seq<char>) -> bool {
    ||| t == "and"@
    ||| t == "bool"@
    ||| t == "by"@
    ||| t == "group_left"@
    ||| t == "group_right"@
    ||| t == "ignoring"@
    ||| t == "offset"@
    ||| t == "on"@
    ||| t == "or"@
    ||| t == "unless"@
    ||| t == "without"@
}

fn is_reserved_word(t: &str) -> (b: bool)
    ensures
        b == reserved_word(t@),
{
    str_is(t, "and") || str_is(t, "bool") || str_is(t, "by") || str_is(t, "group_left") || str_is(
        t,
        "group_right",
    ) || str_is(t, "ignoring") || str_is(t, "offset") || str_is(t, "on") || str_is(t, "or")
        || str_is(t, "unless") || str_is(t, "without")
}

/// What follows a token, past any whitespace, opens a call: the token names
/// a function.
pub open spec fn opens_call(after: Seq<char>) -> bool {
    trim_start(after).len() > 0 && trim_start(after)[0] == '('
}

fn starts_call(after: &str) -> (b: bool)
    ensures
        b == opens_call(after@),
{
    let cs = chars_of(after);
    let mut i: usize = 0;
    while i < cs.len() && char_is_ws(cs[i])
        invariant
            i <= cs@.len(),
            cs@ == after@,
            forall|j: int| 0 <= j < i ==> crate::text::is_ws(#[trigger] cs@[j]),
        decreases cs.len() - i,
    {
        i = i + 1;
    }
    proof {
        lemma_trim_start_skip(cs@, i as int);
        let rest = cs@.skip(i as int);
        if rest.len() > 0 {
            assert(rest[0] == cs@[i as int]);
        }
        assert(trim_start(rest) == rest);
    }
    i < cs.len() && cs[i] == '('
}

/// A match of the token pattern, with the text before and after it, that
/// names a metric: no name character touches it on either side, it is no
/// keyword, and no call follows it.
pub open spec fn metric_token(before: Seq<char>, token: Seq<char>, after: Seq<char>) -> bool {
    &&& !(before.len() > 0 && ident_char(before.last()))
    &&& !(after.len() > 0 && ident_char(after[0]))
    &&& !reserved_word(token)
    &&& !opens_call(after)
}

fn accepts_token(before: &str, token: &str, after: &str) -> (b: bool)
    ensures
        b == metric_token(before@, token@, after@),
{
    let bs = chars_of(before);
    if bs.len() > 0 && is_ident_char(bs[bs.len() - 1]) {
        return false;
    }
    let cs = chars_of(after);
    if cs.len() > 0 && is_ident_char(cs[0]) {
        return false;
    }
    if is_reserved_word(token) {
        return false;
    }
    !starts_call(after)
}

/// The tokens among the first `n` of `m` that name metrics.
pub open spec fn tokens_upto(m: Seq<(Seq<char>, Seq<char>, Seq<char>)>, n: int) -> Set<Seq<char>> {
    Set::new(
        |t: Seq<char>|
            exists|k: int| 0 <= k < n && metric_token(m[k].0, m[k].1, m[k].2) && m[k].1 == t,
    )
}

/// The tokens among `matches` that name metrics.
pub open spec fn token_names(matches: Option<Seq<(Seq<char>, Seq<char>, Seq<char>)>>) -> Set<
    Seq<char>,
> {
    match matches {
        Some(m) => tokens_upto(m, m.len() as int),
        None => Set::empty(),
    }
}

/// The pattern of a metric named by a `__name__` matcher.
pub open spec fn metric_name_pattern() -> Seq<char> {
    "__name__\\s*=\\s*\"([A-Za-z_:][A-Za-z0-9_:]*)\""@
}

/// The pattern of a name token in a query.
pub open spec fn metric_token_pattern() -> Seq<char> {
    "[A-Za-z_:][A-Za-z0-9_:]*"@
}

/// The metric names that a query text mentions: none for a blank text; else
/// those given to `__name__` and the tokens that name metrics.
pub open spec fn metric_names(text: Seq<char>) -> Set<Seq<char>> {
    if trim(text).len() == 0 {
        Set::empty()
    } else {
        captured_values(regex_captures(metric_name_pattern(), text)) + token_names(
            regex_matches(metric_token_pattern(), text),
        )
    }
}

/// The matches of the token pattern, as plain values.
pub open spec fn part_views(parts: Seq<(String, String, String)>) -> Seq<(Seq<char>, Seq<char>, Seq<char>)> {
    parts.map_values(|t: (String, String, String)| (t.0@, t.1@, t.2@))
}

/// The metric names found from the matches of the two patterns: the
/// captures of the `__name__` pattern and the tokens that name metrics,
/// once each, in increasing order.
pub fn metric_names_from_matches(captures: &Vec<Option<String>>, parts: &Vec<(String, String, String)>) -> (out:
    Vec<String>)
    ensures
        lists(
            views(out@),
            captured_values(Some(capture_views(captures@))) + token_names(Some(part_views(parts@))),
        ),
{
    let mut out = capture_values(captures);
    let ghost base = views(out@).to_set();
    let ghost m = part_views(parts@);
    let mut i: usize = 0;
    assert(tokens_upto(m, 0) =~= Set::<Seq<char>>::empty());
    assert(views(out@).to_set() =~= base + tokens_upto(m, 0));
    while i < parts.len()
        invariant
            i <= parts@.len(),
            m == part_views(parts@),
            sorted_strict(views(out@)),
            views(out@).to_set() == base + tokens_upto(m, i as int),
        decreases parts.len() - i,
    {
        let (before, token, after) = &parts[i];
        let ok = accepts_token(before.as_str(), token.as_str(), after.as_str());
        if ok {
            set_insert(&mut out, owned(token.as_str()));
        }
        proof {
            assert(m[i as int] == (before@, token@, after@));
            assert forall|t: Seq<char>|
                #[trigger] tokens_upto(m, i + 1).contains(t) == (tokens_upto(m, i as int).contains(t)
                    || (ok && token@ == t)) by {
                if tokens_upto(m, i + 1).contains(t) {
                    let k = choose|k: int|
                        0 <= k < i + 1 && metric_token(m[k].0, m[k].1, m[k].2) && m[k].1 == t;
                    if k < i {
                        assert(tokens_upto(m, i as int).contains(t));
                    }
                }
                if tokens_upto(m, i as int).contains(t) {
                    let k = choose|k: int|
                        0 <= k < i && metric_token(m[k].0, m[k].1, m[k].2) && m[k].1 == t;
                    assert(0 <= k < i + 1 && metric_token(m[k].0, m[k].1, m[k].2) && m[k].1 == t);
                }
                if ok && token@ == t {
                    assert(metric_token(m[i as int].0, m[i as int].1, m[i as int].2) && m[i as int].1 == t);
                }
            }
            assert(views(out@).to_set() =~= base + tokens_upto(m, i + 1));
        }
        i = i + 1;
    }
    out
}

/// The metric names of a query text, once each, in increasing order.
pub fn extract_metric_names(query_text: &str) -> (out: Vec<String>)
    ensures
        lists(views(out@), metric_names(query_text@)),
{
    if is_blank_str(query_text) {
        let out: Vec<String> = Vec::new();
        assert(views(out@).to_set() =~= Set::<Seq<char>>::empty());
        return out;
    }
    let captures = match regex_group1_captures("__name__\\s*=\\s*\"([A-Za-z_:][A-Za-z0-9_:]*)\"", query_text) {
        Some(c) => c,
        None => Vec::new(),
    };
    let parts = match regex_find_parts("[A-Za-z_:][A-Za-z0-9_:]*", query_text) {
        Some(p) => p,
        None => Vec::new(),
    };
    let out = metric_names_from_matches(&captures, &parts);
    proof {
        assert(captured_values(Some(capture_views(captures@))) =~= captured_values(
            regex_captures(metric_name_pattern(), query_text@),
        ));
        assert(token_names(Some(part_views(parts@))) =~= token_names(
            regex_matches(metric_token_pattern(), query_text@),
        ));
    }
    out
}

/// The trimmed string under `key` of a target, where it is not blank.
pub open spec fn trimmed_field(target: Json, key: Seq<char>) -> Set<Seq<char>> {
    match str_field(target, key) {
        Some(v) => if trim(v).len() > 0 {
            set![trim(v)]
        } else {
            Set::empty()
        },
        None => Set::empty(),
    }
}

fn insert_trimmed_field(target: &JsonValue, key: &str, out: &mut Vec<String>)
    requires
        sorted_strict(views(old(out)@)),
    ensures
        sorted_strict(views(final(out)@)),
        views(final(out)@).to_set() == views(old(out)@).to_set() + trimmed_field(target@, key@),
{
    match get_str(target, key) {
        Some(v) => {
            let t = trim_str(v.as_str());
            if t.as_str().unicode_len() > 0 {
                set_insert(out, t);
                assert(views(out@).to_set() =~= views(old(out)@).to_set() + trimmed_field(target@, key@));
            } else {
                assert(views(out@).to_set() =~= views(old(out)@).to_set() + trimmed_field(target@, key@));
            }
        },
        None => {
            assert(views(out@).to_set() =~= views(old(out)@).to_set() + trimmed_field(target@, key@));
        },
    }
}

/// The pattern of an InfluxQL `FROM` clause, case-insensitive.
pub open spec fn from_pattern() -> Seq<char> {
    "(?i)\\bFROM\\s+\"?([A-Za-z0-9_.:-]+)\"?"@
}

/// The pattern of a Flux `_measurement` filter.
pub open spec fn measurement_filter_pattern() -> Seq<char> {
    "_measurement\\s*==\\s*\"([^\"]+)\""@
}

/// The pattern of a Flux `from(bucket: ...)` source.
pub open spec fn bucket_pattern() -> Seq<char> {
    "from\\s*\\(\\s*bucket\\s*:\\s*\"([^\"]+)\""@
}

/// The measurements a target reads: its `measurement` field, its
/// `measurements` list, and those its query text names in a `FROM` clause
/// or a `_measurement` filter.
pub open spec fn measurement_names(target: Json, text: Seq<char>) -> Set<Seq<char>> {
    trimmed_field(target, "measurement"@) + string_list_of(target, "measurements"@).to_set()
        + captured_values(regex_captures(from_pattern(), text)) + captured_values(
        regex_captures(measurement_filter_pattern(), text),
    )
}

/// The measurements of a target, once each, in increasing order.
pub fn extract_query_measurements(target: &JsonValue, query_text: &str) -> (out: Vec<String>)
    ensures
        lists(views(out@), measurement_names(target@, query_text@)),
{
    let mut out: Vec<String> = Vec::new();
    assert(views(out@).to_set() =~= Set::<Seq<char>>::empty());
    insert_trimmed_field(target, "measurement", &mut out);
    let listed = string_list_field(target, "measurements");
    union_into(&mut out, &listed);
    let from = quoted_captures(query_text, "(?i)\\bFROM\\s+\"?([A-Za-z0-9_.:-]+)\"?");
    union_into(&mut out, &from);
    let filtered = quoted_captures(query_text, "_measurement\\s*==\\s*\"([^\"]+)\"");
    union_into(&mut out, &filtered);
    assert(views(out@).to_set() =~= measurement_names(target@, query_text@));
    out
}

/// The buckets a target reads: its `bucket` field, its `buckets` list, and
/// those its query text names in `from(bucket: ...)`.
pub open spec fn bucket_names(target: Json, text: Seq<char>) -> Set<Seq<char>> {
    trimmed_field(target, "bucket"@) + string_list_of(target, "buckets"@).to_set() + captured_values(
        regex_captures(bucket_pattern(), text),
    )
}

/// The buckets of a target, once each, in increasing order.
pub fn extract_query_buckets(target: &JsonValue, query_text: &str) -> (out: Vec<String>)
    ensures
        lists(views(out@), bucket_names(target@, query_text@)),
{
    let mut out: Vec<String> = Vec::new();
    assert(views(out@).to_set() =~= Set::<Seq<char>>::empty());
    insert_trimmed_field(target, "bucket", &mut out);
    let listed = string_list_field(target, "buckets");
    union_into(&mut out, &listed);
    let sources = quoted_captures(query_text, "from\\s*\\(\\s*bucket\\s*:\\s*\"([^\"]+)\"");
    union_into(&mut out, &sources);
    assert(views(out@).to_set() =~= bucket_names(target@, query_text@));
    out
}

} // verus!
