//! Datasource placeholders of a prompt dashboard: finding the panel
//! datasource references that name a variable (`$...`) and rewriting them
//! to the one `$datasource` variable.
use vstd::prelude::*;

use crate::governance_gate::jviews;
use crate::json::{find_key, key_pos, str_field, Json, JsonValue};
use crate::strset::{lists, set_insert, sorted_strict, views};
use crate::text::{contains_seq, decimal, starts_with};

verus! {

/// A datasource reference that names a variable: a string starting with
/// `$`, or an object whose `uid` or `name` starts with `$`.
pub open spec fn is_placeholder_ref(r: Json) -> bool {
    match r {
        Json::Str(t) => starts_with(t, "$"@),
        Json::Object(_, _) => (match str_field(r, "uid"@) {
            Some(u) => starts_with(u, "$"@),
            None => false,
        }) || (match str_field(r, "name"@) {
            Some(n) => starts_with(n, "$"@),
            None => false,
        }),
        _ => false,
    }
}

/// The path of the entry `key` below `path`.
pub open spec fn child_path(path: Seq<char>, key: Seq<char>) -> Seq<char> {
    path + "."@ + key
}

/// The path of the item at `index` below `path`.
pub open spec fn item_path(path: Seq<char>, index: nat) -> Seq<char> {
    path + "["@ + decimal(index) + "]"@
}

/// The paths, below `path`, of the `datasource` entries inside a panel
/// (a path that passes through `.panels[`) that name a variable.
pub open spec fn placeholder_paths(node: Json, path: Seq<char>) -> Set<Seq<char>>
    decreases node, 1nat,
{
    match node {
        Json::Object(ks, vs) => entry_paths(ks, vs, path),
        Json::Array(items) => item_paths(items, path),
        _ => Set::empty(),
    }
}

pub open spec fn entry_paths(ks: Seq<Seq<char>>, vs: Seq<Json>, path: Seq<char>) -> Set<Seq<char>>
    decreases vs, 0nat,
{
    if vs.len() == 0 {
        Set::empty()
    } else {
        let n = vs.len() - 1;
        let next = child_path(path, ks[n]);
        let own = if ks[n] == "datasource"@ && contains_seq(path, ".panels["@) && is_placeholder_ref(vs[n]) {
            set![next]
        } else {
            Set::empty()
        };
        entry_paths(ks, vs.drop_last(), path) + own + placeholder_paths(vs[n], next)
    }
}

pub open spec fn item_paths(items: Seq<Json>, path: Seq<char>) -> Set<Seq<char>>
    decreases items, 0nat,
{
    if items.len() == 0 {
        Set::empty()
    } else {
        let n = items.len() - 1;
        item_paths(items.drop_last(), path) + placeholder_paths(items[n], item_path(path, n as nat))
    }
}

fn is_placeholder_str(s: &String) -> (b: bool)
    ensures
        b == starts_with(s@, "$"@),
{
    proof {
        reveal_strlit("$");
    }
    let cs = crate::text::chars_of(s.as_str());
    let b = cs.len() > 0 && cs[0] == '$';
    proof {
        assert("$"@ =~= seq!['$']);
        if cs.len() > 0 {
            assert(s@.take(1) =~= seq![cs@[0]]);
            if cs@[0] != '$' {
                assert(s@.take(1)[0] != "$"@[0]);
            }
        }
    }
    b
}

/// Whether a datasource reference names a variable.
pub fn is_placeholder_datasource_reference(reference: &JsonValue) -> (b: bool)
    ensures
        b == is_placeholder_ref(reference@),
{
    match reference {
        JsonValue::Str(t) => is_placeholder_str(t),
        JsonValue::Object { .. } => {
            let by_uid = match crate::json::get_str(reference, "uid") {
                Some(u) => is_placeholder_str(u),
                None => false,
            };
            let by_name = match crate::json::get_str(reference, "name") {
                Some(n) => is_placeholder_str(n),
                None => false,
            };
            by_uid || by_name
        },
        _ => false,
    }
}

fn path_in_panel(path: &String) -> (b: bool)
    ensures
        b == contains_seq(path@, ".panels["@),
{
    let cs = crate::text::chars_of(path.as_str());
    let p = crate::text::chars_of(".panels[");
    crate::text::contains_chars(cs.as_slice(), p.as_slice())
}

fn child_path_of(path: &String, key: &String) -> (r: String)
    ensures
        r@ == child_path(path@, key@),
{
    crate::text::concat3(path.as_str(), ".", key.as_str())
}

fn item_path_of(path: &String, index: usize) -> (r: String)
    ensures
        r@ == item_path(path@, index as nat),
{
    let mut r = crate::text::concat(path.as_str(), "[");
    r.append(crate::text::usize_text(index).as_str());
    r.append("]");
    r
}

/// Adds the placeholder paths below `path` of `node` to an increasing
/// listing.
#[verifier::loop_isolation(false)]
fn collect_paths(node: &JsonValue, path: &String, out: &mut Vec<String>)
    requires
        sorted_strict(views(old(out)@)),
    ensures
        sorted_strict(views(final(out)@)),
        views(final(out)@).to_set() == views(old(out)@).to_set() + placeholder_paths(node@, path@),
    decreases node,
{
    let ghost base = views(out@).to_set();
    match node {
        JsonValue::Object { keys, values } => {
            let ghost j = node@;
            let n = if keys.len() <= values.len() {
                keys.len()
            } else {
                values.len()
            };
            let in_panel = path_in_panel(path);
            let mut i: usize = 0;
            while i < n
                invariant
                    i <= n,
                    n == j->Object_1.len(),
                    n <= keys@.len(),
                    n <= values@.len(),
                    sorted_strict(views(out@)),
                    views(out@).to_set() == base + entry_paths(j->Object_0, j->Object_1.take(i as int), path@),
                decreases n - i,
            {
                proof {
                    assert(j->Object_1[i as int] == values@[i as int]@);
                    assert(j->Object_0[i as int] == keys@[i as int]@);
                    assert(j->Object_1.take(i + 1).drop_last() =~= j->Object_1.take(i as int));
                    assert(j->Object_1.take(i + 1)[i as int] == j->Object_1[i as int]);
                    reveal_strlit("datasource");
                }
                let next = child_path_of(path, &keys[i]);
                let ghost before = views(out@).to_set();
                if crate::text::str_is(keys[i].as_str(), "datasource") && in_panel
                    && is_placeholder_datasource_reference(&values[i]) {
                    set_insert(out, next.clone());
                }
                let ghost mid = views(out@).to_set();
                proof {
                    assert(decreases_to!(*node => (*node)->values));
                    assert(decreases_to!(*values => values@));
                    assert(decreases_to!(values@ => values@[i as int]));
                }
                collect_paths(&values[i], &next, out);
                proof {
                    let own = if j->Object_0[i as int] == "datasource"@ && contains_seq(path@, ".panels["@)
                        && is_placeholder_ref(j->Object_1[i as int]) {
                        set![next@]
                    } else {
                        Set::empty()
                    };
                    assert(mid =~= before + own);
                    assert(views(out@).to_set() =~= base + entry_paths(
                        j->Object_0,
                        j->Object_1.take(i + 1),
                        path@,
                    ));
                }
                i = i + 1;
            }
            assert(j->Object_1.take(n as int) =~= j->Object_1);
        },
        JsonValue::Array(items) => {
            let ghost j = node@;
            let mut i: usize = 0;
            while i < items.len()
                invariant
                    i <= items@.len(),
                    j->Array_0.len() == items@.len(),
                    sorted_strict(views(out@)),
                    views(out@).to_set() == base + item_paths(j->Array_0.take(i as int), path@),
                decreases items.len() - i,
            {
                proof {
                    assert(j->Array_0[i as int] == items@[i as int]@);
                    assert(j->Array_0.take(i + 1).drop_last() =~= j->Array_0.take(i as int));
                    assert(j->Array_0.take(i + 1)[i as int] == j->Array_0[i as int]);
                    assert(decreases_to!(*node => (*node)->Array_0));
                    assert(decreases_to!(*items => items@));
                    assert(decreases_to!(items@ => items@[i as int]));
                }
                let next = item_path_of(path, i);
                let ghost before = views(out@).to_set();
                collect_paths(&items[i], &next, out);
                proof {
                    assert(views(out@).to_set() =~= base + item_paths(j->Array_0.take(i + 1), path@));
                }
                i = i + 1;
            }
            assert(j->Array_0.take(items@.len() as int) =~= j->Array_0);
        },
        _ => {
            assert(views(out@).to_set() =~= base + placeholder_paths(node@, path@));
        },
    }
}

/// The paths of the panel datasource references of a dashboard that name
/// a variable, each once, in increasing order; paths start at `root`.
pub fn collect_panel_placeholder_datasource_paths(document: &JsonValue) -> (out: Vec<String>)
    ensures
        lists(views(out@), placeholder_paths(document@, "root"@)),
{
    let mut out: Vec<String> = Vec::new();
    assert(views(out@).to_set() =~= Set::<Seq<char>>::empty());
    let root = crate::text::owned("root");
    collect_paths(document, &root, &mut out);
    assert(views(out@).to_set() =~= placeholder_paths(document@, "root"@));
    out
}

/// The reference a rewritten placeholder becomes.
pub open spec fn placeholder_value() -> Json {
    Json::Object(seq!["uid"@], seq![Json::Str("$datasource"@)])
}

/// The entry of an object that is replaced: its `datasource` entry, where
/// the path of that entry is listed; -1 where none is.
pub open spec fn replaced_at(ks: Seq<Seq<char>>, vs: Seq<Json>, path: Seq<char>, paths: Set<Seq<char>>) -> int {
    let p = key_pos(ks, "datasource"@);
    if 0 <= p < vs.len() && paths.contains(child_path(path, "datasource"@)) {
        p
    } else {
        -1
    }
}

/// A value with the listed datasource entries below `path` replaced by the
/// `$datasource` reference; everything else stays as it is.
pub open spec fn rewritten(node: Json, path: Seq<char>, paths: Set<Seq<char>>) -> Json
    decreases node, 1nat,
{
    match node {
        Json::Object(ks, vs) => Json::Object(
            ks,
            rewritten_entries(ks, vs, path, paths, replaced_at(ks, vs, path, paths)),
        ),
        Json::Array(items) => Json::Array(rewritten_items(items, path, paths)),
        _ => node,
    }
}

pub open spec fn rewritten_entries(
    ks: Seq<Seq<char>>,
    vs: Seq<Json>,
    path: Seq<char>,
    paths: Set<Seq<char>>,
    rp: int,
) -> Seq<Json>
    decreases vs, 0nat,
{
    if vs.len() == 0 {
        Seq::empty()
    } else {
        let n = vs.len() - 1;
        rewritten_entries(ks, vs.drop_last(), path, paths, rp).push(
            if n == rp {
                placeholder_value()
            } else {
                rewritten(vs[n], child_path(path, ks[n]), paths)
            },
        )
    }
}

pub open spec fn rewritten_items(items: Seq<Json>, path: Seq<char>, paths: Set<Seq<char>>) -> Seq<Json>
    decreases items, 0nat,
{
    if items.len() == 0 {
        Seq::empty()
    } else {
        let n = items.len() - 1;
        rewritten_items(items.drop_last(), path, paths).push(rewritten(items[n], item_path(path, n as nat), paths))
    }
}

proof fn lemma_rewritten_entries_len(ks: Seq<Seq<char>>, vs: Seq<Json>, path: Seq<char>, paths: Set<Seq<char>>, rp: int)
    ensures
        rewritten_entries(ks, vs, path, paths, rp).len() == vs.len(),
    decreases vs.len(),
{
    if vs.len() > 0 {
        lemma_rewritten_entries_len(ks, vs.drop_last(), path, paths, rp);
    }
}

fn placeholder_json() -> (v: JsonValue)
    ensures
        v@ == placeholder_value(),
{
    let values = vec![JsonValue::Str(crate::text::owned("$datasource"))];
    assert(values@[0]@ == Json::Str("$datasource"@));
    let v = JsonValue::Object { keys: vec![crate::text::owned("uid")], values };
    assert(v@->Object_0 =~= placeholder_value()->Object_0);
    assert(v@->Object_1 =~= placeholder_value()->Object_1);
    v
}

/// A copy of `node` with the listed datasource entries replaced.
#[verifier::loop_isolation(false)]
fn rewritten_copy(node: &JsonValue, path: &String, paths: &Vec<String>) -> (r: JsonValue)
    ensures
        r@ == rewritten(node@, path@, views(paths@).to_set()),
    decreases node,
{
    let ghost set = views(paths@).to_set();
    match node {
        JsonValue::Object { keys, values } => {
            let ghost j = node@;
            let n = if keys.len() <= values.len() {
                keys.len()
            } else {
                values.len()
            };
            let dpath = child_path_of(path, &crate::text::owned("datasource"));
            let rp: Option<usize> = match find_key(keys, values, "datasource") {
                Some(p) => if crate::report::contains_string_in(paths, &dpath) {
                    Some(p)
                } else {
                    None
                },
                None => None,
            };
            let ghost rpi: int = match rp {
                Some(p) => p as int,
                None => -1,
            };
            assert(rpi == replaced_at(j->Object_0, j->Object_1, path@, set));
            let mut ks: Vec<String> = Vec::new();
            let mut vs: Vec<JsonValue> = Vec::new();
            let mut i: usize = 0;
            while i < n
                invariant
                    i <= n,
                    n == j->Object_1.len(),
                    n <= keys@.len(),
                    n <= values@.len(),
                    ks@.len() == i,
                    vs@.len() == i,
                    forall|k: int| 0 <= k < i ==> (#[trigger] ks@[k])@ == j->Object_0[k],
                    jviews(vs@) == rewritten_entries(j->Object_0, j->Object_1.take(i as int), path@, set, rpi),
                decreases n - i,
            {
                proof {
                    assert(j->Object_1[i as int] == values@[i as int]@);
                    assert(j->Object_0[i as int] == keys@[i as int]@);
                    assert(j->Object_1.take(i + 1).drop_last() =~= j->Object_1.take(i as int));
                    assert(j->Object_1.take(i + 1)[i as int] == j->Object_1[i as int]);
                }
                let ghost before = jviews(vs@);
                let v = match rp {
                    Some(p) => if p == i {
                        placeholder_json()
                    } else {
                        let next = child_path_of(path, &keys[i]);
                        proof {
                            assert(decreases_to!(*node => (*node)->values));
                            assert(decreases_to!(*values => values@));
                            assert(decreases_to!(values@ => values@[i as int]));
                        }
                        rewritten_copy(&values[i], &next, paths)
                    },
                    None => {
                        let next = child_path_of(path, &keys[i]);
                        proof {
                            assert(decreases_to!(*node => (*node)->values));
                            assert(decreases_to!(*values => values@));
                            assert(decreases_to!(values@ => values@[i as int]));
                        }
                        rewritten_copy(&values[i], &next, paths)
                    },
                };
                ks.push(keys[i].clone());
                vs.push(v);
                proof {
                    assert(jviews(vs@) =~= before.push(v@));
                }
                i = i + 1;
            }
            proof {
                assert(j->Object_1.take(n as int) =~= j->Object_1);
                lemma_rewritten_entries_len(j->Object_0, j->Object_1, path@, set, rpi);
            }
            let r = JsonValue::Object { keys: ks, values: vs };
            proof {
                let target = rewritten(j, path@, set);
                assert(r@->Object_0 =~= target->Object_0);
                assert(r@->Object_1 =~= target->Object_1);
            }
            r
        },
        JsonValue::Array(items) => {
            let ghost j = node@;
            let mut out: Vec<JsonValue> = Vec::new();
            let mut i: usize = 0;
            while i < items.len()
                invariant
                    i <= items@.len(),
                    j->Array_0.len() == items@.len(),
                    jviews(out@) == rewritten_items(j->Array_0.take(i as int), path@, set),
                decreases items.len() - i,
            {
                proof {
                    assert(j->Array_0[i as int] == items@[i as int]@);
                    assert(j->Array_0.take(i + 1).drop_last() =~= j->Array_0.take(i as int));
                    assert(j->Array_0.take(i + 1)[i as int] == j->Array_0[i as int]);
                    assert(decreases_to!(*node => (*node)->Array_0));
                    assert(decreases_to!(*items => items@));
                    assert(decreases_to!(items@ => items@[i as int]));
                }
                let next = item_path_of(path, i);
                let ghost before = jviews(out@);
                let v = rewritten_copy(&items[i], &next, paths);
                out.push(v);
                proof {
                    assert(jviews(out@) =~= before.push(v@));
                }
                i = i + 1;
            }
            proof {
                assert(j->Array_0.take(items@.len() as int) =~= j->Array_0);
            }
            let r = JsonValue::Array(out);
            assert(r@->Array_0 =~= rewritten(j, path@, set)->Array_0);
            r
        },
        _ => crate::json::clone_json(node),
    }
}

/// Replaces the datasource references at the listed paths (paths start at
/// `root`) by the `$datasource` variable.
pub fn rewrite_prompt_panel_placeholder_paths(document: &mut JsonValue, paths: &Vec<String>)
    ensures
        final(document)@ == rewritten(old(document)@, "root"@, views(paths@).to_set()),
{
    let root = crate::text::owned("root");
    let r = rewritten_copy(document, &root, paths);
    *document = r;
}

proof fn lemma_entries_unchanged(ks: Seq<Seq<char>>, vs: Seq<Json>, path: Seq<char>)
    ensures
        rewritten_entries(ks, vs, path, Set::empty(), -1) == vs,
    decreases vs, 0nat,
{
    if vs.len() > 0 {
        let n = vs.len() - 1;
        lemma_entries_unchanged(ks, vs.drop_last(), path);
        law_rewrite_without_paths_keeps_value(vs[n], child_path(path, ks[n]));
        assert(rewritten_entries(ks, vs, path, Set::empty(), -1) =~= vs);
    }
}

proof fn lemma_items_unchanged(items: Seq<Json>, path: Seq<char>)
    ensures
        rewritten_items(items, path, Set::empty()) == items,
    decreases items, 0nat,
{
    if items.len() > 0 {
        let n = items.len() - 1;
        lemma_items_unchanged(items.drop_last(), path);
        law_rewrite_without_paths_keeps_value(items[n], item_path(path, n as nat));
        assert(rewritten_items(items, path, Set::empty()) =~= items);
    }
}

/// Rewriting with no path listed leaves any value as it is.
pub proof fn law_rewrite_without_paths_keeps_value(node: Json, path: Seq<char>)
    ensures
        rewritten(node, path, Set::empty()) == node,
    decreases node, 1nat,
{
    match node {
        Json::Object(ks, vs) => {
            assert(replaced_at(ks, vs, path, Set::empty()) == -1);
            lemma_entries_unchanged(ks, vs, path);
        },
        Json::Array(items) => {
            lemma_items_unchanged(items, path);
        },
        _ => {},
    }
}

} // verus!
