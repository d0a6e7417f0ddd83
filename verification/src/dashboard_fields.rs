//! Reading fields of dashboard JSON: the query of a panel target, lists of
//! names, the type a datasource reference declares, the parent of a folder.
use vstd::prelude::*;

use crate::governance_gate::{jviews, str_items};
use crate::json::{field, get_field, get_str, str_field, string_field, string_field_of, Json, JsonValue};
use crate::strset::views;
use crate::text::{owned, trim, trim_str};

verus! {

/// The fields a target's query text may stand under, in the order they are
/// tried.
pub open spec fn query_keys() -> Seq<Seq<char>> {
    seq!["expr"@, "expression"@, "query"@, "rawSql"@, "sql"@, "rawQuery"@]
}

/// The first of `keys` under which the target holds a string that is not
/// blank, with that string trimmed; two empty strings where there is none.
pub open spec fn query_field_from(target: Json, keys: Seq<Seq<char>>) -> (Seq<char>, Seq<char>)
    decreases keys.len(),
{
    if keys.len() == 0 {
        (Seq::empty(), Seq::empty())
    } else {
        match str_field(target, keys[0]) {
            Some(s) => if trim(s).len() > 0 {
                (keys[0], trim(s))
            } else {
                query_field_from(target, keys.drop_first())
            },
            None => query_field_from(target, keys.drop_first()),
        }
    }
}

/// The query field of a target and its trimmed text.
pub fn extract_query_field_and_text(target: &JsonValue) -> (r: (String, String))
    ensures
        (r.0@, r.1@) == query_field_from(target@, query_keys()),
{
    let keys: Vec<&str> = vec!["expr", "expression", "query", "rawSql", "sql", "rawQuery"];
    let ghost ks = query_keys();
    assert(ks.skip(0) =~= ks);
    let mut i: usize = 0;
    while i < keys.len()
        invariant
            i <= keys@.len(),
            keys@.len() == ks.len(),
            ks == query_keys(),
            forall|k: int| 0 <= k < ks.len() ==> (#[trigger] keys@[k])@ == ks[k],
            query_field_from(target@, ks) == query_field_from(target@, ks.skip(i as int)),
        decreases keys.len() - i,
    {
        assert(ks.skip(i as int).drop_first() =~= ks.skip(i + 1));
        assert(ks.skip(i as int)[0] == ks[i as int]);
        match get_str(target, keys[i]) {
            Some(s) => {
                let t = trim_str(s.as_str());
                if t.as_str().unicode_len() > 0 {
                    let k = owned(keys[i]);
                    assert(str_field(target@, ks[i as int]) == Some(s@));
                    assert(query_field_from(target@, ks.skip(i as int)) == (ks[i as int], trim(s@)));
                    return (k, t);
                }
            },
            None => {},
        }
        i = i + 1;
    }
    proof {
        assert(ks.skip(i as int).len() == 0);
        reveal_strlit("");
    }
    let e1 = owned("");
    let e2 = owned("");
    assert(e1@ =~= Seq::<char>::empty());
    (e1, e2)
}

/// The trimmed strings of the array under `key` that are not blank, in
/// order; none where the target holds no array there.
pub open spec fn string_list_of(target: Json, key: Seq<char>) -> Seq<Seq<char>> {
    match field(target, key) {
        Some(Json::Array(items)) => str_items(items).map_values(|s: Seq<char>| trim(s)).filter(
            |s: Seq<char>| s.len() > 0,
        ),
        _ => Seq::empty(),
    }
}

/// Reads a list of names from a target.
pub fn string_list_field(target: &JsonValue, key: &str) -> (out: Vec<String>)
    ensures
        views(out@) == string_list_of(target@, key@),
{
    match get_field(target, key) {
        Some(v) => match v {
            JsonValue::Array(items) => {
                let ghost js = jviews(items@);
                assert(v@->Array_0 =~= js);
                let ghost ts = str_items(js).map_values(|s: Seq<char>| trim(s));
                let mut out: Vec<String> = Vec::new();
                let mut i: usize = 0;
                while i < items.len()
                    invariant
                        i <= items@.len(),
                        js == jviews(items@),
                        ts == str_items(js).map_values(|s: Seq<char>| trim(s)),
                        views(out@) == str_items(js.take(i as int)).map_values(|s: Seq<char>| trim(s)).filter(
                            |s: Seq<char>| s.len() > 0,
                        ),
                    decreases items.len() - i,
                {
                    let ghost before = str_items(js.take(i as int)).map_values(|s: Seq<char>| trim(s));
                    proof {
                        assert(js.take(i + 1).drop_last() =~= js.take(i as int));
                        assert(js.take(i + 1).last() == items@[i as int]@);
                    }
                    match &items[i] {
                        JsonValue::Str(s) => {
                            let t = trim_str(s.as_str());
                            proof {
                                assert(str_items(js.take(i + 1)) == str_items(js.take(i as int)).push(s@));
                                assert(str_items(js.take(i + 1)).map_values(|s: Seq<char>| trim(s))
                                    =~= before.push(trim(s@)));
                                before.lemma_filter_push(trim(s@), |s: Seq<char>| s.len() > 0);
                            }
                            if t.as_str().unicode_len() > 0 {
                                let ghost o = views(out@);
                                out.push(t);
                                assert(views(out@) =~= o.push(trim(s@)));
                            }
                        },
                        _ => {
                            assert(str_items(js.take(i + 1)) == str_items(js.take(i as int)));
                        },
                    }
                    i = i + 1;
                }
                assert(js.take(items@.len() as int) =~= js);
                out
            },
            _ => {
                let out: Vec<String> = Vec::new();
                assert(views(out@) =~= Seq::<Seq<char>>::empty());
                out
            },
        },
        None => {
            let out: Vec<String> = Vec::new();
            assert(views(out@) =~= Seq::<Seq<char>>::empty());
            out
        },
    }
}

/// The type a datasource reference declares: its `type`, or else its
/// `pluginId`, where that is a string; none for any other reference.
pub open spec fn reference_type(r: Json) -> Option<Seq<char>> {
    match r {
        Json::Object(_, _) => match field(r, "type"@) {
            Some(t) => match t {
                Json::Str(s) => Some(s),
                _ => None,
            },
            None => match field(r, "pluginId"@) {
                Some(Json::Str(s)) => Some(s),
                _ => None,
            },
        },
        _ => None,
    }
}

/// Reads the type a datasource reference declares.
pub fn datasource_type_from_reference(reference: &JsonValue) -> (r: Option<String>)
    ensures
        match r {
            Some(s) => reference_type(reference@) == Some(s@),
            None => reference_type(reference@) is None,
        },
{
    match reference {
        JsonValue::Object { .. } => {
            let chosen = match get_field(reference, "type") {
                Some(t) => Some(t),
                None => get_field(reference, "pluginId"),
            };
            match chosen {
                Some(JsonValue::Str(s)) => Some(s.clone()),
                _ => None,
            }
        },
        _ => None,
    }
}

/// The UID of the parent a live folder names last among its `parents`,
/// where it is not blank.
pub open spec fn parent_uid_of(folder: Json) -> Option<Seq<char>> {
    match field(folder, "parents"@) {
        Some(Json::Array(parents)) => if parents.len() > 0 && parents.last() is Object {
            let u = string_field_of(parents.last(), "uid"@, Seq::empty());
            if u.len() > 0 {
                Some(u)
            } else {
                None
            }
        } else {
            None
        },
        _ => None,
    }
}

/// Reads the parent folder UID of a live folder.
pub fn cached_parent_uid_from_folder(folder: &JsonValue) -> (r: Option<String>)
    ensures
        match r {
            Some(s) => parent_uid_of(folder@) == Some(s@),
            None => parent_uid_of(folder@) is None,
        },
{
    proof {
        reveal_strlit("");
    }
    match get_field(folder, "parents") {
        Some(p) => match p {
            JsonValue::Array(parents) => {
                if parents.len() == 0 {
                    return None;
                }
                let last = &parents[parents.len() - 1];
                assert(p@->Array_0.last() == last@);
                match last {
                    JsonValue::Object { .. } => {
                        let u = string_field(last, "uid", "");
                        if u.as_str().unicode_len() > 0 {
                            Some(u)
                        } else {
                            None
                        }
                    },
                    _ => None,
                }
            },
            _ => None,
        },
        None => None,
    }
}

} // verus!
