//! Counting the panels and query targets of a dashboard, rows and nested
//! panels included.
use vstd::prelude::*;

use crate::json::{find_key, key_pos, Json, JsonValue};

verus! {

/// The value under `key` of an object, found through its keys, where the
/// object pairs its keys with values.
pub open spec fn entry(p: Json, key: Seq<char>) -> Option<Json> {
    match p {
        Json::Object(ks, vs) => {
            let pos = key_pos(ks, key);
            if 0 <= pos < vs.len() {
                Some(vs[pos])
            } else {
                None
            }
        },
        _ => None,
    }
}

/// The number of query targets of a panel.
pub open spec fn target_count(p: Json) -> nat {
    match entry(p, "targets"@) {
        Some(Json::Array(t)) => t.len(),
        _ => 0,
    }
}

/// The panels and query targets of a panel: the panel itself and its
/// targets, with those of the nested panels that are objects.
pub open spec fn panel_stats(p: Json) -> (nat, nat)
    decreases p, 1nat,
{
    match p {
        Json::Object(ks, vs) => {
            let pos = key_pos(ks, "panels"@);
            let nested = if 0 <= pos < vs.len() {
                match vs[pos] {
                    Json::Array(children) => children_stats(children),
                    _ => (0nat, 0nat),
                }
            } else {
                (0nat, 0nat)
            };
            (1 + nested.0, target_count(p) + nested.1)
        },
        _ => (1nat, 0nat),
    }
}

/// The panels and query targets of the panels of a list that are objects.
pub open spec fn children_stats(items: Seq<Json>) -> (nat, nat)
    decreases items, 0nat,
{
    if items.len() == 0 {
        (0nat, 0nat)
    } else {
        let before = children_stats(items.drop_last());
        let x = items.last();
        if x is Object {
            let s = panel_stats(x);
            (before.0 + s.0, before.1 + s.1)
        } else {
            before
        }
    }
}

/// The panels and query targets of a dashboard: those of its top-level
/// panels that are objects.
pub open spec fn dashboard_stats(d: Json) -> (nat, nat) {
    match entry(d, "panels"@) {
        Some(Json::Array(panels)) => children_stats(panels),
        _ => (0nat, 0nat),
    }
}

proof fn lemma_children_prefix(items: Seq<Json>, k: int)
    requires
        0 <= k <= items.len(),
    ensures
        children_stats(items.take(k)).0 <= children_stats(items).0,
        children_stats(items.take(k)).1 <= children_stats(items).1,
    decreases items.len(),
{
    if k < items.len() {
        lemma_children_prefix(items.drop_last(), k);
        assert(items.drop_last().take(k) =~= items.take(k));
    } else {
        assert(items.take(k) =~= items);
    }
}

fn array_entry<'a>(p: &'a JsonValue, key: &str) -> (r: Option<&'a Vec<JsonValue>>)
    ensures
        match r {
            Some(items) => entry(p@, key@) == Some(Json::Array(crate::governance_gate::jviews(items@))),
            None => !(entry(p@, key@) matches Some(Json::Array(_))),
        },
{
    match p {
        JsonValue::Object { keys, values } => match find_key(keys, values, key) {
            Some(pos) => match &values[pos] {
                JsonValue::Array(items) => {
                    assert(p@->Object_1[pos as int] == values@[pos as int]@);
                    assert(values@[pos as int]@->Array_0 =~= crate::governance_gate::jviews(items@));
                    Some(items)
                },
                _ => {
                    assert(p@->Object_1[pos as int] == values@[pos as int]@);
                    None
                },
            },
            None => None,
        },
        _ => None,
    }
}

/// Counts the panels and query targets of a panel and of the panels nested
/// in it.
#[verifier::loop_isolation(false)]
pub fn collect_panel_stats(panel: &JsonValue) -> (r: (usize, usize))
    requires
        panel_stats(panel@).0 <= usize::MAX,
        panel_stats(panel@).1 <= usize::MAX,
    ensures
        r.0 == panel_stats(panel@).0,
        r.1 == panel_stats(panel@).1,
    decreases panel,
{
    let targets = match array_entry(panel, "targets") {
        Some(t) => t.len(),
        None => 0,
    };
    match panel {
        JsonValue::Object { keys, values } => {
            let ghost j = panel@;
            proof {
                crate::json::lemma_key_pos(j->Object_0, "panels"@);
            }
            let (np, nq) = match find_key(keys, values, "panels") {
                Some(pos) => match &values[pos] {
                    JsonValue::Array(children) => {
                        let ghost cs = crate::governance_gate::jviews(children@);
                        proof {
                            assert(j->Object_1[pos as int] == values@[pos as int]@);
                            assert(values@[pos as int]@->Array_0 =~= cs);
                            lemma_children_prefix(cs, cs.len() as int);
                        }
                        let mut np: usize = 0;
                        let mut nq: usize = 0;
                        let mut i: usize = 0;
                        while i < children.len()
                            invariant
                                i <= children@.len(),
                                pos < values@.len(),
                                values@[pos as int] == JsonValue::Array(*children),
                                cs == crate::governance_gate::jviews(children@),
                                np == children_stats(cs.take(i as int)).0,
                                nq == children_stats(cs.take(i as int)).1,
                                children_stats(cs).0 + 1 <= usize::MAX,
                                children_stats(cs).1 + targets <= usize::MAX,
                            decreases children.len() - i,
                        {
                            proof {
                                assert(cs.take(i + 1).drop_last() =~= cs.take(i as int));
                                assert(cs.take(i + 1).last() == children@[i as int]@);
                                lemma_children_prefix(cs, i + 1);
                            }
                            let child = &children[i];
                            match child {
                                JsonValue::Object { .. } => {
                                    proof {
                                        assert(decreases_to!(*panel => (*panel)->values));
                                        assert(decreases_to!(*values => values@));
                                        assert(decreases_to!(values@ => values@[pos as int]));
                                        assert(decreases_to!(values@[pos as int] => values@[pos as int]->Array_0));
                                        assert(decreases_to!(*children => children@));
                                        assert(decreases_to!(children@ => children@[i as int]));
                                    }
                                    let (cp, cq) = collect_panel_stats(child);
                                    np = np + cp;
                                    nq = nq + cq;
                                },
                                _ => {},
                            }
                            i = i + 1;
                        }
                        assert(cs.take(children@.len() as int) =~= cs);
                        (np, nq)
                    },
                    _ => {
                        assert(j->Object_1[pos as int] == values@[pos as int]@);
                        (0, 0)
                    },
                },
                None => (0, 0),
            };
            (1 + np, targets + nq)
        },
        _ => (1, 0),
    }
}

/// Counts the panels and query targets of a dashboard.
pub fn count_dashboard_panels_and_queries(dashboard: &JsonValue) -> (r: (usize, usize))
    requires
        dashboard_stats(dashboard@).0 <= usize::MAX,
        dashboard_stats(dashboard@).1 <= usize::MAX,
    ensures
        r.0 == dashboard_stats(dashboard@).0,
        r.1 == dashboard_stats(dashboard@).1,
{
    match array_entry(dashboard, "panels") {
        Some(panels) => {
            let ghost cs = crate::governance_gate::jviews(panels@);
            proof {
                lemma_children_prefix(cs, cs.len() as int);
            }
            let mut np: usize = 0;
            let mut nq: usize = 0;
            let mut i: usize = 0;
            while i < panels.len()
                invariant
                    i <= panels@.len(),
                    cs == crate::governance_gate::jviews(panels@),
                    np == children_stats(cs.take(i as int)).0,
                    nq == children_stats(cs.take(i as int)).1,
                    children_stats(cs).0 <= usize::MAX,
                    children_stats(cs).1 <= usize::MAX,
                decreases panels.len() - i,
            {
                proof {
                    assert(cs.take(i + 1).drop_last() =~= cs.take(i as int));
                    assert(cs.take(i + 1).last() == panels@[i as int]@);
                    lemma_children_prefix(cs, i + 1);
                }
                match &panels[i] {
                    JsonValue::Object { .. } => {
                        let (cp, cq) = collect_panel_stats(&panels[i]);
                        np = np + cp;
                        nq = nq + cq;
                    },
                    _ => {},
                }
                i = i + 1;
            }
            assert(cs.take(panels@.len() as int) =~= cs);
            (np, nq)
        },
        None => (0, 0),
    }
}

} // verus!
