//! Ordered string sets kept as strictly increasing vectors, the shape that
//! the inspection reports give their `BTreeSet<String>` listings.
use vstd::prelude::*;

use crate::text::{is_blank, is_blank_str, lemma_lt_asymmetric, lemma_lt_irreflexive, lemma_lt_total, lemma_lt_transitive, seq_lt, str_less};

verus! {

/// The character views of a list of strings.
pub open spec fn views(v: Seq<String>) -> Seq<Seq<char>> {
    v.map_values(|s: String| s@)
}

/// Strictly increasing in code-point order: sorted and free of repeats.
pub open spec fn sorted_strict(s: Seq<Seq<char>>) -> bool {
    forall|i: int, j: int| 0 <= i < j < s.len() ==> seq_lt(#[trigger] s[i], #[trigger] s[j])
}

/// `listing` lists the finite set `set` in increasing order, as iterating a
/// `BTreeSet<String>` does.
pub open spec fn lists(listing: Seq<Seq<char>>, set: Set<Seq<char>>) -> bool {
    sorted_strict(listing) && listing.to_set() == set
}

pub proof fn lemma_sorted_no_duplicates(s: Seq<Seq<char>>)
    requires
        sorted_strict(s),
    ensures
        s.no_duplicates(),
        s.to_set().len() == s.len(),
{
    assert forall|i: int, j: int| 0 <= i < s.len() && 0 <= j < s.len() && i != j implies s[i]
        != s[j] by {
        if i < j {
            assert(seq_lt(s[i], s[j]));
            lemma_lt_irreflexive(s[i]);
        } else {
            assert(seq_lt(s[j], s[i]));
            lemma_lt_irreflexive(s[j]);
        }
    }
    s.unique_seq_to_set();
}

/// Two increasing listings of one set are the same listing.
pub proof fn lemma_listing_unique(a: Seq<Seq<char>>, b: Seq<Seq<char>>)
    requires
        sorted_strict(a),
        sorted_strict(b),
        a.to_set() == b.to_set(),
    ensures
        a == b,
    decreases a.len(),
{
    lemma_sorted_no_duplicates(a);
    lemma_sorted_no_duplicates(b);
    if a.len() == 0 {
        if b.len() > 0 {
            assert(b.to_set().contains(b[0]));
        }
    } else if b.len() == 0 {
        assert(a.to_set().contains(a[0]));
    } else {
        assert(b.to_set().contains(a[0]));
        assert(a.to_set().contains(b[0]));
        let ia = choose|i: int| 0 <= i < a.len() && a[i] == b[0];
        let ib = choose|i: int| 0 <= i < b.len() && b[i] == a[0];
        if ia > 0 {
            assert(seq_lt(a[0], a[ia]));
            if ib > 0 {
                assert(seq_lt(b[0], b[ib]));
                lemma_lt_asymmetric(a[0], b[0]);
            } else {
                lemma_lt_irreflexive(a[0]);
            }
        }
        if ib > 0 && ia == 0 {
            assert(seq_lt(b[0], b[ib]));
            lemma_lt_irreflexive(b[0]);
        }
        assert(a[0] == b[0]);
        let ta = a.drop_first();
        let tb = b.drop_first();
        assert forall|x: Seq<char>| ta.to_set().contains(x) implies tb.to_set().contains(x) by {
            let k = choose|k: int| 0 <= k < ta.len() && ta[k] == x;
            assert(a[k + 1] == x);
            assert(b.to_set().contains(x));
            let m = choose|m: int| 0 <= m < b.len() && b[m] == x;
            if m == 0 {
                assert(seq_lt(a[0], a[k + 1]));
                lemma_lt_irreflexive(a[0]);
            }
            assert(tb[m - 1] == x);
        }
        assert forall|x: Seq<char>| tb.to_set().contains(x) implies ta.to_set().contains(x) by {
            let k = choose|k: int| 0 <= k < tb.len() && tb[k] == x;
            assert(b[k + 1] == x);
            assert(a.to_set().contains(x));
            let m = choose|m: int| 0 <= m < a.len() && a[m] == x;
            if m == 0 {
                assert(seq_lt(b[0], b[k + 1]));
                lemma_lt_irreflexive(b[0]);
            }
            assert(ta[m - 1] == x);
        }
        assert(ta.to_set() =~= tb.to_set());
        lemma_listing_unique(ta, tb);
        assert(a == seq![a[0]] + ta);
        assert(b == seq![b[0]] + tb);
    }
}

/// Adds `x` to an increasing listing, keeping it increasing.
pub fn set_insert(v: &mut Vec<String>, x: String)
    requires
        sorted_strict(views(old(v)@)),
    ensures
        sorted_strict(views(final(v)@)),
        views(final(v)@).to_set() == views(old(v)@).to_set().insert(x@),
{
    let ghost old_views = views(v@);
    let mut i: usize = 0;
    while i < v.len() && str_less(v[i].as_str(), x.as_str())
        invariant
            i <= v.len(),
            v@ == old(v)@,
            old_views == views(v@),
            sorted_strict(old_views),
            forall|k: int| 0 <= k < i ==> seq_lt(#[trigger] old_views[k], x@),
        decreases v.len() - i,
    {
        i = i + 1;
    }
    if i < v.len() && !str_less(x.as_str(), v[i].as_str()) {
        proof {
            lemma_lt_total(old_views[i as int], x@);
            assert(old_views[i as int] == x@);
            assert(old_views.to_set().contains(x@));
            assert(old_views.to_set().insert(x@) =~= old_views.to_set());
        }
        return;
    }
    proof {
        if i < v.len() {
            lemma_lt_total(old_views[i as int], x@);
        }
    }
    v.insert(i, x);
    proof {
        let nv = views(v@);
        assert(nv =~= old_views.insert(i as int, x@));
        assert forall|a: int, b: int| 0 <= a < b < nv.len() implies seq_lt(
            #[trigger] nv[a],
            #[trigger] nv[b],
        ) by {
            if b < i {
            } else if a < i && b == i {
            } else if a < i && b > i {
                assert(seq_lt(old_views[a], old_views[b - 1]));
            } else if a == i {
                if b - 1 > i {
                    assert(seq_lt(old_views[i as int], old_views[b - 1]));
                    lemma_lt_transitive(x@, old_views[i as int], old_views[b - 1]);
                }
            } else {
                assert(seq_lt(old_views[a - 1], old_views[b - 1]));
            }
        }
        assert forall|y: Seq<char>| nv.to_set().contains(y) <==> old_views.to_set().insert(
            x@,
        ).contains(y) by {
            if nv.to_set().contains(y) {
                let k = choose|k: int| 0 <= k < nv.len() && nv[k] == y;
                if k < i {
                    assert(old_views[k] == y);
                } else if k > i {
                    assert(old_views[k - 1] == y);
                }
            }
            if old_views.to_set().contains(y) {
                let k = choose|k: int| 0 <= k < old_views.len() && old_views[k] == y;
                if k < i {
                    assert(nv[k] == y);
                } else {
                    assert(nv[k + 1] == y);
                }
            }
            if y == x@ {
                assert(nv[i as int] == y);
            }
        }
        assert(nv.to_set() =~= old_views.to_set().insert(x@));
    }
}

/// The values that are not blank.
pub open spec fn nonblank(s: Seq<Seq<char>>) -> Seq<Seq<char>> {
    s.filter(|x: Seq<char>| !is_blank(x))
}

/// The values without the blank ones, each once, in increasing order, as
/// collecting into a `BTreeSet<String>` after a blank filter gives them.
pub fn collect_unique_strings(values: &[String]) -> (out: Vec<String>)
    ensures
        lists(views(out@), nonblank(views(values@)).to_set()),
{
    let mut out: Vec<String> = Vec::new();
    let ghost vs = views(values@);
    let mut i: usize = 0;
    while i < values.len()
        invariant
            i <= values.len(),
            vs == views(values@),
            sorted_strict(views(out@)),
            views(out@).to_set() == nonblank(vs.take(i as int)).to_set(),
        decreases values.len() - i,
    {
        let ghost before = views(out@).to_set();
        proof {
            assert(vs.take(i + 1) == vs.take(i as int).push(vs[i as int]));
            vs.take(i as int).lemma_filter_push(vs[i as int], |x: Seq<char>| !is_blank(x));
        }
        if !is_blank_str(values[i].as_str()) {
            set_insert(&mut out, values[i].clone());
            proof {
                nonblank(vs.take(i as int)).lemma_push_to_set_commute(vs[i as int]);
            }
        }
        i = i + 1;
    }
    assert(vs.take(values.len() as int) == vs);
    out
}

/// The number of distinct values.
pub fn count_distinct(values: &[String]) -> (n: usize)
    ensures
        n == views(values@).to_set().len(),
{
    let mut seen: Vec<String> = Vec::new();
    let ghost vs = views(values@);
    let mut i: usize = 0;
    while i < values.len()
        invariant
            i <= values.len(),
            vs == views(values@),
            sorted_strict(views(seen@)),
            views(seen@).to_set() == vs.take(i as int).to_set(),
        decreases values.len() - i,
    {
        proof {
            assert(vs.take(i + 1) == vs.take(i as int).push(vs[i as int]));
            vs.take(i as int).lemma_push_to_set_commute(vs[i as int]);
        }
        set_insert(&mut seen, values[i].clone());
        i = i + 1;
    }
    assert(vs.take(values.len() as int) == vs);
    proof {
        lemma_sorted_no_duplicates(views(seen@));
    }
    seen.len()
}


/// Adds every value of `items` to an increasing listing.
pub fn union_into(v: &mut Vec<String>, items: &Vec<String>)
    requires
        sorted_strict(views(old(v)@)),
    ensures
        sorted_strict(views(final(v)@)),
        views(final(v)@).to_set() == views(old(v)@).to_set() + views(items@).to_set(),
{
    let ghost iv = views(items@);
    let ghost base = views(v@).to_set();
    let mut i: usize = 0;
    while i < items.len()
        invariant
            i <= items@.len(),
            iv == views(items@),
            sorted_strict(views(v@)),
            views(v@).to_set() == base + iv.take(i as int).to_set(),
        decreases items.len() - i,
    {
        proof {
            assert(iv.take(i + 1) == iv.take(i as int).push(iv[i as int]));
            iv.take(i as int).lemma_push_to_set_commute(iv[i as int]);
        }
        set_insert(v, items[i].clone());
        proof {
            assert(views(v@).to_set() =~= base + iv.take(i + 1).to_set());
        }
        i = i + 1;
    }
    assert(iv.take(items@.len() as int) == iv);
}

pub proof fn lemma_concat_to_set<A>(a: Seq<A>, b: Seq<A>)
    ensures
        (a + b).to_set() == a.to_set() + b.to_set(),
{
    assert forall|x: A| (a + b).to_set().contains(x) <==> (a.to_set() + b.to_set()).contains(x) by {
        if (a + b).to_set().contains(x) {
            let i = choose|i: int| 0 <= i < (a + b).len() && (a + b)[i] == x;
            if i < a.len() {
                assert(a[i] == x);
            } else {
                assert(b[i - a.len()] == x);
            }
        }
        if a.to_set().contains(x) {
            let i = choose|i: int| 0 <= i < a.len() && a[i] == x;
            assert((a + b)[i] == x);
        }
        if b.to_set().contains(x) {
            let i = choose|i: int| 0 <= i < b.len() && b[i] == x;
            assert((a + b)[i + a.len()] == x);
        }
    }
    assert((a + b).to_set() =~= a.to_set() + b.to_set());
}
} // verus!
