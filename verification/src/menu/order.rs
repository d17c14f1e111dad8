//! The order of texts (`Ord` for `String`: lexicographic by code point)
//! and insertion into a list kept sorted by key.
use vstd::prelude::*;

verus! {

/// `a` comes before `b`: at the first character where they differ, `a`'s
/// is the smaller, or `a` is a proper prefix of `b`.  For `String`s this
/// is `a < b`: strings compare byte-wise, and UTF-8 keeps the order of
/// code points.
pub open spec fn text_lt(a: Seq<char>, b: Seq<char>) -> bool
    decreases a.len(),
{
    if a.len() == 0 {
        b.len() > 0
    } else if b.len() == 0 {
        false
    } else if a[0] != b[0] {
        (a[0] as int) < (b[0] as int)
    } else {
        text_lt(a.drop_first(), b.drop_first())
    }
}

/// No text comes before itself.
pub proof fn lemma_text_lt_irreflexive(a: Seq<char>)
    ensures
        !text_lt(a, a),
    decreases a.len(),
{
    if a.len() > 0 {
        lemma_text_lt_irreflexive(a.drop_first());
    }
}

/// The order is transitive.
pub proof fn lemma_text_lt_transitive(a: Seq<char>, b: Seq<char>, c: Seq<char>)
    requires
        text_lt(a, b),
        text_lt(b, c),
    ensures
        text_lt(a, c),
    decreases a.len(),
{
    if a.len() > 0 && b.len() > 0 && c.len() > 0 {
        if a[0] == b[0] && b[0] == c[0] {
            lemma_text_lt_transitive(a.drop_first(), b.drop_first(), c.drop_first());
        }
    }
}

/// Of two different texts, one comes before the other.
pub proof fn lemma_text_lt_total(a: Seq<char>, b: Seq<char>)
    requires
        a != b,
    ensures
        text_lt(a, b) || text_lt(b, a),
    decreases a.len(),
{
    if a.len() == 0 {
        assert(b.len() > 0) by {
            if b.len() == 0 {
                assert(a =~= b);
            }
        }
    } else if b.len() == 0 {
    } else if a[0] == b[0] {
        if a.drop_first() == b.drop_first() {
            assert(a =~= seq![a[0]] + a.drop_first());
            assert(b =~= seq![b[0]] + b.drop_first());
        }
        lemma_text_lt_total(a.drop_first(), b.drop_first());
    } else {
        assert((a[0] as int) != (b[0] as int));
    }
}

/// Only one of two texts comes before the other.
pub proof fn lemma_text_lt_asymmetric(a: Seq<char>, b: Seq<char>)
    requires
        text_lt(a, b),
    ensures
        !text_lt(b, a),
{
    if text_lt(b, a) {
        lemma_text_lt_transitive(a, b, a);
        lemma_text_lt_irreflexive(a);
    }
}

/// The entries' keys are strictly increasing.
pub open spec fn keys_sorted<X>(e: Seq<(Seq<char>, X)>) -> bool {
    forall|i: int, j: int| 0 <= i < j < e.len() ==> text_lt(#[trigger] e[i].0, #[trigger] e[j].0)
}

/// `e` with `(k, v)` put in its sorted place: the value replaced where the
/// key is found, else the pair inserted before the first larger key
/// (`IndexMap::insert_sorted` on a map with sorted keys).
pub open spec fn sorted_insert<X>(e: Seq<(Seq<char>, X)>, k: Seq<char>, v: X) -> Seq<(Seq<char>, X)>
    decreases e.len(),
{
    if e.len() == 0 {
        seq![(k, v)]
    } else if e[0].0 == k {
        e.update(0, (e[0].0, v))
    } else if text_lt(k, e[0].0) {
        seq![(k, v)] + e
    } else {
        seq![e[0]] + sorted_insert(e.drop_first(), k, v)
    }
}

/// A text below `k` and below every key of `e` is below every key after
/// the insertion.
proof fn lemma_sorted_insert_bound<X>(e: Seq<(Seq<char>, X)>, k: Seq<char>, v: X, x: Seq<char>)
    requires
        text_lt(x, k),
        forall|m: int| 0 <= m < e.len() ==> text_lt(x, #[trigger] e[m].0),
    ensures
        forall|j: int| 0 <= j < sorted_insert(e, k, v).len() ==> text_lt(x, #[trigger] sorted_insert(e, k, v)[j].0),
    decreases e.len(),
{
    if e.len() > 0 && e[0].0 != k && !text_lt(k, e[0].0) {
        let t = e.drop_first();
        assert forall|m: int| 0 <= m < t.len() implies text_lt(x, #[trigger] t[m].0) by {
            assert(t[m] == e[m + 1]);
        }
        lemma_sorted_insert_bound(t, k, v, x);
        let r = sorted_insert(e, k, v);
        assert forall|j: int| 0 <= j < r.len() implies text_lt(x, #[trigger] r[j].0) by {
            if j == 0 {
                assert(r[0] == e[0]);
            } else {
                assert(r[j] == sorted_insert(t, k, v)[j - 1]);
            }
        }
    } else if e.len() > 0 && e[0].0 == k {
        let r = sorted_insert(e, k, v);
        assert forall|j: int| 0 <= j < r.len() implies text_lt(x, #[trigger] r[j].0) by {
            if j > 0 {
                assert(r[j] == e[j]);
            }
        }
    } else if e.len() > 0 {
        let r = sorted_insert(e, k, v);
        assert forall|j: int| 0 <= j < r.len() implies text_lt(x, #[trigger] r[j].0) by {
            if j > 0 {
                assert(r[j] == e[j - 1]);
            }
        }
    }
}

/// Inserting keeps the keys sorted, and the key is then present.
pub proof fn lemma_sorted_insert_sorted<X>(e: Seq<(Seq<char>, X)>, k: Seq<char>, v: X)
    requires
        keys_sorted(e),
    ensures
        keys_sorted(sorted_insert(e, k, v)),
        exists|j: int| 0 <= j < sorted_insert(e, k, v).len() && #[trigger] sorted_insert(e, k, v)[j] == (k, v),
    decreases e.len(),
{
    let r = sorted_insert(e, k, v);
    if e.len() == 0 {
        assert(r[0] == (k, v));
    } else if e[0].0 == k {
        assert(r[0] == (k, v));
        assert forall|i: int, j: int| 0 <= i < j < r.len() implies text_lt(#[trigger] r[i].0, #[trigger] r[j].0) by {
            assert(r[i].0 == e[i].0);
            assert(r[j].0 == e[j].0);
        }
    } else if text_lt(k, e[0].0) {
        assert(r[0] == (k, v));
        assert forall|i: int, j: int| 0 <= i < j < r.len() implies text_lt(#[trigger] r[i].0, #[trigger] r[j].0) by {
            if i == 0 {
                assert(r[j] == e[j - 1]);
                if j - 1 > 0 {
                    assert(text_lt(e[0].0, e[j - 1].0));
                    lemma_text_lt_transitive(k, e[0].0, e[j - 1].0);
                }
            } else {
                assert(r[i] == e[i - 1]);
                assert(r[j] == e[j - 1]);
            }
        }
    } else {
        let t = e.drop_first();
        assert(keys_sorted(t)) by {
            assert forall|i: int, j: int| 0 <= i < j < t.len() implies text_lt(#[trigger] t[i].0, #[trigger] t[j].0) by {
                assert(t[i] == e[i + 1]);
                assert(t[j] == e[j + 1]);
            }
        }
        lemma_sorted_insert_sorted(t, k, v);
        lemma_text_lt_total(k, e[0].0);
        assert forall|m: int| 0 <= m < t.len() implies text_lt(e[0].0, #[trigger] t[m].0) by {
            assert(t[m] == e[m + 1]);
        }
        lemma_sorted_insert_bound(t, k, v, e[0].0);
        let rt = sorted_insert(t, k, v);
        assert forall|i: int, j: int| 0 <= i < j < r.len() implies text_lt(#[trigger] r[i].0, #[trigger] r[j].0) by {
            assert(r[j] == rt[j - 1]);
            if i == 0 {
                assert(r[0] == e[0]);
            } else {
                assert(r[i] == rt[i - 1]);
            }
        }
        let jt = choose|j: int| 0 <= j < rt.len() && #[trigger] rt[j] == (k, v);
        assert(r[jt + 1] == (k, v));
    }
}

/// Inserting the same pair twice gives what inserting it once gives.
pub proof fn lemma_sorted_insert_idempotent<X>(e: Seq<(Seq<char>, X)>, k: Seq<char>, v: X)
    requires
        keys_sorted(e),
    ensures
        sorted_insert(sorted_insert(e, k, v), k, v) == sorted_insert(e, k, v),
    decreases e.len(),
{
    let r = sorted_insert(e, k, v);
    if e.len() == 0 {
        assert(r[0].0 == k);
        assert(sorted_insert(r, k, v) =~= r);
    } else if e[0].0 == k {
        assert(r[0].0 == k);
        assert(sorted_insert(r, k, v) =~= r);
    } else if text_lt(k, e[0].0) {
        assert(r[0].0 == k);
        assert(sorted_insert(r, k, v) =~= r);
    } else {
        let t = e.drop_first();
        assert(keys_sorted(t)) by {
            assert forall|i: int, j: int| 0 <= i < j < t.len() implies text_lt(#[trigger] t[i].0, #[trigger] t[j].0) by {
                assert(t[i] == e[i + 1]);
                assert(t[j] == e[j + 1]);
            }
        }
        lemma_sorted_insert_idempotent(t, k, v);
        assert(r[0] == e[0]);
        assert(r.drop_first() =~= sorted_insert(t, k, v));
        assert(sorted_insert(r, k, v) =~= seq![e[0]] + sorted_insert(sorted_insert(t, k, v), k, v));
    }
}

/// Some entry of `e` has key `x`.
pub open spec fn has_key<X>(e: Seq<(Seq<char>, X)>, x: Seq<char>) -> bool {
    exists|j: int| 0 <= j < e.len() && #[trigger] e[j].0 == x
}

/// After inserting under `k`, the keys are the old ones and `k`.
pub proof fn lemma_sorted_insert_keys<X>(e: Seq<(Seq<char>, X)>, k: Seq<char>, v: X, x: Seq<char>)
    ensures
        has_key(sorted_insert(e, k, v), x) <==> (x == k || has_key(e, x)),
    decreases e.len(),
{
    let r = sorted_insert(e, k, v);
    if e.len() == 0 {
        if x == k {
            assert(r[0].0 == x);
        }
    } else if e[0].0 == k {
        if has_key(r, x) {
            let j = choose|j: int| 0 <= j < r.len() && #[trigger] r[j].0 == x;
            assert(e[j].0 == x);
        }
        if x == k {
            assert(r[0].0 == x);
        }
        if has_key(e, x) {
            let j = choose|j: int| 0 <= j < e.len() && #[trigger] e[j].0 == x;
            assert(r[j].0 == x);
        }
    } else if text_lt(k, e[0].0) {
        if has_key(r, x) {
            let j = choose|j: int| 0 <= j < r.len() && #[trigger] r[j].0 == x;
            if j > 0 {
                assert(e[j - 1].0 == x);
            }
        }
        if x == k {
            assert(r[0].0 == x);
        }
        if has_key(e, x) {
            let j = choose|j: int| 0 <= j < e.len() && #[trigger] e[j].0 == x;
            assert(r[j + 1].0 == x);
        }
    } else {
        let t = e.drop_first();
        let rt = sorted_insert(t, k, v);
        lemma_sorted_insert_keys(t, k, v, x);
        assert(r =~= seq![e[0]] + rt);
        if has_key(r, x) {
            let j = choose|j: int| 0 <= j < r.len() && #[trigger] r[j].0 == x;
            if j > 0 {
                assert(rt[j - 1].0 == x);
                if has_key(t, x) {
                    let m = choose|m: int| 0 <= m < t.len() && #[trigger] t[m].0 == x;
                    assert(e[m + 1].0 == x);
                }
            } else {
                assert(e[0].0 == x);
            }
        }
        if x == k {
            let j = choose|j: int| 0 <= j < rt.len() && #[trigger] rt[j].0 == x;
            assert(r[j + 1].0 == x);
        }
        if has_key(e, x) {
            let j = choose|j: int| 0 <= j < e.len() && #[trigger] e[j].0 == x;
            if j == 0 {
                assert(r[0].0 == x);
            } else {
                assert(t[j - 1].0 == x);
                let m = choose|m: int| 0 <= m < rt.len() && #[trigger] rt[m].0 == x;
                assert(r[m + 1].0 == x);
            }
        }
    }
}

} // verus!
