//! Small sequence combinators the environment model is specified with:
//! removing the elements a predicate matches, and selecting the indices it
//! matches, together with the facts proofs about them need.

use vstd::prelude::*;

verus! {

/// The sequence with every element that `pred` matches removed, order kept.
pub open spec fn seq_drop_matching<T>(s: Seq<T>, pred: spec_fn(T) -> bool) -> Seq<T>
    decreases s.len(),
{
    if s.len() == 0 {
        Seq::empty()
    } else {
        let rest = seq_drop_matching(s.drop_last(), pred);
        if pred(s.last()) {
            rest
        } else {
            rest.push(s.last())
        }
    }
}

/// What removal keeps: exactly the elements the predicate does not match,
/// each of them one of the original elements.
pub proof fn lemma_drop_matching_props<T>(s: Seq<T>, pred: spec_fn(T) -> bool)
    ensures
        seq_drop_matching(s, pred).len() <= s.len(),
        forall|k: int|
            0 <= k < seq_drop_matching(s, pred).len() ==> s.contains(
                #[trigger] seq_drop_matching(s, pred)[k],
            ) && !pred(seq_drop_matching(s, pred)[k]),
        forall|x: T| #[trigger]
            seq_drop_matching(s, pred).contains(x) <==> (s.contains(x) && !pred(x)),
    decreases s.len(),
{
    if s.len() == 0 {
        assert forall|x: T| #[trigger] seq_drop_matching(s, pred).contains(x) <==> (s.contains(x)
            && !pred(x)) by {
            if seq_drop_matching(s, pred).contains(x) {
                let k = choose|k: int|
                    0 <= k < seq_drop_matching(s, pred).len() && seq_drop_matching(s, pred)[k]
                        == x;
            }
            if s.contains(x) {
                let k = choose|k: int| 0 <= k < s.len() && s[k] == x;
            }
        }
    } else {
        let r = seq_drop_matching(s, pred);
        let rest = seq_drop_matching(s.drop_last(), pred);
        lemma_drop_matching_props(s.drop_last(), pred);
        assert forall|k: int| 0 <= k < r.len() implies s.contains(#[trigger] r[k]) && !pred(
            r[k],
        ) by {
            if k < rest.len() {
                assert(s.drop_last().contains(rest[k]));
                let j = choose|j: int| 0 <= j < s.drop_last().len() && s.drop_last()[j] == rest[k];
                assert(s[j] == rest[k]);
            } else {
                assert(r[k] == s.last());
                assert(s[s.len() - 1] == s.last());
            }
        }
        assert forall|x: T| #[trigger] r.contains(x) <==> (s.contains(x) && !pred(x)) by {
            if r.contains(x) {
                let k = choose|k: int| 0 <= k < r.len() && r[k] == x;
            }
            if s.contains(x) && !pred(x) {
                let j = choose|j: int| 0 <= j < s.len() && s[j] == x;
                if j < s.len() - 1 {
                    assert(s.drop_last()[j] == x);
                    assert(s.drop_last().contains(x));
                    assert(rest.contains(x));
                    let k = choose|k: int| 0 <= k < rest.len() && rest[k] == x;
                    assert(r[k] == x);
                    assert(r.contains(x));
                } else {
                    assert(x == s.last());
                    assert(r[r.len() - 1] == x);
                    assert(r.contains(x));
                }
            }
        }
    }
}

/// Removal keeps elements pairwise distinct under a key, if they were.
pub proof fn lemma_drop_matching_distinct<T, K>(
    s: Seq<T>,
    pred: spec_fn(T) -> bool,
    key: spec_fn(T) -> K,
)
    requires
        forall|i: int, j: int| 0 <= i < j < s.len() ==> key(s[i]) != key(s[j]),
    ensures
        forall|i: int, j: int|
            0 <= i < j < seq_drop_matching(s, pred).len() ==> key(
                #[trigger] seq_drop_matching(s, pred)[i],
            ) != key(#[trigger] seq_drop_matching(s, pred)[j]),
    decreases s.len(),
{
    if s.len() > 0 {
        let r = seq_drop_matching(s, pred);
        let rest = seq_drop_matching(s.drop_last(), pred);
        assert(forall|i: int, j: int|
            0 <= i < j < s.drop_last().len() ==> key(s.drop_last()[i]) != key(s.drop_last()[j]));
        lemma_drop_matching_distinct(s.drop_last(), pred, key);
        lemma_drop_matching_props(s.drop_last(), pred);
        assert forall|i: int, j: int| 0 <= i < j < r.len() implies key(#[trigger] r[i]) != key(
            #[trigger] r[j],
        ) by {
            if !pred(s.last()) && j == r.len() - 1 {
                assert(r[j] == s.last());
                assert(s.drop_last().contains(rest[i]));
                let m = choose|m: int|
                    0 <= m < s.drop_last().len() && s.drop_last()[m] == rest[i];
                assert(s[m] == rest[i]);
                assert(key(s[m]) != key(s[s.len() - 1]));
            }
        }
    }
}

/// The step removal takes when one element is appended.
pub proof fn lemma_drop_matching_push<T>(s: Seq<T>, pred: spec_fn(T) -> bool, x: T)
    ensures
        seq_drop_matching(s.push(x), pred) == if pred(x) {
            seq_drop_matching(s, pred)
        } else {
            seq_drop_matching(s, pred).push(x)
        },
{
    assert(s.push(x).drop_last() =~= s);
    assert(s.push(x).last() == x);
}

/// Appending one element extends what the sequence contains by exactly it.
pub proof fn lemma_push_contains<T>(s: Seq<T>, x: T)
    ensures
        forall|y: T| #[trigger] s.push(x).contains(y) <==> (s.contains(y) || y == x),
{
    assert forall|y: T| #[trigger] s.push(x).contains(y) <==> (s.contains(y) || y == x) by {
        if s.push(x).contains(y) {
            let i = choose|i: int| 0 <= i < s.push(x).len() && s.push(x)[i] == y;
            if i < s.len() {
                assert(s[i] == y);
            }
        }
        if s.contains(y) {
            let i = choose|i: int| 0 <= i < s.len() && s[i] == y;
            assert(s.push(x)[i] == y);
        }
        if y == x {
            assert(s.push(x)[s.len() as int] == y);
        }
    }
}

/// Appending one element leaves every proper prefix as it was.
pub proof fn lemma_push_take_prefix<T>(s: Seq<T>, x: T)
    ensures
        forall|j: int| 0 <= j <= s.len() ==> #[trigger] s.push(x).take(j) == s.take(j),
{
    assert forall|j: int| 0 <= j <= s.len() implies #[trigger] s.push(x).take(j) == s.take(j) by {
        assert(s.push(x).take(j) =~= s.take(j));
    }
}

/// The indices below `n` whose element `pred` matches, in increasing order.
pub open spec fn matching_indices_upto<T>(s: Seq<T>, pred: spec_fn(T) -> bool, n: int) -> Seq<int>
    decreases n,
{
    if n <= 0 {
        Seq::empty()
    } else {
        let prev = matching_indices_upto(s, pred, n - 1);
        if pred(s[n - 1]) {
            prev.push(n - 1)
        } else {
            prev
        }
    }
}

/// All indices whose element `pred` matches, in increasing order.
pub open spec fn matching_indices<T>(s: Seq<T>, pred: spec_fn(T) -> bool) -> Seq<int> {
    matching_indices_upto(s, pred, s.len() as int)
}

/// The selected indices lie below the bound and increase strictly, so each
/// appears once.
pub proof fn lemma_matching_indices_upto_bounds<T>(s: Seq<T>, pred: spec_fn(T) -> bool, n: int)
    ensures
        n >= 0 ==> matching_indices_upto(s, pred, n).len() <= n,
        forall|k: int|
            0 <= k < matching_indices_upto(s, pred, n).len() ==> 0 <= #[trigger] matching_indices_upto(
                s,
                pred,
                n,
            )[k] < n,
        forall|k1: int, k2: int|
            0 <= k1 < k2 < matching_indices_upto(s, pred, n).len()
                ==> #[trigger] matching_indices_upto(s, pred, n)[k1]
                < #[trigger] matching_indices_upto(s, pred, n)[k2],
    decreases n,
{
    if n > 0 {
        lemma_matching_indices_upto_bounds(s, pred, n - 1);
        let prev = matching_indices_upto(s, pred, n - 1);
        let cur = matching_indices_upto(s, pred, n);
        assert forall|k: int| 0 <= k < cur.len() implies 0 <= #[trigger] cur[k] < n by {
            if pred(s[n - 1]) {
                if k < prev.len() {
                    assert(cur[k] == prev[k]);
                } else {
                    assert(cur[k] == n - 1);
                }
            } else {
                assert(cur[k] == prev[k]);
            }
        }
        assert forall|k1: int, k2: int| 0 <= k1 < k2 < cur.len() implies #[trigger] cur[k1]
            < #[trigger] cur[k2] by {
            if pred(s[n - 1]) {
                if k2 < prev.len() {
                    assert(cur[k1] == prev[k1] && cur[k2] == prev[k2]);
                } else {
                    assert(cur[k1] == prev[k1]);
                    assert(cur[k2] == n - 1);
                    assert(0 <= prev[k1] < n - 1);
                }
            } else {
                assert(cur[k1] == prev[k1] && cur[k2] == prev[k2]);
            }
        }
    }
}

/// An index is selected exactly when it is below the bound and its element
/// matches.
pub proof fn lemma_matching_indices_upto_contains<T>(
    s: Seq<T>,
    pred: spec_fn(T) -> bool,
    n: int,
    i: int,
)
    ensures
        matching_indices_upto(s, pred, n).contains(i) <==> (0 <= i < n && pred(s[i])),
    decreases n,
{
    if n > 0 {
        lemma_matching_indices_upto_contains(s, pred, n - 1, i);
        let prev = matching_indices_upto(s, pred, n - 1);
        let cur = matching_indices_upto(s, pred, n);
        if pred(s[n - 1]) {
            assert forall|x: int| #[trigger] cur.contains(x) <==> prev.contains(x) || x == n
                - 1 by {
                if cur.contains(x) {
                    let k = choose|k: int| 0 <= k < cur.len() && cur[k] == x;
                    if k < prev.len() {
                        assert(prev[k] == x);
                        assert(prev.contains(x));
                    }
                }
                if prev.contains(x) {
                    let k = choose|k: int| 0 <= k < prev.len() && prev[k] == x;
                    assert(cur[k] == x);
                }
                if x == n - 1 {
                    assert(cur[cur.len() - 1] == x);
                }
            }
        }
    }
}

/// Raising the bound keeps what was already selected, in place.
pub proof fn lemma_matching_indices_upto_prefix<T>(
    s: Seq<T>,
    pred: spec_fn(T) -> bool,
    m: int,
    n: int,
)
    requires
        m <= n,
    ensures
        matching_indices_upto(s, pred, m).len() <= matching_indices_upto(s, pred, n).len(),
        forall|k: int|
            0 <= k < matching_indices_upto(s, pred, m).len()
                ==> #[trigger] matching_indices_upto(s, pred, n)[k] == matching_indices_upto(
                s,
                pred,
                m,
            )[k],
    decreases n - m,
{
    if m < n {
        lemma_matching_indices_upto_prefix(s, pred, m, n - 1);
    }
}

} // verus!
