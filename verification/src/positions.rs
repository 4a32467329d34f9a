//! Selecting positions of a sequence by a predicate.
use vstd::prelude::*;

verus! {

/// The positions below `k` at which `pred` holds, in ascending order.
pub open spec fn positions_below(k: int, pred: spec_fn(int) -> bool) -> Seq<int>
    decreases k,
{
    if k <= 0 {
        Seq::empty()
    } else if pred(k - 1) {
        positions_below(k - 1, pred).push(k - 1)
    } else {
        positions_below(k - 1, pred)
    }
}

/// What `positions_below` holds: ascending positions below `k`, each meeting
/// `pred`, and every position below `k` that meets `pred` among them.
pub proof fn lemma_positions_below(k: int, pred: spec_fn(int) -> bool)
    requires
        0 <= k,
    ensures
        positions_below(k, pred).len() <= k,
        forall|j: int|
            0 <= j < positions_below(k, pred).len() ==> {
                &&& 0 <= (#[trigger] positions_below(k, pred)[j]) < k
                &&& pred(positions_below(k, pred)[j])
            },
        forall|a: int, b: int|
            0 <= a < b < positions_below(k, pred).len() ==> positions_below(k, pred)[a]
                < positions_below(k, pred)[b],
        forall|i: int| 0 <= i < k && #[trigger] pred(i) ==> positions_below(k, pred).contains(i),
    decreases k,
{
    if k > 0 {
        lemma_positions_below(k - 1, pred);
        let prev = positions_below(k - 1, pred);
        let cur = positions_below(k, pred);
        if pred(k - 1) {
            assert(cur == prev.push(k - 1));
            assert(cur[cur.len() - 1] == k - 1);
            assert forall|i: int| 0 <= i < k && #[trigger] pred(i) implies cur.contains(i) by {
                if i < k - 1 {
                    let j = choose|j: int| 0 <= j < prev.len() && prev[j] == i;
                    assert(cur[j] == i);
                } else {
                    assert(cur[cur.len() - 1] == i);
                }
            }
        } else {
            assert(cur == prev);
        }
    }
}

/// Where `pred` holds nowhere from `k` up to `n`, the positions below `n` are
/// those below `k`.
pub proof fn lemma_positions_stop(k: int, n: int, pred: spec_fn(int) -> bool)
    requires
        0 <= k <= n,
        forall|i: int| k <= i < n ==> !#[trigger] pred(i),
    ensures
        positions_below(n, pred) == positions_below(k, pred),
    decreases n,
{
    if n > k {
        lemma_positions_stop(k, n - 1, pred);
    }
}

/// The positions below `k` depend on what the predicate holds of below `k`
/// only.
pub proof fn lemma_positions_agree(k: int, p: spec_fn(int) -> bool, q: spec_fn(int) -> bool)
    requires
        forall|i: int| 0 <= i < k ==> #[trigger] p(i) == q(i),
    ensures
        positions_below(k, p) == positions_below(k, q),
    decreases k,
{
    if k > 0 {
        lemma_positions_agree(k - 1, p, q);
    }
}

/// There are no more positions below a smaller bound.
pub proof fn lemma_positions_grow(k: int, n: int, pred: spec_fn(int) -> bool)
    requires
        0 <= k <= n,
    ensures
        positions_below(k, pred).len() <= positions_below(n, pred).len(),
        positions_below(k, pred) == positions_below(n, pred).take(
            positions_below(k, pred).len() as int,
        ),
    decreases n,
{
    if n > k {
        lemma_positions_grow(k, n - 1, pred);
        let mid = positions_below(n - 1, pred);
        let low = positions_below(k, pred);
        assert(positions_below(n, pred).take(low.len() as int) =~= mid.take(low.len() as int));
    } else {
        assert(positions_below(n, pred).take(positions_below(k, pred).len() as int)
            =~= positions_below(k, pred));
    }
}

} // verus!
