//! Sums over finite sets of transaction ids.
use crate::payment_system::types::TransactionId;
use vstd::prelude::*;

verus! {

/// The sum of `f` over the finite set `ids` (zero for an infinite set).
pub open spec fn sum_over(ids: Set<TransactionId>, f: spec_fn(TransactionId) -> int) -> int
    decreases ids.len(),
{
    if ids.finite() && ids.len() > 0 {
        let id = ids.choose();
        f(id) + sum_over(ids.remove(id), f)
    } else {
        0
    }
}

/// Any element can be taken out of a sum first.
pub proof fn lemma_sum_remove(ids: Set<TransactionId>, f: spec_fn(TransactionId) -> int, x: TransactionId)
    requires
        ids.finite(),
        ids.contains(x),
    ensures
        sum_over(ids, f) == f(x) + sum_over(ids.remove(x), f),
    decreases ids.len(),
{
    let y = ids.choose();
    if y != x {
        lemma_sum_remove(ids.remove(y), f, x);
        lemma_sum_remove(ids.remove(x), f, y);
        assert(ids.remove(y).remove(x) =~= ids.remove(x).remove(y));
    }
}

/// Sums of functions that agree on the set are equal.
pub proof fn lemma_sum_congruent(
    ids: Set<TransactionId>,
    f: spec_fn(TransactionId) -> int,
    g: spec_fn(TransactionId) -> int,
)
    requires
        forall|id: TransactionId| #[trigger] ids.contains(id) ==> f(id) == g(id),
    ensures
        sum_over(ids, f) == sum_over(ids, g),
    decreases ids.len(),
{
    if ids.finite() && ids.len() > 0 {
        let id = ids.choose();
        lemma_sum_congruent(ids.remove(id), f, g);
    }
}

/// A function that is zero on the set sums to zero.
pub proof fn lemma_sum_zero(ids: Set<TransactionId>, f: spec_fn(TransactionId) -> int)
    requires
        forall|id: TransactionId| #[trigger] ids.contains(id) ==> f(id) == 0,
    ensures
        sum_over(ids, f) == 0,
    decreases ids.len(),
{
    if ids.finite() && ids.len() > 0 {
        let id = ids.choose();
        lemma_sum_zero(ids.remove(id), f);
    }
}

/// Changing a function at one point `k`, and adding `k` to the set, changes the
/// sum by the difference at `k` (a point outside the set counts as zero).
pub proof fn lemma_sum_update(
    ids: Set<TransactionId>,
    f: spec_fn(TransactionId) -> int,
    g: spec_fn(TransactionId) -> int,
    k: TransactionId,
)
    requires
        ids.finite(),
        forall|id: TransactionId| id != k ==> #[trigger] f(id) == g(id),
        !ids.contains(k) ==> f(k) == 0,
    ensures
        sum_over(ids.insert(k), g) == sum_over(ids, f) + g(k) - f(k),
{
    let big = ids.insert(k);
    lemma_sum_remove(big, g, k);
    lemma_sum_congruent(big.remove(k), g, f);
    if ids.contains(k) {
        lemma_sum_remove(ids, f, k);
        assert(big.remove(k) =~= ids.remove(k));
    } else {
        assert(big.remove(k) =~= ids);
    }
}

} // verus!
