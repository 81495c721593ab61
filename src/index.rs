use vstd::prelude::*;

verus! {

/// The first index of `k` in `ks`, or -1.
pub open spec fn index_of<K>(ks: Seq<K>, k: K) -> int
    decreases ks.len(),
{
    if ks.len() == 0 {
        -1
    } else if index_of(ks.drop_last(), k) >= 0 {
        index_of(ks.drop_last(), k)
    } else if ks.last() == k {
        ks.len() - 1
    } else {
        -1
    }
}

pub proof fn lemma_index_of_bounds<K>(ks: Seq<K>, k: K)
    ensures
        -1 <= index_of(ks, k) < ks.len(),
        index_of(ks, k) >= 0 ==> ks[index_of(ks, k)] == k,
    decreases ks.len(),
{
    if ks.len() > 0 {
        lemma_index_of_bounds(ks.drop_last(), k);
    }
}

pub proof fn lemma_index_of_first<K>(ks: Seq<K>, k: K, i: int)
    requires
        0 <= i < ks.len(),
        ks[i] == k,
        forall|j: int| 0 <= j < i ==> ks[j] != k,
    ensures
        index_of(ks, k) == i,
    decreases ks.len(),
{
    if ks.len() > i + 1 {
        lemma_index_of_first(ks.drop_last(), k, i);
    } else {
        lemma_index_of_absent(ks.drop_last(), k);
    }
}

pub proof fn lemma_index_of_absent<K>(ks: Seq<K>, k: K)
    requires
        forall|j: int| 0 <= j < ks.len() ==> ks[j] != k,
    ensures
        index_of(ks, k) == -1,
    decreases ks.len(),
{
    if ks.len() > 0 {
        lemma_index_of_absent(ks.drop_last(), k);
    }
}

/// After `k` is appended to a sequence that lacks it, `k` is at the old end
/// and every other key keeps its index.
pub proof fn lemma_index_of_push<K>(ks: Seq<K>, k: K)
    requires
        index_of(ks, k) == -1,
    ensures
        index_of(ks.push(k), k) == ks.len(),
        forall|o: K| o != k ==> #[trigger] index_of(ks.push(k), o) == index_of(ks, o),
{
    assert(ks.push(k).drop_last() =~= ks);
    assert forall|o: K| o != k implies #[trigger] index_of(ks.push(k), o) == index_of(ks, o) by {
        assert(ks.push(k).drop_last() =~= ks);
    }
}

} // verus!
