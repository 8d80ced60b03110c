//! Sums of a weight over the values of a byte-keyed map: the totals that a
//! contract keeps in a separate counter (a pool balance, a buyer's locked
//! escrow) are stated as such sums, and these lemmas carry them through an
//! update of one entry.
use vstd::prelude::*;

verus! {

/// The sum of `w` over the values that `m` holds at `keys`.
pub open spec fn value_sum<V>(m: Map<Seq<u8>, V>, keys: Set<Seq<u8>>, w: spec_fn(V) -> int) -> int
    decreases keys.len(),
    when keys.finite()
{
    if keys.len() == 0 {
        0
    } else {
        let k = keys.choose();
        w(m[k]) + value_sum(m, keys.remove(k), w)
    }
}

/// Any key may be taken out of the sum first.
pub proof fn lemma_value_sum_remove<V>(m: Map<Seq<u8>, V>, keys: Set<Seq<u8>>, k: Seq<u8>, w: spec_fn(V) -> int)
    requires
        keys.finite(),
        keys.contains(k),
    ensures
        value_sum(m, keys, w) == w(m[k]) + value_sum(m, keys.remove(k), w),
    decreases keys.len(),
{
    assert(keys.len() != 0);
    let c = keys.choose();
    if c != k {
        lemma_value_sum_remove(m, keys.remove(c), k, w);
        lemma_value_sum_remove(m, keys.remove(k), c, w);
        assert(keys.remove(c).remove(k) =~= keys.remove(k).remove(c));
    }
}

/// The sum only reads the weights of the values at its keys.
pub proof fn lemma_value_sum_agree<V>(m1: Map<Seq<u8>, V>, m2: Map<Seq<u8>, V>, keys: Set<Seq<u8>>, w: spec_fn(V) -> int)
    requires
        keys.finite(),
        forall|k: Seq<u8>| keys.contains(k) ==> w(#[trigger] m1[k]) == w(m2[k]),
    ensures
        value_sum(m1, keys, w) == value_sum(m2, keys, w),
    decreases keys.len(),
{
    if keys.len() != 0 {
        let c = keys.choose();
        assert(keys.contains(c));
        lemma_value_sum_agree(m1, m2, keys.remove(c), w);
    }
}

/// With no negative weight, the sum is at least the weight of any one of
/// its values.
pub proof fn lemma_value_sum_covers<V>(m: Map<Seq<u8>, V>, keys: Set<Seq<u8>>, k: Seq<u8>, w: spec_fn(V) -> int)
    requires
        keys.finite(),
        keys.contains(k),
        forall|j: Seq<u8>| keys.contains(j) ==> w(#[trigger] m[j]) >= 0,
    ensures
        value_sum(m, keys, w) >= w(m[k]),
{
    lemma_value_sum_remove(m, keys, k, w);
    lemma_value_sum_nonneg(m, keys.remove(k), w);
}

/// With no negative weight, the sum is not negative.
pub proof fn lemma_value_sum_nonneg<V>(m: Map<Seq<u8>, V>, keys: Set<Seq<u8>>, w: spec_fn(V) -> int)
    requires
        keys.finite(),
        forall|j: Seq<u8>| keys.contains(j) ==> w(#[trigger] m[j]) >= 0,
    ensures
        value_sum(m, keys, w) >= 0,
    decreases keys.len(),
{
    if keys.len() != 0 {
        let c = keys.choose();
        assert(keys.contains(c));
        lemma_value_sum_nonneg(m, keys.remove(c), w);
    }
}

/// Storing `v` at `k` moves the sum over the whole map by the change in
/// that entry's weight.
pub proof fn lemma_value_sum_insert<V>(m: Map<Seq<u8>, V>, k: Seq<u8>, v: V, w: spec_fn(V) -> int)
    requires
        m.dom().finite(),
    ensures
        value_sum(m.insert(k, v), m.insert(k, v).dom(), w) == value_sum(m, m.dom(), w) - (if m.contains_key(k) {
            w(m[k])
        } else {
            0
        }) + w(v),
{
    let m2 = m.insert(k, v);
    let d = m.dom();
    assert(m2.dom() =~= d.insert(k));
    lemma_value_sum_remove(m2, m2.dom(), k, w);
    assert(m2.dom().remove(k) =~= d.remove(k));
    lemma_value_sum_agree(m2, m, d.remove(k), w);
    if m.contains_key(k) {
        lemma_value_sum_remove(m, d, k, w);
    } else {
        assert(d.remove(k) =~= d);
    }
}

/// A pointwise smaller weight gives a smaller sum.
pub proof fn lemma_value_sum_le<V>(m: Map<Seq<u8>, V>, keys: Set<Seq<u8>>, w1: spec_fn(V) -> int, w2: spec_fn(V) -> int)
    requires
        keys.finite(),
        forall|j: Seq<u8>| keys.contains(j) ==> w1(#[trigger] m[j]) <= w2(m[j]),
    ensures
        value_sum(m, keys, w1) <= value_sum(m, keys, w2),
    decreases keys.len(),
{
    if keys.len() != 0 {
        let c = keys.choose();
        assert(keys.contains(c));
        lemma_value_sum_le(m, keys.remove(c), w1, w2);
    }
}

} // verus!
