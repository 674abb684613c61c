//! Sums over the entries of a map.
use vstd::prelude::*;

verus! {

/// What the entries of a finite map cost together.
pub open spec fn map_total<K, V>(m: Map<K, V>, cost: spec_fn(K, V) -> nat) -> nat
    decreases m.dom().len(),
    when m.dom().finite()
{
    if m.dom().len() == 0 {
        0
    } else {
        let key = m.dom().choose();
        if m.dom().contains(key) {
            cost(key, m[key]) + map_total(m.remove(key), cost)
        } else {
            0
        }
    }
}

/// Any entry can be counted first.
pub proof fn lemma_total_remove<K, V>(m: Map<K, V>, cost: spec_fn(K, V) -> nat, key: K)
    requires
        m.dom().finite(),
        m.contains_key(key),
    ensures
        map_total(m, cost) == cost(key, m[key]) + map_total(m.remove(key), cost),
    decreases m.dom().len(),
{
    let first = m.dom().choose();
    assert(m.dom().contains(key));
    assert(m.dom().len() > 0);
    assert(m.dom().contains(first));
    if first != key {
        let rest = m.remove(first);
        assert(rest.dom() =~= m.dom().remove(first));
        lemma_total_remove(rest, cost, key);
        let other = m.remove(key);
        assert(other.dom() =~= m.dom().remove(key));
        lemma_total_remove(other, cost, first);
        assert(rest.remove(key) =~= other.remove(first));
    }
}

/// Putting an entry in replaces what its key cost before.
pub proof fn lemma_total_insert<K, V>(m: Map<K, V>, cost: spec_fn(K, V) -> nat, key: K, value: V)
    requires
        m.dom().finite(),
    ensures
        map_total(m.insert(key, value), cost) == cost(key, value) + map_total(m.remove(key), cost),
{
    let after = m.insert(key, value);
    assert(after.dom() =~= m.dom().insert(key));
    lemma_total_remove(after, cost, key);
    assert(after.remove(key) =~= m.remove(key));
}

/// What is absent costs nothing.
pub proof fn lemma_total_absent<K, V>(m: Map<K, V>, cost: spec_fn(K, V) -> nat, key: K)
    requires
        m.dom().finite(),
        !m.contains_key(key),
    ensures
        map_total(m.remove(key), cost) == map_total(m, cost),
{
    assert(m.remove(key) =~= m);
}

} // verus!
