//! Association lists as maps: a sequence of keys without repetition, beside a
//! sequence of values of the same length, read as the finite map that sends
//! each key to the value at its index.

use vstd::prelude::*;

verus! {

/// The map that sends `keys[i]` to `vals[i]`.
pub open spec fn pairs_map<K, V>(keys: Seq<K>, vals: Seq<V>) -> Map<K, V> {
    Map::new(|k: K| keys.contains(k), |k: K| vals[keys.index_of(k)])
}

/// In a list without repetition, the key at index `i` is found at `i`.
pub proof fn lemma_index_of_unique<K>(keys: Seq<K>, i: int)
    requires
        keys.no_duplicates(),
        0 <= i < keys.len(),
    ensures
        keys.contains(keys[i]),
        keys.index_of(keys[i]) == i,
{
    assert(keys.contains(keys[i]));
    let j = keys.index_of(keys[i]);
    assert(0 <= j < keys.len() && keys[j] == keys[i]);
}

/// Reading the map at the key of index `i` gives the value of index `i`.
pub proof fn lemma_pairs_lookup<K, V>(keys: Seq<K>, vals: Seq<V>, i: int)
    requires
        keys.no_duplicates(),
        keys.len() == vals.len(),
        0 <= i < keys.len(),
    ensures
        pairs_map(keys, vals).contains_key(keys[i]),
        pairs_map(keys, vals)[keys[i]] == vals[i],
{
    lemma_index_of_unique(keys, i);
}

/// A key that no index holds is not in the map.
pub proof fn lemma_pairs_absent<K, V>(keys: Seq<K>, vals: Seq<V>, k: K)
    requires
        forall|i: int| 0 <= i < keys.len() ==> keys[i] != k,
    ensures
        !pairs_map(keys, vals).contains_key(k),
{
    if keys.contains(k) {
        let i = choose|i: int| 0 <= i < keys.len() && keys[i] == k;
        assert(keys[i] != k);
    }
}

/// Appending a fresh key with its value inserts it into the map.
pub proof fn lemma_pairs_push<K, V>(keys: Seq<K>, vals: Seq<V>, k: K, v: V)
    requires
        keys.no_duplicates(),
        keys.len() == vals.len(),
        !keys.contains(k),
    ensures
        keys.push(k).no_duplicates(),
        pairs_map(keys.push(k), vals.push(v)) == pairs_map(keys, vals).insert(k, v),
{
    let keys2 = keys.push(k);
    let vals2 = vals.push(v);
    assert forall|i: int, j: int| 0 <= i < keys2.len() && 0 <= j < keys2.len() && i != j implies keys2[i] != keys2[j] by {
        if i < keys.len() && j < keys.len() {
        } else if i < keys.len() {
            assert(keys.contains(keys[i]));
        } else {
            assert(keys.contains(keys[j]));
        }
    }
    let m2 = pairs_map(keys2, vals2);
    let m1 = pairs_map(keys, vals).insert(k, v);
    assert forall|q: K| m2.contains_key(q) <==> m1.contains_key(q) by {
        if keys2.contains(q) {
            let i = choose|i: int| 0 <= i < keys2.len() && keys2[i] == q;
            if i < keys.len() {
                assert(keys[i] == q);
                assert(keys.contains(q));
            }
        }
        if keys.contains(q) {
            let i = choose|i: int| 0 <= i < keys.len() && keys[i] == q;
            assert(keys2[i] == q);
        }
        if q == k {
            assert(keys2[keys.len() as int] == q);
        }
    }
    assert forall|q: K| m2.contains_key(q) implies m2[q] == m1[q] by {
        let i = keys2.index_of(q);
        assert(0 <= i < keys2.len() && keys2[i] == q);
        if i < keys.len() {
            assert(keys[i] == q);
            lemma_index_of_unique(keys, i);
        }
    }
    assert(m2 =~= m1);
}

/// Replacing the value at index `i` overwrites the map at the key of `i`.
pub proof fn lemma_pairs_update<K, V>(keys: Seq<K>, vals: Seq<V>, i: int, v: V)
    requires
        keys.no_duplicates(),
        keys.len() == vals.len(),
        0 <= i < keys.len(),
    ensures
        pairs_map(keys, vals.update(i, v)) == pairs_map(keys, vals).insert(keys[i], v),
{
    let m2 = pairs_map(keys, vals.update(i, v));
    let m1 = pairs_map(keys, vals).insert(keys[i], v);
    lemma_index_of_unique(keys, i);
    assert forall|q: K| m2.contains_key(q) implies m2[q] == m1[q] by {
        let j = keys.index_of(q);
        assert(0 <= j < keys.len() && keys[j] == q);
    }
    assert(m2 =~= m1);
}

/// Dropping index `i` from both lists removes the key of `i` from the map.
pub proof fn lemma_pairs_remove<K, V>(keys: Seq<K>, vals: Seq<V>, i: int)
    requires
        keys.no_duplicates(),
        keys.len() == vals.len(),
        0 <= i < keys.len(),
    ensures
        keys.remove(i).no_duplicates(),
        !keys.remove(i).contains(keys[i]),
        pairs_map(keys.remove(i), vals.remove(i)) == pairs_map(keys, vals).remove(keys[i]),
{
    let keys2 = keys.remove(i);
    let vals2 = vals.remove(i);
    assert forall|a: int| 0 <= a < keys2.len() implies keys2[a] == keys[if a < i { a } else { a + 1 }]
        && vals2[a] == vals[if a < i { a } else { a + 1 }] by {}
    assert forall|a: int, b: int| 0 <= a < keys2.len() && 0 <= b < keys2.len() && a != b implies keys2[a] != keys2[b] by {}
    if keys2.contains(keys[i]) {
        let a = choose|a: int| 0 <= a < keys2.len() && keys2[a] == keys[i];
        assert(keys[if a < i { a } else { a + 1 }] == keys[i]);
    }
    let m2 = pairs_map(keys2, vals2);
    let m1 = pairs_map(keys, vals).remove(keys[i]);
    assert forall|q: K| m2.contains_key(q) <==> m1.contains_key(q) by {
        if keys2.contains(q) {
            let a = choose|a: int| 0 <= a < keys2.len() && keys2[a] == q;
            assert(keys[if a < i { a } else { a + 1 }] == q);
            assert(keys.contains(q));
        }
        if keys.contains(q) && q != keys[i] {
            let j = choose|j: int| 0 <= j < keys.len() && keys[j] == q;
            assert(keys2[if j < i { j } else { j - 1 }] == q);
        }
    }
    assert forall|q: K| m2.contains_key(q) implies m2[q] == m1[q] by {
        let a = keys2.index_of(q);
        assert(0 <= a < keys2.len() && keys2[a] == q);
        let j = if a < i { a } else { a + 1 };
        assert(keys[j] == q);
        lemma_index_of_unique(keys, j);
    }
    assert(m2 =~= m1);
}

} // verus!
