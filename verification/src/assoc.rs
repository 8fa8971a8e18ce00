//! Association lists as finite maps: the theory behind the vector-backed
//! tables of this crate.

use vstd::prelude::*;

verus! {

/// Some entry of the list has the key.
pub open spec fn has_key<K, V>(entries: Seq<(K, V)>, key: K) -> bool {
    exists|i: int| 0 <= i < entries.len() && (#[trigger] entries[i]).0 == key
}

/// The position of an entry with the key, where one exists.
pub open spec fn index_of<K, V>(entries: Seq<(K, V)>, key: K) -> int {
    choose|i: int| 0 <= i < entries.len() && (#[trigger] entries[i]).0 == key
}

/// No key occurs twice.
pub open spec fn distinct_keys<K, V>(entries: Seq<(K, V)>) -> bool {
    forall|i: int, j: int|
        0 <= i < j < entries.len() ==> (#[trigger] entries[i]).0 != (#[trigger] entries[j]).0
}

/// The map from each key of the list to the value listed with it.
pub open spec fn as_map<K, V>(entries: Seq<(K, V)>) -> Map<K, V> {
    Map::new(|key: K| has_key(entries, key), |key: K| entries[index_of(entries, key)].1)
}

/// In a list without repeated keys, each entry is what the map holds under
/// its key.
pub proof fn lemma_entry_in_map<K, V>(entries: Seq<(K, V)>, i: int)
    requires
        distinct_keys(entries),
        0 <= i < entries.len(),
    ensures
        has_key(entries, entries[i].0),
        index_of(entries, entries[i].0) == i,
        as_map(entries).dom().contains(entries[i].0),
        as_map(entries)[entries[i].0] == entries[i].1,
{
    let j = index_of(entries, entries[i].0);
    assert(0 <= j < entries.len() && entries[j].0 == entries[i].0);
    if j < i {
        assert(entries[j].0 != entries[i].0);
    }
    if i < j {
        assert(entries[i].0 != entries[j].0);
    }
}

/// Appending an entry under a fresh key inserts it into the map.
pub proof fn lemma_push_fresh<K, V>(entries: Seq<(K, V)>, key: K, value: V)
    requires
        distinct_keys(entries),
        !has_key(entries, key),
    ensures
        distinct_keys(entries.push((key, value))),
        as_map(entries.push((key, value))) == as_map(entries).insert(key, value),
{
    let grown = entries.push((key, value));
    assert forall|i: int, j: int| 0 <= i < j < grown.len() implies (#[trigger] grown[i]).0 != (
    #[trigger] grown[j]).0 by {
        if j < entries.len() {
            assert(entries[i].0 != entries[j].0);
        } else {
            assert(grown[i] == entries[i]);
        }
    }
    assert forall|k: K| has_key(grown, k) <==> (k == key || has_key(entries, k)) by {
        if has_key(grown, k) {
            let i = index_of(grown, k);
            if i < entries.len() {
                assert(entries[i].0 == k);
            }
        }
        if k == key {
            assert(grown[entries.len() as int].0 == k);
        }
        if has_key(entries, k) {
            let i = index_of(entries, k);
            assert(grown[i].0 == k);
        }
    }
    assert forall|k: K| has_key(grown, k) implies #[trigger] as_map(grown)[k] == as_map(
        entries,
    ).insert(key, value)[k] by {
        if k == key {
            lemma_entry_in_map(grown, entries.len() as int);
        } else {
            let i = index_of(entries, k);
            assert(grown[i] == entries[i]);
            lemma_entry_in_map(grown, i);
        }
    }
    assert(as_map(grown) =~= as_map(entries).insert(key, value));
}

/// Replacing the value of an entry, key unchanged, overwrites it in the map.
pub proof fn lemma_replace_value<K, V>(entries: Seq<(K, V)>, i: int, value: V)
    requires
        distinct_keys(entries),
        0 <= i < entries.len(),
    ensures
        distinct_keys(entries.update(i, (entries[i].0, value))),
        as_map(entries.update(i, (entries[i].0, value))) == as_map(entries).insert(
            entries[i].0,
            value,
        ),
{
    let key = entries[i].0;
    let changed = entries.update(i, (key, value));
    assert forall|a: int, b: int| 0 <= a < b < changed.len() implies (#[trigger] changed[a]).0 != (
    #[trigger] changed[b]).0 by {
        assert(changed[a].0 == entries[a].0);
        assert(changed[b].0 == entries[b].0);
    }
    assert forall|k: K| has_key(changed, k) <==> has_key(entries, k) by {
        if has_key(changed, k) {
            let j = index_of(changed, k);
            assert(entries[j].0 == k);
        }
        if has_key(entries, k) {
            let j = index_of(entries, k);
            assert(changed[j].0 == k);
        }
    }
    lemma_entry_in_map(entries, i);
    assert forall|k: K| has_key(changed, k) implies #[trigger] as_map(changed)[k] == as_map(
        entries,
    ).insert(key, value)[k] by {
        let j = index_of(entries, k);
        assert(changed[j].0 == k);
        lemma_entry_in_map(changed, j);
        lemma_entry_in_map(entries, j);
    }
    assert(as_map(changed) =~= as_map(entries).insert(key, value));
}

/// A list without repeated keys has as many keys as entries.
pub proof fn lemma_map_size<K, V>(entries: Seq<(K, V)>)
    requires
        distinct_keys(entries),
    ensures
        as_map(entries).dom().finite(),
        as_map(entries).dom().len() == entries.len(),
    decreases entries.len(),
{
    if entries.len() == 0 {
        assert(as_map(entries).dom() =~= Set::<K>::empty());
    } else {
        let front = entries.drop_last();
        let last = entries.last();
        assert forall|i: int, j: int| 0 <= i < j < front.len() implies (#[trigger] front[i]).0 != (
        #[trigger] front[j]).0 by {
            assert(entries[i].0 != entries[j].0);
        }
        assert(!has_key(front, last.0)) by {
            if has_key(front, last.0) {
                let i = index_of(front, last.0);
                assert(entries[i].0 != entries[entries.len() - 1].0);
            }
        }
        lemma_map_size(front);
        lemma_push_fresh(front, last.0, last.1);
        assert(front.push((last.0, last.1)) =~= entries);
        assert(as_map(entries).dom() =~= as_map(front).dom().insert(last.0));
    }
}

} // verus!
