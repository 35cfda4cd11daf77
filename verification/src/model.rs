//! The cache as a sequence of pairs, ordered from the least to the most
//! recently used, and what looking up and inserting do to it.

use vstd::prelude::*;

verus! {

/// Whether some pair is filed under `key`.
pub open spec fn holds<K, V>(entries: Seq<(K, V)>, key: K) -> bool {
    exists|i: int| 0 <= i < entries.len() && (#[trigger] entries[i]).0 == key
}

/// A position at which `key` is filed, where there is one.
pub open spec fn slot<K, V>(entries: Seq<(K, V)>, key: K) -> int {
    choose|i: int| 0 <= i < entries.len() && (#[trigger] entries[i]).0 == key
}

/// The value filed under `key`.
pub open spec fn lookup<K, V>(entries: Seq<(K, V)>, key: K) -> Option<V> {
    if holds(entries, key) {
        Some(entries[slot(entries, key)].1)
    } else {
        None
    }
}

/// The entries after `key` was used: its pair is now the most recently used.
pub open spec fn refreshed<K, V>(entries: Seq<(K, V)>, key: K) -> Seq<(K, V)> {
    if holds(entries, key) {
        let i = slot(entries, key);
        entries.remove(i).push(entries[i])
    } else {
        entries
    }
}

/// The entries without the pair of `key`.
pub open spec fn forgotten<K, V>(entries: Seq<(K, V)>, key: K) -> Seq<(K, V)> {
    if holds(entries, key) {
        entries.remove(slot(entries, key))
    } else {
        entries
    }
}

/// The key whose pair leaves when `key` is inserted, if one does: the least
/// recently used, once there are more pairs than `capacity`.
pub open spec fn evicted<K, V>(entries: Seq<(K, V)>, capacity: nat, key: K) -> Option<K> {
    let kept = forgotten(entries, key);
    if kept.len() + 1 > capacity {
        Some(if kept.len() == 0 { key } else { kept[0].0 })
    } else {
        None
    }
}

/// The entries after `value` was inserted under `key`: an earlier pair of
/// `key` is replaced, the new pair is the most recently used, and the least
/// recently used pair leaves once there are more pairs than `capacity`.
pub open spec fn inserted<K, V>(entries: Seq<(K, V)>, capacity: nat, key: K, value: V) -> Seq<
    (K, V),
> {
    let grown = forgotten(entries, key).push((key, value));
    if grown.len() > capacity {
        grown.drop_first()
    } else {
        grown
    }
}

/// One use of a cache: a lookup of a key, or the insertion of a value under
/// a key.
pub enum Access<K, V> {
    Lookup(K),
    Insert(K, V),
}

/// The entries after one use.
pub open spec fn accessed<K, V>(entries: Seq<(K, V)>, capacity: nat, access: Access<K, V>) -> Seq<
    (K, V),
> {
    match access {
        Access::Lookup(key) => refreshed(entries, key),
        Access::Insert(key, value) => inserted(entries, capacity, key, value),
    }
}

/// The entries after a series of uses, in their order.
pub open spec fn replayed<K, V>(
    entries: Seq<(K, V)>,
    capacity: nat,
    accesses: Seq<Access<K, V>>,
) -> Seq<(K, V)>
    decreases accesses.len(),
{
    if accesses.len() == 0 {
        entries
    } else {
        accessed(replayed(entries, capacity, accesses.drop_last()), capacity, accesses.last())
    }
}

/// No key is filed twice.
pub open spec fn distinct_keys<K, V>(entries: Seq<(K, V)>) -> bool {
    forall|i: int, j: int|
        0 <= i < j < entries.len() ==> (#[trigger] entries[i]).0 != (#[trigger] entries[j]).0
}

/// What holds of every cache: no key is filed twice, and there are no more
/// pairs than the capacity.
pub open spec fn well_formed<K, V>(entries: Seq<(K, V)>, capacity: nat) -> bool {
    distinct_keys(entries) && entries.len() <= capacity
}

/// Where keys are distinct, the pair at a position is the one that a lookup of
/// its key finds.
pub proof fn lemma_lookup_at<K, V>(entries: Seq<(K, V)>, i: int)
    requires
        distinct_keys(entries),
        0 <= i < entries.len(),
    ensures
        holds(entries, entries[i].0),
        slot(entries, entries[i].0) == i,
        lookup(entries, entries[i].0) == Some(entries[i].1),
{
}

/// Using a key keeps a cache well formed and changes no lookup.
pub proof fn lemma_refreshed<K, V>(entries: Seq<(K, V)>, capacity: nat, key: K, other: K)
    requires
        well_formed(entries, capacity),
    ensures
        well_formed(refreshed(entries, key), capacity),
        refreshed(entries, key).len() == entries.len(),
        lookup(refreshed(entries, key), other) == lookup(entries, other),
{
    if holds(entries, key) {
        let after = refreshed(entries, key);
        let i = slot(entries, key);
        let last = entries.len() - 1;
        // `after` is `entries` with the pair at `i` moved to the end.
        assert forall|p: int| 0 <= p <= last implies #[trigger] after[p] == entries[if p < i {
            p
        } else if p < last {
            p + 1
        } else {
            i
        }] by {}
        assert(distinct_keys(after));
        if holds(entries, other) {
            let a = slot(entries, other);
            lemma_lookup_at(after, if a < i { a } else if a == i { last } else { a - 1 });
        }
    }
}

/// Forgetting a key leaves the other pairs in their order, and none of them
/// under that key.
pub proof fn lemma_forgotten<K, V>(entries: Seq<(K, V)>, key: K, other: K)
    requires
        distinct_keys(entries),
    ensures
        distinct_keys(forgotten(entries, key)),
        forgotten(entries, key).len() <= entries.len(),
        !holds(forgotten(entries, key), key),
        other != key ==> lookup(forgotten(entries, key), other) == lookup(entries, other),
        !holds(entries, key) ==> forgotten(entries, key) == entries,
{
    if holds(entries, key) {
        let kept = forgotten(entries, key);
        let i = slot(entries, key);
        // `kept` is `entries` with the pair at `i` left out.
        assert forall|p: int| 0 <= p < kept.len() implies #[trigger] kept[p] == entries[if p < i {
            p
        } else {
            p + 1
        }] by {}
        assert(distinct_keys(kept));
        assert(!holds(kept, key));
        if other != key && holds(entries, other) {
            let a = slot(entries, other);
            lemma_lookup_at(kept, if a < i { a } else { a - 1 });
        }
    }
}

/// Inserting keeps a cache well formed.
pub proof fn lemma_inserted_well_formed<K, V>(
    entries: Seq<(K, V)>,
    capacity: nat,
    key: K,
    value: V,
)
    requires
        well_formed(entries, capacity),
    ensures
        well_formed(inserted(entries, capacity, key, value), capacity),
{
    lemma_forgotten(entries, key, key);
    let grown = forgotten(entries, key).push((key, value));
    assert(distinct_keys(grown));
    if grown.len() > capacity {
        let after = grown.drop_first();
        assert forall|p: int| 0 <= p < after.len() implies #[trigger] after[p] == grown[p + 1] by {}
        assert(distinct_keys(after));
    }
}

/// A value inserted into a cache that can hold anything is what the next
/// lookup of its key finds.
pub proof fn lemma_insert_then_lookup<K, V>(
    entries: Seq<(K, V)>,
    capacity: nat,
    key: K,
    value: V,
)
    requires
        well_formed(entries, capacity),
        capacity >= 1,
    ensures
        lookup(inserted(entries, capacity, key, value), key) == Some(value),
{
    lemma_inserted_well_formed(entries, capacity, key, value);
    let after = inserted(entries, capacity, key, value);
    // The new pair is the last one.
    lemma_lookup_at(after, after.len() - 1);
}

/// Inserting under one key changes what is found under another key in one
/// case only: the other key's pair was the one that had to leave.
pub proof fn lemma_insert_keeps_other_keys<K, V>(
    entries: Seq<(K, V)>,
    capacity: nat,
    key: K,
    value: V,
    other: K,
)
    requires
        well_formed(entries, capacity),
        other != key,
    ensures
        lookup(inserted(entries, capacity, key, value), other) == if evicted(
            entries,
            capacity,
            key,
        ) == Some(other) {
            None
        } else {
            lookup(entries, other)
        },
{
    lemma_inserted_well_formed(entries, capacity, key, value);
    lemma_forgotten(entries, key, other);
    let kept = forgotten(entries, key);
    let grown = kept.push((key, value));
    let after = inserted(entries, capacity, key, value);
    // `after` is `grown`, without its first pair if that had to leave.
    let shift: int = if grown.len() > capacity { 1 } else { 0 };
    assert forall|p: int| 0 <= p < after.len() implies #[trigger] after[p] == grown[p + shift] by {}
    if holds(kept, other) {
        let a = slot(kept, other);
        lemma_lookup_at(kept, a);
        if a >= shift {
            lemma_lookup_at(after, a - shift);
        }
    }
}

/// Inserting a new key into a full cache evicts the least recently used
/// pair: the next lookup of its key finds nothing, and the pairs behind it
/// move up in their order.
pub proof fn lemma_insert_into_full_cache<K, V>(
    entries: Seq<(K, V)>,
    capacity: nat,
    key: K,
    value: V,
)
    requires
        well_formed(entries, capacity),
        entries.len() == capacity,
        capacity >= 1,
        !holds(entries, key),
    ensures
        evicted(entries, capacity, key) == Some(entries[0].0),
        inserted(entries, capacity, key, value) == entries.drop_first().push((key, value)),
        lookup(inserted(entries, capacity, key, value), entries[0].0) is None,
{
    lemma_insert_keeps_other_keys(entries, capacity, key, value, entries[0].0);
}

/// Whatever use is made of a cache, it stays well formed; and as long as
/// nothing is inserted under a key, a lookup of it finds what it found
/// before or, once its pair was evicted, nothing: never another value.
pub proof fn lemma_value_stays_until_evicted<K, V>(
    entries: Seq<(K, V)>,
    capacity: nat,
    accesses: Seq<Access<K, V>>,
    key: K,
)
    requires
        well_formed(entries, capacity),
        forall|i: int|
            0 <= i < accesses.len() ==> !(#[trigger] accesses[i] matches Access::Insert(k, _)
                && k == key),
    ensures
        well_formed(replayed(entries, capacity, accesses), capacity),
        lookup(replayed(entries, capacity, accesses), key) == lookup(entries, key) || lookup(
            replayed(entries, capacity, accesses),
            key,
        ) is None,
    decreases accesses.len(),
{
    if accesses.len() > 0 {
        let earlier = accesses.drop_last();
        lemma_value_stays_until_evicted(entries, capacity, earlier, key);
        let before = replayed(entries, capacity, earlier);
        match accesses.last() {
            Access::Lookup(other) => {
                lemma_refreshed(before, capacity, other, key);
            },
            Access::Insert(other, value) => {
                lemma_inserted_well_formed(before, capacity, other, value);
                lemma_insert_keeps_other_keys(before, capacity, other, value, key);
            },
        }
    }
}

} // verus!
