//! Recency lists: what a least-recently-used cache holds, as a mathematical
//! sequence of entries, the most recently used first.

use vstd::prelude::*;

verus! {

/// No key occurs in two entries.
pub open spec fn distinct_keys<K, V>(entries: Seq<(K, V)>) -> bool {
    forall|i: int, j: int|
        0 <= i < entries.len() && 0 <= j < entries.len() && i != j ==> #[trigger] entries[i].0
            != #[trigger] entries[j].0
}

/// Some entry has the key `key`.
pub open spec fn holds<K, V>(entries: Seq<(K, V)>, key: K) -> bool {
    exists|i: int| 0 <= i < entries.len() && #[trigger] entries[i].0 == key
}

/// The place of the entry with the key `key`.
pub open spec fn slot<K, V>(entries: Seq<(K, V)>, key: K) -> int
    recommends
        holds(entries, key),
{
    choose|i: int| 0 <= i < entries.len() && #[trigger] entries[i].0 == key
}

/// The value kept under `key`, if there is one.
pub open spec fn find<K, V>(entries: Seq<(K, V)>, key: K) -> Option<V> {
    if holds(entries, key) {
        Some(entries[slot(entries, key)].1)
    } else {
        None
    }
}

/// The list after a use of `key`: its entry, if there is one, moves to the front.
pub open spec fn touch<K, V>(entries: Seq<(K, V)>, key: K) -> Seq<(K, V)> {
    if holds(entries, key) {
        seq![entries[slot(entries, key)]] + entries.remove(slot(entries, key))
    } else {
        entries
    }
}

/// An insertion of `key` has to make room for it.
pub open spec fn evicts<K, V>(entries: Seq<(K, V)>, capacity: nat, key: K) -> bool {
    !holds(entries, key) && entries.len() >= capacity
}

/// The list after `value` was stored under `key`: the new entry is at the front, and
/// takes the place of the entry with the same key or, in a full list, of the entry
/// that was used least recently.
pub open spec fn put<K, V>(entries: Seq<(K, V)>, capacity: nat, key: K, value: V) -> Seq<(K, V)> {
    let rest = if holds(entries, key) {
        entries.remove(slot(entries, key))
    } else if evicts(entries, capacity, key) {
        entries.drop_last()
    } else {
        entries
    };
    seq![(key, value)] + rest
}

/// What a cache is at one moment: its entries and the number of them that it may hold.
#[verifier::ext_equal]
pub struct MemoryState {
    pub entries: Seq<(Seq<char>, Seq<u8>)>,
    pub capacity: nat,
}

impl MemoryState {
    /// A cache holds no key twice and never more entries than its capacity.
    pub open spec fn valid(self) -> bool {
        &&& 0 < self.capacity
        &&& self.entries.len() <= self.capacity
        &&& distinct_keys(self.entries)
    }

    pub open spec fn find(self, key: Seq<char>) -> Option<Seq<u8>> {
        find(self.entries, key)
    }

    pub open spec fn touch(self, key: Seq<char>) -> MemoryState {
        MemoryState { entries: touch(self.entries, key), ..self }
    }

    pub open spec fn put(self, key: Seq<char>, value: Seq<u8>) -> MemoryState {
        MemoryState { entries: put(self.entries, self.capacity, key, value), ..self }
    }
}

/// The view of an optional value.
pub open spec fn bytes_of(value: Option<Vec<u8>>) -> Option<Seq<u8>> {
    match value {
        Some(v) => Some(v@),
        None => None,
    }
}

} // verus!
