//! What holds of the cache, whatever is read and written.

use vstd::prelude::*;

use crate::cache::measurement;
use crate::cache::measurement::CacheStorageName;
use crate::cache::model;
use crate::cache::model::MemoryState;
use crate::cache::secondary::SecondaryCacheStorage;
use crate::cache::secondary::SecondaryCall;
use crate::cache::storage;
use crate::cache::storage::CacheStorageState;
use crate::cache::storage::LookupView;
use crate::cache::storage::RedisOpening;

verus! {

/// One access to the cache.
pub enum Access {
    Get(Seq<char>),
    Put(Seq<char>, Seq<u8>),
}

/// The access stores a value under `key`.
pub open spec fn stores(access: Access, key: Seq<char>) -> bool {
    match access {
        Access::Get(_) => false,
        Access::Put(stored, _) => stored == key,
    }
}

/// The cache after one access.
pub open spec fn after(memory: MemoryState, access: Access) -> MemoryState {
    match access {
        Access::Get(key) => memory.touch(key),
        Access::Put(key, value) => memory.put(key, value),
    }
}

/// The cache after a sequence of accesses, the first one first.
pub open spec fn after_all(memory: MemoryState, accesses: Seq<Access>) -> MemoryState
    decreases accesses.len(),
{
    if accesses.len() == 0 {
        memory
    } else {
        after(after_all(memory, accesses.drop_last()), accesses.last())
    }
}

/// In a list without duplicate keys, the place of a key is the only one that has it.
proof fn lemma_slot<K, V>(entries: Seq<(K, V)>, i: int)
    requires
        model::distinct_keys(entries),
        0 <= i < entries.len(),
    ensures
        model::holds(entries, entries[i].0),
        model::slot(entries, entries[i].0) == i,
        model::find(entries, entries[i].0) == Some(entries[i].1),
{
    let key = entries[i].0;
    assert(model::holds(entries, key));
    let s = model::slot(entries, key);
    assert(0 <= s < entries.len() && entries[s].0 == key);
}

/// A use of a key keeps the cache valid.
pub proof fn law_touch_keeps_validity(memory: MemoryState, key: Seq<char>)
    requires
        memory.valid(),
    ensures
        memory.touch(key).valid(),
{
    let e = memory.entries;
    if model::holds(e, key) {
        let s = model::slot(e, key);
        let t = memory.touch(key).entries;
        assert forall|i: int, j: int| 0 <= i < t.len() && 0 <= j < t.len() && i != j implies
            #[trigger] t[i].0 != #[trigger] t[j].0 by {
            let from = |n: int| if n == 0 { s } else if n <= s { n - 1 } else { n };
            assert(t[i] == e[from(i)]);
            assert(t[j] == e[from(j)]);
        }
    }
}

/// Storing an entry keeps the cache valid: it never holds more entries than its
/// capacity, nor a key twice.
pub proof fn law_put_keeps_validity(memory: MemoryState, key: Seq<char>, value: Seq<u8>)
    requires
        memory.valid(),
    ensures
        memory.put(key, value).valid(),
{
    let e = memory.entries;
    let t = memory.put(key, value).entries;
    let s = if model::holds(e, key) { model::slot(e, key) } else { e.len() as int };
    let from = |n: int| if n <= s { n - 1 } else { n };
    assert forall|i: int, j: int| 0 <= i < t.len() && 0 <= j < t.len() && i != j implies
        #[trigger] t[i].0 != #[trigger] t[j].0 by {
        if i > 0 {
            assert(t[i] == e[from(i)]);
        }
        if j > 0 {
            assert(t[j] == e[from(j)]);
        }
    }
}

/// What was stored under a key is what a read of that key then finds.
pub proof fn law_read_after_write(memory: MemoryState, key: Seq<char>, value: Seq<u8>)
    requires
        memory.valid(),
    ensures
        memory.put(key, value).find(key) == Some(value),
{
    law_put_keeps_validity(memory, key, value);
    let t = memory.put(key, value).entries;
    assert(t[0] == (key, value));
    lemma_slot(t, 0);
}

/// Storing an entry changes what is found under no other key, but for the least recently
/// used one where the cache is full and the key is new to it: that one is gone.
pub proof fn law_write_keeps_other_keys(
    memory: MemoryState,
    key: Seq<char>,
    value: Seq<u8>,
    other: Seq<char>,
)
    requires
        memory.valid(),
        other != key,
    ensures
        memory.put(key, value).find(other) == (if model::evicts(
            memory.entries,
            memory.capacity,
            key,
        ) && other == memory.entries.last().0 {
            None
        } else {
            memory.find(other)
        }),
{
    law_put_keeps_validity(memory, key, value);
    let e = memory.entries;
    let t = memory.put(key, value).entries;
    let s = if model::holds(e, key) { model::slot(e, key) } else { e.len() as int };
    if model::holds(t, other) {
        let n = model::slot(t, other);
        assert(n > 0);
        assert(t[n] == e[if n <= s { n - 1 } else { n }]);
        lemma_slot(e, if n <= s { n - 1 } else { n });
        lemma_slot(t, n);
        if model::evicts(e, memory.capacity, key) {
            assert(e[n - 1].0 != e[e.len() - 1].0);
        }
    } else if model::holds(e, other) {
        let n = model::slot(e, other);
        assert(e[n].0 == other);
        let m = if n < s { n + 1 } else { n };
        if m < t.len() {
            assert(t[m] == e[n]);
            assert(false);
        }
        assert(model::evicts(e, memory.capacity, key));
    }
}

/// A read changes what is found under no key, nor how many entries there are.
pub proof fn law_read_keeps_contents(memory: MemoryState, key: Seq<char>, other: Seq<char>)
    requires
        memory.valid(),
    ensures
        memory.touch(key).find(other) == memory.find(other),
        memory.touch(key).entries.len() == memory.entries.len(),
{
    law_touch_keeps_validity(memory, key);
    let e = memory.entries;
    let t = memory.touch(key).entries;
    if model::holds(e, key) {
        let s = model::slot(e, key);
        if model::holds(t, other) {
            let n = model::slot(t, other);
            let m = if n == 0 { s } else if n <= s { n - 1 } else { n };
            assert(t[n] == e[m]);
            lemma_slot(e, m);
        } else if model::holds(e, other) {
            let n = model::slot(e, other);
            let m = if n == s { 0 } else if n < s { n + 1 } else { n };
            assert(t[m] == e[n]);
        }
    }
}

/// Any sequence of accesses keeps the cache valid and its capacity as it was.
pub proof fn law_accesses_keep_validity(memory: MemoryState, accesses: Seq<Access>)
    requires
        memory.valid(),
    ensures
        after_all(memory, accesses).valid(),
        after_all(memory, accesses).capacity == memory.capacity,
    decreases accesses.len(),
{
    if accesses.len() > 0 {
        law_accesses_keep_validity(memory, accesses.drop_last());
        let before = after_all(memory, accesses.drop_last());
        match accesses.last() {
            Access::Get(key) => law_touch_keeps_validity(before, key),
            Access::Put(key, value) => law_put_keeps_validity(before, key, value),
        }
    }
}

/// The value that was stored last under `key` in the course of the accesses, or the one
/// that was there before them.
pub open spec fn last_stored(
    memory: MemoryState,
    accesses: Seq<Access>,
    key: Seq<char>,
) -> Option<Seq<u8>>
    decreases accesses.len(),
{
    if accesses.len() == 0 {
        memory.find(key)
    } else if stores(accesses.last(), key) {
        Some(accesses.last()->Put_1)
    } else {
        last_stored(memory, accesses.drop_last(), key)
    }
}

/// A read finds nothing or what was stored last under its key: never a stale value, nor
/// one of another key.
pub proof fn law_reads_find_last_write(
    memory: MemoryState,
    accesses: Seq<Access>,
    key: Seq<char>,
)
    requires
        memory.valid(),
    ensures
        after_all(memory, accesses).find(key) is Some ==> after_all(memory, accesses).find(key)
            == last_stored(memory, accesses, key),
    decreases accesses.len(),
{
    if accesses.len() > 0 {
        let earlier = accesses.drop_last();
        let before = after_all(memory, earlier);
        law_reads_find_last_write(memory, earlier, key);
        law_accesses_keep_validity(memory, earlier);
        match accesses.last() {
            Access::Get(other) => law_read_keeps_contents(before, other, key),
            Access::Put(other, value) => {
                if other == key {
                    law_read_after_write(before, key, value);
                } else {
                    law_write_keeps_other_keys(before, other, value, key);
                }
            },
        }
    }
}

/// The key that an access is about.
pub open spec fn key_of(access: Access) -> Seq<char> {
    match access {
        Access::Get(key) => key,
        Access::Put(key, _) => key,
    }
}

/// The keys that the accesses are about, but for `key`.
pub open spec fn other_keys(accesses: Seq<Access>, key: Seq<char>) -> Set<Seq<char>>
    decreases accesses.len(),
{
    if accesses.len() == 0 {
        Set::empty()
    } else {
        let earlier = other_keys(accesses.drop_last(), key);
        if key_of(accesses.last()) == key {
            earlier
        } else {
            earlier.insert(key_of(accesses.last()))
        }
    }
}

/// An entry stays as long as fewer other keys are used than the cache has room for: only
/// the least recently used entry ever leaves.
pub proof fn law_recent_entries_stay(
    memory: MemoryState,
    key: Seq<char>,
    value: Seq<u8>,
    accesses: Seq<Access>,
)
    requires
        memory.valid(),
        other_keys(accesses, key).len() < memory.capacity,
        forall|i: int| 0 <= i < accesses.len() ==> !#[trigger] stores(accesses[i], key),
    ensures
        after_all(memory.put(key, value), accesses).find(key) == Some(value),
{
    lemma_rank(memory, key, value, accesses);
}

proof fn lemma_other_keys_finite(accesses: Seq<Access>, key: Seq<char>)
    ensures
        other_keys(accesses, key).finite(),
        !other_keys(accesses, key).contains(key),
    decreases accesses.len(),
{
    if accesses.len() > 0 {
        lemma_other_keys_finite(accesses.drop_last(), key);
    }
}

/// A set that has the first `n` keys of a list without duplicates has at least `n` members.
proof fn lemma_front_fits<K, V>(entries: Seq<(K, V)>, n: nat, set: Set<K>)
    requires
        model::distinct_keys(entries),
        n <= entries.len(),
        set.finite(),
        forall|i: int| 0 <= i < n ==> set.contains(#[trigger] entries[i].0),
    ensures
        n <= set.len(),
    decreases n,
{
    if n > 0 {
        lemma_front_fits(entries, (n - 1) as nat, set.remove(entries[n - 1].0));
    }
}

/// After accesses that do not store `key` anew, and that use fewer other keys than there is
/// room for, its entry is there, and those before it have keys that were used.
proof fn lemma_rank(
    memory: MemoryState,
    key: Seq<char>,
    value: Seq<u8>,
    accesses: Seq<Access>,
)
    requires
        memory.valid(),
        other_keys(accesses, key).len() < memory.capacity,
        forall|i: int| 0 <= i < accesses.len() ==> !#[trigger] stores(accesses[i], key),
    ensures
        ({
            let entries = after_all(memory.put(key, value), accesses).entries;
            &&& model::find(entries, key) == Some(value)
            &&& forall|i: int|
                0 <= i < model::slot(entries, key) ==> other_keys(accesses, key).contains(
                    #[trigger] entries[i].0,
                )
        }),
    decreases accesses.len(),
{
    law_put_keeps_validity(memory, key, value);
    let start = memory.put(key, value);
    if accesses.len() == 0 {
        assert(start.entries[0] == (key, value));
        lemma_slot(start.entries, 0);
    } else {
        let earlier = accesses.drop_last();
        let used = other_keys(accesses, key);
        let used_earlier = other_keys(earlier, key);
        assert forall|i: int| 0 <= i < earlier.len() implies !#[trigger] stores(
            earlier[i],
            key,
        ) by {
            assert(earlier[i] == accesses[i]);
        }
        lemma_other_keys_finite(accesses, key);
        lemma_other_keys_finite(earlier, key);
        vstd::set_lib::lemma_len_subset(used_earlier, used);
        lemma_rank(memory, key, value, earlier);
        law_accesses_keep_validity(start, earlier);
        law_accesses_keep_validity(start, accesses);
        let e = after_all(start, earlier).entries;
        let t = after_all(start, accesses).entries;
        let n = model::slot(e, key);
        assert(e[n] == (key, value));
        // `other` is the key of the last access, `s` the place that it leaves, and `m` the
        // place where the entry of `key` then is.
        let other = key_of(accesses.last());
        let s = if model::holds(e, other) {
            model::slot(e, other)
        } else {
            e.len() as int
        };
        let m = match accesses.last() {
            Access::Get(_) => if !model::holds(e, other) || n > s {
                n
            } else if n == s {
                0
            } else {
                n + 1
            },
            Access::Put(_, _) => if n < s {
                n + 1
            } else {
                n
            },
        };
        assert(!stores(accesses[accesses.len() - 1], key));
        if m >= t.len() {
            // The cache was full, and the entry of `key` was the last.
            assert(!model::holds(e, other));
            let front = seq![(other, value)] + e;
            assert forall|i: int| 0 <= i < n + 1 implies used.contains(
                #[trigger] front[i].0,
            ) by {
                if i > 0 {
                    assert(front[i] == e[i - 1]);
                }
            }
            assert(model::distinct_keys(front)) by {
                assert forall|i: int, j: int|
                    0 <= i < front.len() && 0 <= j < front.len() && i != j implies
                    #[trigger] front[i].0 != #[trigger] front[j].0 by {
                    if i > 0 {
                        assert(front[i] == e[i - 1]);
                    }
                    if j > 0 {
                        assert(front[j] == e[j - 1]);
                    }
                }
            }
            lemma_front_fits(front, (n + 1) as nat, used);
            assert(false);
        }
        assert(t[m] == e[n]);
        lemma_slot(t, m);
        assert forall|i: int| 0 <= i < m implies used.contains(#[trigger] t[i].0) by {
            if i > 0 {
                let moved = accesses.last() is Put || model::holds(e, other);
                assert(t[i] == e[if moved && i <= s { i - 1 } else { i }]);
            }
        }
    }
}

/// What was stored under a key is answered from memory by the next read of that key.
pub proof fn law_stored_value_is_a_hit<S>(
    state: CacheStorageState<S>,
    key: Seq<char>,
    value: Seq<u8>,
)
    requires
        state.memory.valid(),
    ensures
        state.put(key, value).lookup(key) == LookupView::Hit(value),
{
    law_read_after_write(state.memory, key, value);
}

/// A value that the second level answered is kept: the next read of the same key is
/// answered from memory, with that value, and does not ask the second level again.
pub proof fn law_answered_value_is_kept<S>(
    state: CacheStorageState<S>,
    key: Seq<char>,
    value: Seq<u8>,
)
    requires
        state.memory.valid(),
    ensures
        state.replied(key, Some(value)).lookup(key) == LookupView::Hit(value),
{
    law_read_after_write(state.memory, key, value);
}

/// A read that finds nothing in either level leaves the cache as it was, and so the next
/// read of any key goes the same way as before.
pub proof fn law_unanswered_read_changes_nothing<S>(state: CacheStorageState<S>, key: Seq<char>)
    requires
        !(state.lookup(key) is Hit),
    ensures
        state.touch(key) == state,
        state.touch(key).replied(key, None) == state,
{
}

/// A read changes how no later read is answered.
pub proof fn law_read_keeps_answers<S>(
    state: CacheStorageState<S>,
    key: Seq<char>,
    other: Seq<char>,
)
    requires
        state.memory.valid(),
    ensures
        state.touch(key).lookup(other) == state.lookup(other),
{
    law_read_keeps_contents(state.memory, key, other);
}

/// The second level is asked exactly where there is one and memory has no such key.
pub proof fn law_secondary_asked_only_on_miss<S>(state: CacheStorageState<S>, key: Seq<char>)
    ensures
        state.lookup(key) is AskSecondary <==> (state.secondary is Some && state.memory.find(
            key,
        ) is None),
        state.lookup(key) is AskSecondary ==> state.lookup(key) == LookupView::AskSecondary(key),
{
}

/// An insertion goes to the second level first, whatever memory holds, its key among it or
/// not.
pub proof fn law_insertion_begins_with_second_level<S>(
    state: CacheStorageState<S>,
    memory: MemoryState,
    key: Seq<char>,
    value: Seq<u8>,
)
    ensures
        state.first_step(key, value) is WriteSecondary <==> state.secondary is Some,
        state.with_memory(memory).first_step(key, value) == state.first_step(key, value),
{
}

/// Memory stores an entry of an insertion only after the second level: the record of the
/// store has the second level that has taken the entry, and not the one from before.
pub proof fn law_memory_is_stored_last<S: SecondaryCacheStorage<String, Vec<u8>>>(
    state: CacheStorageState<S>,
    after: S,
    key: String,
    value: Vec<u8>,
)
    requires
        state.secondary is Some,
        after.calls() == state.secondary->0.calls().push(SecondaryCall::Insert(key, value)),
    ensures
        ({
            let store = state.with_secondary(Some(after)).put(key@, value@).stores.last();
            &&& store.secondary == Some(after)
            &&& store.secondary->0.calls().last() == SecondaryCall::Insert(key, value)
            &&& store.secondary != state.secondary
        }),
{
    assert(after.calls().len() == state.secondary->0.calls().len() + 1);
}

/// A read calls for one measurement of memory, and for one of the second level if and only
/// if that is asked; all of them name the component that the cache serves.
pub proof fn law_each_asked_level_is_measured_once<S>(
    state: CacheStorageState<S>,
    key: Seq<char>,
    answered: bool,
)
    ensures
        ({
            let due = measurement::measurements_due(state.caller, state.lookup(key), answered);
            &&& due.len() == (if state.lookup(key) is AskSecondary { 2int } else { 1int })
            &&& due[0].storage == CacheStorageName::Memory
            &&& due[0].hit <==> state.memory.find(key) is Some
            &&& state.lookup(key) is AskSecondary ==> due[1].storage == CacheStorageName::Redis
                && due[1].hit == answered
            &&& forall|i: int| 0 <= i < due.len() ==> (#[trigger] due[i]).kind == state.caller
        }),
{
}

/// The cache and the level in memory that it hands out are one: what is read and written
/// through either is seen through the other.
pub proof fn law_memory_is_shared<S>(
    state: CacheStorageState<S>,
    accesses: Seq<Access>,
    key: Seq<char>,
    value: Seq<u8>,
)
    requires
        state.memory.valid(),
    ensures
        ({
            let through = state.with_memory(after_all(state.memory, accesses));
            &&& through.memory.valid()
            &&& match through.memory.find(key) {
                Some(found) => through.lookup(key) == LookupView::Hit(found),
                None => !(through.lookup(key) is Hit),
            }
        }),
        state.put(key, value).memory == state.memory.put(key, value),
        state.put(key, value).memory.find(key) == Some(value),
{
    law_accesses_keep_validity(state.memory, accesses);
    law_read_after_write(state.memory, key, value);
}

/// A connection to Redis that is not required never keeps the cache from starting.
pub proof fn law_optional_redis_never_blocks<S, E>(opening: RedisOpening<S, E>)
    requires
        !opening.required_to_start,
    ensures
        storage::startup_error(Some(opening)) is None,
{
}

/// A second level that was handed in is used whatever came of the connection to Redis.
pub proof fn law_given_secondary_is_used<S, E>(
    config: Option<RedisOpening<S, E>>,
    secondary_cache: S,
)
    ensures
        storage::chosen_secondary(config, Some(secondary_cache)) == Some(secondary_cache),
{
}

} // verus!
