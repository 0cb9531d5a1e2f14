//! What each operation of the cache does to every part of it, place by place.

use vstd::prelude::*;

use crate::cache::insertion::InsertStep;
use crate::cache::insertion::InsertStepView;
use crate::cache::laws;
use crate::cache::measurement;
use crate::cache::measurement::CacheStorageName;
use crate::cache::measurement::Measurement;
use crate::cache::model;
use crate::cache::model::MemoryState;
use crate::cache::storage;
use crate::cache::storage::CacheStorageState;
use crate::cache::storage::Lookup;
use crate::cache::storage::LookupView;
use crate::cache::storage::RedisOpening;

verus! {

/// A cache is valid exactly where it has room, does not hold more than it has room for, and
/// no two of its entries have the same key.
pub proof fn law_validity(memory: MemoryState)
    ensures
        memory.valid() <==> {
            &&& 1 <= memory.capacity
            &&& memory.entries.len() <= memory.capacity
            &&& forall|i: int, j: int|
                0 <= i < j < memory.entries.len() ==> (#[trigger] memory.entries[i]).0 != (
                #[trigger] memory.entries[j]).0
        },
{
    if forall|i: int, j: int|
        0 <= i < j < memory.entries.len() ==> (#[trigger] memory.entries[i]).0 != (
        #[trigger] memory.entries[j]).0 {
        assert(model::distinct_keys(memory.entries));
    }
}

/// A read of a key that is there finds the value beside it. Its entry goes to the front,
/// those that were before it move back by one place, and nothing else changes.
pub proof fn law_read_of_present_key(memory: MemoryState, key: Seq<char>, at: int)
    requires
        memory.valid(),
        0 <= at < memory.entries.len(),
        memory.entries[at].0 == key,
    ensures
        memory.find(key) == Some(memory.entries[at].1),
        memory.touch(key).capacity == memory.capacity,
        memory.touch(key).entries.len() == memory.entries.len(),
        memory.touch(key).entries[0] == memory.entries[at],
        forall|i: int|
            0 < i <= at ==> #[trigger] memory.touch(key).entries[i] == memory.entries[i - 1],
        forall|i: int|
            at < i < memory.entries.len() ==> #[trigger] memory.touch(key).entries[i]
                == memory.entries[i],
{
    assert(model::holds(memory.entries, key));
    let s = model::slot(memory.entries, key);
    assert(memory.entries[s].0 == key);
    assert(s == at);
}

/// A read of a key that is not there finds nothing and changes nothing.
pub proof fn law_read_of_absent_key(memory: MemoryState, key: Seq<char>)
    requires
        forall|i: int| 0 <= i < memory.entries.len() ==> (#[trigger] memory.entries[i]).0 != key,
    ensures
        memory.find(key) is None,
        memory.touch(key) == memory,
{
}

/// A write of a key that is there puts the new entry at the front in place of the old one:
/// the entries that were before it move back by one place, and nothing else changes.
pub proof fn law_write_of_present_key(
    memory: MemoryState,
    key: Seq<char>,
    value: Seq<u8>,
    at: int,
)
    requires
        memory.valid(),
        0 <= at < memory.entries.len(),
        memory.entries[at].0 == key,
    ensures
        memory.put(key, value).capacity == memory.capacity,
        memory.put(key, value).entries.len() == memory.entries.len(),
        memory.put(key, value).entries[0] == (key, value),
        forall|i: int|
            0 < i <= at ==> #[trigger] memory.put(key, value).entries[i] == memory.entries[i - 1],
        forall|i: int|
            at < i < memory.entries.len() ==> #[trigger] memory.put(key, value).entries[i]
                == memory.entries[i],
{
    assert(model::holds(memory.entries, key));
    let s = model::slot(memory.entries, key);
    assert(memory.entries[s].0 == key);
    assert(s == at);
}

/// A write of a key that is not there puts the entry in front of all others, which keep
/// their order. Where there is room none of them leaves, and else only the last one does.
pub proof fn law_write_of_absent_key(memory: MemoryState, key: Seq<char>, value: Seq<u8>)
    requires
        memory.valid(),
        forall|i: int| 0 <= i < memory.entries.len() ==> (#[trigger] memory.entries[i]).0 != key,
    ensures
        memory.put(key, value).capacity == memory.capacity,
        memory.entries.len() < memory.capacity ==> memory.put(key, value).entries.len()
            == memory.entries.len() + 1,
        memory.entries.len() == memory.capacity ==> memory.put(key, value).entries.len()
            == memory.entries.len(),
        memory.put(key, value).entries[0] == (key, value),
        forall|i: int|
            0 < i < memory.put(key, value).entries.len() ==> #[trigger] memory.put(
                key,
                value,
            ).entries[i] == memory.entries[i - 1],
{
}

/// A lookup of a key that is in memory is a hit with the value beside it.
pub proof fn law_lookup_of_present_key<S>(state: CacheStorageState<S>, key: Seq<char>, at: int)
    requires
        state.memory.valid(),
        0 <= at < state.memory.entries.len(),
        state.memory.entries[at].0 == key,
    ensures
        state.lookup(key) == LookupView::Hit(state.memory.entries[at].1),
{
    law_read_of_present_key(state.memory, key, at);
}

/// A lookup of a key that is not in memory asks the second level for that key, where there
/// is one, and else is a miss.
pub proof fn law_lookup_of_absent_key<S>(state: CacheStorageState<S>, key: Seq<char>)
    requires
        forall|i: int|
            0 <= i < state.memory.entries.len() ==> (#[trigger] state.memory.entries[i]).0 != key,
    ensures
        state.secondary is Some ==> state.lookup(key) == LookupView::AskSecondary(key),
        state.secondary is None ==> state.lookup(key) is Miss,
{
    law_read_of_absent_key(state.memory, key);
}

/// A read of the cache does to memory what a read of memory does, and nothing to the rest.
/// So it keeps the capacity, and what later writes evict depends on it only through the
/// order of the entries.
pub proof fn law_read_touches_memory_alone<S>(state: CacheStorageState<S>, key: Seq<char>)
    ensures
        state.touch(key).memory == state.memory.touch(key),
        state.touch(key).memory.capacity == state.memory.capacity,
        state.touch(key).caller == state.caller,
        state.touch(key).secondary == state.secondary,
        state.touch(key).stores == state.stores,
{
}

/// A store in memory does to it what a write does, and is added at the end of the record,
/// with the second level of that moment. Nothing else changes.
pub proof fn law_store_changes_memory_and_record<S>(
    state: CacheStorageState<S>,
    key: Seq<char>,
    value: Seq<u8>,
)
    ensures
        state.put(key, value).memory == state.memory.put(key, value),
        state.put(key, value).memory.capacity == state.memory.capacity,
        state.put(key, value).caller == state.caller,
        state.put(key, value).secondary == state.secondary,
        state.put(key, value).stores.len() == state.stores.len() + 1,
        state.put(key, value).stores.drop_last() == state.stores,
        state.put(key, value).stores.last().key == key,
        state.put(key, value).stores.last().value == value,
        state.put(key, value).stores.last().secondary == state.secondary,
{
    assert(state.put(key, value).stores.drop_last() =~= state.stores);
}

/// A value that the second level answers goes to memory as a value that is inserted there
/// does: beside the entries that are there, within the same capacity.
pub proof fn law_answer_is_stored_like_an_insertion<S>(
    state: CacheStorageState<S>,
    key: Seq<char>,
    value: Seq<u8>,
)
    ensures
        state.replied(key, Some(value)) == state.put(key, value),
        state.replied(key, Some(value)).memory == state.memory.put(key, value),
        state.replied(key, Some(value)).memory.capacity == state.memory.capacity,
{
}

/// After the second level answered a value for `key`, each other entry is found as before,
/// but for the last one of a full memory to which `key` is new.
pub proof fn law_answer_keeps_other_entries<S>(
    state: CacheStorageState<S>,
    key: Seq<char>,
    value: Seq<u8>,
    at: int,
)
    requires
        state.memory.valid(),
        0 <= at < state.memory.entries.len(),
        state.memory.entries[at].0 != key,
        state.memory.entries.len() < state.memory.capacity || at + 1 < state.memory.entries.len()
            || exists|i: int|
            0 <= i < state.memory.entries.len() && (#[trigger] state.memory.entries[i]).0 == key,
    ensures
        state.replied(key, Some(value)).memory.find(state.memory.entries[at].0) == Some(
            state.memory.entries[at].1,
        ),
{
    let e = state.memory.entries;
    law_read_of_present_key(state.memory, e[at].0, at);
    laws::law_write_keeps_other_keys(state.memory, key, value, e[at].0);
    if model::evicts(e, state.memory.capacity, key) {
        assert(e[at].0 != e[e.len() - 1].0);
    }
}

/// No answer of the second level changes nothing.
pub proof fn law_no_answer_changes_nothing<S>(state: CacheStorageState<S>, key: Seq<char>)
    ensures
        state.replied(key, None) == state,
{
}

/// To replace one level leaves the other, the caller and the record as they are.
pub proof fn law_levels_are_independent<S>(
    state: CacheStorageState<S>,
    memory: MemoryState,
    secondary: Option<S>,
)
    ensures
        state.with_memory(memory).memory == memory,
        state.with_memory(memory).caller == state.caller,
        state.with_memory(memory).secondary == state.secondary,
        state.with_memory(memory).stores == state.stores,
        state.with_secondary(secondary).secondary == secondary,
        state.with_secondary(secondary).caller == state.caller,
        state.with_secondary(secondary).memory == state.memory,
        state.with_secondary(secondary).stores == state.stores,
{
}

/// The first step of an insertion carries the key and the value that were given, whole.
pub proof fn law_first_step_carries_the_entry<S>(
    state: CacheStorageState<S>,
    key: Seq<char>,
    value: Seq<u8>,
)
    ensures
        state.secondary is Some ==> state.first_step(key, value)
            == InsertStepView::WriteSecondary(key, value),
        state.secondary is None ==> state.first_step(key, value) == InsertStepView::StoreInMemory(
            key,
            value,
        ),
{
}

/// What memory stores in the last step of an insertion is what was given to the first one,
/// and a read then finds it.
pub proof fn law_insertion_stores_the_given_entry<S>(
    state: CacheStorageState<S>,
    key: Seq<char>,
    value: Seq<u8>,
    step: InsertStep,
)
    requires
        state.memory.valid(),
        step@ == state.first_step(key, value),
    ensures
        match step {
            InsertStep::WriteSecondary(write) => {
                &&& state.secondary is Some
                &&& write@ == (key, value)
                &&& state.put(write@.0, write@.1).lookup(key) == LookupView::Hit(value)
            },
            InsertStep::StoreInMemory(write) => {
                &&& state.secondary is None
                &&& write@ == (key, value)
                &&& state.put(write@.0, write@.1).lookup(key) == LookupView::Hit(value)
            },
        },
{
    laws::law_stored_value_is_a_hit(state, key, value);
}

/// A lookup stands for its own variant, with the characters and bytes that it holds.
pub proof fn law_lookup_shows_what_it_holds(lookup: Lookup)
    ensures
        match lookup {
            Lookup::Hit(value) => lookup@ == LookupView::Hit(value@),
            Lookup::Miss => lookup@ is Miss,
            Lookup::AskSecondary(key) => lookup@ == LookupView::AskSecondary(key@),
        },
{
}

/// An optional value stands for its bytes, and none for none.
pub proof fn law_optional_bytes(value: Option<Vec<u8>>)
    ensures
        value is None <==> model::bytes_of(value) is None,
        value is Some ==> model::bytes_of(value) == Some(value->0@),
{
}

/// The measurements of a read, one by one: memory first, which is a hit exactly where the
/// lookup is one; then Redis exactly where it was asked, a hit exactly where it answered.
pub proof fn law_measurements(caller: Seq<char>, lookup: LookupView, answered: bool)
    ensures
        ({
            let due = measurement::measurements_due(caller, lookup, answered);
            &&& due.len() == 2 <==> lookup is AskSecondary
            &&& due.len() == 1 <==> !(lookup is AskSecondary)
            &&& due[0].kind == caller
            &&& due[0].storage == CacheStorageName::Memory
            &&& due[0].hit <==> lookup is Hit
            &&& lookup is AskSecondary ==> {
                &&& due[1].kind == caller
                &&& due[1].storage == CacheStorageName::Redis
                &&& due[1].hit == answered
            }
        }),
{
}

/// A list of measurements stands for the same number of them, in the same order, each with
/// its own kind, level and outcome.
pub proof fn law_measurements_show_what_they_hold(measurements: Seq<Measurement>)
    ensures
        measurement::views_of(measurements).len() == measurements.len(),
        forall|i: int|
            #![trigger measurements[i]]
            0 <= i < measurements.len() ==> {
                let view = measurement::views_of(measurements)[i];
                &&& view.kind == measurements[i].kind@
                &&& view.storage == measurements[i].storage
                &&& view.hit == measurements[i].hit
            },
{
}

/// The cache does not start exactly where a connection to Redis is configured, required, and
/// failed; the error is that of the connection.
pub proof fn law_startup<S, E>(config: Option<RedisOpening<S, E>>)
    ensures
        storage::startup_error(config) is Some <==> {
            &&& config is Some
            &&& config->0.required_to_start
            &&& config->0.outcome is Err
        },
        storage::startup_error(config) is Some ==> storage::startup_error(config)->0
            == config->0.outcome->Err_0,
{
}

/// Without a second level that was handed in, Redis is the second level exactly where a
/// connection is configured and opened.
pub proof fn law_redis_is_used_where_it_opens<S, E>(config: Option<RedisOpening<S, E>>)
    ensures
        storage::chosen_secondary(config, None) is Some <==> config is Some
            && config->0.outcome is Ok,
        storage::chosen_secondary(config, None) is Some ==> storage::chosen_secondary(
            config,
            None,
        )->0 == config->0.outcome->Ok_0,
{
}

} // verus!
