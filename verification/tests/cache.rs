use std::collections::HashMap;
use std::sync::{Arc, Mutex};

use router_core::cache::binding::MAX_CAPACITY;
use router_core::cache::insertion::InsertStep;
use router_core::cache::measurement::{measurements, CacheStorageName, Measurement};
use router_core::cache::memory::InMemoryCache;
use router_core::cache::secondary::{EmptySecondary, SecondaryCacheStorage};
use router_core::cache::storage::{CacheStorage, Lookup, RedisOpening};

#[derive(Clone, Default)]
struct Shared {
    values: Arc<Mutex<HashMap<String, Vec<u8>>>>,
    asked: Arc<Mutex<Vec<String>>>,
    written: Arc<Mutex<Vec<(String, Vec<u8>)>>>,
    label: &'static str,
}

impl SecondaryCacheStorage<String, Vec<u8>> for Shared {
    fn get(&mut self, key: &String) -> Option<Vec<u8>> {
        self.asked.lock().unwrap().push(key.clone());
        self.values.lock().unwrap().get(key).cloned()
    }

    fn insert(&mut self, key: String, value: Vec<u8>) {
        self.written.lock().unwrap().push((key.clone(), value.clone()));
        self.values.lock().unwrap().insert(key, value);
    }
}

fn key(k: &str) -> String {
    k.to_string()
}

fn storage(capacity: usize, secondary: Option<Shared>) -> CacheStorage<Shared> {
    let res: Result<CacheStorage<Shared>, String> =
        CacheStorage::new(capacity, None, "query planner", secondary);
    res.unwrap()
}

#[test]
fn memory_starts_empty() {
    let mut cache = InMemoryCache::new(3);
    assert_eq!(cache.len(), 0);
    assert_eq!(cache.get(&key("a")), None);
}

#[test]
fn memory_returns_what_was_put() {
    let mut cache = InMemoryCache::new(3);
    assert_eq!(cache.put(key("a"), vec![1]), None);
    assert_eq!(cache.put(key("b"), vec![2, 2]), None);
    assert_eq!(cache.get(&key("a")), Some(vec![1]));
    assert_eq!(cache.get(&key("b")), Some(vec![2, 2]));
    assert_eq!(cache.get(&key("c")), None);
    assert_eq!(cache.len(), 2);
}

#[test]
fn memory_put_replaces_and_returns_the_previous_value() {
    let mut cache = InMemoryCache::new(2);
    assert_eq!(cache.put(key("a"), vec![1]), None);
    assert_eq!(cache.put(key("a"), vec![9]), Some(vec![1]));
    assert_eq!(cache.len(), 1);
    assert_eq!(cache.get(&key("a")), Some(vec![9]));
}

#[test]
fn memory_evicts_the_least_recently_used_entry() {
    let mut cache = InMemoryCache::new(2);
    cache.put(key("a"), vec![1]);
    cache.put(key("b"), vec![2]);
    // The read makes "b" the least recently used entry.
    assert_eq!(cache.get(&key("a")), Some(vec![1]));
    assert_eq!(cache.put(key("c"), vec![3]), None);
    assert_eq!(cache.len(), 2);
    assert_eq!(cache.get(&key("b")), None);
    assert_eq!(cache.get(&key("a")), Some(vec![1]));
    assert_eq!(cache.get(&key("c")), Some(vec![3]));
}

#[test]
fn memory_overwriting_in_a_full_cache_evicts_nothing() {
    let mut cache = InMemoryCache::new(2);
    cache.put(key("a"), vec![1]);
    cache.put(key("b"), vec![2]);
    assert_eq!(cache.put(key("a"), vec![7]), Some(vec![1]));
    assert_eq!(cache.get(&key("b")), Some(vec![2]));
    assert_eq!(cache.get(&key("a")), Some(vec![7]));
}

#[test]
fn memory_overwriting_makes_an_entry_recent() {
    let mut cache = InMemoryCache::new(2);
    cache.put(key("a"), vec![1]);
    cache.put(key("b"), vec![2]);
    cache.put(key("a"), vec![7]);
    cache.put(key("c"), vec![3]);
    assert_eq!(cache.get(&key("b")), None);
    assert_eq!(cache.get(&key("a")), Some(vec![7]));
}

#[test]
fn memory_of_one_entry_keeps_the_last() {
    let mut cache = InMemoryCache::new(1);
    cache.put(key("a"), vec![1]);
    cache.put(key("b"), vec![2]);
    assert_eq!(cache.len(), 1);
    assert_eq!(cache.get(&key("a")), None);
    assert_eq!(cache.get(&key("b")), Some(vec![2]));
}

#[test]
fn recent_entry_stays_for_fewer_accesses_than_capacity() {
    let mut cache = InMemoryCache::new(4);
    cache.put(key("x"), vec![0]);
    cache.put(key("k"), vec![1]);
    for other in ["a", "b", "c"] {
        cache.put(key(other), vec![2]);
    }
    assert_eq!(cache.len(), 4);
    assert_eq!(cache.get(&key("x")), None);
    assert_eq!(cache.get(&key("k")), Some(vec![1]));
}

#[test]
fn entry_leaves_after_as_many_writes_as_capacity() {
    let mut cache = InMemoryCache::new(4);
    cache.put(key("k"), vec![1]);
    for other in ["a", "b", "c", "d"] {
        cache.put(key(other), vec![2]);
    }
    assert_eq!(cache.get(&key("k")), None);
}

#[test]
fn reads_find_the_last_write() {
    let mut cache = InMemoryCache::new(8);
    for n in 0..20u8 {
        cache.put(format!("{}", n % 5), vec![n]);
    }
    for n in 0..5u8 {
        assert_eq!(cache.get(&format!("{}", n)), Some(vec![15 + n]));
    }
    assert_eq!(cache.len(), 5);
}

#[test]
fn storage_names() {
    assert_eq!(CacheStorageName::Redis.name(), "redis");
    assert_eq!(CacheStorageName::Memory.name(), "memory");
}

#[test]
fn new_without_a_second_level() {
    let storage = storage(5, None);
    assert_eq!(storage.caller(), "query planner");
    assert_eq!(storage.len(), 0);
    assert!(storage.secondary().is_none());
}

#[test]
fn new_fails_where_required_redis_does_not_open() {
    let opening = RedisOpening { required_to_start: true, outcome: Err("refused") };
    let res: Result<CacheStorage<Shared>, &str> =
        CacheStorage::new(5, Some(opening), "apq", Some(Shared::default()));
    assert_eq!(res.err(), Some("refused"));
}

#[test]
fn new_goes_on_without_optional_redis() {
    let opening = RedisOpening { required_to_start: false, outcome: Err("refused") };
    let res: Result<CacheStorage<Shared>, &str> =
        CacheStorage::new(5, Some(opening), "apq", None);
    let storage = res.ok().unwrap();
    assert!(storage.secondary().is_none());
    assert_eq!(storage.caller(), "apq");
}

#[test]
fn new_uses_redis_where_it_opens() {
    for required_to_start in [false, true] {
        let redis = Shared { label: "redis", ..Shared::default() };
        let opening = RedisOpening { required_to_start, outcome: Ok(redis) };
        let res: Result<CacheStorage<Shared>, &str> =
            CacheStorage::new(5, Some(opening), "apq", None);
        assert_eq!(res.ok().unwrap().secondary().unwrap().label, "redis");
    }
}

#[test]
fn new_prefers_the_given_second_level() {
    let redis = Shared { label: "redis", ..Shared::default() };
    let given = Shared { label: "given", ..Shared::default() };
    let opening = RedisOpening { required_to_start: true, outcome: Ok(redis) };
    let res: Result<CacheStorage<Shared>, &str> =
        CacheStorage::new(5, Some(opening), "apq", Some(given));
    assert_eq!(res.ok().unwrap().secondary().unwrap().label, "given");
}

#[test]
fn lookup_says_what_to_do_next() {
    let mut alone = storage(2, None);
    assert!(matches!(alone.lookup(&key("a")), Lookup::Miss));
    assert_eq!(alone.insert_in_memory(key("a"), vec![1]), 1);
    assert!(matches!(alone.lookup(&key("a")), Lookup::Hit(v) if v == vec![1]));

    let mut behind = storage(2, Some(Shared::default()));
    assert!(matches!(behind.lookup(&key("a")), Lookup::AskSecondary(k) if k == "a"));
    behind.insert_in_memory(key("a"), vec![1]);
    assert!(matches!(behind.lookup(&key("a")), Lookup::Hit(v) if v == vec![1]));
}

#[test]
fn answer_of_the_second_level_is_kept() {
    let mut storage = storage(2, Some(Shared::default()));
    assert_eq!(storage.secondary_replied(&key("a"), Some(vec![4])), Some(vec![4]));
    assert_eq!(storage.len(), 1);
    assert!(matches!(storage.lookup(&key("a")), Lookup::Hit(v) if v == vec![4]));
}

#[test]
fn no_answer_of_the_second_level_changes_nothing() {
    let mut storage = storage(2, Some(Shared::default()));
    storage.insert_in_memory(key("b"), vec![2]);
    assert_eq!(storage.secondary_replied(&key("a"), None), None);
    assert_eq!(storage.len(), 1);
    assert!(matches!(storage.lookup(&key("a")), Lookup::AskSecondary(_)));
    assert!(matches!(storage.lookup(&key("b")), Lookup::Hit(v) if v == vec![2]));
}

#[test]
fn get_asks_the_second_level_once() {
    let secondary = Shared::default();
    secondary.values.lock().unwrap().insert(key("a"), vec![3]);
    let mut storage = storage(2, Some(secondary.clone()));
    assert_eq!(storage.get(&key("a")).value, Some(vec![3]));
    assert_eq!(storage.get(&key("a")).value, Some(vec![3]));
    assert_eq!(*secondary.asked.lock().unwrap(), vec![key("a")]);
    assert_eq!(storage.len(), 1);
}

#[test]
fn get_of_an_unknown_key_finds_nothing() {
    let secondary = Shared::default();
    let mut behind = storage(2, Some(secondary.clone()));
    assert_eq!(behind.get(&key("a")).value, None);
    assert_eq!(behind.get(&key("a")).value, None);
    assert_eq!(behind.len(), 0);
    assert_eq!(secondary.asked.lock().unwrap().len(), 2);

    let mut alone = storage(2, None);
    assert_eq!(alone.get(&key("a")).value, None);
    assert_eq!(alone.len(), 0);
}

#[test]
fn insert_writes_both_levels() {
    let secondary = Shared::default();
    let mut storage = storage(2, Some(secondary.clone()));
    assert_eq!(storage.insert(key("a"), vec![5]), 1);
    assert_eq!(storage.insert(key("b"), vec![6]), 2);
    assert_eq!(storage.insert(key("c"), vec![7]), 2);
    assert_eq!(secondary.values.lock().unwrap().len(), 3);
    assert_eq!(secondary.values.lock().unwrap().get("a"), Some(&vec![5]));
    assert_eq!(storage.get(&key("c")).value, Some(vec![7]));
    assert!(secondary.asked.lock().unwrap().is_empty());
    // "a" left memory and comes back from the second level.
    assert_eq!(storage.get(&key("a")).value, Some(vec![5]));
    assert_eq!(*secondary.asked.lock().unwrap(), vec![key("a")]);
}

#[test]
fn insert_in_memory_leaves_the_second_level_alone() {
    let secondary = Shared::default();
    let mut storage = storage(2, Some(secondary.clone()));
    assert_eq!(storage.insert_in_memory(key("a"), vec![5]), 1);
    assert!(secondary.values.lock().unwrap().is_empty());
    assert_eq!(storage.get(&key("a")).value, Some(vec![5]));
}

#[test]
fn insert_without_a_second_level() {
    let mut storage = storage(2, None);
    assert_eq!(storage.insert(key("a"), vec![5]), 1);
    assert_eq!(storage.get(&key("a")).value, Some(vec![5]));
}

#[test]
fn in_memory_cache_is_the_first_level() {
    let mut storage = storage(2, None);
    storage.insert(key("a"), vec![1]);
    assert_eq!(storage.in_memory_cache().get(&key("a")), Some(vec![1]));
    storage.in_memory_cache().put(key("b"), vec![2]);
    assert_eq!(storage.len(), 2);
    assert_eq!(storage.get(&key("b")).value, Some(vec![2]));
}

#[test]
fn recent_entry_stays_while_few_other_keys_are_used() {
    let mut cache = InMemoryCache::new(3);
    cache.put(key("x"), vec![0]);
    cache.put(key("k"), vec![1]);
    for n in 0..10u8 {
        cache.put(key("a"), vec![n]);
        cache.put(key("b"), vec![n]);
        assert_eq!(cache.get(&key("a")), Some(vec![n]));
    }
    assert_eq!(cache.get(&key("x")), None);
    assert_eq!(cache.get(&key("k")), Some(vec![1]));
}

#[test]
fn hit_leaves_the_second_level_alone() {
    let secondary = Shared::default();
    let mut storage = storage(2, Some(secondary.clone()));
    storage.insert_in_memory(key("a"), vec![1]);
    assert_eq!(storage.get(&key("a")).value, Some(vec![1]));
    assert!(secondary.asked.lock().unwrap().is_empty());
    assert!(secondary.written.lock().unwrap().is_empty());
}

#[test]
fn read_is_never_written_back() {
    let secondary = Shared::default();
    secondary.values.lock().unwrap().insert(key("a"), vec![3]);
    let mut storage = storage(2, Some(secondary.clone()));
    assert_eq!(storage.get(&key("a")).value, Some(vec![3]));
    assert_eq!(storage.get(&key("b")).value, None);
    assert_eq!(*secondary.asked.lock().unwrap(), vec![key("a"), key("b")]);
    assert!(secondary.written.lock().unwrap().is_empty());
}

#[test]
fn each_insertion_is_written_once() {
    let secondary = Shared::default();
    let mut storage = storage(1, Some(secondary.clone()));
    storage.insert(key("a"), vec![1]);
    storage.insert(key("a"), vec![2]);
    storage.insert(key("b"), vec![3]);
    let expected = vec![(key("a"), vec![1]), (key("a"), vec![2]), (key("b"), vec![3])];
    assert_eq!(*secondary.written.lock().unwrap(), expected);
    assert!(secondary.asked.lock().unwrap().is_empty());
}

#[test]
fn insertion_begins_with_the_second_level() {
    let mut behind = storage(2, Some(Shared::default()));
    match behind.begin_insert(key("a"), vec![1, 2]) {
        InsertStep::WriteSecondary(write) => {
            assert_eq!(write.entry(), (key("a"), vec![1, 2]));
            assert_eq!(behind.len(), 0);
            assert_eq!(behind.finish_insert(write.done()), 1);
        }
        InsertStep::StoreInMemory(_) => panic!("the second level comes first"),
    }
    assert_eq!(behind.get(&key("a")).value, Some(vec![1, 2]));

    let mut alone = storage(2, None);
    match alone.begin_insert(key("a"), vec![3]) {
        InsertStep::WriteSecondary(_) => panic!("there is no second level"),
        InsertStep::StoreInMemory(write) => assert_eq!(alone.finish_insert(write), 1),
    }
    assert_eq!(alone.get(&key("a")).value, Some(vec![3]));
}

fn memory(hit: bool) -> Measurement {
    Measurement { kind: key("query planner"), storage: CacheStorageName::Memory, hit }
}

fn redis(hit: bool) -> Measurement {
    Measurement { kind: key("query planner"), storage: CacheStorageName::Redis, hit }
}

#[test]
fn measurements_that_are_due() {
    let caller = "query planner";
    let hit = Lookup::Hit(vec![1]);
    let ask = Lookup::AskSecondary(key("a"));
    assert_eq!(measurements(caller, &hit, &None::<u8>), vec![memory(true)]);
    assert_eq!(measurements(caller, &hit, &Some(1u8)), vec![memory(true)]);
    assert_eq!(measurements(caller, &Lookup::Miss, &None::<u8>), vec![memory(false)]);
    assert_eq!(measurements(caller, &ask, &Some(1u8)), vec![memory(false), redis(true)]);
    assert_eq!(measurements(caller, &ask, &None::<u8>), vec![memory(false), redis(false)]);
}

#[test]
fn measurements_of_reads() {
    let secondary = Shared::default();
    secondary.values.lock().unwrap().insert(key("a"), vec![3]);
    let mut behind = storage(2, Some(secondary));
    assert_eq!(behind.get(&key("a")).measurements, vec![memory(false), redis(true)]);
    assert_eq!(behind.get(&key("a")).measurements, vec![memory(true)]);
    assert_eq!(behind.get(&key("b")).measurements, vec![memory(false), redis(false)]);
    let mut alone = storage(2, None);
    assert_eq!(alone.get(&key("a")).measurements, vec![memory(false)]);
}

#[test]
fn empty_second_level_keeps_nothing() {
    let mut secondary = EmptySecondary::new();
    secondary.insert(key("a"), vec![1]);
    assert_eq!(secondary.get(&key("a")), None);

    let res: Result<CacheStorage<EmptySecondary>, u8> =
        CacheStorage::new(1, None, "query planner", Some(secondary));
    let mut storage = res.ok().unwrap();
    storage.insert(key("a"), vec![1]);
    storage.insert(key("b"), vec![2]);
    assert_eq!(storage.get(&key("b")).value, Some(vec![2]));
    assert_eq!(storage.get(&key("a")).value, None);
}

#[test]
fn largest_capacity() {
    let buckets: u64 = if usize::BITS == 64 { 1 << 58 } else { 1 << 27 };
    assert_eq!(MAX_CAPACITY as u64, buckets / 8 * 7);
}
