//! The two levels together: reads that fall through to the second level, and writes
//! that go to both.

use vstd::prelude::*;

use crate::cache::binding;
use crate::cache::insertion::InsertStep;
use crate::cache::insertion::InsertStepView;
use crate::cache::insertion::MemoryWrite;
use crate::cache::measurement;
use crate::cache::measurement::Measurement;
use crate::cache::memory::InMemoryCache;
use crate::cache::model;
use crate::cache::model::MemoryState;
use crate::cache::secondary::SecondaryCacheStorage;
use crate::cache::secondary::SecondaryCall;

verus! {

/// What came of opening the configured connection to Redis.
pub struct RedisOpening<S, E> {
    /// The cache must not start without Redis.
    pub required_to_start: bool,
    pub outcome: Result<S, E>,
}

/// The error that keeps the cache from starting: the connection is required and failed.
pub open spec fn startup_error<S, E>(config: Option<RedisOpening<S, E>>) -> Option<E> {
    match config {
        Some(RedisOpening { required_to_start: true, outcome: Err(e) }) => Some(e),
        _ => None,
    }
}

/// The second level that a cache starts with: the one that was handed in, else the
/// configured connection to Redis where it opened, else none.
pub open spec fn chosen_secondary<S, E>(
    config: Option<RedisOpening<S, E>>,
    secondary_cache: Option<S>,
) -> Option<S> {
    match (secondary_cache, config) {
        (Some(s), _) => Some(s),
        (None, Some(RedisOpening { outcome: Ok(s), .. })) => Some(s),
        (None, _) => None,
    }
}

/// What the first level answers to a read, and what is to be done next.
pub enum Lookup {
    /// The value was in memory.
    Hit(Vec<u8>),
    /// The value is not in memory, and there is no second level.
    Miss,
    /// The value is not in memory: the second level is to be asked for this key, and its
    /// answer goes to [`CacheStorage::secondary_replied`].
    AskSecondary(String),
}

/// The mathematical value of a [`Lookup`].
pub enum LookupView {
    Hit(Seq<u8>),
    Miss,
    AskSecondary(Seq<char>),
}

impl View for Lookup {
    type V = LookupView;

    open spec fn view(&self) -> LookupView {
        match self {
            Lookup::Hit(value) => LookupView::Hit(value@),
            Lookup::Miss => LookupView::Miss,
            Lookup::AskSecondary(key) => LookupView::AskSecondary(key@),
        }
    }
}

/// An entry that was stored in memory, with the second level as it was at that moment.
pub struct MemoryStore<S> {
    pub key: Seq<char>,
    pub value: Seq<u8>,
    pub secondary: Option<S>,
}

/// What a [`CacheStorage`] is at one moment. `stores` records what it has stored in memory,
/// the first one first.
#[verifier::ext_equal]
pub struct CacheStorageState<S> {
    pub caller: Seq<char>,
    pub memory: MemoryState,
    pub secondary: Option<S>,
    pub stores: Seq<MemoryStore<S>>,
}

impl<S> CacheStorageState<S> {
    /// What the first level answers to a read of `key`.
    pub open spec fn lookup(self, key: Seq<char>) -> LookupView {
        match (self.memory.find(key), self.secondary) {
            (Some(value), _) => LookupView::Hit(value),
            (None, None) => LookupView::Miss,
            (None, Some(_)) => LookupView::AskSecondary(key),
        }
    }

    /// The same cache with `memory` as its first level.
    pub open spec fn with_memory(self, memory: MemoryState) -> Self {
        CacheStorageState { memory, ..self }
    }

    /// The state after a read of `key` from the first level.
    pub open spec fn touch(self, key: Seq<char>) -> Self {
        self.with_memory(self.memory.touch(key))
    }

    /// The same cache with `secondary` as its second level.
    pub open spec fn with_secondary(self, secondary: Option<S>) -> Self {
        CacheStorageState { secondary, ..self }
    }

    /// The state after `value` was stored under `key` in the first level.
    pub open spec fn put(self, key: Seq<char>, value: Seq<u8>) -> Self {
        CacheStorageState {
            memory: self.memory.put(key, value),
            stores: self.stores.push(MemoryStore { key, value, secondary: self.secondary }),
            ..self
        }
    }

    /// The first step of an insertion of `value` under `key`.
    pub open spec fn first_step(self, key: Seq<char>, value: Seq<u8>) -> InsertStepView {
        if self.secondary is Some {
            InsertStepView::WriteSecondary(key, value)
        } else {
            InsertStepView::StoreInMemory(key, value)
        }
    }

    /// The state after the second level answered `reply` for `key`.
    pub open spec fn replied(self, key: Seq<char>, reply: Option<Seq<u8>>) -> Self {
        match reply {
            Some(value) => self.put(key, value),
            None => self,
        }
    }
}

/// A cache with a bounded level in memory and, if there is one, a second level behind it.
pub struct CacheStorage<S> {
    caller: String,
    inner: InMemoryCache,
    redis: Option<S>,
    stores: Ghost<Seq<MemoryStore<S>>>,
}

/// What a read gives: the value, and the measurements that it calls for.
pub struct Read {
    pub value: Option<Vec<u8>>,
    pub measurements: Vec<Measurement>,
}

impl<S> View for CacheStorage<S> {
    type V = CacheStorageState<S>;

    closed spec fn view(&self) -> CacheStorageState<S> {
        CacheStorageState {
            caller: self.caller@,
            memory: self.inner@,
            secondary: self.redis,
            stores: self.stores@,
        }
    }
}

impl<S> CacheStorage<S> {
    /// The level in memory holds no key twice and never more entries than its capacity.
    pub open spec fn wf(&self) -> bool {
        self@.memory.valid()
    }

    /// A cache for at most `max_capacity` entries in memory. `config` says what came of
    /// opening the configured connection to Redis, if one is configured. Where it failed
    /// the cache goes on without it, unless it is required to start. `secondary_cache`
    /// takes precedence over Redis.
    pub fn new<E>(
        max_capacity: usize,
        config: Option<RedisOpening<S, E>>,
        caller: &str,
        secondary_cache: Option<S>,
    ) -> (res: Result<CacheStorage<S>, E>)
        requires
            0 < max_capacity,
            startup_error(config) is None ==> max_capacity <= binding::MAX_CAPACITY,
        ensures
            match (res, startup_error(config)) {
                (Err(e), Some(expected)) => e == expected,
                (Ok(storage), None) => {
                    &&& storage.wf()
                    &&& storage@ == (CacheStorageState {
                        caller: caller@,
                        memory: MemoryState {
                            entries: Seq::empty(),
                            capacity: max_capacity as nat,
                        },
                        secondary: chosen_secondary(config, secondary_cache),
                        stores: Seq::empty(),
                    })
                },
                _ => false,
            },
    {
        let redis = match config {
            Some(opening) => match opening.outcome {
                Err(e) => {
                    if opening.required_to_start {
                        return Err(e);
                    }
                    None
                },
                Ok(storage) => Some(storage),
            },
            None => None,
        };
        let secondary = match secondary_cache {
            Some(secondary) => Some(secondary),
            None => redis,
        };
        Ok(
            CacheStorage {
                caller: caller.to_string(),
                inner: InMemoryCache::new(max_capacity),
                redis: secondary,
                stores: Ghost(Seq::empty()),
            },
        )
    }

    /// Looks `key` up in memory, and says what is to be done next.
    pub fn lookup(&mut self, key: &String) -> (lookup: Lookup)
        requires
            old(self).wf(),
        ensures
            final(self).wf(),
            final(self)@ == old(self)@.touch(key@),
            lookup@ == old(self)@.lookup(key@),
    {
        match self.inner.get(key) {
            Some(value) => Lookup::Hit(value),
            None => {
                if self.redis.is_some() {
                    Lookup::AskSecondary(key.clone())
                } else {
                    Lookup::Miss
                }
            },
        }
    }

    /// Takes the answer of the second level for `key`: a value is kept in memory too, in
    /// place of any that came there since `key` was looked up, and the answer is what the
    /// read returns.
    pub fn secondary_replied(&mut self, key: &String, reply: Option<Vec<u8>>) -> (value: Option<
        Vec<u8>,
    >)
        requires
            old(self).wf(),
        ensures
            final(self).wf(),
            final(self)@ == old(self)@.replied(key@, model::bytes_of(reply)),
            value == reply,
    {
        match reply {
            Some(value) => {
                let copy = value.clone();
                assert(copy@ =~= value@);
                self.insert_in_memory(key.clone(), copy);
                Some(value)
            },
            None => None,
        }
    }

    /// Begins an insertion, and says what its first step is: the second level is to store the
    /// entry, where there is one.
    pub fn begin_insert(&self, key: String, value: Vec<u8>) -> (step: InsertStep)
        ensures
            step@ == self@.first_step(key@, value@),
    {
        InsertStep::first(self.redis.is_some(), key, value)
    }

    /// The last step of an insertion: stores the entry in memory, once the second level, if
    /// there is one, has stored it. Returns the number of entries that are then in memory.
    pub fn finish_insert(&mut self, write: MemoryWrite) -> (size: u64)
        requires
            old(self).wf(),
            old(self)@.secondary is Some ==> write.follows_secondary(),
        ensures
            final(self).wf(),
            final(self)@ == old(self)@.put(write@.0, write@.1),
            size == final(self)@.memory.entries.len(),
    {
        let (key, value) = write.into_entry();
        self.insert_in_memory(key, value)
    }

    /// Stores `value` under `key` in memory alone. Returns the number of entries that are
    /// then in memory, which is what the size of the cache is reported as.
    pub fn insert_in_memory(&mut self, key: String, value: Vec<u8>) -> (size: u64)
        requires
            old(self).wf(),
        ensures
            final(self).wf(),
            final(self)@ == old(self)@.put(key@, value@),
            size == final(self)@.memory.entries.len(),
    {
        proof {
            self.stores@ = self.stores@.push(
                MemoryStore { key: key@, value: value@, secondary: self.redis },
            );
        }
        self.inner.put(key, value);
        self.inner.len() as u64
    }

    /// The level in memory. What is done to it through the reference is done to the cache.
    pub fn in_memory_cache(&mut self) -> (cache: &mut InMemoryCache)
        requires
            old(self).wf(),
        ensures
            cache.wf(),
            cache@ == old(self)@.memory,
            final(self)@ == old(self)@.with_memory(final(cache)@),
    {
        &mut self.inner
    }

    /// The number of entries in memory.
    pub fn len(&self) -> (len: usize)
        ensures
            len == self@.memory.entries.len(),
    {
        self.inner.len()
    }

    /// The name of the component that the cache serves.
    pub fn caller(&self) -> (caller: &str)
        ensures
            caller@ == self@.caller,
    {
        self.caller.as_str()
    }

    /// The second level.
    pub fn secondary(&self) -> (secondary: Option<&S>)
        ensures
            match (secondary, self@.secondary) {
                (Some(s), Some(expected)) => *s == expected,
                (None, None) => true,
                _ => false,
            },
    {
        self.redis.as_ref()
    }
}

impl<S: SecondaryCacheStorage<String, Vec<u8>>> CacheStorage<S> {
    /// The value kept under `key`: from memory where it is there, and then the second level
    /// is left alone; else from the second level, which is asked once and whose answer is
    /// then kept in memory too.
    pub fn get(&mut self, key: &String) -> (read: Read)
        requires
            old(self).wf(),
        ensures
            final(self).wf(),
            measurement::views_of(read.measurements@) == measurement::measurements_due(
                old(self)@.caller,
                old(self)@.lookup(key@),
                read.value is Some,
            ),
            match old(self)@.lookup(key@) {
                LookupView::Hit(found) => {
                    &&& model::bytes_of(read.value) == Some(found)
                    &&& final(self)@ == old(self)@.touch(key@)
                },
                LookupView::Miss => {
                    &&& read.value is None
                    &&& final(self)@ == old(self)@
                },
                LookupView::AskSecondary(_) => {
                    &&& final(self)@ == old(self)@.with_secondary(
                        final(self)@.secondary,
                    ).replied(key@, model::bytes_of(read.value))
                    &&& final(self)@.secondary is Some
                    &&& final(self)@.secondary->0.calls() == old(self)@.secondary->0.calls().push(
                        SecondaryCall::Get(*key, read.value),
                    )
                },
            },
    {
        let lookup = self.lookup(key);
        let reply = match &lookup {
            Lookup::AskSecondary(_) => match &mut self.redis {
                Some(secondary) => secondary.get(key),
                None => None,
            },
            _ => None,
        };
        let measurements = measurement::measurements(self.caller.as_str(), &lookup, &reply);
        let value = match lookup {
            Lookup::Hit(value) => Some(value),
            Lookup::Miss => None,
            Lookup::AskSecondary(_) => self.secondary_replied(key, reply),
        };
        Read { value, measurements }
    }

    /// Stores `value` under `key`, first in the second level, if there is one, and then in
    /// memory. Returns the number of entries that are then in memory. The record of what is
    /// stored in memory shows the order: the second level had taken the entry by then.
    pub fn insert(&mut self, key: String, value: Vec<u8>) -> (size: u64)
        requires
            old(self).wf(),
        ensures
            final(self).wf(),
            final(self)@ == old(self)@.with_secondary(final(self)@.secondary).put(key@, value@),
            final(self)@.stores.last().secondary == final(self)@.secondary,
            size == final(self)@.memory.entries.len(),
            match (old(self)@.secondary, final(self)@.secondary) {
                (Some(before), Some(after)) => exists|k: String, v: Vec<u8>|
                    k@ == key@ && v@ == value@ && after.calls() == #[trigger] before.calls().push(
                        SecondaryCall::Insert(k, v),
                    ),
                (None, None) => true,
                _ => false,
            },
    {
        let write = match self.begin_insert(key, value) {
            InsertStep::WriteSecondary(write) => {
                let (k, v) = write.entry();
                match &mut self.redis {
                    Some(secondary) => secondary.insert(k, v),
                    None => {},
                }
                write.done()
            },
            InsertStep::StoreInMemory(write) => write,
        };
        self.finish_insert(write)
    }
}

} // verus!
