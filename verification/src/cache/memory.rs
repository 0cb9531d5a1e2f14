//! The first level: a bounded cache in memory.

use lru::LruCache;
use vstd::prelude::*;

use crate::cache::binding;
use crate::cache::laws;
use crate::cache::model;
use crate::cache::model::MemoryState;

verus! {

/// A cache in memory that keeps the most recently used entries.
pub struct InMemoryCache {
    cache: LruCache<String, Vec<u8>>,
}

impl View for InMemoryCache {
    type V = MemoryState;

    closed spec fn view(&self) -> MemoryState {
        MemoryState {
            entries: binding::lru_entries(self.cache),
            capacity: binding::lru_capacity(self.cache),
        }
    }
}

impl InMemoryCache {
    /// The cache holds no key twice and never more entries than its capacity.
    pub open spec fn wf(&self) -> bool {
        self@.valid()
    }

    /// An empty cache for at most `max_capacity` entries.
    pub fn new(max_capacity: usize) -> (cache: InMemoryCache)
        requires
            0 < max_capacity <= binding::MAX_CAPACITY,
        ensures
            cache.wf(),
            cache@ == (MemoryState { entries: Seq::empty(), capacity: max_capacity as nat }),
    {
        InMemoryCache { cache: binding::lru_new(max_capacity) }
    }

    /// A copy of the value kept under `key`, whose entry becomes the most recently used.
    pub fn get(&mut self, key: &String) -> (value: Option<Vec<u8>>)
        requires
            old(self).wf(),
        ensures
            final(self).wf(),
            final(self)@ == old(self)@.touch(key@),
            model::bytes_of(value) == old(self)@.find(key@),
    {
        proof {
            laws::law_touch_keeps_validity(self@, key@);
        }
        match binding::lru_get(&mut self.cache, key) {
            Some(value) => {
                let copy = value.clone();
                assert(copy@ =~= value@);
                Some(copy)
            },
            None => None,
        }
    }

    /// Stores `value` under `key` as the most recently used entry, and returns the value
    /// that was there before. Where the cache is full and `key` is new to it, the least
    /// recently used entry leaves.
    pub fn put(&mut self, key: String, value: Vec<u8>) -> (previous: Option<Vec<u8>>)
        requires
            old(self).wf(),
        ensures
            final(self).wf(),
            final(self)@ == old(self)@.put(key@, value@),
            model::bytes_of(previous) == old(self)@.find(key@),
    {
        proof {
            laws::law_put_keeps_validity(self@, key@, value@);
        }
        binding::lru_put(&mut self.cache, key, value)
    }

    /// The number of entries.
    pub fn len(&self) -> (len: usize)
        ensures
            len == self@.entries.len(),
    {
        binding::lru_len(&self.cache)
    }
}

} // verus!
