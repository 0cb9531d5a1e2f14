//! Second levels of the cache.

use vstd::prelude::*;

verus! {

/// One call on a second level, with what it answered.
pub enum SecondaryCall<K, V> {
    Get(K, Option<V>),
    Insert(K, V),
}

/// A second level of the cache, slower than memory.
pub trait SecondaryCacheStorage<K, V>: Send + Sync {
    /// The calls that were made through this handle, the first one first. A verified
    /// implementation has to override this, and to keep such a record: the default is one
    /// fixed value, which no call can add to, and is there for types that Verus does not
    /// read.
    open spec fn calls(&self) -> Seq<SecondaryCall<K, V>> {
        arbitrary()
    }

    /// The value kept under `key`, if the second level has one.
    fn get(&mut self, key: &K) -> (value: Option<V>)
        ensures
            final(self).calls() == old(self).calls().push(SecondaryCall::Get(*key, value)),
    ;

    /// Stores `value` under `key`.
    fn insert(&mut self, key: K, value: V)
        ensures
            final(self).calls() == old(self).calls().push(SecondaryCall::Insert(key, value)),
    ;
}

/// A second level that keeps nothing: no read finds a value there.
pub struct EmptySecondary {
    calls: Ghost<Seq<SecondaryCall<String, Vec<u8>>>>,
}

impl EmptySecondary {
    /// A second level on which no call was made yet.
    pub fn new() -> (secondary: EmptySecondary)
        ensures
            secondary.calls() == Seq::<SecondaryCall<String, Vec<u8>>>::empty(),
    {
        EmptySecondary { calls: Ghost(Seq::empty()) }
    }
}

impl SecondaryCacheStorage<String, Vec<u8>> for EmptySecondary {
    closed spec fn calls(&self) -> Seq<SecondaryCall<String, Vec<u8>>> {
        self.calls@
    }

    fn get(&mut self, key: &String) -> (value: Option<Vec<u8>>)
        ensures
            value is None,
    {
        self.calls = Ghost(self.calls@.push(SecondaryCall::Get(*key, None)));
        None
    }

    fn insert(&mut self, key: String, value: Vec<u8>) {
        self.calls = Ghost(self.calls@.push(SecondaryCall::Insert(key, value)));
    }
}

} // verus!
