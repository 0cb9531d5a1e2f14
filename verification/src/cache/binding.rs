//! The least-recently-used cache of the `lru` crate, with its contracts.

use core::num::NonZeroUsize;
use lru::LruCache;
use vstd::prelude::*;

use crate::cache::model;

verus! {

/// The largest capacity with which `LruCache::new` does not panic. It allocates a hash
/// table for the full capacity at once, with a power of two of buckets of which seven in
/// eight are filled, and panics where the table's size in bytes would not fit in an
/// `isize`: there are at most 2^58 buckets where a `usize` has 64 bits, and 2^27 where it
/// has 32.
pub const MAX_CAPACITY: usize = 7 * (usize::MAX / 512 + 1) + (64 - usize::BITS as usize) * 0x1c_0000;

/// `lru::LruCache`, opaque.
#[verifier::external_type_specification]
#[verifier::external_body]
#[verifier::reject_recursive_types(K)]
#[verifier::reject_recursive_types(V)]
#[verifier::reject_recursive_types(S)]
pub struct ExLruCache<K, V, S>(lru::LruCache<K, V, S>);

/// The hasher that `lru::LruCache` has by default, opaque.
#[verifier::external_type_specification]
#[verifier::external_body]
pub struct ExDefaultHasher(lru::DefaultHasher);

/// The entries of a cache, in the order in which `LruCache::iter` would visit them: the
/// most recently used first.
pub uninterp spec fn lru_entries(cache: lru::LruCache<String, Vec<u8>>) -> Seq<(Seq<char>, Seq<u8>)>;

/// The capacity that a cache was made with, which `LruCache::cap` would return.
pub uninterp spec fn lru_capacity(cache: lru::LruCache<String, Vec<u8>>) -> nat;

/// `LruCache::new`: an empty cache with the given capacity.
#[verifier::external_body]
pub(crate) fn lru_new(capacity: usize) -> (cache: LruCache<String, Vec<u8>>)
    requires
        0 < capacity <= MAX_CAPACITY,
    ensures
        lru_entries(cache) == Seq::<(Seq<char>, Seq<u8>)>::empty(),
        lru_capacity(cache) == capacity,
{
    LruCache::new(NonZeroUsize::new(capacity).unwrap())
}

/// `LruCache::get`: the value kept under the key, whose entry moves to the front; the
/// cache stays as it is where it has no such key. Keys are compared by their characters.
#[verifier::external_body]
pub(crate) fn lru_get<'a>(cache: &'a mut LruCache<String, Vec<u8>>, key: &String) -> (value: Option<
    &'a Vec<u8>,
>)
    ensures
        value matches Some(v) ==> model::find(lru_entries(*old(cache)), key@) == Some(v@),
        value is None ==> model::find(lru_entries(*old(cache)), key@) is None,
        lru_entries(*final(cache)) == model::touch(lru_entries(*old(cache)), key@),
        lru_capacity(*final(cache)) == lru_capacity(*old(cache)),
{
    cache.get(key)
}

/// `LruCache::put`: the entry goes to the front, in place of the one with the same key or,
/// where the cache is full, of the one at the back. Returns the value that was kept under
/// the key, and nothing of an entry with another key that had to leave.
#[verifier::external_body]
pub(crate) fn lru_put(cache: &mut LruCache<String, Vec<u8>>, key: String, value: Vec<u8>) -> (previous:
    Option<Vec<u8>>)
    ensures
        model::bytes_of(previous) == model::find(lru_entries(*old(cache)), key@),
        lru_entries(*final(cache)) == model::put(
            lru_entries(*old(cache)),
            lru_capacity(*old(cache)),
            key@,
            value@,
        ),
        lru_capacity(*final(cache)) == lru_capacity(*old(cache)),
{
    cache.put(key, value)
}

/// `LruCache::len`: the number of entries.
#[verifier::external_body]
pub(crate) fn lru_len(cache: &LruCache<String, Vec<u8>>) -> (len: usize)
    ensures
        len == lru_entries(*cache).len(),
{
    cache.len()
}

} // verus!
