//! The bounded least-recently-used store, held in an `lru_cache::LruCache`.
//!
//! Nothing in this file is proved. Each function makes one call into the
//! cache and states what the cache's source shows of it, over the pairs the
//! cache holds and the capacity it was made with. A key is a tuple of values
//! of the standard library, so that which keys are equal is what the
//! standard library says of integers, strings and vectors: equal content. The
//! cache files no key twice, which the functions that look a key up say they
//! rely on.

use lru_cache::LruCache;
use std::hash::BuildHasher;
use std::hash::Hash;
use vstd::prelude::*;

use crate::model::{distinct_keys, inserted, lookup, refreshed};

verus! {

/// `lru_cache::LruCache`, of which nothing is seen but what the names and
/// functions below state.
#[verifier::external_type_specification]
#[verifier::external_body]
#[verifier::reject_recursive_types(K)]
#[verifier::reject_recursive_types(V)]
#[verifier::reject_recursive_types(S)]
pub struct ExLruCache<K: Eq + Hash, V, S: BuildHasher>(LruCache<K, V, S>);

/// The pairs a cache holds, from the least to the most recently used.
pub uninterp spec fn lru_entries(
    cache: LruCache<(u8, String, Vec<String>, String), (i32, Vec<u8>)>,
) -> Seq<((u8, Seq<char>, Seq<Seq<char>>, Seq<char>), (i32, Seq<u8>))>;

/// The number of pairs a cache was made to hold at most.
pub uninterp spec fn lru_capacity(
    cache: LruCache<(u8, String, Vec<String>, String), (i32, Vec<u8>)>,
) -> nat;

/// `LruCache::new`: an empty cache that holds at most `capacity` pairs.
#[verifier::external_body]
pub(crate) fn lru_new(capacity: usize) -> (cache: LruCache<
    (u8, String, Vec<String>, String),
    (i32, Vec<u8>),
>)
    ensures
        lru_entries(cache) =~= Seq::empty(),
        lru_capacity(cache) == capacity,
{
    LruCache::new(capacity)
}

/// `LruCache::get_mut`, with the value found copied out: a key that is filed
/// gives its value and becomes the most recently used; one that is not gives
/// nothing and changes nothing. It does not panic.
#[verifier::external_body]
pub(crate) fn lru_get(
    cache: &mut LruCache<(u8, String, Vec<String>, String), (i32, Vec<u8>)>,
    key: &(u8, String, Vec<String>, String),
) -> (found: Option<(i32, Vec<u8>)>)
    requires
        distinct_keys(lru_entries(*old(cache))),
    ensures
        lru_capacity(*final(cache)) == lru_capacity(*old(cache)),
        lru_entries(*final(cache)) == refreshed(lru_entries(*old(cache)), key.deep_view()),
        match found {
            Some(value) => lookup(lru_entries(*old(cache)), key.deep_view()) == Some(
                (value.0, value.1@),
            ),
            None => lookup(lru_entries(*old(cache)), key.deep_view()) is None,
        },
    no_unwind
{
    cache.get_mut(key).cloned()
}

/// `LruCache::insert`, with the value it replaces dropped: the pair becomes
/// the most recently used in place of an earlier pair of the key, and the
/// least recently used pair is removed if the cache then holds more than its
/// capacity. It does not panic.
#[verifier::external_body]
pub(crate) fn lru_insert(
    cache: &mut LruCache<(u8, String, Vec<String>, String), (i32, Vec<u8>)>,
    key: (u8, String, Vec<String>, String),
    value: (i32, Vec<u8>),
)
    requires
        distinct_keys(lru_entries(*old(cache))),
    ensures
        lru_capacity(*final(cache)) == lru_capacity(*old(cache)),
        lru_entries(*final(cache)) == inserted(
            lru_entries(*old(cache)),
            lru_capacity(*old(cache)),
            key.deep_view(),
            (value.0, value.1@),
        ),
    no_unwind
{
    cache.insert(key, value);
}

/// `LruCache::capacity`: the number of pairs the cache was made to hold.
#[verifier::external_body]
pub(crate) fn lru_limit(
    cache: &LruCache<(u8, String, Vec<String>, String), (i32, Vec<u8>)>,
) -> (capacity: usize)
    ensures
        capacity == lru_capacity(*cache),
{
    cache.capacity()
}

/// `LruCache::len`: the number of pairs held.
#[verifier::external_body]
pub(crate) fn lru_len(
    cache: &LruCache<(u8, String, Vec<String>, String), (i32, Vec<u8>)>,
) -> (len: usize)
    ensures
        len == lru_entries(*cache).len(),
{
    cache.len()
}

} // verus!
