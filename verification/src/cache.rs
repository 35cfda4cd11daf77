//! The execution cache: a bounded, least-recently-used store of earlier
//! results, one per execution context.

use lru_cache::LruCache;
use vstd::prelude::*;

use crate::lru::{lru_capacity, lru_entries, lru_get, lru_insert, lru_len, lru_limit, lru_new};
use crate::model::{
    inserted, lemma_inserted_well_formed, lemma_refreshed, lookup, refreshed, well_formed,
};
use crate::request::{ExecutionRequest, ExecutionResult, ExitStatus, RequestKey, ResultValue};

verus! {

/// The number of results a cache holds unless it is made with another limit.
pub const DEFAULT_CAPACITY: usize = 256;

/// Earlier results by request, least recently used first.
pub struct ExecutionCache {
    store: LruCache<(u8, String, Vec<String>, String), (i32, Vec<u8>)>,
}

impl View for ExecutionCache {
    type V = Seq<(RequestKey, ResultValue)>;

    closed spec fn view(&self) -> Seq<(RequestKey, ResultValue)> {
        lru_entries(self.store)
    }
}

impl ExecutionCache {
    /// The number of results the cache holds at most.
    pub closed spec fn limit(&self) -> nat {
        lru_capacity(self.store)
    }

    /// What holds of every cache at all times.
    #[verifier::type_invariant]
    pub open spec fn valid(&self) -> bool {
        well_formed(self@, self.limit())
    }

    /// An empty cache of the default capacity.
    pub fn new() -> (cache: ExecutionCache)
        ensures
            cache@ =~= Seq::empty(),
            cache.limit() == DEFAULT_CAPACITY,
    {
        ExecutionCache::with_capacity(DEFAULT_CAPACITY)
    }

    /// An empty cache that holds at most `capacity` results.
    pub fn with_capacity(capacity: usize) -> (cache: ExecutionCache)
        ensures
            cache@ =~= Seq::empty(),
            cache.limit() == capacity,
    {
        ExecutionCache { store: lru_new(capacity) }
    }

    /// The number of results the cache holds at most.
    pub fn capacity(&self) -> (capacity: usize)
        ensures
            capacity == self.limit(),
    {
        lru_limit(&self.store)
    }

    /// The number of results held.
    pub fn len(&self) -> (len: usize)
        ensures
            len == self@.len(),
            len <= self.limit(),
            well_formed(self@, self.limit()),
    {
        proof {
            use_type_invariant(self);
        }
        lru_len(&self.store)
    }

    /// The result filed under `request`, which then counts as just used.
    pub fn get(&mut self, request: &ExecutionRequest) -> (found: Option<ExecutionResult>)
        ensures
            final(self).limit() == old(self).limit(),
            final(self)@ == refreshed(old(self)@, request@),
            well_formed(final(self)@, final(self).limit()),
            match found {
                Some(result) => lookup(old(self)@, request@) == Some(result@),
                None => lookup(old(self)@, request@) is None,
            },
    {
        proof {
            use_type_invariant(&*self);
            lemma_refreshed(self@, self.limit(), request@, request@);
        }
        let key = (
            request.channel.code(),
            request.command.clone(),
            request.arguments.clone(),
            request.input.clone(),
        );
        match lru_get(&mut self.store, &key) {
            Some(value) => Some(
                ExecutionResult { status: ExitStatus::from_raw(value.0), output: value.1 },
            ),
            None => None,
        }
    }

    /// Files `result` under `request` as the most recently used entry. An
    /// earlier result of the request is replaced; the least recently used
    /// entry leaves if the cache would hold more than its limit.
    pub fn insert(&mut self, request: ExecutionRequest, result: &ExecutionResult)
        ensures
            final(self).limit() == old(self).limit(),
            final(self)@ == inserted(old(self)@, old(self).limit(), request@, result@),
            well_formed(final(self)@, final(self).limit()),
    {
        proof {
            use_type_invariant(&*self);
            lemma_inserted_well_formed(self@, self.limit(), request@, result@);
        }
        let key = (request.channel.code(), request.command, request.arguments, request.input);
        let value = (result.status.into_raw(), result.output.clone());
        lru_insert(&mut self.store, key, value);
    }
}

} // verus!
