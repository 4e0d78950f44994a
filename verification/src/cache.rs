//! The shared result cache: a capacity-bounded, time-limited mapping from
//! canonical key to serialized response body, safe for unbounded concurrent
//! readers and writers. Entries expire a fixed time after insertion
//! (time-to-live, not time-to-idle) and are evicted best-effort as the
//! capacity bound is reached; the last writer for a key wins.
//!
//! The cache is process-wide shared state whose observable contents depend
//! on time, concurrent writers and best-effort eviction, so no contract here
//! pins a lookup's result: the resolver takes whatever a lookup returned as
//! an event and is verified for every possible reply.

use vstd::prelude::*;
use std::collections::hash_map::RandomState;

verus! {

#[verifier::external_type_specification]
#[verifier::external_body]
#[verifier::reject_recursive_types(K)]
#[verifier::reject_recursive_types(V)]
#[verifier::reject_recursive_types(S)]
pub struct ExMokaCache<K, V, S>(moka::sync::Cache<K, V, S>);

/// A handle to the shared result cache.
pub struct ResultCache {
    inner: moka::sync::Cache<String, String, RandomState>,
}

impl ResultCache {
    /// Relies on moka's `CacheBuilder::max_capacity`, `time_to_live` and
    /// `build`: a cache bounded to about `capacity` entries, each expiring
    /// `ttl_secs` seconds after insertion. `build` panics when the
    /// time-to-live exceeds 1000 years, so such values are excluded here.
    #[verifier::external_body]
    fn build_inner(capacity: u64, ttl_secs: u64) -> ResultCache
        requires
            ttl_secs <= 31_536_000_000,
    {
        ResultCache {
            inner: moka::sync::Cache::builder()
                .max_capacity(capacity)
                .time_to_live(core::time::Duration::from_secs(ttl_secs))
                .build(),
        }
    }

    /// Relies on moka's `Cache::get`: the live entry under the key, if one is
    /// present and unexpired at the time of the call.
    #[verifier::external_body]
    fn get_inner(&self, key: &String) -> Option<String> {
        self.inner.get(key)
    }

    /// Relies on moka's `Cache::insert`: inserts or overwrites the entry
    /// under the key; eviction bookkeeping may run.
    #[verifier::external_body]
    fn insert_inner(&self, key: String, body: String) {
        self.inner.insert(key, body);
    }

    /// Relies on moka's `Cache::entry_count`: an approximate count of the
    /// entries currently held.
    #[verifier::external_body]
    fn entry_count_inner(&self) -> u64 {
        self.inner.entry_count()
    }

    /// Relies on moka's `Cache::run_pending_tasks`: performs the deferred
    /// eviction and expiry bookkeeping now.
    #[verifier::external_body]
    fn run_pending_inner(&self) {
        self.inner.run_pending_tasks();
    }

    /// Relies on moka's `Cache::clone`: a cheap new handle onto the same
    /// shared cache.
    #[verifier::external_body]
    fn clone_inner(&self) -> ResultCache {
        ResultCache { inner: self.inner.clone() }
    }

    /// A cache bounded to about `capacity` entries, each expiring `ttl_secs`
    /// seconds after insertion. The time-to-live must not exceed 1000 years
    /// (31 536 000 000 seconds), the largest expiry the cache supports.
    pub fn new(capacity: u64, ttl_secs: u64) -> ResultCache
        requires
            ttl_secs <= 31_536_000_000,
    {
        Self::build_inner(capacity, ttl_secs)
    }

    /// Non-blocking lookup: the entry under the key if one is present and
    /// unexpired, `None` otherwise. An expired entry is treated as absent.
    pub fn get(&self, key: &String) -> Option<String> {
        self.get_inner(key)
    }

    /// Inserts or overwrites the entry under the key; when the capacity
    /// bound is exceeded, entries are evicted best-effort, approximately
    /// least-recently-used first.
    pub fn put(&self, key: String, body: String) {
        self.insert_inner(key, body)
    }

    /// An approximate count of live entries; exact only right after
    /// `maintain`.
    pub fn entry_count(&self) -> u64 {
        self.entry_count_inner()
    }

    /// Runs the deferred eviction and expiry bookkeeping now, so that the
    /// capacity bound and `entry_count` are brought up to date.
    pub fn maintain(&self) {
        self.run_pending_inner()
    }

    /// A new handle onto the same shared cache, for another worker.
    pub fn handle(&self) -> ResultCache {
        self.clone_inner()
    }
}

} // verus!
