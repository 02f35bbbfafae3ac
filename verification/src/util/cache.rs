//! In-memory caching with a time-to-live for each entry.
//!
//! [`Cache`] is a handle to a store that all its clones share. Each
//! operation takes the store's lock, reads the clock and runs the
//! operation of the same name of [`CacheStore`], which says what happens.

use crate::util::clock::nanos_since;
use crate::util::store::CacheStore;
use crate::util::sync::guarded;
use crate::util::sync::lock;
use std::hash::Hash;
use std::sync::Arc;
use std::sync::Mutex;
use std::time::Duration;
use std::time::Instant;
use vstd::prelude::*;

verus! {

/// What a key of a cache must be: shareable between threads, cheap to
/// duplicate, comparable and hashable. Every such type is a key.
pub trait CacheKey: Send + Sync + Clone + Eq + Hash {

}

/// What a value of a cache must be: anything.
pub trait CacheVal {

}

impl<T: Send + Sync + Clone + Eq + Hash> CacheKey for T {

}

impl<T> CacheVal for T {

}

/// What the handles of one cache share.
#[verifier::reject_recursive_types(K)]
#[verifier::reject_recursive_types(V)]
struct Shared<K: CacheKey, V: CacheVal> {
    /// The instant from which the store's time is counted.
    origin: Instant,
    /// The store, behind its lock.
    store: Mutex<CacheStore<K, V>>,
}

/// In-memory cache with a time-to-live for each entry. Clones share the
/// store.
#[verifier::reject_recursive_types(K)]
#[verifier::reject_recursive_types(V)]
pub struct Cache<K: CacheKey, V: CacheVal> {
    shared: Arc<Shared<K, V>>,
}

impl<K: CacheKey, V: CacheVal> Clone for Cache<K, V> {
    /// Another handle to the same store.
    fn clone(&self) -> (copy: Self)
        ensures
            copy == *self,
    {
        Cache { shared: self.shared.clone() }
    }
}

impl<K: CacheKey, V: CacheVal> Default for Cache<K, V> {
    /// A handle to a new, empty store of its own.
    fn default() -> (cache: Self) {
        Cache::new()
    }
}

impl<K: CacheKey, V: CacheVal> Cache<K, V> {
    /// A handle to a new, empty store of its own.
    pub fn new() -> (cache: Self) {
        let store = CacheStore::new();
        Cache { shared: Arc::new(Shared { origin: Instant::now(), store: Mutex::new(store) }) }
    }

    /// Saves an entry that lives for `ttl` from now. What is due is swept
    /// before. Returns the shared value.
    pub fn save(&self, key: K, val: V, ttl: Duration) -> (saved: Arc<V>)
        ensures
            *saved == val,
    {
        let ttl = ttl.as_nanos();
        let mut guard = lock(&self.shared.store);
        let now = nanos_since(&self.shared.origin);
        guarded(&mut guard).save(key, val, now, ttl)
    }

    /// The value held for `key`. Nothing is swept, so the value may be
    /// past its deadline.
    pub fn get(&self, key: &K) -> (found: Option<Arc<V>>) {
        let mut guard = lock(&self.shared.store);
        guarded(&mut guard).get(key)
    }

    /// The value held for `key`; if there is one, it now lives for `ttl`
    /// from now.
    pub fn get_and_renew(&self, key: &K, ttl: Duration) -> (found: Option<Arc<V>>) {
        let ttl = ttl.as_nanos();
        let mut guard = lock(&self.shared.store);
        let now = nanos_since(&self.shared.origin);
        guarded(&mut guard).get_and_renew(key, now, ttl)
    }

    /// Sweeps what is due now.
    pub fn purge(&self) {
        let mut guard = lock(&self.shared.store);
        let now = nanos_since(&self.shared.origin);
        guarded(&mut guard).purge(now);
    }
}

} // verus!
