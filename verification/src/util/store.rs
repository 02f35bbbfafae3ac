//! The store of one cache: two hash maps and the expiry index, driven by
//! instants that the caller hands in.

use crate::util::clock::deadline;
use crate::util::model::CacheModel;
use crate::util::queue::CacheKeyEntry;
use crate::util::queue::ExpiryQueue;
use std::collections::HashMap;
use std::hash::Hash;
use std::sync::Arc;
use vstd::prelude::*;
use vstd::std_specs::hash::obeys_key_model;

verus! {

/// `Clone::clone` on a key. A key type that obeys the hash-table key model
/// clones to a key equal to the one cloned; of other key types nothing is
/// claimed.
#[verifier::external_body]
fn clone_key<K: Clone>(key: &K) -> (copy: K)
    ensures
        obeys_key_model::<K>() ==> copy == *key,
{
    key.clone()
}

/// The tables of a store.
struct Tables<K, V> {
    /// The deadline that counts for each key.
    real_ttl: HashMap<K, u128>,
    /// The expiry index. It may hold stale records.
    next_ttl: ExpiryQueue<K>,
    /// The value held for each key.
    map: HashMap<K, Arc<V>>,
}

impl<K: Eq + Hash + Clone, V> Tables<K, V> {
    spec fn view(&self) -> CacheModel<K, V> {
        CacheModel { values: self.map@, deadlines: self.real_ttl@, queue: self.next_ttl@ }
    }

    spec fn wf(&self) -> bool {
        obeys_key_model::<K>() ==> self@.wf()
    }

    fn new() -> (tables: Self)
        ensures
            tables.wf(),
            tables@ == CacheModel::<K, V>::empty(),
    {
        Tables { real_ttl: HashMap::new(), next_ttl: ExpiryQueue::new(), map: HashMap::new() }
    }

    /// Sweeps every record whose deadline has passed at `now`, and with it
    /// the key it names if that deadline still counts for the key.
    fn purge(&mut self, now: u128)
        requires
            old(self).wf(),
        ensures
            final(self).wf(),
            obeys_key_model::<K>() ==> final(self)@ == old(self)@.purge(now),
    {
        let ghost start = self@;
        proof {
            start.lemma_sweep_start();
        }
        while self.next_ttl.has_due(now)
            invariant
                self.wf(),
                self.next_ttl@.subset_of(start.queue),
                forall|e: CacheKeyEntry<K>|
                    e.expire > now ==> self.next_ttl@.count(e) == start.queue.count(e),
                obeys_key_model::<K>() ==> start.wf() && self@ == start.swept(self.next_ttl@),
            decreases self.next_ttl@.len(),
        {
            let ghost left = self.next_ttl@;
            match self.next_ttl.pop() {
                Some(entry) => {
                    let counts = match self.real_ttl.get(&entry.key) {
                        Some(actual) => *actual == entry.expire,
                        None => false,
                    };
                    if counts {
                        self.real_ttl.remove(&entry.key);
                        self.map.remove(&entry.key);
                    }
                    proof {
                        if obeys_key_model::<K>() {
                            start.lemma_sweep_step(left, entry);
                            assert(self@.values =~= start.swept(self.next_ttl@).values);
                            assert(self@.deadlines =~= start.swept(self.next_ttl@).deadlines);
                        }
                    }
                },
                None => {},
            }
        }
        proof {
            if obeys_key_model::<K>() {
                start.lemma_sweep_done(self.next_ttl@, now);
            }
        }
    }

    fn get(&self, key: &K) -> (found: Option<Arc<V>>)
        ensures
            obeys_key_model::<K>() ==> found == self@.get(*key),
    {
        match self.map.get(key) {
            Some(value) => Some(value.clone()),
            None => None,
        }
    }

    fn save(&mut self, key: K, val: V, now: u128, ttl: u128) -> (saved: Arc<V>)
        requires
            old(self).wf(),
        ensures
            final(self).wf(),
            *saved == val,
            obeys_key_model::<K>() ==> final(self)@ == old(self)@.save(key, saved, now, ttl),
    {
        self.purge(now);
        let expire = deadline(now, ttl);
        self.next_ttl.push(CacheKeyEntry { expire, key: clone_key(&key) });
        self.real_ttl.insert(clone_key(&key), expire);
        let saved = Arc::new(val);
        self.map.insert(key, saved.clone());
        saved
    }

    fn get_and_renew(&mut self, key: &K, now: u128, ttl: u128) -> (found: Option<Arc<V>>)
        requires
            old(self).wf(),
        ensures
            final(self).wf(),
            obeys_key_model::<K>() ==> found == old(self)@.get(*key),
            obeys_key_model::<K>() ==> final(self)@ == old(self)@.renew(*key, now, ttl),
    {
        let found = self.get(key);
        if found.is_some() {
            self.real_ttl.insert(clone_key(key), deadline(now, ttl));
            assert(obeys_key_model::<K>() ==> self@.deadlines.dom() =~= old(self)@.deadlines.dom());
        }
        found
    }
}

/// The store of one cache.
///
/// Every operation that depends on time takes the current instant, in
/// nanoseconds since an origin that the caller chooses and keeps. What the
/// store does is stated of [`CacheModel`]; the statements hold for key
/// types that obey the hash-table key model of `vstd`.
pub struct CacheStore<K: Eq + Hash + Clone, V> {
    tables: Tables<K, V>,
}

impl<K: Eq + Hash + Clone, V> CacheStore<K, V> {
    #[verifier::type_invariant]
    spec fn inv(self) -> bool {
        self.tables.wf()
    }

    /// What the store holds.
    pub closed spec fn view(&self) -> CacheModel<K, V> {
        self.tables@
    }

    /// Takes the tables out and leaves empty ones.
    fn take(&mut self) -> (tables: Tables<K, V>)
        ensures
            tables == old(self).tables,
            tables.wf(),
    {
        proof {
            use_type_invariant(&*self);
        }
        let mut tables = Tables::new();
        std::mem::swap(&mut tables, &mut self.tables);
        tables
    }

    /// A store that holds nothing.
    pub fn new() -> (store: Self)
        ensures
            store@ == CacheModel::<K, V>::empty(),
    {
        CacheStore { tables: Tables::new() }
    }

    /// Sweeps what is due at `now`, then gives `key` the value `val` and
    /// the deadline `now + ttl`. Returns the shared value.
    pub fn save(&mut self, key: K, val: V, now: u128, ttl: u128) -> (saved: Arc<V>)
        ensures
            *saved == val,
            obeys_key_model::<K>() ==> final(self)@ == old(self)@.save(key, saved, now, ttl),
            obeys_key_model::<K>() ==> final(self)@.wf(),
    {
        let mut tables = self.take();
        let saved = tables.save(key, val, now, ttl);
        self.tables = tables;
        saved
    }

    /// The value held for `key`, whether its deadline has passed or not.
    pub fn get(&self, key: &K) -> (found: Option<Arc<V>>)
        ensures
            obeys_key_model::<K>() ==> found == self@.get(*key),
    {
        self.tables.get(key)
    }

    /// The value held for `key`; if there is one, its deadline becomes
    /// `now + ttl`.
    pub fn get_and_renew(&mut self, key: &K, now: u128, ttl: u128) -> (found: Option<Arc<V>>)
        ensures
            obeys_key_model::<K>() ==> found == old(self)@.get(*key),
            obeys_key_model::<K>() ==> final(self)@ == old(self)@.renew(*key, now, ttl),
            obeys_key_model::<K>() ==> final(self)@.wf(),
    {
        let mut tables = self.take();
        let found = tables.get_and_renew(key, now, ttl);
        self.tables = tables;
        found
    }

    /// Sweeps what is due at `now`.
    pub fn purge(&mut self, now: u128)
        ensures
            obeys_key_model::<K>() ==> final(self)@ == old(self)@.purge(now),
            obeys_key_model::<K>() ==> final(self)@.wf(),
    {
        let mut tables = self.take();
        tables.purge(now);
        self.tables = tables;
    }
}

} // verus!
