//! What a cache is, as mathematics.
//!
//! A cache holds, for each key, a shared value and the deadline that
//! counts for it, and beside them an index of records that says which key
//! may be due when. The index may run behind: a record whose deadline is
//! no longer the one that counts for its key is stale, and sweeping it
//! changes nothing else.

use crate::util::clock::deadline_after;
use crate::util::queue::CacheKeyEntry;
use std::sync::Arc;
use vstd::multiset::Multiset;
use vstd::prelude::*;

verus! {

/// The test that a record passes when it is not yet due at `now`.
pub open spec fn due_after<K>(now: u128) -> spec_fn(CacheKeyEntry<K>) -> bool {
    |e: CacheKeyEntry<K>| e.expire > now
}

/// One operation on a cache, with the instant at which it happens.
pub enum CacheOp<K, V> {
    /// A save of `value` under `key` with the time-to-live `ttl`.
    Save { key: K, value: Arc<V>, now: u128, ttl: u128 },
    /// A lookup of `key` that renews it with the time-to-live `ttl`.
    Renew { key: K, now: u128, ttl: u128 },
    /// A purge.
    Purge { now: u128 },
}

impl<K, V> CacheOp<K, V> {
    /// The instant at which the operation happens.
    pub open spec fn at(self) -> u128 {
        match self {
            CacheOp::Save { now, .. } => now,
            CacheOp::Renew { now, .. } => now,
            CacheOp::Purge { now } => now,
        }
    }

    /// The operation saves or renews `key`.
    pub open spec fn touches(self, key: K) -> bool {
        match self {
            CacheOp::Save { key: saved, .. } => saved == key,
            CacheOp::Renew { key: renewed, .. } => renewed == key,
            CacheOp::Purge { .. } => false,
        }
    }

    /// The operation sweeps what is due: a save or a purge does, a renewal
    /// does not.
    pub open spec fn sweeps(self) -> bool {
        !(self is Renew)
    }
}

/// The state of a cache.
#[verifier::ext_equal]
#[verifier::reject_recursive_types(K)]
#[verifier::reject_recursive_types(V)]
pub struct CacheModel<K, V> {
    /// The value held for each key.
    pub values: Map<K, Arc<V>>,
    /// The deadline that counts for each key.
    pub deadlines: Map<K, u128>,
    /// The records of the expiry index.
    pub queue: Multiset<CacheKeyEntry<K>>,
}

impl<K, V> CacheModel<K, V> {
    /// Every key with a value has a deadline, and no other key has one.
    pub open spec fn wf(self) -> bool {
        self.values.dom() == self.deadlines.dom()
    }

    /// The cache that holds nothing.
    pub open spec fn empty() -> Self {
        CacheModel {
            values: Map::empty(),
            deadlines: Map::empty(),
            queue: Multiset::empty(),
        }
    }

    /// The value held for `key`, if there is one. Deadlines play no part.
    pub open spec fn get(self, key: K) -> Option<Arc<V>> {
        if self.values.contains_key(key) {
            Some(self.values[key])
        } else {
            None
        }
    }

    /// The record that the index holds for `key` while the deadline that
    /// counts for it is the one it was pushed with.
    pub open spec fn record_of(self, key: K) -> CacheKeyEntry<K> {
        CacheKeyEntry { expire: self.deadlines[key], key }
    }

    /// `key` is swept by a purge at `now`: its deadline has passed and the
    /// index holds a record with exactly that deadline.
    pub open spec fn is_due(self, key: K, now: u128) -> bool {
        &&& self.deadlines.contains_key(key)
        &&& self.deadlines[key] <= now
        &&& self.queue.contains(self.record_of(key))
    }

    /// The keys that a purge at `now` sweeps.
    pub open spec fn due(self, now: u128) -> Set<K> {
        Set::new(|key: K| self.is_due(key, now))
    }

    /// The cache after a purge at `now`: the due keys are gone, and so is
    /// every record whose deadline has passed, stale or not.
    pub open spec fn purge(self, now: u128) -> Self {
        CacheModel {
            values: self.values.remove_keys(self.due(now)),
            deadlines: self.deadlines.remove_keys(self.due(now)),
            queue: self.queue.filter(due_after(now)),
        }
    }

    /// The cache after `key` was given `value` and the deadline `expire`.
    /// An earlier record of `key` stays in the index.
    pub open spec fn put(self, key: K, value: Arc<V>, expire: u128) -> Self {
        CacheModel {
            values: self.values.insert(key, value),
            deadlines: self.deadlines.insert(key, expire),
            queue: self.queue.insert(CacheKeyEntry { expire, key }),
        }
    }

    /// The cache after a save at `now`: a purge, then the new entry.
    pub open spec fn save(self, key: K, value: Arc<V>, now: u128, ttl: u128) -> Self {
        self.purge(now).put(key, value, deadline_after(now, ttl))
    }

    /// The cache after a renewal at `now`: a key that is held gets a new
    /// deadline and no record; a key that is not held changes nothing.
    pub open spec fn renew(self, key: K, now: u128, ttl: u128) -> Self {
        if self.values.contains_key(key) {
            CacheModel {
                values: self.values,
                deadlines: self.deadlines.insert(key, deadline_after(now, ttl)),
                queue: self.queue,
            }
        } else {
            self
        }
    }

    /// The cache after `op`.
    pub open spec fn apply(self, op: CacheOp<K, V>) -> Self {
        match op {
            CacheOp::Save { key, value, now, ttl } => self.save(key, value, now, ttl),
            CacheOp::Renew { key, now, ttl } => self.renew(key, now, ttl),
            CacheOp::Purge { now } => self.purge(now),
        }
    }

    /// The cache after the operations `ops`, in their order.
    pub open spec fn run(self, ops: Seq<CacheOp<K, V>>) -> Self
        decreases ops.len(),
    {
        if ops.len() == 0 {
            self
        } else {
            self.run(ops.drop_last()).apply(ops.last())
        }
    }

    /// `key` holds `value` until `expire`, and the index knows it: the
    /// state of a key after a save and before anything else happens to it.
    pub open spec fn holds_until(self, key: K, value: Arc<V>, expire: u128) -> bool {
        &&& self.values.contains_key(key)
        &&& self.values[key] == value
        &&& self.deadlines.contains_key(key)
        &&& self.deadlines[key] == expire
        &&& self.queue.contains(CacheKeyEntry { expire, key })
    }

    /// The keys whose record has left the index since it held
    /// `self.queue`, when `left` is what it holds now.
    pub open spec fn swept_keys(self, left: Multiset<CacheKeyEntry<K>>) -> Set<K> {
        Set::new(
            |key: K|
                self.deadlines.contains_key(key) && left.count(self.record_of(key))
                    < self.queue.count(self.record_of(key)),
        )
    }

    /// The cache part-way through a purge, when the index still holds
    /// `left`.
    pub open spec fn swept(self, left: Multiset<CacheKeyEntry<K>>) -> Self {
        CacheModel {
            values: self.values.remove_keys(self.swept_keys(left)),
            deadlines: self.deadlines.remove_keys(self.swept_keys(left)),
            queue: left,
        }
    }

    /// While the index holds all its records nothing has been swept.
    pub proof fn lemma_sweep_start(self)
        ensures
            self.swept(self.queue) == self,
    {
        assert(self.swept_keys(self.queue) =~= Set::<K>::empty());
        assert(self.swept(self.queue) =~= self);
    }

    /// Taking `entry` out of the index sweeps its key if the deadline of
    /// the record still counts for the key and the key was not swept
    /// before, and sweeps nothing otherwise.
    pub proof fn lemma_sweep_step(self, left: Multiset<CacheKeyEntry<K>>, entry: CacheKeyEntry<K>)
        requires
            left.subset_of(self.queue),
            left.contains(entry),
        ensures
            ({
                let now_left = left.remove(entry);
                let held = self.swept(left).deadlines;
                if held.contains_key(entry.key) && held[entry.key] == entry.expire {
                    self.swept_keys(now_left) == self.swept_keys(left).insert(entry.key)
                } else {
                    self.swept_keys(now_left) == self.swept_keys(left)
                }
            }),
    {
        let now_left = left.remove(entry);
        let held = self.swept(left).deadlines;
        assert forall|key: K| key != entry.key implies (self.swept_keys(now_left).contains(key)
            <==> self.swept_keys(left).contains(key)) by {
            assert(self.record_of(key) != entry);
        }
        if held.contains_key(entry.key) && held[entry.key] == entry.expire {
            assert(self.record_of(entry.key) == entry);
            assert(self.swept_keys(now_left) =~= self.swept_keys(left).insert(entry.key));
        } else {
            if self.deadlines.contains_key(entry.key) && self.deadlines[entry.key]
                == entry.expire {
                assert(self.record_of(entry.key) == entry);
                assert(self.swept_keys(left).contains(entry.key));
            }
            assert(self.swept_keys(now_left) =~= self.swept_keys(left));
        }
    }

    /// Once no record that is left is due at `now`, and no record that is
    /// not due has left, the purge at `now` is done.
    pub proof fn lemma_sweep_done(self, left: Multiset<CacheKeyEntry<K>>, now: u128)
        requires
            left.subset_of(self.queue),
            forall|e: CacheKeyEntry<K>| e.expire > now ==> left.count(e) == self.queue.count(e),
            forall|e: CacheKeyEntry<K>| left.contains(e) ==> e.expire > now,
        ensures
            self.swept(left) == self.purge(now),
    {
        assert forall|key: K| self.swept_keys(left).contains(key) <==> self.is_due(key, now) by {
            if self.deadlines.contains_key(key) {
                let record = self.record_of(key);
                if record.expire <= now {
                    assert(!left.contains(record));
                }
            }
        }
        assert(self.swept_keys(left) =~= self.due(now));
        assert(left =~= self.queue.filter(due_after(now))) by {
            broadcast use vstd::multiset::group_multiset_axioms;

            assert forall|e: CacheKeyEntry<K>|
                left.count(e) == self.queue.filter(due_after(now)).count(e) by {
                if !due_after::<K>(now)(e) {
                    assert(!left.contains(e));
                }
            }
        }
    }
}

} // verus!
