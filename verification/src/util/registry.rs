//! One cache for each pair of key and value types.
//!
//! [`CacheMap`] keeps every cache it has handed out, with its types
//! forgotten, under the identity of its pair of key and value types. A
//! request looks for the cache kept under the identity of the pair asked
//! for and hands out another handle to it; only when none is kept under
//! that identity does it make a cache and keep it. A kept cache is handed
//! out through a checked downcast, so a cache of other types is never
//! handed out in its place.

use crate::util::cache::Cache;
use crate::util::cache::CacheKey;
use crate::util::cache::CacheVal;
use crate::util::sync::guarded;
use crate::util::sync::lock;
use std::any::TypeId;
use std::sync::Mutex;
use vstd::prelude::*;

verus! {

/// A cache whose key and value types are forgotten: a boxed
/// `dyn Any + Send + Sync`. What it holds is seen only through
/// [`recover`].
#[verifier::external_body]
pub struct AnyCache {
    held: Box<dyn std::any::Any + Send + Sync>,
}

/// Boxes a handle and forgets its types. Nothing is claimed of the box.
#[verifier::external_body]
fn erase<K: CacheKey + 'static, V: CacheVal + Send + Sync + 'static>(cache: Cache<K, V>) -> (slot:
    AnyCache) {
    AnyCache { held: Box::new(cache) }
}

/// `<dyn Any>::downcast_ref`: the handle in the box if the box was made
/// from a `Cache<K, V>`, and nothing if it was made from a cache of other
/// types. Nothing is claimed of which it is.
#[verifier::external_body]
fn recover<K: CacheKey + 'static, V: CacheVal + Send + Sync + 'static>(slot: &AnyCache) -> (cache:
    Option<&Cache<K, V>>) {
    slot.held.downcast_ref::<Cache<K, V>>()
}

/// `std::any::TypeId`, carried through as an opaque value: the identity of
/// a type.
#[verifier::external_type_specification]
#[verifier::external_body]
pub struct ExTypeId(std::any::TypeId);

/// `TypeId::of` gives the identity of a type. The type is no value, so
/// nothing is claimed of the identity here.
pub assume_specification<T: ?Sized + 'static>[ std::any::TypeId::of::<T> ]() -> (id: TypeId);

/// `==` on `TypeId`: two identities are equal exactly when they are the
/// same identity.
#[verifier::external_body]
fn same_id(a: &TypeId, b: &TypeId) -> (same: bool)
    ensures
        same == (*a == *b),
{
    a == b
}

/// A kept cache, under the identity of its pair of types.
pub struct Slot {
    id: TypeId,
    held: AnyCache,
}

/// The identities of `slots`, in their order.
pub closed spec fn ids_of(slots: Seq<Slot>) -> Seq<TypeId> {
    slots.map_values(|slot: Slot| slot.id)
}

/// The identities that a registry keeps after a request for `id`: those
/// it kept, and `id` after them if it was not among them.
pub open spec fn ids_after_request(kept: Seq<TypeId>, id: TypeId) -> Seq<TypeId> {
    if kept.contains(id) {
        kept
    } else {
        kept.push(id)
    }
}

/// The caches that a [`CacheMap`] keeps, in the order in which they were
/// made, each under the identity of its pair of types.
pub struct CacheMapInner {
    slots: Vec<Slot>,
}

impl CacheMapInner {
    /// No identity is kept twice.
    #[verifier::type_invariant]
    spec fn inv(self) -> bool {
        ids_of(self.slots@).no_duplicates()
    }

    /// The identities under which caches are kept, oldest first.
    pub closed spec fn view(&self) -> Seq<TypeId> {
        ids_of(self.slots@)
    }

    /// A registry that keeps no cache.
    pub fn new() -> (inner: Self)
        ensures
            inner@.len() == 0,
    {
        CacheMapInner { slots: Vec::new() }
    }

    /// The number of caches kept.
    pub fn len(&self) -> (n: usize)
        ensures
            n == self@.len(),
    {
        self.slots.len()
    }

    /// The place of the cache that is kept under `id`, if one is.
    pub fn position(&self, id: &TypeId) -> (place: Option<usize>)
        ensures
            match place {
                Some(at) => at < self@.len() && self@[at as int] == *id,
                None => !self@.contains(*id),
            },
    {
        let mut at: usize = 0;
        while at < self.slots.len()
            invariant
                at <= self.slots@.len(),
                forall|i: int| 0 <= i < at ==> ids_of(self.slots@)[i] != *id,
            decreases self.slots@.len() - at,
        {
            if same_id(&self.slots[at].id, id) {
                return Some(at);
            }
            at = at + 1;
        }
        None
    }

    /// A handle to the cache that is kept under `id`, if one is kept and
    /// it is a cache for `K` and `V`.
    pub fn find_by_id<K: CacheKey + 'static, V: CacheVal + Send + Sync + 'static>(
        &self,
        id: &TypeId,
    ) -> (found: Option<Cache<K, V>>)
        ensures
            found is Some ==> self@.contains(*id),
    {
        match self.position(id) {
            Some(at) => match recover::<K, V>(&self.slots[at].held) {
                Some(cache) => Some(cache.clone()),
                None => None,
            },
            None => None,
        }
    }

    /// A handle to the kept cache of the types asked for, if one is kept.
    /// A registry that keeps no cache has none to hand out.
    pub fn find<K: CacheKey + 'static, V: CacheVal + Send + Sync + 'static>(&self) -> (found:
        Option<Cache<K, V>>)
        ensures
            self@.len() == 0 ==> found is None,
    {
        let id = TypeId::of::<(K, V)>();
        self.find_by_id::<K, V>(&id)
    }

    /// The cache for `K` and `V` under the identity `id`: the kept one if
    /// one is kept under `id`, else a new one, which is kept under `id`
    /// from now on. What was kept stays kept, in its place.
    pub fn get_by_id<K: CacheKey + 'static, V: CacheVal + Send + Sync + 'static>(
        &mut self,
        id: TypeId,
    ) -> (cache: Cache<K, V>)
        ensures
            final(self)@ == ids_after_request(old(self)@, id),
            final(self)@.no_duplicates(),
    {
        proof {
            use_type_invariant(&*self);
        }
        match self.find_by_id::<K, V>(&id) {
            Some(cache) => cache,
            None => {
                let cache = Cache::<K, V>::new();
                if self.position(&id).is_none() {
                    let mut slots = Vec::new();
                    std::mem::swap(&mut slots, &mut self.slots);
                    let ghost kept = slots@;
                    slots.push(Slot { id, held: erase(cache.clone()) });
                    assert(ids_of(slots@) =~= ids_of(kept).push(id));
                    self.slots = slots;
                }
                cache
            },
        }
    }

    /// The cache of the types asked for: a kept one if there is one, else
    /// a new one, which is kept from now on. A registry that kept no cache
    /// keeps one afterwards; caches that were kept stay kept, in their
    /// places, and at most one is added, under an identity of its own.
    pub fn get<K: CacheKey + 'static, V: CacheVal + Send + Sync + 'static>(&mut self) -> (cache:
        Cache<K, V>)
        ensures
            exists|id: TypeId| final(self)@ == #[trigger] ids_after_request(old(self)@, id),
            old(self)@.is_prefix_of(final(self)@),
            final(self)@.len() <= old(self)@.len() + 1,
            old(self)@.len() == 0 ==> final(self)@.len() == 1,
            final(self)@.no_duplicates(),
    {
        let id = TypeId::of::<(K, V)>();
        let ghost kept = self@;
        let cache = self.get_by_id::<K, V>(id);
        assert(self@ == ids_after_request(kept, id));
        cache
    }
}

/// Provides one [`Cache`] for each pair of key and value types. Handles
/// that it gives out for the same pair share their store.
pub struct CacheMap {
    inner: Mutex<CacheMapInner>,
}

impl Default for CacheMap {
    /// A registry that keeps no cache yet.
    fn default() -> (registry: Self) {
        CacheMap::new()
    }
}

impl CacheMap {
    /// A registry that keeps no cache yet.
    pub fn new() -> (registry: Self) {
        CacheMap { inner: Mutex::new(CacheMapInner::new()) }
    }

    /// The cache for the key type `K` and the value type `V`. The first
    /// request for a pair makes its cache; every later one gets a handle
    /// to that same cache.
    pub fn get<K: CacheKey + 'static, V: CacheVal + Send + Sync + 'static>(&self) -> (cache: Cache<
        K,
        V,
    >) {
        let mut guard = lock(&self.inner);
        guarded(&mut guard).get::<K, V>()
    }
}

} // verus!
