//! The expiry index of the cache: a priority queue that hands out the
//! record with the earliest deadline first.
//!
//! The queue is a binary heap laid out in a vector. Its contents are
//! modelled as a multiset of records: which of two records with the same
//! deadline leaves first is left open.

use vstd::multiset::Multiset;
use vstd::prelude::*;
use vstd::seq_lib::to_multiset_build;
use vstd::seq_lib::to_multiset_contains;
use vstd::seq_lib::to_multiset_len;
use vstd::seq_lib::to_multiset_remove;
use vstd::seq_lib::to_multiset_update;

verus! {

/// `<[T]>::swap` exchanges the elements at the positions `a` and `b` and
/// leaves every other element where it is. It panics when a position is
/// out of bounds, which `requires` rules out.
pub assume_specification<Elem>[ <[Elem]>::swap ](items: &mut [Elem], a: usize, b: usize)
    requires
        a < old(items)@.len(),
        b < old(items)@.len(),
    ensures
        final(items)@ == old(items)@.update(a as int, old(items)@[b as int]).update(
            b as int,
            old(items)@[a as int],
        ),
;

/// One record of the expiry index: `key` was given the deadline `expire`.
pub struct CacheKeyEntry<K> {
    pub expire: u128,
    pub key: K,
}

/// A priority queue of [`CacheKeyEntry`] records, earliest deadline first.
pub struct ExpiryQueue<K> {
    items: Vec<CacheKeyEntry<K>>,
}

/// The position above `i` in the heap.
spec fn parent(i: int) -> int {
    (i - 1) / 2
}

/// No record is due before the one above it.
spec fn heap_ordered<K>(s: Seq<CacheKeyEntry<K>>) -> bool {
    forall|i: int| 0 < i < s.len() ==> s[parent(i)].expire <= #[trigger] s[i].expire
}

/// The heap order holds everywhere but between `hole` and the record above
/// it; the records below `hole` are no earlier than the one above it.
spec fn ordered_but_above<K>(s: Seq<CacheKeyEntry<K>>, hole: int) -> bool {
    &&& forall|i: int|
        0 < i < s.len() && i != hole ==> s[parent(i)].expire <= #[trigger] s[i].expire
    &&& forall|i: int|
        0 < i < s.len() && parent(i) == hole && hole > 0 ==> s[parent(hole)].expire
            <= #[trigger] s[i].expire
}

/// The heap order holds everywhere but between `hole` and the records
/// below it; those are no earlier than the record above `hole`.
spec fn ordered_but_below<K>(s: Seq<CacheKeyEntry<K>>, hole: int) -> bool {
    &&& forall|i: int|
        0 < i < s.len() && parent(i) != hole ==> s[parent(i)].expire <= #[trigger] s[i].expire
    &&& forall|i: int|
        0 < i < s.len() && parent(i) == hole && hole > 0 ==> s[parent(hole)].expire
            <= #[trigger] s[i].expire
}

/// No record of `records` is due before `expire`.
pub open spec fn is_earliest<K>(records: Multiset<CacheKeyEntry<K>>, expire: u128) -> bool {
    forall|e: CacheKeyEntry<K>| records.contains(e) ==> expire <= e.expire
}

/// In an ordered heap the first record is the earliest.
proof fn lemma_root_is_earliest<K>(s: Seq<CacheKeyEntry<K>>, i: int)
    requires
        heap_ordered(s),
        0 <= i < s.len(),
    ensures
        s[0].expire <= s[i].expire,
    decreases i,
{
    if i > 0 {
        lemma_root_is_earliest(s, parent(i));
    }
}

/// Exchanging two elements of a sequence keeps its elements.
proof fn lemma_swap_keeps_elements<A>(s: Seq<A>, a: int, b: int)
    requires
        0 <= a < s.len(),
        0 <= b < s.len(),
    ensures
        s.update(a, s[b]).update(b, s[a]).to_multiset() == s.to_multiset(),
{
    let t = s.update(a, s[b]);
    to_multiset_update(s, a, s[b]);
    to_multiset_update(t, b, s[a]);
    to_multiset_contains(s, s[a]);
    to_multiset_contains(s, s[b]);
    assert(t[b] == s[b]);
    assert(s.update(a, s[b]).update(b, s[a]).to_multiset() =~= s.to_multiset());
}

/// Moves the record at `start` up until the one above it is no later.
fn sift_up<K>(items: &mut Vec<CacheKeyEntry<K>>, start: usize)
    requires
        start < old(items)@.len(),
        ordered_but_above(old(items)@, start as int),
    ensures
        heap_ordered(final(items)@),
        final(items)@.to_multiset() == old(items)@.to_multiset(),
{
    let mut at: usize = start;
    while at > 0 && items[(at - 1) / 2].expire > items[at].expire
        invariant
            at < items@.len(),
            ordered_but_above(items@, at as int),
            items@.to_multiset() == old(items)@.to_multiset(),
        decreases at,
    {
        let above: usize = (at - 1) / 2;
        proof {
            lemma_swap_keeps_elements(items@, above as int, at as int);
        }
        items.swap(above, at);
        at = above;
    }
}

/// Moves the record at `start` down until no record below it is earlier.
fn sift_down<K>(items: &mut Vec<CacheKeyEntry<K>>, start: usize)
    requires
        start < old(items)@.len(),
        ordered_but_below(old(items)@, start as int),
    ensures
        heap_ordered(final(items)@),
        final(items)@.to_multiset() == old(items)@.to_multiset(),
{
    let len: usize = items.len();
    let mut at: usize = start;
    let mut settled: bool = false;
    while !settled && at < len / 2
        invariant
            len == items@.len(),
            at < len,
            settled ==> heap_ordered(items@),
            !settled ==> ordered_but_below(items@, at as int),
            items@.to_multiset() == old(items)@.to_multiset(),
        decreases (if settled { 0 } else { 1 + len - at }),
    {
        let left: usize = 2 * at + 1;
        let right: usize = left + 1;
        let mut below: usize = left;
        if right < len && items[right].expire < items[left].expire {
            below = right;
        }
        if items[at].expire <= items[below].expire {
            settled = true;
        } else {
            proof {
                lemma_swap_keeps_elements(items@, at as int, below as int);
            }
            items.swap(at, below);
            at = below;
        }
    }
}

/// The first record of a non-empty ordered heap is among its records and
/// no record is due before it.
proof fn lemma_first_is_earliest<K>(s: Seq<CacheKeyEntry<K>>)
    requires
        heap_ordered(s),
        s.len() > 0,
    ensures
        s.to_multiset().contains(s[0]),
        is_earliest(s.to_multiset(), s[0].expire),
{
    to_multiset_contains(s, s[0]);
    assert(s.contains(s[0]));
    assert forall|e: CacheKeyEntry<K>| s.to_multiset().contains(e) implies s[0].expire
        <= e.expire by {
        to_multiset_contains(s, e);
        let i = choose|i: int| 0 <= i < s.len() && s[i] == e;
        lemma_root_is_earliest(s, i);
    }
}

impl<K> ExpiryQueue<K> {
    /// The queue is an ordered heap.
    #[verifier::type_invariant]
    spec fn inv(self) -> bool {
        heap_ordered(self.items@)
    }

    /// The records in the queue, each as often as it was pushed and not
    /// yet popped.
    pub closed spec fn view(&self) -> Multiset<CacheKeyEntry<K>> {
        self.items@.to_multiset()
    }

    /// Takes the records out and leaves none.
    fn take(&mut self) -> (items: Vec<CacheKeyEntry<K>>)
        ensures
            items@ == old(self).items@,
            heap_ordered(items@),
            final(self).items@.len() == 0,
    {
        proof {
            use_type_invariant(&*self);
        }
        let mut items = Vec::new();
        std::mem::swap(&mut items, &mut self.items);
        items
    }

    /// An empty queue.
    pub fn new() -> (queue: Self)
        ensures
            queue@ == Multiset::<CacheKeyEntry<K>>::empty(),
    {
        let queue = ExpiryQueue { items: Vec::new() };
        assert(queue.items@.to_multiset() =~= Multiset::<CacheKeyEntry<K>>::empty()) by {
            to_multiset_len(queue.items@);
        }
        queue
    }

    /// The number of records in the queue.
    pub fn len(&self) -> (n: usize)
        ensures
            n == self@.len(),
    {
        proof {
            to_multiset_len(self.items@);
        }
        self.items.len()
    }

    /// Adds a record.
    pub fn push(&mut self, entry: CacheKeyEntry<K>)
        ensures
            final(self)@ == old(self)@.insert(entry),
    {
        let mut items = self.take();
        proof {
            to_multiset_build(items@, entry);
        }
        items.push(entry);
        let last: usize = items.len() - 1;
        sift_up(&mut items, last);
        self.items = items;
    }

    /// The earliest deadline in the queue, if it holds a record.
    pub fn earliest(&self) -> (due: Option<u128>)
        ensures
            due is None <==> self@.len() == 0,
            due matches Some(expire) ==> is_earliest(self@, expire) && exists|
                e: CacheKeyEntry<K>,
            | #[trigger] self@.contains(e) && e.expire == expire,
    {
        proof {
            use_type_invariant(self);
            to_multiset_len(self.items@);
        }
        if self.items.len() == 0 {
            None
        } else {
            proof {
                lemma_first_is_earliest(self.items@);
            }
            Some(self.items[0].expire)
        }
    }

    /// Whether the deadline of some record has passed at `now`.
    pub fn has_due(&self, now: u128) -> (due: bool)
        ensures
            due <==> exists|e: CacheKeyEntry<K>| #[trigger] self@.contains(e) && e.expire <= now,
    {
        match self.earliest() {
            Some(expire) => expire <= now,
            None => false,
        }
    }

    /// Takes out a record with the earliest deadline, if there is one.
    pub fn pop(&mut self) -> (first: Option<CacheKeyEntry<K>>)
        ensures
            match first {
                None => old(self)@.len() == 0 && final(self)@ == old(self)@,
                Some(e) => {
                    &&& old(self)@.contains(e)
                    &&& is_earliest(old(self)@, e.expire)
                    &&& final(self)@ == old(self)@.remove(e)
                },
            },
    {
        let mut items = self.take();
        proof {
            to_multiset_len(items@);
        }
        let len: usize = items.len();
        if len == 0 {
            assert(self.items@ =~= items@);
            return None;
        }
        proof {
            lemma_first_is_earliest(items@);
            lemma_swap_keeps_elements(items@, 0, len - 1);
        }
        let ghost before = items@;
        items.swap(0, len - 1);
        let ghost swapped = items@;
        let first = items.pop();
        proof {
            to_multiset_remove(swapped, len - 1);
            assert(items@ =~= swapped.remove(len - 1));
            assert(first == Some(before[0]));
        }
        if len > 1 {
            assert(ordered_but_below(items@, 0)) by {
                assert forall|i: int| 0 < i < items@.len() && parent(i) != 0 implies items@[parent(
                    i,
                )].expire <= #[trigger] items@[i].expire by {
                    assert(items@[i] == before[i]);
                    assert(items@[parent(i)] == before[parent(i)]);
                }
            }
            sift_down(&mut items, 0);
        }
        self.items = items;
        first
    }
}

} // verus!
