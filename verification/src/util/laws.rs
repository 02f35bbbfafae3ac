//! Laws of the cache, proved of [`CacheModel`]. The store's operations are
//! specified by the same functions, so each law holds of every store.

use crate::util::clock::deadline_after;
use crate::util::model::due_after;
use crate::util::model::CacheOp;
use crate::util::model::CacheModel;
use crate::util::queue::CacheKeyEntry;
use std::sync::Arc;
use vstd::prelude::*;

verus! {

/// Every operation keeps the invariant of the data model: a key has a
/// value exactly when it has a deadline.
pub proof fn law_operations_keep_wf<K, V>(
    cache: CacheModel<K, V>,
    key: K,
    value: Arc<V>,
    now: u128,
    ttl: u128,
)
    requires
        cache.wf(),
    ensures
        CacheModel::<K, V>::empty().wf(),
        cache.purge(now).wf(),
        cache.save(key, value, now, ttl).wf(),
        cache.renew(key, now, ttl).wf(),
{
    assert(cache.purge(now).values.dom() =~= cache.purge(now).deadlines.dom());
    let swept = cache.purge(now);
    let expire = deadline_after(now, ttl);
    assert(swept.put(key, value, expire).values.dom() =~= swept.put(
        key,
        value,
        expire,
    ).deadlines.dom());
    assert(cache.renew(key, now, ttl).values.dom() =~= cache.renew(key, now, ttl).deadlines.dom());
}

/// A purge removes a key only if its deadline has passed and the index
/// holds a record with exactly that deadline. A key whose deadline lies
/// ahead keeps its value and its deadline, whatever stale records of it
/// the purge sweeps.
pub proof fn law_purge_spares_live_keys<K, V>(cache: CacheModel<K, V>, key: K, now: u128)
    requires
        cache.deadlines.contains_key(key),
        cache.deadlines[key] > now,
    ensures
        cache.purge(now).get(key) == cache.get(key),
        cache.purge(now).deadlines.contains_key(key),
        cache.purge(now).deadlines[key] == cache.deadlines[key],
        cache.purge(now).queue.count(cache.record_of(key)) == cache.queue.count(
            cache.record_of(key),
        ),
{
    broadcast use vstd::multiset::group_multiset_axioms;

    assert(!cache.due(now).contains(key));
    assert(due_after::<K>(now)(cache.record_of(key)));
}

/// After a purge the index holds no record whose deadline has passed, and
/// every record whose deadline lies ahead is still there.
pub proof fn law_purge_drops_passed_records<K, V>(
    cache: CacheModel<K, V>,
    record: CacheKeyEntry<K>,
    now: u128,
)
    ensures
        record.expire <= now ==> !cache.purge(now).queue.contains(record),
        record.expire > now ==> cache.purge(now).queue.count(record) == cache.queue.count(record),
{
    broadcast use vstd::multiset::group_multiset_axioms;

    assert(due_after::<K>(now)(record) == (record.expire > now));
}

/// Purging twice at one instant is purging once.
pub proof fn law_purge_is_idempotent<K, V>(cache: CacheModel<K, V>, now: u128)
    ensures
        cache.purge(now).purge(now) == cache.purge(now),
{
    broadcast use vstd::multiset::group_multiset_axioms;

    let once = cache.purge(now);
    assert forall|key: K| !once.is_due(key, now) by {
        if once.deadlines.contains_key(key) && once.deadlines[key] <= now {
            assert(!due_after::<K>(now)(once.record_of(key)));
        }
    }
    assert(once.due(now) =~= Set::<K>::empty());
    assert forall|e: CacheKeyEntry<K>|
        once.queue.filter(due_after(now)).count(e) == once.queue.count(e) by {
        assert(due_after::<K>(now)(e) == (e.expire > now));
    }
    assert(once.purge(now) =~= once);
}

/// Expiry. A saved value is there at once. A purge before its deadline
/// keeps it, and so does a save of another key before its deadline. A
/// purge at or after its deadline removes it, and so does a save of
/// another key then.
pub proof fn law_expiry<K, V>(
    cache: CacheModel<K, V>,
    key: K,
    value: Arc<V>,
    now: u128,
    ttl: u128,
    later: u128,
    other: K,
    other_value: Arc<V>,
    other_ttl: u128,
)
    requires
        other != key,
    ensures
        cache.save(key, value, now, ttl).get(key) == Some(value),
        later < deadline_after(now, ttl) ==> {
            &&& cache.save(key, value, now, ttl).purge(later).get(key) == Some(value)
            &&& cache.save(key, value, now, ttl).save(other, other_value, later, other_ttl).get(
                key,
            ) == Some(value)
        },
        later >= deadline_after(now, ttl) ==> {
            &&& cache.save(key, value, now, ttl).purge(later).get(key) is None
            &&& cache.save(key, value, now, ttl).save(other, other_value, later, other_ttl).get(
                key,
            ) is None
        },
        later > now + ttl ==> later >= deadline_after(now, ttl),
        now + ttl <= u128::MAX ==> deadline_after(now, ttl) == now + ttl,
{
    broadcast use vstd::multiset::group_multiset_axioms;

    let saved = cache.save(key, value, now, ttl);
    let expire = deadline_after(now, ttl);
    assert(saved.record_of(key) == CacheKeyEntry { expire, key });
    assert(saved.queue.contains(saved.record_of(key)));
    if later < expire {
        assert(!saved.due(later).contains(key));
    } else {
        assert(saved.due(later).contains(key));
    }
}

/// Renewal. After a renewal the key is kept by every purge before the new
/// deadline, also by one after the deadline it was saved with.
pub proof fn law_renewal_takes_precedence<K, V>(
    cache: CacheModel<K, V>,
    key: K,
    value: Arc<V>,
    saved_at: u128,
    ttl: u128,
    renewed_at: u128,
    new_ttl: u128,
    later: u128,
)
    requires
        later < deadline_after(renewed_at, new_ttl),
    ensures
        cache.save(key, value, saved_at, ttl).renew(key, renewed_at, new_ttl).get(key) == Some(
            value,
        ),
        cache.save(key, value, saved_at, ttl).renew(key, renewed_at, new_ttl).purge(later).get(key)
            == Some(value),
{
    let renewed = cache.save(key, value, saved_at, ttl).renew(key, renewed_at, new_ttl);
    assert(!renewed.due(later).contains(key));
}

/// A renewal of a key that is not held changes nothing.
pub proof fn law_renewal_of_absent_key<K, V>(
    cache: CacheModel<K, V>,
    key: K,
    now: u128,
    ttl: u128,
)
    requires
        cache.get(key) is None,
    ensures
        cache.renew(key, now, ttl) == cache,
{
}

/// Stale records. After a key is saved a second time, the record of the
/// first save is stale: a purge that sweeps it, before the second
/// deadline, keeps the second value.
pub proof fn law_stale_record_is_harmless<K, V>(
    cache: CacheModel<K, V>,
    key: K,
    first: Arc<V>,
    first_at: u128,
    first_ttl: u128,
    second: Arc<V>,
    second_at: u128,
    second_ttl: u128,
    later: u128,
)
    requires
        later < deadline_after(second_at, second_ttl),
    ensures
        cache.save(key, first, first_at, first_ttl).save(key, second, second_at, second_ttl).purge(
            later,
        ).get(key) == Some(second),
        deadline_after(first_at, first_ttl) <= later ==> !cache.save(
            key,
            first,
            first_at,
            first_ttl,
        ).save(key, second, second_at, second_ttl).purge(later).queue.contains(
            CacheKeyEntry { expire: deadline_after(first_at, first_ttl), key },
        ),
{
    let twice = cache.save(key, first, first_at, first_ttl).save(
        key,
        second,
        second_at,
        second_ttl,
    );
    assert(!twice.due(later).contains(key));
    law_purge_drops_passed_records(
        twice,
        CacheKeyEntry { expire: deadline_after(first_at, first_ttl), key },
        later,
    );
}

/// Isolation. A save, whatever its time-to-live, leaves every other key
/// whose deadline lies ahead as it was. A key saved with no time to live
/// is there until the next purge, which removes it.
pub proof fn law_save_leaves_other_keys<K, V>(
    cache: CacheModel<K, V>,
    key: K,
    value: Arc<V>,
    now: u128,
    ttl: u128,
    other: K,
    later: u128,
)
    requires
        other != key,
        cache.deadlines.contains_key(other),
        cache.deadlines[other] > now,
        later >= now,
    ensures
        cache.save(key, value, now, ttl).get(other) == cache.get(other),
        cache.save(key, value, now, ttl).deadlines[other] == cache.deadlines[other],
        cache.save(key, value, now, 0).get(key) == Some(value),
        cache.save(key, value, now, 0).purge(later).get(key) is None,
{
    law_purge_spares_live_keys(cache, other, now);
    law_expiry(cache, key, value, now, 0, later, other, value, 0);
}

/// Every run of operations from a well-formed cache ends in a well-formed
/// cache.
pub proof fn law_runs_keep_wf<K, V>(cache: CacheModel<K, V>, ops: Seq<CacheOp<K, V>>)
    requires
        cache.wf(),
    ensures
        cache.run(ops).wf(),
    decreases ops.len(),
{
    if ops.len() > 0 {
        law_runs_keep_wf(cache, ops.drop_last());
        let before = cache.run(ops.drop_last());
        match ops.last() {
            CacheOp::Save { key, value, now, ttl } => {
                law_operations_keep_wf(before, key, value, now, ttl);
            },
            CacheOp::Renew { key, now, ttl } => {
                assert(before.renew(key, now, ttl).values.dom() =~= before.renew(
                    key,
                    now,
                    ttl,
                ).deadlines.dom());
            },
            CacheOp::Purge { now } => {
                assert(before.purge(now).values.dom() =~= before.purge(now).deadlines.dom());
            },
        }
    }
}

/// An operation on another key, before the deadline, leaves a saved key as
/// it is.
pub proof fn law_saved_key_outlasts_operation<K, V>(
    cache: CacheModel<K, V>,
    key: K,
    value: Arc<V>,
    expire: u128,
    op: CacheOp<K, V>,
)
    requires
        cache.holds_until(key, value, expire),
        !op.touches(key),
        op.at() < expire,
    ensures
        cache.apply(op).holds_until(key, value, expire),
{
    broadcast use vstd::multiset::group_multiset_axioms;

    let record = CacheKeyEntry { expire, key };
    assert(due_after::<K>(op.at())(record));
    assert(!cache.due(op.at()).contains(key));
    assert(cache.purge(op.at()).holds_until(key, value, expire));
}

/// A key whose deadline lies ahead of every operation of a run, none of
/// which saves or renews it, comes out of the run with its value and its
/// deadline. Stale records of the key, whether from an earlier save or from
/// before a renewal, change nothing, and neither does what is saved under
/// other keys, with whatever time-to-live.
pub proof fn law_live_key_outlasts_run<K, V>(
    cache: CacheModel<K, V>,
    key: K,
    ops: Seq<CacheOp<K, V>>,
)
    requires
        cache.deadlines.contains_key(key),
        forall|i: int| 0 <= i < ops.len() ==> !(#[trigger] ops[i]).touches(key),
        forall|i: int| 0 <= i < ops.len() ==> (#[trigger] ops[i]).at() < cache.deadlines[key],
    ensures
        cache.run(ops).get(key) == cache.get(key),
        cache.run(ops).deadlines.contains_key(key),
        cache.run(ops).deadlines[key] == cache.deadlines[key],
    decreases ops.len(),
{
    if ops.len() > 0 {
        law_live_key_outlasts_run(cache, key, ops.drop_last());
        let before = cache.run(ops.drop_last());
        let op = ops.last();
        law_purge_spares_live_keys(before, key, op.at());
    }
}

/// Expiry, in full. After a save, whatever is done to other keys before
/// the deadline, in whatever order, the saved value is there. The first
/// save or purge at or after the deadline removes it.
pub proof fn law_saved_key_lives_to_its_deadline<K, V>(
    cache: CacheModel<K, V>,
    key: K,
    value: Arc<V>,
    now: u128,
    ttl: u128,
    ops: Seq<CacheOp<K, V>>,
    last: CacheOp<K, V>,
)
    requires
        forall|i: int| 0 <= i < ops.len() ==> !(#[trigger] ops[i]).touches(key),
        forall|i: int| 0 <= i < ops.len() ==> (#[trigger] ops[i]).at() < deadline_after(now, ttl),
        !last.touches(key),
    ensures
        cache.save(key, value, now, ttl).run(ops).holds_until(key, value, deadline_after(now, ttl)),
        cache.save(key, value, now, ttl).run(ops).get(key) == Some(value),
        last.sweeps() && last.at() >= deadline_after(now, ttl) ==> cache.save(
            key,
            value,
            now,
            ttl,
        ).run(ops).apply(last).get(key) is None,
    decreases ops.len(),
{
    broadcast use vstd::multiset::group_multiset_axioms;

    let saved = cache.save(key, value, now, ttl);
    let expire = deadline_after(now, ttl);
    if ops.len() == 0 {
        assert(saved.queue.contains(CacheKeyEntry { expire, key }));
    } else {
        law_saved_key_lives_to_its_deadline(cache, key, value, now, ttl, ops.drop_last(), last);
        law_saved_key_outlasts_operation(
            saved.run(ops.drop_last()),
            key,
            value,
            expire,
            ops.last(),
        );
    }
    let end = saved.run(ops);
    if last.sweeps() && last.at() >= expire {
        assert(end.record_of(key) == CacheKeyEntry { expire, key });
        assert(end.due(last.at()).contains(key));
    }
}

} // verus!
