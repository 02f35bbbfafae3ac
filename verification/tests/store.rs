use kamipad::util::clock::deadline;
use kamipad::util::CacheStore;

const MS: u128 = 1_000_000;

#[test]
fn end_to_end_scenario() {
    let mut store = CacheStore::new();
    store.save("a", 1, 0, 40 * MS);
    store.save("b", 2, 0, 40 * MS);

    // 50 ms later nothing has been swept yet.
    assert_eq!(*store.get(&"b").unwrap(), 2);
    assert_eq!(*store.get(&"a").unwrap(), 1);

    store.save("c", 3, 50 * MS, 0);
    assert!(store.get(&"a").is_none());
    assert!(store.get(&"b").is_none());
    assert_eq!(*store.get(&"c").unwrap(), 3);

    store.purge(50 * MS);
    assert!(store.get(&"c").is_none());
}

#[test]
fn value_is_there_before_its_deadline_and_gone_from_it_on() {
    let mut store = CacheStore::new();
    store.save(7_u32, "seven", 100, 50);
    assert_eq!(*store.get(&7).unwrap(), "seven");
    store.purge(149);
    assert_eq!(*store.get(&7).unwrap(), "seven");
    store.purge(150);
    assert!(store.get(&7).is_none());

    store.save(8_u32, "eight", 100, 50);
    store.purge(151);
    assert!(store.get(&8).is_none());
}

#[test]
fn a_save_of_another_key_sweeps_what_is_due() {
    let mut store = CacheStore::new();
    store.save(1_u32, 10, 0, 5);
    store.save(2_u32, 20, 4, 5);
    assert!(store.get(&1).is_some());
    store.save(3_u32, 30, 5, 5);
    assert!(store.get(&1).is_none());
    assert_eq!(*store.get(&2).unwrap(), 20);
    assert_eq!(*store.get(&3).unwrap(), 30);
}

#[test]
fn renewal_keeps_the_key_past_its_first_deadline() {
    let mut store = CacheStore::new();
    store.save("k", 1, 0, 10);
    assert_eq!(*store.get_and_renew(&"k", 5, 100).unwrap(), 1);
    store.purge(10);
    assert_eq!(*store.get(&"k").unwrap(), 1);
    store.purge(104);
    assert_eq!(*store.get(&"k").unwrap(), 1);
}

#[test]
fn renewal_of_a_missing_key_does_nothing() {
    let mut store: CacheStore<&str, u8> = CacheStore::new();
    assert!(store.get_and_renew(&"k", 5, 100).is_none());
    assert!(store.get(&"k").is_none());
    store.save("j", 1, 0, 10);
    assert!(store.get_and_renew(&"k", 5, 100).is_none());
    store.purge(10);
    assert!(store.get(&"j").is_none());
}

#[test]
fn stale_record_does_not_evict_the_newer_entry() {
    let mut store = CacheStore::new();
    store.save("x", "v1", 0, 10 * MS);
    store.save("x", "v2", 0, 1000 * MS);
    store.purge(20 * MS);
    assert_eq!(*store.get(&"x").unwrap(), "v2");
    store.purge(999 * MS);
    assert_eq!(*store.get(&"x").unwrap(), "v2");
    store.purge(1000 * MS);
    assert!(store.get(&"x").is_none());
}

#[test]
fn ttl_reset_and_replace() {
    let mut store = CacheStore::new();
    store.save("a", "A", 0, 10 * MS);
    store.save("b", "B", 0, 10 * MS);
    store.save("c", "C1", 0, 10 * MS);

    store.get_and_renew(&"b", 0, 9999 * MS);

    store.save("c", "C2", 20 * MS, 9999 * MS);
    assert_eq!(*store.get(&"c").unwrap(), "C2");

    store.save("", "", 20 * MS, 0);

    assert!(store.get(&"a").is_none());
    assert!(store.get(&"b").is_some());
    assert!(store.get(&"c").is_some());
}

#[test]
fn zero_ttl_does_not_evict_other_keys() {
    let mut store = CacheStore::new();
    store.save(1_u64, "one", 0, 100);
    store.save(2_u64, "two", 10, 100);
    store.save(3_u64, "three", 50, 0);
    assert_eq!(*store.get(&1).unwrap(), "one");
    assert_eq!(*store.get(&2).unwrap(), "two");
    assert_eq!(*store.get(&3).unwrap(), "three");
    store.purge(50);
    assert_eq!(*store.get(&1).unwrap(), "one");
    assert_eq!(*store.get(&2).unwrap(), "two");
    assert!(store.get(&3).is_none());
}

#[test]
fn save_returns_the_value_it_holds() {
    let mut store = CacheStore::new();
    let saved = store.save("k", vec![1, 2, 3], 0, 10);
    assert_eq!(*saved, vec![1, 2, 3]);
    let held = store.get(&"k").unwrap();
    assert!(std::sync::Arc::ptr_eq(&saved, &held));
    store.purge(10);
    // The caller's handle outlives the entry.
    assert_eq!(*saved, vec![1, 2, 3]);
    assert!(store.get(&"k").is_none());
}

#[test]
fn overwrite_replaces_the_value() {
    let mut store = CacheStore::new();
    store.save("k", 1, 0, 10);
    store.save("k", 2, 1, 10);
    assert_eq!(*store.get(&"k").unwrap(), 2);
    store.purge(10);
    assert_eq!(*store.get(&"k").unwrap(), 2);
    store.purge(11);
    assert!(store.get(&"k").is_none());
}

#[test]
fn same_deadline_saved_twice_is_swept_once() {
    let mut store = CacheStore::new();
    store.save("k", 1, 0, 10);
    store.save("k", 2, 0, 10);
    store.save("other", 3, 0, 20);
    store.purge(10);
    assert!(store.get(&"k").is_none());
    assert_eq!(*store.get(&"other").unwrap(), 3);
    store.save("k", 4, 11, 5);
    assert_eq!(*store.get(&"k").unwrap(), 4);
}

#[test]
fn many_entries_expire_in_order_of_their_deadlines() {
    let mut store = CacheStore::new();
    // Deadlines 1..=200 in a scrambled order.
    for i in 0..200_u64 {
        let key = (i * 73) % 200;
        store.save(key, key, 0, (key + 1) as u128);
    }
    for now in 0..=200_u128 {
        store.purge(now);
        for key in 0..200_u64 {
            let alive = (key + 1) as u128 > now;
            assert_eq!(store.get(&key).is_some(), alive, "key {} at {}", key, now);
        }
    }
}

#[test]
fn purge_of_an_empty_store_does_nothing() {
    let mut store: CacheStore<u8, u8> = CacheStore::new();
    store.purge(0);
    store.purge(u128::MAX);
    assert!(store.get(&0).is_none());
}

#[test]
fn deadline_is_the_sum_and_stays_at_the_largest_instant() {
    assert_eq!(deadline(0, 0), 0);
    assert_eq!(deadline(40, 2), 42);
    assert_eq!(deadline(u128::MAX - 1, 1), u128::MAX);
    assert_eq!(deadline(u128::MAX, 1), u128::MAX);
    assert_eq!(deadline(u128::MAX, u128::MAX), u128::MAX);
    assert_eq!(deadline(1, u128::MAX), u128::MAX);
}

#[test]
fn entry_with_a_deadline_beyond_time_lives_to_the_end() {
    let mut store = CacheStore::new();
    store.save("k", 1, 10, u128::MAX);
    store.purge(u128::MAX - 1);
    assert_eq!(*store.get(&"k").unwrap(), 1);
    store.purge(u128::MAX);
    assert!(store.get(&"k").is_none());
}
