use kamipad::util::registry::CacheMapInner;
use std::time::Duration;

#[test]
fn registry_keeps_one_cache_for_each_pair() {
    let mut inner = CacheMapInner::new();
    assert_eq!(inner.len(), 0);
    assert!(inner.find::<u8, u16>().is_none());

    let first = inner.get::<u8, u16>();
    assert_eq!(inner.len(), 1);
    let again = inner.get::<u8, u16>();
    assert_eq!(inner.len(), 1);

    first.save(1, 2, Duration::from_secs(9999));
    assert_eq!(*again.get(&1).unwrap(), 2);
    assert_eq!(*inner.find::<u8, u16>().unwrap().get(&1).unwrap(), 2);

    let swapped = inner.get::<u16, u8>();
    assert_eq!(inner.len(), 2);
    assert!(swapped.get(&1).is_none());
    assert!(inner.find::<u16, u16>().is_none());

    let _ = inner.get::<u8, u16>();
    let _ = inner.get::<u16, u8>();
    assert_eq!(inner.len(), 2);
}

#[test]
fn caches_are_kept_under_the_identity_of_their_pair() {
    let mut inner = CacheMapInner::new();
    let pair = std::any::TypeId::of::<(u8, u16)>();
    let swapped = std::any::TypeId::of::<(u16, u8)>();
    assert_eq!(inner.position(&pair), None);

    let first = inner.get::<u8, u16>();
    assert_eq!(inner.position(&pair), Some(0));
    assert_eq!(inner.position(&swapped), None);

    let other = inner.get::<u16, u8>();
    assert_eq!(inner.position(&pair), Some(0));
    assert_eq!(inner.position(&swapped), Some(1));

    first.save(1, 2, Duration::from_secs(9999));
    other.save(3, 4, Duration::from_secs(9999));
    assert_eq!(*inner.find_by_id::<u8, u16>(&pair).unwrap().get(&1).unwrap(), 2);
    assert_eq!(*inner.get_by_id::<u16, u8>(swapped).get(&3).unwrap(), 4);
    assert_eq!(inner.len(), 2);

    // Under the identity of another pair the kept cache is not handed out.
    assert!(inner.find_by_id::<u16, u8>(&pair).is_none());
    let stray = inner.get_by_id::<u16, u8>(pair);
    assert!(stray.get(&3).is_none());
    assert_eq!(inner.len(), 2);
    assert_eq!(*inner.get::<u8, u16>().get(&1).unwrap(), 2);
}
