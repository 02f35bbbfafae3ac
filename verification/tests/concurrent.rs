use kamipad::util::Cache;
use kamipad::util::CacheMap;
use std::sync::Arc;
use std::time::Duration;
use tokio::runtime::Builder;

const WORKERS: u64 = 8;
const KEYS: u64 = 250;

#[test]
fn concurrent_saves_lose_nothing() {
    let runtime = Builder::new_multi_thread().worker_threads(4).build().unwrap();
    let cache: Cache<u64, u64> = Cache::new();
    let long = Duration::from_secs(9999);

    runtime.block_on(async {
        let mut workers = Vec::new();
        for worker in 0..WORKERS {
            let cache = cache.clone();
            workers.push(tokio::task::spawn_blocking(move || {
                for i in 0..KEYS {
                    let key = worker * KEYS + i;
                    cache.save(key, key * 2, long);
                    assert_eq!(*cache.get(&key).unwrap(), key * 2);
                    if i % 50 == 0 {
                        cache.purge();
                    }
                }
            }));
        }
        for worker in workers {
            worker.await.unwrap();
        }
    });

    for key in 0..WORKERS * KEYS {
        assert_eq!(*cache.get(&key).unwrap(), key * 2, "key {}", key);
    }
}

#[test]
fn concurrent_requests_get_one_cache() {
    let runtime = Builder::new_multi_thread().worker_threads(4).build().unwrap();
    let registry = Arc::new(CacheMap::new());
    let long = Duration::from_secs(9999);

    runtime.block_on(async {
        let mut workers = Vec::new();
        for worker in 0..WORKERS {
            let registry = registry.clone();
            workers.push(tokio::task::spawn_blocking(move || {
                let cache = registry.get::<u64, u64>();
                cache.save(worker, worker + 100, long);
                let other = registry.get::<u64, String>();
                other.save(worker, worker.to_string(), long);
            }));
        }
        for worker in workers {
            worker.await.unwrap();
        }
    });

    let numbers = registry.get::<u64, u64>();
    let texts = registry.get::<u64, String>();
    for worker in 0..WORKERS {
        assert_eq!(*numbers.get(&worker).unwrap(), worker + 100);
        assert_eq!(*texts.get(&worker).unwrap(), worker.to_string());
    }
}

#[test]
fn concurrent_expiry_keeps_what_lives() {
    let runtime = Builder::new_multi_thread().worker_threads(4).build().unwrap();
    let cache: Cache<u64, u64> = Cache::new();

    runtime.block_on(async {
        let mut workers = Vec::new();
        for worker in 0..WORKERS {
            let cache = cache.clone();
            workers.push(tokio::task::spawn_blocking(move || {
                for i in 0..KEYS {
                    let key = worker * KEYS + i;
                    if i % 2 == 0 {
                        cache.save(key, key, Duration::from_secs(9999));
                    } else {
                        cache.save(key, key, Duration::from_nanos(0));
                    }
                }
            }));
        }
        for worker in workers {
            worker.await.unwrap();
        }
    });

    cache.purge();
    for key in 0..WORKERS * KEYS {
        assert_eq!(cache.get(&key).is_some(), key % KEYS % 2 == 0, "key {}", key);
    }
}
