use rjr_relay::worker_pool::{new_worker_pool, Acquired};

#[test]
fn a_pool_starts_with_its_workers_free() {
    let pool = new_worker_pool(3);
    assert_eq!(pool.worker_size(), 3);
    assert_eq!(pool.free_count(), 3);
    let empty = new_worker_pool(0);
    assert_eq!(empty.worker_size(), 0);
    assert_eq!(empty.free_count(), 0);
}

#[test]
fn a_pool_hands_out_free_workers_first() {
    let mut pool = new_worker_pool(2);
    assert_eq!(pool.get_free_worker(), Some(Acquired { worker: 1, spawned: false }));
    assert_eq!(pool.get_free_worker(), Some(Acquired { worker: 0, spawned: false }));
    assert_eq!(pool.free_count(), 0);
    assert_eq!(pool.worker_size(), 2);
}

#[test]
fn a_pool_grows_by_one_worker_when_none_is_free() {
    let mut pool = new_worker_pool(1);
    assert_eq!(pool.get_free_worker(), Some(Acquired { worker: 0, spawned: false }));
    assert_eq!(pool.get_free_worker(), Some(Acquired { worker: 1, spawned: true }));
    assert_eq!(pool.get_free_worker(), Some(Acquired { worker: 2, spawned: true }));
    assert_eq!(pool.worker_size(), 3);
    assert_eq!(pool.free_count(), 0);
}

#[test]
fn a_released_worker_is_reused() {
    let mut pool = new_worker_pool(0);
    let first = pool.get_free_worker().unwrap();
    assert!(first.spawned);
    pool.push_free_worker(first.worker);
    assert_eq!(pool.free_count(), 1);
    assert_eq!(pool.get_free_worker(), Some(Acquired { worker: first.worker, spawned: false }));
    assert_eq!(pool.worker_size(), 1);
}
