use std::sync::Arc;

use easy_pool::{PoolArrayQueue, PoolMutex, PoolSegQueue};

#[test]
fn test_clear() {
    let pool = Arc::new(PoolMutex::new());
    let vec = pool.create_with(|| vec![10]);
    drop(vec);
    assert_eq!(pool.len(), 1);
    let vec = pool.create();
    assert!(vec.get().capacity() == 1 && vec.get().is_empty());

    let pool = Arc::new(PoolSegQueue::new(1024));
    let vec = pool.create_with(|| vec![10]);
    drop(vec);
    assert_eq!(pool.len(), 1);
    let vec = pool.create();
    assert!(vec.get().capacity() == 1 && vec.get().is_empty());

    let pool = Arc::new(PoolArrayQueue::new(1024));
    let vec = pool.create_with(|| vec![10]);
    drop(vec);
    assert_eq!(pool.len(), 1);
    let vec = pool.create();
    assert!(vec.get().capacity() == 1 && vec.get().is_empty());
}

#[test]
fn pool_mutex_test() {
    let pool = Arc::new(PoolMutex::<Vec<u8>>::new());
    let mut new_vec = pool.create();
    new_vec.get_mut().extend_from_slice(&[0, 0, 0, 0, 1, 1]);
    let capacity = new_vec.get().capacity();
    drop(new_vec);
    assert!(pool.len() != 0);
    let new_vec = pool.create();
    assert!(new_vec.get().capacity() > 0 && new_vec.get().capacity() == capacity);
    assert!(new_vec.get().is_empty());
    assert!(pool.len() == 0);
    drop(new_vec);
}

#[test]
fn pool_mutex_test_create_with() {
    let pool = Arc::new(PoolMutex::<Vec<u8>>::new());
    let r = pool.create_with(|| Vec::with_capacity(4096));
    assert_eq!(r.get().capacity(), 4096);
}

#[test]
fn pool_mutex_test_create() {
    let pool = Arc::new(PoolMutex::<Vec<u8>>::new());
    let r = pool.create();
    assert_eq!(r.get().capacity(), Vec::<u8>::default().capacity());
}

#[test]
fn pool_mutex_test_len() {
    let pool = Arc::new(PoolMutex::<Vec<u8>>::new());
    assert_eq!(pool.len(), 0);
    let new_vec = pool.create();
    drop(new_vec);
    assert_eq!(pool.len(), 1);
}

#[test]
fn pool_array_queue_test() {
    let pool = Arc::new(PoolArrayQueue::<Vec<u8>>::new(1024));
    let mut new_vec = pool.create();
    new_vec.get_mut().extend_from_slice(&[0, 0, 0, 0, 1, 1]);
    let capacity = new_vec.get().capacity();
    drop(new_vec);
    assert!(pool.len() != 0);
    let new_vec = pool.create();
    assert!(new_vec.get().capacity() > 0 && new_vec.get().capacity() == capacity);
    assert!(new_vec.get().is_empty());
    assert!(pool.len() == 0);
    drop(new_vec);
}

#[test]
fn pool_array_queue_test_create_with() {
    let pool = Arc::new(PoolArrayQueue::<Vec<u8>>::new(1024));
    let r = pool.create_with(|| Vec::with_capacity(4096));
    assert_eq!(r.get().capacity(), 4096);
}

#[test]
fn pool_array_queue_test_create() {
    let pool = Arc::new(PoolArrayQueue::<Vec<u8>>::new(1024));
    let r = pool.create();
    assert_eq!(r.get().capacity(), Vec::<u8>::default().capacity());
}

#[test]
fn pool_array_queue_test_len() {
    let pool = Arc::new(PoolArrayQueue::<Vec<u8>>::new(1024));
    assert_eq!(pool.len(), 0);
    let new_vec = pool.create();
    drop(new_vec);
    assert_eq!(pool.len(), 1);
}

#[test]
fn pool_seg_queue_test() {
    let pool = Arc::new(PoolSegQueue::<Vec<u8>>::new(1024));
    let mut new_vec = pool.create();
    new_vec.get_mut().extend_from_slice(&[0, 0, 0, 0, 1, 1]);
    let capacity = new_vec.get().capacity();
    drop(new_vec);
    assert!(pool.len() != 0);
    let new_vec = pool.create();
    assert!(new_vec.get().capacity() > 0 && new_vec.get().capacity() == capacity);
    assert!(new_vec.get().is_empty());
    assert!(pool.len() == 0);
    drop(new_vec);
}
