use mc_entity::object_pool::ObjectPool;

#[test]
fn acquire_returns_none_when_empty() {
    let mut pool: ObjectPool<u32> = ObjectPool::new();
    assert!(pool.acquire().is_none());
}

#[test]
fn pre_allocate_fills_pool() {
    let mut pool: ObjectPool<u32> = ObjectPool::new();
    pool.pre_allocate(5, || 42);
    assert_eq!(pool.pool_size(), 5);
    assert_eq!(pool.active(), 0);
}

#[test]
fn acquire_after_pre_allocate() {
    let mut pool = ObjectPool::new();
    pool.pre_allocate(3, || String::from("obj"));

    let item = pool.acquire().unwrap();
    assert_eq!(item, "obj");
    assert_eq!(pool.pool_size(), 2);
    assert_eq!(pool.active(), 1);
}

#[test]
fn release_returns_item_to_pool() {
    let mut pool = ObjectPool::new();
    pool.pre_allocate(1, || 10u32);

    let item = pool.acquire().unwrap();
    assert_eq!(pool.pool_size(), 0);
    assert_eq!(pool.active(), 1);

    pool.release(item);
    assert_eq!(pool.pool_size(), 1);
    assert_eq!(pool.active(), 0);
}

#[test]
fn release_without_prior_acquire_saturates_to_zero() {
    let mut pool: ObjectPool<u32> = ObjectPool::new();
    pool.release(99);
    assert_eq!(pool.active(), 0);
    assert_eq!(pool.pool_size(), 1);
}

#[test]
fn multiple_pre_allocate_calls_accumulate() {
    let mut pool = ObjectPool::new();
    pool.pre_allocate(2, || 1u32);
    pool.pre_allocate(3, || 2u32);
    assert_eq!(pool.pool_size(), 5);
}

#[test]
fn default_creates_empty_pool() {
    let pool: ObjectPool<u32> = ObjectPool::default();
    assert_eq!(pool.pool_size(), 0);
    assert_eq!(pool.active(), 0);
}

#[test]
fn release_then_acquire_returns_same_item() {
    let mut pool = ObjectPool::new();
    pool.pre_allocate(2, || 0u32);
    pool.release(77);
    assert_eq!(pool.acquire(), Some(77));
    assert_eq!(pool.pool_size(), 2);
}

#[test]
fn acquire_takes_most_recent() {
    let mut pool = ObjectPool::new();
    pool.pre_allocate(1, || 1u32);
    pool.pre_allocate(1, || 2u32);
    assert_eq!(pool.acquire(), Some(2));
    assert_eq!(pool.acquire(), Some(1));
    assert_eq!(pool.acquire(), None);
    assert_eq!(pool.active(), 2);
}
