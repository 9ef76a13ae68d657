use quadrender::utils::CachePool;
use std::cell::Cell;

#[test]
fn pool_builds_only_when_exhausted_and_reuses_after_reset() {
    let built = Cell::new(0u32);
    let mut pool: CachePool<u32> = CachePool::default();
    let make = || {
        built.set(built.get() + 1);
        built.get() * 10
    };
    assert_eq!(*pool.get(make), 10);
    assert_eq!(*pool.get(make), 20);
    assert_eq!(built.get(), 2);
    pool.reset();
    assert_eq!(*pool.get(make), 10);
    assert_eq!(*pool.get(make), 20);
    assert_eq!(built.get(), 2);
    assert_eq!(*pool.get(make), 30);
    assert_eq!(built.get(), 3);
}
