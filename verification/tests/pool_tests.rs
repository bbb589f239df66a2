use pico_notifier::pool::{PoolError, SlotPool};

#[test]
fn pool_hands_out_exactly_its_capacity() {
    let mut pool = SlotPool::new(3);
    assert_eq!(pool.free_slots(), 3);
    assert_eq!(pool.acquire(), Ok(()));
    assert_eq!(pool.acquire(), Ok(()));
    assert_eq!(pool.acquire(), Ok(()));
    // exceeding the pool fails, it does not allocate
    assert_eq!(pool.acquire(), Err(PoolError::Exhausted));
    assert_eq!(pool.capacity, 3);
    assert_eq!(pool.free_slots(), 0);
}

#[test]
fn released_slots_can_be_reacquired() {
    let mut pool = SlotPool::new(1);
    assert_eq!(pool.acquire(), Ok(()));
    assert_eq!(pool.acquire(), Err(PoolError::Exhausted));
    pool.release();
    assert_eq!(pool.acquire(), Ok(()));
}

#[test]
fn empty_pool_rejects_every_request() {
    let mut pool = SlotPool::new(0);
    assert_eq!(pool.acquire(), Err(PoolError::Exhausted));
}
