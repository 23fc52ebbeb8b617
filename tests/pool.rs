use ledger::pool::{retry_after_fault, Fault, Lease, PoolState};

#[test]
fn third_lease_waits_until_one_is_returned() {
    let mut pool: PoolState<u32> = PoolState::new(2, 1000);
    assert!(matches!(pool.acquire(0), Lease::Open));
    assert!(matches!(pool.acquire(0), Lease::Open));
    assert!(matches!(pool.acquire(0), Lease::Wait));
    assert_eq!(pool.available_permits(), 0);
    // the idle set may not outgrow the free permits (none while both are
    // leased), so the returned connection is dropped and its permit freed
    pool.release(Some(11), 5);
    assert_eq!(pool.available_permits(), 1);
    assert!(matches!(pool.acquire(6), Lease::Open));
    assert!(matches!(pool.acquire(6), Lease::Wait));
}

#[test]
fn leases_never_exceed_capacity() {
    let mut pool: PoolState<u32> = PoolState::new(3, 1000);
    let mut leased = 0;
    for _ in 0..10 {
        match pool.acquire(0) {
            Lease::Wait => {}
            _ => leased += 1,
        }
        assert!(leased <= 3);
    }
    assert_eq!(leased, 3);
}

#[test]
fn stale_connection_is_not_reused() {
    let mut pool: PoolState<u32> = PoolState::new(2, 100);
    assert!(matches!(pool.acquire(0), Lease::Open));
    pool.release(Some(1), 0);
    assert_eq!(pool.idle_len(), 1);
    // idle for longer than 100 ms: dropped, and a new connection is opened
    assert!(matches!(pool.acquire(101), Lease::Open));
    assert_eq!(pool.idle_len(), 0);
}

#[test]
fn connection_idle_exactly_max_idle_is_reused() {
    let mut pool: PoolState<u32> = PoolState::new(2, 100);
    assert!(matches!(pool.acquire(0), Lease::Open));
    pool.release(Some(1), 0);
    match pool.acquire(100) {
        Lease::Reuse(c) => assert_eq!(c, 1),
        _ => panic!("expected reuse"),
    }
}

#[test]
fn fresh_connection_is_reused_most_recent_first() {
    let mut pool: PoolState<u32> = PoolState::new(3, 100);
    assert!(matches!(pool.acquire(0), Lease::Open));
    assert!(matches!(pool.acquire(0), Lease::Open));
    pool.release(Some(1), 10);
    pool.release(Some(2), 20);
    match pool.acquire(50) {
        Lease::Reuse(c) => assert_eq!(c, 2),
        _ => panic!("expected reuse"),
    }
}

#[test]
fn release_drops_connection_when_idle_set_full() {
    let mut pool: PoolState<u32> = PoolState::new(1, 100);
    assert!(matches!(pool.acquire(0), Lease::Open));
    // no free permit while the only one is leased: the connection is dropped
    pool.release(Some(9), 1);
    assert_eq!(pool.idle_len(), 0);
    assert_eq!(pool.available_permits(), 1);
}

#[test]
fn discarded_connection_still_frees_permit() {
    let mut pool: PoolState<u32> = PoolState::new(1, 100);
    assert!(matches!(pool.acquire(0), Lease::Open));
    pool.release(None, 1);
    assert_eq!(pool.available_permits(), 1);
    assert!(matches!(pool.acquire(2), Lease::Open));
}

#[test]
fn only_first_stale_transport_fault_is_replayed() {
    assert!(retry_after_fault(1, Fault::StaleTransport));
    assert!(!retry_after_fault(2, Fault::StaleTransport));
    assert!(!retry_after_fault(1, Fault::Other));
}

#[test]
fn eviction_keeps_fresh_connections_in_order() {
    let mut pool: PoolState<u32> = PoolState::new(4, 100);
    for _ in 0..3 {
        assert!(matches!(pool.acquire(0), Lease::Open));
    }
    pool.release(Some(1), 0);
    pool.release(Some(2), 50);
    pool.release(Some(3), 80);
    assert_eq!(pool.idle_len(), 3);
    // at 120 the first is stale; the other two survive and the newest is handed out
    match pool.acquire(120) {
        Lease::Reuse(c) => assert_eq!(c, 3),
        _ => panic!("expected reuse"),
    }
    assert_eq!(pool.idle_len(), 1);
    match pool.acquire(120) {
        Lease::Reuse(c) => assert_eq!(c, 2),
        _ => panic!("expected reuse"),
    }
}
