use vclip_media::ipv6_rotation::{
    get_ipv6_pool_stats, get_random_ipv6_address, is_global_ipv6, record_ipv6_failure,
    record_ipv6_success, refresh_ipv6_pool, IPv6AddressPool,
};

#[test]
fn test_is_global_ipv6() {
    // Loopback - not global (::1)
    assert!(!is_global_ipv6(&[0, 0, 0, 0, 0, 0, 0, 1]));

    // Link-local - not global (fe80::1)
    assert!(!is_global_ipv6(&[0xfe80, 0, 0, 0, 0, 0, 0, 1]));

    // Unique local - not global (fc00::1, fd00::1)
    assert!(!is_global_ipv6(&[0xfc00, 0, 0, 0, 0, 0, 0, 1]));
    assert!(!is_global_ipv6(&[0xfd00, 0, 0, 0, 0, 0, 0, 1]));

    // Documentation - not global (2001:db8::1)
    assert!(!is_global_ipv6(&[0x2001, 0x0db8, 0, 0, 0, 0, 0, 1]));

    // Global unicast - should be global (2001:41d0:1234::1, 2a00:1234::1)
    assert!(is_global_ipv6(&[0x2001, 0x41d0, 0x1234, 0, 0, 0, 0, 1]));
    assert!(is_global_ipv6(&[0x2a00, 0x1234, 0, 0, 0, 0, 0, 1]));
}

#[test]
fn test_pool_stats() {
    let pool = IPv6AddressPool::new(1_000_000);
    let stats = pool.stats(1_000_000);
    assert_eq!(stats.address_count, 0);
    assert_eq!(stats.success_count, 0);
    assert_eq!(stats.failure_count, 0);
}

#[test]
fn other_non_global_ranges() {
    assert!(!is_global_ipv6(&[0, 0, 0, 0, 0, 0, 0, 0]));
    assert!(!is_global_ipv6(&[0xff02, 0, 0, 0, 0, 0, 0, 1]));
    assert!(!is_global_ipv6(&[0x2001, 0x0000, 0x4136, 0, 0, 0, 0, 1]));
    assert!(!is_global_ipv6(&[0xfebf, 0, 0, 0, 0, 0, 0, 1]));
    assert!(is_global_ipv6(&[0xfec0, 0, 0, 0, 0, 0, 0, 1]));
}

fn candidates() -> Vec<[u16; 8]> {
    vec![
        [0, 0, 0, 0, 0, 0, 0, 1],
        [0x2001, 0x41d0, 0x1234, 0, 0, 0, 0, 1],
        [0xfe80, 0, 0, 0, 0, 0, 0, 7],
        [0x2a00, 0x1234, 0, 0, 0, 0, 0, 0x00ab],
    ]
}

#[test]
fn new_pool_is_stale_and_refresh_keeps_global_text() {
    let mut pool = IPv6AddressPool::new(5_000);
    assert!(pool.needs_refresh(5_000));
    assert_eq!(pool.stats(5_000).cache_age_secs, 301);
    pool.refresh_from(&candidates(), 10_000);
    assert!(!pool.needs_refresh(10_000 + 300_000));
    assert!(pool.needs_refresh(10_000 + 300_001));
    let stats = pool.stats(12_500);
    assert_eq!(stats.address_count, 2);
    assert_eq!(stats.cache_age_secs, 2);
    for _ in 0..20 {
        let a = pool.get_random().unwrap();
        assert!(a == "2001:41d0:1234::1" || a == "2a00:1234::ab", "{}", a);
    }
    pool.refresh_from(&vec![], 20_000);
    assert_eq!(pool.get_random(), None);
}

#[test]
fn counters() {
    let mut pool = IPv6AddressPool::new(0);
    pool.record_success();
    pool.record_success();
    pool.record_failure();
    let s = pool.stats(0);
    assert_eq!((s.success_count, s.failure_count), (2, 1));
    pool.refresh_from(&candidates(), 1_000);
    let s = pool.stats(1_000);
    assert_eq!((s.success_count, s.failure_count), (0, 0));
}

#[test]
fn process_pool_is_created_refreshed_and_cached() {
    let mut slot: Option<IPv6AddressPool> = None;
    record_ipv6_success(&mut slot);
    assert!(slot.is_none());

    let mut calls = 0;
    let a = get_random_ipv6_address(&mut slot, 1_000, || {
        calls += 1;
        Some(candidates())
    });
    assert_eq!(calls, 1);
    let a = a.unwrap();
    assert!(a == "2001:41d0:1234::1" || a == "2a00:1234::ab");

    // Within the time-to-live no enumeration takes place.
    let mut again = 0;
    let b = get_random_ipv6_address(&mut slot, 200_000, || {
        again += 1;
        Some(vec![])
    });
    assert_eq!(again, 0);
    assert!(b.is_some());

    record_ipv6_success(&mut slot);
    record_ipv6_failure(&mut slot);
    record_ipv6_failure(&mut slot);
    let stats = get_ipv6_pool_stats(&mut slot, 4_000).unwrap();
    assert_eq!((stats.address_count, stats.success_count, stats.failure_count, stats.cache_age_secs), (2, 1, 2, 3));

    // A failed enumeration leaves the pool as it was, counters included.
    refresh_ipv6_pool(&mut slot, 500_000, || None);
    let stats = get_ipv6_pool_stats(&mut slot, 500_000).unwrap();
    assert_eq!((stats.address_count, stats.success_count, stats.failure_count), (2, 1, 2));

    // After the time-to-live the pool is re-read.
    let c = get_random_ipv6_address(&mut slot, 400_000, || Some(vec![]));
    assert_eq!(c, None);
    let stats = get_ipv6_pool_stats(&mut slot, 401_000).unwrap();
    // The counters count requests since the last refresh.
    assert_eq!((stats.address_count, stats.cache_age_secs, stats.success_count, stats.failure_count), (0, 1, 0, 0));
}

#[test]
fn stats_create_the_pool() {
    let mut slot: Option<IPv6AddressPool> = None;
    let s = get_ipv6_pool_stats(&mut slot, 2_000).unwrap();
    assert_eq!((s.address_count, s.cache_age_secs), (0, 301));
    assert!(slot.is_some());
}
