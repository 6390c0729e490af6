use failsafe::CircuitBreaker;
use microlane::client_guard::entry::ClientEntry;
use microlane::client_guard::guard::{admit_or_count, ClientGuard, RateDecision};
use microlane::metrics::{Counter, Metrics};
use microlane::net::IpAddress;
use std::time::{Duration, Instant};

fn client_ip(last_octet: u8) -> IpAddress {
    IpAddress::V4(0x7f00_0000 | last_octet as u32)
}

fn wait(d: Duration) {
    let start = Instant::now();
    while start.elapsed() < d {
        std::hint::spin_loop();
    }
}

#[test]
fn allows_the_first_request_from_a_new_client() {
    let mut guard = ClientGuard::new(5, 1, Duration::from_secs(60));

    match guard.check_rate(client_ip(1)) {
        RateDecision::Allowed(_) => {}
        RateDecision::RateLimited => panic!("first request from a fresh client must be allowed"),
    }
}

#[test]
fn rate_limits_once_capacity_is_exhausted() {
    let mut guard = ClientGuard::new(2, 1, Duration::from_secs(60));
    let client = client_ip(1);

    assert!(matches!(guard.check_rate(client), RateDecision::Allowed(_)));
    assert!(matches!(guard.check_rate(client), RateDecision::Allowed(_)));
    assert!(matches!(guard.check_rate(client), RateDecision::RateLimited));
}

#[test]
fn different_clients_have_independent_buckets() {
    let mut guard = ClientGuard::new(1, 1, Duration::from_secs(60));

    assert!(matches!(guard.check_rate(client_ip(1)), RateDecision::Allowed(_)));
    assert!(matches!(guard.check_rate(client_ip(1)), RateDecision::RateLimited));

    // A different source IP must not be affected by client 1 exhausting its bucket.
    assert!(matches!(guard.check_rate(client_ip(2)), RateDecision::Allowed(_)));
}

#[test]
fn repeated_requests_from_the_same_client_share_one_entry() {
    let mut guard = ClientGuard::new(5, 1, Duration::from_secs(60));
    let client = client_ip(1);

    let first = match guard.check_rate(client) {
        RateDecision::Allowed(entry) => entry,
        RateDecision::RateLimited => panic!("unexpected rate limit on first request"),
    };
    let second = match guard.check_rate(client) {
        RateDecision::Allowed(entry) => entry,
        RateDecision::RateLimited => panic!("unexpected rate limit on second request"),
    };

    assert!(
        first.id == second.id,
        "the same client IP must reuse the same entry, not a fresh one per request"
    );
    assert_eq!(guard.len(), 1);
}

#[test]
fn sweep_evicts_idle_entries() {
    let mut guard = ClientGuard::new(5, 1, Duration::from_millis(1));
    guard.check_rate(client_ip(1));
    assert_eq!(guard.len(), 1);

    wait(Duration::from_millis(20));
    guard.sweep();

    assert!(guard.is_empty(), "an idle entry should have been evicted");
}

#[test]
fn sweep_keeps_recently_active_entries() {
    let mut guard = ClientGuard::new(5, 1, Duration::from_secs(60));
    guard.check_rate(client_ip(1));

    guard.sweep();

    assert_eq!(
        guard.len(),
        1,
        "an entry seen well within the idle TTL must survive a sweep"
    );
}

#[test]
fn new_clients_get_fresh_entries_in_order() {
    let mut guard = ClientGuard::new(3, 1, Duration::from_secs(60));
    let ids: Vec<u64> = (1..=3)
        .map(|o| match guard.check_rate(client_ip(o)) {
            RateDecision::Allowed(t) => t.id,
            RateDecision::RateLimited => panic!("fresh client limited"),
        })
        .collect();
    assert_eq!(ids, vec![0, 1, 2]);
    assert_eq!(guard.len(), 3);
}

#[test]
fn zero_capacity_refuses_even_the_first_request_but_remembers_the_client() {
    let mut guard = ClientGuard::new(0, 1, Duration::from_secs(60));
    assert!(matches!(guard.check_rate(client_ip(9)), RateDecision::RateLimited));
    assert_eq!(guard.len(), 1);
}

#[test]
fn ipv4_and_ipv6_clients_are_kept_apart() {
    let mut guard = ClientGuard::new(1, 1, Duration::from_secs(60));
    // 127.0.0.1 and ::7f00:1 have the same low bits but are different clients.
    assert!(matches!(guard.check_rate(IpAddress::V4(0x7f00_0001)), RateDecision::Allowed(_)));
    assert!(matches!(guard.check_rate(IpAddress::V6(0x7f00_0001)), RateDecision::Allowed(_)));
    assert_eq!(guard.len(), 2);
    assert_ne!(IpAddress::V4(1).client_key(), IpAddress::V6(1).client_key());
}

#[test]
fn evict_idle_keeps_exactly_the_entries_seen_after_the_cutoff() {
    let mut guard = ClientGuard::new(5, 1, Duration::from_secs(60));
    guard.check_rate(client_ip(1));
    guard.check_rate(client_ip(2));
    guard.evict_idle(i64::MIN);
    assert_eq!(guard.len(), 2);
    guard.evict_idle(i64::MAX);
    assert!(guard.is_empty());
}

#[test]
fn refused_packets_are_counted_and_admitted_ones_are_not() {
    let mut guard = ClientGuard::new(1, 1, Duration::from_secs(60));
    let mut metrics = Metrics::new();
    let first = guard.check_rate(client_ip(3));
    assert!(admit_or_count(first, &mut metrics).is_some());
    assert_eq!(metrics.get(Counter::ClientRateLimited), 0);
    let second = guard.check_rate(client_ip(3));
    assert!(admit_or_count(second, &mut metrics).is_none());
    assert_eq!(metrics.get(Counter::ClientRateLimited), 1);
    assert_eq!(metrics.queries_total(), 0);
}

#[test]
fn an_entry_keeps_its_id_and_goes_stale_after_its_last_sighting() {
    let mut e = ClientEntry::new(17, 2_000_000_000, 1_000_000_000);
    assert_eq!(e.id(), 17);
    e.touch();
    assert!(e.try_consume());
    assert!(e.try_consume());
    assert!(!e.try_consume());
    assert!(!e.is_stale(0));
    assert!(e.is_stale(i64::MAX));
    assert_eq!(e.id(), 17);
}

#[test]
fn a_sweep_keeps_a_client_seen_exactly_at_the_cutoff() {
    let mut guard = ClientGuard::new(5, 1, Duration::from_millis(100));
    guard.check_rate_at(client_ip(1), 1_000);
    guard.check_rate_at(client_ip(2), 999);
    guard.sweep_at(1_100);
    assert_eq!(guard.len(), 1, "the client seen at the cutoff stays, the one before it goes");
    guard.sweep_at(1_101);
    assert!(guard.is_empty());
}

#[test]
fn a_rate_check_records_when_the_client_was_seen() {
    let mut guard = ClientGuard::new(5, 1, Duration::from_millis(10));
    guard.check_rate_at(client_ip(1), 50);
    guard.check_rate_at(client_ip(1), 500);
    guard.sweep_at(510);
    assert_eq!(guard.len(), 1, "the second check moved the last-seen time to 500");
    guard.sweep_at(511);
    assert!(guard.is_empty());
}

#[test]
fn a_client_returning_after_eviction_gets_a_fresh_entry() {
    let mut guard = ClientGuard::new(1, 0, Duration::from_millis(10));
    let first = match guard.check_rate_at(client_ip(4), 0) {
        RateDecision::Allowed(t) => t.id,
        RateDecision::RateLimited => panic!("first request refused"),
    };
    assert!(matches!(guard.check_rate_at(client_ip(4), 1), RateDecision::RateLimited));
    guard.sweep_at(100);
    assert!(guard.is_empty());
    match guard.check_rate_at(client_ip(4), 100) {
        RateDecision::Allowed(t) => assert_ne!(t.id, first),
        RateDecision::RateLimited => panic!("a fresh entry has a full bucket"),
    }
}

#[test]
fn touch_at_sets_the_last_seen_time() {
    let mut e = ClientEntry::new_at(3, 1, 1, 5);
    assert!(!e.is_stale(5));
    assert!(e.is_stale(6));
    e.touch_at(9);
    assert!(!e.is_stale(9));
    assert!(e.is_stale(10));
    assert_eq!(e.id(), 3);
}

#[test]
fn is_fresh_is_the_opposite_of_is_stale() {
    let e = ClientEntry::new_at(1, 1, 1, 100);
    assert!(e.is_fresh(100));
    assert!(!e.is_stale(100));
    assert!(!e.is_fresh(101));
    assert!(e.is_stale(101));
}

#[test]
fn a_ticket_holds_its_entry_breaker() {
    let mut guard = ClientGuard::new(10, 0, Duration::from_secs(60));
    let first = match guard.check_rate_at(client_ip(5), 0) {
        RateDecision::Allowed(t) => t,
        RateDecision::RateLimited => panic!("first request refused"),
    };
    for _ in 0..5 {
        let _ = first.breaker.call(|| Err::<(), ()>(()));
    }
    match guard.check_rate_at(client_ip(5), 1) {
        RateDecision::Allowed(t) => {
            assert_eq!(t.id, first.id);
            assert!(
                format!("{:?}", t.breaker).contains("open"),
                "failures through one ticket trip the entry's breaker"
            );
        }
        RateDecision::RateLimited => panic!("second request refused"),
    }
}

#[test]
fn a_fractional_capacity_below_one_token_admits_nothing() {
    let mut guard = ClientGuard::in_billionths(999_999_999, 1_000_000_000, Duration::from_secs(60));
    assert!(matches!(guard.check_rate_at(client_ip(6), 0), RateDecision::RateLimited));
    let mut guard = ClientGuard::in_billionths(1_500_000_000, 0, Duration::from_secs(60));
    assert!(matches!(guard.check_rate_at(client_ip(6), 0), RateDecision::Allowed(_)));
    assert!(matches!(guard.check_rate_at(client_ip(6), 0), RateDecision::RateLimited));
}
