use microlane::metrics::{secs_from_nanos, Counter, Metrics};
use std::time::{Duration, Instant};

#[test]
fn counters_start_at_zero_and_count_independently() {
    let mut m = Metrics::new();

    assert_eq!(m.get(Counter::QueriesOk), 0);

    m.incr(Counter::QueriesOk);
    m.incr(Counter::QueriesOk);
    m.incr(Counter::UpstreamTimeouts);

    assert_eq!(m.get(Counter::QueriesOk), 2);
    assert_eq!(m.get(Counter::UpstreamTimeouts), 1);
    assert_eq!(
        m.get(Counter::QueriesServfail),
        0,
        "counters must not alias each other"
    );
}

#[test]
fn queries_total_is_the_sum_of_the_three_outcomes() {
    let mut m = Metrics::new();

    m.incr(Counter::QueriesOk);
    m.incr(Counter::QueriesOk);
    m.incr(Counter::QueriesServfail);
    m.incr(Counter::QueriesFormerr);

    assert_eq!(m.queries_total(), 4);
}

#[test]
fn non_outcome_counters_do_not_contribute_to_queries_total() {
    let mut m = Metrics::new();

    // A rate-limited or breaker-rejected packet never reaches an outcome, so it must
    // not inflate the derived total.
    m.incr(Counter::ClientRateLimited);
    m.incr(Counter::CircuitBreakerRejections);
    m.incr(Counter::UpstreamTimeouts);

    assert_eq!(m.queries_total(), 0);
}

#[test]
fn circuit_flag_round_trips_and_is_idempotent() {
    let mut m = Metrics::new();
    assert!(!m.is_circuit_open());

    m.set_circuit_open(true);
    assert!(m.is_circuit_open());

    // Repeated same-value writes are skipped internally but must not change the value.
    m.set_circuit_open(true);
    assert!(m.is_circuit_open());

    m.set_circuit_open(false);
    assert!(!m.is_circuit_open());
}

#[test]
fn every_counter_starts_at_zero_and_default_matches_new() {
    let all = [
        Counter::QueriesOk,
        Counter::QueriesServfail,
        Counter::QueriesFormerr,
        Counter::UpstreamTimeouts,
        Counter::CircuitBreakerRejections,
        Counter::ClientRateLimited,
        Counter::ClientCircuitRejections,
    ];
    let m = Metrics::default();
    for c in all {
        assert_eq!(m.get(c), 0);
    }
    assert!(!m.is_circuit_open());
    assert_eq!(m.queries_total(), 0);
}

#[test]
fn each_counter_has_its_own_slot() {
    let all = [
        Counter::QueriesOk,
        Counter::QueriesServfail,
        Counter::QueriesFormerr,
        Counter::UpstreamTimeouts,
        Counter::CircuitBreakerRejections,
        Counter::ClientRateLimited,
        Counter::ClientCircuitRejections,
    ];
    let mut indices: Vec<usize> = all.iter().map(|c| c.index()).collect();
    indices.sort();
    assert_eq!(indices, vec![0, 1, 2, 3, 4, 5, 6]);

    let mut m = Metrics::new();
    for (n, c) in all.iter().enumerate() {
        for _ in 0..=n {
            m.incr(*c);
        }
    }
    for (n, c) in all.iter().enumerate() {
        assert_eq!(m.get(*c), n as u64 + 1);
    }
    assert_eq!(m.queries_total(), 1 + 2 + 3);
}

#[test]
fn setting_the_circuit_flag_leaves_counters_alone() {
    let mut m = Metrics::new();
    m.incr(Counter::QueriesOk);
    m.set_circuit_open(true);
    m.set_circuit_open(false);
    assert_eq!(m.get(Counter::QueriesOk), 1);
    assert!(m.uptime_secs() < 60);
}

#[test]
fn whole_seconds_from_nanoseconds() {
    assert_eq!(secs_from_nanos(0), 0);
    assert_eq!(secs_from_nanos(999_999_999), 0);
    assert_eq!(secs_from_nanos(2_500_000_000), 2);
    assert_eq!(secs_from_nanos(u128::MAX), u64::MAX);
}

#[test]
fn uptime_counts_whole_seconds_from_creation() {
    let m = Metrics::new();
    let later = Instant::now() + Duration::from_millis(3_500);
    let secs = m.uptime_secs_at(later);
    assert!(secs == 3, "expected 3 whole seconds, got {secs}");
    assert!(m.uptime_secs() < 2);
}

#[test]
fn n_increments_raise_a_counter_by_n() {
    let mut m = Metrics::new();
    for _ in 0..25 {
        m.incr(Counter::ClientRateLimited);
    }
    assert_eq!(m.get(Counter::ClientRateLimited), 25);
    assert_eq!(m.get(Counter::ClientCircuitRejections), 0);
    assert!(!m.is_circuit_open());
}
