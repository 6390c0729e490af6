use microlane::client_guard::token_bucket::TokenBucket;
use std::time::{Duration, Instant};

fn wait(d: Duration) {
    let start = Instant::now();
    while start.elapsed() < d {
        std::hint::spin_loop();
    }
}

#[test]
fn allows_bursts_up_to_capacity_then_blocks() {
    let mut bucket = TokenBucket::new(3, 1);

    assert!(bucket.try_consume());
    assert!(bucket.try_consume());
    assert!(bucket.try_consume());
    assert!(
        !bucket.try_consume(),
        "a fourth immediate call must be blocked once capacity is exhausted"
    );
}

#[test]
fn refills_over_time() {
    // 20 tokens/sec => roughly one token every 50ms.
    let mut bucket = TokenBucket::new(1, 20);

    assert!(bucket.try_consume());
    assert!(!bucket.try_consume());

    wait(Duration::from_millis(80));

    assert!(
        bucket.try_consume(),
        "bucket should have refilled at least one token after waiting past the refill interval"
    );
}

#[test]
fn refill_never_exceeds_capacity() {
    let mut bucket = TokenBucket::new(2, 1000);

    assert!(bucket.try_consume());
    assert!(bucket.try_consume());
    assert!(!bucket.try_consume());

    // Plenty of time for the (fast) refill rate to overshoot capacity if uncapped.
    wait(Duration::from_millis(50));

    assert!(bucket.try_consume());
    assert!(bucket.try_consume());
    assert!(
        !bucket.try_consume(),
        "tokens must be capped at capacity, not accumulate without bound while idle"
    );
}

#[test]
fn take_after_counts_exact_fractions_of_a_token() {
    // One token per second: 999_999_999 ns is not quite a token, 1 ns more is.
    let mut bucket = TokenBucket::new(1, 1);
    assert!(bucket.take_after(0));
    assert!(!bucket.take_after(999_999_999));
    assert!(bucket.take_after(1));
    assert!(!bucket.take_after(0));
}

#[test]
fn take_after_caps_refill_at_capacity() {
    let mut bucket = TokenBucket::new(2, 1000);
    assert!(bucket.take_after(0));
    assert!(bucket.take_after(0));
    assert!(!bucket.take_after(0));
    // An hour at a thousand tokens a second still refills only two tokens.
    assert!(bucket.take_after(3_600_000_000_000));
    assert!(bucket.take_after(0));
    assert!(!bucket.take_after(0));
}

#[test]
fn take_after_survives_huge_elapsed_times() {
    let mut bucket = TokenBucket::new(u64::MAX, u64::MAX);
    assert!(bucket.take_after(u128::MAX));
    assert!(bucket.take_after(u128::MAX));
}

#[test]
fn zero_capacity_never_admits() {
    let mut bucket = TokenBucket::new(0, 1000);
    assert!(!bucket.take_after(0));
    assert!(!bucket.take_after(1_000_000_000_000));
}

#[test]
fn admissions_never_exceed_capacity_plus_refill() {
    // Capacity 3, one token a second; 10 takes spread over 2.5 seconds.
    let mut bucket = TokenBucket::new(3, 1);
    let mut admitted = 0;
    for _ in 0..10 {
        if bucket.take_after(250_000_000) {
            admitted += 1;
        }
    }
    // At most 3 + 1 * 2.5 tokens, so at most 5 whole takes.
    assert_eq!(admitted, 5);
}

#[test]
fn try_consume_at_moves_the_refill_clock() {
    let start = Instant::now();
    let mut b = TokenBucket::new(1, 1);
    let t = start + Duration::from_secs(5);
    assert!(b.try_consume_at(t));
    assert!(!b.try_consume_at(t), "the same instant gives no second refill");
    assert!(!b.try_consume_at(t + Duration::from_millis(999)));
    assert!(b.try_consume_at(t + Duration::from_millis(2_000)));
}

#[test]
fn fractional_rates_refill_exactly() {
    // One and a half tokens, refilled at half a token a second.
    let mut bucket = TokenBucket::in_billionths(1_500_000_000, 500_000_000);
    assert!(bucket.take_after(0));
    assert!(!bucket.take_after(0), "half a token is left");
    assert!(!bucket.take_after(999_999_999), "a nanosecond short of a whole token");
    assert!(bucket.take_after(1));
    assert!(!bucket.take_after(0));
}
