use failsafe::CircuitBreaker;
use microlane::client_guard::breaker::{new_client_breaker, CONSECUTIVE_FAILURE_THRESHOLD};
use microlane::clock::{ms_from_reading, now_ms};

#[test]
fn a_client_breaker_trips_after_five_consecutive_failures() {
    let breaker = new_client_breaker();
    assert_eq!(CONSECUTIVE_FAILURE_THRESHOLD, 5);
    for _ in 0..4 {
        assert!(breaker.is_call_permitted());
        let _ = breaker.call(|| Err::<(), ()>(()));
    }
    assert!(format!("{:?}", breaker).contains("closed"), "four failures must not trip the breaker");
    let _ = breaker.call(|| Err::<(), ()>(()));
    assert!(format!("{:?}", breaker).contains("open"), "the fifth consecutive failure trips it");
}

#[test]
fn a_success_resets_the_run_of_failures() {
    let breaker = new_client_breaker();
    for _ in 0..4 {
        let _ = breaker.call(|| Err::<(), ()>(()));
    }
    let _ = breaker.call(|| Ok::<(), ()>(()));
    for _ in 0..4 {
        let _ = breaker.call(|| Err::<(), ()>(()));
    }
    assert!(format!("{:?}", breaker).contains("closed"));
}

#[test]
fn the_wall_clock_reads_milliseconds_since_the_epoch() {
    let a = now_ms();
    let b = now_ms();
    // Some time after 2020 and not going backwards by much between two reads.
    assert!(a > 1_577_836_800_000);
    assert!(b >= a - 1_000);
}

#[test]
fn wall_clock_readings_become_i64_milliseconds() {
    assert_eq!(ms_from_reading(Some(1_700_000_000_123)), 1_700_000_000_123);
    assert_eq!(ms_from_reading(None), 0);
    assert_eq!(ms_from_reading(Some(1u128 << 64)), 0);
    assert_eq!(ms_from_reading(Some((1u128 << 63) + 5)), i64::MIN + 5);
}
