use microlane::http::{health_response, metrics_response};
use microlane::metrics::{Counter, Metrics};

#[test]
fn healthy_while_the_circuit_is_closed() {
    let m = Metrics::new();
    let h = health_response(&m);
    assert_eq!((h.status_code, h.status, h.circuit_breaker), (200, "healthy", "closed"));
}

#[test]
fn degraded_while_the_circuit_is_open() {
    let mut m = Metrics::new();
    m.set_circuit_open(true);
    let h = health_response(&m);
    assert_eq!((h.status_code, h.status, h.circuit_breaker), (503, "degraded", "open"));
}

#[test]
fn metrics_report_every_counter_and_the_derived_total() {
    let mut m = Metrics::new();
    // Three resolutions and one malformed packet.
    m.incr(Counter::QueriesOk);
    m.incr(Counter::QueriesOk);
    m.incr(Counter::QueriesOk);
    m.incr(Counter::QueriesFormerr);
    m.incr(Counter::UpstreamTimeouts);
    m.incr(Counter::CircuitBreakerRejections);
    m.incr(Counter::ClientRateLimited);
    m.incr(Counter::ClientRateLimited);
    m.incr(Counter::ClientCircuitRejections);
    let r = metrics_response(&m);
    assert_eq!((r.queries.total, r.queries.ok, r.queries.servfail, r.queries.formerr), (4, 3, 0, 1));
    assert_eq!((r.upstream.timeouts, r.upstream.circuit_breaker_rejections), (1, 1));
    assert_eq!((r.downstream.rate_limited, r.downstream.circuit_rejections), (2, 1));
}
