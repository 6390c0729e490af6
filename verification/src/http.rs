//! What the health and metrics endpoints report.

use vstd::prelude::*;
use std::time::Instant;
use crate::clock::nanos_from;
use crate::metrics::{whole_secs, Counter, Metrics};

verus! {

/// The health report and the HTTP status it is served with.
pub struct HealthResponse {
    pub status_code: u16,
    pub status: &'static str,
    pub uptime_secs: u64,
    pub circuit_breaker: &'static str,
}

pub struct QueryStats {
    pub total: u64,
    pub ok: u64,
    pub servfail: u64,
    pub formerr: u64,
}

pub struct UpstreamStats {
    pub timeouts: u64,
    pub circuit_breaker_rejections: u64,
}

pub struct DownstreamStats {
    pub rate_limited: u64,
    pub circuit_rejections: u64,
}

pub struct MetricsResponse {
    pub queries: QueryStats,
    pub upstream: UpstreamStats,
    pub downstream: DownstreamStats,
    pub uptime_secs: u64,
}

/// Healthy (200, breaker closed) unless the upstream circuit is open, in
/// which case degraded (503, breaker open); with the uptime at a reading
/// of the monotonic clock taken during the call.
pub fn health_response(m: &Metrics) -> (r: HealthResponse)
    ensures
        m@.circuit_open ==> r.status_code == 503 && r.status@ == "degraded"@ && r.circuit_breaker@ == "open"@,
        !m@.circuit_open ==> r.status_code == 200 && r.status@ == "healthy"@ && r.circuit_breaker@ == "closed"@,
        exists|now: Instant| r.uptime_secs == whole_secs(#[trigger] nanos_from(now, m.start_time())),
{
    let circuit_open = m.is_circuit_open();
    let uptime_secs = m.uptime_secs();
    if circuit_open {
        HealthResponse { status_code: 503, status: "degraded", uptime_secs, circuit_breaker: "open" }
    } else {
        HealthResponse { status_code: 200, status: "healthy", uptime_secs, circuit_breaker: "closed" }
    }
}

/// Every counter, with the total derived from the three outcome counters,
/// and the uptime at a reading of the monotonic clock taken during the call.
pub fn metrics_response(m: &Metrics) -> (r: MetricsResponse)
    requires
        m@.queries_total() <= u64::MAX,
    ensures
        r.queries.total == m@.queries_total(),
        r.queries.ok == m@.count(Counter::QueriesOk),
        r.queries.servfail == m@.count(Counter::QueriesServfail),
        r.queries.formerr == m@.count(Counter::QueriesFormerr),
        r.upstream.timeouts == m@.count(Counter::UpstreamTimeouts),
        r.upstream.circuit_breaker_rejections == m@.count(Counter::CircuitBreakerRejections),
        r.downstream.rate_limited == m@.count(Counter::ClientRateLimited),
        r.downstream.circuit_rejections == m@.count(Counter::ClientCircuitRejections),
        exists|now: Instant| r.uptime_secs == whole_secs(#[trigger] nanos_from(now, m.start_time())),
{
    MetricsResponse {
        queries: QueryStats {
            total: m.queries_total(),
            ok: m.get(Counter::QueriesOk),
            servfail: m.get(Counter::QueriesServfail),
            formerr: m.get(Counter::QueriesFormerr),
        },
        upstream: UpstreamStats {
            timeouts: m.get(Counter::UpstreamTimeouts),
            circuit_breaker_rejections: m.get(Counter::CircuitBreakerRejections),
        },
        downstream: DownstreamStats {
            rate_limited: m.get(Counter::ClientRateLimited),
            circuit_rejections: m.get(Counter::ClientCircuitRejections),
        },
        uptime_secs: m.uptime_secs(),
    }
}

} // verus!
