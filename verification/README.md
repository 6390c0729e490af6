# microlane

The core of a recursive DNS server, written in Verus and verified.

- `src/metrics.rs` — the server's counters and circuit flag; the query
  total is derived from the three outcome counters.
- `src/config.rs` — the check of the receive buffer size given on the
  command line, with an exact reading of unsigned decimal text.
- `src/client_guard/` — per-client admission: a token bucket whose
  capacity and rate are counted in billionths of a token (so fractional
  settings and the refill are exact), a `failsafe` circuit breaker per
  client, and a `dashmap` table of clients with an idle sweep.
- `src/dns/` — domain names and their comparison, the parts of a response
  that steer resolution (referrals, glue, answers), the resolution state
  machine, the reply to a client, and the `hickory-proto` wire layer.
- `src/upstream_resolver.rs` — the upstream servers, the lookup messages,
  and the circuit breaker over all lookups with what it reports to the
  metrics.
- `src/http.rs` — what the health and metrics endpoints report.
- `app/` — the server program: sockets, the tokio tasks that drive
  resolutions and sweeps, the axum endpoints, logging and shutdown.

The tests under `tests/` run the library against the real outside crates.
