//! A recursive DNS resolver's core: per-client admission control, the
//! resolution state machine, reply planning and the server's counters.

pub mod client_guard;
pub mod clock;
pub mod config;
pub mod dns;
pub mod http;
pub mod metrics;
pub mod net;
pub mod upstream_resolver;
