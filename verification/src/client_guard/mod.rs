//! Per-client admission control: a token bucket and a circuit breaker for
//! each source address, with idle entries swept away.

pub mod breaker;
pub mod token_bucket;
pub mod entry;
pub mod guard;
