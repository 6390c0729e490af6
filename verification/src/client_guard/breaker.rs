//! Each client's circuit breaker, from the `failsafe` crate: it trips after a
//! run of consecutive failures and backs off with equal jitter.

use vstd::prelude::*;
use failsafe::backoff::{EqualJittered, ThreadLocalGenRange};
use failsafe::failure_policy::{ConsecutiveFailures, OrElse, SuccessRateOverTimeWindow};
use failsafe::{Config, StateMachine};

verus! {

#[verifier::external_type_specification]
#[verifier::external_body]
pub struct ExThreadLocalGenRange(ThreadLocalGenRange);

#[verifier::external_type_specification]
#[verifier::external_body]
#[verifier::reject_recursive_types(R)]
pub struct ExEqualJittered<R>(EqualJittered<R>);

#[verifier::external_type_specification]
#[verifier::external_body]
#[verifier::reject_recursive_types(BACKOFF)]
pub struct ExConsecutiveFailures<BACKOFF>(ConsecutiveFailures<BACKOFF>);

#[verifier::external_type_specification]
#[verifier::external_body]
#[verifier::reject_recursive_types(BACKOFF)]
pub struct ExSuccessRateOverTimeWindow<BACKOFF>(SuccessRateOverTimeWindow<BACKOFF>);

#[verifier::external_type_specification]
#[verifier::external_body]
#[verifier::reject_recursive_types(LEFT)]
#[verifier::reject_recursive_types(RIGHT)]
pub struct ExOrElse<LEFT, RIGHT>(OrElse<LEFT, RIGHT>);

#[verifier::external_type_specification]
#[verifier::external_body]
#[verifier::reject_recursive_types(POLICY)]
#[verifier::reject_recursive_types(INSTRUMENT)]
pub struct ExConfig<POLICY, INSTRUMENT>(Config<POLICY, INSTRUMENT>);

#[verifier::external_type_specification]
#[verifier::external_body]
#[verifier::reject_recursive_types(POLICY)]
#[verifier::reject_recursive_types(INSTRUMENT)]
pub struct ExStateMachine<POLICY, INSTRUMENT>(StateMachine<POLICY, INSTRUMENT>);

/// The failure policy that `failsafe::Config::new` starts from.
pub type DefaultPolicy = OrElse<SuccessRateOverTimeWindow<EqualJittered>, ConsecutiveFailures<EqualJittered>>;

/// The breaker kept for each client.
pub type ClientCircuitBreaker = StateMachine<ConsecutiveFailures<EqualJittered>, ()>;

/// Consecutive failures from one client before its breaker trips.
pub const CONSECUTIVE_FAILURE_THRESHOLD: u32 = 5;

/// The first back-off after the breaker trips, in seconds.
pub const BACKOFF_START_SECS: u64 = 1;

/// The longest back-off, in seconds.
pub const BACKOFF_MAX_SECS: u64 = 30;

/// The failure policy of each client's breaker.
pub type ClientFailurePolicy = ConsecutiveFailures<EqualJittered>;

/// A configuration of a client's breaker.
pub type ClientBreakerConfig = Config<ClientFailurePolicy, ()>;

/// The first and the longest back-off of an equal-jittered back-off, in
/// whole seconds.
pub uninterp spec fn backoff_bounds(b: EqualJittered) -> (u64, u64);

/// The number of consecutive failures on which a consecutive-failures
/// policy trips, and the bounds of its back-off.
pub uninterp spec fn policy_settings(p: ClientFailurePolicy) -> (u32, (u64, u64));

/// The settings of the policy that a configuration holds.
pub uninterp spec fn config_settings(c: ClientBreakerConfig) -> (u32, (u64, u64));

/// The settings of the policy that a breaker was built with.
pub uninterp spec fn breaker_settings(b: ClientCircuitBreaker) -> (u32, (u64, u64));

/// Calls `failsafe::backoff::equal_jittered` with the two durations in
/// whole seconds. That function panics unless both are at least one second
/// and `max` is not below `start`, so `requires` asks for that. It keeps the
/// two bounds as given; the stream of back-offs between them is random, so
/// nothing more is promised of it.
#[verifier::external_body]
fn equal_jittered_backoff(start_secs: u64, max_secs: u64) -> (b: EqualJittered)
    requires
        1 <= start_secs <= max_secs,
    ensures
        backoff_bounds(b) == (start_secs, max_secs),
{
    failsafe::backoff::equal_jittered(
        std::time::Duration::from_secs(start_secs),
        std::time::Duration::from_secs(max_secs),
    )
}

/// Calls `failsafe::failure_policy::consecutive_failures`, which keeps the
/// number of failures and the back-off as given.
#[verifier::external_body]
fn consecutive_failures_policy(num_failures: u32, backoff: EqualJittered) -> (p: ClientFailurePolicy)
    ensures
        policy_settings(p) == (num_failures, backoff_bounds(backoff)),
{
    failsafe::failure_policy::consecutive_failures(num_failures, backoff)
}

/// Calls `failsafe::Config::new`: a configuration with failsafe's default
/// policy and no instrument. The configuration is opaque.
#[verifier::external_body]
fn default_breaker_config() -> Config<DefaultPolicy, ()> {
    Config::new()
}

/// Calls `Config::failure_policy`: the configuration with `policy` in place
/// of its policy.
#[verifier::external_body]
fn with_failure_policy(config: Config<DefaultPolicy, ()>, policy: ClientFailurePolicy) -> (c: ClientBreakerConfig)
    ensures
        config_settings(c) == policy_settings(policy),
{
    config.failure_policy(policy)
}

/// Calls `Config::build`: a breaker, closed, with the configured policy.
#[verifier::external_body]
fn build_breaker(config: ClientBreakerConfig) -> (b: ClientCircuitBreaker)
    ensures
        breaker_settings(b) == config_settings(config),
{
    config.build()
}

/// Calls `StateMachine::clone`, which hands out a second handle on the same
/// breaker: the handle holds the same `Arc` as `breaker`, so what is
/// recorded through either is seen by both.
#[verifier::external_body]
pub(crate) fn breaker_handle(breaker: &ClientCircuitBreaker) -> (b: ClientCircuitBreaker)
    ensures
        b == *breaker,
{
    breaker.clone()
}

/// Calls `StateMachine::is_call_permitted`. The answer rests on the
/// breaker's shared state and on the clock, so nothing is promised of it.
#[verifier::external_body]
pub(crate) fn breaker_permits(breaker: &ClientCircuitBreaker) -> bool {
    breaker.is_call_permitted()
}

/// Calls `StateMachine::on_success`, which records a success in the
/// breaker's shared state.
#[verifier::external_body]
pub(crate) fn breaker_record_success(breaker: &ClientCircuitBreaker) {
    breaker.on_success()
}

/// Calls `StateMachine::on_error`, which records a failure in the breaker's
/// shared state.
#[verifier::external_body]
pub(crate) fn breaker_record_failure(breaker: &ClientCircuitBreaker) {
    breaker.on_error()
}

/// The settings every breaker of this server is built with.
pub open spec fn standard_settings() -> (u32, (u64, u64)) {
    (CONSECUTIVE_FAILURE_THRESHOLD, (BACKOFF_START_SECS, BACKOFF_MAX_SECS))
}

/// A fresh breaker for one client: it trips after
/// `CONSECUTIVE_FAILURE_THRESHOLD` consecutive failures, and backs off from
/// one second up to thirty with equal jitter.
pub fn new_client_breaker() -> (b: ClientCircuitBreaker)
    ensures
        breaker_settings(b) == standard_settings(),
{
    let backoff = equal_jittered_backoff(BACKOFF_START_SECS, BACKOFF_MAX_SECS);
    let policy = consecutive_failures_policy(CONSECUTIVE_FAILURE_THRESHOLD, backoff);
    build_breaker(with_failure_policy(default_breaker_config(), policy))
}

} // verus!
