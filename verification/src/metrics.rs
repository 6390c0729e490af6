//! The server's counters and its upstream circuit flag.
//!
//! One counter per outcome or rejection kind. There is deliberately no
//! counter for the total number of queries: every query ends in exactly one
//! of the three outcome counters, so the total is their sum.

use vstd::prelude::*;
use std::time::Instant;
use crate::clock::{instant_now, nanos_between, nanos_from};

verus! {

/// Identifies one counter in [`Metrics`].
#[derive(Clone, Copy, Debug, PartialEq, Eq, Structural)]
pub enum Counter {
    QueriesOk,
    QueriesServfail,
    QueriesFormerr,
    UpstreamTimeouts,
    CircuitBreakerRejections,
    ClientRateLimited,
    ClientCircuitRejections,
}

/// The number of variants of [`Counter`].
pub const COUNTER_COUNT: usize = 7;

impl Counter {
    /// The slot of the counter in the table: its position among the variants.
    pub open spec fn slot(self) -> int {
        match self {
            Counter::QueriesOk => 0,
            Counter::QueriesServfail => 1,
            Counter::QueriesFormerr => 2,
            Counter::UpstreamTimeouts => 3,
            Counter::CircuitBreakerRejections => 4,
            Counter::ClientRateLimited => 5,
            Counter::ClientCircuitRejections => 6,
        }
    }

    /// Whether the counter records how a query ended.
    pub open spec fn is_outcome(self) -> bool {
        self is QueriesOk || self is QueriesServfail || self is QueriesFormerr
    }

    pub fn index(self) -> (i: usize)
        ensures
            i == self.slot(),
            i < COUNTER_COUNT,
    {
        match self {
            Counter::QueriesOk => 0,
            Counter::QueriesServfail => 1,
            Counter::QueriesFormerr => 2,
            Counter::UpstreamTimeouts => 3,
            Counter::CircuitBreakerRejections => 4,
            Counter::ClientRateLimited => 5,
            Counter::ClientCircuitRejections => 6,
        }
    }
}

/// What a [`Metrics`] holds: one count per counter slot and the circuit flag.
#[verifier::ext_equal]
pub struct MetricsState {
    pub counts: Seq<u64>,
    pub circuit_open: bool,
}

impl MetricsState {
    pub open spec fn count(self, c: Counter) -> u64 {
        self.counts[c.slot()]
    }

    /// The state after one increment of `c`; a counter at `u64::MAX` wraps to
    /// zero, as an atomic `fetch_add` does.
    pub open spec fn incremented(self, c: Counter) -> MetricsState {
        MetricsState {
            counts: self.counts.update(c.slot(), if self.count(c) == u64::MAX {
                0u64
            } else {
                (self.count(c) + 1) as u64
            }),
            circuit_open: self.circuit_open,
        }
    }

    /// The state after `n` increments of `c`.
    pub open spec fn incremented_times(self, c: Counter, n: nat) -> MetricsState
        decreases n,
    {
        if n == 0 {
            self
        } else {
            self.incremented_times(c, (n - 1) as nat).incremented(c)
        }
    }

    pub open spec fn with_circuit(self, open: bool) -> MetricsState {
        MetricsState { counts: self.counts, circuit_open: open }
    }

    /// The number of queries answered: the sum of the three outcome counters.
    pub open spec fn queries_total(self) -> int {
        self.count(Counter::QueriesOk) + self.count(Counter::QueriesServfail) + self.count(
            Counter::QueriesFormerr,
        )
    }

    pub open spec fn all_zero(self) -> bool {
        &&& self.counts.len() == COUNTER_COUNT
        &&& forall|i: int| 0 <= i < COUNTER_COUNT ==> self.counts[i] == 0
    }
}

/// The whole seconds in `nanos` nanoseconds, capped at `u64::MAX`.
pub open spec fn whole_secs(nanos: u128) -> u64 {
    if nanos / 1_000_000_000 > u64::MAX as u128 {
        u64::MAX
    } else {
        (nanos / 1_000_000_000) as u64
    }
}

/// The whole seconds in `nanos` nanoseconds, capped at `u64::MAX`.
pub fn secs_from_nanos(nanos: u128) -> (secs: u64)
    ensures
        secs == whole_secs(nanos),
{
    let secs = nanos / 1_000_000_000;
    if secs > u64::MAX as u128 {
        u64::MAX
    } else {
        secs as u64
    }
}

pub struct Metrics {
    counters: [u64; COUNTER_COUNT],
    circuit_open: bool,
    start_time: Instant,
}

impl View for Metrics {
    type V = MetricsState;

    closed spec fn view(&self) -> MetricsState {
        MetricsState { counts: self.counters@, circuit_open: self.circuit_open }
    }
}

impl Metrics {
    /// When the metrics were created, on the monotonic clock.
    pub closed spec fn start_time(&self) -> Instant {
        self.start_time
    }

    /// Every counter at zero and the circuit closed.
    pub fn new() -> (m: Self)
        ensures
            m@.all_zero(),
            !m@.circuit_open,
    {
        let m = Metrics { counters: [0u64; COUNTER_COUNT], circuit_open: false, start_time: instant_now() };
        assert(m@.counts.len() == COUNTER_COUNT);
        m
    }

    /// Adds one to `counter`, leaving every other counter and the flag as they were.
    pub fn incr(&mut self, counter: Counter)
        ensures
            final(self)@ == old(self)@.incremented(counter),
    {
        let i = counter.index();
        let v = self.counters[i];
        self.counters[i] = v.wrapping_add(1);
        assert(self@ =~= old(self)@.incremented(counter));
    }

    pub fn get(&self, counter: Counter) -> (v: u64)
        ensures
            v == self@.count(counter),
    {
        self.counters[counter.index()]
    }

    /// The sum of the three outcome counters. Each is read once; the sum is
    /// derived, not stored.
    pub fn queries_total(&self) -> (total: u64)
        requires
            self@.queries_total() <= u64::MAX,
        ensures
            total == self@.queries_total(),
    {
        self.get(Counter::QueriesOk) + self.get(Counter::QueriesServfail) + self.get(
            Counter::QueriesFormerr,
        )
    }

    /// Sets the circuit flag; the store happens only where the value changes.
    pub fn set_circuit_open(&mut self, open: bool)
        ensures
            final(self)@ == old(self)@.with_circuit(open),
    {
        if self.circuit_open != open {
            self.circuit_open = open;
        }
    }

    pub fn is_circuit_open(&self) -> (open: bool)
        ensures
            open == self@.circuit_open,
    {
        self.circuit_open
    }

    /// Whole seconds from the metrics' creation to `now`.
    pub fn uptime_secs_at(&self, now: Instant) -> (secs: u64)
        ensures
            secs == whole_secs(nanos_from(now, self.start_time())),
    {
        secs_from_nanos(nanos_between(&now, &self.start_time))
    }

    /// Whole seconds since the metrics were created, to a reading of the
    /// monotonic clock taken during the call.
    pub fn uptime_secs(&self) -> (secs: u64)
        ensures
            exists|now: Instant| secs == whole_secs(#[trigger] nanos_from(now, self.start_time())),
    {
        self.uptime_secs_at(instant_now())
    }
}

impl Default for Metrics {
    fn default() -> (m: Self)
        ensures
            m@.all_zero(),
            !m@.circuit_open,
    {
        Self::new()
    }
}

/// Every `Metrics` has one slot for each counter.
pub proof fn lemma_a_slot_for_every_counter(m: &Metrics)
    ensures
        m@.counts.len() == COUNTER_COUNT,
        forall|c: Counter| 0 <= #[trigger] c.slot() < m@.counts.len(),
{
}

/// `n` increments of a counter that stays below `u64::MAX` raise it by
/// exactly `n`; every other counter and the circuit flag stay as they were.
pub proof fn lemma_increments_add_up(m: MetricsState, c: Counter, n: nat)
    requires
        m.counts.len() == COUNTER_COUNT,
        m.count(c) + n <= u64::MAX,
    ensures
        m.incremented_times(c, n).counts.len() == COUNTER_COUNT,
        m.incremented_times(c, n).count(c) == m.count(c) + n,
        forall|d: Counter| d != c ==> #[trigger] m.incremented_times(c, n).count(d) == m.count(d),
        m.incremented_times(c, n).circuit_open == m.circuit_open,
    decreases n,
{
    if n > 0 {
        lemma_increments_add_up(m, c, (n - 1) as nat);
        let prev = m.incremented_times(c, (n - 1) as nat);
        assert forall|d: Counter| d != c implies #[trigger] m.incremented_times(c, n).count(d) == m.count(d) by {
            assert(prev.count(d) == m.count(d));
            assert(d.slot() != c.slot());
        }
    }
}

/// Incrementing one counter leaves every other counter unchanged.
pub proof fn lemma_counters_are_independent(m: MetricsState, c: Counter, d: Counter)
    requires
        m.counts.len() == COUNTER_COUNT,
        c != d,
    ensures
        m.incremented(c).count(d) == m.count(d),
        m.incremented(c).circuit_open == m.circuit_open,
{
}

/// The derived total moves with the outcome counters only: one increment of
/// an outcome counter that does not wrap raises it by one, and an increment
/// of any other counter leaves it as it was.
pub proof fn lemma_total_follows_outcomes(m: MetricsState, c: Counter)
    requires
        m.counts.len() == COUNTER_COUNT,
    ensures
        c.is_outcome() && m.count(c) < u64::MAX ==> m.incremented(c).queries_total()
            == m.queries_total() + 1,
        !c.is_outcome() ==> m.incremented(c).queries_total() == m.queries_total(),
{
}

/// Setting the circuit flag is read back as set, changes no counter, and
/// setting it again to the same value changes nothing.
pub proof fn lemma_circuit_flag_round_trips(m: MetricsState, open: bool)
    ensures
        m.with_circuit(open).circuit_open == open,
        m.with_circuit(open).counts == m.counts,
        m.with_circuit(open).with_circuit(open) == m.with_circuit(open),
{
}

} // verus!
