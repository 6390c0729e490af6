//! A token bucket. Capacity and rate are given in billionths of a token
//! (per second), so fractional settings are exact, and the tokens held are
//! counted in billionths of those, so the refill for a number of
//! nanoseconds is exact too.

use vstd::prelude::*;
use std::time::Instant;
use crate::clock::{instant_now, nanos_between, nanos_from};

verus! {

/// Billionths in one, and nanoseconds in one second.
pub const NANOS: u128 = 1_000_000_000;

/// The units in which a bucket counts the tokens it holds, in one token:
/// a billionth of a billionth.
pub const TOKEN: u128 = 1_000_000_000_000_000_000;

/// The largest capacity of a bucket, in billionths of a token: that of
/// `u64::MAX` whole tokens.
pub const MAX_CAPACITY: u128 = 18_446_744_073_709_551_615_000_000_000;

/// What a [`TokenBucket`] holds: its capacity in billionths of a token, its
/// rate in billionths of a token per second, and its tokens in units of
/// [`TOKEN`] to the token.
pub struct BucketState {
    pub capacity: nat,
    pub refill_per_sec: nat,
    pub tokens: nat,
}

pub open spec fn min_nat(a: nat, b: nat) -> nat {
    if a <= b { a } else { b }
}

impl BucketState {
    /// The most the bucket can hold, in units of [`TOKEN`] to the token.
    pub open spec fn limit(self) -> nat {
        self.capacity * NANOS as nat
    }

    /// The tokens after `elapsed_ns` nanoseconds of refill, capped at capacity.
    pub open spec fn refilled(self, elapsed_ns: nat) -> nat {
        min_nat(self.tokens + self.refill_per_sec * elapsed_ns, self.limit())
    }

    /// Whether one token can be taken after `elapsed_ns` of refill.
    pub open spec fn admits(self, elapsed_ns: nat) -> bool {
        self.refilled(elapsed_ns) >= TOKEN
    }

    /// The state after refilling for `elapsed_ns` and taking one token where
    /// there is one.
    pub open spec fn after_take(self, elapsed_ns: nat) -> BucketState {
        BucketState {
            capacity: self.capacity,
            refill_per_sec: self.refill_per_sec,
            tokens: if self.admits(elapsed_ns) {
                (self.refilled(elapsed_ns) - TOKEN) as nat
            } else {
                self.refilled(elapsed_ns)
            },
        }
    }

    pub open spec fn valid(self) -> bool {
        self.tokens <= self.limit()
    }

    pub open spec fn full(capacity: nat, refill_per_sec: nat) -> BucketState {
        BucketState { capacity, refill_per_sec, tokens: capacity * NANOS as nat }
    }
}

pub struct TokenBucket {
    capacity: u128,
    tokens: u128,
    refill_per_sec: u128,
    last_refill: Instant,
}

impl View for TokenBucket {
    type V = BucketState;

    closed spec fn view(&self) -> BucketState {
        BucketState {
            capacity: self.capacity as nat,
            refill_per_sec: self.refill_per_sec as nat,
            tokens: self.tokens as nat,
        }
    }
}

impl TokenBucket {
    #[verifier::type_invariant]
    closed spec fn never_over_capacity(self) -> bool {
        &&& self.capacity <= MAX_CAPACITY
        &&& self.tokens <= self.capacity as nat * NANOS as nat
    }

    /// The instant of the last refill.
    pub closed spec fn last_refill(&self) -> Instant {
        self.last_refill
    }

    /// A full bucket of `capacity` billionths of a token, refilled at
    /// `refill_per_sec` billionths of a token per second.
    pub fn in_billionths(capacity: u128, refill_per_sec: u128) -> (b: Self)
        requires
            capacity <= MAX_CAPACITY,
        ensures
            b@ == BucketState::full(capacity as nat, refill_per_sec as nat),
    {
        assert(capacity as nat * NANOS as nat <= MAX_CAPACITY as nat * NANOS as nat) by (nonlinear_arith)
            requires
                capacity <= MAX_CAPACITY,
        ;
        TokenBucket { capacity, tokens: capacity * NANOS, refill_per_sec, last_refill: instant_now() }
    }

    /// A full bucket of `capacity` whole tokens, refilled at
    /// `refill_per_sec` whole tokens per second.
    pub fn new(capacity: u64, refill_per_sec: u64) -> (b: Self)
        ensures
            b@ == BucketState::full(capacity as nat * NANOS as nat, refill_per_sec as nat * NANOS as nat),
    {
        assert(capacity as nat * NANOS as nat <= u64::MAX as nat * NANOS as nat) by (nonlinear_arith);
        assert(refill_per_sec as nat * NANOS as nat <= u64::MAX as nat * NANOS as nat) by (nonlinear_arith);
        TokenBucket::in_billionths(capacity as u128 * NANOS, refill_per_sec as u128 * NANOS)
    }

    /// Refills for `elapsed_ns` nanoseconds, up to capacity, then takes one
    /// token if there is one; says whether it did.
    pub fn take_after(&mut self, elapsed_ns: u128) -> (taken: bool)
        ensures
            taken == old(self)@.admits(elapsed_ns as nat),
            final(self)@ == old(self)@.after_take(elapsed_ns as nat),
            old(self)@.valid(),
            final(self)@.valid(),
            final(self).last_refill() == old(self).last_refill(),
    {
        proof {
            use_type_invariant(&*self);
        }
        assert(self.capacity as nat * NANOS as nat <= MAX_CAPACITY as nat * NANOS as nat) by (nonlinear_arith)
            requires
                self.capacity <= MAX_CAPACITY,
        ;
        let limit: u128 = self.capacity * NANOS;
        assert(limit == self.capacity as nat * NANOS as nat);
        let room: u128 = limit - self.tokens;
        assert(limit <= MAX_CAPACITY as nat * NANOS as nat) by (nonlinear_arith)
            requires
                limit == self.capacity as nat * NANOS as nat,
                self.capacity <= MAX_CAPACITY,
        ;
        let refilled: u128 = match self.refill_per_sec.checked_mul(elapsed_ns) {
            Some(gain) => {
                if gain >= room {
                    limit
                } else {
                    self.tokens + gain
                }
            },
            None => {
                assert(self.refill_per_sec as nat * elapsed_ns as nat >= room);
                limit
            },
        };
        assert(refilled == old(self)@.refilled(elapsed_ns as nat));
        if refilled >= TOKEN {
            self.tokens = refilled - TOKEN;
            true
        } else {
            self.tokens = refilled;
            false
        }
    }

    /// Refills for the time from the last refill to `now`, which becomes the
    /// last refill, then takes one token if there is one; says whether it
    /// did. Capacity and rate stay as they were.
    pub fn try_consume_at(&mut self, now: Instant) -> (taken: bool)
        ensures
            final(self).last_refill() == now,
            taken == old(self)@.admits(nanos_from(now, old(self).last_refill()) as nat),
            final(self)@ == old(self)@.after_take(nanos_from(now, old(self).last_refill()) as nat),
    {
        let elapsed = nanos_between(&now, &self.last_refill);
        proof {
            use_type_invariant(&*self);
        }
        self.last_refill = now;
        let taken = self.take_after(elapsed);
        assert(taken == old(self)@.admits(elapsed as nat) && self@ == old(self)@.after_take(elapsed as nat));
        taken
    }

    /// Reads the monotonic clock, refills for the time from the last refill
    /// to that reading, moves the last refill to the reading, then takes one
    /// token if there is one; says whether it did. Capacity and rate stay as
    /// they were.
    pub fn try_consume(&mut self) -> (taken: bool)
        ensures
            taken == old(self)@.admits(
                nanos_from(final(self).last_refill(), old(self).last_refill()) as nat,
            ),
            final(self)@ == old(self)@.after_take(
                nanos_from(final(self).last_refill(), old(self).last_refill()) as nat,
            ),
    {
        self.try_consume_at(instant_now())
    }
}

/// A bucket never holds more than its capacity, however long it refills:
/// the cap holds after every take.
pub proof fn lemma_refill_never_exceeds_capacity(b: BucketState, elapsed_ns: nat)
    requires
        b.valid(),
    ensures
        b.refilled(elapsed_ns) <= b.limit(),
        b.after_take(elapsed_ns).valid(),
{
}

/// With no time passing, a full bucket of `c` whole tokens admits exactly
/// `c` takes in a row: each of the first `c` succeeds, and the next one
/// fails.
pub proof fn lemma_burst_up_to_capacity(b: BucketState, c: nat, k: nat)
    requires
        b.valid(),
        b.limit() == c * TOKEN as nat,
        b.tokens == c * TOKEN as nat - k * TOKEN as nat,
        k <= c,
    ensures
        b.admits(0) <==> k < c,
        k < c ==> b.after_take(0).tokens == c * TOKEN as nat - (k + 1) * TOKEN as nat,
        !b.admits(0) ==> b.after_take(0) == b,
{
    assert((k + 1) * TOKEN as nat == k * TOKEN as nat + TOKEN as nat) by (nonlinear_arith);
    assert(k < c ==> k * TOKEN as nat + TOKEN as nat <= c * TOKEN as nat) by (nonlinear_arith);
    assert(k == c ==> c * TOKEN as nat - k * TOKEN as nat == 0) by (nonlinear_arith);
}

/// A bucket that cannot take a token now admits one after long enough: once
/// `refill * elapsed` reaches a whole token, a take succeeds (when the
/// capacity is at least one token).
pub proof fn lemma_refills_over_time(b: BucketState, elapsed_ns: nat)
    requires
        b.valid(),
        b.capacity >= NANOS,
        b.refill_per_sec * elapsed_ns >= TOKEN,
    ensures
        b.admits(elapsed_ns),
{
    assert(b.capacity * NANOS as nat >= TOKEN) by (nonlinear_arith)
        requires b.capacity >= NANOS;
}

/// The bucket after a run of takes, the `i`th after `elapsed[i]`
/// nanoseconds of refill, and how many of the takes succeeded.
pub open spec fn run(b: BucketState, elapsed: Seq<nat>) -> (BucketState, nat)
    decreases elapsed.len(),
{
    if elapsed.len() == 0 {
        (b, 0)
    } else {
        let (mid, admitted) = run(b, elapsed.drop_last());
        let e = elapsed.last();
        (mid.after_take(e), admitted + if mid.admits(e) { 1nat } else { 0nat })
    }
}

pub open spec fn total_time(elapsed: Seq<nat>) -> nat
    decreases elapsed.len(),
{
    if elapsed.len() == 0 {
        0
    } else {
        total_time(elapsed.drop_last()) + elapsed.last()
    }
}

/// The rate limit: over any run of takes, the tokens handed out plus those
/// left never exceed the tokens there were plus the refill for the whole
/// time. So a client gets at most its capacity plus its refill rate for
/// each second of the run, however it spaces its requests.
pub proof fn lemma_admissions_bounded_by_refill(b: BucketState, elapsed: Seq<nat>)
    requires
        b.valid(),
    ensures
        run(b, elapsed).0.capacity == b.capacity,
        run(b, elapsed).0.refill_per_sec == b.refill_per_sec,
        run(b, elapsed).0.valid(),
        run(b, elapsed).1 * (TOKEN as nat) + run(b, elapsed).0.tokens <= b.tokens + b.refill_per_sec
            * total_time(elapsed),
        run(b, elapsed).1 * (TOKEN as nat) <= b.limit() + b.refill_per_sec * total_time(elapsed),
    decreases elapsed.len(),
{
    if elapsed.len() > 0 {
        let prefix = elapsed.drop_last();
        lemma_admissions_bounded_by_refill(b, prefix);
        let (mid, admitted) = run(b, prefix);
        let e = elapsed.last();
        let r = b.refill_per_sec;
        assert(r * total_time(elapsed) == r * total_time(prefix) + r * e) by (nonlinear_arith)
            requires
                total_time(elapsed) == total_time(prefix) + e,
        ;
        assert((admitted + 1) * (TOKEN as nat) == admitted * (TOKEN as nat) + TOKEN as nat) by (nonlinear_arith);
    }
}

/// A run of `n` takes with no time between them.
pub open spec fn immediate(n: nat) -> Seq<nat> {
    Seq::new(n, |i: int| 0nat)
}

/// A burst: a full bucket of `c` whole tokens admits exactly `min(n, c)`
/// of `n` takes made with no time between them, and is left with the rest
/// of its tokens.
pub proof fn lemma_burst_admits_exactly_capacity(c: nat, refill_per_sec: nat, n: nat)
    ensures
        run(BucketState::full(c * NANOS as nat, refill_per_sec), immediate(n)).1 == min_nat(n, c),
        run(BucketState::full(c * NANOS as nat, refill_per_sec), immediate(n)).0 == (BucketState {
            capacity: c * NANOS as nat,
            refill_per_sec,
            tokens: (c * TOKEN as nat - min_nat(n, c) * TOKEN as nat) as nat,
        }),
    decreases n,
{
    let b = BucketState::full(c * NANOS as nat, refill_per_sec);
    assert(c * NANOS as nat * NANOS as nat == c * TOKEN as nat) by (nonlinear_arith);
    if n == 0 {
        assert(immediate(0) =~= Seq::<nat>::empty());
    } else {
        let k = min_nat((n - 1) as nat, c);
        lemma_burst_admits_exactly_capacity(c, refill_per_sec, (n - 1) as nat);
        assert(immediate(n).drop_last() =~= immediate((n - 1) as nat));
        let mid = run(b, immediate((n - 1) as nat)).0;
        assert(k * TOKEN as nat <= c * TOKEN as nat) by (nonlinear_arith)
            requires
                k <= c,
        ;
        lemma_burst_up_to_capacity(mid, c, k);
    }
}

} // verus!
