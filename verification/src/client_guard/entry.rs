//! One client's admission state: its token bucket, its circuit breaker and
//! when it was last seen.

use vstd::prelude::*;
use super::breaker::{breaker_settings, new_client_breaker, standard_settings, ClientCircuitBreaker};
use super::token_bucket::{BucketState, TokenBucket, MAX_CAPACITY};
use std::time::{Instant, SystemTime};
use crate::clock::{nanos_from, now_ms, wall_ms};

verus! {

/// What a [`ClientEntry`] holds besides its breaker.
pub struct EntryState {
    /// Set when the entry is made; tells one entry from another.
    pub id: u64,
    pub bucket: BucketState,
    /// When the bucket was last refilled, on the monotonic clock.
    pub refilled_at: Instant,
    pub last_seen_ms: i64,
}

pub struct ClientEntry {
    id: u64,
    bucket: TokenBucket,
    breaker: ClientCircuitBreaker,
    last_seen_ms: i64,
}

impl View for ClientEntry {
    type V = EntryState;

    closed spec fn view(&self) -> EntryState {
        EntryState {
            id: self.id,
            bucket: self.bucket@,
            refilled_at: self.bucket.last_refill(),
            last_seen_ms: self.last_seen_ms,
        }
    }
}

impl ClientEntry {
    /// The entry's breaker, which is opaque; used to say it is kept.
    pub closed spec fn held_breaker(self) -> ClientCircuitBreaker {
        self.breaker
    }

    /// A new entry with a full bucket of `capacity` billionths of a token,
    /// refilled at `refill_per_sec` billionths a second, and a fresh breaker,
    /// seen at `now_ms`.
    pub fn new_at(id: u64, capacity: u128, refill_per_sec: u128, now_ms: i64) -> (e: Self)
        requires
            capacity <= MAX_CAPACITY,
        ensures
            e@.id == id,
            e@.bucket == BucketState::full(capacity as nat, refill_per_sec as nat),
            e@.last_seen_ms == now_ms,
            breaker_settings(e.held_breaker()) == standard_settings(),
    {
        ClientEntry {
            id,
            bucket: TokenBucket::in_billionths(capacity, refill_per_sec),
            breaker: new_client_breaker(),
            last_seen_ms: now_ms,
        }
    }

    /// A new entry with a full bucket and a fresh breaker, seen now: its
    /// last-seen time is the wall clock read at its making.
    pub fn new(id: u64, capacity: u128, refill_per_sec: u128) -> (e: Self)
        requires
            capacity <= MAX_CAPACITY,
        ensures
            e@.id == id,
            e@.bucket == BucketState::full(capacity as nat, refill_per_sec as nat),
            exists|t: SystemTime| e@.last_seen_ms == #[trigger] wall_ms(t),
            breaker_settings(e.held_breaker()) == standard_settings(),
    {
        ClientEntry::new_at(id, capacity, refill_per_sec, now_ms())
    }

    pub fn breaker(&self) -> (b: &ClientCircuitBreaker)
        ensures
            *b == self.held_breaker(),
    {
        &self.breaker
    }

    pub fn id(&self) -> (id: u64)
        ensures
            id == self@.id,
    {
        self.id
    }

    /// Records that the client was seen at `now_ms`; nothing else changes.
    pub fn touch_at(&mut self, now_ms: i64)
        ensures
            final(self)@ == (EntryState { last_seen_ms: now_ms, ..old(self)@ }),
            final(self).held_breaker() == old(self).held_breaker(),
    {
        self.last_seen_ms = now_ms;
    }

    /// Records that the client was seen now: its last-seen time becomes the
    /// wall clock read during the call; nothing else changes.
    pub fn touch(&mut self)
        ensures
            exists|t: SystemTime|
                final(self)@ == (EntryState { last_seen_ms: #[trigger] wall_ms(t), ..old(self)@ }),
            final(self).held_breaker() == old(self).held_breaker(),
    {
        self.touch_at(now_ms());
    }

    /// Takes a token from the client's bucket after refilling it for the
    /// time from its last refill to a reading of the monotonic clock, which
    /// becomes its last refill; says whether it did.
    pub fn try_consume(&mut self) -> (taken: bool)
        ensures
            final(self)@.id == old(self)@.id,
            final(self)@.last_seen_ms == old(self)@.last_seen_ms,
            final(self).held_breaker() == old(self).held_breaker(),
            taken == old(self)@.bucket.admits(
                nanos_from(final(self)@.refilled_at, old(self)@.refilled_at) as nat,
            ),
            final(self)@.bucket == old(self)@.bucket.after_take(
                nanos_from(final(self)@.refilled_at, old(self)@.refilled_at) as nat,
            ),
    {
        self.bucket.try_consume()
    }

    /// Whether the client was last seen at or after `cutoff_ms`.
    pub fn is_fresh(&self, cutoff_ms: i64) -> (fresh: bool)
        ensures
            fresh == (self@.last_seen_ms >= cutoff_ms),
    {
        self.last_seen_ms >= cutoff_ms
    }

    /// Whether the client was last seen before `cutoff_ms`.
    pub fn is_stale(&self, cutoff_ms: i64) -> (stale: bool)
        ensures
            stale == (self@.last_seen_ms < cutoff_ms),
    {
        self.last_seen_ms < cutoff_ms
    }
}

} // verus!
