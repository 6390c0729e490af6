//! The table of clients: admission by token bucket per source address, and
//! the sweep that forgets clients gone idle.

use vstd::prelude::*;
use std::time::Duration;
use dashmap::DashMap;
use super::breaker::{breaker_handle, breaker_settings, standard_settings, ClientCircuitBreaker};
use super::entry::ClientEntry;
use super::token_bucket::{BucketState, MAX_CAPACITY, NANOS, TOKEN};
use std::time::SystemTime;
use crate::clock::{duration_millis, duration_ms, nanos_from, now_ms, wall_ms};
use crate::metrics::{Counter, Metrics};
use crate::net::{ClientKey, IpAddress};

verus! {

#[verifier::external_type_specification]
#[verifier::external_body]
#[verifier::reject_recursive_types(K)]
#[verifier::reject_recursive_types(V)]
#[verifier::reject_recursive_types(S)]
pub struct ExDashMap<K, V, S>(DashMap<K, V, S>);

/// The table of clients: a concurrent hash map from key to entry.
pub type ClientTable = DashMap<ClientKey, ClientEntry>;

/// The entries that a table of clients holds, by key.
pub uninterp spec fn client_table(m: ClientTable) -> Map<ClientKey, ClientEntry>;

/// Calls `DashMap::new`: the table starts empty.
#[verifier::external_body]
fn table_new() -> (table: ClientTable)
    ensures
        client_table(table).dom() == Set::<ClientKey>::empty(),
{
    DashMap::new()
}

/// Calls `DashMap::remove`: takes the entry under `key` out of the table and
/// hands it back with its key, or hands back `None` and leaves the table as
/// it was where there is none.
#[verifier::external_body]
fn table_remove(m: &mut ClientTable, key: &ClientKey) -> (r: Option<(ClientKey, ClientEntry)>)
    ensures
        match r {
            Some((k, e)) => {
                &&& client_table(*old(m)).dom().contains(*key)
                &&& k == *key
                &&& e == client_table(*old(m))[*key]
                &&& client_table(*final(m)) == client_table(*old(m)).remove(*key)
            },
            None => {
                &&& !client_table(*old(m)).dom().contains(*key)
                &&& client_table(*final(m)) == client_table(*old(m))
            },
        },
{
    m.remove(key)
}

/// Calls `DashMap::insert`: puts `entry` under `key`, replacing any entry
/// there, and hands back the one it replaced.
#[verifier::external_body]
fn table_insert(m: &mut ClientTable, key: ClientKey, entry: ClientEntry) -> (r: Option<ClientEntry>)
    ensures
        client_table(*final(m)) == client_table(*old(m)).insert(key, entry),
        r == (if client_table(*old(m)).dom().contains(key) {
            Some(client_table(*old(m))[key])
        } else {
            None
        }),
{
    m.insert(key, entry)
}

/// The entries of `t` seen at or after `cutoff_ms`.
pub open spec fn fresh_entries(t: Map<ClientKey, ClientEntry>, cutoff_ms: i64) -> Map<ClientKey, ClientEntry> {
    t.restrict(Set::new(|k: ClientKey| t[k]@.last_seen_ms >= cutoff_ms))
}

/// The cutoff of a sweep at wall-clock time `now_ms` with an idle time of
/// `ttl_ms` milliseconds: `now_ms - ttl_ms`, with the idle time cast to an
/// `i64` and the subtraction wrapping, as in release builds.
pub open spec fn sweep_cutoff(now_ms: i64, ttl_ms: u128) -> i64 {
    vstd::wrapping::i64_specs::wrapping_sub(now_ms, ttl_ms as i64)
}

/// Calls `DashMap::retain` with a closure that keeps an entry where
/// `ClientEntry::is_fresh(cutoff_ms)` holds (last seen at or after the
/// cutoff); the closure changes no entry.
#[verifier::external_body]
fn table_retain_fresh(m: &mut ClientTable, cutoff_ms: i64)
    ensures
        client_table(*final(m)) == fresh_entries(client_table(*old(m)), cutoff_ms),
{
    m.retain(|_, entry| entry.is_fresh(cutoff_ms))
}

/// Calls `DashMap::len`: the number of entries in the table.
#[verifier::external_body]
fn table_len(m: &ClientTable) -> (n: usize)
    ensures
        n == client_table(*m).len(),
{
    m.len()
}

/// What an admitted client gets: which entry admitted it, and a handle on
/// that entry's breaker.
pub struct ClientTicket {
    pub id: u64,
    pub breaker: ClientCircuitBreaker,
}

pub enum RateDecision {
    Allowed(ClientTicket),
    RateLimited,
}

/// The time one check refilled an entry for: from its previous refill to
/// the new one.
pub open spec fn refill_time(before: ClientEntry, after: ClientEntry) -> nat {
    nanos_from(after@.refilled_at, before@.refilled_at) as nat
}

/// How one check moves an existing entry: same id and breaker, a bucket
/// refilled for the time from its last refill to the new reading and then
/// taken from, admitted exactly when a token was there.
pub open spec fn checked_entry(before: ClientEntry, after: ClientEntry, admitted: bool) -> bool {
    &&& after@.id == before@.id
    &&& after.held_breaker() == before.held_breaker()
    &&& admitted == before@.bucket.admits(refill_time(before, after))
    &&& after@.bucket == before@.bucket.after_take(refill_time(before, after))
}

/// What one rate check at `now_ms` does to the guard and what it decides.
/// Settings and idle time stay; `ip`'s key is in the table afterwards, with
/// the last-seen time `now_ms`; every other entry stays as it was. A known
/// client's entry is refilled and taken from, and admitted exactly when a
/// token was there. A new client gets the next id, a new breaker with the
/// standard settings and a full bucket that is taken from at once, admitted
/// exactly when the capacity is at least one token (a billion billionths).
/// An admitted client's
/// ticket names its entry and holds that entry's breaker. Ids stay below
/// the next id while the counter has room.
pub open spec fn rate_checked(
    before: ClientGuard,
    after: ClientGuard,
    ip: IpAddress,
    now_ms: i64,
    d: RateDecision,
) -> bool {
    &&& after.capacity() == before.capacity()
    &&& after.refill_per_sec() == before.refill_per_sec()
    &&& after.idle_ttl() == before.idle_ttl()
    &&& after.table().dom() == before.table().dom().insert(ip.key())
    &&& after.table()[ip.key()]@.last_seen_ms == now_ms
    &&& (before.ids_below_next() && before.next_id() < u64::MAX ==> after.ids_below_next())
    &&& forall|k: ClientKey|
        #![trigger after.table()[k]]
        k != ip.key() && before.table().dom().contains(k) ==> after.table()[k] == before.table()[k]
    &&& (before.table().dom().contains(ip.key()) ==> {
        &&& checked_entry(before.table()[ip.key()], after.table()[ip.key()], d is Allowed)
        &&& after.next_id() == before.next_id()
    })
    &&& (!before.table().dom().contains(ip.key()) ==> {
        &&& after.table()[ip.key()]@.id == before.next_id()
        &&& breaker_settings(after.table()[ip.key()].held_breaker()) == standard_settings()
        &&& after.table()[ip.key()]@.bucket == BucketState::full(
            before.capacity(),
            before.refill_per_sec(),
        ).after_take(0)
        &&& (d is Allowed <==> before.capacity() >= NANOS)
        &&& after.next_id() == before.next_id().wrapping_add(1)
    })
    &&& (d matches RateDecision::Allowed(t) ==> t.id == after.table()[ip.key()]@.id
        && t.breaker == after.table()[ip.key()].held_breaker())
}

pub struct ClientGuard {
    entries: ClientTable,
    capacity: u128,
    refill_per_sec: u128,
    idle_ttl: Duration,
    next_id: u64,
}

impl ClientGuard {
    /// The clients known to the guard, by key.
    pub closed spec fn table(self) -> Map<ClientKey, ClientEntry> {
        client_table(self.entries)
    }

    /// The capacity of each client's bucket, in billionths of a token.
    pub closed spec fn capacity(self) -> nat {
        self.capacity as nat
    }

    /// The rate at which each client's bucket refills, in billionths of a
    /// token per second.
    pub closed spec fn refill_per_sec(self) -> nat {
        self.refill_per_sec as nat
    }

    /// How long a client may stay idle before a sweep forgets it.
    pub closed spec fn idle_ttl(self) -> Duration {
        self.idle_ttl
    }

    /// Every entry's id lies below the id that the next new entry gets.
    pub open spec fn ids_below_next(self) -> bool {
        forall|k: ClientKey| #[trigger] self.table().dom().contains(k) ==> self.table()[k]@.id < self.next_id()
    }

    /// The id that the next new entry gets.
    pub closed spec fn next_id(self) -> u64 {
        self.next_id
    }

    /// A guard that knows no client yet; each new client gets a bucket of
    /// `capacity` billionths of a token, refilled at `refill_per_sec`
    /// billionths of a token per second.
    pub fn in_billionths(capacity: u128, refill_per_sec: u128, idle_ttl: Duration) -> (g: Self)
        requires
            capacity <= MAX_CAPACITY,
        ensures
            g.table() == Map::<ClientKey, ClientEntry>::empty(),
            g.capacity() == capacity,
            g.refill_per_sec() == refill_per_sec,
            g.idle_ttl() == idle_ttl,
            g.next_id() == 0,
            g.ids_below_next(),
    {
        ClientGuard { entries: table_new(), capacity, refill_per_sec, idle_ttl, next_id: 0 }
    }

    /// A guard that knows no client yet; each new client gets a bucket of
    /// `capacity` whole tokens, refilled at `refill_per_sec` whole tokens per
    /// second.
    pub fn new(capacity: u64, refill_per_sec: u64, idle_ttl: Duration) -> (g: Self)
        ensures
            g.table() == Map::<ClientKey, ClientEntry>::empty(),
            g.capacity() == capacity as nat * NANOS as nat,
            g.refill_per_sec() == refill_per_sec as nat * NANOS as nat,
            g.idle_ttl() == idle_ttl,
            g.next_id() == 0,
            g.ids_below_next(),
    {
        assert(capacity as nat * NANOS as nat <= u64::MAX as nat * NANOS as nat) by (nonlinear_arith);
        assert(refill_per_sec as nat * NANOS as nat <= u64::MAX as nat * NANOS as nat) by (nonlinear_arith);
        ClientGuard::in_billionths(capacity as u128 * NANOS, refill_per_sec as u128 * NANOS, idle_ttl)
    }

    /// Admits or refuses one request from `ip`, seen at wall-clock time
    /// `now_ms`. A client seen before keeps its entry, which is refilled and
    /// taken from; a new client gets a new entry with a full bucket, so its
    /// first request is admitted whenever the capacity is at least one
    /// token. Either way the client's last-seen time becomes `now_ms`. No
    /// other client's entry changes.
    pub fn check_rate_at(&mut self, ip: IpAddress, now_ms: i64) -> (d: RateDecision)
        requires
            old(self).capacity() <= MAX_CAPACITY,
        ensures
            rate_checked(*old(self), *final(self), ip, now_ms, d),
    {
        let key = ip.client_key();
        let removed = table_remove(&mut self.entries, &key);
        let mut entry = match removed {
            Some((_, e)) => e,
            None => {
                let e = ClientEntry::new_at(self.next_id, self.capacity, self.refill_per_sec, now_ms);
                self.next_id = self.next_id.wrapping_add(1);
                e
            },
        };
        entry.touch_at(now_ms);
        let ghost touched = entry;
        let admitted = entry.try_consume();
        proof {
            if removed is None {
                let full = BucketState::full(self.capacity as nat, self.refill_per_sec as nat);
                let elapsed_ns = refill_time(touched, entry);
                assert(full.refilled(elapsed_ns) == full.refilled(0));
                assert(full.capacity * (NANOS as nat) >= TOKEN as nat <==> full.capacity >= NANOS as nat) by (nonlinear_arith);
            }
        }
        let decision = if admitted {
            RateDecision::Allowed(ClientTicket { id: entry.id(), breaker: breaker_handle(entry.breaker()) })
        } else {
            RateDecision::RateLimited
        };
        let _ = table_insert(&mut self.entries, key, entry);
        proof {
            if old(self).ids_below_next() && old(self).next_id() < u64::MAX {
                assert forall|k: ClientKey| #[trigger] self.table().dom().contains(k) implies self.table()[k]@.id
                    < self.next_id() by {
                    if k != key {
                        assert(old(self).table().dom().contains(k));
                    }
                }
            }
        }
        proof {
            let b = *old(self);
            let a = *self;
            assert(a.table().dom() == b.table().dom().insert(ip.key()));
            assert(a.table()[ip.key()]@.last_seen_ms == now_ms);
            assert(b.table().dom().contains(ip.key()) ==> checked_entry(b.table()[ip.key()], a.table()[ip.key()], decision is Allowed));
            assert(!b.table().dom().contains(ip.key()) ==> a.table()[ip.key()]@.bucket == BucketState::full(
            b.capacity(),
            b.refill_per_sec(),
        ).after_take(0));
            assert(!b.table().dom().contains(ip.key()) ==> (decision is Allowed <==> b.capacity() >= NANOS));
        }
        decision
    }

    /// Admits or refuses one request from `ip`, as `check_rate_at` does at
    /// the wall clock read during the call.
    pub fn check_rate(&mut self, ip: IpAddress) -> (d: RateDecision)
        requires
            old(self).capacity() <= MAX_CAPACITY,
        ensures
            exists|t: SystemTime| rate_checked(*old(self), *final(self), ip, #[trigger] wall_ms(t), d),
    {
        let now = now_ms();
        self.check_rate_at(ip, now)
    }

    /// Forgets every client last seen before `cutoff_ms`; the others stay as
    /// they were.
    pub fn evict_idle(&mut self, cutoff_ms: i64)
        ensures
            final(self).table() == fresh_entries(old(self).table(), cutoff_ms),
            final(self).capacity() == old(self).capacity(),
            final(self).refill_per_sec() == old(self).refill_per_sec(),
            final(self).idle_ttl() == old(self).idle_ttl(),
            final(self).next_id() == old(self).next_id(),
            old(self).ids_below_next() ==> final(self).ids_below_next(),
    {
        table_retain_fresh(&mut self.entries, cutoff_ms);
    }

    /// Forgets the clients idle for longer than the guard's idle time at
    /// wall-clock time `now_ms`: those last seen before `now_ms` less the
    /// idle time.
    pub fn sweep_at(&mut self, now_ms: i64)
        ensures
            final(self).table() == fresh_entries(
                old(self).table(),
                sweep_cutoff(now_ms, duration_ms(old(self).idle_ttl())),
            ),
            duration_ms(old(self).idle_ttl()) <= i64::MAX && now_ms - duration_ms(old(self).idle_ttl())
                >= i64::MIN ==> final(self).table() == fresh_entries(
                old(self).table(),
                (now_ms - duration_ms(old(self).idle_ttl())) as i64,
            ),
            final(self).capacity() == old(self).capacity(),
            final(self).refill_per_sec() == old(self).refill_per_sec(),
            final(self).idle_ttl() == old(self).idle_ttl(),
            final(self).next_id() == old(self).next_id(),
            old(self).ids_below_next() ==> final(self).ids_below_next(),
    {
        let ttl = duration_millis(&self.idle_ttl) as i64;
        let cutoff = now_ms.wrapping_sub(ttl);
        proof {
            let ttl_ms = duration_ms(old(self).idle_ttl());
            if ttl_ms <= i64::MAX && now_ms - ttl_ms >= i64::MIN {
                lemma_cutoff_is_now_less_the_idle_time(now_ms, ttl_ms);
            }
        }
        self.evict_idle(cutoff);
    }

    /// Forgets the clients idle for longer than the guard's idle time, so
    /// that per-client state does not grow without bound under a flood of
    /// distinct source addresses: a sweep at the wall clock read during the
    /// call.
    pub fn sweep(&mut self)
        ensures
            exists|t: SystemTime|
                {
                    &&& final(self).table() == fresh_entries(
                        old(self).table(),
                        sweep_cutoff(#[trigger] wall_ms(t), duration_ms(old(self).idle_ttl())),
                    )
                    &&& (duration_ms(old(self).idle_ttl()) <= i64::MAX && wall_ms(t) - duration_ms(old(self).idle_ttl())
                        >= i64::MIN ==> final(self).table() == fresh_entries(
                        old(self).table(),
                        (wall_ms(t) - duration_ms(old(self).idle_ttl())) as i64,
                    ))
                },
            final(self).capacity() == old(self).capacity(),
            final(self).refill_per_sec() == old(self).refill_per_sec(),
            final(self).idle_ttl() == old(self).idle_ttl(),
            final(self).next_id() == old(self).next_id(),
            old(self).ids_below_next() ==> final(self).ids_below_next(),
    {
        self.sweep_at(now_ms());
    }

    /// The number of clients the guard knows.
    pub fn len(&self) -> (n: usize)
        ensures
            n == self.table().len(),
    {
        table_len(&self.entries)
    }

    pub fn is_empty(&self) -> (empty: bool)
        ensures
            empty == (self.table().len() == 0),
    {
        table_len(&self.entries) == 0
    }
}

/// The cutoff of a sweep is the sweep's time less the whole idle time in
/// milliseconds, wherever neither the idle time nor the difference leaves
/// the range of an `i64`.
pub proof fn lemma_cutoff_is_now_less_the_idle_time(now_ms: i64, ttl_ms: u128)
    requires
        ttl_ms <= i64::MAX,
        now_ms - ttl_ms >= i64::MIN,
    ensures
        sweep_cutoff(now_ms, ttl_ms) == now_ms - ttl_ms,
{
}

/// A sweep at `now_ms` keeps exactly the clients last seen no more than
/// the idle time before it: a client seen at `now_ms - ttl_ms` or later
/// stays, as it was, and one seen earlier is forgotten.
pub proof fn lemma_sweep_keeps_the_recently_seen(t: Map<ClientKey, ClientEntry>, now_ms: i64, ttl_ms: u128, k: ClientKey)
    requires
        ttl_ms <= i64::MAX,
        now_ms - ttl_ms >= i64::MIN,
        t.dom().contains(k),
    ensures
        t[k]@.last_seen_ms >= now_ms - ttl_ms ==> fresh_entries(t, sweep_cutoff(now_ms, ttl_ms)).dom().contains(k)
            && fresh_entries(t, sweep_cutoff(now_ms, ttl_ms))[k] == t[k],
        t[k]@.last_seen_ms < now_ms - ttl_ms ==> !fresh_entries(t, sweep_cutoff(now_ms, ttl_ms)).dom().contains(k),
{
    lemma_cutoff_is_now_less_the_idle_time(now_ms, ttl_ms);
    lemma_sweep_forgets_exactly_the_idle(t, sweep_cutoff(now_ms, ttl_ms), k);
}

/// A sweep forgets exactly the clients last seen before the cutoff:
/// such a client's next request finds no entry and starts afresh, with a
/// full bucket and a new breaker; every other client keeps its entry as it
/// was.
pub proof fn lemma_sweep_forgets_exactly_the_idle(t: Map<ClientKey, ClientEntry>, cutoff_ms: i64, k: ClientKey)
    requires
        t.dom().contains(k),
    ensures
        t[k]@.last_seen_ms < cutoff_ms ==> !fresh_entries(t, cutoff_ms).dom().contains(k),
        t[k]@.last_seen_ms >= cutoff_ms ==> fresh_entries(t, cutoff_ms).dom().contains(k)
            && fresh_entries(t, cutoff_ms)[k] == t[k],
{
}

/// A client forgotten by a sweep starts afresh on its next request: its
/// new entry has an id that neither its old entry nor any other entry in
/// the table holds, a new breaker with the standard settings, and a full
/// bucket from which the request took.
pub proof fn lemma_returning_client_starts_afresh(
    before: ClientGuard,
    swept: ClientGuard,
    after: ClientGuard,
    ip: IpAddress,
    cutoff_ms: i64,
    now_ms: i64,
    d: RateDecision,
)
    requires
        before.ids_below_next(),
        before.table().dom().contains(ip.key()),
        before.table()[ip.key()]@.last_seen_ms < cutoff_ms,
        swept.table() == fresh_entries(before.table(), cutoff_ms),
        swept.next_id() == before.next_id(),
        rate_checked(swept, after, ip, now_ms, d),
    ensures
        after.table()[ip.key()]@.id != before.table()[ip.key()]@.id,
        forall|k: ClientKey|
            k != ip.key() && #[trigger] after.table().dom().contains(k) ==> after.table()[k]@.id
                != after.table()[ip.key()]@.id,
        after.table()[ip.key()]@.bucket == BucketState::full(swept.capacity(), swept.refill_per_sec()).after_take(0),
        after.table()[ip.key()]@.last_seen_ms == now_ms,
        breaker_settings(after.table()[ip.key()].held_breaker()) == standard_settings(),
{
    lemma_sweep_forgets_exactly_the_idle(before.table(), cutoff_ms, ip.key());
    assert forall|k: ClientKey|
        k != ip.key() && #[trigger] after.table().dom().contains(k) implies after.table()[k]@.id
            != after.table()[ip.key()]@.id by {
        assert(swept.table().dom().contains(k));
        assert(before.table().dom().contains(k));
        assert(after.table()[k] == swept.table()[k]);
    }
}

/// What the receive loop does with a rate decision: an admitted packet goes
/// on with its ticket; a refused one is dropped and counted under
/// `ClientRateLimited`, and nothing else is counted.
pub fn admit_or_count(decision: RateDecision, metrics: &mut Metrics) -> (ticket: Option<ClientTicket>)
    ensures
        match ticket {
            Some(t) => decision == RateDecision::Allowed(t) && final(metrics)@ == old(metrics)@,
            None => decision is RateLimited && final(metrics)@ == old(metrics)@.incremented(
                Counter::ClientRateLimited,
            ),
        },
{
    match decision {
        RateDecision::Allowed(t) => Some(t),
        RateDecision::RateLimited => {
            metrics.incr(Counter::ClientRateLimited);
            None
        },
    }
}

} // verus!
