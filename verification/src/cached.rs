//! Cache-aside reads in front of single-flight fills.

use crate::clock::deadline;
use crate::coalescer::{joined, no_idle_key, queue_of, role_of, RequestCoalescer, Role};
use crate::expiring::{unexpired, visible, Entry, ExpiringDashMap};
use vstd::prelude::*;

verus! {

/// What a caller that asks for a key is to do.
#[derive(Clone, Copy, Debug, PartialEq, Eq, Structural)]
pub enum Admission {
    /// The cache holds a live value: the caller returns it and runs nothing.
    Hit(u64),
    /// The cache holds nothing live and no fill is in flight: the caller runs
    /// the operation, then calls [`CachedCoalescer::complete`] with the result.
    Lead,
    /// A fill is in flight: the caller waits until its leader delivers.
    Wait,
}

/// The answer to a caller that asks for `key` at `now`.
pub open spec fn admission(
    cached: Map<Seq<char>, Entry>,
    pending: Map<Seq<char>, Seq<u64>>,
    key: Seq<char>,
    now: u64,
) -> Admission {
    match visible(cached, key, now) {
        Some(value) => Admission::Hit(value),
        None => match role_of(pending, key) {
            Role::Leader => Admission::Lead,
            Role::Waiter => Admission::Wait,
        },
    }
}

/// The fills in flight after a caller with `ticket` has asked for `key` at
/// `now`: a hit leaves them as they were, a miss registers the caller.
pub open spec fn pending_after(
    cached: Map<Seq<char>, Entry>,
    pending: Map<Seq<char>, Seq<u64>>,
    key: Seq<char>,
    ticket: u64,
    now: u64,
) -> Map<Seq<char>, Seq<u64>> {
    if visible(cached, key, now) is Some {
        pending
    } else {
        joined(pending, key, ticket)
    }
}

/// An expiring cache whose misses are filled by one caller per key at a time.
pub struct CachedCoalescer {
    cache: ExpiringDashMap,
    coalescer: RequestCoalescer,
}

impl CachedCoalescer {
    /// The entries that the cache physically holds.
    pub closed spec fn cached(&self) -> Map<Seq<char>, Entry> {
        self.cache@
    }

    /// For each key whose fill is in flight, the tickets of its callers.
    pub closed spec fn pending(&self) -> Map<Seq<char>, Seq<u64>> {
        self.coalescer@
    }

    /// The interval at which the owner is to sweep the cache.
    pub closed spec fn interval(&self) -> u64 {
        self.cache.interval()
    }

    /// An empty cache with nothing in flight, to be swept every
    /// `check_interval` nanoseconds.
    pub fn new(check_interval: u64) -> (made: Self)
        ensures
            made.cached() == (Map::<Seq<char>, Entry>::empty()),
            made.pending() == (Map::<Seq<char>, Seq<u64>>::empty()),
            made.interval() == check_interval,
    {
        CachedCoalescer { cache: ExpiringDashMap::new(check_interval), coalescer: RequestCoalescer::new() }
    }

    /// The interval at which the owner is to call [`Self::purge_expired`].
    pub fn check_interval(&self) -> (interval: u64)
        ensures
            interval == self.interval(),
    {
        self.cache.check_interval()
    }

    /// The present instant on the cache's own clock.
    pub fn now(&self) -> (now: u64) {
        self.cache.now()
    }

    /// The cached value of `key` as a read at instant `now` sees it. Nothing
    /// is registered.
    pub fn get_at(&self, key: &str, now: u64) -> (value: Option<u64>)
        ensures
            value == visible(self.cached(), key@, now),
    {
        self.cache.get_at(key, now)
    }

    /// The cached value of `key` as a read at the present instant sees it.
    pub fn get(&self, key: &str) -> (value: Option<u64>)
        ensures
            exists|now: u64| value == #[trigger] visible(self.cached(), key@, now),
    {
        let now = self.cache.now();
        self.get_at(key, now)
    }

    /// Admits a caller for `key` at instant `now`. A live cached value is
    /// returned at once and the coalescer is not touched; on a miss the
    /// caller is registered with the coalescer, as leader or as waiter.
    pub fn execute_at(&mut self, key: String, ticket: u64, now: u64) -> (answer: Admission)
        ensures
            answer == admission(old(self).cached(), old(self).pending(), key@, now),
            final(self).pending() == pending_after(old(self).cached(), old(self).pending(), key@, ticket, now),
            final(self).cached() == old(self).cached(),
            final(self).interval() == old(self).interval(),
            no_idle_key(old(self).pending()) ==> no_idle_key(final(self).pending()),
    {
        match self.cache.get_at(key.as_str(), now) {
            Some(value) => Admission::Hit(value),
            None => match self.coalescer.execute(key, ticket) {
                Role::Leader => Admission::Lead,
                Role::Waiter => Admission::Wait,
            },
        }
    }

    /// Admits a caller for `key` at the present instant.
    pub fn execute(&mut self, key: String, ticket: u64) -> (answer: Admission)
        ensures
            exists|now: u64|
                answer == #[trigger] admission(old(self).cached(), old(self).pending(), key@, now)
                    && final(self).pending() == pending_after(
                    old(self).cached(),
                    old(self).pending(),
                    key@,
                    ticket,
                    now,
                ),
            final(self).cached() == old(self).cached(),
            final(self).interval() == old(self).interval(),
            no_idle_key(old(self).pending()) ==> no_idle_key(final(self).pending()),
    {
        let now = self.cache.now();
        self.execute_at(key, ticket, now)
    }

    /// Ends the fill of `key` at instant `now` with the leader's result,
    /// success or failure alike: stores `value` to expire `ttl` later, then
    /// detaches the callers of the key and returns their tickets in order of
    /// arrival. The store comes first, so every caller that is delivered to
    /// finds the cache filled.
    pub fn complete_at(&mut self, key: String, value: u64, ttl: u64, now: u64) -> (waiters: Vec<u64>)
        ensures
            final(self).cached() == old(self).cached().insert(key@, (value, deadline(now, ttl))),
            final(self).pending() == old(self).pending().remove(key@),
            waiters@ == queue_of(old(self).pending(), key@),
            final(self).interval() == old(self).interval(),
            no_idle_key(old(self).pending()) ==> no_idle_key(final(self).pending()),
    {
        let waiters = self.coalescer.complete(key.as_str());
        self.cache.insert_at(key, value, now, ttl);
        waiters
    }

    /// Ends the fill of `key` at the present instant.
    pub fn complete(&mut self, key: String, value: u64, ttl: u64) -> (waiters: Vec<u64>)
        ensures
            exists|now: u64|
                final(self).cached() == old(self).cached().insert(key@, (value, #[trigger] deadline(now, ttl))),
            final(self).pending() == old(self).pending().remove(key@),
            waiters@ == queue_of(old(self).pending(), key@),
            final(self).interval() == old(self).interval(),
            no_idle_key(old(self).pending()) ==> no_idle_key(final(self).pending()),
    {
        let now = self.cache.now();
        self.complete_at(key, value, ttl, now)
    }

    /// Drops the cached value of `key`, live or not, so that the next caller
    /// for the key fills it anew. Fills in flight are not touched.
    pub fn clean_cache(&mut self, key: &str)
        ensures
            final(self).cached() == old(self).cached().remove(key@),
            final(self).pending() == old(self).pending(),
            final(self).interval() == old(self).interval(),
    {
        let _ = self.cache.remove(key);
    }

    /// Sweeps the cache at instant `now`.
    pub fn purge_expired_at(&mut self, now: u64)
        ensures
            final(self).cached() == unexpired(old(self).cached(), now),
            final(self).pending() == old(self).pending(),
            final(self).interval() == old(self).interval(),
    {
        self.cache.purge_expired_at(now);
    }

    /// Sweeps the cache at the present instant.
    pub fn purge_expired(&mut self)
        ensures
            exists|now: u64| final(self).cached() == #[trigger] unexpired(old(self).cached(), now),
            final(self).pending() == old(self).pending(),
            final(self).interval() == old(self).interval(),
    {
        let now = self.cache.now();
        self.purge_expired_at(now);
    }
}

/// Cache hit bypass. After a fill of a key has completed, a caller that asks
/// for the key before the time to live has passed is answered with the
/// stored value: it runs nothing, and the coalescer is not touched.
pub proof fn hit_bypasses_coalescer(
    cached: Map<Seq<char>, Entry>,
    pending: Map<Seq<char>, Seq<u64>>,
    key: Seq<char>,
    value: u64,
    ttl: u64,
    now: u64,
    ticket: u64,
    later: u64,
)
    requires
        later < now + ttl,
    ensures
        admission(cached.insert(key, (value, deadline(now, ttl))), pending.remove(key), key, later) == Admission::Hit(
            value,
        ),
        pending_after(cached.insert(key, (value, deadline(now, ttl))), pending.remove(key), key, ticket, later)
            == pending.remove(key),
{
}

/// Expiry. Once the time to live of a stored value has passed, the next
/// caller for its key leads a new fill, whether or not the cache has been
/// swept in between.
pub proof fn expired_is_refilled(
    cached: Map<Seq<char>, Entry>,
    pending: Map<Seq<char>, Seq<u64>>,
    key: Seq<char>,
    value: u64,
    ttl: u64,
    now: u64,
    swept_at: u64,
    later: u64,
)
    requires
        later >= now + ttl,
    ensures
        admission(cached.insert(key, (value, deadline(now, ttl))), pending.remove(key), key, later)
            == Admission::Lead,
        admission(unexpired(cached.insert(key, (value, deadline(now, ttl))), swept_at), pending.remove(key), key, later)
            == Admission::Lead,
{
}

/// Invalidation. After the cached value of a key has been dropped, the next
/// caller for the key is not answered from the cache, however much of the
/// time to live is left: it leads a fill where none is in flight, and waits
/// for the one in flight otherwise.
pub proof fn cleaned_is_refilled(
    cached: Map<Seq<char>, Entry>,
    pending: Map<Seq<char>, Seq<u64>>,
    key: Seq<char>,
    now: u64,
)
    ensures
        visible(cached.remove(key), key, now) is None,
        !(admission(cached.remove(key), pending, key, now) is Hit),
        queue_of(pending, key).len() == 0 ==> admission(cached.remove(key), pending, key, now) == Admission::Lead,
{
}

} // verus!
