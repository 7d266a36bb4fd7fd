//! A table of values that expire.

use crate::clock::{deadline, deadline_after, outlives, outlives_spec, Clock};
use dashmap::DashMap;
use vstd::prelude::*;

verus! {

/// `dashmap::DashMap`, a concurrent hash table. What one holds is told by
/// [`entries`] and by [`crate::coalescer::queues`].
#[verifier::external_type_specification]
#[verifier::external_body]
#[verifier::reject_recursive_types(K)]
#[verifier::reject_recursive_types(V)]
#[verifier::reject_recursive_types(S)]
pub struct ExDashMap<K, V, S>(DashMap<K, V, S>);

/// What an entry holds: the value and the deadline after which it is stale.
pub type Entry = (u64, u128);

/// The concurrent table behind an [`ExpiringDashMap`].
pub type Table = DashMap<String, Entry>;

/// The entries that a table holds, by key. Whoever changes a table borrows
/// it whole, so what it holds changes by that one call alone.
pub uninterp spec fn entries(table: &Table) -> Map<Seq<char>, Entry>;

/// The entry under `key`, if there is one.
pub open spec fn entry_of(held: Map<Seq<char>, Entry>, key: Seq<char>) -> Option<Entry> {
    if held.contains_key(key) {
        Some(held[key])
    } else {
        None
    }
}

/// The entries of `held` whose deadline still lies ahead at `now`.
pub open spec fn unexpired(held: Map<Seq<char>, Entry>, now: u64) -> Map<Seq<char>, Entry> {
    Map::new(|key: Seq<char>| held.contains_key(key) && outlives_spec(held[key].1, now), |key: Seq<char>| held[key])
}

/// The value that a read of `key` at `now` sees: that of an entry which exists
/// and whose deadline still lies ahead.
pub open spec fn visible(held: Map<Seq<char>, Entry>, key: Seq<char>, now: u64) -> Option<u64> {
    if held.contains_key(key) && outlives_spec(held[key].1, now) {
        Some(held[key].0)
    } else {
        None
    }
}

/// `DashMap::new`: a table without entries.
#[verifier::external_body]
fn table_new() -> (table: Table)
    ensures
        entries(&table) == (Map::<Seq<char>, Entry>::empty()),
{
    DashMap::new()
}

/// `DashMap::insert`: puts `entry` under `key`, in place of any entry that was
/// there, and returns the entry it replaced.
#[verifier::external_body]
fn table_insert(table: &mut Table, key: String, entry: Entry) -> (previous: Option<Entry>)
    ensures
        entries(final(table)) == entries(old(table)).insert(key@, entry),
        previous == entry_of(entries(old(table)), key@),
{
    table.insert(key, entry)
}

/// `DashMap::get`: a copy of the entry under `key`, if there is one.
#[verifier::external_body]
fn table_get(table: &Table, key: &str) -> (found: Option<Entry>)
    ensures
        found == entry_of(entries(table), key@),
{
    table.get(key).map(|held| *held.value())
}

/// `DashMap::remove`: takes the entry under `key` out and returns it.
#[verifier::external_body]
fn table_remove(table: &mut Table, key: &str) -> (removed: Option<Entry>)
    ensures
        entries(final(table)) == entries(old(table)).remove(key@),
        removed == entry_of(entries(old(table)), key@),
{
    table.remove(key).map(|pair| pair.1)
}

/// `DashMap::retain` with [`outlives`] as the test: keeps exactly the entries
/// whose deadline still lies ahead at `now`.
#[verifier::external_body]
fn table_retain_unexpired(table: &mut Table, now: u64)
    ensures
        entries(final(table)) == unexpired(entries(old(table)), now),
{
    table.retain(|_, entry| outlives(entry.1, now));
}

/// A table from keys to values in which every entry has a deadline. A read
/// never returns an entry whose deadline has passed, whether or not a sweep
/// has removed it yet.
pub struct ExpiringDashMap {
    inner: Table,
    clock: Clock,
    check_interval: u64,
}

impl View for ExpiringDashMap {
    type V = Map<Seq<char>, Entry>;

    /// The entries that the table physically holds, stale ones included.
    closed spec fn view(&self) -> Map<Seq<char>, Entry> {
        entries(&self.inner)
    }
}

impl ExpiringDashMap {
    /// The interval at which the owner is to sweep the table.
    pub closed spec fn interval(&self) -> u64 {
        self.check_interval
    }

    /// An empty table that is to be swept every `check_interval` nanoseconds.
    pub fn new(check_interval: u64) -> (store: Self)
        ensures
            store@ == (Map::<Seq<char>, Entry>::empty()),
            store.interval() == check_interval,
    {
        ExpiringDashMap { inner: table_new(), clock: Clock::new(), check_interval }
    }

    /// The interval at which the owner is to call [`Self::purge_expired`].
    pub fn check_interval(&self) -> (interval: u64)
        ensures
            interval == self.interval(),
    {
        self.check_interval
    }

    /// The present instant on the table's own clock.
    pub fn now(&self) -> (now: u64) {
        self.clock.now()
    }

    /// Stores `value` under `key` at instant `now`, to expire `ttl` later. An
    /// earlier entry for the key is overwritten.
    pub fn insert_at(&mut self, key: String, value: u64, now: u64, ttl: u64)
        ensures
            final(self)@ == old(self)@.insert(key@, (value, deadline(now, ttl))),
            final(self).interval() == old(self).interval(),
    {
        let _ = table_insert(&mut self.inner, key, (value, deadline_after(now, ttl)));
    }

    /// Stores `value` under `key`, to expire `ttl` after the present instant.
    pub fn insert(&mut self, key: String, value: u64, ttl: u64)
        ensures
            exists|now: u64| final(self)@ == old(self)@.insert(key@, (value, #[trigger] deadline(now, ttl))),
            final(self).interval() == old(self).interval(),
    {
        let now = self.clock.now();
        self.insert_at(key, value, now, ttl);
    }

    /// The value under `key` as a read at instant `now` sees it.
    pub fn get_at(&self, key: &str, now: u64) -> (value: Option<u64>)
        ensures
            value == visible(self@, key@, now),
    {
        match table_get(&self.inner, key) {
            Some(entry) => if outlives(entry.1, now) {
                Some(entry.0)
            } else {
                None
            },
            None => None,
        }
    }

    /// The value under `key` as a read at the present instant sees it.
    pub fn get(&self, key: &str) -> (value: Option<u64>)
        ensures
            exists|now: u64| value == #[trigger] visible(self@, key@, now),
    {
        let now = self.clock.now();
        self.get_at(key, now)
    }

    /// Removes the entry under `key`, stale or not, and returns its value.
    pub fn remove(&mut self, key: &str) -> (value: Option<u64>)
        ensures
            final(self)@ == old(self)@.remove(key@),
            final(self).interval() == old(self).interval(),
            value == (match entry_of(old(self)@, key@) {
                Some(entry) => Some(entry.0),
                None => None,
            }),
    {
        match table_remove(&mut self.inner, key) {
            Some(entry) => Some(entry.0),
            None => None,
        }
    }

    /// Sweeps the table at instant `now`: drops every entry whose deadline is
    /// `now` or earlier.
    pub fn purge_expired_at(&mut self, now: u64)
        ensures
            final(self)@ == unexpired(old(self)@, now),
            final(self).interval() == old(self).interval(),
    {
        table_retain_unexpired(&mut self.inner, now);
    }

    /// Sweeps the table at the present instant.
    pub fn purge_expired(&mut self)
        ensures
            exists|now: u64| final(self)@ == #[trigger] unexpired(old(self)@, now),
            final(self).interval() == old(self).interval(),
    {
        let now = self.clock.now();
        self.purge_expired_at(now);
    }
}

/// Expiry on read. Once the time to live of an entry has passed, a read does
/// not see it, whether or not a sweep has removed it; until then a read sees
/// its value.
pub proof fn entry_lives_for_its_ttl(
    held: Map<Seq<char>, Entry>,
    key: Seq<char>,
    value: u64,
    now: u64,
    ttl: u64,
    later: u64,
)
    ensures
        later < now + ttl ==> visible(held.insert(key, (value, deadline(now, ttl))), key, later) == Some(value),
        later >= now + ttl ==> visible(held.insert(key, (value, deadline(now, ttl))), key, later) is None,
{
}

/// A sweep only reclaims memory: a read at or after the instant of a sweep
/// sees what it would have seen without the sweep.
pub proof fn sweep_is_invisible(held: Map<Seq<char>, Entry>, key: Seq<char>, swept_at: u64, read_at: u64)
    requires
        swept_at <= read_at,
    ensures
        visible(unexpired(held, swept_at), key, read_at) == visible(held, key, read_at),
{
}

/// Invalidation. After the entry of a key has been removed, a read of the
/// key sees nothing, at any instant, and no other key is affected.
pub proof fn removed_is_absent(held: Map<Seq<char>, Entry>, key: Seq<char>, now: u64, other: Seq<char>)
    ensures
        visible(held.remove(key), key, now) is None,
        other != key ==> visible(held.remove(key), other, now) == visible(held, other, now),
{
}

} // verus!
