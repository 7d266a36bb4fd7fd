//! Single-flight bookkeeping: which keys have a computation in flight, and
//! who waits for each.

use dashmap::DashMap;
use vstd::prelude::*;

verus! {

/// The concurrent table behind a [`RequestCoalescer`]: for each key in
/// flight, the tickets of its callers in order of arrival.
pub type Pending = DashMap<String, Vec<u64>>;

/// The queues that a table holds, by key. Whoever changes a table borrows
/// it whole, so what it holds changes by that one call alone.
pub uninterp spec fn queues(table: &Pending) -> Map<Seq<char>, Seq<u64>>;

/// What a caller that asks for a key is to do.
#[derive(Clone, Copy, Debug, PartialEq, Eq, Structural)]
pub enum Role {
    /// No computation for the key was in flight: the caller runs the
    /// operation, then calls [`RequestCoalescer::complete`].
    Leader,
    /// A computation for the key is in flight: the caller waits until the
    /// leader delivers its result.
    Waiter,
}

/// The queue under `key`: empty where the key is not in flight.
pub open spec fn queue_of(held: Map<Seq<char>, Seq<u64>>, key: Seq<char>) -> Seq<u64> {
    if held.contains_key(key) {
        held[key]
    } else {
        Seq::empty()
    }
}

/// No key is in flight without a caller: every queue has its leader in it.
pub open spec fn no_idle_key(held: Map<Seq<char>, Seq<u64>>) -> bool {
    forall|key: Seq<char>| held.contains_key(key) ==> (#[trigger] held[key]).len() > 0
}

/// The role of the next caller that asks for `key`: it leads where the key
/// has no caller yet.
pub open spec fn role_of(held: Map<Seq<char>, Seq<u64>>, key: Seq<char>) -> Role {
    if queue_of(held, key).len() == 0 {
        Role::Leader
    } else {
        Role::Waiter
    }
}

/// The table after a caller with `ticket` has asked for `key`.
pub open spec fn joined(held: Map<Seq<char>, Seq<u64>>, key: Seq<char>, ticket: u64) -> Map<Seq<char>, Seq<u64>> {
    held.insert(key, queue_of(held, key).push(ticket))
}

/// `DashMap::new`: a table without entries.
#[verifier::external_body]
fn pending_new() -> (table: Pending)
    ensures
        queues(&table) == (Map::<Seq<char>, Seq<u64>>::empty()),
{
    DashMap::new()
}

/// `DashMap::insert`: puts `queue` under `key`, in place of any queue that was
/// there.
#[verifier::external_body]
fn pending_insert(table: &mut Pending, key: String, queue: Vec<u64>)
    ensures
        queues(final(table)) == queues(old(table)).insert(key@, queue@),
{
    table.insert(key, queue);
}

/// `DashMap::remove`: takes the queue under `key` out and returns it.
#[verifier::external_body]
fn pending_remove(table: &mut Pending, key: &str) -> (removed: Option<Vec<u64>>)
    ensures
        queues(final(table)) == queues(old(table)).remove(key@),
        queues(old(table)).contains_key(key@) ==> removed is Some && removed->0@ == queues(old(table))[key@],
        !queues(old(table)).contains_key(key@) ==> removed is None,
{
    table.remove(key).map(|pair| pair.1)
}

/// `DashMap::contains_key`: whether the table holds a queue under `key`.
#[verifier::external_body]
fn pending_contains(table: &Pending, key: &str) -> (held: bool)
    ensures
        held == queues(table).contains_key(key@),
{
    table.contains_key(key)
}

/// Collapses concurrent requests for one key into a single computation.
pub struct RequestCoalescer {
    ongoing_requests: Pending,
}

impl View for RequestCoalescer {
    type V = Map<Seq<char>, Seq<u64>>;

    /// For each key in flight, the tickets of its callers in order of
    /// arrival, the leader's first.
    closed spec fn view(&self) -> Map<Seq<char>, Seq<u64>> {
        queues(&self.ongoing_requests)
    }
}

impl RequestCoalescer {
    /// A coalescer with nothing in flight.
    pub fn new() -> (coalescer: Self)
        ensures
            coalescer@ == (Map::<Seq<char>, Seq<u64>>::empty()),
            no_idle_key(coalescer@),
    {
        RequestCoalescer { ongoing_requests: pending_new() }
    }

    /// Registers a caller for `key` in one step: as the leader where the
    /// key has no caller yet, else as one more waiter. `ticket` stands for
    /// the channel on which the caller can be reached.
    pub fn execute(&mut self, key: String, ticket: u64) -> (role: Role)
        ensures
            final(self)@ == joined(old(self)@, key@, ticket),
            role == role_of(old(self)@, key@),
            no_idle_key(old(self)@) ==> no_idle_key(final(self)@),
    {
        let ghost before = queues(&self.ongoing_requests);
        let mut queue = match pending_remove(&mut self.ongoing_requests, key.as_str()) {
            Some(queue) => queue,
            None => Vec::new(),
        };
        queue.push(ticket);
        let first = queue.len() == 1;
        pending_insert(&mut self.ongoing_requests, key, queue);
        proof {
            assert(queues(&self.ongoing_requests) =~= joined(before, key@, ticket));
        }
        if first {
            Role::Leader
        } else {
            Role::Waiter
        }
    }

    /// Ends the computation for `key` in one step: detaches its queue and
    /// returns it, so that whoever asks for the key next leads anew. The
    /// leader delivers its result to every ticket returned.
    pub fn complete(&mut self, key: &str) -> (waiters: Vec<u64>)
        ensures
            final(self)@ == old(self)@.remove(key@),
            waiters@ == queue_of(old(self)@, key@),
            no_idle_key(old(self)@) ==> no_idle_key(final(self)@),
    {
        match pending_remove(&mut self.ongoing_requests, key) {
            Some(queue) => queue,
            None => Vec::new(),
        }
    }

    /// Whether a computation for `key` is in flight.
    pub fn in_flight(&self, key: &str) -> (busy: bool)
        ensures
            busy == self@.contains_key(key@),
    {
        pending_contains(&self.ongoing_requests, key)
    }
}

/// The table after callers with `tickets` have asked for `key`, one after
/// another and with no completion between them.
pub open spec fn joined_all(held: Map<Seq<char>, Seq<u64>>, key: Seq<char>, tickets: Seq<u64>) -> Map<
    Seq<char>,
    Seq<u64>,
>
    decreases tickets.len(),
{
    if tickets.len() == 0 {
        held
    } else {
        joined(joined_all(held, key, tickets.drop_last()), key, tickets.last())
    }
}

/// Callers that ask for one key are queued behind those already there, and
/// no other key is touched.
proof fn lemma_joined_all(held: Map<Seq<char>, Seq<u64>>, key: Seq<char>, tickets: Seq<u64>)
    ensures
        queue_of(joined_all(held, key, tickets), key) == queue_of(held, key) + tickets,
        joined_all(held, key, tickets).remove(key) == held.remove(key),
    decreases tickets.len(),
{
    if tickets.len() == 0 {
        assert(queue_of(held, key) + tickets == queue_of(held, key));
    } else {
        let before = joined_all(held, key, tickets.drop_last());
        lemma_joined_all(held, key, tickets.drop_last());
        assert((queue_of(held, key) + tickets.drop_last()).push(tickets.last()) == queue_of(held, key) + tickets);
        assert(joined(before, key, tickets.last()).remove(key) == before.remove(key));
    }
}

/// Single flight. Of any number of callers that ask for a key with no
/// computation in flight, before the first of them completes, exactly the
/// first leads: the operation runs once. Completion then hands back the
/// tickets of them all, in order of arrival, so each receives that one
/// result; and it leaves every other key as it was before they came.
pub proof fn single_flight(held: Map<Seq<char>, Seq<u64>>, key: Seq<char>, tickets: Seq<u64>)
    requires
        queue_of(held, key).len() == 0,
    ensures
        forall|n: int|
            0 <= n < tickets.len() ==> role_of(#[trigger] joined_all(held, key, tickets.take(n)), key) == (if n == 0 {
                Role::Leader
            } else {
                Role::Waiter
            }),
        queue_of(joined_all(held, key, tickets), key) == tickets,
        joined_all(held, key, tickets).remove(key) == held.remove(key),
{
    assert forall|n: int| 0 <= n < tickets.len() implies role_of(
        #[trigger] joined_all(held, key, tickets.take(n)),
        key,
    ) == (if n == 0 {
        Role::Leader
    } else {
        Role::Waiter
    }) by {
        lemma_joined_all(held, key, tickets.take(n));
    }
    lemma_joined_all(held, key, tickets);
    assert(queue_of(held, key) + tickets == tickets);
}

/// No lost wake-up. Once the computation for a key has completed, whoever
/// asks for the key next leads a new one: nobody joins a queue that has been
/// served.
pub proof fn next_caller_leads(held: Map<Seq<char>, Seq<u64>>, key: Seq<char>)
    ensures
        role_of(held.remove(key), key) == Role::Leader,
{
}

/// Keys are independent. Neither a caller that asks for a key nor the
/// completion of a key changes the queue of another key, or the role that the
/// next caller for that other key gets.
pub proof fn keys_are_independent(held: Map<Seq<char>, Seq<u64>>, key: Seq<char>, ticket: u64, other: Seq<char>)
    requires
        key != other,
    ensures
        queue_of(joined(held, key, ticket), other) == queue_of(held, other),
        role_of(joined(held, key, ticket), other) == role_of(held, other),
        queue_of(held.remove(key), other) == queue_of(held, other),
        role_of(held.remove(key), other) == role_of(held, other),
{
}

} // verus!
