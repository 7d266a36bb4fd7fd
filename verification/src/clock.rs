//! A monotonic clock that counts nanoseconds from its own origin.

use std::time::Instant;
use vstd::prelude::*;

verus! {

/// `std::time::Instant`, a moment on the monotonic clock. Nothing inside it
/// is looked at.
#[verifier::external_type_specification]
#[verifier::external_body]
pub struct ExInstant(Instant);

/// `Instant::now`: the present moment. Nothing is claimed of it.
#[verifier::external_body]
fn instant_now() -> (origin: Instant) {
    Instant::now()
}

/// `Instant::elapsed`, in whole nanoseconds (the low 64 bits, which last more
/// than five centuries). The reading depends on when it is taken, so nothing
/// is claimed of it.
#[verifier::external_body]
fn instant_elapsed(origin: &Instant) -> (nanos: u64) {
    origin.elapsed().as_nanos() as u64
}

/// A source of instants. Two readings of one clock can be compared; readings
/// of different clocks cannot.
pub struct Clock {
    origin: Instant,
}

impl Clock {
    /// Starts a clock at the present moment.
    pub fn new() -> (clock: Self) {
        Clock { origin: instant_now() }
    }

    /// The nanoseconds that have passed since the clock was started.
    pub fn now(&self) -> (nanos: u64) {
        instant_elapsed(&self.origin)
    }
}

/// The instant at which something that starts at `now` and lasts `ttl` ends.
pub open spec fn deadline(now: u64, ttl: u64) -> u128 {
    (now + ttl) as u128
}

/// Whether `deadline` still lies ahead at `now`.
pub open spec fn outlives_spec(deadline: u128, now: u64) -> bool {
    now < deadline
}

/// Computes [`deadline`].
pub fn deadline_after(now: u64, ttl: u64) -> (end: u128)
    ensures
        end == deadline(now, ttl),
{
    let start: u128 = now as u128;
    let span: u128 = ttl as u128;
    start + span
}

/// Whether `deadline` still lies ahead at `now`: the one test by which reads
/// and sweeps tell a live entry from a stale one.
#[verifier::when_used_as_spec(outlives_spec)]
pub fn outlives(deadline: u128, now: u64) -> (live: bool)
    ensures
        live == outlives_spec(deadline, now),
{
    (now as u128) < deadline
}

} // verus!
