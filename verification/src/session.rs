//! Logged-in sessions, cached by the account they belong to.

use crate::cached::CachedCoalescer;
use vstd::prelude::*;

verus! {

/// The nanoseconds for which the outcome of a login is kept: five minutes.
pub const SESSION_TTL: u64 = 300_000_000_000;

/// The nanoseconds between two sweeps of a service's caches: half a minute.
pub const SWEEP_INTERVAL: u64 = 30_000_000_000;

/// Settles a login once its coalesced call has returned. The outcome of a
/// failed login is dropped from the cache at once, so that the next attempt
/// for the account logs in anew; that of a successful one stays for its
/// time to live.
pub fn settle_login(sessions: &mut CachedCoalescer, auth: &str, failed: bool)
    ensures
        final(sessions).cached() == (if failed {
            old(sessions).cached().remove(auth@)
        } else {
            old(sessions).cached()
        }),
        final(sessions).pending() == old(sessions).pending(),
        final(sessions).interval() == old(sessions).interval(),
{
    if failed {
        sessions.clean_cache(auth);
    }
}

} // verus!
