//! The academic affairs service.

use crate::cached::CachedCoalescer;
use crate::expiring::Entry;
use crate::session::SWEEP_INTERVAL;
use vstd::prelude::*;

verus! {

/// The academic affairs service: the sessions of its accounts, cached by
/// account.
pub struct MycquServicer {
    /// Logged-in sessions with access to the academic affairs service.
    pub request_coalescer: CachedCoalescer,
}

impl MycquServicer {
    /// Makes the service, with its cache empty and swept every half minute.
    pub fn new() -> (service: Self)
        ensures
            service.request_coalescer.cached() == (Map::<Seq<char>, Entry>::empty()),
            service.request_coalescer.pending() == (Map::<Seq<char>, Seq<u64>>::empty()),
            service.request_coalescer.interval() == SWEEP_INTERVAL,
    {
        MycquServicer { request_coalescer: CachedCoalescer::new(SWEEP_INTERVAL) }
    }
}

} // verus!
