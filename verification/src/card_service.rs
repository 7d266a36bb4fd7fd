//! The campus card service.

use crate::cached::CachedCoalescer;
use crate::expiring::Entry;
use crate::session::SWEEP_INTERVAL;
use vstd::prelude::*;

verus! {

/// The nanoseconds for which a fetched card is kept: half a minute.
pub const CARD_TTL: u64 = 30_000_000_000;

/// The days of bills, counted back from today, that a request for bills
/// covers.
pub const BILL_WINDOW_DAYS: i64 = 30;

/// The page of bills that a request for bills asks for.
pub const BILL_PAGE: u16 = 1;

/// The most bills that a request for bills asks for.
pub const BILL_ROWS: u16 = 100;

/// The campus card service: the sessions of its accounts and their cards,
/// each cached by account.
pub struct CardService {
    /// Logged-in sessions with access to the card service.
    pub request_coalescer: CachedCoalescer,
    /// Cards.
    pub card_coalescer: CachedCoalescer,
}

impl CardService {
    /// Makes the service, with both caches empty and swept every half
    /// minute.
    pub fn new() -> (service: Self)
        ensures
            service.request_coalescer.cached() == (Map::<Seq<char>, Entry>::empty()),
            service.request_coalescer.pending() == (Map::<Seq<char>, Seq<u64>>::empty()),
            service.request_coalescer.interval() == SWEEP_INTERVAL,
            service.card_coalescer.cached() == (Map::<Seq<char>, Entry>::empty()),
            service.card_coalescer.pending() == (Map::<Seq<char>, Seq<u64>>::empty()),
            service.card_coalescer.interval() == SWEEP_INTERVAL,
    {
        CardService {
            request_coalescer: CachedCoalescer::new(SWEEP_INTERVAL),
            card_coalescer: CachedCoalescer::new(SWEEP_INTERVAL),
        }
    }
}

} // verus!
