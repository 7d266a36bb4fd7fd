//! Request coalescing, expiring caches and a rotating pool of outbound clients.
//!
//! Every component is a sequential state machine: a caller that shares one
//! between tasks keeps it behind a lock, performs the awaits itself, and
//! hands the outcome back. A cached value is a 64-bit token that stands for
//! whatever the caller keeps under it, and a ticket stands for the channel
//! on which a waiting caller is reached.
//!
//! Instants and durations are nanoseconds counted in `u64`; a deadline is
//! the sum of two of them and is kept in `u128`, so it never wraps. Every
//! operation that reads the clock has a twin, named with `_at`, that takes
//! the instant from its caller.

pub mod cached;
pub mod card_service;
pub mod clock;
pub mod coalescer;
pub mod datetime;
pub mod directory;
pub mod endpoint;
pub mod expiring;
pub mod library_service;
pub mod mycqu_service;
pub mod pool;
pub mod session;
pub mod status;
