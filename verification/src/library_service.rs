//! The library catalogue service.

use vstd::prelude::*;

verus! {

/// The library catalogue service. It keeps no state of its own.
pub struct LibraryService {}

impl LibraryService {
    /// Makes the service.
    pub fn new() -> (service: Self)
        ensures
            service == (LibraryService {}),
    {
        LibraryService {}
    }
}

} // verus!
