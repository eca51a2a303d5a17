//! The delay source.

use vstd::prelude::*;

verus! {

/// A source of delays, implemented by the host.
pub trait Timer {
    /// Returns once at least the given number of milliseconds have passed.
    fn after_millis(milliseconds: u64);
}

} // verus!
