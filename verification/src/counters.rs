//! Event counters kept by the idle loop.

use vstd::prelude::*;

verus! {

/// Counts the events the mainline observes.
#[derive(Clone, Copy, PartialEq, Eq, Structural, Debug)]
pub struct Counters {
    /// Number of interrupts/exceptions that woke the idle loop.
    pub interrupt: u64,
}

impl Counters {
    /// Counters as the program starts: nothing seen yet.
    pub fn new() -> (r: Counters)
        ensures
            r.interrupt == 0,
    {
        Counters { interrupt: 0 }
    }
}

} // verus!
