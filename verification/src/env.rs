//! Event loop timing information shared with guest modules.

use vstd::prelude::*;

verus! {

/// Event loop timing information.
pub struct Timing {
    /// Variable delta time since the last event loop iteration, in
    /// nanoseconds. Kept strictly positive because it is frequently used
    /// as a divisor.
    pub delta_time: u64,
}

impl Default for Timing {
    /// The smallest positive delta time, so that a freshly created value
    /// can never cause a division by zero.
    fn default() -> (t: Timing)
        ensures
            t.delta_time == 1,
    {
        Timing { delta_time: 1 }
    }
}

} // verus!
