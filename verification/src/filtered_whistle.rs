//! The debounced whistle signal published to downstream consumers.

use vstd::prelude::*;

use crate::clock::Timestamp;

verus! {

/// Whistle detection after temporal filtering: whether a whistle is
/// currently held detected, whether the detection started this cycle, and
/// the time of the last detection, if any.
#[derive(Clone, Copy, Debug)]
pub struct FilteredWhistle {
    pub is_detected: bool,
    pub started_this_cycle: bool,
    pub last_detection: Option<Timestamp>,
}

impl Default for FilteredWhistle {
    /// No whistle detected yet.
    fn default() -> (r: Self)
        ensures
            r == (FilteredWhistle {
                is_detected: false,
                started_this_cycle: false,
                last_detection: None,
            }),
    {
        FilteredWhistle { is_detected: false, started_this_cycle: false, last_detection: None }
    }
}

} // verus!
