//! Wall-clock instants, time spans, and the guarded elapsed-time computation
//! that every filter in this crate relies on.

use vstd::prelude::*;

verus! {

/// A wall-clock instant, counted in nanoseconds since the epoch.
pub type Timestamp = u64;

/// A span of time, counted in nanoseconds.
pub type Duration = u64;

/// A failure that aborts the current tick's work for a filter.
///
/// `ClockNonMonotonic` is raised whenever an elapsed-time computation observes
/// a reference time that lies in the future of `now`; it indicates a
/// system-level fault and is propagated to the invoking scheduler, never
/// retried. `TransmitFailure` is raised by the surrounding transport when an
/// outbound message could not be handed to the network; the decision output
/// computed in the same tick is not rolled back.
#[derive(Clone, Copy, Debug, PartialEq, Eq, Structural)]
pub enum TickError {
    ClockNonMonotonic,
    TransmitFailure,
}

/// Elapsed time between two clock readings.
///
/// Succeeds with `now - earlier` when the clock moved forward, and reports a
/// `ClockNonMonotonic` fault instead of silently producing a negative span
/// when it did not.
pub fn duration_since(now: Timestamp, earlier: Timestamp) -> (r: Result<Duration, TickError>)
    ensures
        earlier <= now ==> r == Ok::<Duration, TickError>((now - earlier) as Duration),
        earlier > now ==> r == Err::<Duration, TickError>(TickError::ClockNonMonotonic),
{
    if earlier <= now {
        Ok(now - earlier)
    } else {
        Err(TickError::ClockNonMonotonic)
    }
}

} // verus!
