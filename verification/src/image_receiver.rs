//! Frame pacing for the camera image receiver: the per-tick decision of
//! whether enough time has elapsed since the last accepted frame to read a
//! new one. The camera read itself, and the clock reads, are performed by
//! the surrounding hardware layer, which hands in the current time.

use vstd::prelude::*;

use crate::clock::{duration_since, TickError, Timestamp};

verus! {

/// Nanoseconds per second: the frame interval for a rate limit of
/// `frame_rate_limit` frames per second is `1_000_000_000 /
/// frame_rate_limit` (rounded down).
pub const NANOSECONDS_PER_SECOND: u64 = 1_000_000_000;

/// The minimum span between two accepted frames under `frame_rate_limit`.
pub open spec fn minimum_frame_interval(frame_rate_limit: u32) -> int {
    NANOSECONDS_PER_SECOND as int / frame_rate_limit as int
}

/// Persistent state of the receiver: when the previous accepted cycle
/// started and when the last frame was accepted.
#[derive(Clone, Copy, Debug, PartialEq, Eq, Structural)]
pub struct ImageReceiver {
    pub last_cycle_start: Timestamp,
    pub image_count: u32,
    pub last_frame_time: Timestamp,
}

/// The creation-time input: the current time as read by the hardware layer.
pub struct CreationContext {
    pub now: Timestamp,
}

impl ImageReceiver {
    pub fn new(context: CreationContext) -> (r: Self)
        ensures
            r == (ImageReceiver {
                last_cycle_start: context.now,
                image_count: 0,
                last_frame_time: context.now,
            }),
    {
        ImageReceiver { last_cycle_start: context.now, image_count: 0, last_frame_time: context.now }
    }

    /// Decide whether a frame should be read this tick. Before the minimum
    /// frame interval has elapsed the tick is skipped and the state is left
    /// unchanged; otherwise the frame is due and the tick's time is
    /// recorded. A clock running backwards is a fatal fault for the tick.
    pub fn cycle(&mut self, now: Timestamp, frame_rate_limit: u32) -> (r: Result<bool, TickError>)
        requires
            frame_rate_limit > 0,
        ensures
            now < old(self).last_frame_time ==> r == Err::<bool, TickError>(
                TickError::ClockNonMonotonic,
            ) && *final(self) == *old(self),
            now >= old(self).last_frame_time && now - old(self).last_frame_time
                < minimum_frame_interval(frame_rate_limit) ==> r == Ok::<bool, TickError>(false)
                && *final(self) == *old(self),
            now >= old(self).last_frame_time && now - old(self).last_frame_time
                >= minimum_frame_interval(frame_rate_limit) ==> r == Ok::<bool, TickError>(true)
                && *final(self) == (ImageReceiver {
                last_cycle_start: now,
                image_count: old(self).image_count,
                last_frame_time: now,
            }),
    {
        let duration_since_last_frame = match duration_since(now, self.last_frame_time) {
            Ok(elapsed) => elapsed,
            Err(fault) => {
                return Err(fault);
            },
        };
        let minimum_elapsed_duration = NANOSECONDS_PER_SECOND / (frame_rate_limit as u64);
        if duration_since_last_frame < minimum_elapsed_duration {
            Ok(false)
        } else {
            self.last_frame_time = now;
            self.last_cycle_start = now;
            Ok(true)
        }
    }
}

} // verus!
