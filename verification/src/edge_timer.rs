//! Rising-edge debounce timer: tracks when a monitored boolean condition most
//! recently transitioned from false to true, and reports the condition as
//! stable once a configured minimum duration has elapsed since that edge
//! without the condition lapsing to false.

use vstd::prelude::*;

use crate::clock::{duration_since, Duration, TickError, Timestamp};

verus! {

/// Debounce timer for one monitored boolean condition.
///
/// `edge_time` is the time the condition most recently transitioned from
/// false to true; it is updated only on an observed rising edge, never while
/// the condition stays continuously true or false. `previous_level` is the
/// level seen by the latest observation.
#[derive(Clone, Copy, Debug, PartialEq, Eq, Structural)]
pub struct EdgeTimer {
    pub edge_time: Timestamp,
    pub previous_level: bool,
}

impl EdgeTimer {
    /// The freshly initialized timer: epoch sentinel edge time, level low.
    pub open spec fn epoch() -> EdgeTimer {
        EdgeTimer { edge_time: 0, previous_level: false }
    }

    /// The timer state after one observation of `level` at `now`.
    pub open spec fn observed(self, level: bool, now: Timestamp) -> EdgeTimer {
        EdgeTimer {
            edge_time: if level && !self.previous_level {
                now
            } else {
                self.edge_time
            },
            previous_level: level,
        }
    }

    /// Whether, at `now`, at least `required_duration` has elapsed since the
    /// recorded edge. This is the value `is_stable` reports when the clock is
    /// monotonic; the caller is responsible for also re-checking the raw level.
    pub open spec fn stable_at(self, now: Timestamp, required_duration: Duration) -> bool {
        now - self.edge_time >= required_duration
    }

    pub fn new() -> (r: Self)
        ensures
            r == EdgeTimer::epoch(),
    {
        EdgeTimer { edge_time: 0, previous_level: false }
    }

    /// Feed one observation of the monitored condition into the timer: a
    /// rising edge records `now`, and the remembered level is always updated.
    pub fn observe(&mut self, current_level: bool, now: Timestamp)
        ensures
            *final(self) == old(self).observed(current_level, now),
    {
        if current_level && !self.previous_level {
            self.edge_time = now;
        }
        self.previous_level = current_level;
    }

    /// Whether at least `required_duration` has elapsed since the recorded
    /// rising edge. Fails with a `ClockNonMonotonic` fault when `now` lies
    /// before the edge, rather than silently producing a negative span.
    pub fn is_stable(&self, now: Timestamp, required_duration: Duration) -> (r: Result<
        bool,
        TickError,
    >)
        ensures
            self.edge_time <= now ==> r == Ok::<bool, TickError>(
                self.stable_at(now, required_duration),
            ),
            self.edge_time > now ==> r == Err::<bool, TickError>(TickError::ClockNonMonotonic),
    {
        match duration_since(now, self.edge_time) {
            Ok(elapsed) => Ok(elapsed >= required_duration),
            Err(fault) => Err(fault),
        }
    }
}

/// The timer state after feeding a whole sequence of `(level, time)`
/// observations, oldest first, into `init`.
pub open spec fn run(init: EdgeTimer, observations: Seq<(bool, Timestamp)>) -> EdgeTimer
    decreases observations.len(),
{
    if observations.len() == 0 {
        init
    } else {
        run(init, observations.drop_last()).observed(
            observations.last().0,
            observations.last().1,
        )
    }
}

/// The time of the most recent false-to-true edge in `observations`, or the
/// initial edge time when the sequence contains no rising edge.
pub open spec fn last_edge_time(init: EdgeTimer, observations: Seq<(bool, Timestamp)>) -> Timestamp
    decreases observations.len(),
{
    if observations.len() == 0 {
        init.edge_time
    } else if observations.last().0 && !run(init, observations.drop_last()).previous_level {
        observations.last().1
    } else {
        last_edge_time(init, observations.drop_last())
    }
}

/// The timer's recorded edge time is exactly the time of the most recent
/// false-to-true edge among the observations it was fed.
pub proof fn lemma_run_tracks_last_edge(init: EdgeTimer, observations: Seq<(bool, Timestamp)>)
    ensures
        run(init, observations).edge_time == last_edge_time(init, observations),
    decreases observations.len(),
{
    if observations.len() > 0 {
        lemma_run_tracks_last_edge(init, observations.drop_last());
    }
}

/// Debounce monotonicity law: over any sequence of `(level, time)`
/// observations with non-decreasing times, the timer never reports stability
/// before `required_duration` has elapsed since the most recent false-to-true
/// edge, and reports stability at every query time at or after that point.
/// (When the level lapses to false and rises again, the most recent edge, and
/// with it the point of stability, moves forward accordingly.)
pub proof fn lemma_debounce_monotonicity(
    init: EdgeTimer,
    observations: Seq<(bool, Timestamp)>,
    now: Timestamp,
    required_duration: Duration,
)
    requires
        forall|i: int, j: int|
            0 <= i <= j < observations.len() ==> #[trigger] observations[i].1
                <= #[trigger] observations[j].1,
        last_edge_time(init, observations) <= now,
    ensures
        run(init, observations).edge_time == last_edge_time(init, observations),
        now < last_edge_time(init, observations) + required_duration ==> !run(
            init,
            observations,
        ).stable_at(now, required_duration),
        now >= last_edge_time(init, observations) + required_duration ==> run(
            init,
            observations,
        ).stable_at(now, required_duration),
{
    lemma_run_tracks_last_edge(init, observations);
}

/// Chatter rejection law: a condition that oscillates faster than the
/// required duration never debounces. Concretely, when the condition goes
/// false between any two true observations (no two consecutive observations
/// are both true), every true observation is itself a fresh rising edge, so a
/// stability query made at that observation's time finds zero elapsed time
/// and reports unstable for every positive required duration.
pub proof fn lemma_chatter_rejection(
    init: EdgeTimer,
    observations: Seq<(bool, Timestamp)>,
    i: int,
    required_duration: Duration,
)
    requires
        !init.previous_level,
        forall|j: int|
            0 <= j < observations.len() - 1 ==> !((#[trigger] observations[j]).0
                && observations[j + 1].0),
        0 <= i < observations.len(),
        observations[i].0,
        required_duration > 0,
    ensures
        !run(init, observations.take(i + 1)).stable_at(observations[i].1, required_duration),
{
    let prefix = observations.take(i + 1);
    assert(prefix.drop_last() =~= observations.take(i));
    assert(prefix.last() == observations[i]);
    if i == 0 {
        assert(run(init, observations.take(0)) == init);
    } else {
        let shorter = observations.take(i);
        assert(shorter.last() == observations[i - 1]);
        assert(!observations[i - 1].0);
        assert(!run(init, shorter).previous_level);
    }
    assert(run(init, prefix).edge_time == observations[i].1);
}

} // verus!
