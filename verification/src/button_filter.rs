//! Button filter: debounces the head, calibration and first-head-button
//! touch conditions with rising-edge timers, relays the external tap
//! detector's chest-button result, and decides when the one-shot
//! state-transition message is handed to the network.

use vstd::prelude::*;

use crate::clock::{Duration, TickError, Timestamp};
use crate::edge_timer::EdgeTimer;
use crate::messages::{compose_message, DetectionKind, FallState, HulkMessage};
use crate::players::PlayerNumber;

verus! {

/// Raw digital touch-sensor readings for the tick.
#[derive(Clone, Copy, Debug, PartialEq, Eq, Structural)]
pub struct TouchSensors {
    pub chest_button: bool,
    pub head_front: bool,
    pub head_middle: bool,
    pub head_rear: bool,
}

/// The filter's externally visible decision record for the tick.
#[derive(Clone, Copy, Debug, PartialEq, Eq, Structural)]
pub struct Buttons {
    pub is_chest_button_pressed: bool,
    pub head_buttons_touched: bool,
    pub calibration_buttons_touched: bool,
}

/// Persistent state of the filter: one rising-edge debounce timer per
/// monitored condition. The chest button is handled by the external tap
/// detector, whose per-tick result is handed in as an input.
pub struct ButtonFilter {
    pub head_buttons_touched: EdgeTimer,
    pub calibration_buttons_touched: EdgeTimer,
    pub first_head_button_touched: EdgeTimer,
}

/// Configuration consumed when the filter is created.
pub struct CreationContext {
}

/// The inputs of one tick, handed in as plain values and read-only
/// configuration.
pub struct CycleContext {
    /// Raw touch-sensor levels sampled for this tick.
    pub touch_sensors: TouchSensors,
    /// Start time of the current control cycle.
    pub cycle_start_time: Timestamp,
    /// Minimum duration the head-button conditions must hold.
    pub head_buttons_timeout: Duration,
    /// Minimum duration the calibration-button condition must hold.
    pub calibration_buttons_timeout: Duration,
    /// Estimated time until the robot can reach a kick-ready position.
    pub time_to_reach_kick_position: Duration,
    /// The external tap detector's chest-button result for this tick.
    pub is_chest_button_single_tapped: bool,
}

/// The externally visible decision signal of the tick.
#[derive(Clone, Copy, Debug, PartialEq, Eq, Structural)]
pub struct MainOutputs {
    pub buttons: Buttons,
}

/// All three head buttons held at once.
pub open spec fn head_buttons_level(touch_sensors: TouchSensors) -> bool {
    touch_sensors.head_front && touch_sensors.head_middle && touch_sensors.head_rear
}

/// Only the front head button held.
pub open spec fn first_head_button_level(touch_sensors: TouchSensors) -> bool {
    touch_sensors.head_front && !touch_sensors.head_middle && !touch_sensors.head_rear
}

/// Chest button and front head button held at once.
pub open spec fn calibration_buttons_level(touch_sensors: TouchSensors) -> bool {
    touch_sensors.chest_button && touch_sensors.head_front
}

impl ButtonFilter {
    /// The timer states after the tick's three observations.
    pub open spec fn observed_state(self, context: CycleContext) -> ButtonFilter {
        ButtonFilter {
            head_buttons_touched: self.head_buttons_touched.observed(
                head_buttons_level(context.touch_sensors),
                context.cycle_start_time,
            ),
            calibration_buttons_touched: self.calibration_buttons_touched.observed(
                calibration_buttons_level(context.touch_sensors),
                context.cycle_start_time,
            ),
            first_head_button_touched: self.first_head_button_touched.observed(
                first_head_button_level(context.touch_sensors),
                context.cycle_start_time,
            ),
        }
    }

    /// Clock fault while debouncing the head-buttons condition: the level is
    /// high but its recorded edge lies in the future of the tick.
    pub open spec fn head_fault(self, context: CycleContext) -> bool {
        head_buttons_level(context.touch_sensors)
            && self.observed_state(context).head_buttons_touched.edge_time
            > context.cycle_start_time
    }

    /// Clock fault while debouncing the first-head-button condition.
    pub open spec fn first_head_fault(self, context: CycleContext) -> bool {
        first_head_button_level(context.touch_sensors)
            && self.observed_state(context).first_head_button_touched.edge_time
            > context.cycle_start_time
    }

    /// Clock fault while debouncing the calibration condition.
    pub open spec fn calibration_fault(self, context: CycleContext) -> bool {
        calibration_buttons_level(context.touch_sensors)
            && self.observed_state(context).calibration_buttons_touched.edge_time
            > context.cycle_start_time
    }

    /// The debounced head-buttons decision for the tick.
    pub open spec fn debounced_head_buttons(self, context: CycleContext) -> bool {
        head_buttons_level(context.touch_sensors) && self.observed_state(
            context,
        ).head_buttons_touched.stable_at(context.cycle_start_time, context.head_buttons_timeout)
    }

    /// The debounced first-head-button decision for the tick; it triggers
    /// the outbound state-transition message.
    pub open spec fn debounced_first_head_button(self, context: CycleContext) -> bool {
        first_head_button_level(context.touch_sensors) && self.observed_state(
            context,
        ).first_head_button_touched.stable_at(context.cycle_start_time, context.head_buttons_timeout)
    }

    /// The debounced calibration decision for the tick.
    pub open spec fn debounced_calibration_buttons(self, context: CycleContext) -> bool {
        calibration_buttons_level(context.touch_sensors) && self.observed_state(
            context,
        ).calibration_buttons_touched.stable_at(
            context.cycle_start_time,
            context.calibration_buttons_timeout,
        )
    }

    /// The message the tick hands to the transport: the one-shot
    /// state-transition payload, sent every tick the debounced
    /// first-head-button condition holds; there is no send-once latch.
    pub open spec fn expected_message(self, context: CycleContext) -> Option<HulkMessage> {
        if self.debounced_first_head_button(context) {
            Some(HulkMessage {
                player_number: PlayerNumber::Seven,
                fallen: false,
                kind: DetectionKind::StateTransition,
                time_to_reach_kick_position: Some(context.time_to_reach_kick_position),
            })
        } else {
            None
        }
    }

    pub fn new(_context: CreationContext) -> (r: Self)
        ensures
            r.head_buttons_touched == EdgeTimer::epoch(),
            r.calibration_buttons_touched == EdgeTimer::epoch(),
            r.first_head_button_touched == EdgeTimer::epoch(),
    {
        ButtonFilter {
            head_buttons_touched: EdgeTimer::new(),
            calibration_buttons_touched: EdgeTimer::new(),
            first_head_button_touched: EdgeTimer::new(),
        }
    }

    /// One control tick. The conditions are observed and debounced in order:
    /// head buttons, first head button (with the message decision), then
    /// calibration buttons. A clock fault aborts the tick's remaining work
    /// at the point it is observed, without mutating the later timers, and
    /// never suppresses a message decision already made.
    pub fn cycle(&mut self, context: CycleContext) -> (r: (
        Option<HulkMessage>,
        Result<MainOutputs, TickError>,
    ))
        ensures
            old(self).head_fault(context) ==> *final(self) == (ButtonFilter {
                head_buttons_touched: old(self).observed_state(context).head_buttons_touched,
                calibration_buttons_touched: old(self).calibration_buttons_touched,
                first_head_button_touched: old(self).first_head_button_touched,
            }) && r == (
                None::<HulkMessage>,
                Err::<MainOutputs, TickError>(TickError::ClockNonMonotonic),
            ),
            !old(self).head_fault(context) && old(self).first_head_fault(context) ==> *final(self)
                == (ButtonFilter {
                head_buttons_touched: old(self).observed_state(context).head_buttons_touched,
                calibration_buttons_touched: old(self).calibration_buttons_touched,
                first_head_button_touched: old(self).observed_state(
                    context,
                ).first_head_button_touched,
            }) && r == (
                None::<HulkMessage>,
                Err::<MainOutputs, TickError>(TickError::ClockNonMonotonic),
            ),
            !old(self).head_fault(context) && !old(self).first_head_fault(context) ==> *final(self)
                == old(self).observed_state(context) && r.0 == old(self).expected_message(context),
            !old(self).head_fault(context) && !old(self).first_head_fault(context) && old(
                self,
            ).calibration_fault(context) ==> r.1 == Err::<MainOutputs, TickError>(
                TickError::ClockNonMonotonic,
            ),
            !old(self).head_fault(context) && !old(self).first_head_fault(context) && !old(
                self,
            ).calibration_fault(context) ==> r.1 == Ok::<MainOutputs, TickError>(
                MainOutputs {
                    buttons: Buttons {
                        is_chest_button_pressed: context.is_chest_button_single_tapped,
                        head_buttons_touched: old(self).debounced_head_buttons(context),
                        calibration_buttons_touched: old(self).debounced_calibration_buttons(
                            context,
                        ),
                    },
                },
            ),
    {
        let now = context.cycle_start_time;
        let touch_sensors = &context.touch_sensors;

        let head_buttons_touched = touch_sensors.head_front && touch_sensors.head_middle
            && touch_sensors.head_rear;
        self.head_buttons_touched.observe(head_buttons_touched, now);
        let debounced_head_buttons_touched = if head_buttons_touched {
            match self.head_buttons_touched.is_stable(now, context.head_buttons_timeout) {
                Ok(stable) => stable,
                Err(fault) => {
                    return (None, Err(fault));
                },
            }
        } else {
            false
        };

        let first_head_button_touched = touch_sensors.head_front && !touch_sensors.head_middle
            && !touch_sensors.head_rear;
        self.first_head_button_touched.observe(first_head_button_touched, now);
        let debounced_first_head_button_touched = if first_head_button_touched {
            match self.first_head_button_touched.is_stable(now, context.head_buttons_timeout) {
                Ok(stable) => stable,
                Err(fault) => {
                    return (None, Err(fault));
                },
            }
        } else {
            false
        };

        let message = if debounced_first_head_button_touched {
            Some(
                compose_message(
                    PlayerNumber::Seven,
                    FallState::Upright,
                    DetectionKind::StateTransition,
                    Some(context.time_to_reach_kick_position),
                ),
            )
        } else {
            None
        };

        let calibration_buttons_touched = touch_sensors.chest_button && touch_sensors.head_front;
        self.calibration_buttons_touched.observe(calibration_buttons_touched, now);
        let debounced_calibration_buttons_touched = if calibration_buttons_touched {
            match self.calibration_buttons_touched.is_stable(
                now,
                context.calibration_buttons_timeout,
            ) {
                Ok(stable) => stable,
                Err(fault) => {
                    return (message, Err(fault));
                },
            }
        } else {
            false
        };

        (
            message,
            Ok(
                MainOutputs {
                    buttons: Buttons {
                        is_chest_button_pressed: context.is_chest_button_single_tapped,
                        head_buttons_touched: debounced_head_buttons_touched,
                        calibration_buttons_touched: debounced_calibration_buttons_touched,
                    },
                },
            ),
        )
    }
}

} // verus!
