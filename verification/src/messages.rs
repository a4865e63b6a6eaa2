//! Message and state types crossing the filter boundaries, and the outbound
//! message composer.

use vstd::prelude::*;

use crate::clock::Duration;
use crate::players::PlayerNumber;

verus! {

/// Discrete label produced by the opaque external pose classifier. Only the
/// above-head-arms pose qualifies as referee evidence; every other label is
/// summarized as `Other`.
#[derive(Clone, Copy, Debug, PartialEq, Eq, Structural)]
pub enum PoseKind {
    AboveHeadArms,
    Other,
}

/// The robot's current fall state, as estimated elsewhere and handed in as a
/// read-only input snapshot for the tick.
#[derive(Clone, Copy, Debug, PartialEq, Eq, Structural)]
pub enum FallState {
    Upright,
    Falling,
    Fallen,
}

impl FallState {
    /// Whether the robot counts as fallen for outbound messages.
    pub open spec fn is_fallen(self) -> bool {
        self == FallState::Fallen
    }
}

/// Which evidence triggered an outbound message: a debounced state-transition
/// button press, or gesture-consensus evidence from the referee detection.
#[derive(Clone, Copy, Debug, PartialEq, Eq, Structural)]
pub enum DetectionKind {
    StateTransition,
    GestureConsensus,
}

/// The logical payload of one inter-robot message: sending agent, fallen
/// flag, the discriminator naming the triggering evidence, and an optional
/// estimate of the time until the robot can reach a kick-ready position.
/// (The wire message also carries a pose, identity when not otherwise known,
/// and an optional ball position; both are attached at the transport
/// boundary.)
#[derive(Clone, Copy, Debug, PartialEq, Eq)]
pub struct HulkMessage {
    pub player_number: PlayerNumber,
    pub fallen: bool,
    pub kind: DetectionKind,
    pub time_to_reach_kick_position: Option<Duration>,
}

/// One time-tagged message received from the network. Game-controller
/// traffic does not carry teammate evidence and is dropped while unpacking.
#[derive(Clone, Copy, Debug, PartialEq, Eq)]
pub enum IncomingMessage {
    GameController,
    Spl(HulkMessage),
}

/// Outbound Message Composer: pure construction of the message payload from
/// the current robot state. Handing the composed message to the network
/// transport is the caller's last responsibility.
pub fn compose_message(
    player_number: PlayerNumber,
    fall_state: FallState,
    kind: DetectionKind,
    time_to_reach_kick_position: Option<Duration>,
) -> (m: HulkMessage)
    ensures
        m == (HulkMessage {
            player_number,
            fallen: fall_state.is_fallen(),
            kind,
            time_to_reach_kick_position,
        }),
{
    HulkMessage {
        player_number,
        fallen: matches!(fall_state, FallState::Fallen),
        kind,
        time_to_reach_kick_position,
    }
}

} // verus!
