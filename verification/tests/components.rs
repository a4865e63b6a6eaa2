use detection_filters::clock::{duration_since, TickError};
use detection_filters::filtered_whistle::FilteredWhistle;
use detection_filters::image_receiver::{CreationContext, ImageReceiver};
use detection_filters::joints::{ArmJoints, ArmJointsName};
use detection_filters::messages::{compose_message, DetectionKind, FallState};
use detection_filters::players::{PlayerNumber, Players};

#[test]
fn duration_since_guards_against_backwards_clocks() {
    assert_eq!(duration_since(10, 4), Ok(6));
    assert_eq!(duration_since(10, 10), Ok(0));
    assert_eq!(duration_since(4, 10), Err(TickError::ClockNonMonotonic));
}

#[test]
fn composer_builds_the_payload_from_the_robot_state() {
    let message = compose_message(
        PlayerNumber::Two,
        FallState::Upright,
        DetectionKind::GestureConsensus,
        Some(250),
    );
    assert_eq!(message.player_number, PlayerNumber::Two);
    assert!(!message.fallen);
    assert_eq!(message.kind, DetectionKind::GestureConsensus);
    assert_eq!(message.time_to_reach_kick_position, Some(250));

    let fallen = compose_message(
        PlayerNumber::Five,
        FallState::Fallen,
        DetectionKind::StateTransition,
        None,
    );
    assert!(fallen.fallen);

    let falling = compose_message(
        PlayerNumber::Five,
        FallState::Falling,
        DetectionKind::StateTransition,
        None,
    );
    assert!(!falling.fallen);
}

#[test]
fn filtered_whistle_defaults_to_no_detection() {
    let whistle = FilteredWhistle::default();
    assert!(!whistle.is_detected);
    assert!(!whistle.started_this_cycle);
    assert_eq!(whistle.last_detection, None);
}

#[test]
fn players_table_slots_are_independent() {
    let mut players: Players<Option<u64>> = Players {
        one: None,
        two: None,
        three: None,
        four: None,
        five: None,
        six: None,
        seven: None,
    };
    players.set(PlayerNumber::Six, Some(11));
    assert_eq!(*players.get(PlayerNumber::Six), Some(11));
    assert_eq!(*players.get(PlayerNumber::Seven), None);
    assert_eq!(*players.get_at(5), Some(11));
    assert_eq!(*players.get_at(0), None);
}

#[test]
fn arm_joints_fill_and_access() {
    let joints = ArmJoints::fill(3i64);
    assert_eq!(joints.shoulder_pitch, 3);
    assert_eq!(joints.shoulder_roll, 3);
    assert_eq!(joints.elbow_yaw, 3);
    assert_eq!(joints.elbow_roll, 3);
    assert_eq!(joints.wrist_yaw, 3);
    assert_eq!(joints.hand, 3);

    let mut joints = ArmJoints::fill(0.5f32);
    joints.set(ArmJointsName::WristYaw, -0.25);
    assert_eq!(*joints.get(ArmJointsName::WristYaw), -0.25);
    assert_eq!(*joints.get(ArmJointsName::Hand), 0.5);
    assert_eq!(joints.to_array(), [0.5, 0.5, 0.5, 0.5, -0.25, 0.5]);
}

#[test]
fn image_receiver_paces_frames_by_the_rate_limit() {
    // 40 frames per second: one frame each 25 ms.
    let mut receiver = ImageReceiver::new(CreationContext { now: 0 });
    assert_eq!(receiver.image_count, 0);

    // Too soon after creation.
    assert_eq!(receiver.cycle(10_000_000, 40), Ok(false));
    assert_eq!(receiver.last_frame_time, 0);

    // The interval has elapsed: the frame is due and the time is recorded.
    assert_eq!(receiver.cycle(25_000_000, 40), Ok(true));
    assert_eq!(receiver.last_frame_time, 25_000_000);
    assert_eq!(receiver.last_cycle_start, 25_000_000);

    // Immediately afterwards: too soon again.
    assert_eq!(receiver.cycle(30_000_000, 40), Ok(false));

    // A clock running backwards is a fault and leaves the state unchanged.
    assert_eq!(receiver.cycle(1_000_000, 40), Err(TickError::ClockNonMonotonic));
    assert_eq!(receiver.last_frame_time, 25_000_000);
}
