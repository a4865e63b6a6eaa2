use detection_filters::clock::TickError;
use detection_filters::messages::{
    DetectionKind, FallState, HulkMessage, IncomingMessage, PoseKind,
};
use detection_filters::players::PlayerNumber;
use detection_filters::referee_pose_detection_filter::{
    unpack_message_tree, unpack_own_detection_tree, CreationContext, CycleContext,
    RefereePoseDetectionFilter,
};

const SECOND: u64 = 1_000_000_000;

fn spl(player_number: PlayerNumber, kind: DetectionKind) -> IncomingMessage {
    IncomingMessage::Spl(HulkMessage {
        player_number,
        fallen: false,
        kind,
        time_to_reach_kick_position: None,
    })
}

fn context(
    cycle_start_time: u64,
    network_messages: Vec<(u64, Vec<IncomingMessage>)>,
    detected_referee_pose_kinds: Vec<(u64, Vec<Option<PoseKind>>)>,
) -> CycleContext {
    CycleContext {
        cycle_start_time,
        network_messages,
        detected_referee_pose_kinds,
        fall_state: FallState::Upright,
        initial_message_grace_period: 3 * SECOND,
        minimum_above_head_arms_detections: 2,
        player_number: PlayerNumber::Four,
        referee_pose_queue_length: 5,
        minimum_number_poses_before_message: 3,
        time_to_reach_kick_position: 7 * SECOND,
    }
}

#[test]
fn teammate_evidence_reaches_the_consensus_decision() {
    let mut filter = RefereePoseDetectionFilter::new(CreationContext {
        referee_pose_queue_length: 5,
    });

    // Agent one claims the gesture at t = 0, agent two at t = 1 s.
    let messages = vec![
        (0, vec![spl(PlayerNumber::One, DetectionKind::GestureConsensus)]),
        (SECOND, vec![spl(PlayerNumber::Two, DetectionKind::GestureConsensus)]),
    ];
    let (message, outputs) = filter.cycle(context(2 * SECOND, messages, vec![]));
    assert_eq!(message, None);
    assert!(outputs.unwrap().is_referee_initial_pose_detected);
    assert_eq!(*filter.detection_times.get(PlayerNumber::One), Some(0));
    assert_eq!(*filter.detection_times.get(PlayerNumber::Two), Some(SECOND));

    // Two seconds later agent one's evidence has aged out: count 1 < 2.
    let (_, outputs) = filter.cycle(context(4 * SECOND, vec![], vec![]));
    assert!(!outputs.unwrap().is_referee_initial_pose_detected);
}

#[test]
fn non_qualifying_traffic_leaves_the_table_untouched() {
    let mut filter = RefereePoseDetectionFilter::new(CreationContext {
        referee_pose_queue_length: 5,
    });
    let messages = vec![
        (0, vec![IncomingMessage::GameController]),
        (SECOND, vec![spl(PlayerNumber::Three, DetectionKind::StateTransition)]),
    ];
    let poses = vec![(SECOND, vec![None, Some(PoseKind::Other)])];
    let (message, outputs) = filter.cycle(context(2 * SECOND, messages, poses));
    assert_eq!(message, None);
    assert!(!outputs.unwrap().is_referee_initial_pose_detected);
    assert_eq!(*filter.detection_times.get(PlayerNumber::Three), None);
    assert_eq!(*filter.detection_times.get(PlayerNumber::Four), None);
    assert_eq!(filter.own_detected_above_arm_poses_queue.len(), 0);
}

#[test]
fn local_detections_escalate_to_a_broadcast() {
    let mut filter = RefereePoseDetectionFilter::new(CreationContext {
        referee_pose_queue_length: 5,
    });

    // Two qualifying local detections: below the threshold of three.
    let poses = vec![
        (SECOND, vec![Some(PoseKind::AboveHeadArms)]),
        (2 * SECOND, vec![Some(PoseKind::AboveHeadArms)]),
    ];
    let (message, _) = filter.cycle(context(2 * SECOND, vec![], poses));
    assert_eq!(message, None);
    assert_eq!(filter.own_detected_above_arm_poses_queue.count_true(), 2);
    // The local detections were credited to this robot in the table.
    assert_eq!(*filter.detection_times.get(PlayerNumber::Four), Some(2 * SECOND));

    // A third detection meets the threshold: the message goes out.
    let poses = vec![(3 * SECOND, vec![Some(PoseKind::AboveHeadArms)])];
    let (message, outputs) = filter.cycle(context(3 * SECOND, vec![], poses));
    let message = message.expect("three recent detections must transmit");
    assert_eq!(message.player_number, PlayerNumber::Four);
    assert!(!message.fallen);
    assert_eq!(message.kind, DetectionKind::GestureConsensus);
    assert_eq!(message.time_to_reach_kick_position, Some(7 * SECOND));
    // A single agent's evidence is below the quorum of two.
    assert!(!outputs.unwrap().is_referee_initial_pose_detected);

    // No send-once latch: with the queue unchanged, the next tick
    // transmits again.
    let (message, _) = filter.cycle(context(4 * SECOND, vec![], vec![]));
    assert!(message.is_some());
}

#[test]
fn fall_state_is_reflected_in_the_broadcast() {
    let mut filter = RefereePoseDetectionFilter::new(CreationContext {
        referee_pose_queue_length: 5,
    });
    let poses = vec![(
        SECOND,
        vec![
            Some(PoseKind::AboveHeadArms),
            Some(PoseKind::AboveHeadArms),
            Some(PoseKind::AboveHeadArms),
        ],
    )];
    let mut ctx = context(SECOND, vec![], poses);
    ctx.fall_state = FallState::Fallen;
    let (message, _) = filter.cycle(ctx);
    assert!(message.expect("threshold met").fallen);
}

#[test]
fn queue_capacity_bounds_the_evidence_window() {
    let mut filter = RefereePoseDetectionFilter::new(CreationContext {
        referee_pose_queue_length: 2,
    });
    let poses = vec![(
        SECOND,
        vec![
            Some(PoseKind::AboveHeadArms),
            Some(PoseKind::AboveHeadArms),
            Some(PoseKind::AboveHeadArms),
            Some(PoseKind::AboveHeadArms),
        ],
    )];
    let mut ctx = context(SECOND, vec![], poses);
    ctx.referee_pose_queue_length = 2;
    let (message, _) = filter.cycle(ctx);
    // Four detections arrived, but the queue holds at most two: below the
    // threshold of three, so nothing is transmitted.
    assert_eq!(message, None);
    assert_eq!(filter.own_detected_above_arm_poses_queue.len(), 2);
}

#[test]
fn future_evidence_is_a_clock_fault_but_state_is_kept() {
    let mut filter = RefereePoseDetectionFilter::new(CreationContext {
        referee_pose_queue_length: 5,
    });
    let messages = vec![
        (5 * SECOND, vec![spl(PlayerNumber::One, DetectionKind::GestureConsensus)]),
    ];
    let (message, outputs) = filter.cycle(context(2 * SECOND, messages, vec![]));
    assert_eq!(message, None);
    assert_eq!(outputs, Err(TickError::ClockNonMonotonic));
    // The ingestion preceding the fault is kept; nothing was rolled back.
    assert_eq!(*filter.detection_times.get(PlayerNumber::One), Some(5 * SECOND));
}

#[test]
fn unpack_message_tree_flattens_and_filters() {
    let tree = vec![
        (
            10,
            vec![
                IncomingMessage::GameController,
                spl(PlayerNumber::One, DetectionKind::GestureConsensus),
            ],
        ),
        (20, vec![]),
        (30, vec![spl(PlayerNumber::Two, DetectionKind::StateTransition)]),
    ];
    let unpacked = unpack_message_tree(&tree);
    assert_eq!(unpacked.len(), 2);
    assert_eq!(unpacked[0].0, 10);
    assert_eq!(unpacked[0].1.player_number, PlayerNumber::One);
    assert_eq!(unpacked[1].0, 30);
    assert_eq!(unpacked[1].1.player_number, PlayerNumber::Two);
}

#[test]
fn unpack_own_detection_tree_drops_abstentions() {
    let tree = vec![
        (10, vec![None, Some(PoseKind::AboveHeadArms)]),
        (20, vec![Some(PoseKind::Other), None]),
    ];
    let unpacked = unpack_own_detection_tree(&tree);
    assert_eq!(unpacked.len(), 2);
    assert_eq!(unpacked[0], (10, PoseKind::AboveHeadArms));
    assert_eq!(unpacked[1], (20, PoseKind::Other));
}
