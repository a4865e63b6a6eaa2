//! Referee-gesture consensus filter: correlates the local pose classifier's
//! output with teammates' broadcast claims over a sliding time window, emits
//! the externally visible consensus decision each tick, and escalates to a
//! network broadcast once enough recent local detections have accumulated.

use vstd::prelude::*;

use crate::clock::{Duration, TickError, Timestamp};
use crate::correlator::{ingest, ingested, Sample};
use crate::detection_queue::{count_true_spec, pushed, truncated, DetectionQueue};
use crate::messages::{
    compose_message, DetectionKind, FallState, HulkMessage, IncomingMessage, PoseKind,
};
use crate::players::{PlayerNumber, Players, PLAYER_COUNT};

verus! {

/// Persistent state of the filter: the per-agent table of last qualifying
/// detection times, and the bounded most-recent-first queue of local
/// above-head-arms detection outcomes.
pub struct RefereePoseDetectionFilter {
    pub detection_times: Players<Option<Timestamp>>,
    pub own_detected_above_arm_poses_queue: DetectionQueue,
}

/// Configuration consumed when the filter is created.
pub struct CreationContext {
    pub referee_pose_queue_length: usize,
}

/// The inputs of one tick, handed in as already materialized batches and
/// read-only configuration.
pub struct CycleContext {
    /// Start time of the current control cycle.
    pub cycle_start_time: Timestamp,
    /// Time-tagged batches of network messages accumulated since the
    /// previous tick, in non-decreasing time order.
    pub network_messages: Vec<(Timestamp, Vec<IncomingMessage>)>,
    /// Time-tagged batches of the local classifier's output accumulated
    /// since the previous tick; `None` means the classifier abstained.
    pub detected_referee_pose_kinds: Vec<(Timestamp, Vec<Option<PoseKind>>)>,
    /// The robot's current fall state, an immutable snapshot for the tick.
    pub fall_state: FallState,
    /// Maximum age of evidence for it to still count as recent.
    pub initial_message_grace_period: Duration,
    /// Quorum: minimum count of agents with recent evidence.
    pub minimum_above_head_arms_detections: usize,
    /// The local agent's own identity.
    pub player_number: PlayerNumber,
    /// Capacity of the sliding detection queue.
    pub referee_pose_queue_length: usize,
    /// Minimum count of recent positive local detections before an outbound
    /// message is transmitted.
    pub minimum_number_poses_before_message: usize,
    /// Estimated time until the robot can reach a kick-ready position.
    pub time_to_reach_kick_position: Duration,
}

/// The externally visible decision signal of the tick.
#[derive(Clone, Copy, Debug, PartialEq, Eq, Structural)]
pub struct MainOutputs {
    pub is_referee_initial_pose_detected: bool,
}

/// The table with no evidence recorded for any agent.
pub open spec fn empty_detection_table() -> Seq<Option<Timestamp>> {
    seq![
        Option::<Timestamp>::None,
        Option::<Timestamp>::None,
        Option::<Timestamp>::None,
        Option::<Timestamp>::None,
        Option::<Timestamp>::None,
        Option::<Timestamp>::None,
        Option::<Timestamp>::None,
    ]
}

/// Whether `entry` holds recent evidence at `now`: a recorded timestamp
/// strictly younger than `grace_period`. An age of exactly `grace_period`
/// does not count as recent.
pub open spec fn is_recent(entry: Option<Timestamp>, now: Timestamp, grace_period: Duration) -> bool {
    match entry {
        Some(t) => t <= now && now - t < grace_period,
        None => false,
    }
}

/// The number of agents whose entry holds recent evidence at `now`.
pub open spec fn recent_count(
    table: Seq<Option<Timestamp>>,
    now: Timestamp,
    grace_period: Duration,
) -> int
    decreases table.len(),
{
    if table.len() == 0 {
        0
    } else {
        recent_count(table.drop_last(), now, grace_period) + if is_recent(
            table.last(),
            now,
            grace_period,
        ) {
            1int
        } else {
            0int
        }
    }
}

/// Whether `entry` does not lie in the future of `now`.
pub open spec fn entry_in_past(entry: Option<Timestamp>, now: Timestamp) -> bool {
    match entry {
        Some(t) => t <= now,
        None => true,
    }
}

/// Whether no table entry lies in the future of `now`; a violation is a
/// fatal clock fault for the tick.
pub open spec fn table_in_past(table: Seq<Option<Timestamp>>, now: Timestamp) -> bool {
    forall|k: int| 0 <= k < table.len() ==> entry_in_past(#[trigger] table[k], now)
}

/// Counting the recent entries of a prefix grows by the next entry.
pub proof fn lemma_recent_count_take_step(
    table: Seq<Option<Timestamp>>,
    i: int,
    now: Timestamp,
    grace_period: Duration,
)
    requires
        0 <= i < table.len(),
    ensures
        recent_count(table.take(i + 1), now, grace_period) == recent_count(
            table.take(i),
            now,
            grace_period,
        ) + if is_recent(table[i], now, grace_period) {
            1int
        } else {
            0int
        },
{
    assert(table.take(i + 1).drop_last() =~= table.take(i));
    assert(table.take(i + 1).last() == table[i]);
}

/// The `(time, payload)` pairs of the SPL messages in one batch;
/// game-controller messages carry no teammate evidence and are dropped.
pub open spec fn spl_payloads(time: Timestamp, group: Seq<IncomingMessage>) -> Seq<
    (Timestamp, HulkMessage),
>
    decreases group.len(),
{
    if group.len() == 0 {
        Seq::empty()
    } else {
        spl_payloads(time, group.drop_last()) + (match group.last() {
            IncomingMessage::Spl(m) => seq![(time, m)],
            IncomingMessage::GameController => Seq::empty(),
        })
    }
}

/// All `(time, payload)` pairs of the SPL messages in a whole tree of
/// time-tagged batches, in tree order.
pub open spec fn unpacked_messages(tree: Seq<(Timestamp, Vec<IncomingMessage>)>) -> Seq<
    (Timestamp, HulkMessage),
>
    decreases tree.len(),
{
    if tree.len() == 0 {
        Seq::empty()
    } else {
        unpacked_messages(tree.drop_last()) + spl_payloads(tree.last().0, tree.last().1@)
    }
}

/// The `(time, kind)` pairs of the present classifier outputs in one batch;
/// abstentions are dropped.
pub open spec fn present_poses(time: Timestamp, group: Seq<Option<PoseKind>>) -> Seq<
    (Timestamp, PoseKind),
>
    decreases group.len(),
{
    if group.len() == 0 {
        Seq::empty()
    } else {
        present_poses(time, group.drop_last()) + (match group.last() {
            Some(kind) => seq![(time, kind)],
            None => Seq::empty(),
        })
    }
}

/// All `(time, kind)` pairs of the present classifier outputs in a whole
/// tree of time-tagged batches, in tree order.
pub open spec fn unpacked_pose_kinds(tree: Seq<(Timestamp, Vec<Option<PoseKind>>)>) -> Seq<
    (Timestamp, PoseKind),
>
    decreases tree.len(),
{
    if tree.len() == 0 {
        Seq::empty()
    } else {
        unpacked_pose_kinds(tree.drop_last()) + present_poses(tree.last().0, tree.last().1@)
    }
}

/// The correlator sample carried by one teammate message: qualifying when
/// the message reports gesture-consensus evidence.
pub open spec fn message_sample(tagged: (Timestamp, HulkMessage)) -> Sample {
    Sample {
        timestamp: tagged.0,
        qualifying: tagged.1.kind == DetectionKind::GestureConsensus,
        player_number: tagged.1.player_number,
    }
}

/// The correlator samples of a sequence of teammate messages.
pub open spec fn message_samples(messages: Seq<(Timestamp, HulkMessage)>) -> Seq<Sample>
    decreases messages.len(),
{
    if messages.len() == 0 {
        Seq::empty()
    } else {
        message_samples(messages.drop_last()).push(message_sample(messages.last()))
    }
}

/// The correlator sample carried by one local classifier output, credited to
/// the local agent: qualifying when the above-head-arms pose was seen.
pub open spec fn own_sample(tagged: (Timestamp, PoseKind), player_number: PlayerNumber) -> Sample {
    Sample {
        timestamp: tagged.0,
        qualifying: tagged.1 == PoseKind::AboveHeadArms,
        player_number,
    }
}

/// The correlator samples of a sequence of local classifier outputs.
pub open spec fn own_samples(poses: Seq<(Timestamp, PoseKind)>, player_number: PlayerNumber) -> Seq<
    Sample,
>
    decreases poses.len(),
{
    if poses.len() == 0 {
        Seq::empty()
    } else {
        own_samples(poses.drop_last(), player_number).push(own_sample(poses.last(), player_number))
    }
}

/// The sliding queue contents after pushing one `true` entry per qualifying
/// local detection, oldest first, under capacity `capacity`.
pub open spec fn queue_after(
    queue: Seq<bool>,
    poses: Seq<(Timestamp, PoseKind)>,
    capacity: nat,
) -> Seq<bool>
    decreases poses.len(),
{
    if poses.len() == 0 {
        queue
    } else {
        let prev = queue_after(queue, poses.drop_last(), capacity);
        if poses.last().1 == PoseKind::AboveHeadArms {
            pushed(prev, true, capacity)
        } else {
            prev
        }
    }
}

/// The detection table after one tick: teammate evidence is ingested first,
/// then the local detections, credited to the local agent.
pub open spec fn updated_table(table: Seq<Option<Timestamp>>, context: CycleContext) -> Seq<
    Option<Timestamp>,
> {
    ingested(
        ingested(table, message_samples(unpacked_messages(context.network_messages@))),
        own_samples(
            unpacked_pose_kinds(context.detected_referee_pose_kinds@),
            context.player_number,
        ),
    )
}

/// The sliding queue after one tick: one `true` entry per qualifying local
/// detection, then a truncation to the configured capacity.
pub open spec fn updated_queue(queue: Seq<bool>, context: CycleContext) -> Seq<bool> {
    truncated(
        queue_after(
            queue,
            unpacked_pose_kinds(context.detected_referee_pose_kinds@),
            context.referee_pose_queue_length as nat,
        ),
        context.referee_pose_queue_length as nat,
    )
}

/// The message the tick hands to the transport: present exactly when the
/// count of recent positive local detections in `queue` has reached the
/// configured threshold. The check re-fires every tick the condition holds;
/// there is no send-once latch.
pub open spec fn expected_message(context: CycleContext, queue: Seq<bool>) -> Option<HulkMessage> {
    if count_true_spec(queue) >= context.minimum_number_poses_before_message {
        Some(HulkMessage {
            player_number: context.player_number,
            fallen: context.fall_state.is_fallen(),
            kind: DetectionKind::GestureConsensus,
            time_to_reach_kick_position: Some(context.time_to_reach_kick_position),
        })
    } else {
        None
    }
}

/// Flatten a tree of time-tagged message batches into the `(time, payload)`
/// pairs of its SPL messages, dropping game-controller traffic.
pub fn unpack_message_tree(message_tree: &Vec<(Timestamp, Vec<IncomingMessage>)>) -> (r: Vec<
    (Timestamp, HulkMessage),
>)
    ensures
        r@ == unpacked_messages(message_tree@),
{
    let mut unpacked: Vec<(Timestamp, HulkMessage)> = Vec::new();
    let mut i: usize = 0;
    while i < message_tree.len()
        invariant
            i <= message_tree@.len(),
            unpacked@ == unpacked_messages(message_tree@.take(i as int)),
        decreases message_tree@.len() - i,
    {
        let time = message_tree[i].0;
        let group = &message_tree[i].1;
        let mut j: usize = 0;
        while j < group.len()
            invariant
                j <= group@.len(),
                i < message_tree@.len(),
                time == message_tree@[i as int].0,
                group@ == message_tree@[i as int].1@,
                unpacked@ == unpacked_messages(message_tree@.take(i as int)) + spl_payloads(
                    time,
                    group@.take(j as int),
                ),
            decreases group@.len() - j,
        {
            proof {
                assert(group@.take(j as int + 1).drop_last() =~= group@.take(j as int));
                assert(group@.take(j as int + 1).last() == group@[j as int]);
            }
            let ghost before = unpacked@;
            match group[j] {
                IncomingMessage::Spl(message) => {
                    unpacked.push((time, message));
                    proof {
                        assert(unpacked@ =~= before + seq![(time, message)]);
                        assert(spl_payloads(time, group@.take(j as int + 1)) =~= spl_payloads(
                            time,
                            group@.take(j as int),
                        ) + seq![(time, message)]);
                        assert(unpacked@ =~= unpacked_messages(message_tree@.take(i as int))
                            + spl_payloads(time, group@.take(j as int + 1)));
                    }
                },
                IncomingMessage::GameController => {
                    proof {
                        assert(spl_payloads(time, group@.take(j as int + 1)) =~= spl_payloads(
                            time,
                            group@.take(j as int),
                        ));
                    }
                },
            }
            j = j + 1;
        }
        proof {
            assert(group@.take(group@.len() as int) =~= group@);
            assert(message_tree@.take(i as int + 1).drop_last() =~= message_tree@.take(i as int));
            assert(message_tree@.take(i as int + 1).last() == message_tree@[i as int]);
        }
        i = i + 1;
    }
    proof {
        assert(message_tree@.take(message_tree@.len() as int) =~= message_tree@);
    }
    unpacked
}

/// Flatten a tree of time-tagged classifier batches into the `(time, kind)`
/// pairs of its present outputs, dropping abstentions.
pub fn unpack_own_detection_tree(pose_kind_tree: &Vec<(Timestamp, Vec<Option<PoseKind>>)>) -> (r:
    Vec<(Timestamp, PoseKind)>)
    ensures
        r@ == unpacked_pose_kinds(pose_kind_tree@),
{
    let mut unpacked: Vec<(Timestamp, PoseKind)> = Vec::new();
    let mut i: usize = 0;
    while i < pose_kind_tree.len()
        invariant
            i <= pose_kind_tree@.len(),
            unpacked@ == unpacked_pose_kinds(pose_kind_tree@.take(i as int)),
        decreases pose_kind_tree@.len() - i,
    {
        let time = pose_kind_tree[i].0;
        let group = &pose_kind_tree[i].1;
        let mut j: usize = 0;
        while j < group.len()
            invariant
                j <= group@.len(),
                i < pose_kind_tree@.len(),
                time == pose_kind_tree@[i as int].0,
                group@ == pose_kind_tree@[i as int].1@,
                unpacked@ == unpacked_pose_kinds(pose_kind_tree@.take(i as int)) + present_poses(
                    time,
                    group@.take(j as int),
                ),
            decreases group@.len() - j,
        {
            proof {
                assert(group@.take(j as int + 1).drop_last() =~= group@.take(j as int));
                assert(group@.take(j as int + 1).last() == group@[j as int]);
            }
            let ghost before = unpacked@;
            match group[j] {
                Some(kind) => {
                    unpacked.push((time, kind));
                    proof {
                        assert(unpacked@ =~= before + seq![(time, kind)]);
                        assert(present_poses(time, group@.take(j as int + 1)) =~= present_poses(
                            time,
                            group@.take(j as int),
                        ) + seq![(time, kind)]);
                        assert(unpacked@ =~= unpacked_pose_kinds(pose_kind_tree@.take(i as int))
                            + present_poses(time, group@.take(j as int + 1)));
                    }
                },
                None => {
                    proof {
                        assert(present_poses(time, group@.take(j as int + 1)) =~= present_poses(
                            time,
                            group@.take(j as int),
                        ));
                    }
                },
            }
            j = j + 1;
        }
        proof {
            assert(group@.take(group@.len() as int) =~= group@);
            assert(pose_kind_tree@.take(i as int + 1).drop_last() =~= pose_kind_tree@.take(
                i as int,
            ));
            assert(pose_kind_tree@.take(i as int + 1).last() == pose_kind_tree@[i as int]);
        }
        i = i + 1;
    }
    proof {
        assert(pose_kind_tree@.take(pose_kind_tree@.len() as int) =~= pose_kind_tree@);
    }
    unpacked
}

/// Turn unpacked teammate messages into correlator samples.
fn to_message_samples(messages: &Vec<(Timestamp, HulkMessage)>) -> (r: Vec<Sample>)
    ensures
        r@ == message_samples(messages@),
{
    let mut samples: Vec<Sample> = Vec::new();
    let mut i: usize = 0;
    while i < messages.len()
        invariant
            i <= messages@.len(),
            samples@ == message_samples(messages@.take(i as int)),
        decreases messages@.len() - i,
    {
        proof {
            assert(messages@.take(i as int + 1).drop_last() =~= messages@.take(i as int));
            assert(messages@.take(i as int + 1).last() == messages@[i as int]);
        }
        let (time, message) = messages[i];
        samples.push(
            Sample {
                timestamp: time,
                qualifying: message.kind == DetectionKind::GestureConsensus,
                player_number: message.player_number,
            },
        );
        i = i + 1;
    }
    proof {
        assert(messages@.take(messages@.len() as int) =~= messages@);
    }
    samples
}

/// Whether `earlier_time` still lies within `grace_period` of
/// `cycle_start_time`: strictly younger than the grace period. Reports a
/// `ClockNonMonotonic` fault when `earlier_time` lies in the future.
pub fn is_in_grace_period(
    cycle_start_time: Timestamp,
    earlier_time: Timestamp,
    grace_period: Duration,
) -> (r: Result<bool, TickError>)
    ensures
        earlier_time <= cycle_start_time ==> r == Ok::<bool, TickError>(
            cycle_start_time - earlier_time < grace_period,
        ),
        earlier_time > cycle_start_time ==> r == Err::<bool, TickError>(
            TickError::ClockNonMonotonic,
        ),
{
    match crate::clock::duration_since(cycle_start_time, earlier_time) {
        Ok(elapsed) => Ok(elapsed < grace_period),
        Err(fault) => Err(fault),
    }
}

/// Quorum decision: true iff at least `minimum_above_head_arms_detections`
/// agents hold evidence strictly younger than the grace period. A pure,
/// stateless function of the table and the current time, re-evaluated fully
/// every tick; an entry in the future of `cycle_start_time` is a fatal clock
/// fault, not merely "not recent".
pub fn decide(
    pose_detection_times: Players<Option<Timestamp>>,
    cycle_start_time: Timestamp,
    initial_message_grace_period: Duration,
    minimum_above_head_arms_detections: usize,
) -> (r: Result<bool, TickError>)
    ensures
        table_in_past(pose_detection_times@, cycle_start_time) ==> r == Ok::<bool, TickError>(
            recent_count(pose_detection_times@, cycle_start_time, initial_message_grace_period)
                >= minimum_above_head_arms_detections,
        ),
        !table_in_past(pose_detection_times@, cycle_start_time) ==> r == Err::<bool, TickError>(
            TickError::ClockNonMonotonic,
        ),
{
    let mut detected: usize = 0;
    let mut i: usize = 0;
    while i < PLAYER_COUNT
        invariant
            i <= PLAYER_COUNT,
            pose_detection_times@.len() == PLAYER_COUNT,
            detected == recent_count(
                pose_detection_times@.take(i as int),
                cycle_start_time,
                initial_message_grace_period,
            ),
            detected <= i,
            forall|k: int|
                0 <= k < i ==> entry_in_past(#[trigger] pose_detection_times@[k], cycle_start_time),
        decreases PLAYER_COUNT - i,
    {
        proof {
            lemma_recent_count_take_step(
                pose_detection_times@,
                i as int,
                cycle_start_time,
                initial_message_grace_period,
            );
        }
        match pose_detection_times.get_at(i) {
            Some(detection_time) => {
                match is_in_grace_period(
                    cycle_start_time,
                    *detection_time,
                    initial_message_grace_period,
                ) {
                    Ok(true) => {
                        detected = detected + 1;
                    },
                    Ok(false) => {
                    },
                    Err(fault) => {
                        proof {
                            assert(!entry_in_past(
                                pose_detection_times@[i as int],
                                cycle_start_time,
                            ));
                        }
                        return Err(fault);
                    },
                }
            },
            None => {
            },
        }
        i = i + 1;
    }
    proof {
        assert(pose_detection_times@.take(PLAYER_COUNT as int) =~= pose_detection_times@);
    }
    Ok(detected >= minimum_above_head_arms_detections)
}

impl RefereePoseDetectionFilter {
    pub fn new(context: CreationContext) -> (r: Self)
        ensures
            r.detection_times@ == empty_detection_table(),
            r.own_detected_above_arm_poses_queue@ == Seq::<bool>::empty(),
    {
        RefereePoseDetectionFilter {
            detection_times: Players {
                one: None,
                two: None,
                three: None,
                four: None,
                five: None,
                six: None,
                seven: None,
            },
            own_detected_above_arm_poses_queue: DetectionQueue::with_capacity(
                context.referee_pose_queue_length,
            ),
        }
    }

    /// Ingest the tick's batches into the table and the sliding queue, and
    /// decide whether an outbound message is transmitted this tick.
    fn update(&mut self, context: &CycleContext) -> (r: Option<HulkMessage>)
        ensures
            final(self).detection_times@ == updated_table(old(self).detection_times@, *context),
            final(self).own_detected_above_arm_poses_queue@ == updated_queue(
                old(self).own_detected_above_arm_poses_queue@,
                *context,
            ),
            r == expected_message(
                *context,
                updated_queue(old(self).own_detected_above_arm_poses_queue@, *context),
            ),
    {
        let time_tagged_persistent_messages = unpack_message_tree(&context.network_messages);
        let message_batch = to_message_samples(&time_tagged_persistent_messages);
        ingest(&mut self.detection_times, &message_batch);

        let own_detected_pose_times = unpack_own_detection_tree(
            &context.detected_referee_pose_kinds,
        );
        let ghost table_mid = self.detection_times@;
        let ghost queue_start = self.own_detected_above_arm_poses_queue@;
        let mut i: usize = 0;
        while i < own_detected_pose_times.len()
            invariant
                i <= own_detected_pose_times@.len(),
                self.detection_times@ == ingested(
                    table_mid,
                    own_samples(own_detected_pose_times@.take(i as int), context.player_number),
                ),
                self.own_detected_above_arm_poses_queue@ == queue_after(
                    queue_start,
                    own_detected_pose_times@.take(i as int),
                    context.referee_pose_queue_length as nat,
                ),
            decreases own_detected_pose_times@.len() - i,
        {
            proof {
                let full = own_detected_pose_times@;
                assert(full.take(i as int + 1).drop_last() =~= full.take(i as int));
                assert(full.take(i as int + 1).last() == full[i as int]);
                let prefix_samples = own_samples(full.take(i as int), context.player_number);
                let step_samples = own_samples(full.take(i as int + 1), context.player_number);
                assert(step_samples == prefix_samples.push(
                    own_sample(full[i as int], context.player_number),
                ));
                assert(step_samples.drop_last() =~= prefix_samples);
            }
            let (time, detection) = own_detected_pose_times[i];
            if detection == PoseKind::AboveHeadArms {
                self.own_detected_above_arm_poses_queue.push(
                    true,
                    context.referee_pose_queue_length,
                );
                self.detection_times.set(context.player_number, Some(time));
            }
            i = i + 1;
        }
        proof {
            assert(own_detected_pose_times@.take(own_detected_pose_times@.len() as int)
                =~= own_detected_pose_times@);
        }
        self.own_detected_above_arm_poses_queue.truncate(context.referee_pose_queue_length);

        let detected_referee_pose_count = self.own_detected_above_arm_poses_queue.count_true();
        if detected_referee_pose_count >= context.minimum_number_poses_before_message {
            Some(
                compose_message(
                    context.player_number,
                    context.fall_state,
                    DetectionKind::GestureConsensus,
                    Some(context.time_to_reach_kick_position),
                ),
            )
        } else {
            None
        }
    }

    /// One control tick: ingest the tick's evidence, then re-evaluate the
    /// consensus decision. The first component of the result is the message
    /// the caller hands to the network transport before acting on the
    /// second; a clock fault in the consensus evaluation never suppresses a
    /// message whose escalation threshold was already met.
    pub fn cycle(&mut self, context: CycleContext) -> (r: (
        Option<HulkMessage>,
        Result<MainOutputs, TickError>,
    ))
        ensures
            final(self).detection_times@ == updated_table(old(self).detection_times@, context),
            final(self).own_detected_above_arm_poses_queue@ == updated_queue(
                old(self).own_detected_above_arm_poses_queue@,
                context,
            ),
            r.0 == expected_message(
                context,
                updated_queue(old(self).own_detected_above_arm_poses_queue@, context),
            ),
            table_in_past(
                updated_table(old(self).detection_times@, context),
                context.cycle_start_time,
            ) ==> r.1 == Ok::<MainOutputs, TickError>(
                MainOutputs {
                    is_referee_initial_pose_detected: recent_count(
                        updated_table(old(self).detection_times@, context),
                        context.cycle_start_time,
                        context.initial_message_grace_period,
                    ) >= context.minimum_above_head_arms_detections,
                },
            ),
            !table_in_past(
                updated_table(old(self).detection_times@, context),
                context.cycle_start_time,
            ) ==> r.1 == Err::<MainOutputs, TickError>(TickError::ClockNonMonotonic),
    {
        let cycle_start_time = context.cycle_start_time;
        let message = self.update(&context);
        let decision = decide(
            self.detection_times,
            cycle_start_time,
            context.initial_message_grace_period,
            context.minimum_above_head_arms_detections,
        );
        match decision {
            Ok(is_detected) => (
                message,
                Ok(MainOutputs { is_referee_initial_pose_detected: is_detected }),
            ),
            Err(fault) => (message, Err(fault)),
        }
    }
}

} // verus!
