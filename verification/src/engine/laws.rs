//! What holds of the engine, in terms of what goes in and what comes out.

use crate::calibration::{Calibration, Framing, Lens};
use crate::detector::{CameraId, nv12_seen, yuv_seen};
use crate::engine::submit::{
    aimed, atlas_finished, atlas_recorded, atlas_written_out, detected, dispatched, finished,
    nv12_tap, recorded, ring_advanced, submitted, taken_up, ticked, written_out,
};
use crate::engine::{
    CoverageBoundary, DispatchStats, EngineState, FrameSet, PoseRequest, Route, StackedAtlas,
    StackedReplayGpuRecorder, StackedReplayRecorder, StitchCoreError, SubmitPlan, config_error,
    decided_pose, lesser, replay_took, with_lenses,
};
use crate::number::{Real32, Real64};
use crate::panner::{DispatchContext, DispatchResult, TrackState, WorldState};
use crate::planes::YuvPlanes;
use crate::pose::{Pose, ViewportPosition};
use crate::replay::{ReplayBuffer, ReplayFrame, law_push_drops_what_left_the_window};
use crate::ring::ReadbackRing;
use crate::time::Duration;
use vstd::prelude::*;

verus! {

/// A panner's decision is asked for as it is: its pan as the pan, its tilt as the tilt, and
/// its field of view, or 75 degrees where it has none.
pub proof fn law_decision_is_asked_for_as_it_is(position: ViewportPosition)
    ensures
        decided_pose(position).yaw == position.yaw,
        decided_pose(position).pitch == position.pitch,
        position.fov_degrees matches Some(fov) ==> decided_pose(position).fov_degrees == fov,
        position.fov_degrees is None ==> decided_pose(position).fov_degrees.bits == 0x4296_0000,
{
}

/// Of two numbers the lesser is one of them, and neither is below it. Where one is no
/// number it is the other.
pub proof fn law_lesser_is_the_lesser(a: Real32, b: Real32)
    ensures
        lesser(a, b) == a || lesser(a, b) == b,
        !a.below(lesser(a, b)),
        !b.below(lesser(a, b)),
        a.nan() ==> lesser(a, b) == b,
        b.nan() && !a.nan() ==> lesser(a, b) == a,
{
}

/// Within a stitched area the camera looks exactly where the geometry says, in pan and in
/// tilt, and as wide as asked but no wider than the area allows. Without one the pose stays.
pub proof fn law_clamped_pose_is_the_geometrys(
    state: EngineState,
    pose: Pose,
    yaw: Real32,
    pitch: Real32,
)
    ensures
        state.coverage is None ==> state.clamped(pose, yaw, pitch) == pose,
        state.coverage matches Some(c) ==> ({
            let clamped = state.clamped(pose, yaw, pitch);
            &&& clamped.yaw == yaw
            &&& clamped.pitch == pitch
            &&& !pose.fov_degrees.nan() && !c.max_fov_degrees.below(pose.fov_degrees)
                ==> clamped.fov_degrees == pose.fov_degrees
            &&& c.max_fov_degrees.below(pose.fov_degrees) ==> clamped.fov_degrees
                == c.max_fov_degrees
            &&& pose.fov_degrees.nan() ==> clamped.fov_degrees == c.max_fov_degrees
        }),
{
}

/// What is rendered looks where the geometry says, in pan and in tilt. A camera that may
/// leave the stitched area keeps the field of view that was asked for.
pub proof fn law_rendered_pose_is_the_geometrys(
    state: EngineState,
    request: PoseRequest,
    yaw: Real32,
    pitch: Real32,
)
    ensures
        ({
            let pose = state.resolved(request, yaw, pitch);
            &&& !request.constrain ==> pose.yaw == yaw && pose.pitch == pitch
                && pose.fov_degrees == request.raw.fov_degrees
            &&& request.constrain && state.coverage is Some ==> pose.yaw == yaw && pose.pitch
                == pitch
            &&& request.constrain && state.coverage is None ==> pose == request.raw
            &&& request.constrain ==> (state.coverage matches Some(c) ==> !c.max_fov_degrees.nan()
                ==> !c.max_fov_degrees.below(pose.fov_degrees))
        }),
{
    if let Some(c) = state.coverage {
        law_lesser_is_the_lesser(request.raw.fov_degrees, c.max_fov_degrees);
    }
}

/// A session starts once: with its first submit. Later ones leave the start where it is,
/// however often and whenever they come.
pub proof fn law_session_starts_once(state: EngineState, first: Duration, later: Duration)
    ensures
        state.start is Some ==> state.anchored(later) == state.start,
        state.start is None ==> state.anchored(first) == Some(first),
        (EngineState { start: state.anchored(first), ..state }).anchored(later)
            == state.anchored(first),
{
}

/// A frame's capture time counts from the first submit of the session: two frames are as
/// far apart in the replay as in time.
pub proof fn law_capture_time_counts_from_the_first_submit(
    state: EngineState,
    first: Duration,
    earlier: Duration,
    later: Duration,
)
    requires
        state.start is None,
        first.nanos <= earlier.nanos <= later.nanos,
    ensures
        ({
            let started = EngineState { start: state.anchored(first), ..state };
            let running = EngineState { start: started.anchored(earlier), ..started };
            &&& started.elapsed(first) == 0
            &&& running.elapsed(later) + first.nanos == later.nanos
            &&& running.elapsed(later) - running.elapsed(earlier) == later.nanos - earlier.nanos
        }),
{
}

/// A clock that goes back does not make a capture time, and before the first submit there
/// is none.
pub proof fn law_capture_time_never_goes_below_nothing(state: EngineState, now: Duration)
    ensures
        state.start is None ==> state.elapsed(now) == 0,
        state.start matches Some(s) ==> (now.nanos <= s.nanos ==> state.elapsed(now) == 0),
        state.start matches Some(s) ==> (s.nanos <= now.nanos ==> state.elapsed(now) + s.nanos
            == now.nanos),
{
}

/// The processor renders any set of frames; the device renders pairs and nothing else.
pub proof fn law_frames_go_where_they_can_be_rendered(state: EngineState, cameras: nat)
    ensures
        state.kind is Cpu ==> state.route(cameras) == Route::Cpu,
        state.kind is Gpu && cameras == 2 ==> state.route(cameras) == Route::Gpu,
        state.kind is Gpu && cameras != 2 ==> state.route(cameras) == Route::NotWired,
{
}

/// The angles of an area are its own: left, right, low and high.
pub proof fn law_extent_is_the_areas(c: CoverageBoundary)
    ensures
        c.reach().yaw_min == c.yaw_min,
        c.reach().yaw_max == c.yaw_max,
        c.reach().pitch_min == c.pitch_min,
        c.reach().pitch_max == c.pitch_max,
{
}

/// When the rig leans otherwise, the area keeps its shape and takes over both leans, rounded;
/// nothing else of the engine changes.
pub proof fn law_leaning_changes_the_margins_alone(state: EngineState, framing: Framing)
    ensures
        ({
            let after = state.leaning(framing);
            &&& after.framing == framing
            &&& state.coverage is None ==> after.coverage is None
            &&& state.coverage matches Some(c) ==> (after.coverage matches Some(d)
                && framing.tilt.narrows_to(d.rig_tilt) && framing.roll.narrows_to(d.rig_roll)
                && d.reach() == c.reach() && d.max_fov_degrees == c.max_fov_degrees)
            &&& after == (EngineState { framing, coverage: after.coverage, ..state })
        }),
{
    crate::number::lemma_narrowing_exists(framing.tilt);
    crate::number::lemma_narrowing_exists(framing.roll);
}

/// Replacing lenses replaces the left camera's by the left one and the right camera's by the
/// right one, where one is given, and no other.
pub proof fn law_lenses_are_replaced_by_their_own(
    lenses: Seq<Lens>,
    left: Option<Lens>,
    right: Option<Lens>,
    i: int,
)
    requires
        left is Some ==> lenses.len() > 0,
        right is Some ==> lenses.len() > 1,
        0 <= i < lenses.len(),
    ensures
        with_lenses(lenses, left, right).len() == lenses.len(),
        with_lenses(lenses, left, right)[i] == (if i == 0 && left is Some {
            left->0
        } else if i == 1 && right is Some {
            right->0
        } else {
            lenses[i]
        }),
{
}

/// The active calibration is the engine's in every part.
pub proof fn law_active_calibration_is_complete(state: EngineState, calibration: Calibration)
    requires
        state.calibrated(calibration),
    ensures
        calibration.schema_version == state.schema_version,
        calibration.lenses@ == state.lenses,
        calibration.topology == state.topology,
        calibration.framing == state.framing,
        calibration.sync_offset == state.sync_offset,
        calibration.field_roi == state.field_roi,
{
}

/// A detector gets both frames of a pair, the first as the left camera's and the second as
/// the right camera's.
pub proof fn law_pairs_are_shown_left_first(frames: FrameSet<'_>, width: u32, height: u32)
    requires
        frames.cameras() == 2,
    ensures
        frames.seen(width, height).len() == 2,
        frames.seen(width, height)[0].0 == CameraId::Left,
        frames.seen(width, height)[1].0 == CameraId::Right,
        frames matches FrameSet::Yuv420p(v) ==> v@.len() == 2 && frames.seen(width, height)[0].1
            == yuv_seen(v@[0], width, height) && frames.seen(width, height)[1].1 == yuv_seen(
            v@[1],
            width,
            height,
        ),
        frames matches FrameSet::Nv12(v) ==> v@.len() == 2 && frames.seen(width, height)[0].1
            == nv12_seen(v@[0], width, height) && frames.seen(width, height)[1].1 == nv12_seen(
            v@[1],
            width,
            height,
        ),
{
}

/// What is kept for replay is the picture that was delivered, with its capture time and its
/// pose, at the end; what has left the window is gone and the rest is as it was.
pub proof fn law_delivered_pictures_are_kept(
    before: ReplayBuffer,
    after: Option<ReplayBuffer>,
    rgba: Seq<u8>,
    at: nat,
    pose: Pose,
)
    requires
        replay_took(Some(before), after, rgba, at, pose),
    ensures
        after is Some,
        after->0.window() == before.window(),
        after->0@.len() > 0,
        after->0@.last().rgba@ == rgba,
        after->0@.last().captured_at.nanos == at,
        after->0@.last().pose == pose,
        after->0@.len() <= before@.len() + 1,
        forall|i: int|
            0 <= i < after->0@.len() - 1 ==> #[trigger] after->0@[i] == before@[i + before@.len()
                + 1 - after->0@.len()],
        forall|i: int|
            0 <= i < before@.len() + 1 - after->0@.len() ==> (
            #[trigger] before@[i]).captured_at.nanos + before.window().nanos < at,
        after->0@.first().captured_at.nanos + before.window().nanos >= at,
{
    let kept = after->0;
    let f = choose|f: ReplayFrame|
        {
            &&& f.rgba@ == rgba
            &&& f.captured_at@ == at
            &&& f.pose == pose
            &&& kept@ == #[trigger] crate::replay::replay_pushed(
                before@,
                f,
                before.window()@,
            )
        };
    law_push_drops_what_left_the_window(before@, f, before.window()@);
    let all = before@.push(f);
    let gone = all.len() - kept@.len();
    assert(kept@[kept@.len() - 1] == all[all.len() - 1]);
    assert forall|i: int| 0 <= i < kept@.len() - 1 implies #[trigger] kept@[i] == before@[i
        + before@.len() + 1 - kept@.len()] by {
        assert(kept@[i] == all[i + gone]);
    }
    assert forall|i: int| 0 <= i < gone implies (#[trigger] before@[i]).captured_at.nanos
        + before.window().nanos < at by {
        assert(all[i] == before@[i]);
        assert(all[i].captured_at.nanos + before.window()@ < f.captured_at.nanos);
    }
    assert(kept@[0] == all[gone]);
}

/// Without a replay buffer nothing is kept.
pub proof fn law_nothing_is_kept_without_a_buffer(
    after: Option<ReplayBuffer>,
    rgba: Seq<u8>,
    at: nat,
    pose: Pose,
)
    requires
        replay_took(None, after, rgba, at, pose),
    ensures
        after is None,
{
}

/// A configuration error says what it was made with.
pub proof fn law_configuration_errors_say_why(error: StitchCoreError, text: Seq<char>)
    requires
        config_error(error, text),
    ensures
        error is Config,
        error->Config_0@ == text,
        error.text() == "config: "@ + text,
{
}

/// The numbers that a frame is reported with are those of its world: as many tracks as
/// players, and a ball if there is one that is not lost.
pub proof fn law_reported_numbers_are_the_worlds(
    state: EngineState,
    ctx: DispatchContext<'_>,
    future: &[WorldState],
    result: DispatchResult,
)
    requires
        dispatched(state, ctx, future, result),
    ensures
        state.panner is Some,
        result.active_tracks == result.world_state.players@.len() as u32,
        result.ball_present <==> (result.world_state.ball matches Some(b) && b.state
            == TrackState::Tracking),
        state.player_tracker is None ==> result.world_state.players@.len() == 0,
        state.ball_tracker is None ==> result.world_state.ball is None,
{
}

/// Running the trackers and the panner changes them, what they are remembered by and what
/// they are reported to, and nothing else. What is decided is what is remembered; without a
/// panner nothing is.
pub proof fn law_tick_remembers_the_decision(
    before: EngineState,
    after: EngineState,
    index: u64,
    timestamp_ms: Real64,
    stats: DispatchStats,
)
    requires
        ticked(before, after, index, timestamp_ms, stats),
    ensures
        stats.pose is Some <==> before.panner is Some,
        stats.pose matches Some(pose) ==> after.previous == pose,
        stats.pose is None ==> {
            &&& after.previous == before.previous
            &&& after.player_tracker == before.player_tracker
            &&& after.ball_tracker == before.ball_tracker
            &&& stats.active_tracks == 0
            &&& !stats.ball_present
        },
        stats.detections == before.detections.len() as u32,
        after.detections == before.detections,
        after.detector == before.detector,
        after.frame_count == before.frame_count,
        after.start == before.start,
        after.coverage == before.coverage,
        after.framing == before.framing,
        after.replay == before.replay,
        after.recorder == before.recorder,
        after.frame == before.frame,
        after.readback == before.readback,
        after.constrained == before.constrained,
        after.panner is Some <==> before.panner is Some,
        after.sink is Some <==> before.sink is Some,
        after.player_tracker is Some <==> before.player_tracker is Some,
        after.ball_tracker is Some <==> before.ball_tracker is Some,
{
}

/// The camera is aimed where the panner decided, which is also what is remembered: the same
/// pan, the same tilt, and its field of view or 75 degrees. Without a panner it looks
/// straight ahead.
pub proof fn law_camera_is_aimed_where_the_panner_decided(
    before: EngineState,
    after: EngineState,
    timestamp_ms: Real64,
    request: PoseRequest,
)
    requires
        aimed(before, after, timestamp_ms, request),
    ensures
        request.constrain == before.constrained,
        before.panner is Some ==> {
            &&& request.raw.yaw == after.previous.yaw
            &&& request.raw.pitch == after.previous.pitch
            &&& request.raw.fov_degrees == (match after.previous.fov_degrees {
                Some(fov) => fov,
                None => Real32 { bits: 0x4296_0000 },
            })
        },
        before.panner is None ==> {
            &&& request.raw.yaw.bits == 0
            &&& request.raw.pitch.bits == 0
            &&& request.raw.fov_degrees.bits == 0x4296_0000
            &&& after.previous == before.previous
        },
        after.start == before.start,
        after.detections == before.detections,
        after.detector == before.detector,
        after.frame_count == before.frame_count,
        after.recorder == before.recorder,
        after.replay == before.replay,
        after.warned == before.warned,
        after.coverage == before.coverage,
{
    let stats = choose|stats: DispatchStats|
        {
            &&& #[trigger] ticked(before, after, before.frame_count, timestamp_ms, stats)
            &&& request.raw == decided_pose(
                match stats.pose {
                    Some(pose) => pose,
                    None => ViewportPosition {
                        yaw: Real32 { bits: 0 },
                        pitch: Real32 { bits: 0 },
                        fov_degrees: None,
                    },
                },
            )
        };
    law_tick_remembers_the_decision(before, after, before.frame_count, timestamp_ms, stats);
}

/// Detection runs on pairs, on one frame in every interval while a detector is attached.
/// Another set that was due is passed over and leaves what was found; the first such set is
/// told apart.
pub proof fn law_detection_runs_on_due_pairs(
    before: EngineState,
    after: EngineState,
    frames: FrameSet<'_>,
    ran: bool,
    first: bool,
)
    requires
        before.valid(),
        detected(before, after, frames, ran, first),
    ensures
        ran <==> before.detector is Some && before.frame_count % before.interval == 0
            && frames.cameras() == 2,
        first <==> before.detector is Some && before.frame_count % before.interval == 0
            && frames.cameras() != 2 && !before.warned,
        after.warned <==> before.warned || first,
        !ran ==> after.detections == before.detections && after.detector == before.detector,
        after.start == before.start,
        after.frame_count == before.frame_count,
        after.panner == before.panner,
        after.previous == before.previous,
        after.player_tracker == before.player_tracker,
        after.ball_tracker == before.ball_tracker,
        after.constrained == before.constrained,
        after.kind == before.kind,
        after.recorder == before.recorder,
        after.replay == before.replay,
        after.coverage == before.coverage,
        after.source == before.source,
{
}

/// Submitting a set of frames starts the session if it is the first, and never again; says
/// where the frames go, whether detection ran and where the camera shall look; and delivers
/// nothing yet.
pub proof fn law_submission_is_what_it_says(
    before: EngineState,
    after: EngineState,
    frames: FrameSet<'_>,
    now: Duration,
    timestamp_ms: Real64,
    plan: SubmitPlan,
)
    requires
        before.valid(),
        submitted(before, after, frames, now, timestamp_ms, plan),
    ensures
        before.start is Some ==> after.start == before.start,
        before.start is None ==> after.start == Some(now),
        after.frame_count == before.frame_count,
        after.replay == before.replay,
        after.coverage == before.coverage,
        plan.request.constrain == before.constrained,
        before.panner is Some ==> {
            &&& plan.request.raw.yaw == after.previous.yaw
            &&& plan.request.raw.pitch == after.previous.pitch
            &&& plan.request.raw.fov_degrees == (match after.previous.fov_degrees {
                Some(fov) => fov,
                None => Real32 { bits: 0x4296_0000 },
            })
        },
        before.panner is None ==> {
            &&& plan.request.raw.yaw.bits == 0
            &&& plan.request.raw.pitch.bits == 0
            &&& plan.request.raw.fov_degrees.bits == 0x4296_0000
        },
        plan.ran_detection <==> before.detector is Some && before.frame_count % before.interval
            == 0 && frames.cameras() == 2,
        plan.warn <==> before.detector is Some && before.frame_count % before.interval == 0
            && frames.cameras() != 2 && !before.warned,
        !plan.ran_detection ==> after.detections == before.detections,
        before.kind is Cpu ==> plan.route == Route::Cpu,
        before.kind is Gpu ==> plan.route == (if frames.cameras() == 2 {
            Route::Gpu
        } else {
            Route::NotWired
        }),
        before.recorder is None ==> after.recorder is None,
{
    let looked = choose|looked: EngineState|
        {
            &&& #[trigger] taken_up(
                before,
                looked,
                frames,
                now,
                plan.ran_detection,
                plan.warn,
            )
            &&& aimed(looked, after, timestamp_ms, plan.request)
        };
    let anchored = EngineState {
        start: before.anchored(now),
        recorder: looked.recorder,
        ..before
    };
    law_detection_runs_on_due_pairs(anchored, looked, frames, plan.ran_detection, plan.warn);
    law_camera_is_aimed_where_the_panner_decided(looked, after, timestamp_ms, plan.request);
}

/// A pair of three planes goes to the attached recorder: the first camera as left, the
/// second as right, with the size of the source. Nothing else is recorded.
pub proof fn law_pairs_are_recorded_as_they_came(
    before: EngineState,
    after: EngineState,
    frames: FrameSet<'_>,
    now: Duration,
    ran: bool,
    first: bool,
)
    requires
        taken_up(before, after, frames, now, ran, first),
    ensures
        before.recorder is Some && (frames matches FrameSet::Yuv420p(cams) && cams@.len() == 2)
            ==> exists|r: &mut dyn StackedReplayRecorder|
            {
                &&& #[trigger] recorded(
                    r,
                    &frames->Yuv420p_0@[0],
                    &frames->Yuv420p_0@[1],
                    before.source.0,
                    before.source.1,
                )
                &&& &*r == &*before.recorder->0
            },
        !(frames matches FrameSet::Yuv420p(cams) && cams@.len() == 2) ==> after.recorder
            == before.recorder,
        before.start is Some ==> after.start == before.start,
        before.start is None ==> after.start == Some(now),
{
}

/// A recorder is given what it is said to be given.
pub proof fn law_recorders_are_called_as_said<
    R: StackedReplayRecorder + ?Sized,
    G: StackedReplayGpuRecorder + ?Sized,
>(left: &YuvPlanes<'_>, right: &YuvPlanes<'_>, width: u32, height: u32, atlas: &StackedAtlas)
    ensures
        forall|r: &mut R| #[trigger]
            recorded(r, left, right, width, height) ==> call_ensures(
                R::record_yuv,
                (r, left, right, width, height),
                (),
            ),
        forall|r: &mut R| #[trigger] written_out(r) ==> call_ensures(R::flush, (r,), ()),
        forall|r: &mut R| #[trigger] finished(r) ==> call_ensures(R::finish, (r,), ()),
        forall|g: &mut G| #[trigger]
            atlas_recorded(g, atlas) ==> call_ensures(G::record_atlas, (g, atlas), ()),
        forall|g: &mut G| #[trigger] atlas_written_out(g) ==> call_ensures(G::flush, (g,), ()),
        forall|g: &mut G| #[trigger] atlas_finished(g) ==> call_ensures(G::finish, (g,), ()),
{
}

/// A picture for encoding is handed on as the device gave it. On a processor there is none,
/// and what the device failed of is told under the name that was given.
pub proof fn law_pictures_for_encoding_are_handed_on(
    state: EngineState,
    given: Result<Option<Vec<u8>>, String>,
    read: Result<Option<Vec<u8>>, StitchCoreError>,
    name: Seq<char>,
)
    requires
        nv12_tap(state, given, read, name),
    ensures
        state.kind is Cpu ==> (read matches Err(e) && e is RequiresGpu),
        state.kind is Gpu && given is Ok ==> read is Ok && read->Ok_0 == given->Ok_0,
        state.kind is Gpu && given is Err ==> (read matches Err(e) && e is Config && e->Config_0@
            == name + given->Err_0@),
{
}

/// Delivering on a device moves its slots on by one submit.
pub proof fn law_delivery_moves_the_slots_on(before: ReadbackRing, after: ReadbackRing)
    requires
        ring_advanced(before, after),
        before.valid(),
    ensures
        after.current_slot == (before.current_slot + 1) % 3,
        after@.last() == before.current_slot,
        before@.len() == 2 ==> after@.len() == 2 && after@[0] == before@[1],
        before@.len() < 2 ==> after@.len() == before@.len() + 1,
{
}

/// A message names the stage that failed and gives its reason.
pub proof fn law_engine_messages_name_the_stage(reason: String)
    ensures
        StitchCoreError::Executor(reason).text() == "executor: "@ + reason@,
        StitchCoreError::Pipeline(reason).text() == "pipeline: "@ + reason@,
        StitchCoreError::Readback(reason).text() == "readback: "@ + reason@,
        StitchCoreError::Config(reason).text() == "config: "@ + reason@,
        StitchCoreError::StackedPacker(reason).text() == "stacked packer: "@ + reason@,
        StitchCoreError::RequiresGpu.text()
            == "operation requires the GPU executor; this engine runs the CPU executor"@,
{
}

} // verus!
