//! Submitting frames: recording, detection, pose, delivery.

use crate::detector::{
    CameraId, Detection, DetectorError, DetectorFrame, MappedDetection, PanoramaMap,
    UnifiedDetector, answered, answers_so, detect_and_place, gathered, pair, placed_by, taken_in_turn,
    yuv_pair, yuv_seen,
};
use crate::engine::{
    DetectionTarget, DispatchStats, EngineState, ExecutorKind, FrameSet, InputFormat, PackPlan,
    PoseRequest, RenderOutcome, RenderRequest, Route, StackPacker, StackedAtlas,
    StackedReplayGpuRecorder, StackedReplayRecorder, StitchCore, StitchCoreError, SubmitPlan,
    config_error, decided, decided_pose, replay_took,
};
use crate::number::{Real32, Real64};
use crate::panner::{
    DispatchContext, DispatchResult, PanContext, Panner, PipelineEvent, PipelineEventSink,
    TrackedEntity, Tracker, WorldState, ball_of, decide_with, dispatch, dispatch_detect_only,
    explained, followed, has_ball, pan_context, panned, shown, tell, told,
};
use crate::planes::YuvPlanes;
use crate::pose::{Pose, ViewportPosition};
use crate::replay::{ReplayFrame, replay_pushed};
use crate::ring::{ReadbackRing, SubmitSlots};
use crate::text::joined;
use crate::time::Duration;
use vstd::prelude::*;

verus! {

impl StitchCore {
    /// Note when the first frame came.
    fn anchor_session_start(&mut self, now: Duration)
        ensures
            final(self)@ == (EngineState { start: old(self)@.anchored(now), ..old(self)@ }),
            old(self)@.start is Some ==> final(self)@.start == old(self)@.start,
            old(self)@.start is None ==> final(self)@.start == Some(now),
    {
        if self.session_start.is_none() {
            self.session_start = Some(now);
        }
    }

    /// Run the detector over the frames, place what it finds in the panorama,
    /// and keep that for the trackers. Each frame is put to the detector once, in
    /// order. Frames on which the detector fails add nothing. Without a detector
    /// nothing happens.
    #[verifier::spinoff_prover]
    pub fn run_detection_frames<M: PanoramaMap>(
        &mut self,
        frames: &[(CameraId, DetectorFrame<'_>)],
        geometry: &M,
    )
        ensures
            final(self)@ == (EngineState {
                detector: final(self)@.detector,
                detections: final(self)@.detections,
                ..old(self)@
            }),
            match (old(self)@.detector, final(self)@.detector) {
                (Some(before), Some(after)) => exists|
                    turns: Seq<Box<dyn UnifiedDetector>>,
                    answers: Seq<Result<Vec<Detection>, DetectorError>>,
                |
                    {
                        &&& #[trigger] taken_in_turn(turns, frames@, answers)
                        &&& turns.first() == before
                        &&& turns.last() == after
                        &&& placed_by(geometry, gathered(answers), final(self)@.detections)
                        &&& forall|i: int|
                            0 <= i < frames@.len() && #[trigger] answers_so(
                                &*turns[i],
                                frames@[i].0,
                                &frames@[i].1,
                                answers[i],
                            ) ==> exists|d: &mut dyn UnifiedDetector|
                                {
                                    &&& #[trigger] answered(
                                        d,
                                        frames@[i].0,
                                        &frames@[i].1,
                                        answers[i],
                                    )
                                    &&& &*d == &*turns[i]
                                    &&& &*final(d) == &*turns[i + 1]
                                }
                    },
                (None, None) => final(self)@.detections == old(self)@.detections,
                _ => false,
            },
    {
        if let Some(detector) = &mut self.detector {
            self.last_detections = detect_and_place(detector, frames, geometry);
        }
    }

    /// Run the trackers and the panner on a frame, reporting the detections they
    /// start from. The sink is told of the detections, of the world, of the
    /// decision and of the panner's workings, in that order.
    #[verifier::spinoff_prover]
    pub fn dispatch_pose(&mut self, index: u64, timestamp_ms: Real64) -> (stats: DispatchStats)
        ensures
            ticked(old(self)@, final(self)@, index, timestamp_ms, stats),
            old(self)@.panner is None && old(self)@.sink is Some ==> exists|
                z: &mut dyn PipelineEventSink,
                raw: Vec<MappedDetection>,
            |
                {
                    &&& #[trigger] told(
                        z,
                        PipelineEvent::DetectionsRaw { frame_index: index, detections: raw },
                    )
                    &&& raw@ == old(self)@.detections
                    &&& &*z == &*old(self)@.sink->0
                    &&& &*final(z) == &*final(self)@.sink->0
                },
            old(self)@.panner matches Some(panner) ==> exists|
                ctx: DispatchContext<'_>,
                future: &[WorldState],
                result: DispatchResult,
            |
                {
                    &&& #[trigger] dispatched(old(self)@, ctx, future, result)
                    &&& ctx.detections@ == old(self)@.detections
                    &&& old(self)@.calibrated(*ctx.calibration)
                    &&& ctx.frame_index == index
                    &&& ctx.timestamp_ms == timestamp_ms
                    &&& future@.len() == 0
                    &&& stats.pose == Some(result.pose)
                    &&& stats.active_tracks == result.active_tracks
                    &&& stats.ball_present == result.ball_present
                    &&& old(self)@.player_tracker matches Some(p) ==> exists|
                        t: &mut dyn Tracker,
                        found: Vec<TrackedEntity>,
                    |
                        {
                            &&& #[trigger] followed(t, ctx.detections, timestamp_ms, found)
                            &&& found@ == result.world_state.players@
                            &&& &*t == &*p
                            &&& &*final(t) == &*final(self)@.player_tracker->0
                        }
                    &&& old(self)@.ball_tracker matches Some(p) ==> exists|
                        a: &mut dyn Tracker,
                        b: &mut dyn Tracker,
                        seen: WorldState,
                        found: Vec<TrackedEntity>,
                    |
                        {
                            &&& #[trigger] shown(a, &seen)
                            &&& #[trigger] followed(b, ctx.detections, timestamp_ms, found)
                            &&& seen.ball is None
                            &&& seen.players@ == result.world_state.players@
                            &&& result.world_state.ball == ball_of(found@)
                            &&& &*a == &*p
                            &&& &*b == &*final(a)
                            &&& &*final(b) == &*final(self)@.ball_tracker->0
                        }
                    &&& exists|d: &mut dyn Panner|
                        {
                            &&& #[trigger] panned(
                                d,
                                &result.world_state,
                                future,
                                pan_context(ctx, old(self)@.previous),
                                result.pose,
                            )
                            &&& &*d == &*panner
                            &&& &*final(d) == &*final(self)@.panner->0
                        }
                    &&& old(self)@.sink matches Some(sink) ==> exists|
                        z: &mut dyn PipelineEventSink,
                        a: &mut dyn PipelineEventSink,
                        b: &mut dyn PipelineEventSink,
                        raw: Vec<MappedDetection>,
                        players: Vec<TrackedEntity>,
                        debug: Option<PipelineEvent>,
                    |
                        {
                            &&& #[trigger] told(
                                z,
                                PipelineEvent::DetectionsRaw {
                                    frame_index: index,
                                    detections: raw,
                                },
                            )
                            &&& raw@ == old(self)@.detections
                            &&& #[trigger] told(
                                a,
                                PipelineEvent::WorldState {
                                    frame_index: index,
                                    timestamp_ms,
                                    players,
                                    ball: result.world_state.ball,
                                },
                            )
                            &&& players@ == result.world_state.players@
                            &&& #[trigger] told(
                                b,
                                PipelineEvent::PanDecision {
                                    frame_index: index,
                                    pose: result.pose,
                                },
                            )
                            &&& #[trigger] explained(&*final(self)@.panner->0, index, debug)
                            &&& &*z == &*sink
                            &&& &*a == &*final(z)
                            &&& &*b == &*final(a)
                            &&& match debug {
                                Some(event) => exists|c: &mut dyn PipelineEventSink|
                                    {
                                        &&& #[trigger] told(c, event)
                                        &&& &*c == &*final(b)
                                        &&& &*final(c) == &*final(self)@.sink->0
                                    },
                                None => &*final(b) == &*final(self)@.sink->0,
                            }
                        }
                },
    {
        if let Some(sink) = &mut self.event_sink {
            let detections: Vec<MappedDetection> = self.last_detections.clone();
            assert(detections@ =~= self.last_detections@);
            tell(&mut **sink, PipelineEvent::DetectionsRaw { frame_index: index, detections });
        }
        let nothing: Vec<WorldState> = Vec::new();
        let future: &[WorldState] = nothing.as_slice();
        let ctx = DispatchContext {
            detections: self.last_detections.as_slice(),
            calibration: &self.calibration,
            frame_index: index,
            timestamp_ms,
        };
        let result = dispatch(
            self.panner.as_mut(),
            self.player_tracker.as_mut(),
            self.ball_tracker.as_mut(),
            &mut self.previous_panner_pose,
            &mut self.event_sink,
            future,
            ctx,
        );
        let detections: u32 = self.last_detections.len() as u32;
        match result {
            Some(r) => {
                assert(dispatched(old(self)@, ctx, future, r));
                DispatchStats {
                    pose: Some(r.pose),
                    detections,
                    active_tracks: r.active_tracks,
                    ball_present: r.ball_present,
                }
            },
            None => DispatchStats {
                pose: None,
                detections,
                active_tracks: 0,
                ball_present: false,
            },
        }
    }

    /// Run the trackers alone on a frame.
    pub fn track_only(&mut self, index: u64, timestamp_ms: Real64) -> (world: WorldState)
        ensures
            final(self)@ == (EngineState {
                player_tracker: final(self)@.player_tracker,
                ball_tracker: final(self)@.ball_tracker,
                ..old(self)@
            }),
            match (old(self)@.player_tracker, final(self)@.player_tracker) {
                (Some(p), Some(q)) => exists|
                    t: &mut dyn Tracker,
                    given: &[MappedDetection],
                    found: Vec<TrackedEntity>,
                |
                    {
                        &&& #[trigger] followed(t, given, timestamp_ms, found)
                        &&& given@ == old(self)@.detections
                        &&& found@ == world.players@
                        &&& &*t == &*p
                        &&& &*final(t) == &*q
                    },
                (None, None) => world.players@.len() == 0,
                _ => false,
            },
            match (old(self)@.ball_tracker, final(self)@.ball_tracker) {
                (Some(p), Some(q)) => exists|
                    a: &mut dyn Tracker,
                    b: &mut dyn Tracker,
                    seen: WorldState,
                    given: &[MappedDetection],
                    found: Vec<TrackedEntity>,
                |
                    {
                        &&& #[trigger] shown(a, &seen)
                        &&& #[trigger] followed(b, given, timestamp_ms, found)
                        &&& given@ == old(self)@.detections
                        &&& seen.ball is None
                        &&& seen.players@ == world.players@
                        &&& world.ball == ball_of(found@)
                        &&& &*a == &*p
                        &&& &*b == &*final(a)
                        &&& &*final(b) == &*q
                    },
                (None, None) => world.ball is None,
                _ => false,
            },
    {
        dispatch_detect_only(
            self.player_tracker.as_mut(),
            self.ball_tracker.as_mut(),
            DispatchContext {
                detections: self.last_detections.as_slice(),
                calibration: &self.calibration,
                frame_index: index,
                timestamp_ms,
            },
        )
    }

    /// Let the panner decide for a world while it sees the following ones.
    /// Without a panner the camera stays where it was.
    pub fn decide_pose_with_lookahead(
        &mut self,
        world: &WorldState,
        futures: &[WorldState],
        index: u64,
        timestamp_ms: Real64,
    ) -> (pose: ViewportPosition)
        ensures
            final(self)@ == (EngineState {
                previous: pose,
                panner: final(self)@.panner,
                ..old(self)@
            }),
            match (old(self)@.panner, final(self)@.panner) {
                (Some(p), Some(q)) => exists|d: &mut dyn Panner, ctx: PanContext<'_>|
                    {
                        &&& ctx.frame_index == index
                        &&& ctx.timestamp_ms == timestamp_ms
                        &&& ctx.previous_position == old(self)@.previous
                        &&& old(self)@.calibrated(*ctx.calibration)
                        &&& #[trigger] panned(d, world, futures, ctx, pose)
                        &&& &*d == &*p
                        &&& &*final(d) == &*q
                    },
                (None, None) => pose == old(self)@.previous,
                _ => false,
            },
    {
        let previous: ViewportPosition = self.previous_panner_pose;
        if let Some(panner) = &mut self.panner {
            let ctx = PanContext {
                frame_index: index,
                timestamp_ms,
                previous_position: previous,
                calibration: &self.calibration,
            };
            let pose: ViewportPosition = decide_with(&mut **panner, world, futures, &ctx);
            self.previous_panner_pose = pose;
            return pose;
        }
        previous
    }

    /// Say where the camera looked last.
    pub fn set_previous_panner_pose(&mut self, pose: ViewportPosition)
        ensures
            final(self)@ == (EngineState { previous: pose, ..old(self)@ }),
    {
        self.previous_panner_pose = pose;
    }

    /// Where the camera shall look on the next frame: the trackers and the panner
    /// run on it.
    #[verifier::spinoff_prover]
    pub fn current_pose(&mut self, timestamp_ms: Real64) -> (request: PoseRequest)
        ensures
            aimed(old(self)@, final(self)@, timestamp_ms, request),
            old(self)@.panner is None && old(self)@.sink is Some ==> exists|
                z: &mut dyn PipelineEventSink,
                raw: Vec<MappedDetection>,
            |
                {
                    &&& #[trigger] told(
                        z,
                        PipelineEvent::DetectionsRaw {
                            frame_index: old(self)@.frame_count,
                            detections: raw,
                        },
                    )
                    &&& raw@ == old(self)@.detections
                    &&& &*z == &*old(self)@.sink->0
                    &&& &*final(z) == &*final(self)@.sink->0
                },
            old(self)@.panner matches Some(panner) ==> exists|
                ctx: DispatchContext<'_>,
                future: &[WorldState],
                result: DispatchResult,
            |
                {
                    &&& #[trigger] dispatched(old(self)@, ctx, future, result)
                    &&& ctx.detections@ == old(self)@.detections
                    &&& old(self)@.calibrated(*ctx.calibration)
                    &&& ctx.frame_index == old(self)@.frame_count
                    &&& ctx.timestamp_ms == timestamp_ms
                    &&& future@.len() == 0
                    &&& request.raw == decided_pose(result.pose)
                    &&& request.raw.yaw == result.pose.yaw
                    &&& request.raw.pitch == result.pose.pitch
                    &&& old(self)@.player_tracker matches Some(p) ==> exists|
                        t: &mut dyn Tracker,
                        found: Vec<TrackedEntity>,
                    |
                        {
                            &&& #[trigger] followed(t, ctx.detections, timestamp_ms, found)
                            &&& found@ == result.world_state.players@
                            &&& &*t == &*p
                            &&& &*final(t) == &*final(self)@.player_tracker->0
                        }
                    &&& old(self)@.ball_tracker matches Some(p) ==> exists|
                        a: &mut dyn Tracker,
                        b: &mut dyn Tracker,
                        seen: WorldState,
                        found: Vec<TrackedEntity>,
                    |
                        {
                            &&& #[trigger] shown(a, &seen)
                            &&& #[trigger] followed(b, ctx.detections, timestamp_ms, found)
                            &&& seen.ball is None
                            &&& seen.players@ == result.world_state.players@
                            &&& result.world_state.ball == ball_of(found@)
                            &&& &*a == &*p
                            &&& &*b == &*final(a)
                            &&& &*final(b) == &*final(self)@.ball_tracker->0
                        }
                    &&& exists|d: &mut dyn Panner|
                        {
                            &&& #[trigger] panned(
                                d,
                                &result.world_state,
                                future,
                                pan_context(ctx, old(self)@.previous),
                                result.pose,
                            )
                            &&& &*d == &*panner
                            &&& &*final(d) == &*final(self)@.panner->0
                        }
                    &&& old(self)@.sink matches Some(sink) ==> exists|
                        z: &mut dyn PipelineEventSink,
                        a: &mut dyn PipelineEventSink,
                        b: &mut dyn PipelineEventSink,
                        raw: Vec<MappedDetection>,
                        players: Vec<TrackedEntity>,
                        debug: Option<PipelineEvent>,
                    |
                        {
                            &&& #[trigger] told(
                                z,
                                PipelineEvent::DetectionsRaw {
                                    frame_index: old(self)@.frame_count,
                                    detections: raw,
                                },
                            )
                            &&& raw@ == old(self)@.detections
                            &&& #[trigger] told(
                                a,
                                PipelineEvent::WorldState {
                                    frame_index: old(self)@.frame_count,
                                    timestamp_ms,
                                    players,
                                    ball: result.world_state.ball,
                                },
                            )
                            &&& players@ == result.world_state.players@
                            &&& #[trigger] told(
                                b,
                                PipelineEvent::PanDecision {
                                    frame_index: old(self)@.frame_count,
                                    pose: result.pose,
                                },
                            )
                            &&& #[trigger] explained(
                                &*final(self)@.panner->0,
                                old(self)@.frame_count,
                                debug,
                            )
                            &&& &*z == &*sink
                            &&& &*a == &*final(z)
                            &&& &*b == &*final(a)
                            &&& match debug {
                                Some(event) => exists|c: &mut dyn PipelineEventSink|
                                    {
                                        &&& #[trigger] told(c, event)
                                        &&& &*c == &*final(b)
                                        &&& &*final(c) == &*final(self)@.sink->0
                                    },
                                None => &*final(b) == &*final(self)@.sink->0,
                            }
                        }
                },
    {
        let index: u64 = self.frame_count;
        let stats: DispatchStats = self.dispatch_pose(index, timestamp_ms);
        let position: ViewportPosition = match stats.pose {
            Some(p) => p,
            None => ViewportPosition::default(),
        };
        PoseRequest { raw: decided(position), constrain: self.constrained_look }
    }

    /// The pose to present: where the panner looked last, kept within the
    /// stitched area whether or not the camera is otherwise, given the angles
    /// that the geometry gives for it. It is reported.
    pub fn presented_clamped_pose(&mut self, index: u64, yaw: Real32, pitch: Real32) -> (pose: Pose)
        ensures
            final(self)@ == (EngineState { sink: final(self)@.sink, ..old(self)@ }),
            pose == old(self)@.clamped(decided_pose(old(self)@.previous), yaw, pitch),
            match (old(self)@.sink, final(self)@.sink) {
                (Some(before), Some(after)) => exists|s: &mut dyn PipelineEventSink|
                    {
                        &&& #[trigger] told(
                            s,
                            PipelineEvent::PosePresented {
                                frame_index: index,
                                pose: ViewportPosition {
                                    yaw: pose.yaw,
                                    pitch: pose.pitch,
                                    fov_degrees: Some(pose.fov_degrees),
                                },
                            },
                        )
                        &&& &*s == &*before
                        &&& &*final(s) == &*after
                    },
                (None, None) => true,
                _ => false,
            },
    {
        let pose: Pose = self.safe_clamp(decided(self.previous_panner_pose), yaw, pitch);
        if let Some(sink) = &mut self.event_sink {
            tell(
                &mut **sink,
                PipelineEvent::PosePresented {
                    frame_index: index,
                    pose: ViewportPosition {
                        yaw: pose.yaw,
                        pitch: pose.pitch,
                        fov_degrees: Some(pose.fov_degrees),
                    },
                },
            );
        }
        pose
    }

    fn record_pair(&mut self, left: &YuvPlanes<'_>, right: &YuvPlanes<'_>)
        ensures
            final(self)@ == (EngineState { recorder: final(self)@.recorder, ..old(self)@ }),
            match (old(self)@.recorder, final(self)@.recorder) {
                (Some(before), Some(after)) => exists|r: &mut dyn StackedReplayRecorder|
                    {
                        &&& #[trigger] recorded(
                            r,
                            left,
                            right,
                            old(self)@.source.0,
                            old(self)@.source.1,
                        )
                        &&& &*r == &*before
                        &&& &*final(r) == &*after
                    },
                (None, None) => true,
                _ => false,
            },
    {
        let (width, height): (u32, u32) = self.source_info();
        if let Some(recorder) = &mut self.stacked_recorder {
            record(&mut **recorder, left, right, width, height);
        }
    }

    fn pass_over(&mut self) -> (first: bool)
        ensures
            final(self)@ == (EngineState { warned: true, ..old(self)@ }),
            first == !old(self)@.warned,
    {
        let first = !self.mono_detection_warned;
        self.mono_detection_warned = true;
        first
    }

    /// Detect on a set of frames, if that is due. Returns whether it was a pair and
    /// detected on, and whether it was the first other set to be passed over.
    #[verifier::spinoff_prover]
    fn detect_set<M: PanoramaMap>(&mut self, frames: &FrameSet<'_>, geometry: &M) -> (ran: (
        bool,
        bool,
    ))
        requires
            old(self)@.valid(),
        ensures
            detected(old(self)@, final(self)@, *frames, ran.0, ran.1),
            ran.0 ==> ({
                let seen = frames.seen(old(self)@.source.0, old(self)@.source.1);
                exists|
                    turns: Seq<Box<dyn UnifiedDetector>>,
                    answers: Seq<Result<Vec<Detection>, DetectorError>>,
                |
                    {
                        &&& #[trigger] taken_in_turn(turns, seen, answers)
                        &&& turns.first() == old(self)@.detector->0
                        &&& turns.last() == final(self)@.detector->0
                        &&& placed_by(geometry, gathered(answers), final(self)@.detections)
                        &&& forall|i: int|
                            0 <= i < seen.len() && #[trigger] answers_so(
                                &*turns[i],
                                seen[i].0,
                                &seen[i].1,
                                answers[i],
                            ) ==> exists|d: &mut dyn UnifiedDetector|
                                {
                                    &&& #[trigger] answered(d, seen[i].0, &seen[i].1, answers[i])
                                    &&& &*d == &*turns[i]
                                    &&& &*final(d) == &*turns[i + 1]
                                }
                    }
            }),
    {
        if !self.detection_due(self.frame_count) {
            return (false, false);
        }
        let (width, height): (u32, u32) = self.source_info();
        match frames.detector_frames(width, height) {
            Some(seen) => {
                self.run_detection_frames(seen.as_slice(), geometry);
                (true, false)
            },
            None => {
                let first = self.pass_over();
                (false, first)
            },
        }
    }

    fn routed(&self, cameras: usize) -> (route: Route)
        ensures
            route == self@.route(cameras as nat),
    {
        match self.kind {
            ExecutorKind::Cpu => Route::Cpu,
            ExecutorKind::Gpu => if cameras == 2 {
                Route::Gpu
            } else {
                Route::NotWired
            },
        }
    }

    /// Submit the frames of an instant: record them, detect on them if that is
    /// due, and find out where the camera shall look. Pairs of three planes are
    /// recorded; pairs are detected on, and other sets are passed over. Frames in
    /// device memory are refused.
    #[verifier::spinoff_prover]
    pub fn submit_frame<M: PanoramaMap>(
        &mut self,
        frames: &FrameSet<'_>,
        geometry: &M,
        now: Duration,
        timestamp_ms: Real64,
    ) -> (plan: Result<SubmitPlan, StitchCoreError>)
        requires
            old(self)@.valid(),
        ensures
            final(self)@.valid(),
            match plan {
                Err(e) => {
                    &&& frames is Resident
                    &&& final(self)@ == old(self)@
                    &&& config_error(
                        e,
                        "GPU-resident frame sets are session-managed zero-copy paths; submit_frame takes CPU-resident sets (YUV420P / NV12)"@,
                    )
                },
                Ok(p) => {
                    &&& !(frames is Resident)
                    &&& submitted(old(self)@, final(self)@, *frames, now, timestamp_ms, p)
                },
            },
            match (*frames, old(self)@.recorder, final(self)@.recorder) {
                (FrameSet::Yuv420p(cams), Some(before), Some(after)) => cams@.len() == 2 ==> exists|
                    r: &mut dyn StackedReplayRecorder,
                |
                    {
                        &&& #[trigger] recorded(
                            r,
                            &cams@[0],
                            &cams@[1],
                            old(self)@.source.0,
                            old(self)@.source.1,
                        )
                        &&& &*r == &*before
                        &&& &*final(r) == &*after
                    },
                _ => true,
            },
            plan matches Ok(p) && p.ran_detection ==> ({
                let seen = frames.seen(old(self)@.source.0, old(self)@.source.1);
                exists|
                    turns: Seq<Box<dyn UnifiedDetector>>,
                    answers: Seq<Result<Vec<Detection>, DetectorError>>,
                |
                    {
                        &&& #[trigger] taken_in_turn(turns, seen, answers)
                        &&& turns.first() == old(self)@.detector->0
                        &&& turns.last() == final(self)@.detector->0
                        &&& placed_by(geometry, gathered(answers), final(self)@.detections)
                        &&& forall|i: int|
                            0 <= i < seen.len() && #[trigger] answers_so(
                                &*turns[i],
                                seen[i].0,
                                &seen[i].1,
                                answers[i],
                            ) ==> exists|d: &mut dyn UnifiedDetector|
                                {
                                    &&& #[trigger] answered(d, seen[i].0, &seen[i].1, answers[i])
                                    &&& &*d == &*turns[i]
                                    &&& &*final(d) == &*turns[i + 1]
                                }
                    }
            }),
            plan matches Ok(p) ==> exists|looked: EngineState|
                {
                    &&& #[trigger] taken_up(
                        old(self)@,
                        looked,
                        *frames,
                        now,
                        p.ran_detection,
                        p.warn,
                    )
                    &&& aimed(looked, final(self)@, timestamp_ms, p.request)
                    &&& looked.panner is None && looked.sink is Some ==> exists|
                        z: &mut dyn PipelineEventSink,
                        raw: Vec<MappedDetection>,
                    |
                        {
                            &&& #[trigger] told(
                                z,
                                PipelineEvent::DetectionsRaw {
                                    frame_index: looked.frame_count,
                                    detections: raw,
                                },
                            )
                            &&& raw@ == looked.detections
                            &&& &*z == &*looked.sink->0
                            &&& &*final(z) == &*final(self)@.sink->0
                        }
                    &&& looked.panner matches Some(panner) ==> exists|
                        ctx: DispatchContext<'_>,
                        future: &[WorldState],
                        result: DispatchResult,
                    |
                        {
                            &&& #[trigger] dispatched(looked, ctx, future, result)
                            &&& ctx.detections@ == looked.detections
                            &&& looked.calibrated(*ctx.calibration)
                            &&& ctx.frame_index == looked.frame_count
                            &&& ctx.timestamp_ms == timestamp_ms
                            &&& future@.len() == 0
                            &&& p.request.raw == decided_pose(result.pose)
                            &&& p.request.raw.yaw == result.pose.yaw
                            &&& p.request.raw.pitch == result.pose.pitch
                            &&& looked.player_tracker matches Some(p) ==> exists|
                                t: &mut dyn Tracker,
                                found: Vec<TrackedEntity>,
                            |
                                {
                                    &&& #[trigger] followed(t, ctx.detections, timestamp_ms, found)
                                    &&& found@ == result.world_state.players@
                                    &&& &*t == &*p
                                    &&& &*final(t) == &*final(self)@.player_tracker->0
                                }
                            &&& looked.ball_tracker matches Some(p) ==> exists|
                                a: &mut dyn Tracker,
                                b: &mut dyn Tracker,
                                seen: WorldState,
                                found: Vec<TrackedEntity>,
                            |
                                {
                                    &&& #[trigger] shown(a, &seen)
                                    &&& #[trigger] followed(b, ctx.detections, timestamp_ms, found)
                                    &&& seen.ball is None
                                    &&& seen.players@ == result.world_state.players@
                                    &&& result.world_state.ball == ball_of(found@)
                                    &&& &*a == &*p
                                    &&& &*b == &*final(a)
                                    &&& &*final(b) == &*final(self)@.ball_tracker->0
                                }
                            &&& exists|d: &mut dyn Panner|
                                {
                                    &&& #[trigger] panned(
                                        d,
                                        &result.world_state,
                                        future,
                                        pan_context(ctx, looked.previous),
                                        result.pose,
                                    )
                                    &&& &*d == &*panner
                                    &&& &*final(d) == &*final(self)@.panner->0
                                }
                            &&& looked.sink matches Some(sink) ==> exists|
                                z: &mut dyn PipelineEventSink,
                                a: &mut dyn PipelineEventSink,
                                b: &mut dyn PipelineEventSink,
                                raw: Vec<MappedDetection>,
                                players: Vec<TrackedEntity>,
                                debug: Option<PipelineEvent>,
                            |
                                {
                                    &&& #[trigger] told(
                                        z,
                                        PipelineEvent::DetectionsRaw {
                                            frame_index: looked.frame_count,
                                            detections: raw,
                                        },
                                    )
                                    &&& raw@ == looked.detections
                                    &&& #[trigger] told(
                                        a,
                                        PipelineEvent::WorldState {
                                            frame_index: looked.frame_count,
                                            timestamp_ms,
                                            players,
                                            ball: result.world_state.ball,
                                        },
                                    )
                                    &&& players@ == result.world_state.players@
                                    &&& #[trigger] told(
                                        b,
                                        PipelineEvent::PanDecision {
                                            frame_index: looked.frame_count,
                                            pose: result.pose,
                                        },
                                    )
                                    &&& #[trigger] explained(
                                        &*final(self)@.panner->0,
                                        looked.frame_count,
                                        debug,
                                    )
                                    &&& &*z == &*sink
                                    &&& &*a == &*final(z)
                                    &&& &*b == &*final(a)
                                    &&& match debug {
                                        Some(event) => exists|c: &mut dyn PipelineEventSink|
                                            {
                                                &&& #[trigger] told(c, event)
                                                &&& &*c == &*final(b)
                                                &&& &*final(c) == &*final(self)@.sink->0
                                            },
                                        None => &*final(b) == &*final(self)@.sink->0,
                                    }
                                }
                        }
                },
    {
        let cameras: usize = match frames {
            FrameSet::Yuv420p(cams) => cams.len(),
            FrameSet::Nv12(cams) => cams.len(),
            FrameSet::Resident => {
                return Err(
                    StitchCoreError::Config(
                        "GPU-resident frame sets are session-managed zero-copy paths; submit_frame takes CPU-resident sets (YUV420P / NV12)".to_owned(),
                    ),
                );
            },
        };
        self.anchor_session_start(now);
        if let FrameSet::Yuv420p(cams) = frames {
            if cams.len() == 2 {
                self.record_pair(&cams[0], &cams[1]);
            }
        }
        let ran: (bool, bool) = self.detect_set(frames, geometry);
        let ghost looked = self@;
        let request: PoseRequest = self.current_pose(timestamp_ms);
        let route: Route = self.routed(cameras);
        let plan = SubmitPlan { request, route, ran_detection: ran.0, warn: ran.1 };
        assert(taken_up(
            old(self)@,
            looked,
            *frames,
            now,
            plan.ran_detection,
            plan.warn,
        ));
        Ok(plan)
    }

    /// What to render for a submitted set, given the angles that the geometry
    /// gives for its pose. The device renders pairs only.
    pub fn render_request(&self, plan: SubmitPlan, yaw: Real32, pitch: Real32) -> (request: Result<
        RenderRequest,
        StitchCoreError,
    >)
        ensures
            match request {
                Ok(r) => {
                    &&& plan.route != Route::NotWired
                    &&& r.pose == self@.resolved(plan.request, yaw, pitch)
                    &&& r.executor == if plan.route == Route::Gpu {
                        ExecutorKind::Gpu
                    } else {
                        ExecutorKind::Cpu
                    }
                },
                Err(e) => plan.route == Route::NotWired && (e matches StitchCoreError::Executor(t)
                    && t@
                    == "the mono GPU pass is not wired yet; run mono topologies on the CPU executor"@),
            },
    {
        let pose: Pose = self.resolve(plan.request, yaw, pitch);
        match plan.route {
            Route::Cpu => Ok(RenderRequest { pose, executor: ExecutorKind::Cpu }),
            Route::Gpu => Ok(RenderRequest { pose, executor: ExecutorKind::Gpu }),
            Route::NotWired => Err(
                StitchCoreError::Executor(
                    "the mono GPU pass is not wired yet; run mono topologies on the CPU executor".to_owned(),
                ),
            ),
        }
    }

    /// Submit a pair at a given pose: record it, and detect on it if that is due.
    pub fn submit_frame_yuv_at_pose<M: PanoramaMap>(
        &mut self,
        left: &YuvPlanes<'_>,
        right: &YuvPlanes<'_>,
        pose: Pose,
        geometry: &M,
        now: Duration,
    ) -> (request: RenderRequest)
        requires
            old(self)@.valid(),
        ensures
            final(self)@.valid(),
            final(self)@ == (EngineState {
                start: old(self)@.anchored(now),
                recorder: final(self)@.recorder,
                detector: final(self)@.detector,
                detections: final(self)@.detections,
                ..old(self)@
            }),
            match (old(self)@.recorder, final(self)@.recorder) {
                (Some(before), Some(after)) => exists|r: &mut dyn StackedReplayRecorder|
                    {
                        &&& #[trigger] recorded(
                            r,
                            left,
                            right,
                            old(self)@.source.0,
                            old(self)@.source.1,
                        )
                        &&& &*r == &*before
                        &&& &*final(r) == &*after
                    },
                (None, None) => true,
                _ => false,
            },
            final(self)@.detector is Some <==> old(self)@.detector is Some,
            old(self)@.due(old(self)@.frame_count) ==> ({
                let seen = pair(
                    yuv_seen(*left, old(self)@.source.0, old(self)@.source.1),
                    yuv_seen(*right, old(self)@.source.0, old(self)@.source.1),
                );
                exists|
                    turns: Seq<Box<dyn UnifiedDetector>>,
                    answers: Seq<Result<Vec<Detection>, DetectorError>>,
                |
                    {
                        &&& #[trigger] taken_in_turn(turns, seen, answers)
                        &&& turns.first() == old(self)@.detector->0
                        &&& turns.last() == final(self)@.detector->0
                        &&& placed_by(geometry, gathered(answers), final(self)@.detections)
                        &&& forall|i: int|
                            0 <= i < seen.len() && #[trigger] answers_so(
                                &*turns[i],
                                seen[i].0,
                                &seen[i].1,
                                answers[i],
                            ) ==> exists|d: &mut dyn UnifiedDetector|
                                {
                                    &&& #[trigger] answered(d, seen[i].0, &seen[i].1, answers[i])
                                    &&& &*d == &*turns[i]
                                    &&& &*final(d) == &*turns[i + 1]
                                }
                    }
            }),
            !old(self)@.due(old(self)@.frame_count) ==> {
                &&& final(self)@.detections == old(self)@.detections
                &&& final(self)@.detector == old(self)@.detector
            },
            request == (RenderRequest { pose, executor: old(self)@.kind }),
    {
        self.anchor_session_start(now);
        self.record_pair(left, right);
        if self.detection_due(self.frame_count) {
            let (width, height): (u32, u32) = self.source_info();
            let seen: Vec<(CameraId, DetectorFrame<'_>)> = yuv_pair(left, right, width, height);
            self.run_detection_frames(seen.as_slice(), geometry);
        }
        RenderRequest { pose, executor: self.kind }
    }

    /// Submit packed pixels at a given pose, without recording or detection. Only
    /// the device renders them.
    pub fn submit_frame_bgra_at_pose(&mut self, pose: Pose, now: Duration) -> (request: Result<
        RenderRequest,
        StitchCoreError,
    >)
        ensures
            final(self)@ == (EngineState { start: old(self)@.anchored(now), ..old(self)@ }),
            match request {
                Ok(r) => old(self)@.kind is Gpu && r == (RenderRequest {
                    pose,
                    executor: ExecutorKind::Gpu,
                }),
                Err(e) => old(self)@.kind is Cpu && e is RequiresGpu,
            },
    {
        self.anchor_session_start(now);
        match self.require_gpu() {
            Ok(_) => Ok(RenderRequest { pose, executor: ExecutorKind::Gpu }),
            Err(e) => Err(e),
        }
    }

    /// Time since the first frame.
    fn captured_at(&self, now: Duration) -> (at: Duration)
        ensures
            at@ == self@.elapsed(now),
    {
        match self.session_start {
            Some(s) => now.saturating_sub(s),
            None => Duration::zero(),
        }
    }

    fn push_replay(&mut self, rgba: &Vec<u8>, pose: Pose, now: Duration)
        ensures
            final(self)@ == (EngineState { replay: final(self)@.replay, ..old(self)@ }),
            replay_took(
                old(self)@.replay,
                final(self)@.replay,
                rgba@,
                old(self)@.elapsed(now),
                pose,
            ),
    {
        let at: Duration = self.captured_at(now);
        if let Some(replay) = &mut self.replay {
            let copy: Vec<u8> = rgba.clone();
            assert(copy@ =~= rgba@);
            let frame = ReplayFrame { rgba: copy, captured_at: at, pose };
            let ghost kept = replay@;
            let ghost window = replay.window()@;
            let ghost taken = frame;
            replay.push(frame);
            assert(replay@ == replay_pushed(kept, taken, window));
        }
    }

    /// Take a picture that the processor rendered. It counts, is kept for replay,
    /// and is delivered at once.
    pub fn deliver_cpu_frame(&mut self, rgba: Vec<u8>, pose: Pose, now: Duration)
        requires
            old(self)@.frame_count < u64::MAX,
        ensures
            final(self)@ == (EngineState {
                frame_count: (old(self)@.frame_count + 1) as u64,
                frame: rgba@,
                replay: final(self)@.replay,
                ..old(self)@
            }),
            replay_took(
                old(self)@.replay,
                final(self)@.replay,
                rgba@,
                old(self)@.elapsed(now),
                pose,
            ),
    {
        self.frame_count = self.frame_count + 1;
        self.push_replay(&rgba, pose, now);
        self.frame = rgba;
    }

    /// The staging slots of the next picture on the device.
    pub fn staging_slots(&self) -> (slots: Result<SubmitSlots, StitchCoreError>)
        requires
            self@.valid(),
        ensures
            match slots {
                Ok(s) => self@.readback matches Some(ring) && s == ring.due(),
                Err(e) => self@.kind is Cpu && e is RequiresGpu,
            },
    {
        match &self.readback {
            Some(ring) => Ok(ring.plan()),
            None => Err(StitchCoreError::RequiresGpu),
        }
    }

    /// Take what was read back when a picture was rendered on the device: the one
    /// that was submitted two frames earlier, or nothing while the slots fill. It
    /// counts, and is kept for replay.
    pub fn deliver_gpu_frame(&mut self, read: Option<Vec<u8>>, pose: Pose, now: Duration)
        requires
            old(self)@.valid(),
            old(self)@.frame_count < u64::MAX,
            old(self)@.readback matches Some(ring) && (read is Some <==> ring.due().read is Some),
        ensures
            final(self)@.valid(),
            final(self)@ == (EngineState {
                frame_count: (old(self)@.frame_count + 1) as u64,
                readback: final(self)@.readback,
                frame: match read {
                    Some(bytes) => bytes@,
                    None => old(self)@.frame,
                },
                replay: final(self)@.replay,
                ..old(self)@
            }),
            final(self)@.readback matches Some(after) && ring_advanced(
                old(self)@.readback->0,
                after,
            ),
            match read {
                Some(bytes) => replay_took(
                    old(self)@.replay,
                    final(self)@.replay,
                    bytes@,
                    old(self)@.elapsed(now),
                    pose,
                ),
                None => final(self)@.replay == old(self)@.replay,
            },
    {
        if let Some(ring) = &mut self.readback {
            ring.advance();
        }
        self.frame_count = self.frame_count + 1;
        if let Some(bytes) = read {
            self.push_replay(&bytes, pose, now);
            self.frame = bytes;
        }
    }

    /// What the last submit gives back: the picture it delivered, or nothing yet.
    pub fn outcome(&self, delivered: bool) -> (outcome: RenderOutcome<'_>)
        ensures
            match outcome {
                RenderOutcome::Warmup => !delivered,
                RenderOutcome::Rgba(bytes) => delivered && bytes@ == self@.frame,
            },
    {
        if delivered {
            RenderOutcome::Rgba(self.frame.as_slice())
        } else {
            RenderOutcome::Warmup
        }
    }

    /// The slot to drain, if a picture is still on its way from the device.
    pub fn flush(&self) -> (slot: Result<Option<usize>, StitchCoreError>)
        requires
            self@.valid(),
        ensures
            match slot {
                Ok(s) => self@.readback matches Some(ring) && (s is Some <==> ring@.len() > 0) && (s
                    matches Some(i) ==> i == ring@[0]),
                Err(e) => self@.kind is Cpu && e is RequiresGpu,
            },
    {
        match &self.readback {
            Some(ring) => Ok(ring.oldest_pending()),
            None => Err(StitchCoreError::RequiresGpu),
        }
    }

    /// Note that a slot has been drained.
    pub fn flushed(&mut self)
        requires
            old(self)@.valid(),
            old(self)@.readback matches Some(ring) && ring@.len() > 0,
        ensures
            final(self)@.valid(),
            final(self)@ == (EngineState { readback: final(self)@.readback, ..old(self)@ }),
            final(self)@.readback matches Some(after) && after@ == old(self)@.readback->0@.drop_first()
                && after.current_slot == old(self)@.readback->0.current_slot,
    {
        if let Some(ring) = &mut self.readback {
            ring.drained();
        }
    }

    /// What reading a picture back for encoding came to.
    pub fn render_and_readback_nv12(&self, converted: Result<Option<Vec<u8>>, String>) -> (read:
        Result<Option<Vec<u8>>, StitchCoreError>)
        ensures
            nv12_tap(self@, converted, read, "NV12 preview readback: "@),
    {
        match self.require_gpu() {
            Ok(_) => {},
            Err(e) => {
                return Err(e);
            },
        }
        match converted {
            Ok(bytes) => Ok(bytes),
            Err(e) => Err(StitchCoreError::Config(joined("NV12 preview readback: ", e.as_str()))),
        }
    }

    /// What draining a picture for encoding came to.
    pub fn flush_nv12(&self, drained: Result<Option<Vec<u8>>, String>) -> (read: Result<
        Option<Vec<u8>>,
        StitchCoreError,
    >)
        ensures
            nv12_tap(self@, drained, read, "NV12 preview flush: "@),
    {
        match self.require_gpu() {
            Ok(_) => {},
            Err(e) => {
                return Err(e);
            },
        }
        match drained {
            Ok(bytes) => Ok(bytes),
            Err(e) => Err(StitchCoreError::Config(joined("NV12 preview flush: ", e.as_str()))),
        }
    }

    /// Attach a recorder of source frames in place of any other.
    pub fn set_stacked_recorder(&mut self, recorder: Box<dyn StackedReplayRecorder>)
        ensures
            final(self)@.recorder == Some(recorder),
            final(self)@ == (EngineState { recorder: final(self)@.recorder, ..old(self)@ }),
    {
        let attached = Some(recorder);
        self.stacked_recorder = attached;
    }

    /// Complete the recording of source frames and detach its recorder.
    pub fn clear_stacked_recorder(&mut self)
        ensures
            final(self)@ == (EngineState { recorder: None, ..old(self)@ }),
            old(self)@.recorder matches Some(before) ==> exists|r: &mut dyn StackedReplayRecorder|
                #[trigger] finished(r) && &*r == &*before,
    {
        if let Some(recorder) = &mut self.stacked_recorder {
            finish(&mut **recorder);
        }
        self.stacked_recorder = None;
    }

    /// Write out what the recorder of source frames has buffered.
    pub fn flush_stacked_recorder(&mut self)
        ensures
            final(self)@ == (EngineState { recorder: final(self)@.recorder, ..old(self)@ }),
            match (old(self)@.recorder, final(self)@.recorder) {
                (Some(before), Some(after)) => exists|r: &mut dyn StackedReplayRecorder|
                    {
                        &&& #[trigger] written_out(r)
                        &&& &*r == &*before
                        &&& &*final(r) == &*after
                    },
                (None, None) => true,
                _ => false,
            },
    {
        if let Some(recorder) = &mut self.stacked_recorder {
            write_out(&mut **recorder);
        }
    }

    /// Pack source frames on the device, given the packer that was built for it.
    /// Packed pixels cannot be packed again.
    pub fn enable_gpu_stacked_replay(&mut self, packer: Result<StackPacker, String>) -> (enabled:
        Result<(), StitchCoreError>)
        ensures
            match enabled {
                Ok(_) => {
                    &&& !(old(self)@.input_format is Bgra)
                    &&& packer matches Ok(p) && final(self)@ == (EngineState {
                        packer: Some(p),
                        ..old(self)@
                    })
                },
                Err(e) => {
                    &&& final(self)@ == old(self)@
                    &&& if old(self)@.input_format is Bgra {
                        config_error(
                            e,
                            "GPU stacked replay requires YUV420P or NV12 input; BGRA pipelines must use the CPU replay-recording path"@,
                        )
                    } else {
                        packer matches Err(reason) && (e matches StitchCoreError::StackedPacker(t)
                            && t == reason)
                    }
                },
            },
    {
        if let InputFormat::Bgra = self.input_format {
            return Err(
                StitchCoreError::Config(
                    "GPU stacked replay requires YUV420P or NV12 input; BGRA pipelines must use the CPU replay-recording path".to_owned(),
                ),
            );
        }
        match packer {
            Ok(p) => {
                self.stacked_packer = Some(p);
                Ok(())
            },
            Err(e) => Err(StitchCoreError::StackedPacker(e)),
        }
    }

    /// Stop packing source frames, and complete their recording.
    pub fn disable_gpu_stacked_replay(&mut self)
        ensures
            final(self)@ == (EngineState { packer: None, gpu_recorder: None, ..old(self)@ }),
            old(self)@.gpu_recorder matches Some(before) ==> exists|
                r: &mut dyn StackedReplayGpuRecorder,
            | #[trigger] atlas_finished(r) && &*r == &*before,
    {
        self.stacked_packer = None;
        self.clear_stacked_gpu_recorder();
    }

    /// Attach a recorder of packed frames in place of any other.
    pub fn set_stacked_gpu_recorder(&mut self, recorder: Box<dyn StackedReplayGpuRecorder>)
        ensures
            final(self)@.gpu_recorder == Some(recorder),
            final(self)@ == (EngineState { gpu_recorder: final(self)@.gpu_recorder, ..old(self)@ }),
    {
        let attached = Some(recorder);
        self.stacked_gpu_recorder = attached;
    }

    /// Complete the recording of packed frames and detach its recorder.
    pub fn clear_stacked_gpu_recorder(&mut self)
        ensures
            final(self)@ == (EngineState { gpu_recorder: None, ..old(self)@ }),
            old(self)@.gpu_recorder matches Some(before) ==> exists|
                r: &mut dyn StackedReplayGpuRecorder,
            | #[trigger] atlas_finished(r) && &*r == &*before,
    {
        if let Some(recorder) = &mut self.stacked_gpu_recorder {
            finish_atlas(&mut **recorder);
        }
        self.stacked_gpu_recorder = None;
    }

    /// Write out what the recorder of packed frames has buffered.
    pub fn flush_stacked_gpu_recorder(&mut self)
        ensures
            final(self)@ == (EngineState { gpu_recorder: final(self)@.gpu_recorder, ..old(self)@ }),
            match (old(self)@.gpu_recorder, final(self)@.gpu_recorder) {
                (Some(before), Some(after)) => exists|r: &mut dyn StackedReplayGpuRecorder|
                    {
                        &&& #[trigger] atlas_written_out(r)
                        &&& &*r == &*before
                        &&& &*final(r) == &*after
                    },
                (None, None) => true,
                _ => false,
            },
    {
        if let Some(recorder) = &mut self.stacked_gpu_recorder {
            write_out_atlas(&mut **recorder);
        }
    }

    /// Width and height of the packed picture, if frames are packed.
    pub fn stacked_atlas_dims(&self) -> (dims: Option<(u32, u32)>)
        ensures
            dims == match self@.packer {
                Some(p) => Some((p.atlas_width, p.atlas_height)),
                None => None,
            },
    {
        match &self.stacked_packer {
            Some(p) => Some((p.atlas_width, p.atlas_height)),
            None => None,
        }
    }

    /// Which frames to pack: as many of the pair as the grid has places for.
    /// Nothing if frames are not packed.
    pub fn pack_gpu_stacked_replay_from_views(&self) -> (plan: Option<PackPlan>)
        ensures
            plan == match self@.packer {
                Some(p) => if self@.input_format is Bgra {
                    None
                } else {
                    Some(
                        PackPlan {
                            left: p.capacity >= 1,
                            right: p.capacity >= 2,
                            format: self@.input_format,
                        },
                    )
                },
                None => None,
            },
    {
        match (&self.stacked_packer, self.input_format) {
            (Some(_), InputFormat::Bgra) => None,
            (Some(p), format) => Some(
                PackPlan { left: p.capacity >= 1, right: p.capacity >= 2, format },
            ),
            (None, _) => None,
        }
    }

    /// Take packed frames, if some are ready, to their recorder.
    pub fn packed(&mut self, atlas: Option<StackedAtlas>)
        ensures
            final(self)@ == (EngineState { gpu_recorder: final(self)@.gpu_recorder, ..old(self)@ }),
            match (atlas, old(self)@.gpu_recorder, final(self)@.gpu_recorder) {
                (Some(a), Some(before), Some(after)) => exists|
                    r: &mut dyn StackedReplayGpuRecorder,
                |
                    {
                        &&& #[trigger] atlas_recorded(r, &a)
                        &&& &*r == &*before
                        &&& &*final(r) == &*after
                    },
                (None, before, after) => after == before,
                (_, None, None) => true,
                _ => false,
            },
    {
        if let Some(a) = &atlas {
            if let Some(recorder) = &mut self.stacked_gpu_recorder {
                record_atlas(&mut **recorder, a);
            }
        }
    }
}

/// Whether this recorder, as it stands, is given that pair.
pub open spec fn recorded<R: StackedReplayRecorder + ?Sized>(
    recorder: &mut R,
    left: &YuvPlanes<'_>,
    right: &YuvPlanes<'_>,
    width: u32,
    height: u32,
) -> bool {
    call_ensures(R::record_yuv, (recorder, left, right, width, height), ())
}

/// Whether this recorder, as it stands, is told to write out what it has buffered.
pub open spec fn written_out<R: StackedReplayRecorder + ?Sized>(recorder: &mut R) -> bool {
    call_ensures(R::flush, (recorder,), ())
}

/// Whether this recorder, as it stands, is told to complete its recording.
pub open spec fn finished<R: StackedReplayRecorder + ?Sized>(recorder: &mut R) -> bool {
    call_ensures(R::finish, (recorder,), ())
}

/// Whether this recorder of packed frames, as it stands, is given those.
pub open spec fn atlas_recorded<R: StackedReplayGpuRecorder + ?Sized>(
    recorder: &mut R,
    atlas: &StackedAtlas,
) -> bool {
    call_ensures(R::record_atlas, (recorder, atlas), ())
}

/// Whether this recorder of packed frames, as it stands, is told to write out what
/// it has buffered.
pub open spec fn atlas_written_out<R: StackedReplayGpuRecorder + ?Sized>(recorder: &mut R) -> bool {
    call_ensures(R::flush, (recorder,), ())
}

/// Whether this recorder of packed frames, as it stands, is told to complete its
/// recording.
pub open spec fn atlas_finished<R: StackedReplayGpuRecorder + ?Sized>(recorder: &mut R) -> bool {
    call_ensures(R::finish, (recorder,), ())
}

fn record<R: StackedReplayRecorder + ?Sized>(
    recorder: &mut R,
    left: &YuvPlanes<'_>,
    right: &YuvPlanes<'_>,
    width: u32,
    height: u32,
)
    ensures
        exists|r: &mut R|
            #![trigger call_ensures(R::record_yuv, (r, left, right, width, height), ())]
            {
                &&& recorded(r, left, right, width, height)
                &&& &*r == &*old(recorder)
                &&& &*final(r) == &*final(recorder)
            },
{
    recorder.record_yuv(left, right, width, height);
}

fn write_out<R: StackedReplayRecorder + ?Sized>(recorder: &mut R)
    ensures
        exists|r: &mut R|
            #![trigger call_ensures(R::flush, (r,), ())]
            {
                &&& written_out(r)
                &&& &*r == &*old(recorder)
                &&& &*final(r) == &*final(recorder)
            },
{
    recorder.flush();
}

fn finish<R: StackedReplayRecorder + ?Sized>(recorder: &mut R)
    ensures
        exists|r: &mut R|
            #![trigger call_ensures(R::finish, (r,), ())]
            {
                &&& finished(r)
                &&& &*r == &*old(recorder)
                &&& &*final(r) == &*final(recorder)
            },
{
    recorder.finish();
}

fn record_atlas<R: StackedReplayGpuRecorder + ?Sized>(recorder: &mut R, atlas: &StackedAtlas)
    ensures
        exists|r: &mut R|
            #![trigger call_ensures(R::record_atlas, (r, atlas), ())]
            {
                &&& atlas_recorded(r, atlas)
                &&& &*r == &*old(recorder)
                &&& &*final(r) == &*final(recorder)
            },
{
    recorder.record_atlas(atlas);
}

fn write_out_atlas<R: StackedReplayGpuRecorder + ?Sized>(recorder: &mut R)
    ensures
        exists|r: &mut R|
            #![trigger call_ensures(R::flush, (r,), ())]
            {
                &&& atlas_written_out(r)
                &&& &*r == &*old(recorder)
                &&& &*final(r) == &*final(recorder)
            },
{
    recorder.flush();
}

fn finish_atlas<R: StackedReplayGpuRecorder + ?Sized>(recorder: &mut R)
    ensures
        exists|r: &mut R|
            #![trigger call_ensures(R::finish, (r,), ())]
            {
                &&& atlas_finished(r)
                &&& &*r == &*old(recorder)
                &&& &*final(r) == &*final(recorder)
            },
{
    recorder.finish();
}

/// Whether a world is what the trackers that are attached make of the detections:
/// the players' tracker of its own, the ball's once it has been shown the players.
pub open spec fn watched(state: EngineState, ctx: DispatchContext<'_>, world: WorldState) -> bool {
    &&& match state.player_tracker {
        Some(p) => exists|t: &mut dyn Tracker, found: Vec<TrackedEntity>|
            {
                &&& #[trigger] followed(t, ctx.detections, ctx.timestamp_ms, found)
                &&& found@ == world.players@
                &&& &*t == &*p
            },
        None => world.players@.len() == 0,
    }
    &&& match state.ball_tracker {
        Some(p) => exists|
            a: &mut dyn Tracker,
            b: &mut dyn Tracker,
            seen: WorldState,
            found: Vec<TrackedEntity>,
        |
            {
                &&& #[trigger] shown(a, &seen)
                &&& #[trigger] followed(b, ctx.detections, ctx.timestamp_ms, found)
                &&& seen.ball is None
                &&& seen.players@ == world.players@
                &&& world.ball == ball_of(found@)
                &&& &*a == &*p
            },
        None => world.ball is None,
    }
}

/// Whether a result is what the chain makes of a frame: the world is what the
/// trackers find, the pose is what the panner decides for it from where it looked
/// before, and the numbers are those of the world.
pub open spec fn dispatched(
    state: EngineState,
    ctx: DispatchContext<'_>,
    future: &[WorldState],
    result: DispatchResult,
) -> bool {
    &&& watched(state, ctx, result.world_state)
    &&& state.panner matches Some(p) && exists|d: &mut dyn Panner|
        {
            &&& #[trigger] panned(
                d,
                &result.world_state,
                future,
                pan_context(ctx, state.previous),
                result.pose,
            )
            &&& &*d == &*p
        }
    &&& result.active_tracks == result.world_state.players@.len() as u32
    &&& result.ball_present == has_ball(result.world_state)
}

/// Whether a sink was told of a frame's world and of the decision for it.
pub open spec fn reported(ctx: DispatchContext<'_>, result: DispatchResult) -> bool {
    exists|
        a: &mut dyn PipelineEventSink,
        b: &mut dyn PipelineEventSink,
        players: Vec<TrackedEntity>,
    |
        {
            &&& #[trigger] told(
                a,
                PipelineEvent::WorldState {
                    frame_index: ctx.frame_index,
                    timestamp_ms: ctx.timestamp_ms,
                    players,
                    ball: result.world_state.ball,
                },
            )
            &&& players@ == result.world_state.players@
            &&& #[trigger] told(
                b,
                PipelineEvent::PanDecision { frame_index: ctx.frame_index, pose: result.pose },
            )
        }
}

/// Whether the trackers and the panner did with a frame what they should, and were
/// reported: with a panner, what the chain made of the detections at hand, from
/// where the camera looked before; without one, nothing.
pub open spec fn ticked(
    before: EngineState,
    after: EngineState,
    index: u64,
    timestamp_ms: Real64,
    stats: DispatchStats,
) -> bool {
    &&& after == (EngineState {
        player_tracker: after.player_tracker,
        ball_tracker: after.ball_tracker,
        panner: after.panner,
        previous: after.previous,
        sink: after.sink,
        ..before
    })
    &&& after.player_tracker is Some <==> before.player_tracker is Some
    &&& after.ball_tracker is Some <==> before.ball_tracker is Some
    &&& after.panner is Some <==> before.panner is Some
    &&& after.sink is Some <==> before.sink is Some
    &&& stats.detections == before.detections.len() as u32
    &&& before.sink matches Some(sink) ==> exists|
        z: &mut dyn PipelineEventSink,
        raw: Vec<MappedDetection>,
    |
        {
            &&& #[trigger] told(
                z,
                PipelineEvent::DetectionsRaw { frame_index: index, detections: raw },
            )
            &&& raw@ == before.detections
            &&& &*z == &*sink
        }
    &&& if before.panner is Some {
        exists|ctx: DispatchContext<'_>, future: &[WorldState], result: DispatchResult|
            {
                &&& #[trigger] dispatched(before, ctx, future, result)
                &&& ctx.detections@ == before.detections
                &&& before.calibrated(*ctx.calibration)
                &&& ctx.frame_index == index
                &&& ctx.timestamp_ms == timestamp_ms
                &&& future@.len() == 0
                &&& before.sink is Some ==> reported(ctx, result)
                &&& after.previous == result.pose
                &&& stats.pose == Some(result.pose)
                &&& stats.active_tracks == result.active_tracks
                &&& stats.ball_present == result.ball_present
            }
    } else {
        &&& after.player_tracker == before.player_tracker
        &&& after.ball_tracker == before.ball_tracker
        &&& after.previous == before.previous
        &&& stats.pose is None
        &&& stats.active_tracks == 0
        &&& !stats.ball_present
    }
}

/// Whether a request is where the camera shall look on the next frame: where the
/// panner decides, or straight ahead without one.
pub open spec fn aimed(
    before: EngineState,
    after: EngineState,
    timestamp_ms: Real64,
    request: PoseRequest,
) -> bool {
    &&& request.constrain == before.constrained
    &&& exists|stats: DispatchStats|
        {
            &&& #[trigger] ticked(before, after, before.frame_count, timestamp_ms, stats)
            &&& request.raw == decided_pose(
                match stats.pose {
                    Some(pose) => pose,
                    None => ViewportPosition {
                        yaw: Real32 { bits: 0 },
                        pitch: Real32 { bits: 0 },
                        fov_degrees: None,
                    },
                },
            )
        }
}

/// Whether detection ran on a set of frames as it should: on a pair, when it is
/// due. Another set is passed over, and `first` says whether it was the first.
pub open spec fn detected(
    before: EngineState,
    after: EngineState,
    frames: FrameSet<'_>,
    ran: bool,
    first: bool,
) -> bool {
    let due = before.due(before.frame_count);
    let cameras = frames.cameras();
    &&& after == (EngineState {
        detector: after.detector,
        detections: after.detections,
        warned: before.warned || (due && cameras != 2),
        ..before
    })
    &&& ran == (due && cameras == 2)
    &&& first == (due && cameras != 2 && !before.warned)
    &&& after.detector is Some <==> before.detector is Some
    &&& !ran ==> after.detections == before.detections && after.detector == before.detector
}

/// Whether a set of frames was taken up as it should: the start is anchored, a pair
/// of three planes is recorded, and detection runs when it is due.
pub open spec fn taken_up(
    before: EngineState,
    after: EngineState,
    frames: FrameSet<'_>,
    now: Duration,
    ran: bool,
    first: bool,
) -> bool {
    let anchored = EngineState {
        start: before.anchored(now),
        recorder: after.recorder,
        ..before
    };
    &&& match (before.recorder, frames) {
        (Some(recorder), FrameSet::Yuv420p(cams)) => if cams@.len() == 2 {
            &&& after.recorder is Some
            &&& exists|r: &mut dyn StackedReplayRecorder|
                {
                    &&& #[trigger] recorded(
                        r,
                        &cams@[0],
                        &cams@[1],
                        before.source.0,
                        before.source.1,
                    )
                    &&& &*r == &*recorder
                }
        } else {
            after.recorder == before.recorder
        },
        _ => after.recorder == before.recorder,
    }
    &&& detected(anchored, after, frames, ran, first)
}

/// Whether the stages before rendering did with a set of frames what they
/// should: it is taken up, and then the camera is aimed.
pub open spec fn submitted(
    before: EngineState,
    after: EngineState,
    frames: FrameSet<'_>,
    now: Duration,
    timestamp_ms: Real64,
    plan: SubmitPlan,
) -> bool {
    &&& exists|looked: EngineState|
        {
            &&& #[trigger] taken_up(
                before,
                looked,
                frames,
                now,
                plan.ran_detection,
                plan.warn,
            )
            &&& aimed(looked, after, timestamp_ms, plan.request)
        }
    &&& plan.route == before.route(frames.cameras())
}

/// Whether a picture for encoding was handed on as it should: only the device
/// has one, and a failure is reported under the given name.
pub open spec fn nv12_tap(
    state: EngineState,
    given: Result<Option<Vec<u8>>, String>,
    read: Result<Option<Vec<u8>>, StitchCoreError>,
    name: Seq<char>,
) -> bool {
    match read {
        Ok(bytes) => state.kind is Gpu && given == Ok::<Option<Vec<u8>>, String>(bytes),
        Err(e) => if state.kind is Cpu {
            e is RequiresGpu
        } else {
            given matches Err(reason) && config_error(e, name + reason@)
        },
    }
}

/// Whether a ring has gone one submit further.
pub open spec fn ring_advanced(before: ReadbackRing, after: ReadbackRing) -> bool {
    &&& after.current_slot == (before.current_slot + 1) % 3
    &&& after@ == (if before@.len() == 2 {
        before@.drop_first()
    } else {
        before@
    }).push(before.current_slot as int)
}

impl DetectionTarget for StitchCore {
    fn set_detector(&mut self, detector: Box<dyn UnifiedDetector>)
        ensures
            final(self)@.detector == Some(detector),
            final(self)@ == (EngineState { detector: final(self)@.detector, ..old(self)@ }),
    {
        let attached = Some(detector);
        self.detector = attached;
    }

    fn set_detection_interval(&mut self, interval: u64)
        ensures
            final(self)@ == (EngineState {
                interval: if interval < 1 {
                    1
                } else {
                    interval
                },
                ..old(self)@
            }),
    {
        StitchCore::set_detection_interval(self, interval);
    }

    fn set_ball_tracker(&mut self, tracker: Box<dyn Tracker>)
        ensures
            final(self)@.ball_tracker == Some(tracker),
            final(self)@ == (EngineState { ball_tracker: final(self)@.ball_tracker, ..old(self)@ }),
    {
        let attached = Some(tracker);
        self.ball_tracker = attached;
    }

    fn set_player_tracker(&mut self, tracker: Box<dyn Tracker>)
        ensures
            final(self)@.player_tracker == Some(tracker),
            final(self)@ == (EngineState { player_tracker: final(self)@.player_tracker, ..old(self)@ }),
    {
        let attached = Some(tracker);
        self.player_tracker = attached;
    }

    fn set_panner(&mut self, panner: Box<dyn Panner>)
        ensures
            final(self)@.panner == Some(panner),
            final(self)@ == (EngineState { panner: final(self)@.panner, ..old(self)@ }),
    {
        let attached = Some(panner);
        self.panner = attached;
    }

    fn source_info(&self) -> (dims: (u32, u32))
        ensures
            dims == self@.source,
    {
        StitchCore::source_info(self)
    }

    fn has_gpu(&self) -> (has: bool)
        ensures
            has == (self@.kind is Gpu),
    {
        self.require_gpu().is_ok()
    }
}

} // verus!
