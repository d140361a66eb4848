//! The stitching engine.

use std::sync::{Arc, Mutex};

use reco_core::analyze::{
    AnalyzeError, AnalyzePipeline, DetectionSink, FrameProgress, FrameSource, Nv12Data, RunMonitor,
    StereoFrame, YuvData,
};
use reco_core::calibration::{Calibration, Framing, Lens, Topology};
use reco_core::detector::{
    CameraId, ChromaFormat, Detection, DetectorError, DetectorFrame, MappedDetection, PanoramaMap,
    RawFrame, UnifiedDetector,
};
use reco_core::engine::{
    CoverageBoundary, DetectionTarget, ExecutorKind, FrameSet, InputFormat, RenderOutcome, Route,
    StackPacker, StackedAtlas, StackedReplayGpuRecorder, StackedReplayRecorder, StitchCore,
    StitchCoreError, names_cuda,
};
use reco_core::number::{Real32, Real64};
use reco_core::panner::{
    PanContext, Panner, PipelineEvent, PipelineEventSink, TrackState, TrackedEntity, Tracker,
    WorldState,
};
use reco_core::pipeline::{
    FrameUpload, GpuSourceBindGroups, PipelineError, StitchPipeline, ViewportConfig,
};
use reco_core::planes::{Nv12Planes, YuvPlanes};
use reco_core::pose::{Pose, ViewportPosition};
use reco_core::projection::LShape;
use reco_core::time::Duration;

fn r64(value: f64) -> Real64 {
    Real64 { bits: value.to_bits() }
}

fn r32(value: f32) -> Real32 {
    Real32 { bits: value.to_bits() }
}

fn f32_of(value: Real32) -> f32 {
    f32::from_bits(value.bits)
}

fn calib(w: u32, h: u32) -> Calibration {
    let shape = LShape {
        intersect: r64(0.5),
        x_ty: r64(0.0),
        x_rz: r64(0.0),
        z_rx: r64(0.0),
        x_rx: r64(0.0),
        z_rz: r64(0.0),
        blend_width: r32(0.05),
    };
    Calibration::new(
        vec![Lens::flat(w, h), Lens::flat(w, h)],
        Topology::from(shape),
        Framing { axis_offset: r64(0.25), tilt: r64(0.0), roll: r64(0.0) },
    )
}

fn area() -> CoverageBoundary {
    CoverageBoundary {
        max_fov_degrees: r32(60.0),
        yaw_min: r32(-1.0),
        yaw_max: r32(1.0),
        pitch_min: r32(-0.3),
        pitch_max: r32(0.3),
        rig_tilt: r32(0.0),
        rig_roll: r32(0.0),
    }
}

fn engine(kind: ExecutorKind, w: u32, h: u32) -> StitchCore {
    StitchCore::new(kind, InputFormat::Yuv420p, calib(w, h), (w, h), (w, h), area()).unwrap()
}

fn cpu_engine(w: u32, h: u32) -> StitchCore {
    engine(ExecutorKind::Cpu, w, h)
}

fn ms(n: u64) -> Duration {
    Duration::from_millis(n)
}

/// Places every detection straight ahead.
struct Ahead;

impl PanoramaMap for Ahead {
    fn camera_to_panorama(&self, _camera: CameraId, _x: Real32, _y: Real32) -> Option<Pose> {
        Some(Pose::default())
    }
}

struct NullDetector;

impl UnifiedDetector for NullDetector {
    fn name(&self) -> &'static str {
        "null"
    }
    fn detect(
        &mut self,
        _camera: CameraId,
        _frame: &DetectorFrame<'_>,
    ) -> Result<Vec<Detection>, DetectorError> {
        Ok(Vec::new())
    }
}

struct RecordingDetector;

impl UnifiedDetector for RecordingDetector {
    fn name(&self) -> &'static str {
        "recording"
    }
    fn detect(
        &mut self,
        camera: CameraId,
        frame: &DetectorFrame<'_>,
    ) -> Result<Vec<Detection>, DetectorError> {
        match frame {
            DetectorFrame::Cpu(_) => Ok(vec![Detection {
                camera,
                class_id: 0,
                confidence: r32(0.9),
                center_x: r32(0.5),
                center_y: r32(0.5),
                width: r32(0.1),
                height: r32(0.1),
            }]),
            _ => Err(DetectorError::UnsupportedFrameKind),
        }
    }
}

#[test]
fn engine_over_cpu_executor_pure_logic_works() {
    let (w, h) = (64u32, 36u32);
    let mut core = cpu_engine(w, h);

    assert_eq!(core.output_dims(), (w, h));
    assert_eq!(core.camera_count(), 2);
    assert_eq!(core.projection_name(), "l-shape-stereo-2camera");
    assert!(core.coverage().is_some(), "coverage builds without a GPU");
    assert!(core.max_fov_degrees().is_some());

    core.set_blend_width(r32(0.1));
    assert!((f32_of(core.calibration().topology.blend_width()) - 0.1).abs() < 1e-6);
    core.set_rig_tilt(r32(0.2));
    assert!((f64::from_bits(core.calibration().framing.tilt.bits) - 0.2).abs() < 1e-6);
    assert_eq!(core.resize(48, 26), Some((48, 26)));
    assert_eq!(core.output_dims(), (48, 26));

    let pose = Pose { yaw: r32(10.0), pitch: r32(10.0), fov_degrees: r32(50.0) };
    let inputs = core.clamp_inputs(pose).unwrap();
    assert_eq!((inputs.width, inputs.height), (48, 26));
    let clamped = core.safe_clamp(pose, r32(1.0), r32(0.3));
    assert!(f32_of(clamped.yaw).is_finite() && f32_of(clamped.pitch).is_finite());
    assert!(
        f32_of(clamped.yaw).abs() < 10.0,
        "clamp actually constrained the pose"
    );

    let y = vec![0u8; (w * h) as usize];
    let uv = vec![128u8; (w * h / 4) as usize];
    let frames = FrameSet::Yuv420p(vec![
        YuvPlanes { y: &y, u: &uv, v: &uv },
        YuvPlanes { y: &y, u: &uv, v: &uv },
    ]);
    let plan = core.submit_frame(&frames, &Ahead, ms(0), r64(0.0)).unwrap();
    assert_eq!(plan.route, Route::Cpu);
    let request = core.render_request(plan, r32(0.0), r32(0.0)).unwrap();
    assert_eq!(request.executor, ExecutorKind::Cpu);
    core.deliver_cpu_frame(vec![7u8; 48 * 26 * 4], request.pose, ms(0));
    match core.outcome(true) {
        RenderOutcome::Rgba(bytes) => {
            assert_eq!(bytes.len(), 48 * 26 * 4);
        }
        RenderOutcome::Warmup => {
            panic!("CPU submit is synchronous - no warmup")
        }
    }
    assert_eq!(core.frame_count(), 1);

    assert!(matches!(core.flush().unwrap_err(), StitchCoreError::RequiresGpu));
    assert!(matches!(core.require_gpu().unwrap_err(), StitchCoreError::RequiresGpu));
    assert!(matches!(
        core.submit_frame_bgra_at_pose(Pose::default(), ms(0)).unwrap_err(),
        StitchCoreError::RequiresGpu
    ));
}

#[test]
fn stitch_core_error_is_send_sync() {
    fn assert_send_sync<T: Send + Sync>() {}
    assert_send_sync::<StitchCoreError>();
}

#[test]
fn render_outcome_warmup_constructs() {
    let outcome: RenderOutcome<'_> = RenderOutcome::Warmup;
    match outcome {
        RenderOutcome::Warmup => {}
        RenderOutcome::Rgba(_) => unreachable!("built a Warmup"),
    }
}

#[test]
fn detection_due_needs_detector_and_respects_interval() {
    let mut core = cpu_engine(64, 36);
    assert!(!core.detection_due(0), "no detector attached");

    core.set_detector(Box::new(NullDetector));
    assert!(core.detection_due(0));
    assert!(core.detection_due(1));

    core.set_detection_interval(3);
    assert!(core.detection_due(0));
    assert!(!core.detection_due(1));
    assert!(!core.detection_due(2));
    assert!(core.detection_due(3));

    core.set_detection_interval(0);
    assert!(core.detection_due(1), "interval clamps to 1");
}

#[test]
fn run_detection_frames_dispatches_both_cameras() {
    let mut core = cpu_engine(64, 36);
    core.set_detector(Box::new(RecordingDetector));

    let y = vec![0u8; 8];
    let uv = vec![128u8; 2];
    let frame = |cam| {
        (
            cam,
            DetectorFrame::Cpu(RawFrame {
                y: &y,
                chroma: ChromaFormat::Yuv420p { u: &uv, v: &uv },
                width: 4,
                height: 2,
            }),
        )
    };
    core.run_detection_frames(&[frame(CameraId::Left), frame(CameraId::Right)], &Ahead);

    let dets = core.last_detections();
    assert_eq!(dets.len(), 2);
    assert_eq!(dets[0].camera, CameraId::Left);
    assert_eq!(dets[1].camera, CameraId::Right);
}

#[test]
fn a_failing_detector_adds_nothing_and_is_forgotten_when_detached() {
    let mut core = cpu_engine(64, 36);
    core.set_detector(Box::new(RecordingDetector));
    let y = vec![0u8; 8];
    let uv = vec![128u8; 2];
    let good = DetectorFrame::Cpu(RawFrame {
        y: &y,
        chroma: ChromaFormat::Nv12 { uv: &uv },
        width: 4,
        height: 2,
    });
    let bad = DetectorFrame::Rgba { data: &y, width: 1, height: 2 };
    core.run_detection_frames(&[(CameraId::Left, bad), (CameraId::Right, good)], &Ahead);
    assert_eq!(core.last_detections().len(), 1);
    assert_eq!(core.last_detections()[0].camera, CameraId::Right);
    assert_eq!(core.last_detections()[0].position, Some(Pose::default()));
    core.clear_detector();
    assert!(core.last_detections().is_empty());
    assert!(!core.detection_due(0));
}

/// Remembers the pairs it is given.
struct PairRecorder {
    pairs: Arc<Mutex<Vec<(u8, u8, u32, u32)>>>,
    finished: Arc<Mutex<bool>>,
}

impl StackedReplayRecorder for PairRecorder {
    fn record_yuv(&mut self, left: &YuvPlanes<'_>, right: &YuvPlanes<'_>, width: u32, height: u32) {
        self.pairs.lock().unwrap().push((left.y[0], right.y[0], width, height));
    }
    fn finish(&mut self) {
        *self.finished.lock().unwrap() = true;
    }
}

#[test]
fn pairs_are_recorded_and_single_frames_are_passed_over() {
    let mut core = cpu_engine(4, 2);
    let pairs = Arc::new(Mutex::new(Vec::new()));
    let finished = Arc::new(Mutex::new(false));
    core.set_stacked_recorder(Box::new(PairRecorder {
        pairs: pairs.clone(),
        finished: finished.clone(),
    }));
    core.set_detector(Box::new(RecordingDetector));
    let one = vec![1u8; 8];
    let two = vec![2u8; 8];
    let uv = vec![128u8; 2];

    let single = FrameSet::Yuv420p(vec![YuvPlanes { y: &one, u: &uv, v: &uv }]);
    let plan = core.submit_frame(&single, &Ahead, ms(5), r64(0.0)).unwrap();
    assert!(plan.warn && !plan.ran_detection);
    let plan = core.submit_frame(&single, &Ahead, ms(6), r64(0.0)).unwrap();
    assert!(!plan.warn, "the warning comes once");
    assert!(pairs.lock().unwrap().is_empty());

    let pair = FrameSet::Yuv420p(vec![
        YuvPlanes { y: &one, u: &uv, v: &uv },
        YuvPlanes { y: &two, u: &uv, v: &uv },
    ]);
    let plan = core.submit_frame(&pair, &Ahead, ms(7), r64(0.0)).unwrap();
    assert!(plan.ran_detection);
    assert_eq!(*pairs.lock().unwrap(), vec![(1, 2, 4, 2)]);
    assert_eq!(core.last_detections().len(), 2);

    let nv12 = FrameSet::Nv12(vec![Nv12Planes { y: &one, uv: &uv }, Nv12Planes { y: &two, uv: &uv }]);
    core.submit_frame(&nv12, &Ahead, ms(8), r64(0.0)).unwrap();
    assert_eq!(pairs.lock().unwrap().len(), 1, "interleaved frames are not recorded");

    core.clear_stacked_recorder();
    assert!(*finished.lock().unwrap());
}

#[test]
fn frames_in_device_memory_are_refused() {
    let mut core = engine(ExecutorKind::Gpu, 8, 8);
    let err = core.submit_frame(&FrameSet::Resident, &Ahead, ms(0), r64(0.0)).unwrap_err();
    assert_eq!(
        err.message(),
        "config: GPU-resident frame sets are session-managed zero-copy paths; \
         submit_frame takes CPU-resident sets (YUV420P / NV12)"
    );
}

#[test]
fn the_device_renders_pairs_only() {
    let mut core = engine(ExecutorKind::Gpu, 4, 2);
    let y = vec![0u8; 8];
    let uv = vec![128u8; 2];
    let single = FrameSet::Yuv420p(vec![YuvPlanes { y: &y, u: &uv, v: &uv }]);
    let plan = core.submit_frame(&single, &Ahead, ms(0), r64(0.0)).unwrap();
    assert_eq!(plan.route, Route::NotWired);
    let err = core.render_request(plan, r32(0.0), r32(0.0)).unwrap_err();
    assert_eq!(
        err.message(),
        "executor: the mono GPU pass is not wired yet; run mono topologies on the CPU executor"
    );
}

#[test]
fn device_frames_arrive_two_submits_later() {
    let mut core = engine(ExecutorKind::Gpu, 4, 2);
    core.enable_replay_buffer(Some(ms(1000)));
    let mut slots = vec![0u8; 3];
    let mut seen = Vec::new();
    for n in 0..5u8 {
        let due = core.staging_slots().unwrap();
        slots[due.write] = n;
        let read = due.read.map(|slot| vec![slots[slot]]);
        let delivered = read.is_some();
        core.deliver_gpu_frame(read, Pose::default(), ms(n as u64));
        match core.outcome(delivered) {
            RenderOutcome::Warmup => seen.push(None),
            RenderOutcome::Rgba(bytes) => seen.push(Some(bytes[0])),
        }
    }
    assert_eq!(seen, vec![None, None, Some(0), Some(1), Some(2)]);
    assert_eq!(core.frame_count(), 5);
    assert_eq!(core.replay_buffer().unwrap().len(), 3);
    let mut drained = Vec::new();
    while let Some(slot) = core.flush().unwrap() {
        drained.push(slots[slot]);
        core.flushed();
    }
    assert_eq!(drained, vec![3, 4]);
}

/// Submit a pair to a device whose picture has as many bytes as the engine's output
/// asks for. Returns the length of the picture that was delivered, if one was.
fn submit_to_device(
    core: &mut StitchCore,
    staging: &mut Vec<Vec<u8>>,
    frames: &FrameSet<'_>,
) -> Option<usize> {
    let plan = core.submit_frame(frames, &Ahead, ms(0), r64(0.0)).expect("submit");
    let request = core.render_request(plan, r32(0.0), r32(0.0)).expect("submit");
    assert_eq!(request.executor, ExecutorKind::Gpu);
    let slots = core.staging_slots().expect("submit");
    let (width, height) = core.output_dims();
    staging[slots.write] = vec![0; (width * height * 4) as usize];
    let read = slots.read.map(|slot| staging[slot].clone());
    let delivered = read.is_some();
    core.deliver_gpu_frame(read, request.pose, ms(0));
    match core.outcome(delivered) {
        RenderOutcome::Warmup => None,
        RenderOutcome::Rgba(bytes) => Some(bytes.len()),
    }
}

#[test]
fn resize_then_submit_yields_resized_frames() {
    let (cam_w, cam_h) = (192u32, 108u32);
    let mut core = StitchCore::new(
        ExecutorKind::Gpu,
        InputFormat::Nv12,
        calib(cam_w, cam_h),
        (160, 90),
        (cam_w, cam_h),
        area(),
    )
    .unwrap_or_else(|_| panic!("engine"));
    let plane = |value: u8| {
        let pixels = (cam_w * cam_h) as usize;
        (vec![value; pixels], vec![value; pixels / 2])
    };
    let ((ly, luv), (ry, ruv)) = (plane(0), plane(30));
    let frames = FrameSet::Nv12(vec![
        Nv12Planes { y: &ly, uv: &luv },
        Nv12Planes { y: &ry, uv: &ruv },
    ]);
    let mut staging = vec![Vec::new(); 3];

    // Warm the ring at the original size, then resize.
    let _ = submit_to_device(&mut core, &mut staging, &frames);
    assert_eq!(core.resize(128, 72), Some((128, 72)));

    // The new ring delivers frames at the new size by the third submit.
    let mut delivered = None;
    for _ in 0..3 {
        if let Some(len) = submit_to_device(&mut core, &mut staging, &frames) {
            delivered = Some(len);
            break;
        }
    }
    assert_eq!(delivered, Some((128 * 72 * 4) as usize));
}

#[test]
fn resizing_a_device_drops_the_frames_on_their_way() {
    let mut core = engine(ExecutorKind::Gpu, 160, 90);
    core.deliver_gpu_frame(None, Pose::default(), ms(0));
    assert_eq!(core.flush().unwrap(), Some(0));
    assert_eq!(core.resize(0, 72), None);
    assert_eq!(core.resize(128, 72), Some((128, 72)));
    assert_eq!(core.flush().unwrap(), None);
    assert!(
        StitchCore::new(
            ExecutorKind::Gpu,
            InputFormat::Nv12,
            calib(4, 4),
            (0, 4),
            (4, 4),
            area()
        )
        .is_err()
    );
}

#[test]
fn replay_keeps_what_was_delivered() {
    let mut core = cpu_engine(1, 1);
    core.enable_replay_buffer(Some(ms(100)));
    let y = vec![0u8; 1];
    let frames = FrameSet::Nv12(vec![Nv12Planes { y: &y, uv: &y }, Nv12Planes { y: &y, uv: &y }]);
    core.submit_frame(&frames, &Ahead, ms(1000), r64(0.0)).unwrap();
    core.deliver_cpu_frame(vec![1, 1, 1, 1], Pose::default(), ms(1000));
    core.deliver_cpu_frame(vec![2, 2, 2, 2], Pose::default(), ms(1150));
    let replay = core.replay_buffer_mut().unwrap();
    assert_eq!(replay.len(), 1);
    assert_eq!(replay.latest().unwrap().captured_at, ms(150));
    assert_eq!(replay.take()[0].rgba, vec![2, 2, 2, 2]);
    core.enable_replay_buffer(None);
    assert!(core.replay_buffer().is_none());
}

/// Looks at the ball.
struct EchoPanner;

impl Panner for EchoPanner {
    fn decide(&mut self, world: &WorldState, _ctx: &PanContext<'_>) -> ViewportPosition {
        match world.ball {
            Some(b) => ViewportPosition {
                yaw: b.yaw,
                pitch: b.pitch,
                fov_degrees: None,
            },
            None => ViewportPosition::default(),
        }
    }
}

fn ball(yaw: f32, state: TrackState) -> TrackedEntity {
    TrackedEntity {
        id: 0,
        class_id: 0,
        yaw: r32(yaw),
        pitch: r32(-0.05),
        velocity: None,
        confidence: r32(0.9),
        state,
        age_frames: 5,
        origin: CameraId::Left,
    }
}

#[test]
fn panner_echo_panner_follows_ball() {
    let cal = calib(1920, 1080);
    let mut p: Box<dyn Panner> = Box::new(EchoPanner);
    let world = WorldState {
        ball: Some(ball(0.3, TrackState::Tracking)),
        players: vec![],
    };
    let ctx = PanContext {
        frame_index: 0,
        timestamp_ms: r64(0.0),
        previous_position: ViewportPosition::default(),
        calibration: &cal,
    };
    let out = p.decide(&world, &ctx);
    assert_eq!(f32_of(out.yaw), 0.3);
    assert_eq!(f32_of(out.pitch), -0.05);
}

#[test]
fn panner_echo_panner_defaults_without_ball() {
    let cal = calib(1920, 1080);
    let mut p = EchoPanner;
    let world = WorldState::default();
    let ctx = PanContext {
        frame_index: 0,
        timestamp_ms: r64(0.0),
        previous_position: ViewportPosition::default(),
        calibration: &cal,
    };
    let out = p.decide(&world, &ctx);
    assert_eq!(f32_of(out.yaw), 0.0);
    assert_eq!(f32_of(out.pitch), 0.0);
}

/// Gives the entities it was made with, and remembers the players it saw.
struct FixedTracker {
    entities: Vec<TrackedEntity>,
    saw: Arc<Mutex<usize>>,
}

impl Tracker for FixedTracker {
    fn class_id(&self) -> u16 {
        0
    }
    fn observe_world(&mut self, world: &WorldState) {
        *self.saw.lock().unwrap() = world.players.len();
    }
    fn update(&mut self, _detections: &[MappedDetection], _timestamp_ms: Real64) -> Vec<TrackedEntity> {
        self.entities.clone()
    }
}

/// Remembers the names of the events.
struct EventLog(Arc<Mutex<Vec<&'static str>>>);

impl PipelineEventSink for EventLog {
    fn emit(&mut self, event: PipelineEvent) {
        self.0.lock().unwrap().push(match event {
            PipelineEvent::DetectionsRaw { .. } => "detections",
            PipelineEvent::WorldState { .. } => "world",
            PipelineEvent::PanDecision { .. } => "decision",
            PipelineEvent::PosePresented { .. } => "presented",
        });
    }
}

#[test]
fn the_chain_runs_trackers_then_the_panner() {
    let mut core = cpu_engine(64, 36);
    let log = Arc::new(Mutex::new(Vec::new()));
    let saw = Arc::new(Mutex::new(99));
    core.set_event_sink(Box::new(EventLog(log.clone())));
    let stats = core.dispatch_pose(0, r64(0.0));
    assert_eq!(stats.pose, None);
    assert_eq!(*log.lock().unwrap(), vec!["detections"]);
    log.lock().unwrap().clear();

    core.set_player_tracker(Box::new(FixedTracker {
        entities: vec![ball(0.0, TrackState::Lost), ball(0.1, TrackState::Tracking)],
        saw: Arc::new(Mutex::new(0)),
    }));
    core.set_ball_tracker(Box::new(FixedTracker {
        entities: vec![ball(0.25, TrackState::Tracking), ball(0.5, TrackState::Tracking)],
        saw: saw.clone(),
    }));
    core.set_panner(Box::new(EchoPanner));
    let stats = core.dispatch_pose(1, r64(0.0));
    assert_eq!(stats.active_tracks, 2);
    assert!(stats.ball_present);
    assert_eq!(f32_of(stats.pose.unwrap().yaw), 0.25, "the first ball counts");
    assert_eq!(*saw.lock().unwrap(), 2, "the ball's tracker sees this frame's players");
    assert_eq!(*log.lock().unwrap(), vec!["detections", "world", "decision"]);
    log.lock().unwrap().clear();

    let pose = core.presented_clamped_pose(1, r32(0.2), r32(0.0));
    assert_eq!((f32_of(pose.yaw), f32_of(pose.fov_degrees)), (0.2, 60.0));
    assert_eq!(*log.lock().unwrap(), vec!["presented"]);

    let world = core.track_only(2, r64(1.0));
    assert_eq!(world.players.len(), 2);
    let ahead = core.decide_pose_with_lookahead(&world, &[], 2, r64(1.0));
    assert_eq!(f32_of(ahead.yaw), 0.25);
    core.clear_panner();
    core.clear_ball_tracker();
    core.clear_player_tracker();
    core.set_previous_panner_pose(ViewportPosition::default());
    let stays = core.decide_pose_with_lookahead(&world, &[], 3, r64(1.0));
    assert_eq!(stays, ViewportPosition::default());
}

#[test]
fn an_unconstrained_camera_keeps_its_field_of_view() {
    let mut core = cpu_engine(64, 36);
    let request = core.current_pose(r64(0.0));
    assert!(request.constrain);
    assert_eq!(f32_of(core.resolve(request, r32(0.1), r32(0.2)).fov_degrees), 60.0);
    assert!(!core.toggle_constrained_look());
    let request = core.current_pose(r64(0.0));
    let pose = core.resolve(request, r32(0.1), r32(0.2));
    assert_eq!((f32_of(pose.yaw), f32_of(pose.fov_degrees)), (0.1, 75.0));
    assert!(core.toggle_constrained_look());
    assert!(core.constrained_look());
    core.set_constrained_look(false);
    assert!(!core.constrained_look());
    let world = Pose { yaw: r32(1.0), pitch: r32(1.0), fov_degrees: r32(30.0) };
    assert_eq!(f32_of(core.orient_pose(world, r32(0.5), r32(0.6)).fov_degrees), 30.0);
}

#[test]
fn margins_follow_the_rounded_lean() {
    let mut core = cpu_engine(64, 36);
    let framing = Framing { axis_offset: r64(0.0), tilt: r64(0.1), roll: r64(-1e-60) };
    core.update_framing(framing, area());
    assert_eq!(core.coverage().unwrap(), area(), "a new area comes with its margins");
    core.set_rig_roll(r32(0.3));
    assert_eq!(f64::from_bits(core.calibration().framing.roll.bits), 0.3f32 as f64);
    let coverage = core.coverage().unwrap();
    assert_eq!((f32_of(coverage.rig_tilt), f32_of(coverage.rig_roll)), (0.1, 0.3));
    let pose = Pose { yaw: r32(0.0), pitch: r32(0.0), fov_degrees: r32(30.0) };
    let inputs = core.clamp_inputs(pose).unwrap();
    assert_eq!((f32_of(inputs.rig_tilt), f32_of(inputs.rig_roll)), (0.1, 0.3));
}

#[test]
fn settings_reach_the_calibration() {
    let mut core = cpu_engine(64, 36);
    core.set_lens_correction_amount(r32(0.5));
    assert!(core.calibration().lenses.iter().all(|l| f32_of(l.correction) == 0.5));
    core.set_rig_roll(r32(0.25));
    assert_eq!(f64::from_bits(core.calibration().framing.roll.bits), 0.25);
    assert_eq!(core.coverage().unwrap().rig_roll, r32(0.25));
    let wide = CoverageBoundary { max_fov_degrees: r32(90.0), ..area() };
    core.update_camera_params(None, Some(Lens::flat(10, 10)), wide);
    assert_eq!(core.calibration().lenses[0].width, 64);
    assert_eq!(core.calibration().lenses[1].width, 10);
    assert_eq!(core.max_fov_degrees(), Some(r32(90.0)));
    let extent = core.panorama_extent().unwrap();
    assert_eq!((extent.yaw_min, extent.pitch_max), (r32(-1.0), r32(0.3)));
    let framing = Framing { axis_offset: r64(0.5), tilt: r64(0.1), roll: r64(0.0) };
    core.update_framing(framing, area());
    assert_eq!(core.calibration().framing, framing);
    let topology = calib(1, 1).topology;
    core.update_topology(topology, area());
    assert_eq!(core.calibration().topology, topology);
    core.update_calibration(calib(8, 8), area());
    assert_eq!(core.calibration().lenses[0].width, 8);
    core.set_full_range(true);
    core.set_flip_180(true, false);
    assert_eq!(core.source_info(), (64, 36));
    assert_eq!(core.detection_interval(), 1);
}

#[test]
fn frames_at_a_given_pose_are_detected_on_when_due() {
    let mut core = cpu_engine(4, 2);
    core.set_detector(Box::new(RecordingDetector));
    core.set_detection_interval(2);
    let y = vec![0u8; 8];
    let uv = vec![128u8; 2];
    let planes = YuvPlanes { y: &y, u: &uv, v: &uv };
    let pose = Pose { yaw: r32(0.5), pitch: r32(0.0), fov_degrees: r32(40.0) };
    let request = core.submit_frame_yuv_at_pose(&planes, &planes, pose, &Ahead, ms(0));
    assert_eq!(request.pose, pose);
    assert_eq!(core.last_detections().len(), 2);
    core.deliver_cpu_frame(vec![], pose, ms(0));
    core.clear_detector();
    core.set_detector(Box::new(RecordingDetector));
    core.submit_frame_yuv_at_pose(&planes, &planes, pose, &Ahead, ms(1));
    assert!(core.last_detections().is_empty(), "the second frame is not due");
}

/// Counts the packed pictures.
struct AtlasCounter(Arc<Mutex<u32>>);

impl StackedReplayGpuRecorder for AtlasCounter {
    fn record_atlas(&mut self, atlas: &StackedAtlas) {
        *self.0.lock().unwrap() += atlas.width;
    }
}

#[test]
fn packing_takes_as_many_frames_as_there_are_places() {
    let mut core = engine(ExecutorKind::Gpu, 4, 2);
    assert_eq!(core.pack_gpu_stacked_replay_from_views(), None);
    let packer = StackPacker { capacity: 1, atlas_width: 8, atlas_height: 4 };
    assert_eq!(
        core.enable_gpu_stacked_replay(Err("odd".to_string())).unwrap_err().message(),
        "stacked packer: odd"
    );
    core.enable_gpu_stacked_replay(Ok(packer)).unwrap();
    assert_eq!(core.stacked_atlas_dims(), Some((8, 4)));
    let plan = core.pack_gpu_stacked_replay_from_views().unwrap();
    assert!(plan.left && !plan.right);
    let count = Arc::new(Mutex::new(0));
    core.set_stacked_gpu_recorder(Box::new(AtlasCounter(count.clone())));
    core.packed(None);
    core.packed(Some(StackedAtlas { width: 8, height: 4, y: vec![], u: vec![], v: vec![] }));
    core.flush_stacked_gpu_recorder();
    assert_eq!(*count.lock().unwrap(), 8);
    core.disable_gpu_stacked_replay();
    assert_eq!(core.stacked_atlas_dims(), None);

    let mut packed = StitchCore::new(
        ExecutorKind::Gpu,
        InputFormat::Bgra,
        calib(4, 2),
        (4, 2),
        (4, 2),
        area(),
    )
    .unwrap();
    assert_eq!(
        packed.enable_gpu_stacked_replay(Ok(packer)).unwrap_err().message(),
        "config: GPU stacked replay requires YUV420P or NV12 input; BGRA pipelines must use \
         the CPU replay-recording path"
    );
}

#[test]
fn pictures_for_encoding_come_from_the_device() {
    let gpu = engine(ExecutorKind::Gpu, 4, 2);
    assert_eq!(gpu.render_and_readback_nv12(Ok(Some(vec![1]))).unwrap(), Some(vec![1]));
    assert_eq!(
        gpu.render_and_readback_nv12(Err("lost".to_string())).unwrap_err().message(),
        "config: NV12 preview readback: lost"
    );
    assert_eq!(
        gpu.flush_nv12(Err("lost".to_string())).unwrap_err().message(),
        "config: NV12 preview flush: lost"
    );
    let cpu = cpu_engine(4, 2);
    assert_eq!(
        cpu.flush_nv12(Ok(None)).unwrap_err().message(),
        "operation requires the GPU executor; this engine runs the CPU executor"
    );
}

#[test]
fn a_detectors_name_tells_which_frames_it_reads() {
    assert!(names_cuda("yolo-ort-cuda-fp16"));
    assert!(!names_cuda("ort-cud"));
    assert!(!names_cuda(""));
    let mut core = cpu_engine(4, 2);
    assert!(!core.detector_needs_cuda_frames());
    core.set_detector(Box::new(NullDetector));
    assert!(!core.detector_needs_cuda_frames());
}

#[test]
fn a_target_takes_what_the_engine_takes() {
    let mut core = engine(ExecutorKind::Gpu, 4, 2);
    let target: &mut dyn DetectionTarget = &mut core;
    target.set_detector(Box::new(NullDetector));
    target.set_detection_interval(4);
    target.set_panner(Box::new(EchoPanner));
    assert_eq!(target.source_info(), (4, 2));
    assert!(target.has_gpu());
    assert!(core.detection_due(8) && !core.detection_due(9));
}

#[test]
fn messages_of_the_engine_name_the_stage() {
    assert_eq!(StitchCoreError::Pipeline("x".into()).message(), "pipeline: x");
    assert_eq!(StitchCoreError::Readback("x".into()).message(), "readback: x");
}

/// Gives a few frames.
struct Frames {
    left: Vec<StereoFrame>,
    fail_at_end: bool,
}

impl FrameSource for Frames {
    fn info(&self) -> (u32, u32) {
        (4, 2)
    }
    fn next_frame(&mut self) -> Result<Option<StereoFrame>, String> {
        if self.left.is_empty() {
            return if self.fail_at_end { Err("broken".to_string()) } else { Ok(None) };
        }
        Ok(Some(self.left.remove(0)))
    }
}

/// Remembers what it was given; fails on one frame.
struct Sink {
    rows: Arc<Mutex<Vec<(usize, u64)>>>,
    fail_on: Option<u64>,
}

impl DetectionSink for Sink {
    fn take(
        &mut self,
        detections: &[MappedDetection],
        frame_index: u64,
        _timestamp_ms: Real64,
    ) -> Result<(), String> {
        self.rows.lock().unwrap().push((detections.len(), frame_index));
        if self.fail_on == Some(frame_index) { Err("full".to_string()) } else { Ok(()) }
    }
}

/// Never stops, unless told to from the start.
struct Monitor {
    stop: bool,
    done: u64,
}

impl RunMonitor for Monitor {
    fn interrupted(&self) -> bool {
        self.stop
    }
    fn elapsed_ms(&self) -> Real64 {
        r64(0.0)
    }
    fn elapsed(&self) -> Duration {
        ms(0)
    }
    fn progress(&mut self, progress: FrameProgress) {
        self.done = progress.frames_completed;
    }
}

fn some_frames() -> Vec<StereoFrame> {
    let yuv = || YuvData { y: vec![0; 8], u: vec![0; 2], v: vec![0; 2] };
    let nv12 = || Nv12Data { y: vec![0; 8], uv: vec![0; 4] };
    vec![
        StereoFrame::Yuv420p { left: yuv(), right: yuv() },
        StereoFrame::GpuResident,
        StereoFrame::Nv12 { left: nv12(), right: nv12() },
    ]
}

#[test]
fn an_analysis_hands_every_frame_to_the_sink() {
    let rows = Arc::new(Mutex::new(Vec::new()));
    let mut pipeline = AnalyzePipeline::new(calib(4, 2), area());
    pipeline.set_detector(Box::new(RecordingDetector));
    pipeline.set_detection_sink(Box::new(Sink { rows: rows.clone(), fail_on: None }));
    pipeline.set_detection_interval(2);
    let mut source = Frames { left: some_frames(), fail_at_end: false };
    let mut monitor = Monitor { stop: false, done: 0 };
    let done = pipeline.run(&mut source, u64::MAX, &mut monitor, &Ahead).unwrap();
    assert_eq!(done, 3);
    assert_eq!(monitor.done, 3);
    assert_eq!(*rows.lock().unwrap(), vec![(2, 0), (2, 1), (2, 2)]);
    assert_eq!(pipeline.frame_count(), 3);
    assert_eq!(pipeline.last_detections().len(), 2);
    assert_eq!(pipeline.coverage(), area());
    assert_eq!(pipeline.panorama_extent().yaw_max, r32(1.0));
}

#[test]
fn an_analysis_stops_at_limits_and_errors() {
    let mut pipeline = AnalyzePipeline::new(calib(4, 2), area());
    let mut source = Frames { left: some_frames(), fail_at_end: true };
    let mut monitor = Monitor { stop: true, done: 0 };
    assert_eq!(pipeline.run(&mut source, 10, &mut monitor, &Ahead).unwrap(), 0);
    monitor.stop = false;
    assert_eq!(pipeline.run(&mut source, 1, &mut monitor, &Ahead).unwrap(), 1);
    assert_eq!(pipeline.run(&mut source, 1, &mut monitor, &Ahead).unwrap(), 1);
    let err = pipeline.run(&mut source, 10, &mut monitor, &Ahead).unwrap_err();
    assert_eq!(err.message(), "source: broken");
    assert_eq!(pipeline.frame_count(), 3);

    let mut failing = AnalyzePipeline::new(calib(4, 2), area());
    let rows = Arc::new(Mutex::new(Vec::new()));
    failing.set_detection_sink(Box::new(Sink { rows, fail_on: Some(1) }));
    let mut source = Frames { left: some_frames(), fail_at_end: false };
    let err = failing.run(&mut source, 10, &mut monitor, &Ahead).unwrap_err();
    assert!(matches!(err, AnalyzeError::DetectionSink(_)));
    assert_eq!(err.message(), "detection sink: full");
    assert_eq!(failing.frame_count(), 1);
}

/// Finds as many objects as it was asked about frames so far.
struct Growing(usize, Arc<Mutex<Vec<CameraId>>>);

impl UnifiedDetector for Growing {
    fn name(&self) -> &'static str {
        "growing"
    }
    fn detect(
        &mut self,
        camera: CameraId,
        _frame: &DetectorFrame<'_>,
    ) -> Result<Vec<Detection>, DetectorError> {
        self.0 += 1;
        self.1.lock().unwrap().push(camera);
        let found = Detection {
            camera,
            class_id: 0,
            confidence: r32(0.5),
            center_x: r32(0.5),
            center_y: r32(0.5),
            width: r32(0.1),
            height: r32(0.1),
        };
        Ok(vec![found; self.0])
    }
}

#[test]
fn one_detector_sees_every_frame_once() {
    let asked = Arc::new(Mutex::new(Vec::new()));
    let mut core = cpu_engine(4, 2);
    core.set_detector(Box::new(Growing(0, asked.clone())));
    let (y, u, v) = (vec![0u8; 8], vec![0u8; 2], vec![0u8; 2]);
    let planes = || YuvPlanes { y: &y, u: &u, v: &v };
    core.submit_frame_yuv_at_pose(&planes(), &planes(), Pose::default(), &Ahead, ms(0));
    assert_eq!(core.last_detections().len(), 1 + 2);
    let frames = FrameSet::Yuv420p(vec![planes(), planes()]);
    assert!(core.submit_frame(&frames, &Ahead, ms(1), r64(1.0)).is_ok());
    assert_eq!(core.last_detections().len(), 3 + 4, "the same detector goes on");
    assert_eq!(
        *asked.lock().unwrap(),
        vec![CameraId::Left, CameraId::Right, CameraId::Left, CameraId::Right]
    );

    let asked = Arc::new(Mutex::new(Vec::new()));
    let mut pipeline = AnalyzePipeline::new(calib(4, 2), area());
    pipeline.set_detector(Box::new(Growing(0, asked.clone())));
    let mut source = Frames { left: some_frames(), fail_at_end: false };
    let mut monitor = Monitor { stop: false, done: 0 };
    assert_eq!(pipeline.run(&mut source, 10, &mut monitor, &Ahead).unwrap(), 3);
    assert_eq!(pipeline.last_detections().len(), 3 + 4);
    assert_eq!(asked.lock().unwrap().len(), 4, "the frame on the device is passed over");
}

/// Counts how often it is asked, and gives as many frames as it was told.
struct Counted {
    asked: u64,
    frames: u64,
    fails: bool,
}

impl FrameSource for Counted {
    fn info(&self) -> (u32, u32) {
        (4, 2)
    }
    fn next_frame(&mut self) -> Result<Option<StereoFrame>, String> {
        self.asked += 1;
        if self.asked <= self.frames {
            return Ok(Some(StereoFrame::MetalResident));
        }
        if self.fails { Err("broken".to_string()) } else { Ok(None) }
    }
}

/// Remembers every report, and stops after some.
struct Reports {
    heard: Vec<u64>,
    stop_after: usize,
}

impl RunMonitor for Reports {
    fn interrupted(&self) -> bool {
        self.heard.len() >= self.stop_after
    }
    fn elapsed_ms(&self) -> Real64 {
        r64(0.0)
    }
    fn elapsed(&self) -> Duration {
        ms(40 * self.heard.len() as u64)
    }
    fn progress(&mut self, progress: FrameProgress) {
        assert_eq!(progress.elapsed, self.elapsed(), "the time is the monitor's own");
        self.heard.push(progress.frames_completed);
    }
}

#[test]
fn the_source_is_asked_once_for_each_frame() {
    let run = |frames, fails, limit, stop_after| {
        let mut pipeline = AnalyzePipeline::new(calib(4, 2), area());
        pipeline.set_detector(Box::new(PanickingDetector));
        let mut source = Counted { asked: 0, frames, fails };
        let mut reports = Reports { heard: Vec::new(), stop_after };
        let outcome = pipeline.run(&mut source, limit, &mut reports, &Ahead);
        (outcome.is_ok(), pipeline.frame_count(), source.asked, reports.heard)
    };
    assert_eq!(run(3, false, 10, 99), (true, 3, 4, vec![1, 2, 3]));
    assert_eq!(run(3, true, 10, 99), (false, 3, 4, vec![1, 2, 3]));
    assert_eq!(run(5, true, 3, 99), (true, 3, 3, vec![1, 2, 3]), "at the limit");
    assert_eq!(run(5, true, 9, 2), (true, 2, 2, vec![1, 2]), "on the monitor's word");
    assert_eq!(run(5, true, 0, 99), (true, 0, 0, vec![]), "nothing to do");
}

/// Is never asked.
struct PanickingDetector;

impl UnifiedDetector for PanickingDetector {
    fn name(&self) -> &'static str {
        "panicking"
    }
    fn detect(
        &mut self,
        _camera: CameraId,
        _frame: &DetectorFrame<'_>,
    ) -> Result<Vec<Detection>, DetectorError> {
        panic!("a frame in device memory was detected on")
    }
}

/// Remembers the calls, and finds nothing.
struct Calls(&'static str, Arc<Mutex<Vec<String>>>);

impl Tracker for Calls {
    fn class_id(&self) -> u16 {
        0
    }
    fn observe_world(&mut self, _world: &WorldState) {
        self.1.lock().unwrap().push(format!("{} sees", self.0));
    }
    fn update(&mut self, _detections: &[MappedDetection], _at: Real64) -> Vec<TrackedEntity> {
        self.1.lock().unwrap().push(format!("{} follows", self.0));
        Vec::new()
    }
}

/// Explains itself by an event.
struct Explaining(Arc<Mutex<Vec<String>>>);

impl Panner for Explaining {
    fn decide(&mut self, _world: &WorldState, _ctx: &PanContext<'_>) -> ViewportPosition {
        self.0.lock().unwrap().push("decides".to_string());
        ViewportPosition::default()
    }
    fn debug_event(&self, frame_index: u64) -> Option<PipelineEvent> {
        Some(PipelineEvent::PosePresented { frame_index, pose: ViewportPosition::default() })
    }
}

#[test]
fn each_part_of_the_chain_is_called_once() {
    let mut core = cpu_engine(64, 36);
    let calls = Arc::new(Mutex::new(Vec::new()));
    let log = Arc::new(Mutex::new(Vec::new()));
    core.set_player_tracker(Box::new(Calls("players", calls.clone())));
    core.set_ball_tracker(Box::new(Calls("ball", calls.clone())));
    core.dispatch_pose(0, r64(0.0));
    assert!(calls.lock().unwrap().is_empty(), "without a panner nothing runs");
    core.track_only(0, r64(0.0));
    assert_eq!(*calls.lock().unwrap(), vec!["players follows", "ball sees", "ball follows"]);
    calls.lock().unwrap().clear();
    core.set_panner(Box::new(Explaining(calls.clone())));
    core.set_event_sink(Box::new(EventLog(log.clone())));
    core.dispatch_pose(1, r64(0.0));
    assert_eq!(
        *calls.lock().unwrap(),
        vec!["players follows", "ball sees", "ball follows", "decides"]
    );
    assert_eq!(*log.lock().unwrap(), vec!["detections", "world", "decision", "presented"]);
}

fn viewport() -> ViewportConfig {
    ViewportConfig { width: 640, height: 360, fov_degrees: r32(75.0), blend_width: r32(0.05) }
}

#[test]
fn a_pipeline_checks_its_settings() {
    let make = |fault: Option<String>, w: u32, h: u32| {
        StitchPipeline::with_gpu(calib(4, 2), viewport(), fault, w, h, InputFormat::Nv12)
    };
    let text = |p: Result<StitchPipeline, PipelineError>| match p {
        Ok(_) => "ok".to_string(),
        Err(e) => e.message(),
    };
    assert_eq!(text(make(None, 1920, 1080)), "ok");
    assert_eq!(text(make(Some("bad fov".into()), 0, 0)), "invalid config: bad fov");
    assert_eq!(
        text(make(None, 0, 1080)),
        "invalid config: input dimensions must be > 0, got 0x1080"
    );
    assert_eq!(
        text(make(None, 8193, 10)),
        "invalid config: input dimensions 8193x10 exceed MAX_DIM (8192)"
    );
}

#[test]
fn a_pipeline_keeps_its_field_of_view_renderable() {
    let mut p =
        StitchPipeline::with_gpu(calib(4, 2), viewport(), None, 4, 2, InputFormat::Nv12).unwrap();
    p.set_fov(r32(200.0));
    assert_eq!(f32_of(p.fov()), 179.0);
    p.set_fov(r32(0.0));
    assert_eq!(f32_of(p.fov()), 1.0);
    p.set_fov(r32(42.0));
    assert_eq!(f32_of(p.fov()), 42.0);
    assert_eq!(p.resize(0, 5), None);
    assert_eq!(p.resize(10, 5), Some((10, 5)));
    let resolved = p.resolved(r32(0.5), r32(-0.5));
    assert_eq!((resolved.config.width, resolved.position.fov_degrees), (10, None));
    p.update_camera_params(Some(Lens::flat(9, 9)), None);
    assert_eq!(p.calibration.lenses[0].width, 9);
    assert_eq!(p.calibration.lenses[1].width, 4);
    p.update_layout(calib(1, 1).topology);
    p.update_calibration(calib(6, 6));
    assert_eq!(p.calibration.lenses[0].width, 6);
    p.set_flip_180(false, true);
    assert_eq!(p.flip_180, (false, true));
    assert_eq!(p.source_info(), (4, 2));
}

#[test]
fn frames_are_rendered_by_their_kind() {
    let frames = some_frames();
    match StitchPipeline::render_stereo_frame(&frames[0]) {
        Ok(FrameUpload::Yuv420p { left, right }) => {
            assert_eq!((left.y.len(), left.u.len(), right.v.len()), (8, 2, 2));
        }
        _ => panic!("three planes are uploaded as such"),
    }
    match StitchPipeline::render_stereo_frame(&frames[2]) {
        Ok(FrameUpload::Nv12 { left, right }) => {
            assert_eq!((left.y.len(), right.uv.len()), (8, 4));
        }
        _ => panic!("two planes are uploaded as such"),
    }
    assert_eq!(
        StitchPipeline::render_stereo_frame(&StereoFrame::GpuResident).err().unwrap().message(),
        "unsupported frame variant: GpuResident frames must use render_gpu_frame()"
    );
    assert_eq!(
        StitchPipeline::render_stereo_frame(&StereoFrame::MetalResident).err().unwrap().message(),
        "unsupported frame variant: unsupported StereoFrame variant for CPU render path"
    );
    let groups = GpuSourceBindGroups { left: [1, 2], right: [3, 4] };
    assert_eq!(StitchPipeline::render_gpu_frame(&groups, 1, 0), (2, 3));
    let requests = StitchPipeline::configure_gpu_source([(10, 11), (12, 13)], [(14, 15), (16, 17)]);
    let asked: Vec<_> = requests.iter().map(|r| (r.label, r.textures)).collect();
    assert_eq!(
        asked,
        vec![
            ("left_slot0", (10, 11)),
            ("left_slot1", (12, 13)),
            ("right_slot0", (14, 15)),
            ("right_slot1", (16, 17)),
        ]
    );
    let groups = GpuSourceBindGroups::from_handles([5, 6, 7, 8]);
    assert_eq!(groups, GpuSourceBindGroups { left: [5, 6], right: [7, 8] });
    assert_eq!(StitchPipeline::render_gpu_frame(&groups, 0, 1), (5, 8));
    let (left, right) = StitchPipeline::render_imported_textures((1, 2), (3, 4));
    assert_eq!((left.label, left.textures), ("metal_left", (1, 2)));
    assert_eq!((right.label, right.textures), ("metal_right", (3, 4)));
}
