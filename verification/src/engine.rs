//! The stitching engine: what happens to a submitted frame.
//!
//! [`StitchCore`] decides which stages run for a frame and keeps what they
//! need from one frame to the next. Rendering itself, and the trigonometry that
//! keeps the camera within the stitched area, are done by whoever holds the
//! device; the engine says what is to be rendered and takes the result.

use crate::calibration::{Calibration, FieldRoi, Framing, Lens, Topology};
use crate::detector::{
    CameraId, DetectorFrame, MappedDetection, UnifiedDetector, name_of, named, nv12_pair, nv12_seen, pair, yuv_pair,
    yuv_seen,
};
use crate::number::Real32;
use crate::panner::{Panner, PipelineEventSink, Tracker};
use crate::planes::{Nv12Planes, YuvPlanes};
use crate::pose::{DEFAULT_FOV, Pose, ViewportPosition};
use crate::replay::{ReplayBuffer, ReplayFrame, replay_pushed};
use crate::ring::ReadbackRing;
use crate::text::{has_part, joined, stands_in};
use crate::time::{Duration, monus};
use vstd::prelude::*;
use vstd::string::*;

pub mod laws;
pub mod submit;

verus! {

/// Why the engine could not do something.
#[derive(Clone, Debug)]
pub enum StitchCoreError {
    /// The renderer refused.
    Executor(String),
    /// The device pipeline failed.
    Pipeline(String),
    /// Reading the picture back failed.
    Readback(String),
    /// What was asked for cannot be combined.
    Config(String),
    /// Only the device renderer can do this.
    RequiresGpu,
    /// The replay packer failed.
    StackedPacker(String),
}

impl StitchCoreError {
    /// The message of the error.
    pub open spec fn text(&self) -> Seq<char> {
        match *self {
            StitchCoreError::Executor(e) => "executor: "@ + e@,
            StitchCoreError::Pipeline(e) => "pipeline: "@ + e@,
            StitchCoreError::Readback(e) => "readback: "@ + e@,
            StitchCoreError::Config(e) => "config: "@ + e@,
            StitchCoreError::RequiresGpu =>
                "operation requires the GPU executor; this engine runs the CPU executor"@,
            StitchCoreError::StackedPacker(e) => "stacked packer: "@ + e@,
        }
    }

    /// The message of the error.
    pub fn message(&self) -> (text: String)
        ensures
            text@ == self.text(),
    {
        match self {
            StitchCoreError::Executor(e) => joined("executor: ", e.as_str()),
            StitchCoreError::Pipeline(e) => joined("pipeline: ", e.as_str()),
            StitchCoreError::Readback(e) => joined("readback: ", e.as_str()),
            StitchCoreError::Config(e) => joined("config: ", e.as_str()),
            StitchCoreError::RequiresGpu => {
                "operation requires the GPU executor; this engine runs the CPU executor".to_owned()
            },
            StitchCoreError::StackedPacker(e) => joined("stacked packer: ", e.as_str()),
        }
    }
}

/// What a submit gives back.
pub enum RenderOutcome<'a> {
    /// The pipeline is filling; submit more frames.
    Warmup,
    /// A rendered frame, four bytes per pixel, valid until the next submit.
    Rgba(&'a [u8]),
}

/// What renders.
#[derive(Clone, Copy, Debug, PartialEq, Eq, Structural)]
pub enum ExecutorKind {
    /// The processor, at once.
    Cpu,
    /// The device, two frames later.
    Gpu,
}

/// Pixel format the device pipeline was built for.
#[derive(Clone, Copy, Debug, PartialEq, Eq, Structural)]
pub enum InputFormat {
    /// Three planes.
    Yuv420p,
    /// Two planes.
    Nv12,
    /// Packed pixels.
    Bgra,
}

/// The area that the stitched cameras cover.
#[derive(Clone, Copy, Debug, PartialEq, Eq, Structural)]
pub struct CoverageBoundary {
    /// Widest vertical field of view that fits, in degrees.
    pub max_fov_degrees: Real32,
    /// Leftmost pan angle.
    pub yaw_min: Real32,
    /// Rightmost pan angle.
    pub yaw_max: Real32,
    /// Lowest tilt angle.
    pub pitch_min: Real32,
    /// Highest tilt angle.
    pub pitch_max: Real32,
    /// Lean of the rig that its margins are for, forward.
    pub rig_tilt: Real32,
    /// Lean of the rig that its margins are for, sideways.
    pub rig_roll: Real32,
}

/// Angles of the stitched area.
#[derive(Clone, Copy, Debug, PartialEq, Eq, Structural)]
pub struct PanoramaExtent {
    /// Leftmost pan angle.
    pub yaw_min: Real32,
    /// Rightmost pan angle.
    pub yaw_max: Real32,
    /// Lowest tilt angle.
    pub pitch_min: Real32,
    /// Highest tilt angle.
    pub pitch_max: Real32,
}

impl CoverageBoundary {
    /// Angles of the area.
    pub open spec fn reach(self) -> PanoramaExtent {
        PanoramaExtent {
            yaw_min: self.yaw_min,
            yaw_max: self.yaw_max,
            pitch_min: self.pitch_min,
            pitch_max: self.pitch_max,
        }
    }

    /// Angles of the area.
    pub fn extent(&self) -> (extent: PanoramaExtent)
        ensures
            extent == self.reach(),
    {
        PanoramaExtent {
            yaw_min: self.yaw_min,
            yaw_max: self.yaw_max,
            pitch_min: self.pitch_min,
            pitch_max: self.pitch_max,
        }
    }
}

/// Records the pairs of source frames.
pub trait StackedReplayRecorder: Send {
    /// Record a pair of frames of the given size.
    fn record_yuv(&mut self, left: &YuvPlanes<'_>, right: &YuvPlanes<'_>, width: u32, height: u32);

    /// Write out what is buffered.
    fn flush(&mut self) {
    }

    /// Complete the recording.
    fn finish(&mut self) {
    }
}

/// Source frames packed next to each other.
#[derive(Clone, Debug)]
pub struct StackedAtlas {
    /// Width in pixels.
    pub width: u32,
    /// Height in pixels.
    pub height: u32,
    /// Luma.
    pub y: Vec<u8>,
    /// Cb.
    pub u: Vec<u8>,
    /// Cr.
    pub v: Vec<u8>,
}

/// Records packed source frames.
pub trait StackedReplayGpuRecorder: Send {
    /// Record packed frames.
    fn record_atlas(&mut self, atlas: &StackedAtlas);

    /// Write out what is buffered.
    fn flush(&mut self) {
    }

    /// Complete the recording.
    fn finish(&mut self) {
    }
}

/// Takes detectors, trackers and a panner.
pub trait DetectionTarget {
    /// Attach a detector.
    fn set_detector(&mut self, detector: Box<dyn UnifiedDetector>);

    /// Detect on one frame in every `interval`.
    fn set_detection_interval(&mut self, interval: u64);

    /// Attach the ball's tracker.
    fn set_ball_tracker(&mut self, tracker: Box<dyn Tracker>);

    /// Attach the players' tracker.
    fn set_player_tracker(&mut self, tracker: Box<dyn Tracker>);

    /// Attach a panner.
    fn set_panner(&mut self, panner: Box<dyn Panner>);

    /// Width and height of the source frames.
    fn source_info(&self) -> (u32, u32);

    /// Whether frames are rendered on a device.
    fn has_gpu(&self) -> bool;
}

/// The packer of source frames.
#[derive(Clone, Copy, Debug, PartialEq, Eq, Structural)]
pub struct StackPacker {
    /// Number of places in the grid.
    pub capacity: u32,
    /// Width of the packed picture.
    pub atlas_width: u32,
    /// Height of the packed picture.
    pub atlas_height: u32,
}

/// The frames to pack.
#[derive(Clone, Copy, Debug, PartialEq, Eq, Structural)]
pub struct PackPlan {
    /// Pack the left camera into the first place.
    pub left: bool,
    /// Pack the right camera into the second place.
    pub right: bool,
    /// Format of the frames.
    pub format: InputFormat,
}

/// Frames of one instant, one per camera.
pub enum FrameSet<'a> {
    /// Three planes each.
    Yuv420p(Vec<YuvPlanes<'a>>),
    /// Two planes each.
    Nv12(Vec<Nv12Planes<'a>>),
    /// In device memory.
    Resident,
}

impl FrameSet<'_> {
    /// Number of frames.
    pub open spec fn cameras(&self) -> nat {
        match self {
            FrameSet::Yuv420p(v) => v@.len(),
            FrameSet::Nv12(v) => v@.len(),
            FrameSet::Resident => 0,
        }
    }
}

impl<'a> FrameSet<'a> {
    /// A pair of frames as a detector gets them.
    pub open spec fn seen(self, width: u32, height: u32) -> Seq<(CameraId, DetectorFrame<'a>)> {
        match self {
            FrameSet::Yuv420p(v) => pair(
                yuv_seen(v@[0], width, height),
                yuv_seen(v@[1], width, height),
            ),
            FrameSet::Nv12(v) => pair(
                nv12_seen(v@[0], width, height),
                nv12_seen(v@[1], width, height),
            ),
            FrameSet::Resident => Seq::empty(),
        }
    }

    /// The frames as a detector gets them, if they are a pair.
    fn detector_frames(&self, width: u32, height: u32) -> (seen: Option<
        Vec<(CameraId, DetectorFrame<'a>)>,
    >)
        ensures
            match seen {
                Some(s) => self.cameras() == 2 && s@ == self.seen(width, height),
                None => self.cameras() != 2,
            },
    {
        match self {
            FrameSet::Yuv420p(cams) => if cams.len() == 2 {
                Some(yuv_pair(&cams[0], &cams[1], width, height))
            } else {
                None
            },
            FrameSet::Nv12(cams) => if cams.len() == 2 {
                Some(nv12_pair(&cams[0], &cams[1], width, height))
            } else {
                None
            },
            FrameSet::Resident => None,
        }
    }
}

/// Where a frame goes next.
#[derive(Clone, Copy, Debug, PartialEq, Eq, Structural)]
pub enum Route {
    /// To the processor.
    Cpu,
    /// To the device.
    Gpu,
    /// Nowhere: the device renders pairs only.
    NotWired,
}

/// Where the camera shall look, before the geometry has had its say.
#[derive(Clone, Copy, Debug, PartialEq, Eq, Structural)]
pub struct PoseRequest {
    /// The pose.
    pub raw: Pose,
    /// Whether it shall stay within the stitched area.
    pub constrain: bool,
}

/// What the stages before rendering made of a frame.
#[derive(Clone, Copy, Debug, PartialEq, Eq, Structural)]
pub struct SubmitPlan {
    /// Where the camera shall look.
    pub request: PoseRequest,
    /// Where the frame goes.
    pub route: Route,
    /// Whether detection ran on it.
    pub ran_detection: bool,
    /// Whether it is the first that detection had to pass over.
    pub warn: bool,
}

/// A frame to render.
#[derive(Clone, Copy, Debug, PartialEq, Eq, Structural)]
pub struct RenderRequest {
    /// Where the camera looks.
    pub pose: Pose,
    /// What renders.
    pub executor: ExecutorKind,
}

/// What keeping a pose within the stitched area starts from.
#[derive(Clone, Copy, Debug, PartialEq, Eq, Structural)]
pub struct ClampInputs {
    /// Pan angle.
    pub yaw: Real32,
    /// Tilt angle.
    pub pitch: Real32,
    /// Field of view, already narrow enough.
    pub fov_degrees: Real32,
    /// Width of the picture.
    pub width: u32,
    /// Height of the picture.
    pub height: u32,
    /// Frame of the virtual camera.
    pub framing: Framing,
    /// Lean of the rig, forward.
    pub rig_tilt: Real32,
    /// Lean of the rig, sideways.
    pub rig_roll: Real32,
}

/// What came of a frame's trackers and panner.
#[derive(Clone, Copy, Debug, PartialEq, Eq, Structural)]
pub struct DispatchStats {
    /// Where the panner wants to look, if there is one.
    pub pose: Option<ViewportPosition>,
    /// Number of detections.
    pub detections: u32,
    /// Number of players followed.
    pub active_tracks: u32,
    /// Whether there is a ball that is not lost.
    pub ball_present: bool,
}

/// The lesser of two numbers; the other one where one is no number.
pub open spec fn lesser(a: Real32, b: Real32) -> Real32 {
    if a.nan() {
        b
    } else if b.below(a) {
        b
    } else {
        a
    }
}

fn lesser_of(a: Real32, b: Real32) -> (least: Real32)
    ensures
        least == lesser(a, b),
{
    if a.is_nan() {
        b
    } else if b.lt(a) {
        b
    } else {
        a
    }
}

/// A panner's decision as a pose; without a field of view it has the usual one.
pub open spec fn decided_pose(position: ViewportPosition) -> Pose {
    Pose {
        yaw: position.yaw,
        pitch: position.pitch,
        fov_degrees: match position.fov_degrees {
            Some(fov) => fov,
            None => Real32 { bits: DEFAULT_FOV },
        },
    }
}

fn decided(position: ViewportPosition) -> (pose: Pose)
    ensures
        pose == decided_pose(position),
        pose.yaw == position.yaw,
        pose.pitch == position.pitch,
        position.fov_degrees matches Some(fov) ==> pose.fov_degrees == fov,
{
    let fov_degrees: Real32 = match position.fov_degrees {
        Some(fov) => fov,
        None => Real32 { bits: DEFAULT_FOV },
    };
    Pose { yaw: position.yaw, pitch: position.pitch, fov_degrees }
}

/// The stitching engine.
pub struct StitchCore {
    kind: ExecutorKind,
    input_format: InputFormat,
    calibration: Calibration,
    output_width: u32,
    output_height: u32,
    source_width: u32,
    source_height: u32,
    full_range: bool,
    flip_left: bool,
    flip_right: bool,
    readback: Option<ReadbackRing>,
    frame: Vec<u8>,
    mono_detection_warned: bool,
    coverage: Option<CoverageBoundary>,
    ball_tracker: Option<Box<dyn Tracker>>,
    player_tracker: Option<Box<dyn Tracker>>,
    panner: Option<Box<dyn Panner>>,
    previous_panner_pose: ViewportPosition,
    event_sink: Option<Box<dyn PipelineEventSink>>,
    detector: Option<Box<dyn UnifiedDetector>>,
    detection_interval: u64,
    last_detections: Vec<MappedDetection>,
    replay: Option<ReplayBuffer>,
    stacked_recorder: Option<Box<dyn StackedReplayRecorder>>,
    stacked_packer: Option<StackPacker>,
    stacked_gpu_recorder: Option<Box<dyn StackedReplayGpuRecorder>>,
    constrained_look: bool,
    frame_count: u64,
    session_start: Option<Duration>,
}

/// What an engine is, and what is attached to it.
#[verifier::ext_equal]
pub struct EngineState {
    /// What renders.
    pub kind: ExecutorKind,
    /// Pixel format of the device pipeline.
    pub input_format: InputFormat,
    /// Version of the calibration document.
    pub schema_version: u32,
    /// Optical models, one per camera.
    pub lenses: Seq<Lens>,
    /// Placement of the cameras.
    pub topology: Topology,
    /// Frame of the virtual camera.
    pub framing: Framing,
    /// Offset between the feeds in frames.
    pub sync_offset: i64,
    /// Detection polygons.
    pub field_roi: Option<FieldRoi>,
    /// Width and height of the picture.
    pub output: (u32, u32),
    /// Width and height of the source frames.
    pub source: (u32, u32),
    /// Whether samples use all of their range.
    pub full_range: bool,
    /// Which cameras are mounted upside down.
    pub flip: (bool, bool),
    /// The staging slots of a device.
    pub readback: Option<ReadbackRing>,
    /// The picture delivered last.
    pub frame: Seq<u8>,
    /// Whether detection has passed over a frame.
    pub warned: bool,
    /// The stitched area.
    pub coverage: Option<CoverageBoundary>,
    /// The ball tracker that is attached.
    pub ball_tracker: Option<Box<dyn Tracker>>,
    /// The player tracker that is attached.
    pub player_tracker: Option<Box<dyn Tracker>>,
    /// The panner that is attached.
    pub panner: Option<Box<dyn Panner>>,
    /// Where the panner looked last.
    pub previous: ViewportPosition,
    /// The event sink that is attached.
    pub sink: Option<Box<dyn PipelineEventSink>>,
    /// The detector that is attached.
    pub detector: Option<Box<dyn UnifiedDetector>>,
    /// Frames from one detection to the next.
    pub interval: u64,
    /// The detections found last.
    pub detections: Seq<MappedDetection>,
    /// The replay buffer.
    pub replay: Option<ReplayBuffer>,
    /// The source recorder that is attached.
    pub recorder: Option<Box<dyn StackedReplayRecorder>>,
    /// The packer of source frames.
    pub packer: Option<StackPacker>,
    /// The recorder of packed frames that is attached.
    pub gpu_recorder: Option<Box<dyn StackedReplayGpuRecorder>>,
    /// Whether the camera stays within the stitched area.
    pub constrained: bool,
    /// Frames delivered.
    pub frame_count: u64,
    /// When the first frame came.
    pub start: Option<Duration>,
}

impl View for StitchCore {
    type V = EngineState;

    closed spec fn view(&self) -> EngineState {
        EngineState {
            kind: self.kind,
            input_format: self.input_format,
            schema_version: self.calibration.schema_version,
            lenses: self.calibration.lenses@,
            topology: self.calibration.topology,
            framing: self.calibration.framing,
            sync_offset: self.calibration.sync_offset,
            field_roi: self.calibration.field_roi,
            output: (self.output_width, self.output_height),
            source: (self.source_width, self.source_height),
            full_range: self.full_range,
            flip: (self.flip_left, self.flip_right),
            readback: self.readback,
            frame: self.frame@,
            warned: self.mono_detection_warned,
            coverage: self.coverage,
            ball_tracker: self.ball_tracker,
            player_tracker: self.player_tracker,
            panner: self.panner,
            previous: self.previous_panner_pose,
            sink: self.event_sink,
            detector: self.detector,
            interval: self.detection_interval,
            detections: self.last_detections@,
            replay: self.replay,
            recorder: self.stacked_recorder,
            packer: self.stacked_packer,
            gpu_recorder: self.stacked_gpu_recorder,
            constrained: self.constrained_look,
            frame_count: self.frame_count,
            start: self.session_start,
        }
    }
}

impl EngineState {
    /// The invariant of every engine: a device has staging slots and a
    /// processor has none, and detection has an interval.
    pub open spec fn valid(self) -> bool {
        &&& self.kind is Gpu <==> self.readback is Some
        &&& self.readback matches Some(ring) ==> ring.valid()
        &&& self.interval >= 1
    }

    /// Whether a calibration is the active one.
    pub open spec fn calibrated(self, calibration: Calibration) -> bool {
        &&& calibration.schema_version == self.schema_version
        &&& calibration.lenses@ == self.lenses
        &&& calibration.topology == self.topology
        &&& calibration.framing == self.framing
        &&& calibration.sync_offset == self.sync_offset
        &&& calibration.field_roi == self.field_roi
    }

    /// Whether detection is due on a frame.
    pub open spec fn due(self, index: u64) -> bool {
        self.detector is Some && index % self.interval == 0
    }

    /// The start, anchored at `now` if nothing was submitted before.
    pub open spec fn anchored(self, now: Duration) -> Option<Duration> {
        match self.start {
            Some(s) => Some(s),
            None => Some(now),
        }
    }

    /// How long ago the first frame came.
    pub open spec fn elapsed(self, now: Duration) -> nat {
        match self.start {
            Some(s) => monus(now@, s@),
            None => 0,
        }
    }

    /// A pose kept within the stitched area, given the angles that the geometry
    /// gives for it.
    pub open spec fn clamped(self, pose: Pose, yaw: Real32, pitch: Real32) -> Pose {
        match self.coverage {
            None => pose,
            Some(c) => Pose {
                yaw,
                pitch,
                fov_degrees: lesser(pose.fov_degrees, c.max_fov_degrees),
            },
        }
    }

    /// A requested pose as it is rendered, given the angles that the geometry
    /// gives for it.
    pub open spec fn resolved(self, request: PoseRequest, yaw: Real32, pitch: Real32) -> Pose {
        if request.constrain {
            self.clamped(request.raw, yaw, pitch)
        } else {
            Pose { yaw, pitch, fov_degrees: request.raw.fov_degrees }
        }
    }

    /// Where a set of frames goes.
    pub open spec fn route(self, cameras: nat) -> Route {
        if self.kind is Cpu {
            Route::Cpu
        } else if cameras == 2 {
            Route::Gpu
        } else {
            Route::NotWired
        }
    }
}

/// Whether a replay buffer has taken a frame and kept its window.
pub open spec fn replay_took(
    before: Option<ReplayBuffer>,
    after: Option<ReplayBuffer>,
    rgba: Seq<u8>,
    at: nat,
    pose: Pose,
) -> bool {
    match before {
        None => after is None,
        Some(b) => after matches Some(a) && a.window() == b.window() && exists|f: ReplayFrame|
            {
                &&& f.rgba@ == rgba
                &&& f.captured_at@ == at
                &&& f.pose == pose
                &&& a@ == #[trigger] replay_pushed(b@, f, b.window()@)
            },
    }
}

/// A configuration error with this text.
pub open spec fn config_error(error: StitchCoreError, text: Seq<char>) -> bool {
    error matches StitchCoreError::Config(e) && e@ == text
}

impl StitchCore {
    /// An engine with nothing attached. A device needs a picture of some size to
    /// stage.
    pub fn new(
        kind: ExecutorKind,
        input_format: InputFormat,
        calibration: Calibration,
        output: (u32, u32),
        source: (u32, u32),
        coverage: CoverageBoundary,
    ) -> (engine: Result<Self, StitchCoreError>)
        ensures
            match engine {
                Ok(e) => {
                    &&& kind is Cpu || (output.0 > 0 && output.1 > 0)
                    &&& e@.valid()
                    &&& e@ == (EngineState {
                        kind,
                        input_format,
                        schema_version: calibration.schema_version,
                        lenses: calibration.lenses@,
                        topology: calibration.topology,
                        framing: calibration.framing,
                        sync_offset: calibration.sync_offset,
                        field_roi: calibration.field_roi,
                        output,
                        source,
                        full_range: false,
                        flip: (false, false),
                        readback: if kind is Gpu {
                            Some(ReadbackRing { current_slot: 0, pending_count: 0 })
                        } else {
                            None
                        },
                        frame: Seq::empty(),
                        warned: false,
                        coverage: Some(coverage),
                        ball_tracker: None,
                        player_tracker: None,
                        panner: None,
                        previous: ViewportPosition {
                            yaw: Real32 { bits: 0 },
                            pitch: Real32 { bits: 0 },
                            fov_degrees: None,
                        },
                        sink: None,
                        detector: None,
                        interval: 1,
                        detections: Seq::empty(),
                        replay: None,
                        recorder: None,
                        packer: None,
                        gpu_recorder: None,
                        constrained: true,
                        frame_count: 0,
                        start: None,
                    })
                },
                Err(e) => {
                    &&& kind is Gpu && (output.0 == 0 || output.1 == 0)
                    &&& e matches StitchCoreError::Readback(t) && t@
                        == "output dimensions must be non-zero"@
                },
            },
    {
        let readback: Option<ReadbackRing> = match kind {
            ExecutorKind::Cpu => None,
            ExecutorKind::Gpu => {
                if output.0 == 0 || output.1 == 0 {
                    return Err(
                        StitchCoreError::Readback("output dimensions must be non-zero".to_owned()),
                    );
                }
                Some(fresh_ring())
            },
        };
        let engine = StitchCore {
            kind,
            input_format,
            calibration,
            output_width: output.0,
            output_height: output.1,
            source_width: source.0,
            source_height: source.1,
            full_range: false,
            flip_left: false,
            flip_right: false,
            readback,
            frame: Vec::new(),
            mono_detection_warned: false,
            coverage: Some(coverage),
            ball_tracker: None,
            player_tracker: None,
            panner: None,
            previous_panner_pose: ViewportPosition::default(),
            event_sink: None,
            detector: None,
            detection_interval: 1,
            last_detections: Vec::new(),
            replay: None,
            stacked_recorder: None,
            stacked_packer: None,
            stacked_gpu_recorder: None,
            constrained_look: true,
            frame_count: 0,
            session_start: None,
        };
        Ok(engine)
    }

    /// Attach a ball tracker in place of any other.
    pub fn set_ball_tracker(&mut self, tracker: Box<dyn Tracker>)
        ensures
            final(self)@.ball_tracker == Some(tracker),
            final(self)@ == (EngineState { ball_tracker: final(self)@.ball_tracker, ..old(self)@ }),
    {
        let attached = Some(tracker);
        self.ball_tracker = attached;
    }

    /// Detach the ball tracker.
    pub fn clear_ball_tracker(&mut self)
        ensures
            final(self)@ == (EngineState { ball_tracker: None, ..old(self)@ }),
    {
        self.ball_tracker = None;
    }

    /// Attach a player tracker in place of any other.
    pub fn set_player_tracker(&mut self, tracker: Box<dyn Tracker>)
        ensures
            final(self)@.player_tracker == Some(tracker),
            final(self)@ == (EngineState { player_tracker: final(self)@.player_tracker, ..old(self)@ }),
    {
        let attached = Some(tracker);
        self.player_tracker = attached;
    }

    /// Detach the player tracker.
    pub fn clear_player_tracker(&mut self)
        ensures
            final(self)@ == (EngineState { player_tracker: None, ..old(self)@ }),
    {
        self.player_tracker = None;
    }

    /// Attach a panner in place of any other.
    pub fn set_panner(&mut self, panner: Box<dyn Panner>)
        ensures
            final(self)@.panner == Some(panner),
            final(self)@ == (EngineState { panner: final(self)@.panner, ..old(self)@ }),
    {
        let attached = Some(panner);
        self.panner = attached;
    }

    /// Detach the panner; the camera then looks straight ahead.
    pub fn clear_panner(&mut self)
        ensures
            final(self)@ == (EngineState { panner: None, ..old(self)@ }),
    {
        self.panner = None;
    }

    /// Attach an event sink in place of any other.
    pub fn set_event_sink(&mut self, sink: Box<dyn PipelineEventSink>)
        ensures
            final(self)@.sink == Some(sink),
            final(self)@ == (EngineState { sink: final(self)@.sink, ..old(self)@ }),
    {
        let attached = Some(sink);
        self.event_sink = attached;
    }

    /// Attach a detector in place of any other.
    pub fn set_detector(&mut self, detector: Box<dyn UnifiedDetector>)
        ensures
            final(self)@.detector == Some(detector),
            final(self)@ == (EngineState { detector: final(self)@.detector, ..old(self)@ }),
    {
        let attached = Some(detector);
        self.detector = attached;
    }

    /// Detach the detector and forget what it found.
    pub fn clear_detector(&mut self)
        ensures
            final(self)@ == (EngineState {
                detector: None,
                detections: Seq::empty(),
                ..old(self)@
            }),
    {
        self.detector = None;
        self.last_detections.clear();
    }

    /// Detect on one frame in every `interval`; less than one counts as one.
    pub fn set_detection_interval(&mut self, interval: u64)
        ensures
            final(self)@ == (EngineState {
                interval: if interval < 1 {
                    1
                } else {
                    interval
                },
                ..old(self)@
            }),
    {
        self.detection_interval =
        if interval < 1 {
            1
        } else {
            interval
        };
    }

    /// Frames from one detection to the next.
    pub fn detection_interval(&self) -> (interval: u64)
        ensures
            interval == self@.interval,
    {
        self.detection_interval
    }

    /// The detections found last.
    pub fn last_detections(&self) -> (detections: &[MappedDetection])
        ensures
            detections@ == self@.detections,
    {
        self.last_detections.as_slice()
    }

    /// Whether detection is due on a frame: a detector is attached, and the
    /// frame's index is a multiple of the interval.
    pub fn detection_due(&self, index: u64) -> (is_due: bool)
        requires
            self@.valid(),
        ensures
            is_due == self@.due(index),
    {
        self.detector.is_some() && index % self.detection_interval == 0
    }

    /// Whether the detector reads frames from CUDA memory, going by its name.
    pub fn detector_needs_cuda_frames(&self) -> (needs: bool)
        ensures
            match self@.detector {
                Some(d) => exists|name: &'static str| #[trigger]
                    named(&*d, name) && needs == stands_in(
                        name.spec_bytes(),
                        "ort-cuda".spec_bytes(),
                    ),
                None => !needs,
            },
    {
        match &self.detector {
            Some(d) => names_cuda(name_of(&**d)),
            None => false,
        }
    }

    /// What keeping a pose within the stitched area starts from; nothing if
    /// there is no such area.
    pub fn clamp_inputs(&self, pose: Pose) -> (inputs: Option<ClampInputs>)
        ensures
            inputs == match self@.coverage {
                None => None::<ClampInputs>,
                Some(c) => Some(
                    ClampInputs {
                        yaw: pose.yaw,
                        pitch: pose.pitch,
                        fov_degrees: lesser(pose.fov_degrees, c.max_fov_degrees),
                        width: self@.output.0,
                        height: self@.output.1,
                        framing: self@.framing,
                        rig_tilt: self@.framing.tilt.narrowed(),
                        rig_roll: self@.framing.roll.narrowed(),
                    },
                ),
            },
    {
        match &self.coverage {
            None => None,
            Some(c) => Some(
                ClampInputs {
                    yaw: pose.yaw,
                    pitch: pose.pitch,
                    fov_degrees: lesser_of(pose.fov_degrees, c.max_fov_degrees),
                    width: self.output_width,
                    height: self.output_height,
                    framing: self.calibration.framing,
                    rig_tilt: self.calibration.framing.tilt.narrow(),
                    rig_roll: self.calibration.framing.roll.narrow(),
                },
            ),
        }
    }

    /// A pose kept within the stitched area, given the angles that the geometry
    /// gives for its inputs. Without an area the pose stays as it is.
    pub fn safe_clamp(&self, pose: Pose, yaw: Real32, pitch: Real32) -> (clamped: Pose)
        ensures
            clamped == self@.clamped(pose, yaw, pitch),
            self@.coverage is Some ==> clamped.yaw == yaw && clamped.pitch == pitch,
            self@.coverage is None ==> clamped == pose,
    {
        match &self.coverage {
            None => pose,
            Some(c) => Pose {
                yaw,
                pitch,
                fov_degrees: lesser_of(pose.fov_degrees, c.max_fov_degrees),
            },
        }
    }

    /// A pose with the rig's lean taken out, given the angles that the geometry
    /// gives for it. It may leave the stitched area.
    pub fn orient_pose(&self, world: Pose, yaw: Real32, pitch: Real32) -> (pose: Pose)
        ensures
            pose == (Pose { yaw, pitch, fov_degrees: world.fov_degrees }),
    {
        Pose { yaw, pitch, fov_degrees: world.fov_degrees }
    }

    /// A requested pose as it is rendered, given the angles that the geometry
    /// gives for it.
    pub fn resolve(&self, request: PoseRequest, yaw: Real32, pitch: Real32) -> (pose: Pose)
        ensures
            pose == self@.resolved(request, yaw, pitch),
            self@.coverage is Some || !request.constrain ==> pose.yaw == yaw && pose.pitch == pitch,
            !request.constrain ==> pose.fov_degrees == request.raw.fov_degrees,
    {
        if request.constrain {
            self.safe_clamp(request.raw, yaw, pitch)
        } else {
            self.orient_pose(request.raw, yaw, pitch)
        }
    }

    /// The active calibration.
    pub fn calibration(&self) -> (calibration: &Calibration)
        ensures
            self@.calibrated(*calibration),
    {
        &self.calibration
    }

    /// Change the size of the picture. A size without pixels is refused; a
    /// device drops the frames that are on their way.
    pub fn resize(&mut self, width: u32, height: u32) -> (accepted: Option<(u32, u32)>)
        ensures
            width == 0 || height == 0 ==> accepted is None && final(self)@ == old(self)@,
            width > 0 && height > 0 ==> {
                &&& accepted == Some((width, height))
                &&& final(self)@ == (EngineState {
                    output: (width, height),
                    readback: match old(self)@.kind {
                        ExecutorKind::Gpu => Some(
                            ReadbackRing { current_slot: 0, pending_count: 0 },
                        ),
                        ExecutorKind::Cpu => old(self)@.readback,
                    },
                    ..old(self)@
                })
            },
    {
        if width == 0 || height == 0 {
            return None;
        }
        self.output_width = width;
        self.output_height = height;
        if let ExecutorKind::Gpu = self.kind {
            self.readback = Some(fresh_ring());
        }
        Some((width, height))
    }

    /// Set the width of the seam blend, where there is a seam.
    pub fn set_blend_width(&mut self, width: Real32)
        ensures
            final(self)@ == (EngineState {
                topology: match old(self)@.topology {
                    Topology::LShape(t) => Topology::LShape(
                        crate::projection::LShape { blend_width: width, ..t },
                    ),
                    Topology::Cylinder(t) => Topology::Cylinder(t),
                },
                ..old(self)@
            }),
    {
        if let Some(shape) = self.calibration.topology.l_shape_mut() {
            shape.blend_width = width;
        }
    }

    /// Set whether samples use all of their range.
    pub fn set_full_range(&mut self, full_range: bool)
        ensures
            final(self)@ == (EngineState { full_range, ..old(self)@ }),
    {
        self.full_range = full_range;
    }

    /// Set which cameras are mounted upside down.
    pub fn set_flip_180(&mut self, left: bool, right: bool)
        ensures
            final(self)@ == (EngineState { flip: (left, right), ..old(self)@ }),
    {
        self.flip_left = left;
        self.flip_right = right;
    }

    /// Set how much of the lens profile is applied, on every lens.
    pub fn set_lens_correction_amount(&mut self, amount: Real32)
        ensures
            final(self)@ == (EngineState {
                lenses: old(self)@.lenses.map_values(
                    |l: Lens| (Lens { correction: amount, ..l }),
                ),
                ..old(self)@
            }),
    {
        let ghost before = self.calibration.lenses@;
        let ghost goal = before.map_values(|l: Lens| (Lens { correction: amount, ..l }));
        let mut i: usize = 0;
        while i < self.calibration.lenses.len()
            invariant
                i <= self.calibration.lenses@.len() == before.len(),
                goal == before.map_values(|l: Lens| (Lens { correction: amount, ..l })),
                forall|j: int| 0 <= j < i ==> self.calibration.lenses@[j] == goal[j],
                forall|j: int| i <= j < before.len() ==> self.calibration.lenses@[j] == before[j],
                self@ == (EngineState { lenses: self.calibration.lenses@, ..old(self)@ }),
            decreases before.len() - i,
        {
            let mut lens: Lens = self.calibration.lenses[i];
            lens.correction = amount;
            self.calibration.lenses.set(i, lens);
            i = i + 1;
        }
        assert(self.calibration.lenses@ =~= goal);
    }

    /// Set the forward lean of the rig, in radians.
    pub fn set_rig_tilt(&mut self, radians: Real32)
        ensures
            final(self)@ == old(self)@.leaning(
                Framing { tilt: radians.widened(), ..old(self)@.framing },
            ),
            final(self)@.framing == (Framing { tilt: radians.widened(), ..old(self)@.framing }),
    {
        self.calibration.framing.tilt = radians.widen();
        self.refresh_coverage_orientation();
    }

    /// Set the sideways lean of the rig, in radians.
    pub fn set_rig_roll(&mut self, radians: Real32)
        ensures
            final(self)@ == old(self)@.leaning(
                Framing { roll: radians.widened(), ..old(self)@.framing },
            ),
            final(self)@.framing == (Framing { roll: radians.widened(), ..old(self)@.framing }),
    {
        self.calibration.framing.roll = radians.widen();
        self.refresh_coverage_orientation();
    }

    fn refresh_coverage_orientation(&mut self)
        ensures
            final(self)@ == old(self)@.leaning(old(self)@.framing),
    {
        let framing: Framing = self.calibration.framing;
        let rig_tilt: Real32 = framing.tilt.narrow();
        let rig_roll: Real32 = framing.roll.narrow();
        if let Some(c) = self.coverage {
            self.coverage = Some(CoverageBoundary { rig_tilt, rig_roll, ..c });
        }
    }

    /// Replace the placement of the cameras, with the area it covers.
    pub fn update_topology(&mut self, topology: Topology, coverage: CoverageBoundary)
        ensures
            final(self)@ == (EngineState {
                topology,
                coverage: Some(coverage),
                ..old(self)@
            }),
    {
        self.calibration.topology = topology;
        self.coverage = Some(coverage);
    }

    /// Replace the frame of the virtual camera, with the area it covers.
    pub fn update_framing(&mut self, framing: Framing, coverage: CoverageBoundary)
        ensures
            final(self)@ == (EngineState { framing, coverage: Some(coverage), ..old(self)@ }),
    {
        self.calibration.framing = framing;
        self.coverage = Some(coverage);
    }

    /// Replace the lens of one camera or both, with the area they cover.
    pub fn update_camera_params(
        &mut self,
        left: Option<Lens>,
        right: Option<Lens>,
        coverage: CoverageBoundary,
    )
        requires
            left is Some ==> old(self)@.lenses.len() > 0,
            right is Some ==> old(self)@.lenses.len() > 1,
        ensures
            final(self)@ == (EngineState {
                lenses: with_lenses(old(self)@.lenses, left, right),
                coverage: Some(coverage),
                ..old(self)@
            }),
    {
        if let Some(l) = left {
            self.calibration.lenses.set(0, l);
        }
        if let Some(r) = right {
            self.calibration.lenses.set(1, r);
        }
        self.coverage = Some(coverage);
    }

    /// Replace the calibration, with the area it covers.
    pub fn update_calibration(&mut self, calibration: Calibration, coverage: CoverageBoundary)
        ensures
            final(self)@ == (EngineState {
                schema_version: calibration.schema_version,
                lenses: calibration.lenses@,
                topology: calibration.topology,
                framing: calibration.framing,
                sync_offset: calibration.sync_offset,
                field_roi: calibration.field_roi,
                coverage: Some(coverage),
                ..old(self)@
            }),
    {
        self.calibration = calibration;
        self.coverage = Some(coverage);
    }

    /// Widest vertical field of view that fits the stitched area.
    pub fn max_fov_degrees(&self) -> (fov: Option<Real32>)
        ensures
            fov == match self@.coverage {
                Some(c) => Some(c.max_fov_degrees),
                None => None,
            },
    {
        match &self.coverage {
            Some(c) => Some(c.max_fov_degrees),
            None => None,
        }
    }

    /// The stitched area.
    pub fn coverage(&self) -> (coverage: Option<CoverageBoundary>)
        ensures
            coverage == self@.coverage,
    {
        self.coverage
    }

    /// Angles of the stitched area.
    pub fn panorama_extent(&self) -> (extent: Option<PanoramaExtent>)
        ensures
            extent == match self@.coverage {
                Some(c) => Some(c.reach()),
                None => None,
            },
    {
        match &self.coverage {
            Some(c) => Some(c.extent()),
            None => None,
        }
    }

    /// Whether the camera stays within the stitched area.
    pub fn constrained_look(&self) -> (constrained: bool)
        ensures
            constrained == self@.constrained,
    {
        self.constrained_look
    }

    /// Set whether the camera stays within the stitched area.
    pub fn set_constrained_look(&mut self, enabled: bool)
        ensures
            final(self)@ == (EngineState { constrained: enabled, ..old(self)@ }),
    {
        self.constrained_look = enabled;
    }

    /// Switch whether the camera stays within the stitched area, and say whether
    /// it does now.
    pub fn toggle_constrained_look(&mut self) -> (enabled: bool)
        ensures
            final(self)@ == (EngineState {
                constrained: !old(self)@.constrained,
                ..old(self)@
            }),
            enabled == !old(self)@.constrained,
    {
        self.constrained_look = !self.constrained_look;
        self.constrained_look
    }

    /// Short name of the projection.
    pub fn projection_name(&self) -> (name: &'static str)
        ensures
            name@ == self@.topology.shape().named(),
    {
        self.calibration.topology.projection().name()
    }

    /// Number of cameras the projection consumes.
    pub fn camera_count(&self) -> (n: usize)
        ensures
            n == self@.topology.shape().cameras(),
    {
        self.calibration.topology.camera_count()
    }

    /// Keep recent pictures for as long as given, or none at all. What was kept
    /// is dropped.
    pub fn enable_replay_buffer(&mut self, duration: Option<Duration>)
        ensures
            final(self)@ == (EngineState { replay: final(self)@.replay, ..old(self)@ }),
            match duration {
                None => final(self)@.replay is None,
                Some(d) => final(self)@.replay matches Some(r) && r.window() == d && r@.len() == 0,
            },
    {
        self.replay =
        match duration {
            None => None,
            Some(d) => Some(ReplayBuffer::new(d)),
        };
    }

    /// The recent pictures, if they are kept.
    pub fn replay_buffer(&self) -> (replay: Option<&ReplayBuffer>)
        ensures
            match self@.replay {
                None => replay is None,
                Some(r) => replay == Some(&r),
            },
    {
        match &self.replay {
            None => None,
            Some(r) => Some(r),
        }
    }

    /// The recent pictures, to take out or to drop.
    pub fn replay_buffer_mut(&mut self) -> (replay: Option<&mut ReplayBuffer>)
        ensures
            final(self)@ == (EngineState { replay: final(self)@.replay, ..old(self)@ }),
            match (old(self)@.replay, replay) {
                (None, None) => final(self)@.replay is None,
                (Some(r), Some(inner)) => *inner == r && final(self)@.replay == Some(*final(inner)),
                _ => false,
            },
    {
        match &mut self.replay {
            None => None,
            Some(r) => Some(r),
        }
    }

    /// Width and height of the picture.
    pub fn output_dims(&self) -> (dims: (u32, u32))
        ensures
            dims == self@.output,
    {
        (self.output_width, self.output_height)
    }

    /// Width and height of the source frames.
    pub fn source_info(&self) -> (dims: (u32, u32))
        ensures
            dims == self@.source,
    {
        (self.source_width, self.source_height)
    }

    /// Number of frames delivered.
    pub fn frame_count(&self) -> (n: u64)
        ensures
            n == self@.frame_count,
    {
        self.frame_count
    }

    /// Whether frames are rendered on a device, as an error where they are not.
    pub fn require_gpu(&self) -> (checked: Result<(), StitchCoreError>)
        ensures
            match checked {
                Ok(_) => self@.kind is Gpu,
                Err(e) => self@.kind is Cpu && e is RequiresGpu,
            },
    {
        match self.kind {
            ExecutorKind::Gpu => Ok(()),
            ExecutorKind::Cpu => Err(StitchCoreError::RequiresGpu),
        }
    }
}

impl EngineState {
    /// This state with the rig leaning as the framing says; the area's margins
    /// follow.
    pub open spec fn leaning(self, framing: Framing) -> EngineState {
        EngineState {
            framing,
            coverage: match self.coverage {
                None => None,
                Some(c) => Some(
                    CoverageBoundary {
                        rig_tilt: framing.tilt.narrowed(),
                        rig_roll: framing.roll.narrowed(),
                        ..c
                    },
                ),
            },
            ..self
        }
    }
}

/// Lenses with those of one camera or both replaced.
pub open spec fn with_lenses(lenses: Seq<Lens>, left: Option<Lens>, right: Option<Lens>) -> Seq<
    Lens,
> {
    let first = match left {
        Some(l) => lenses.update(0, l),
        None => lenses,
    };
    match right {
        Some(r) => first.update(1, r),
        None => first,
    }
}

fn fresh_ring() -> (ring: ReadbackRing)
    ensures
        ring == (ReadbackRing { current_slot: 0, pending_count: 0 }),
        ring.valid(),
{
    ReadbackRing { current_slot: 0, pending_count: 0 }
}

/// Whether a detector of that name reads frames from CUDA memory.
pub fn names_cuda(name: &str) -> (is: bool)
    ensures
        is == stands_in(name.spec_bytes(), "ort-cuda".spec_bytes()),
{
    has_part(name, "ort-cuda")
}

/// Every interval that is set and every size that is accepted keep an engine
/// valid.
pub proof fn law_settings_keep_the_engine_valid(
    state: EngineState,
    interval: u64,
    width: u32,
    height: u32,
)
    requires
        state.valid(),
    ensures
        (EngineState {
            interval: if interval < 1 {
                1
            } else {
                interval
            },
            ..state
        }).valid(),
        (EngineState {
            output: (width, height),
            readback: match state.kind {
                ExecutorKind::Gpu => Some(ReadbackRing { current_slot: 0, pending_count: 0 }),
                ExecutorKind::Cpu => state.readback,
            },
            ..state
        }).valid(),
{
}

/// Switching twice changes nothing.
pub proof fn law_toggling_twice_changes_nothing(state: EngineState)
    ensures
        ({
            let once = EngineState { constrained: !state.constrained, ..state };
            EngineState { constrained: !once.constrained, ..once } == state
        }),
{
}

/// With a detector attached the first frame is due, and from a due frame on the
/// next one comes `interval` frames later; without one none is.
pub proof fn law_detection_is_periodic(state: EngineState, index: u64, ahead: u64)
    requires
        state.valid(),
        0 < ahead <= state.interval,
        index + ahead <= u64::MAX,
    ensures
        state.detector is None ==> !state.due(index),
        state.detector is Some ==> state.due(0),
        state.due(index) ==> (state.due((index + ahead) as u64) <==> ahead == state.interval),
{
    if state.due(index) {
        crate::bayer::law_schedule_is_periodic(state.interval, index, ahead);
    }
}

/// A pose that is kept within the stitched area never looks wider than the area
/// allows.
pub proof fn law_clamped_pose_fits(state: EngineState, pose: Pose, yaw: Real32, pitch: Real32)
    requires
        state.coverage matches Some(c) && !c.max_fov_degrees.nan(),
    ensures
        !(state.coverage->0.max_fov_degrees).below(state.clamped(pose, yaw, pitch).fov_degrees),
        !state.clamped(pose, yaw, pitch).fov_degrees.nan(),
{
}

} // verus!
