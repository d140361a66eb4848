//! Detection without rendering, for analytics.

use crate::calibration::Calibration;
use crate::detector::{
    CameraId, ChromaFormat, Detection, DetectorError, DetectorFrame, MappedDetection, PanoramaMap,
    UnifiedDetector, answered, answers_so, detect_and_place, gathered, nv12_pair, nv12_seen, pair,
    placed_by, taken_in_turn, yuv_pair, yuv_seen,
};
use crate::engine::{CoverageBoundary, PanoramaExtent};
use crate::number::Real64;
use crate::planes::{Nv12Planes, YuvPlanes};
use crate::text::joined;
use crate::time::Duration;
use vstd::prelude::*;

verus! {

/// Why an analysis stopped.
#[derive(Clone, Debug)]
pub enum AnalyzeError {
    /// The source failed.
    Source(String),
    /// The sink failed.
    DetectionSink(String),
}

impl AnalyzeError {
    /// The message of the error.
    pub open spec fn text(&self) -> Seq<char> {
        match *self {
            AnalyzeError::Source(e) => "source: "@ + e@,
            AnalyzeError::DetectionSink(e) => "detection sink: "@ + e@,
        }
    }

    /// The message of the error.
    pub fn message(&self) -> (text: String)
        ensures
            text@ == self.text(),
    {
        match self {
            AnalyzeError::Source(e) => joined("source: ", e.as_str()),
            AnalyzeError::DetectionSink(e) => joined("detection sink: ", e.as_str()),
        }
    }
}

/// A frame of three planes.
#[derive(Clone, Debug)]
pub struct YuvData {
    /// Luma.
    pub y: Vec<u8>,
    /// Cb.
    pub u: Vec<u8>,
    /// Cr.
    pub v: Vec<u8>,
}

impl YuvData {
    /// Whether planes are those of this frame.
    pub open spec fn shown_by(self, planes: YuvPlanes<'_>) -> bool {
        planes.y@ == self.y@ && planes.u@ == self.u@ && planes.v@ == self.v@
    }

    /// The planes of the frame.
    pub fn as_planes(&self) -> (planes: YuvPlanes<'_>)
        ensures
            self.shown_by(planes),
    {
        YuvPlanes { y: self.y.as_slice(), u: self.u.as_slice(), v: self.v.as_slice() }
    }
}

/// A frame of two planes.
#[derive(Clone, Debug)]
pub struct Nv12Data {
    /// Luma.
    pub y: Vec<u8>,
    /// Interleaved chroma.
    pub uv: Vec<u8>,
}

impl Nv12Data {
    /// Whether planes are those of this frame.
    pub open spec fn shown_by(self, planes: Nv12Planes<'_>) -> bool {
        planes.y@ == self.y@ && planes.uv@ == self.uv@
    }

    /// The planes of the frame.
    pub fn as_planes(&self) -> (planes: Nv12Planes<'_>)
        ensures
            self.shown_by(planes),
    {
        Nv12Planes { y: self.y.as_slice(), uv: self.uv.as_slice() }
    }
}

/// The frames of both cameras at one instant.
#[derive(Clone, Debug)]
pub enum StereoFrame {
    /// Three planes each.
    Yuv420p {
        /// Left camera.
        left: YuvData,
        /// Right camera.
        right: YuvData,
    },
    /// Two planes each.
    Nv12 {
        /// Left camera.
        left: Nv12Data,
        /// Right camera.
        right: Nv12Data,
    },
    /// In textures shared with the decoder, where detection does not reach.
    GpuResident,
    /// In pixel buffers of the platform, where detection does not reach.
    MetalResident,
}

impl StereoFrame {
    /// Whether the planes are in main memory.
    pub open spec fn in_memory(&self) -> bool {
        self is Yuv420p || self is Nv12
    }

    /// Whether a detector gets this frame so.
    pub open spec fn seen_as(
        self,
        width: u32,
        height: u32,
        seen: Seq<(CameraId, DetectorFrame<'_>)>,
    ) -> bool {
        match self {
            StereoFrame::Yuv420p { left, right } => exists|l: YuvPlanes<'_>, r: YuvPlanes<'_>|
                {
                    &&& left.shown_by(l)
                    &&& right.shown_by(r)
                    &&& seen == #[trigger] pair(
                        yuv_seen(l, width, height),
                        yuv_seen(r, width, height),
                    )
                },
            StereoFrame::Nv12 { left, right } => exists|l: Nv12Planes<'_>, r: Nv12Planes<'_>|
                {
                    &&& left.shown_by(l)
                    &&& right.shown_by(r)
                    &&& seen == #[trigger] pair(
                        nv12_seen(l, width, height),
                        nv12_seen(r, width, height),
                    )
                },
            _ => false,
        }
    }
}

/// Delivers frames.
pub trait FrameSource {
    /// Width and height of the frames.
    fn info(&self) -> (u32, u32);

    /// The next frame, or nothing at the end.
    fn next_frame(&mut self) -> Result<Option<StereoFrame>, String>;
}

/// Takes the detections of each frame.
pub trait DetectionSink: Send {
    /// Take the detections of a frame.
    fn take(
        &mut self,
        detections: &[MappedDetection],
        frame_index: u64,
        timestamp_ms: Real64,
    ) -> Result<(), String>;
}

/// How far a run has come.
#[derive(Clone, Copy, Debug, PartialEq, Eq, Structural)]
pub struct FrameProgress {
    /// Frames done in all.
    pub frames_completed: u64,
    /// Time since the start.
    pub elapsed: Duration,
}

/// Watches over a run.
pub trait RunMonitor {
    /// Whether to stop.
    fn interrupted(&self) -> bool;

    /// Time since the start, in milliseconds.
    fn elapsed_ms(&self) -> Real64;

    /// Time since the start.
    fn elapsed(&self) -> Duration;

    /// Hear that a frame is done.
    fn progress(&mut self, progress: FrameProgress);
}

/// Whether this source may say that its frames have that size.
pub open spec fn sized<S: FrameSource + ?Sized>(source: &S, size: (u32, u32)) -> bool {
    call_ensures(S::info, (source,), size)
}

/// Whether this source, as it stands, may reply so when asked for a frame.
pub open spec fn replied<S: FrameSource + ?Sized>(
    source: &mut S,
    reply: Result<Option<StereoFrame>, String>,
) -> bool {
    call_ensures(S::next_frame, (source,), reply)
}

/// Whether this sink, as it stands, may answer so when given those detections.
pub open spec fn taken<K: DetectionSink + ?Sized>(
    sink: &mut K,
    detections: &[MappedDetection],
    frame_index: u64,
    timestamp_ms: Real64,
    answer: Result<(), String>,
) -> bool {
    call_ensures(K::take, (sink, detections, frame_index, timestamp_ms), answer)
}

/// Whether this monitor may say whether to stop.
pub open spec fn asked<W: RunMonitor + ?Sized>(monitor: &W, stop: bool) -> bool {
    call_ensures(W::interrupted, (monitor,), stop)
}

/// Whether this monitor may give that time.
pub open spec fn timed<W: RunMonitor + ?Sized>(monitor: &W, timestamp_ms: Real64) -> bool {
    call_ensures(W::elapsed_ms, (monitor,), timestamp_ms)
}

/// Whether this monitor may say that so much time has gone by.
pub open spec fn clocked<W: RunMonitor + ?Sized>(monitor: &W, elapsed: Duration) -> bool {
    call_ensures(W::elapsed, (monitor,), elapsed)
}

/// Whether this monitor, as it stands, hears how far the run has come.
pub open spec fn heard<W: RunMonitor + ?Sized>(monitor: &mut W, progress: FrameProgress) -> bool {
    call_ensures(W::progress, (monitor, progress), ())
}

fn give<K: DetectionSink + ?Sized>(
    sink: &mut K,
    detections: &[MappedDetection],
    frame_index: u64,
    timestamp_ms: Real64,
) -> (answer: Result<(), String>)
    ensures
        exists|k: &mut K|
            #![trigger call_ensures(K::take, (k, detections, frame_index, timestamp_ms), answer)]
            {
                &&& taken(k, detections, frame_index, timestamp_ms, answer)
                &&& &*k == &*old(sink)
                &&& &*final(k) == &*final(sink)
            },
{
    sink.take(detections, frame_index, timestamp_ms)
}

fn next<S: FrameSource>(source: &mut S) -> (reply: Result<Option<StereoFrame>, String>)
    ensures
        exists|s: &mut S|
            #![trigger call_ensures(S::next_frame, (s,), reply)]
            replied(s, reply) && *s == *old(source) && *final(s) == *final(source),
{
    source.next_frame()
}

fn report<W: RunMonitor>(monitor: &mut W, progress: FrameProgress)
    ensures
        exists|w: &mut W|
            #![trigger call_ensures(W::progress, (w, progress), ())]
            heard(w, progress) && *w == *old(monitor) && *final(w) == *final(monitor),
{
    monitor.progress(progress);
}

/// Detection without rendering.
pub struct AnalyzePipeline {
    calibration: Calibration,
    coverage: CoverageBoundary,
    detector: Option<Box<dyn UnifiedDetector>>,
    sink: Option<Box<dyn DetectionSink>>,
    detection_interval: u64,
    last_detections: Vec<MappedDetection>,
    frame_count: u64,
}

/// What an analysis is, and what is attached to it.
#[verifier::ext_equal]
pub struct AnalyzeState {
    /// The calibration.
    pub calibration: Calibration,
    /// The stitched area.
    pub coverage: CoverageBoundary,
    /// The detector that is attached.
    pub detector: Option<Box<dyn UnifiedDetector>>,
    /// The sink that is attached.
    pub sink: Option<Box<dyn DetectionSink>>,
    /// Frames from one detection to the next.
    pub interval: u64,
    /// The detections found last.
    pub detections: Seq<MappedDetection>,
    /// Frames done.
    pub frame_count: u64,
}

impl View for AnalyzePipeline {
    type V = AnalyzeState;

    closed spec fn view(&self) -> AnalyzeState {
        AnalyzeState {
            calibration: self.calibration,
            coverage: self.coverage,
            detector: self.detector,
            sink: self.sink,
            interval: self.detection_interval,
            detections: self.last_detections@,
            frame_count: self.frame_count,
        }
    }
}

impl AnalyzeState {
    /// The invariant of every analysis.
    pub open spec fn valid(self) -> bool {
        self.interval >= 1
    }

    /// Whether detection is due on the next frame.
    pub open spec fn due(self) -> bool {
        self.detector is Some && self.frame_count % self.interval == 0
    }
}

impl AnalyzePipeline {
    /// An analysis with nothing attached.
    pub fn new(calibration: Calibration, coverage: CoverageBoundary) -> (pipeline: Self)
        ensures
            pipeline@.valid(),
            pipeline@ == (AnalyzeState {
                calibration,
                coverage,
                detector: None,
                sink: None,
                interval: 1,
                detections: Seq::empty(),
                frame_count: 0,
            }),
    {
        AnalyzePipeline {
            calibration,
            coverage,
            detector: None,
            sink: None,
            detection_interval: 1,
            last_detections: Vec::new(),
            frame_count: 0,
        }
    }

    /// Attach a detector in place of any other.
    pub fn set_detector(&mut self, detector: Box<dyn UnifiedDetector>)
        ensures
            final(self)@.detector == Some(detector),
            final(self)@ == (AnalyzeState { detector: final(self)@.detector, ..old(self)@ }),
    {
        let attached = Some(detector);
        self.detector = attached;
    }

    /// Detect on one frame in every `interval`; less than one counts as one.
    pub fn set_detection_interval(&mut self, interval: u64)
        ensures
            final(self)@ == (AnalyzeState {
                interval: if interval < 1 {
                    1
                } else {
                    interval
                },
                ..old(self)@
            }),
    {
        self.detection_interval =
        if interval < 1 {
            1
        } else {
            interval
        };
    }

    /// Attach a sink in place of any other.
    pub fn set_detection_sink(&mut self, sink: Box<dyn DetectionSink>)
        ensures
            final(self)@.sink == Some(sink),
            final(self)@ == (AnalyzeState { sink: final(self)@.sink, ..old(self)@ }),
    {
        let attached = Some(sink);
        self.sink = attached;
    }

    /// The stitched area.
    pub fn coverage(&self) -> (coverage: CoverageBoundary)
        ensures
            coverage == self@.coverage,
    {
        self.coverage
    }

    /// Angles of the stitched area.
    pub fn panorama_extent(&self) -> (extent: PanoramaExtent)
        ensures
            extent == self@.coverage.reach(),
    {
        self.coverage.extent()
    }

    /// Number of frames done.
    pub fn frame_count(&self) -> (n: u64)
        ensures
            n == self@.frame_count,
    {
        self.frame_count
    }

    /// The detections found last.
    pub fn last_detections(&self) -> (detections: &[MappedDetection])
        ensures
            detections@ == self@.detections,
    {
        self.last_detections.as_slice()
    }

    /// Whether to take another frame.
    pub fn goes_on(&self, frame_limit: u64, interrupted: bool) -> (on: bool)
        ensures
            on == (self@.frame_count < frame_limit && !interrupted),
    {
        self.frame_count < frame_limit && !interrupted
    }

    /// Detect on a frame, if that is due and the frame is in main memory: the
    /// pictures of both cameras are put to the detector once each, left first.
    /// Otherwise the detections found last stay.
    #[verifier::spinoff_prover]
    pub fn detect<M: PanoramaMap>(
        &mut self,
        frame: &StereoFrame,
        width: u32,
        height: u32,
        geometry: &M,
    )
        requires
            old(self)@.valid(),
        ensures
            examined(old(self)@, final(self)@, *frame),
            old(self)@.due() && frame.in_memory() ==> exists|
                seen: Seq<(CameraId, DetectorFrame<'_>)>,
                turns: Seq<Box<dyn UnifiedDetector>>,
                answers: Seq<Result<Vec<Detection>, DetectorError>>,
            |
                {
                    &&& #[trigger] taken_in_turn(turns, seen, answers)
                    &&& frame.seen_as(width, height, seen)
                    &&& turns.first() == old(self)@.detector->0
                    &&& turns.last() == final(self)@.detector->0
                    &&& placed_by(geometry, gathered(answers), final(self)@.detections)
                    &&& forall|i: int|
                        0 <= i < seen.len() && #[trigger] answers_so(
                            &*turns[i],
                            seen[i].0,
                            &seen[i].1,
                            answers[i],
                        ) ==> exists|d: &mut dyn UnifiedDetector|
                            {
                                &&& #[trigger] answered(d, seen[i].0, &seen[i].1, answers[i])
                                &&& &*d == &*turns[i]
                                &&& &*final(d) == &*turns[i + 1]
                            }
                },
    {
        if self.frame_count % self.detection_interval != 0 {
            return ;
        }
        if let Some(detector) = &mut self.detector {
            match frame {
                StereoFrame::Yuv420p { left, right } => {
                    let l: YuvPlanes<'_> = left.as_planes();
                    let r: YuvPlanes<'_> = right.as_planes();
                    let seen: Vec<(CameraId, DetectorFrame<'_>)> = yuv_pair(&l, &r, width, height);
                    assert(frame.seen_as(width, height, seen@));
                    self.last_detections = detect_and_place(detector, seen.as_slice(), geometry);
                },
                StereoFrame::Nv12 { left, right } => {
                    let l: Nv12Planes<'_> = left.as_planes();
                    let r: Nv12Planes<'_> = right.as_planes();
                    let seen: Vec<(CameraId, DetectorFrame<'_>)> = nv12_pair(&l, &r, width, height);
                    assert(frame.seen_as(width, height, seen@));
                    self.last_detections = detect_and_place(detector, seen.as_slice(), geometry);
                },
                _ => {},
            }
        }
    }

    /// Hand the detections found last to the sink, if there is one.
    fn fire_sink(&mut self, timestamp_ms: Real64) -> (fired: Result<(), AnalyzeError>)
        ensures
            final(self)@ == (AnalyzeState { sink: final(self)@.sink, ..old(self)@ }),
            fired_as(old(self)@, timestamp_ms, fired),
            match (old(self)@.sink, final(self)@.sink) {
                (Some(before), Some(after)) => exists|
                    k: &mut dyn DetectionSink,
                    given: &[MappedDetection],
                    answer: Result<(), String>,
                |
                    {
                        &&& #[trigger] taken(
                            k,
                            given,
                            old(self)@.frame_count,
                            timestamp_ms,
                            answer,
                        )
                        &&& given@ == old(self)@.detections
                        &&& fired == sunk(answer)
                        &&& &*k == &*before
                        &&& &*final(k) == &*after
                    },
                (None, None) => fired is Ok,
                _ => false,
            },
    {
        if let Some(sink) = &mut self.sink {
            let answer: Result<(), String> = give(
                &mut **sink,
                self.last_detections.as_slice(),
                self.frame_count,
                timestamp_ms,
            );
            return sink_outcome(answer);
        }
        Ok(())
    }

    /// Take frames from the source until it ends, the limit is reached or the
    /// monitor stops the run: detect on those that are due, and hand each frame's
    /// detections to the sink. Returns the number of frames done in all. The source
    /// is asked once for each frame, and not again once it has ended or something
    /// has failed; the monitor hears of each frame once, in order.
    #[verifier::spinoff_prover]
    pub fn run<S: FrameSource, W: RunMonitor, M: PanoramaMap>(
        &mut self,
        source: &mut S,
        frame_limit: u64,
        monitor: &mut W,
        geometry: &M,
    ) -> (outcome: Result<u64, AnalyzeError>)
        requires
            old(self)@.valid(),
        ensures
            final(self)@.valid(),
            final(self)@.frame_count <= old(self)@.frame_count || final(self)@.frame_count
                <= frame_limit,
            old(self)@.frame_count >= frame_limit ==> {
                &&& outcome == Ok::<u64, AnalyzeError>(old(self)@.frame_count)
                &&& final(self)@ == old(self)@
                &&& *final(source) == *old(source)
                &&& *final(monitor) == *old(monitor)
            },
            exists|size: (u32, u32), course: Course<S, W>|
                {
                    &&& #[trigger] sized(old(source), size)
                    &&& #[trigger] course.steady(frame_limit)
                    &&& course.states.first() == old(self)@
                    &&& course.sources.first() == *old(source)
                    &&& course.monitors.first() == *old(monitor)
                    &&& forall|i: int| #[trigger]
                        course.took(i, frame_limit) ==> {
                            &&& exists|s: &mut S|
                                {
                                    &&& #[trigger] replied(s, Ok(Some(course.frames[i])))
                                    &&& *s == course.sources[i]
                                    &&& *final(s) == course.sources[i + 1]
                                }
                            &&& exists|w: &mut W, p: FrameProgress|
                                {
                                    &&& #[trigger] heard(w, p)
                                    &&& p.frames_completed == course.states[i + 1].frame_count
                                    &&& clocked(&course.monitors[i], p.elapsed)
                                    &&& *w == course.monitors[i]
                                    &&& *final(w) == course.monitors[i + 1]
                                }
                            &&& course.states[i].sink matches Some(before) ==> exists|
                                k: &mut dyn DetectionSink,
                                given: &[MappedDetection],
                                answer: Result<(), String>,
                            |
                                {
                                    &&& #[trigger] taken(
                                        k,
                                        given,
                                        course.states[i].frame_count,
                                        course.times[i],
                                        answer,
                                    )
                                    &&& answer is Ok
                                    &&& given@ == course.states[i + 1].detections
                                    &&& &*k == &*before
                                    &&& &*final(k) == &*course.states[i + 1].sink->0
                                }
                            &&& course.states[i].due() && course.frames[i].in_memory() ==> exists|
                                seen: Seq<(CameraId, DetectorFrame<'_>)>,
                                turns: Seq<Box<dyn UnifiedDetector>>,
                                answers: Seq<Result<Vec<Detection>, DetectorError>>,
                            |
                                {
                                    &&& #[trigger] taken_in_turn(turns, seen, answers)
                                    &&& course.frames[i].seen_as(size.0, size.1, seen)
                                    &&& turns.first() == course.states[i].detector->0
                                    &&& turns.last() == course.states[i + 1].detector->0
                                    &&& placed_by(
                                        geometry,
                                        gathered(answers),
                                        course.states[i + 1].detections,
                                    )
                                    &&& forall|j: int|
                                        0 <= j < seen.len() && #[trigger] answers_so(
                                            &*turns[j],
                                            seen[j].0,
                                            &seen[j].1,
                                            answers[j],
                                        ) ==> exists|d: &mut dyn UnifiedDetector|
                                            {
                                                &&& #[trigger] answered(
                                                    d,
                                                    seen[j].0,
                                                    &seen[j].1,
                                                    answers[j],
                                                )
                                                &&& &*d == &*turns[j]
                                                &&& &*final(d) == &*turns[j + 1]
                                            }
                                }
                        }
                    &&& *final(monitor) == course.monitors.last()
                    &&& final(self)@.frame_count == old(self)@.frame_count + course.frames.len()
                    &&& match outcome {
                        Ok(n) => {
                            &&& n == final(self)@.frame_count
                            &&& final(self)@ == course.states.last()
                            &&& if n >= frame_limit {
                                *final(source) == course.sources.last()
                            } else {
                                ||| asked(final(monitor), true) && *final(source)
                                    == course.sources.last()
                                ||| asked(final(monitor), false) && exists|s: &mut S|
                                    {
                                        &&& #[trigger] replied(s, Ok(None))
                                        &&& *s == course.sources.last()
                                        &&& *final(s) == *final(source)
                                    }
                            }
                        },
                        Err(AnalyzeError::Source(e)) => {
                            &&& final(self)@ == course.states.last()
                            &&& final(self)@.frame_count < frame_limit
                            &&& asked(final(monitor), false)
                            &&& exists|s: &mut S|
                                {
                                    &&& #[trigger] replied(s, Err(e))
                                    &&& *s == course.sources.last()
                                    &&& *final(s) == *final(source)
                                }
                        },
                        Err(AnalyzeError::DetectionSink(e)) => {
                            &&& final(self)@.frame_count < frame_limit
                            &&& asked(final(monitor), false)
                            &&& exists|s: &mut S, frame: StereoFrame, timestamp_ms: Real64|
                                {
                                    &&& #[trigger] replied(s, Ok(Some(frame)))
                                    &&& *s == course.sources.last()
                                    &&& *final(s) == *final(source)
                                    &&& #[trigger] timed(final(monitor), timestamp_ms)
                                    &&& refused(
                                        course.states.last(),
                                        final(self)@,
                                        frame,
                                        timestamp_ms,
                                        e,
                                    )
                                    &&& exists|
                                        k: &mut dyn DetectionSink,
                                        given: &[MappedDetection],
                                        answer: Result<(), String>,
                                    |
                                        {
                                            &&& #[trigger] taken(
                                                k,
                                                given,
                                                course.states.last().frame_count,
                                                timestamp_ms,
                                                answer,
                                            )
                                            &&& answer matches Err(reason) && reason == e
                                            &&& given@ == final(self)@.detections
                                            &&& &*k == &*course.states.last().sink->0
                                            &&& &*final(k) == &*final(self)@.sink->0
                                        }
                                    &&& course.states.last().due() && frame.in_memory() ==> exists|
                                        seen: Seq<(CameraId, DetectorFrame<'_>)>,
                                        turns: Seq<Box<dyn UnifiedDetector>>,
                                        answers: Seq<Result<Vec<Detection>, DetectorError>>,
                                    |
                                        {
                                            &&& #[trigger] taken_in_turn(turns, seen, answers)
                                            &&& frame.seen_as(size.0, size.1, seen)
                                            &&& turns.first() == course.states.last().detector->0
                                            &&& turns.last() == final(self)@.detector->0
                                            &&& placed_by(
                                                geometry,
                                                gathered(answers),
                                                final(self)@.detections,
                                            )
                                            &&& forall|i: int|
                                                0 <= i < seen.len() && #[trigger] answers_so(
                                                    &*turns[i],
                                                    seen[i].0,
                                                    &seen[i].1,
                                                    answers[i],
                                                ) ==> exists|d: &mut dyn UnifiedDetector|
                                                    {
                                                        &&& #[trigger] answered(
                                                            d,
                                                            seen[i].0,
                                                            &seen[i].1,
                                                            answers[i],
                                                        )
                                                        &&& &*d == &*turns[i]
                                                        &&& &*final(d) == &*turns[i + 1]
                                                    }
                                        }
                                }
                        },
                    }
                },
    {
        let size: (u32, u32) = source.info();
        let ghost mut course: Course<S, W> = Course {
            states: seq![self@],
            sources: seq![*source],
            monitors: seq![*monitor],
            frames: Seq::empty(),
            times: Seq::empty(),
        };
        assert(sized(source, size));
        loop
            invariant
                self@.valid(),
                sized(old(source), size),
                course.steady(frame_limit),
                course.states.first() == old(self)@,
                course.sources.first() == *old(source),
                course.monitors.first() == *old(monitor),
                course.states.last() == self@,
                course.sources.last() == *source,
                course.monitors.last() == *monitor,
                self@.frame_count == old(self)@.frame_count + course.frames.len(),
                self@.frame_count <= old(self)@.frame_count || self@.frame_count <= frame_limit,
                old(self)@.frame_count >= frame_limit ==> course.frames.len() == 0,
                forall|i: int| #[trigger]
                    course.took(i, frame_limit) ==> {
                        &&& exists|s: &mut S|
                            {
                                &&& #[trigger] replied(s, Ok(Some(course.frames[i])))
                                &&& *s == course.sources[i]
                                &&& *final(s) == course.sources[i + 1]
                            }
                        &&& exists|w: &mut W, p: FrameProgress|
                            {
                                &&& #[trigger] heard(w, p)
                                &&& p.frames_completed == course.states[i + 1].frame_count
                                &&& clocked(&course.monitors[i], p.elapsed)
                                &&& *w == course.monitors[i]
                                &&& *final(w) == course.monitors[i + 1]
                            }
                        &&& course.states[i].sink matches Some(before) ==> exists|
                            k: &mut dyn DetectionSink,
                            given: &[MappedDetection],
                            answer: Result<(), String>,
                        |
                            {
                                &&& #[trigger] taken(
                                    k,
                                    given,
                                    course.states[i].frame_count,
                                    course.times[i],
                                    answer,
                                )
                                &&& answer is Ok
                                &&& given@ == course.states[i + 1].detections
                                &&& &*k == &*before
                                &&& &*final(k) == &*course.states[i + 1].sink->0
                            }
                        &&& course.states[i].due() && course.frames[i].in_memory() ==> exists|
                            seen: Seq<(CameraId, DetectorFrame<'_>)>,
                            turns: Seq<Box<dyn UnifiedDetector>>,
                            answers: Seq<Result<Vec<Detection>, DetectorError>>,
                        |
                            {
                                &&& #[trigger] taken_in_turn(turns, seen, answers)
                                &&& course.frames[i].seen_as(size.0, size.1, seen)
                                &&& turns.first() == course.states[i].detector->0
                                &&& turns.last() == course.states[i + 1].detector->0
                                &&& placed_by(
                                    geometry,
                                    gathered(answers),
                                    course.states[i + 1].detections,
                                )
                                &&& forall|j: int|
                                    0 <= j < seen.len() && #[trigger] answers_so(
                                        &*turns[j],
                                        seen[j].0,
                                        &seen[j].1,
                                        answers[j],
                                    ) ==> exists|d: &mut dyn UnifiedDetector|
                                        {
                                            &&& #[trigger] answered(
                                                d,
                                                seen[j].0,
                                                &seen[j].1,
                                                answers[j],
                                            )
                                            &&& &*d == &*turns[j]
                                            &&& &*final(d) == &*turns[j + 1]
                                        }
                            }
                    },
            decreases frame_limit - self@.frame_count,
        {
            let stop: bool = monitor.interrupted();
            assert(asked(monitor, stop));
            if !self.goes_on(frame_limit, stop) {
                return Ok(self.frame_count);
            }
            let ghost last = self@;
            let reply: Result<Option<StereoFrame>, String> = next(source);
            let frame: StereoFrame = match reply {
                Ok(Some(f)) => f,
                Ok(None) => {
                    return Ok(self.frame_count);
                },
                Err(e) => {
                    let failed: Result<u64, AnalyzeError> = Err(AnalyzeError::Source(e));
                    assert(failed->Err_0->Source_0 == e);
                    return failed;
                },
            };
            self.detect(&frame, size.0, size.1, geometry);
            let timestamp_ms: Real64 = monitor.elapsed_ms();
            assert(timed(monitor, timestamp_ms));
            match self.fire_sink(timestamp_ms) {
                Ok(_) => {},
                Err(e) => {
                    return Err(e);
                },
            }
            self.frame_count = self.frame_count + 1;
            let ghost watcher = *monitor;
            let elapsed: Duration = monitor.elapsed();
            assert(clocked(monitor, elapsed));
            report(monitor, FrameProgress { frames_completed: self.frame_count, elapsed });
            let ghost before = course;
            let ghost n = course.frames.len() as int;
            proof {
                course = course.and(self@, *source, *monitor, frame, timestamp_ms);
                before.lemma_grows(self@, *source, *monitor, frame, timestamp_ms, frame_limit);
                assert(course.states[n + 1].frame_count == self.frame_count);
                assert(course.took(n, frame_limit));
                assert forall|i: int| #[trigger]
                    course.took(i, frame_limit) implies {
                        &&& exists|s: &mut S|
                            {
                                &&& #[trigger] replied(s, Ok(Some(course.frames[i])))
                                &&& *s == course.sources[i]
                                &&& *final(s) == course.sources[i + 1]
                            }
                        &&& exists|w: &mut W, p: FrameProgress|
                            {
                                &&& #[trigger] heard(w, p)
                                &&& p.frames_completed == course.states[i + 1].frame_count
                                &&& clocked(&course.monitors[i], p.elapsed)
                                &&& *w == course.monitors[i]
                                &&& *final(w) == course.monitors[i + 1]
                            }
                        &&& course.states[i].sink matches Some(before) ==> exists|
                            k: &mut dyn DetectionSink,
                            given: &[MappedDetection],
                            answer: Result<(), String>,
                        |
                            {
                                &&& #[trigger] taken(
                                    k,
                                    given,
                                    course.states[i].frame_count,
                                    course.times[i],
                                    answer,
                                )
                                &&& answer is Ok
                                &&& given@ == course.states[i + 1].detections
                                &&& &*k == &*before
                                &&& &*final(k) == &*course.states[i + 1].sink->0
                            }
                        &&& course.states[i].due() && course.frames[i].in_memory() ==> exists|
                            seen: Seq<(CameraId, DetectorFrame<'_>)>,
                            turns: Seq<Box<dyn UnifiedDetector>>,
                            answers: Seq<Result<Vec<Detection>, DetectorError>>,
                        |
                            {
                                &&& #[trigger] taken_in_turn(turns, seen, answers)
                                &&& course.frames[i].seen_as(size.0, size.1, seen)
                                &&& turns.first() == course.states[i].detector->0
                                &&& turns.last() == course.states[i + 1].detector->0
                                &&& placed_by(
                                    geometry,
                                    gathered(answers),
                                    course.states[i + 1].detections,
                                )
                                &&& forall|j: int|
                                    0 <= j < seen.len() && #[trigger] answers_so(
                                        &*turns[j],
                                        seen[j].0,
                                        &seen[j].1,
                                        answers[j],
                                    ) ==> exists|d: &mut dyn UnifiedDetector|
                                        {
                                            &&& #[trigger] answered(
                                                d,
                                                seen[j].0,
                                                &seen[j].1,
                                                answers[j],
                                            )
                                            &&& &*d == &*turns[j]
                                            &&& &*final(d) == &*turns[j + 1]
                                        }
                            }
                    } by {
                    if i < n {
                        assert(before.took(i, frame_limit));
                        assert(course.states[i] == before.states[i]);
                        assert(course.states[i + 1] == before.states[i + 1]);
                        assert(course.sources[i] == before.sources[i]);
                        assert(course.sources[i + 1] == before.sources[i + 1]);
                        assert(course.monitors[i] == before.monitors[i]);
                        assert(course.monitors[i + 1] == before.monitors[i + 1]);
                        assert(course.frames[i] == before.frames[i]);
                        assert(course.times[i] == before.times[i]);
                    } else {
                        assert(i == n);
                        assert(course.states[i] == last && course.states[i + 1] == self@);
                        assert(course.monitors[i] == watcher && course.monitors[i + 1] == *monitor);
                        assert(course.sources[i] == before.sources.last());
                        assert(course.sources[i + 1] == *source);
                        assert(course.frames[i] == frame && course.times[i] == timestamp_ms);
                    }
                }
            }
        }
    }
}

/// What a run goes through: the frames it deals with, when it hands on what was
/// found in each, and what each frame leads from and to.
pub struct Course<S, W> {
    /// The analysis, before each frame and in the end.
    pub states: Seq<AnalyzeState>,
    /// The source, before each frame and in the end.
    pub sources: Seq<S>,
    /// The monitor, before each frame and in the end.
    pub monitors: Seq<W>,
    /// The frames.
    pub frames: Seq<StereoFrame>,
    /// The times.
    pub times: Seq<Real64>,
}

impl<S, W: RunMonitor> Course<S, W> {
    /// Whether a frame of the source has been dealt with as it should.
    pub open spec fn took(self, i: int, frame_limit: u64) -> bool {
        &&& 0 <= i < self.frames.len()
        &&& advanced(
            self.states[i],
            self.states[i + 1],
            self.frames[i],
            self.times[i],
            &self.monitors[i],
            frame_limit,
        )
    }

    /// Whether every frame has been dealt with as it should, and the frames are
    /// counted one by one.
    pub open spec fn steady(self, frame_limit: u64) -> bool {
        &&& self.states.len() == self.frames.len() + 1
        &&& self.sources.len() == self.frames.len() + 1
        &&& self.monitors.len() == self.frames.len() + 1
        &&& self.times.len() == self.frames.len()
        &&& forall|i: int|
            0 <= i < self.frames.len() ==> #[trigger] self.took(i, frame_limit)
        &&& forall|i: int|
            0 <= i < self.states.len() ==> (#[trigger] self.states[i]).frame_count
                == self.states.first().frame_count + i
    }

    /// With one frame more.
    pub open spec fn and(
        self,
        state: AnalyzeState,
        source: S,
        monitor: W,
        frame: StereoFrame,
        time: Real64,
    ) -> Self {
        Course {
            states: self.states.push(state),
            sources: self.sources.push(source),
            monitors: self.monitors.push(monitor),
            frames: self.frames.push(frame),
            times: self.times.push(time),
        }
    }

    proof fn lemma_grows(
        self,
        state: AnalyzeState,
        source: S,
        monitor: W,
        frame: StereoFrame,
        time: Real64,
        frame_limit: u64,
    )
        requires
            self.steady(frame_limit),
            advanced(
                self.states.last(),
                state,
                frame,
                time,
                &self.monitors.last(),
                frame_limit,
            ),
        ensures
            self.and(state, source, monitor, frame, time).steady(frame_limit),
    {
        let longer = self.and(state, source, monitor, frame, time);
        let n = self.frames.len() as int;
        assert(self.states[n] == self.states.last());
        assert forall|i: int| 0 <= i < longer.frames.len() implies #[trigger] longer.took(
            i,
            frame_limit,
        ) by {
            if i < n {
                assert(self.took(i, frame_limit));
                assert(longer.states[i + 1] == self.states[i + 1]);
            }
        }
    }
}

/// Whether a frame changes no more than it should: what was found, and the detector
/// that found it, when detection is due and the frame is in main memory.
pub open spec fn examined(before: AnalyzeState, after: AnalyzeState, frame: StereoFrame) -> bool {
    &&& after == (AnalyzeState {
        detector: after.detector,
        detections: after.detections,
        ..before
    })
    &&& after.detector is Some <==> before.detector is Some
    &&& !(before.due() && frame.in_memory()) ==> {
        &&& after.detections == before.detections
        &&& after.detector == before.detector
    }
}

/// Whether an outcome is what the sink's answer amounts to; without a sink nothing
/// can fail.
pub open spec fn fired_as(
    state: AnalyzeState,
    timestamp_ms: Real64,
    fired: Result<(), AnalyzeError>,
) -> bool {
    match state.sink {
        Some(sink) => exists|
            k: &mut dyn DetectionSink,
            given: &[MappedDetection],
            answer: Result<(), String>,
        |
            {
                &&& #[trigger] taken(k, given, state.frame_count, timestamp_ms, answer)
                &&& given@ == state.detections
                &&& fired == sunk(answer)
                &&& &*k == &*sink
            },
        None => fired is Ok,
    }
}

/// Whether a frame of the source has been dealt with: detected on, given to the
/// sink and counted.
pub open spec fn advanced<W: RunMonitor>(
    before: AnalyzeState,
    after: AnalyzeState,
    frame: StereoFrame,
    timestamp_ms: Real64,
    monitor: &W,
    frame_limit: u64,
) -> bool {
    let looked = AnalyzeState {
        frame_count: before.frame_count,
        sink: before.sink,
        ..after
    };
    &&& before.frame_count < frame_limit
    &&& after.frame_count == before.frame_count + 1
    &&& after.sink is Some <==> before.sink is Some
    &&& asked(monitor, false)
    &&& timed(monitor, timestamp_ms)
    &&& examined(before, looked, frame)
    &&& fired_as(looked, timestamp_ms, Ok(()))
}

/// Whether a frame of the source has been detected on and refused by the sink. It
/// does not count.
pub open spec fn refused(
    before: AnalyzeState,
    after: AnalyzeState,
    frame: StereoFrame,
    timestamp_ms: Real64,
    reason: String,
) -> bool {
    let looked = AnalyzeState { sink: before.sink, ..after };
    &&& before.sink is Some && after.sink is Some
    &&& examined(before, looked, frame)
    &&& fired_as(looked, timestamp_ms, Err(AnalyzeError::DetectionSink(reason)))
}

/// What a sink's answer amounts to.
pub open spec fn sunk(answer: Result<(), String>) -> Result<(), AnalyzeError> {
    match answer {
        Ok(_) => Ok(()),
        Err(text) => Err(AnalyzeError::DetectionSink(text)),
    }
}

/// What a sink's answer amounts to.
pub fn sink_outcome(answer: Result<(), String>) -> (outcome: Result<(), AnalyzeError>)
    ensures
        outcome == sunk(answer),
{
    match answer {
        Ok(_) => Ok(()),
        Err(text) => Err(AnalyzeError::DetectionSink(text)),
    }
}

/// The planes that a detector gets of a frame are the frame's own, the left camera's first.
pub proof fn law_detectors_get_the_frame(
    frame: StereoFrame,
    width: u32,
    height: u32,
    seen: Seq<(CameraId, DetectorFrame<'_>)>,
)
    requires
        frame.seen_as(width, height, seen),
    ensures
        frame is Yuv420p || frame is Nv12,
        seen.len() == 2,
        seen[0].0 == CameraId::Left,
        seen[1].0 == CameraId::Right,
        forall|k: int| 0 <= k < 2 ==> (#[trigger] seen[k]).1 is Cpu,
        forall|k: int|
            0 <= k < 2 ==> (#[trigger] seen[k]).1->Cpu_0.width == width && seen[k].1->Cpu_0.height
                == height,
        frame matches StereoFrame::Yuv420p { left, right } ==> {
            &&& seen[0].1->Cpu_0.y@ == left.y@
            &&& seen[1].1->Cpu_0.y@ == right.y@
            &&& seen[0].1->Cpu_0.chroma matches ChromaFormat::Yuv420p { u, v } && u@ == left.u@
                && v@ == left.v@
            &&& seen[1].1->Cpu_0.chroma matches ChromaFormat::Yuv420p { u, v } && u@ == right.u@
                && v@ == right.v@
        },
        frame matches StereoFrame::Nv12 { left, right } ==> {
            &&& seen[0].1->Cpu_0.y@ == left.y@
            &&& seen[1].1->Cpu_0.y@ == right.y@
            &&& seen[0].1->Cpu_0.chroma matches ChromaFormat::Nv12 { uv } && uv@ == left.uv@
            &&& seen[1].1->Cpu_0.chroma matches ChromaFormat::Nv12 { uv } && uv@ == right.uv@
        },
{
}

/// With a detector attached the first frame is due, and from a due frame on the next one
/// comes an interval later; without one none is.
pub proof fn law_analysis_detects_periodically(state: AnalyzeState, ahead: u64)
    requires
        state.valid(),
        0 < ahead <= state.interval,
        state.frame_count + ahead <= u64::MAX,
    ensures
        ({
            let then = AnalyzeState { frame_count: (state.frame_count + ahead) as u64, ..state };
            let first = AnalyzeState { frame_count: 0, ..state };
            &&& state.detector is None ==> !state.due()
            &&& state.detector is Some ==> first.due()
            &&& state.due() ==> (then.due() <==> ahead == state.interval)
        }),
{
    vstd::arithmetic::div_mod::lemma_small_mod(0, state.interval as nat);
    if state.due() {
        crate::bayer::law_schedule_is_periodic(state.interval, state.frame_count, ahead);
    }
}

/// A frame that is not due, or not in main memory, leaves what was found and the detector; any
/// other changes those two and nothing else.
pub proof fn law_frames_that_are_not_due_change_nothing(
    before: AnalyzeState,
    after: AnalyzeState,
    frame: StereoFrame,
)
    requires
        before.valid(),
        examined(before, after, frame),
    ensures
        before.detector is None || before.frame_count % before.interval != 0
            || frame is GpuResident || frame is MetalResident ==> after.detections
            == before.detections && after.detector == before.detector,
        after.frame_count == before.frame_count,
        after.sink == before.sink,
        after.interval == before.interval,
        after.calibration == before.calibration,
        after.coverage == before.coverage,
{
}

/// A frame that was dealt with counts as one, below the limit and while the monitor does not
/// stop the run; the settings stay.
pub proof fn law_frames_count_one_by_one<W: RunMonitor>(
    before: AnalyzeState,
    after: AnalyzeState,
    frame: StereoFrame,
    timestamp_ms: Real64,
    monitor: &W,
    frame_limit: u64,
)
    requires
        before.valid(),
        advanced(before, after, frame, timestamp_ms, monitor, frame_limit),
    ensures
        before.frame_count < frame_limit,
        after.frame_count == before.frame_count + 1,
        after.frame_count <= frame_limit,
        call_ensures(W::interrupted, (monitor,), false),
        call_ensures(W::elapsed_ms, (monitor,), timestamp_ms),
        after.interval == before.interval,
        after.calibration == before.calibration,
        after.coverage == before.coverage,
        after.sink is Some <==> before.sink is Some,
        before.detector is None || before.frame_count % before.interval != 0
            || frame is GpuResident || frame is MetalResident ==> after.detections
            == before.detections && after.detector == before.detector,
{
}

/// A frame that the sink refuses does not count, and is not refused without a sink.
pub proof fn law_refused_frames_do_not_count(
    before: AnalyzeState,
    after: AnalyzeState,
    frame: StereoFrame,
    timestamp_ms: Real64,
    reason: String,
)
    requires
        refused(before, after, frame, timestamp_ms, reason),
    ensures
        before.sink is Some,
        after.sink is Some,
        after.frame_count == before.frame_count,
        exists|k: &mut dyn DetectionSink, given: &[MappedDetection], answer: Result<(), String>|
            {
                &&& #[trigger] taken(k, given, before.frame_count, timestamp_ms, answer)
                &&& given@ == after.detections
                &&& answer is Err
                &&& answer->Err_0 == reason
                &&& &*k == &*before.sink->0
            },
{
}

/// What a sink answers is what comes of it: done, or failed with its own words.
pub proof fn law_sinks_are_believed(answer: Result<(), String>)
    ensures
        answer is Ok <==> sunk(answer) is Ok,
        answer matches Err(text) ==> (sunk(answer) matches Err(e) && e is DetectionSink
            && e->DetectionSink_0 == text),
{
}

/// Sources, sinks and monitors are called with what they are said to be called with.
pub proof fn law_analysis_calls_are_as_said<
    S: FrameSource + ?Sized,
    K: DetectionSink + ?Sized,
    W: RunMonitor + ?Sized,
>(
    size: (u32, u32),
    reply: Result<Option<StereoFrame>, String>,
    detections: &[MappedDetection],
    frame_index: u64,
    timestamp_ms: Real64,
    answer: Result<(), String>,
    stop: bool,
    elapsed: Duration,
    progress: FrameProgress,
)
    ensures
        forall|s: &S| #[trigger] sized(s, size) ==> call_ensures(S::info, (s,), size),
        forall|s: &mut S| #[trigger]
            replied(s, reply) ==> call_ensures(S::next_frame, (s,), reply),
        forall|k: &mut K| #[trigger]
            taken(k, detections, frame_index, timestamp_ms, answer) ==> call_ensures(
                K::take,
                (k, detections, frame_index, timestamp_ms),
                answer,
            ),
        forall|w: &W| #[trigger] asked(w, stop) ==> call_ensures(W::interrupted, (w,), stop),
        forall|w: &W| #[trigger]
            timed(w, timestamp_ms) ==> call_ensures(W::elapsed_ms, (w,), timestamp_ms),
        forall|w: &W| #[trigger] clocked(w, elapsed) ==> call_ensures(W::elapsed, (w,), elapsed),
        forall|w: &mut W| #[trigger]
            heard(w, progress) ==> call_ensures(W::progress, (w, progress), ()),
{
}

/// A course has a state, a source and a monitor before each frame and one in the end, and
/// counts its frames one by one.
pub proof fn law_courses_count_their_frames<S, W: RunMonitor>(
    course: Course<S, W>,
    frame_limit: u64,
    i: int,
)
    requires
        course.steady(frame_limit),
        0 <= i < course.frames.len(),
    ensures
        course.states.len() == course.frames.len() + 1,
        course.sources.len() == course.frames.len() + 1,
        course.monitors.len() == course.frames.len() + 1,
        course.times.len() == course.frames.len(),
        course.took(i, frame_limit),
        course.states[i].frame_count == course.states.first().frame_count + i,
        course.states[i + 1].frame_count == course.states[i].frame_count + 1,
        course.states[i].frame_count < frame_limit,
{
    assert(course.took(i, frame_limit));
    assert(course.states[i].frame_count == course.states.first().frame_count + i);
    assert(course.states[i + 1].frame_count == course.states.first().frame_count + i + 1);
}

/// A message says whether the source or the sink failed, and why.
pub proof fn law_analysis_messages_name_the_part(reason: String)
    ensures
        AnalyzeError::Source(reason).text() == "source: "@ + reason@,
        AnalyzeError::DetectionSink(reason).text() == "detection sink: "@ + reason@,
{
}

} // verus!
