//! Object detection on raw camera frames.
//!
//! Detectors see the frames before they are stitched. What they find is mapped
//! to panorama coordinates and handed to the trackers.

use crate::number::Real32;
use crate::planes::{Nv12Planes, YuvPlanes};
use crate::pose::Pose;
use crate::text::joined;
use crate::time::{Duration, NANOS_PER_SEC};
use vstd::prelude::*;

verus! {

/// Which camera a frame comes from.
#[derive(Clone, Copy, Debug, PartialEq, Eq, Structural)]
pub enum CameraId {
    /// The left camera.
    Left,
    /// The right camera.
    Right,
}

impl CameraId {
    /// Short label of the camera.
    pub fn label(&self) -> (label: &'static str)
        ensures
            label@ == (match *self {
                CameraId::Left => "L"@,
                CameraId::Right => "R"@,
            }),
    {
        match self {
            CameraId::Left => "L",
            CameraId::Right => "R",
        }
    }
}

/// A raw camera frame.
pub struct RawFrame<'a> {
    /// Luma plane.
    pub y: &'a [u8],
    /// Chroma planes.
    pub chroma: ChromaFormat<'a>,
    /// Width in pixels.
    pub width: u32,
    /// Height in pixels.
    pub height: u32,
}

/// Layout of the chroma planes.
pub enum ChromaFormat<'a> {
    /// Separate planes of half resolution.
    Yuv420p {
        /// Cb plane.
        u: &'a [u8],
        /// Cr plane.
        v: &'a [u8],
    },
    /// One interleaved plane.
    Nv12 {
        /// Interleaved chroma.
        uv: &'a [u8],
    },
}

/// An object found in a camera frame. Coordinates are shares of the frame.
#[derive(Clone, Copy, Debug, PartialEq, Eq, Structural)]
pub struct Detection {
    /// The camera.
    pub camera: CameraId,
    /// Class of the object.
    pub class_id: u16,
    /// Confidence, up to one.
    pub confidence: Real32,
    /// Center of the box, across.
    pub center_x: Real32,
    /// Center of the box, down.
    pub center_y: Real32,
    /// Width of the box.
    pub width: Real32,
    /// Height of the box.
    pub height: Real32,
}

/// Why a detector gave no answer.
#[derive(Clone, Debug)]
pub enum DetectorError {
    /// The inference engine failed.
    InferenceFailed(String),
    /// The deadline passed.
    Timeout {
        /// How long the caller waited.
        after: Duration,
    },
    /// The detector does not take frames of this kind.
    UnsupportedFrameKind,
    /// A remote detector could not be reached.
    Transport(String),
    /// The caller gave up on the frame.
    Canceled,
}

/// The longest span that can be written out, in nanoseconds.
pub const LONGEST_SHOWN: u128 = 18_446_744_073_709_551_615_999_999_999;

/// What `Debug` of a `std::time::Duration` of the given seconds and nanoseconds
/// writes.
pub uninterp spec fn duration_text(secs: u64, nanos: u32) -> Seq<char>;

/// Writes out `std::time::Duration::new(secs, nanos)` by its `Debug`. The text
/// is a function of the two numbers and goes by the name [`duration_text`].
#[verifier::external_body]
fn show_duration(secs: u64, nanos: u32) -> (text: String)
    requires
        nanos < 1_000_000_000,
    ensures
        text@ == duration_text(secs, nanos),
{
    format!("{:?}", std::time::Duration::new(secs, nanos))
}

impl DetectorError {
    /// The message of the error.
    pub open spec fn text(&self) -> Seq<char> {
        match self {
            DetectorError::InferenceFailed(e) => "inference failed: "@ + e@,
            DetectorError::Timeout { after } => "detector timed out after "@ + duration_text(
                (after.nanos / NANOS_PER_SEC) as u64,
                (after.nanos % NANOS_PER_SEC) as u32,
            ),
            DetectorError::UnsupportedFrameKind => "detector does not support this frame variant"@,
            DetectorError::Transport(e) => "transport error: "@ + e@,
            DetectorError::Canceled => "detection canceled"@,
        }
    }

    /// The message of the error.
    pub fn message(&self) -> (text: String)
        requires
            self matches DetectorError::Timeout { after } ==> after.nanos <= LONGEST_SHOWN,
        ensures
            text@ == self.text(),
    {
        match self {
            DetectorError::InferenceFailed(e) => joined("inference failed: ", e.as_str()),
            DetectorError::Timeout { after } => {
                let shown: String = show_duration(
                    (after.nanos / NANOS_PER_SEC) as u64,
                    (after.nanos % NANOS_PER_SEC) as u32,
                );
                joined("detector timed out after ", shown.as_str())
            },
            DetectorError::UnsupportedFrameKind => {
                "detector does not support this frame variant".to_owned()
            },
            DetectorError::Transport(e) => joined("transport error: ", e.as_str()),
            DetectorError::Canceled => "detection canceled".to_owned(),
        }
    }
}

/// A frame in device memory, as NV12.
#[derive(Clone, Copy, Debug, PartialEq, Eq, Structural)]
pub struct GpuNv12Frame {
    /// Device address of the luma plane.
    pub y_ptr: u64,
    /// Device address of the chroma plane.
    pub uv_ptr: u64,
    /// Bytes per luma row.
    pub y_pitch: usize,
    /// Bytes per chroma row.
    pub uv_pitch: usize,
    /// Width in pixels.
    pub width: u32,
    /// Height in pixels.
    pub height: u32,
    /// Rotation of the stream in degrees.
    pub rotation: i32,
    /// Whether samples have ten bits.
    pub is_10bit: bool,
}

/// A frame as a detector gets it, wherever it resides.
#[non_exhaustive]
pub enum DetectorFrame<'a> {
    /// Planes in main memory.
    Cpu(RawFrame<'a>),
    /// Planes in CUDA memory.
    Cuda(GpuNv12Frame),
    /// Packed pixels in main memory.
    Rgba {
        /// Four bytes per pixel.
        data: &'a [u8],
        /// Width in pixels.
        width: u32,
        /// Height in pixels.
        height: u32,
    },
    /// A decoded pixel buffer of the platform.
    Metal {
        /// Address of the buffer.
        cv_pixel_buffer: u64,
        /// Width in pixels.
        width: u32,
        /// Height in pixels.
        height: u32,
    },
}

impl DetectorFrame<'_> {
    /// Short label of the kind of frame.
    pub open spec fn kind(&self) -> Seq<char> {
        match self {
            DetectorFrame::Cpu(_) => "Cpu"@,
            DetectorFrame::Cuda(_) => "Cuda"@,
            DetectorFrame::Rgba { .. } => "Rgba"@,
            DetectorFrame::Metal { .. } => "Metal"@,
        }
    }

    /// Short label of the kind of frame.
    pub fn variant_name(&self) -> (name: &'static str)
        ensures
            name@ == self.kind(),
    {
        match self {
            DetectorFrame::Cpu(_) => "Cpu",
            DetectorFrame::Cuda(_) => "Cuda",
            DetectorFrame::Rgba { .. } => "Rgba",
            DetectorFrame::Metal { .. } => "Metal",
        }
    }
}

/// Three planes as a detector gets them.
pub open spec fn yuv_seen<'a>(planes: YuvPlanes<'a>, width: u32, height: u32) -> DetectorFrame<
    'a,
> {
    DetectorFrame::Cpu(
        RawFrame {
            y: planes.y,
            chroma: ChromaFormat::Yuv420p { u: planes.u, v: planes.v },
            width,
            height,
        },
    )
}

/// Three planes as a detector gets them.
pub fn yuv_frame<'a>(planes: &YuvPlanes<'a>, width: u32, height: u32) -> (frame: DetectorFrame<'a>)
    ensures
        frame == yuv_seen(*planes, width, height),
{
    DetectorFrame::Cpu(
        RawFrame {
            y: planes.y,
            chroma: ChromaFormat::Yuv420p { u: planes.u, v: planes.v },
            width,
            height,
        },
    )
}

/// Two planes as a detector gets them.
pub open spec fn nv12_seen<'a>(planes: Nv12Planes<'a>, width: u32, height: u32) -> DetectorFrame<
    'a,
> {
    DetectorFrame::Cpu(
        RawFrame { y: planes.y, chroma: ChromaFormat::Nv12 { uv: planes.uv }, width, height },
    )
}

/// Two planes as a detector gets them.
pub fn nv12_frame<'a>(planes: &Nv12Planes<'a>, width: u32, height: u32) -> (frame: DetectorFrame<
    'a,
>)
    ensures
        frame == nv12_seen(*planes, width, height),
{
    DetectorFrame::Cpu(
        RawFrame { y: planes.y, chroma: ChromaFormat::Nv12 { uv: planes.uv }, width, height },
    )
}

/// The frames of both cameras, left first.
pub open spec fn pair<'a>(left: DetectorFrame<'a>, right: DetectorFrame<'a>) -> Seq<
    (CameraId, DetectorFrame<'a>),
> {
    seq![(CameraId::Left, left), (CameraId::Right, right)]
}

/// Three planes of both cameras as a detector gets them.
pub fn yuv_pair<'a>(left: &YuvPlanes<'a>, right: &YuvPlanes<'a>, width: u32, height: u32) -> (seen:
    Vec<(CameraId, DetectorFrame<'a>)>)
    ensures
        seen@ == pair(yuv_seen(*left, width, height), yuv_seen(*right, width, height)),
{
    let seen: Vec<(CameraId, DetectorFrame<'a>)> = vec![
        (CameraId::Left, yuv_frame(left, width, height)),
        (CameraId::Right, yuv_frame(right, width, height)),
    ];
    assert(seen@ =~= pair(yuv_seen(*left, width, height), yuv_seen(*right, width, height)));
    seen
}

/// Two planes of both cameras as a detector gets them.
pub fn nv12_pair<'a>(left: &Nv12Planes<'a>, right: &Nv12Planes<'a>, width: u32, height: u32) -> (
seen: Vec<(CameraId, DetectorFrame<'a>)>)
    ensures
        seen@ == pair(nv12_seen(*left, width, height), nv12_seen(*right, width, height)),
{
    let seen: Vec<(CameraId, DetectorFrame<'a>)> = vec![
        (CameraId::Left, nv12_frame(left, width, height)),
        (CameraId::Right, nv12_frame(right, width, height)),
    ];
    assert(seen@ =~= pair(nv12_seen(*left, width, height), nv12_seen(*right, width, height)));
    seen
}

/// A detector, whatever frames it takes and wherever it runs.
pub trait UnifiedDetector: Send {
    /// Short name of the detector.
    fn name(&self) -> &'static str;

    /// Look for objects in a frame.
    fn detect(&mut self, camera: CameraId, frame: &DetectorFrame<'_>) -> Result<
        Vec<Detection>,
        DetectorError,
    >;

    /// Names of the classes, where the detector knows them.
    fn class_names(&self) -> (names: Option<&[String]>)
        default_ensures
            names is None,
    {
        None
    }
}

/// Whether this detector may give that name.
pub open spec fn named<D: UnifiedDetector + ?Sized>(detector: &D, name: &'static str) -> bool {
    call_ensures(D::name, (detector,), name)
}

/// Whether this detector, as it stands, may answer so when asked about that frame.
pub open spec fn answered<D: UnifiedDetector + ?Sized>(
    detector: &mut D,
    camera: CameraId,
    frame: &DetectorFrame<'_>,
    answer: Result<Vec<Detection>, DetectorError>,
) -> bool {
    call_ensures(D::detect, (detector, camera, frame), answer)
}

/// A detection mapped to panorama coordinates.
#[derive(Clone, Copy, Debug, PartialEq, Eq)]
pub struct MappedDetection {
    /// The camera.
    pub camera: CameraId,
    /// Class of the object.
    pub class_id: u16,
    /// Confidence, up to one.
    pub confidence: Real32,
    /// Center of the box in the camera frame.
    pub camera_center: (Real32, Real32),
    /// Size of the box in the camera frame.
    pub camera_size: (Real32, Real32),
    /// Where the object stands in the panorama, if the mapping reaches it.
    pub position: Option<Pose>,
}

/// A detection with its place in the panorama.
pub open spec fn mapped(d: Detection, position: Option<Pose>) -> MappedDetection {
    MappedDetection {
        camera: d.camera,
        class_id: d.class_id,
        confidence: d.confidence,
        camera_center: (d.center_x, d.center_y),
        camera_size: (d.width, d.height),
        position,
    }
}

/// The geometry that places camera coordinates in the panorama.
pub trait PanoramaMap {
    /// Where a point of a camera frame stands in the panorama.
    fn camera_to_panorama(&self, camera: CameraId, x: Real32, y: Real32) -> Option<Pose>;
}

/// Whether detections are those found, each where the geometry puts its center.
pub open spec fn placed_by<M: PanoramaMap>(
    geometry: &M,
    found: Seq<Detection>,
    placed: Seq<MappedDetection>,
) -> bool {
    &&& placed.len() == found.len()
    &&& forall|i: int|
        0 <= i < placed.len() ==> {
            &&& #[trigger] placed[i] == mapped(found[i], placed[i].position)
            &&& call_ensures(
                M::camera_to_panorama,
                (geometry, found[i].camera, found[i].center_x, found[i].center_y),
                placed[i].position,
            )
        }
}

/// Give each detection its place in the panorama.
pub fn place_detections(detections: &Vec<Detection>, positions: &Vec<Option<Pose>>) -> (placed:
    Vec<MappedDetection>)
    requires
        detections@.len() == positions@.len(),
    ensures
        placed@.len() == detections@.len(),
        forall|i: int|
            0 <= i < placed@.len() ==> #[trigger] placed@[i] == mapped(
                detections@[i],
                positions@[i],
            ),
        forall|i: int|
            0 <= i < placed@.len() ==> {
                &&& (#[trigger] placed@[i]).camera == detections@[i].camera
                &&& placed@[i].class_id == detections@[i].class_id
                &&& placed@[i].confidence == detections@[i].confidence
                &&& placed@[i].camera_center == (detections@[i].center_x, detections@[i].center_y)
                &&& placed@[i].camera_size == (detections@[i].width, detections@[i].height)
                &&& placed@[i].position == positions@[i]
            },
{
    let mut placed: Vec<MappedDetection> = Vec::with_capacity(detections.len());
    let mut i: usize = 0;
    while i < detections.len()
        invariant
            i <= detections@.len(),
            detections@.len() == positions@.len(),
            placed@.len() == i,
            forall|k: int|
                0 <= k < i ==> #[trigger] placed@[k] == mapped(detections@[k], positions@[k]),
        decreases detections@.len() - i,
    {
        let d = detections[i];
        placed.push(
            MappedDetection {
                camera: d.camera,
                class_id: d.class_id,
                confidence: d.confidence,
                camera_center: (d.center_x, d.center_y),
                camera_size: (d.width, d.height),
                position: positions[i],
            },
        );
        i = i + 1;
    }
    placed
}

/// What the answers of a detector amount to: the detections of those that
/// succeeded, in order. A failed frame adds nothing.
pub open spec fn gathered(answers: Seq<Result<Vec<Detection>, DetectorError>>) -> Seq<Detection>
    decreases answers.len(),
{
    if answers.len() == 0 {
        Seq::empty()
    } else {
        let before = gathered(answers.drop_last());
        match answers.last() {
            Ok(found) => before + found@,
            Err(_) => before,
        }
    }
}

/// Gather the detections of the answers that succeeded.
pub fn gather(answers: &Vec<Result<Vec<Detection>, DetectorError>>) -> (found: Vec<Detection>)
    ensures
        found@ == gathered(answers@),
{
    let mut found: Vec<Detection> = Vec::new();
    let mut i: usize = 0;
    assert(answers@.take(0) =~= Seq::empty());
    while i < answers.len()
        invariant
            i <= answers@.len(),
            found@ == gathered(answers@.take(i as int)),
        decreases answers@.len() - i,
    {
        let ghost before = found@;
        assert(answers@.take(i + 1).drop_last() =~= answers@.take(i as int));
        if let Ok(batch) = &answers[i] {
            let mut k: usize = 0;
            while k < batch.len()
                invariant
                    k <= batch@.len(),
                    found@ == before + batch@.take(k as int),
                decreases batch@.len() - k,
            {
                found.push(batch[k]);
                assert(found@ =~= before + batch@.take(k + 1));
                k = k + 1;
            }
            assert(batch@.take(k as int) =~= batch@);
        }
        i = i + 1;
    }
    assert(answers@.take(i as int) =~= answers@);
    found
}

/// Whether a detector that stands so may answer so when asked about that frame.
pub open spec fn answers_so<D: UnifiedDetector + ?Sized>(
    detector: &D,
    camera: CameraId,
    frame: &DetectorFrame<'_>,
    answer: Result<Vec<Detection>, DetectorError>,
) -> bool {
    exists|d: &mut D| #[trigger] answered(d, camera, frame, answer) && &*d == detector
}

/// Whether each frame is put once, in order, to a detector that stands as the frame
/// before has left it, and answered so. What the last frame leaves comes last.
pub open spec fn taken_in_turn<D: UnifiedDetector + ?Sized>(
    turns: Seq<Box<D>>,
    frames: Seq<(CameraId, DetectorFrame<'_>)>,
    answers: Seq<Result<Vec<Detection>, DetectorError>>,
) -> bool {
    &&& turns.len() == frames.len() + 1
    &&& answers.len() == frames.len()
    &&& forall|i: int|
        0 <= i < frames.len() ==> #[trigger] answers_so(
            &*turns[i],
            frames[i].0,
            &frames[i].1,
            answers[i],
        )
}

fn ask<D: UnifiedDetector + ?Sized>(
    detector: &mut D,
    camera: CameraId,
    frame: &DetectorFrame<'_>,
) -> (answer: Result<Vec<Detection>, DetectorError>)
    ensures
        exists|d: &mut D|
            #![trigger call_ensures(D::detect, (d, camera, frame), answer)]
            {
                &&& answered(d, camera, frame, answer)
                &&& &*d == &*old(detector)
                &&& &*final(d) == &*final(detector)
            },
{
    detector.detect(camera, frame)
}

/// Ask the detector about each frame in turn and gather what it finds: each
/// frame is put to it once, as the frame before has left it.
#[verifier::spinoff_prover]
pub fn detect_all<D: UnifiedDetector + ?Sized>(
    detector: &mut Box<D>,
    frames: &[(CameraId, DetectorFrame<'_>)],
) -> (found: Vec<Detection>)
    ensures
        exists|
            turns: Seq<Box<D>>,
            answers: Seq<Result<Vec<Detection>, DetectorError>>,
        |
            {
                &&& #[trigger] taken_in_turn(turns, frames@, answers)
                &&& turns.first() == *old(detector)
                &&& turns.last() == *final(detector)
                &&& found@ == gathered(answers)
                &&& forall|i: int|
                    0 <= i < frames@.len() && #[trigger] answers_so(
                        &*turns[i],
                        frames@[i].0,
                        &frames@[i].1,
                        answers[i],
                    ) ==> exists|d: &mut D|
                        {
                            &&& #[trigger] answered(d, frames@[i].0, &frames@[i].1, answers[i])
                            &&& &*d == &*turns[i]
                            &&& &*final(d) == &*turns[i + 1]
                        }
            },
{
    let mut answers: Vec<Result<Vec<Detection>, DetectorError>> = Vec::with_capacity(frames.len());
    let mut i: usize = 0;
    let ghost mut turns: Seq<Box<D>> = seq![*detector];
    while i < frames.len()
        invariant
            i <= frames@.len(),
            answers@.len() == i,
            turns.len() == i + 1,
            turns.first() == *old(detector),
            turns.last() == *detector,
            forall|k: int|
                0 <= k < i ==> #[trigger] answers_so(
                    &*turns[k],
                    frames@[k].0,
                    &frames@[k].1,
                    answers@[k],
                ),
            forall|k: int|
                0 <= k < i && #[trigger] answers_so(
                    &*turns[k],
                    frames@[k].0,
                    &frames@[k].1,
                    answers@[k],
                ) ==> exists|d: &mut D|
                    {
                        &&& #[trigger] answered(d, frames@[k].0, &frames@[k].1, answers@[k])
                        &&& &*d == &*turns[k]
                        &&& &*final(d) == &*turns[k + 1]
                    },
        decreases frames@.len() - i,
    {
        let ghost before = turns;
        let ghost earlier = answers@;
        let answer = ask(&mut **detector, frames[i].0, &frames[i].1);
        answers.push(answer);
        proof {
            turns = turns.push(*detector);
            assert(answers_so(&*before.last(), frames@[i as int].0, &frames@[i as int].1, answer));
            assert forall|k: int| 0 <= k < i implies #[trigger] answers_so(
                &*turns[k],
                frames@[k].0,
                &frames@[k].1,
                answers@[k],
            ) by {
                assert(answers_so(&*before[k], frames@[k].0, &frames@[k].1, earlier[k]));
            }
            assert forall|k: int|
                0 <= k <= i && #[trigger] answers_so(
                    &*turns[k],
                    frames@[k].0,
                    &frames@[k].1,
                    answers@[k],
                ) implies exists|d: &mut D|
                {
                    &&& #[trigger] answered(d, frames@[k].0, &frames@[k].1, answers@[k])
                    &&& &*d == &*turns[k]
                    &&& &*final(d) == &*turns[k + 1]
                } by {
                if k < i {
                    assert(answers_so(&*before[k], frames@[k].0, &frames@[k].1, earlier[k]));
                    assert(turns[k] == before[k] && turns[k + 1] == before[k + 1]);
                } else {
                    assert(turns[k] == before.last() && turns[k + 1] == *detector);
                }
            }
        }
        i = i + 1;
    }
    assert(taken_in_turn(turns, frames@, answers@));
    gather(&answers)
}

/// Map each detection to the panorama.
pub fn map_all<M: PanoramaMap>(detections: &Vec<Detection>, geometry: &M) -> (placed: Vec<
    MappedDetection,
>)
    ensures
        placed_by(geometry, detections@, placed@),
{
    let mut positions: Vec<Option<Pose>> = Vec::with_capacity(detections.len());
    let mut i: usize = 0;
    while i < detections.len()
        invariant
            i <= detections@.len(),
            positions@.len() == i,
            forall|k: int|
                0 <= k < i ==> call_ensures(
                    M::camera_to_panorama,
                    (
                        geometry,
                        detections@[k].camera,
                        detections@[k].center_x,
                        detections@[k].center_y,
                    ),
                    #[trigger] positions@[k],
                ),
        decreases detections@.len() - i,
    {
        let d = detections[i];
        positions.push(geometry.camera_to_panorama(d.camera, d.center_x, d.center_y));
        i = i + 1;
    }
    place_detections(detections, &positions)
}

/// Ask the detector about each frame in turn and place what it finds.
pub fn detect_and_place<M: PanoramaMap>(
    detector: &mut Box<dyn UnifiedDetector>,
    frames: &[(CameraId, DetectorFrame<'_>)],
    geometry: &M,
) -> (placed: Vec<MappedDetection>)
    ensures
        exists|
            turns: Seq<Box<dyn UnifiedDetector>>,
            answers: Seq<Result<Vec<Detection>, DetectorError>>,
        |
            {
                &&& #[trigger] taken_in_turn(turns, frames@, answers)
                &&& turns.first() == *old(detector)
                &&& turns.last() == *final(detector)
                &&& placed_by(geometry, gathered(answers), placed@)
                &&& forall|i: int|
                    0 <= i < frames@.len() && #[trigger] answers_so(
                        &*turns[i],
                        frames@[i].0,
                        &frames@[i].1,
                        answers[i],
                    ) ==> exists|d: &mut dyn UnifiedDetector|
                        {
                            &&& #[trigger] answered(d, frames@[i].0, &frames@[i].1, answers[i])
                            &&& &*d == &*turns[i]
                            &&& &*final(d) == &*turns[i + 1]
                        }
            },
{
    let found: Vec<Detection> = detect_all(detector, frames);
    map_all(&found, geometry)
}

/// The name of a detector.
pub(crate) fn name_of<D: UnifiedDetector + ?Sized>(detector: &D) -> (name: &'static str)
    ensures
        named(detector, name),
{
    detector.name()
}

/// A frame on which the detector fails changes nothing about the others.
pub proof fn law_failed_frames_add_nothing(
    answers: Seq<Result<Vec<Detection>, DetectorError>>,
    error: DetectorError,
)
    ensures
        gathered(answers.push(Err(error))) == gathered(answers),
{
    assert(answers.push(Err(error)).drop_last() =~= answers);
}

/// A detection that is placed is still the one that was found: it keeps its camera, its
/// class, its confidence, and where its box is and how large, across and down.
pub proof fn law_placing_keeps_the_detection(d: Detection, position: Option<Pose>)
    ensures
        mapped(d, position).camera == d.camera,
        mapped(d, position).class_id == d.class_id,
        mapped(d, position).confidence == d.confidence,
        mapped(d, position).camera_center.0 == d.center_x,
        mapped(d, position).camera_center.1 == d.center_y,
        mapped(d, position).camera_size.0 == d.width,
        mapped(d, position).camera_size.1 == d.height,
        mapped(d, position).position == position,
{
}

/// Every detection that was found is placed, in the same order, and where the geometry puts
/// the center of its box in its own camera's picture.
pub proof fn law_detections_stand_where_they_were_seen<M: PanoramaMap>(
    geometry: &M,
    found: Seq<Detection>,
    placed: Seq<MappedDetection>,
    i: int,
)
    requires
        placed_by(geometry, found, placed),
        0 <= i < found.len(),
    ensures
        placed.len() == found.len(),
        placed[i].camera == found[i].camera,
        placed[i].class_id == found[i].class_id,
        placed[i].confidence == found[i].confidence,
        placed[i].camera_center == (found[i].center_x, found[i].center_y),
        placed[i].camera_size == (found[i].width, found[i].height),
        call_ensures(
            M::camera_to_panorama,
            (geometry, placed[i].camera, placed[i].camera_center.0, placed[i].camera_center.1),
            placed[i].position,
        ),
{
    law_placing_keeps_the_detection(found[i], placed[i].position);
}

/// What one answer holds is gathered as it is, and what several answers hold one after the
/// other; an answer that failed holds nothing.
pub proof fn law_answers_are_gathered_in_order(
    first: Seq<Result<Vec<Detection>, DetectorError>>,
    second: Seq<Result<Vec<Detection>, DetectorError>>,
    found: Vec<Detection>,
    error: DetectorError,
)
    ensures
        gathered(first + second) == gathered(first) + gathered(second),
        gathered(seq![Ok(found)]) == found@,
        gathered(seq![Err(error)]) == Seq::<Detection>::empty(),
    decreases second.len(),
{
    let none = Seq::<Result<Vec<Detection>, DetectorError>>::empty();
    let one: Seq<Result<Vec<Detection>, DetectorError>> = seq![Ok(found)];
    assert(one.drop_last() =~= none);
    assert(gathered(none) =~= Seq::<Detection>::empty());
    assert(gathered(one) =~= found@);
    let bad: Seq<Result<Vec<Detection>, DetectorError>> = seq![Err(error)];
    assert(bad.drop_last() =~= none);
    if second.len() == 0 {
        assert(first + second =~= first);
        assert(gathered(first) + gathered(second) =~= gathered(first));
    } else {
        law_answers_are_gathered_in_order(first, second.drop_last(), found, error);
        assert((first + second).drop_last() =~= first + second.drop_last());
        assert(gathered(first + second) =~= gathered(first) + gathered(second));
    }
}

/// A detector gets the planes of a frame as they are, each for what it is, and the frame's
/// width and height.
pub proof fn law_detectors_get_the_planes<'a>(
    yuv: YuvPlanes<'a>,
    nv12: Nv12Planes<'a>,
    width: u32,
    height: u32,
)
    ensures
        yuv_seen(yuv, width, height) matches DetectorFrame::Cpu(f) && f.y@ == yuv.y@ && f.width
            == width && f.height == height && (f.chroma matches ChromaFormat::Yuv420p { u, v }
            && u@ == yuv.u@ && v@ == yuv.v@),
        nv12_seen(nv12, width, height) matches DetectorFrame::Cpu(f) && f.y@ == nv12.y@ && f.width
            == width && f.height == height && (f.chroma matches ChromaFormat::Nv12 { uv } && uv@
            == nv12.uv@),
{
}

/// The left camera's frame is named as the left camera's and comes first, the right
/// camera's as the right camera's and comes second.
pub proof fn law_pairs_name_their_cameras<'a>(left: DetectorFrame<'a>, right: DetectorFrame<'a>)
    ensures
        pair(left, right).len() == 2,
        pair(left, right)[0].0 == CameraId::Left,
        pair(left, right)[0].1 == left,
        pair(left, right)[1].0 == CameraId::Right,
        pair(left, right)[1].1 == right,
{
}

/// What a detector is said to have answered, it answered to that camera's frame; and each
/// frame of a sequence is answered once, in order.
pub proof fn law_answers_are_to_the_frames<D: UnifiedDetector + ?Sized>(
    turns: Seq<Box<D>>,
    frames: Seq<(CameraId, DetectorFrame<'_>)>,
    answers: Seq<Result<Vec<Detection>, DetectorError>>,
    i: int,
)
    requires
        taken_in_turn(turns, frames, answers),
        0 <= i < frames.len(),
    ensures
        answers.len() == frames.len(),
        turns.len() == frames.len() + 1,
        exists|d: &mut D|
            {
                &&& #[trigger] answered(d, frames[i].0, &frames[i].1, answers[i])
                &&& call_ensures(D::detect, (d, frames[i].0, &frames[i].1), answers[i])
                &&& &*d == &*turns[i]
            },
{
    assert(answers_so(&*turns[i], frames[i].0, &frames[i].1, answers[i]));
    let d = choose|d: &mut D| #[trigger]
        answered(d, frames[i].0, &frames[i].1, answers[i]) && &*d == &*turns[i];
    assert(answered(d, frames[i].0, &frames[i].1, answers[i]));
}

/// The answers that count are those of the detector's own calls.
pub proof fn law_answers_are_the_detectors_own<D: UnifiedDetector + ?Sized>(
    camera: CameraId,
    frame: &DetectorFrame<'_>,
    answer: Result<Vec<Detection>, DetectorError>,
    name: &'static str,
)
    ensures
        forall|d: &mut D| #[trigger]
            answered(d, camera, frame, answer) ==> call_ensures(
                D::detect,
                (d, camera, frame),
                answer,
            ),
        forall|d: &D| #[trigger] named(d, name) ==> call_ensures(D::name, (d,), name),
{
}

/// A message says what kept the detector from answering.
pub proof fn law_detector_messages_say_why(reason: String)
    ensures
        DetectorError::InferenceFailed(reason).text() == "inference failed: "@ + reason@,
        DetectorError::Transport(reason).text() == "transport error: "@ + reason@,
        DetectorError::UnsupportedFrameKind.text()
            == "detector does not support this frame variant"@,
        DetectorError::Canceled.text() == "detection canceled"@,
{
}

} // verus!
