//! The device pipeline: its settings, and which frames it renders how.

use crate::analyze::StereoFrame;
use crate::calibration::{Calibration, Lens, MAX_DIM, Topology};
use crate::engine::{InputFormat, with_lenses};
use crate::gpu::GpuError;
use crate::number::Real32;
use crate::planes::{Nv12Planes, YuvPlanes};
use crate::pose::{ViewportPosition, clamp_fov, renderable_fov};
use crate::text::{decimal, joined, push_decimal};
use vstd::prelude::*;

verus! {

/// Why the pipeline could not do something.
#[derive(Clone, Debug)]
pub enum PipelineError {
    /// There is no device.
    Gpu(GpuError),
    /// Rendering failed.
    Render(String),
    /// The frame is of a kind that is rendered otherwise.
    UnsupportedFrameVariant {
        /// What is wrong.
        reason: &'static str,
    },
    /// The settings make no sense.
    InvalidConfig {
        /// What is wrong.
        reason: String,
    },
}

impl PipelineError {
    /// The message of the error.
    pub open spec fn text(&self) -> Seq<char> {
        match *self {
            PipelineError::Gpu(e) => "GPU error: "@ + e.text(),
            PipelineError::Render(e) => "render error: "@ + e@,
            PipelineError::UnsupportedFrameVariant { reason } => "unsupported frame variant: "@
                + reason@,
            PipelineError::InvalidConfig { reason } => "invalid config: "@ + reason@,
        }
    }

    /// The message of the error.
    pub fn message(&self) -> (text: String)
        ensures
            text@ == self.text(),
    {
        match self {
            PipelineError::Gpu(e) => {
                let inner: String = e.message();
                joined("GPU error: ", inner.as_str())
            },
            PipelineError::Render(e) => joined("render error: ", e.as_str()),
            PipelineError::UnsupportedFrameVariant { reason } => {
                joined("unsupported frame variant: ", reason)
            },
            PipelineError::InvalidConfig { reason } => joined("invalid config: ", reason.as_str()),
        }
    }
}

/// Settings of the picture.
#[derive(Clone, Copy, Debug, PartialEq, Eq, Structural)]
pub struct ViewportConfig {
    /// Width in pixels.
    pub width: u32,
    /// Height in pixels.
    pub height: u32,
    /// Vertical field of view in degrees.
    pub fov_degrees: Real32,
    /// Width of the seam blend.
    pub blend_width: Real32,
}

/// Settings of the picture and where the camera looks.
#[derive(Clone, Copy, Debug, PartialEq, Eq, Structural)]
pub struct ResolvedViewport {
    /// Settings of the picture.
    pub config: ViewportConfig,
    /// Where the camera looks.
    pub position: ViewportPosition,
}

/// What is wrong with the size of the source frames.
pub open spec fn input_fault(width: u32, height: u32) -> Option<Seq<char>> {
    if width == 0 || height == 0 {
        Some(
            "input dimensions must be > 0, got "@ + decimal(width as nat) + "x"@ + decimal(
                height as nat,
            ),
        )
    } else if width > MAX_DIM || height > MAX_DIM {
        Some(
            "input dimensions "@ + decimal(width as nat) + "x"@ + decimal(height as nat)
                + " exceed MAX_DIM ("@ + decimal(MAX_DIM as nat) + ")"@,
        )
    } else {
        None
    }
}

/// The planes to upload for a frame.
pub enum FrameUpload<'a> {
    /// Three planes per camera.
    Yuv420p {
        /// Of the left camera.
        left: YuvPlanes<'a>,
        /// Of the right camera.
        right: YuvPlanes<'a>,
    },
    /// Two planes per camera.
    Nv12 {
        /// Of the left camera.
        left: Nv12Planes<'a>,
        /// Of the right camera.
        right: Nv12Planes<'a>,
    },
}

impl FrameUpload<'_> {
    /// Whether these are the planes of a frame.
    pub open spec fn of(self, frame: StereoFrame) -> bool {
        match (self, frame) {
            (
                FrameUpload::Yuv420p { left, right },
                StereoFrame::Yuv420p { left: l, right: r },
            ) => l.shown_by(left) && r.shown_by(right),
            (
                FrameUpload::Nv12 { left, right },
                StereoFrame::Nv12 { left: l, right: r },
            ) => l.shown_by(left) && r.shown_by(right),
            _ => false,
        }
    }
}

/// A binding to create.
#[derive(Clone, Copy, Debug, PartialEq, Eq)]
pub struct BindRequest {
    /// The name to create it under.
    pub label: &'static str,
    /// The luma texture and the chroma texture, by their numbers.
    pub textures: (u64, u64),
}

/// Bindings of the two shared textures that each camera alternates between.
#[derive(Clone, Copy, Debug, PartialEq, Eq)]
pub struct GpuSourceBindGroups {
    /// Of the left camera.
    pub left: [u64; 2],
    /// Of the right camera.
    pub right: [u64; 2],
}

impl GpuSourceBindGroups {
    /// The bindings by their numbers, in the order in which
    /// [`StitchPipeline::configure_gpu_source`] asks for them.
    pub fn from_handles(handles: [u64; 4]) -> (groups: Self)
        ensures
            groups.left@ == seq![handles@[0], handles@[1]],
            groups.right@ == seq![handles@[2], handles@[3]],
    {
        let groups = GpuSourceBindGroups {
            left: [handles[0], handles[1]],
            right: [handles[2], handles[3]],
        };
        assert(groups.left@ =~= seq![handles@[0], handles@[1]]);
        assert(groups.right@ =~= seq![handles@[2], handles@[3]]);
        groups
    }
}

/// The device pipeline.
pub struct StitchPipeline {
    /// The calibration.
    pub calibration: Calibration,
    /// Settings of the picture.
    pub viewport: ViewportConfig,
    /// Width of the source frames.
    pub input_width: u32,
    /// Height of the source frames.
    pub input_height: u32,
    /// Pixel format of the source frames.
    pub input_format: InputFormat,
    /// Which cameras are mounted upside down.
    pub flip_180: (bool, bool),
}

impl StitchPipeline {
    /// A pipeline. `viewport_fault` is what is wrong with the settings of the
    /// picture, if anything is.
    pub fn with_gpu(
        calibration: Calibration,
        viewport: ViewportConfig,
        viewport_fault: Option<String>,
        input_width: u32,
        input_height: u32,
        input_format: InputFormat,
    ) -> (pipeline: Result<Self, PipelineError>)
        ensures
            match pipeline {
                Ok(p) => {
                    &&& viewport_fault is None
                    &&& input_fault(input_width, input_height) is None
                    &&& p.calibration == calibration
                    &&& p.viewport == viewport
                    &&& p.input_width == input_width
                    &&& p.input_height == input_height
                    &&& p.input_format == input_format
                    &&& p.flip_180 == (false, false)
                },
                Err(e) => e matches PipelineError::InvalidConfig { reason } && match viewport_fault {
                    Some(fault) => reason == fault,
                    None => input_fault(input_width, input_height) == Some(reason@),
                },
            },
    {
        if let Some(reason) = viewport_fault {
            return Err(PipelineError::InvalidConfig { reason });
        }
        if input_width == 0 || input_height == 0 {
            let mut reason: String = "input dimensions must be > 0, got ".to_owned();
            push_decimal(&mut reason, input_width as u64);
            reason.push_str("x");
            push_decimal(&mut reason, input_height as u64);
            return Err(PipelineError::InvalidConfig { reason });
        }
        if input_width > MAX_DIM || input_height > MAX_DIM {
            let mut reason: String = "input dimensions ".to_owned();
            push_decimal(&mut reason, input_width as u64);
            reason.push_str("x");
            push_decimal(&mut reason, input_height as u64);
            reason.push_str(" exceed MAX_DIM (");
            push_decimal(&mut reason, MAX_DIM as u64);
            reason.push_str(")");
            return Err(PipelineError::InvalidConfig { reason });
        }
        Ok(
            StitchPipeline {
                calibration,
                viewport,
                input_width,
                input_height,
                input_format,
                flip_180: (false, false),
            },
        )
    }

    /// Width and height of the source frames.
    pub fn source_info(&self) -> (dims: (u32, u32))
        ensures
            dims == (self.input_width, self.input_height),
    {
        (self.input_width, self.input_height)
    }

    /// Change the size of the picture; a size without pixels is refused.
    pub fn resize(&mut self, width: u32, height: u32) -> (accepted: Option<(u32, u32)>)
        ensures
            width == 0 || height == 0 ==> accepted is None && *final(self) == *old(self),
            width > 0 && height > 0 ==> accepted == Some((width, height)) && *final(self) == (
            StitchPipeline {
                viewport: ViewportConfig { width, height, ..old(self).viewport },
                ..*old(self)
            }),
    {
        if width == 0 || height == 0 {
            return None;
        }
        self.viewport.width = width;
        self.viewport.height = height;
        Some((width, height))
    }

    /// Set the field of view, brought into the range a matrix can be built from.
    pub fn set_fov(&mut self, fov_degrees: Real32)
        ensures
            *final(self) == (StitchPipeline {
                viewport: ViewportConfig {
                    fov_degrees: renderable_fov(fov_degrees),
                    ..old(self).viewport
                },
                ..*old(self)
            }),
    {
        self.viewport.fov_degrees = clamp_fov(fov_degrees);
    }

    /// The field of view.
    pub fn fov(&self) -> (fov: Real32)
        ensures
            fov == self.viewport.fov_degrees,
    {
        self.viewport.fov_degrees
    }

    /// Replace the calibration.
    pub fn update_calibration(&mut self, calibration: Calibration)
        ensures
            *final(self) == (StitchPipeline { calibration, ..*old(self) }),
    {
        self.calibration = calibration;
    }

    /// Replace the placement of the cameras.
    pub fn update_layout(&mut self, layout: Topology)
        ensures
            *final(self) == (StitchPipeline {
                calibration: Calibration { topology: layout, ..old(self).calibration },
                ..*old(self)
            }),
    {
        self.calibration.topology = layout;
    }

    /// Replace the lens of one camera or both.
    pub fn update_camera_params(&mut self, left: Option<Lens>, right: Option<Lens>)
        requires
            left is Some ==> old(self).calibration.lenses@.len() > 0,
            right is Some ==> old(self).calibration.lenses@.len() > 1,
        ensures
            *final(self) == (StitchPipeline {
                calibration: Calibration {
                    lenses: final(self).calibration.lenses,
                    ..old(self).calibration
                },
                ..*old(self)
            }),
            final(self).calibration.lenses@ == with_lenses(
                old(self).calibration.lenses@,
                left,
                right,
            ),
    {
        if let Some(l) = left {
            self.calibration.lenses.set(0, l);
        }
        if let Some(r) = right {
            self.calibration.lenses.set(1, r);
        }
    }

    /// Set which cameras are mounted upside down.
    pub fn set_flip_180(&mut self, left: bool, right: bool)
        ensures
            *final(self) == (StitchPipeline { flip_180: (left, right), ..*old(self) }),
    {
        self.flip_180 = (left, right);
    }

    /// The bindings to create for the shared textures: one for each slot of each
    /// camera, from that slot's luma and chroma textures, left camera first.
    pub fn configure_gpu_source(left: [(u64, u64); 2], right: [(u64, u64); 2]) -> (requests: Vec<
        BindRequest,
    >)
        ensures
            requests@.len() == 4,
            requests@[0].label@ == "left_slot0"@ && requests@[0].textures == left@[0],
            requests@[1].label@ == "left_slot1"@ && requests@[1].textures == left@[1],
            requests@[2].label@ == "right_slot0"@ && requests@[2].textures == right@[0],
            requests@[3].label@ == "right_slot1"@ && requests@[3].textures == right@[1],
    {
        vec![
            BindRequest { label: "left_slot0", textures: left[0] },
            BindRequest { label: "left_slot1", textures: left[1] },
            BindRequest { label: "right_slot0", textures: right[0] },
            BindRequest { label: "right_slot1", textures: right[1] },
        ]
    }

    /// The bindings to create for a frame whose textures were imported, left camera
    /// first.
    pub fn render_imported_textures(left: (u64, u64), right: (u64, u64)) -> (requests: (
        BindRequest,
        BindRequest,
    ))
        ensures
            requests.0.label@ == "metal_left"@ && requests.0.textures == left,
            requests.1.label@ == "metal_right"@ && requests.1.textures == right,
    {
        (
            BindRequest { label: "metal_left", textures: left },
            BindRequest { label: "metal_right", textures: right },
        )
    }

    /// The bindings to render the given slots with, left camera first.
    pub fn render_gpu_frame(groups: &GpuSourceBindGroups, left_slot: u8, right_slot: u8) -> (bound: (
        u64,
        u64,
    ))
        requires
            left_slot < 2,
            right_slot < 2,
        ensures
            bound == (groups.left@[left_slot as int], groups.right@[right_slot as int]),
    {
        (groups.left[left_slot as usize], groups.right[right_slot as usize])
    }

    /// The planes to upload for a frame in main memory. Others are rendered
    /// otherwise.
    pub fn render_stereo_frame(frame: &StereoFrame) -> (upload: Result<
        FrameUpload<'_>,
        PipelineError,
    >)
        ensures
            match upload {
                Ok(u) => u.of(*frame),
                Err(e) => e matches PipelineError::UnsupportedFrameVariant { reason } && match frame {
                    StereoFrame::GpuResident => reason@
                        == "GpuResident frames must use render_gpu_frame()"@,
                    StereoFrame::MetalResident => reason@
                        == "unsupported StereoFrame variant for CPU render path"@,
                    _ => false,
                },
            },
    {
        match frame {
            StereoFrame::Yuv420p { left, right } => Ok(
                FrameUpload::Yuv420p { left: left.as_planes(), right: right.as_planes() },
            ),
            StereoFrame::Nv12 { left, right } => Ok(
                FrameUpload::Nv12 { left: left.as_planes(), right: right.as_planes() },
            ),
            StereoFrame::GpuResident => Err(
                PipelineError::UnsupportedFrameVariant {
                    reason: "GpuResident frames must use render_gpu_frame()",
                },
            ),
            StereoFrame::MetalResident => Err(
                PipelineError::UnsupportedFrameVariant {
                    reason: "unsupported StereoFrame variant for CPU render path",
                },
            ),
        }
    }

    /// The settings of the picture with the camera looking the given way. The
    /// field of view stays the pipeline's.
    pub fn resolved(&self, yaw: Real32, pitch: Real32) -> (viewport: ResolvedViewport)
        ensures
            viewport == (ResolvedViewport {
                config: self.viewport,
                position: ViewportPosition { yaw, pitch, fov_degrees: None },
            }),
    {
        ResolvedViewport {
            config: self.viewport,
            position: ViewportPosition { yaw, pitch, fov_degrees: None },
        }
    }
}

/// A slot is rendered with the binding of its own textures: the one that was asked
/// for from them, under whatever numbers the bindings were created.
pub proof fn law_slots_keep_their_textures(
    left: [(u64, u64); 2],
    right: [(u64, u64); 2],
    requests: Seq<BindRequest>,
    handles: [u64; 4],
    groups: GpuSourceBindGroups,
    slot: int,
)
    requires
        0 <= slot < 2,
        requests.len() == 4,
        requests[0].textures == left@[0] && requests[1].textures == left@[1],
        requests[2].textures == right@[0] && requests[3].textures == right@[1],
        groups.left@ == seq![handles@[0], handles@[1]],
        groups.right@ == seq![handles@[2], handles@[3]],
    ensures
        exists|k: int|
            0 <= k < 4 && groups.left@[slot] == handles@[k] && (#[trigger] requests[k]).textures
                == left@[slot],
        exists|k: int|
            0 <= k < 4 && groups.right@[slot] == handles@[k] && (#[trigger] requests[k]).textures
                == right@[slot],
{
    assert(requests[slot].textures == left@[slot]);
    assert(requests[slot + 2].textures == right@[slot]);
}

/// Source frames are taken exactly if each side has from 1 to 8192 pixels.
pub proof fn law_source_frames_have_a_size_within_the_limit(width: u32, height: u32)
    ensures
        input_fault(width, height) is None <==> 1 <= width <= 8192 && 1 <= height <= 8192,
{
}

/// The planes that are uploaded are those of the frame, each camera's own.
pub proof fn law_uploads_are_the_frames_planes(upload: FrameUpload<'_>, frame: StereoFrame)
    requires
        upload.of(frame),
    ensures
        frame is Yuv420p || frame is Nv12,
        frame is Yuv420p <==> upload is Yuv420p,
        frame is Yuv420p ==> {
            &&& upload->Yuv420p_left.y@ == frame->Yuv420p_left.y@
            &&& upload->Yuv420p_left.u@ == frame->Yuv420p_left.u@
            &&& upload->Yuv420p_left.v@ == frame->Yuv420p_left.v@
            &&& upload->Yuv420p_right.y@ == frame->Yuv420p_right.y@
            &&& upload->Yuv420p_right.u@ == frame->Yuv420p_right.u@
            &&& upload->Yuv420p_right.v@ == frame->Yuv420p_right.v@
        },
        frame is Nv12 ==> {
            &&& upload->Nv12_left.y@ == frame->Nv12_left.y@
            &&& upload->Nv12_left.uv@ == frame->Nv12_left.uv@
            &&& upload->Nv12_right.y@ == frame->Nv12_right.y@
            &&& upload->Nv12_right.uv@ == frame->Nv12_right.uv@
        },
{
}

} // verus!
