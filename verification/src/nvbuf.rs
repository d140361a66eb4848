//! Letterboxed detection input on embedded devices.
//!
//! A camera frame is scaled into a square surface; what it does not cover
//! stays grey. The library calls are made by whoever loaded the library; the
//! geometry, the order of the calls and what their answers amount to are
//! decided here.

use crate::cuda::CUdeviceptr;
use crate::text::{decimal_signed, joined, push_decimal_signed};
use vstd::prelude::*;

verus! {

/// Transform on the device.
pub const NVBUF_TRANSFORM_COMPUTE_GPU: i32 = 1;

/// Device memory.
pub const NVBUF_MEM_CUDA_DEVICE: i32 = 2;

/// Four bytes per pixel, red first.
pub const NVBUF_COLOR_FORMAT_RGBA: i32 = 19;

/// Rows one after the other.
pub const NVBUF_LAYOUT_PITCH: i32 = 0;

/// Bilinear interpolation.
pub const NVBUF_TRANSFORM_FILTER_BILINEAR: i32 = 1;

/// Place the result in part of the destination.
pub const NVBUF_TRANSFORM_CROP_DST: u32 = 2;

/// Use the chosen interpolation.
pub const NVBUF_TRANSFORM_FILTER: u32 = 4;

/// Both of the above.
pub const TRANSFORM_FLAGS: u32 = 6;

/// Value of the grey border.
pub const GREY: u8 = 114;

/// Part of a surface.
#[derive(Clone, Copy, Debug, PartialEq, Eq, Structural)]
pub struct Rect {
    /// Rows above.
    pub top: u32,
    /// Columns to the left.
    pub left: u32,
    /// Width in pixels.
    pub width: u32,
    /// Height in pixels.
    pub height: u32,
}

/// How a surface is created.
#[derive(Clone, Copy, Debug, PartialEq, Eq, Structural)]
pub struct SurfaceParams {
    /// The device.
    pub gpu_id: u32,
    /// Width in pixels.
    pub width: u32,
    /// Height in pixels.
    pub height: u32,
    /// Size in bytes; zero to have it computed.
    pub size: u32,
    /// Whether all buffers are one allocation.
    pub is_contiguous: i32,
    /// Pixel format.
    pub color_format: i32,
    /// Memory layout.
    pub layout: i32,
    /// Kind of memory.
    pub mem_type: i32,
}

/// How a transform is done.
#[derive(Clone, Copy, Debug, PartialEq, Eq, Structural)]
pub struct TransformParams {
    /// What to do.
    pub flags: u32,
    /// How to turn the picture.
    pub flip: i32,
    /// How to interpolate.
    pub filter: i32,
    /// Where to place the result.
    pub dst_rect: Rect,
}

/// Where a picture of the given size lies in a square, centered.
pub open spec fn centered(model_size: u32, content_w: u32, content_h: u32) -> Rect {
    Rect {
        top: ((model_size - content_h) / 2) as u32,
        left: ((model_size - content_w) / 2) as u32,
        width: content_w,
        height: content_h,
    }
}

/// Center a picture in a square that it fits into.
pub fn letterbox(model_size: u32, content_w: u32, content_h: u32) -> (rect: Rect)
    requires
        content_w <= model_size,
        content_h <= model_size,
    ensures
        rect == centered(model_size, content_w, content_h),
{
    Rect {
        top: (model_size - content_h) / 2,
        left: (model_size - content_w) / 2,
        width: content_w,
        height: content_h,
    }
}

/// A centered picture lies within the square, with margins that differ by at
/// most one on opposite sides.
pub proof fn law_letterbox_is_centered(model_size: u32, content_w: u32, content_h: u32)
    requires
        content_w <= model_size,
        content_h <= model_size,
    ensures
        ({
            let r = centered(model_size, content_w, content_h);
            let right = model_size - r.left - r.width;
            let bottom = model_size - r.top - r.height;
            &&& 0 <= right - r.left <= 1
            &&& 0 <= bottom - r.top <= 1
        }),
{
}

/// Whether both libraries and their symbols are there.
pub fn is_available(surface: bool, transform: bool, symbols: bool) -> (available: bool)
    ensures
        available == (surface && transform && symbols),
{
    surface && transform && symbols
}

/// What setting up a surface asks for next.
#[derive(Clone, Copy, Debug, PartialEq, Eq, Structural)]
pub enum SetupRequest {
    /// Find out whether the libraries are there.
    FindLibraries,
    /// Make a device context current.
    EnsureContext,
    /// Create the surface.
    Create {
        /// How.
        params: SurfaceParams,
    },
    /// Read address and pitch of the surface.
    Inspect,
    /// Destroy the surface again.
    Destroy,
    /// Fill the surface with grey.
    Fill {
        /// First address.
        data_ptr: CUdeviceptr,
        /// The byte.
        value: u8,
        /// Number of bytes.
        count: u64,
    },
}

/// What came of a request.
#[derive(Clone, Debug)]
pub enum SetupReply {
    /// Whether the libraries are there.
    Libraries(bool),
    /// Why there is no context, if there is none.
    Context(Option<String>),
    /// What creating returned.
    Created(i32),
    /// Address and pitch.
    Inspected {
        /// First address.
        data_ptr: CUdeviceptr,
        /// Bytes per row.
        pitch: u32,
    },
    /// The surface is gone.
    Destroyed,
    /// Why the surface was not filled, if it was not.
    Filled(Option<String>),
}

/// Bytes to set to one value.
#[derive(Clone, Copy, Debug, PartialEq, Eq, Structural)]
pub struct GreyFill {
    /// First address.
    pub data_ptr: CUdeviceptr,
    /// The byte.
    pub value: u8,
    /// Number of bytes.
    pub count: u64,
}

/// A grey surface with a place for the picture.
#[derive(Clone, Copy, Debug, PartialEq, Eq, Structural)]
pub struct NvBufDetectionSurface {
    /// First address of the pixels.
    pub data_ptr: CUdeviceptr,
    /// Bytes per row.
    pub pitch: u32,
    /// Width and height in pixels.
    pub size: u32,
    /// Where the picture goes.
    pub dst_rect: Rect,
    /// Whether transforms have been set up on this thread.
    pub session_initialized: bool,
}

/// How far setting up a surface has come.
#[derive(Clone, Debug)]
pub enum SetupStage {
    /// Waiting for this.
    Waiting(SetupRequest),
    /// Filling, with what the surface will be.
    Filling(NvBufDetectionSurface),
    /// The surface can be used.
    Ready(NvBufDetectionSurface),
    /// It could not be set up.
    Failed(String),
}

/// A surface being set up.
#[derive(Clone, Debug)]
pub struct SurfaceSetup {
    /// Width and height in pixels.
    pub model_size: u32,
    /// Where the picture goes.
    pub dst_rect: Rect,
    /// How far it has come.
    pub stage: SetupStage,
}

/// How a surface for a model is created.
pub open spec fn surface_params(model_size: u32) -> SurfaceParams {
    SurfaceParams {
        gpu_id: 0,
        width: model_size,
        height: model_size,
        size: 0,
        is_contiguous: 1,
        color_format: NVBUF_COLOR_FORMAT_RGBA,
        layout: NVBUF_LAYOUT_PITCH,
        mem_type: NVBUF_MEM_CUDA_DEVICE,
    }
}

/// Failed with this message.
pub open spec fn failed_with(stage: SetupStage, message: Seq<char>) -> bool {
    stage matches SetupStage::Failed(text) && text@ == message
}

impl SurfaceSetup {
    /// Start setting up a surface for a model, with the picture scaled to the
    /// given size.
    pub fn new(model_size: u32, content_w: u32, content_h: u32) -> (setup: Self)
        requires
            content_w <= model_size,
            content_h <= model_size,
        ensures
            setup.model_size == model_size,
            setup.dst_rect == centered(model_size, content_w, content_h),
            setup.stage == SetupStage::Waiting(SetupRequest::FindLibraries),
    {
        SurfaceSetup {
            model_size,
            dst_rect: letterbox(model_size, content_w, content_h),
            stage: SetupStage::Waiting(SetupRequest::FindLibraries),
        }
    }

    /// What to do next, until the surface is ready or has failed.
    pub fn next_request(&self) -> (request: Option<SetupRequest>)
        ensures
            request == (match self.stage {
                SetupStage::Waiting(r) => Some(r),
                SetupStage::Filling(surface) => Some(
                    SetupRequest::Fill {
                        data_ptr: surface.data_ptr,
                        value: GREY,
                        count: (surface.pitch * surface.size) as u64,
                    },
                ),
                _ => None,
            }),
    {
        match &self.stage {
            SetupStage::Waiting(r) => Some(*r),
            SetupStage::Filling(surface) => Some(
                SetupRequest::Fill {
                    data_ptr: surface.data_ptr,
                    value: GREY,
                    count: fill_size(surface.pitch, surface.size),
                },
            ),
            SetupStage::Ready(_) => None,
            SetupStage::Failed(_) => None,
        }
    }

    /// Take what came of a request. A reply to something else than what was
    /// asked for changes nothing.
    pub fn reply(&mut self, reply: SetupReply)
        ensures
            final(self).model_size == old(self).model_size,
            final(self).dst_rect == old(self).dst_rect,
            match (old(self).stage, reply) {
                (
                    SetupStage::Waiting(SetupRequest::FindLibraries),
                    SetupReply::Libraries(there),
                ) => if there {
                    final(self).stage == SetupStage::Waiting(SetupRequest::EnsureContext)
                } else {
                    failed_with(
                        final(self).stage,
                        "NvBufSurfTransform libraries not available"@,
                    )
                },
                (SetupStage::Waiting(SetupRequest::EnsureContext), SetupReply::Context(e)) =>
                match e {
                    Some(reason) => failed_with(
                        final(self).stage,
                        "CUDA context: "@ + reason@,
                    ),
                    None => final(self).stage == SetupStage::Waiting(
                        SetupRequest::Create { params: surface_params(old(self).model_size) },
                    ),
                },
                (SetupStage::Waiting(SetupRequest::Create { .. }), SetupReply::Created(ret)) =>
                if ret == 0 {
                    final(self).stage == SetupStage::Waiting(SetupRequest::Inspect)
                } else {
                    failed_with(
                        final(self).stage,
                        "NvBufSurfaceCreate failed: "@ + decimal_signed(ret as int),
                    )
                },
                (
                    SetupStage::Waiting(SetupRequest::Inspect),
                    SetupReply::Inspected { data_ptr, pitch },
                ) => if data_ptr == 0 {
                    final(self).stage == SetupStage::Waiting(SetupRequest::Destroy)
                } else {
                    final(self).stage == SetupStage::Filling(
                        NvBufDetectionSurface {
                            data_ptr,
                            pitch,
                            size: old(self).model_size,
                            dst_rect: old(self).dst_rect,
                            session_initialized: false,
                        },
                    )
                },
                (SetupStage::Waiting(SetupRequest::Destroy), SetupReply::Destroyed) => failed_with(
                    final(self).stage,
                    "NvBufSurfaceCreate returned null data pointer"@,
                ),
                (SetupStage::Filling(surface), SetupReply::Filled(e)) => match e {
                    Some(reason) => failed_with(final(self).stage, "grey fill: "@ + reason@),
                    None => final(self).stage == SetupStage::Ready(surface),
                },
                _ => final(self).stage == old(self).stage,
            },
    {
        let next: Option<SetupStage> = match (&self.stage, &reply) {
            (SetupStage::Waiting(SetupRequest::FindLibraries), SetupReply::Libraries(there)) => {
                if *there {
                    Some(SetupStage::Waiting(SetupRequest::EnsureContext))
                } else {
                    Some(SetupStage::Failed("NvBufSurfTransform libraries not available".to_owned()))
                }
            },
            (SetupStage::Waiting(SetupRequest::EnsureContext), SetupReply::Context(e)) => {
                match e {
                    Some(reason) => Some(
                        SetupStage::Failed(joined("CUDA context: ", reason.as_str())),
                    ),
                    None => Some(
                        SetupStage::Waiting(
                            SetupRequest::Create { params: create_params(self.model_size) },
                        ),
                    ),
                }
            },
            (SetupStage::Waiting(SetupRequest::Create { .. }), SetupReply::Created(ret)) => {
                if *ret == 0 {
                    Some(SetupStage::Waiting(SetupRequest::Inspect))
                } else {
                    Some(SetupStage::Failed(status_text("NvBufSurfaceCreate failed: ", *ret)))
                }
            },
            (
                SetupStage::Waiting(SetupRequest::Inspect),
                SetupReply::Inspected { data_ptr, pitch },
            ) => {
                if *data_ptr == 0 {
                    Some(SetupStage::Waiting(SetupRequest::Destroy))
                } else {
                    Some(
                        SetupStage::Filling(
                            NvBufDetectionSurface {
                                data_ptr: *data_ptr,
                                pitch: *pitch,
                                size: self.model_size,
                                dst_rect: self.dst_rect,
                                session_initialized: false,
                            },
                        ),
                    )
                }
            },
            (SetupStage::Waiting(SetupRequest::Destroy), SetupReply::Destroyed) => Some(
                SetupStage::Failed("NvBufSurfaceCreate returned null data pointer".to_owned()),
            ),
            (SetupStage::Filling(surface), SetupReply::Filled(e)) => {
                match e {
                    Some(reason) => Some(
                        SetupStage::Failed(joined("grey fill: ", reason.as_str())),
                    ),
                    None => Some(SetupStage::Ready(*surface)),
                }
            },
            _ => None,
        };
        if let Some(stage) = next {
            self.stage = stage;
        }
    }
}

fn create_params(model_size: u32) -> (params: SurfaceParams)
    ensures
        params == surface_params(model_size),
{
    SurfaceParams {
        gpu_id: 0,
        width: model_size,
        height: model_size,
        size: 0,
        is_contiguous: 1,
        color_format: NVBUF_COLOR_FORMAT_RGBA,
        layout: NVBUF_LAYOUT_PITCH,
        mem_type: NVBUF_MEM_CUDA_DEVICE,
    }
}

fn status_text(prefix: &str, status: i32) -> (text: String)
    ensures
        text@ == prefix@ + decimal_signed(status as int),
{
    let mut text: String = prefix.to_owned();
    push_decimal_signed(&mut text, status as i64);
    text
}

fn fill_size(pitch: u32, size: u32) -> (bytes: u64)
    ensures
        bytes == (pitch * size) as u64,
        bytes == pitch * size,
{
    assert(0 <= pitch * size <= 0xffff_fffe_0000_0001) by (nonlinear_arith)
        requires
            0 <= pitch <= 0xffff_ffff,
            0 <= size <= 0xffff_ffff,
    ;
    pitch as u64 * size as u64
}

impl NvBufDetectionSurface {
    /// What to fill to make the whole surface grey again.
    pub fn refill_grey(&self) -> (fill: GreyFill)
        ensures
            fill == (GreyFill {
                data_ptr: self.data_ptr,
                value: GREY,
                count: (self.pitch * self.size) as u64,
            }),
            fill.count == self.pitch * self.size,
    {
        GreyFill {
            data_ptr: self.data_ptr,
            value: GREY,
            count: fill_size(self.pitch, self.size),
        }
    }

    /// Take what came of filling the surface: why it was not filled, if it was not.
    pub fn refilled(failure: Option<String>) -> (done: Result<(), String>)
        ensures
            match failure {
                Some(reason) => done matches Err(text) && text@ == "grey fill: "@ + reason@,
                None => done is Ok,
            },
    {
        match failure {
            Some(reason) => Err(joined("grey fill: ", reason.as_str())),
            None => Ok(()),
        }
    }

    /// Whether transforms have to be set up on this thread first.
    pub fn needs_session(&self) -> (needed: bool)
        ensures
            needed == !self.session_initialized,
    {
        !self.session_initialized
    }

    /// Take what setting up transforms returned.
    pub fn session_set(&mut self, ret: i32) -> (set: Result<(), String>)
        ensures
            set is Ok <==> ret == 0,
            set matches Err(text) ==> text@ == "NvBufSurfTransformSetSessionParams failed: "@
                + decimal_signed(ret as int) && *final(self) == *old(self),
            set is Ok ==> *final(self) == (NvBufDetectionSurface {
                session_initialized: true,
                ..*old(self)
            }),
    {
        if ret != 0 {
            return Err(status_text("NvBufSurfTransformSetSessionParams failed: ", ret));
        }
        self.session_initialized = true;
        Ok(())
    }

    /// How to transform a camera frame into the surface.
    pub fn transform_from_nvmm(&self) -> (params: TransformParams)
        ensures
            params == (TransformParams {
                flags: TRANSFORM_FLAGS,
                flip: 0,
                filter: NVBUF_TRANSFORM_FILTER_BILINEAR,
                dst_rect: self.dst_rect,
            }),
    {
        TransformParams {
            flags: TRANSFORM_FLAGS,
            flip: 0,
            filter: NVBUF_TRANSFORM_FILTER_BILINEAR,
            dst_rect: self.dst_rect,
        }
    }
}

/// Take what a transform returned.
pub fn transformed(ret: i32) -> (done: Result<(), String>)
    ensures
        done is Ok <==> ret == 0,
        done matches Err(text) ==> text@ == "NvBufSurfTransform failed: "@ + decimal_signed(
            ret as int,
        ),
{
    if ret != 0 {
        Err(status_text("NvBufSurfTransform failed: ", ret))
    } else {
        Ok(())
    }
}

/// A centered picture keeps its size.
pub proof fn law_letterbox_keeps_the_picture(model_size: u32, content_w: u32, content_h: u32)
    requires
        content_w <= model_size,
        content_h <= model_size,
    ensures
        centered(model_size, content_w, content_h).width == content_w,
        centered(model_size, content_w, content_h).height == content_h,
        centered(model_size, content_w, content_h).left + content_w <= model_size,
        centered(model_size, content_w, content_h).top + content_h <= model_size,
{
}

/// A surface is a square of four bytes per pixel in device memory, row by row.
pub proof fn law_surfaces_are_square(model_size: u32)
    ensures
        surface_params(model_size).width == model_size,
        surface_params(model_size).height == model_size,
        surface_params(model_size).gpu_id == 0,
        surface_params(model_size).size == 0,
        surface_params(model_size).is_contiguous == 1,
        surface_params(model_size).color_format == 19,
        surface_params(model_size).layout == 0,
        surface_params(model_size).mem_type == 2,
        GREY == 114,
        TRANSFORM_FLAGS == NVBUF_TRANSFORM_CROP_DST + NVBUF_TRANSFORM_FILTER,
        NVBUF_TRANSFORM_CROP_DST == 2,
        NVBUF_TRANSFORM_FILTER == 4,
        NVBUF_TRANSFORM_FILTER_BILINEAR == 1,
        NVBUF_TRANSFORM_COMPUTE_GPU == 1,
{
}

/// A setup that failed says why in its own words.
pub proof fn law_failed_setups_say_why(stage: SetupStage, message: Seq<char>)
    requires
        failed_with(stage, message),
    ensures
        stage is Failed,
        stage->Failed_0@ == message,
{
}

} // verus!
