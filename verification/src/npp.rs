//! Image primitives on the device: color conversion, resizing, mirroring.

use crate::cuda::{CUdeviceptr, Platform};
use crate::text::{decimal_signed, joined, push_decimal_signed};
use vstd::prelude::*;

verus! {

/// Bilinear interpolation.
pub const NPPI_INTER_LINEAR: i32 = 1;

/// Mirror along both axes, which is half a turn.
pub const NPPI_AXIS_BOTH: i32 = 2;

/// Bytes per packed pixel.
pub const CHANNELS: i32 = 3;

/// Widest picture whose rows the primitives can step over.
pub const MAX_WIDTH: u32 = 715_827_882;

/// Why a primitive failed.
#[derive(Clone, Debug)]
pub enum NppError {
    /// The libraries are not there.
    NotAvailable(String),
    /// A call failed.
    NppCall {
        /// The call.
        function: &'static str,
        /// What it returned.
        code: i32,
    },
}

impl NppError {
    /// The message of the error.
    pub open spec fn text(&self) -> Seq<char> {
        match *self {
            NppError::NotAvailable(e) => "NPP not available: "@ + e@,
            NppError::NppCall { function, code } => "NPP error "@ + decimal_signed(code as int)
                + " in "@ + function@,
        }
    }

    /// The message of the error.
    pub fn message(&self) -> (text: String)
        ensures
            text@ == self.text(),
    {
        match self {
            NppError::NotAvailable(e) => joined("NPP not available: ", e.as_str()),
            NppError::NppCall { function, code } => {
                let mut text: String = "NPP error ".to_owned();
                push_decimal_signed(&mut text, *code as i64);
                text.push_str(" in ");
                text.push_str(function);
                text
            },
        }
    }
}

/// Size of a picture.
#[derive(Clone, Copy, Debug, PartialEq, Eq, Structural)]
pub struct NppiSize {
    /// Width in pixels.
    pub width: i32,
    /// Height in pixels.
    pub height: i32,
}

/// Part of a picture.
#[derive(Clone, Copy, Debug, PartialEq, Eq, Structural)]
pub struct NppiRect {
    /// Left edge.
    pub x: i32,
    /// Top edge.
    pub y: i32,
    /// Width in pixels.
    pub width: i32,
    /// Height in pixels.
    pub height: i32,
}

/// Turn the status of a call into a result. A positive status is a warning.
pub fn check_npp(function: &'static str, status: i32) -> (checked: Result<(), NppError>)
    ensures
        checked is Ok <==> status >= 0,
        checked matches Err(e) ==> e matches NppError::NppCall { function: f, code } && f@
            == function@ && code == status,
{
    if status >= 0 {
        Ok(())
    } else {
        Err(NppError::NppCall { function, code: status })
    }
}

/// What looking for the libraries found: an error text for each thing that was
/// not there.
#[derive(Clone, Debug)]
pub struct NppReport {
    /// The platform.
    pub platform: Platform,
    /// Why no color conversion library could be opened.
    pub conversion: Option<String>,
    /// Why no geometry library could be opened.
    pub geometry: Option<String>,
    /// Why the color conversion could not be resolved.
    pub nv12_to_rgb: Option<String>,
    /// Why the resize could not be resolved.
    pub resize_c3: Option<String>,
    /// Why the mirror could not be resolved.
    pub mirror_c3: Option<String>,
}

impl NppReport {
    /// Why the primitives cannot be used, if they cannot.
    pub open spec fn problem(&self) -> Option<Seq<char>> {
        let conversion = if self.platform == Platform::Linux {
            "libnppicc: "@
        } else {
            "nppicc: "@
        };
        let geometry = if self.platform == Platform::Linux {
            "libnppig: "@
        } else {
            "nppig: "@
        };
        if let Some(e) = self.conversion {
            Some(conversion + e@)
        } else if let Some(e) = self.geometry {
            Some(geometry + e@)
        } else if let Some(e) = self.nv12_to_rgb {
            Some("nppiNV12ToRGB_8u_P2C3R_Ctx: "@ + e@)
        } else if let Some(e) = self.resize_c3 {
            Some("nppiResize_8u_C3R_Ctx: "@ + e@)
        } else if let Some(e) = self.mirror_c3 {
            Some("nppiMirror_8u_C3R_Ctx: "@ + e@)
        } else {
            None
        }
    }

    /// Whether the primitives can be used, or the first reason why not.
    pub fn outcome(&self) -> (outcome: Result<(), NppError>)
        ensures
            outcome is Ok <==> self.problem() is None,
            outcome matches Err(e) ==> e matches NppError::NotAvailable(text) && Some(text@)
                == self.problem(),
    {
        let linux = match self.platform {
            Platform::Linux => true,
            Platform::Windows => false,
        };
        if let Some(e) = &self.conversion {
            let name = if linux {
                "libnppicc: "
            } else {
                "nppicc: "
            };
            return Err(NppError::NotAvailable(joined(name, e.as_str())));
        }
        if let Some(e) = &self.geometry {
            let name = if linux {
                "libnppig: "
            } else {
                "nppig: "
            };
            return Err(NppError::NotAvailable(joined(name, e.as_str())));
        }
        if let Some(e) = &self.nv12_to_rgb {
            return Err(NppError::NotAvailable(joined("nppiNV12ToRGB_8u_P2C3R_Ctx: ", e.as_str())));
        }
        if let Some(e) = &self.resize_c3 {
            return Err(NppError::NotAvailable(joined("nppiResize_8u_C3R_Ctx: ", e.as_str())));
        }
        if let Some(e) = &self.mirror_c3 {
            return Err(NppError::NotAvailable(joined("nppiMirror_8u_C3R_Ctx: ", e.as_str())));
        }
        Ok(())
    }
}

/// Whether the libraries and their symbols are there.
pub fn is_npp_available(report: &NppReport) -> (available: bool)
    ensures
        available == report.problem() is None,
{
    report.outcome().is_ok()
}

/// File names of the color conversion library, newest first.
pub fn conversion_libraries(platform: Platform) -> (names: Vec<&'static str>)
    ensures
        names@.map_values(|n: &str| n@) == (match platform {
            Platform::Linux => seq![
                "libnppicc.so.13"@,
                "libnppicc.so.12"@,
                "libnppicc.so.11"@,
                "libnppicc.so"@,
            ],
            Platform::Windows => seq![
                "nppicc64_13.dll"@,
                "nppicc64_12.dll"@,
                "nppicc64_11.dll"@,
            ],
        }),
{
    match platform {
        Platform::Linux => {
            let names: Vec<&'static str> = vec![
                "libnppicc.so.13",
                "libnppicc.so.12",
                "libnppicc.so.11",
                "libnppicc.so",
            ];
            assert(names@.map_values(|n: &str| n@) =~= seq![
                "libnppicc.so.13"@,
                "libnppicc.so.12"@,
                "libnppicc.so.11"@,
                "libnppicc.so"@,
            ]);
            names
        },
        Platform::Windows => {
            let names: Vec<&'static str> = vec![
                "nppicc64_13.dll",
                "nppicc64_12.dll",
                "nppicc64_11.dll",
            ];
            assert(names@.map_values(|n: &str| n@) =~= seq![
                "nppicc64_13.dll"@,
                "nppicc64_12.dll"@,
                "nppicc64_11.dll"@,
            ]);
            names
        },
    }
}

/// File names of the geometry library, newest first.
pub fn geometry_libraries(platform: Platform) -> (names: Vec<&'static str>)
    ensures
        names@.map_values(|n: &str| n@) == (match platform {
            Platform::Linux => seq![
                "libnppig.so.13"@,
                "libnppig.so.12"@,
                "libnppig.so.11"@,
                "libnppig.so"@,
            ],
            Platform::Windows => seq!["nppig64_13.dll"@, "nppig64_12.dll"@, "nppig64_11.dll"@],
        }),
{
    match platform {
        Platform::Linux => {
            let names: Vec<&'static str> = vec![
                "libnppig.so.13",
                "libnppig.so.12",
                "libnppig.so.11",
                "libnppig.so",
            ];
            assert(names@.map_values(|n: &str| n@) =~= seq![
                "libnppig.so.13"@,
                "libnppig.so.12"@,
                "libnppig.so.11"@,
                "libnppig.so"@,
            ]);
            names
        },
        Platform::Windows => {
            let names: Vec<&'static str> = vec!["nppig64_13.dll", "nppig64_12.dll", "nppig64_11.dll"];
            assert(names@.map_values(|n: &str| n@) =~= seq![
                "nppig64_13.dll"@,
                "nppig64_12.dll"@,
                "nppig64_11.dll"@,
            ]);
            names
        },
    }
}

/// Arguments of a color conversion.
#[derive(Clone, Copy, Debug, PartialEq, Eq, Structural)]
pub struct ConvertCall {
    /// Luma plane.
    pub src_y: CUdeviceptr,
    /// Chroma plane.
    pub src_uv: CUdeviceptr,
    /// Bytes per row of both planes.
    pub src_step: i32,
    /// Packed pixels.
    pub dst: CUdeviceptr,
    /// Bytes per packed row.
    pub dst_step: i32,
    /// Size of the picture.
    pub roi: NppiSize,
    /// The planes have different pitches, and the chroma is read with the
    /// luma's.
    pub pitch_mismatch: bool,
}

/// Convert an NV12 picture to packed pixels.
pub fn npp_nv12_to_rgb(
    src_y: CUdeviceptr,
    y_pitch: usize,
    src_uv: CUdeviceptr,
    uv_pitch: usize,
    dst: CUdeviceptr,
    width: u32,
    height: u32,
) -> (call: ConvertCall)
    requires
        width <= MAX_WIDTH,
    ensures
        call == (ConvertCall {
            src_y,
            src_uv,
            src_step: y_pitch as i32,
            dst,
            dst_step: (width * 3) as i32,
            roi: NppiSize { width: width as i32, height: height as i32 },
            pitch_mismatch: y_pitch != uv_pitch,
        }),
        call.dst_step == 3 * width,
{
    ConvertCall {
        src_y,
        src_uv,
        src_step: y_pitch as i32,
        dst,
        dst_step: width as i32 * CHANNELS,
        roi: NppiSize { width: width as i32, height: height as i32 },
        pitch_mismatch: y_pitch != uv_pitch,
    }
}

/// Arguments of a resize.
#[derive(Clone, Copy, Debug, PartialEq, Eq, Structural)]
pub struct ResizeCall {
    /// Packed source pixels.
    pub src: CUdeviceptr,
    /// Bytes per source row.
    pub src_step: i32,
    /// Size of the source.
    pub src_size: NppiSize,
    /// Part of the source to read: all of it.
    pub src_roi: NppiRect,
    /// Packed destination pixels.
    pub dst: CUdeviceptr,
    /// Bytes per destination row.
    pub dst_step: i32,
    /// Size of the destination.
    pub dst_size: NppiSize,
    /// Part of the destination to fill.
    pub dst_roi: NppiRect,
    /// How to interpolate.
    pub interpolation: i32,
}

/// Resize packed pixels into part of the destination.
pub fn npp_resize_c3(
    src: CUdeviceptr,
    src_w: u32,
    src_h: u32,
    dst: CUdeviceptr,
    dst_w: u32,
    dst_h: u32,
    dst_roi: NppiRect,
) -> (call: ResizeCall)
    requires
        src_w <= MAX_WIDTH,
        dst_w <= MAX_WIDTH,
    ensures
        call == (ResizeCall {
            src,
            src_step: (src_w * 3) as i32,
            src_size: NppiSize { width: src_w as i32, height: src_h as i32 },
            src_roi: NppiRect { x: 0, y: 0, width: src_w as i32, height: src_h as i32 },
            dst,
            dst_step: (dst_w * 3) as i32,
            dst_size: NppiSize { width: dst_w as i32, height: dst_h as i32 },
            dst_roi,
            interpolation: NPPI_INTER_LINEAR,
        }),
{
    ResizeCall {
        src,
        src_step: src_w as i32 * CHANNELS,
        src_size: NppiSize { width: src_w as i32, height: src_h as i32 },
        src_roi: NppiRect { x: 0, y: 0, width: src_w as i32, height: src_h as i32 },
        dst,
        dst_step: dst_w as i32 * CHANNELS,
        dst_size: NppiSize { width: dst_w as i32, height: dst_h as i32 },
        dst_roi,
        interpolation: NPPI_INTER_LINEAR,
    }
}

/// Arguments of a mirror.
#[derive(Clone, Copy, Debug, PartialEq, Eq, Structural)]
pub struct MirrorCall {
    /// Packed source pixels.
    pub src: CUdeviceptr,
    /// Packed destination pixels.
    pub dst: CUdeviceptr,
    /// Bytes per row of both.
    pub step: i32,
    /// Size of the picture.
    pub roi: NppiSize,
    /// Axes to mirror along.
    pub axis: i32,
}

/// Turn packed pixels by half a turn.
pub fn npp_mirror_c3(src: CUdeviceptr, dst: CUdeviceptr, width: u32, height: u32) -> (call:
    MirrorCall)
    requires
        width <= MAX_WIDTH,
    ensures
        call == (MirrorCall {
            src,
            dst,
            step: (width * 3) as i32,
            roi: NppiSize { width: width as i32, height: height as i32 },
            axis: NPPI_AXIS_BOTH,
        }),
{
    MirrorCall {
        src,
        dst,
        step: width as i32 * CHANNELS,
        roi: NppiSize { width: width as i32, height: height as i32 },
        axis: NPPI_AXIS_BOTH,
    }
}

/// Of several things that are missing the first is told: the conversion's library, the
/// geometry's, and then each function by its name.
pub proof fn law_the_first_missing_part_is_told(report: NppReport)
    ensures
        ({
            let linux = report.platform == Platform::Linux;
            &&& report.problem() is None <==> report.conversion is None && report.geometry is None
                && report.nv12_to_rgb is None && report.resize_c3 is None && report.mirror_c3 is None
            &&& report.conversion matches Some(e) ==> report.problem() == Some(
                (if linux {
                    "libnppicc: "@
                } else {
                    "nppicc: "@
                }) + e@,
            )
            &&& report.conversion is None ==> (report.geometry matches Some(e) ==> report.problem()
                == Some(
                (if linux {
                    "libnppig: "@
                } else {
                    "nppig: "@
                }) + e@,
            ))
            &&& report.conversion is None && report.geometry is None ==> (
            report.nv12_to_rgb matches Some(e) ==> report.problem() == Some(
                "nppiNV12ToRGB_8u_P2C3R_Ctx: "@ + e@,
            ))
            &&& report.conversion is None && report.geometry is None && report.nv12_to_rgb is None
                ==> (report.resize_c3 matches Some(e) ==> report.problem() == Some(
                "nppiResize_8u_C3R_Ctx: "@ + e@,
            ))
            &&& report.conversion is None && report.geometry is None && report.nv12_to_rgb is None
                && report.resize_c3 is None ==> (report.mirror_c3 matches Some(e)
                ==> report.problem() == Some("nppiMirror_8u_C3R_Ctx: "@ + e@))
        }),
{
}

/// Pictures are resized linearly and mirrored along both axes, with three bytes per pixel.
pub proof fn law_primitives_are_asked_for_by_their_numbers()
    ensures
        NPPI_INTER_LINEAR == 1,
        NPPI_AXIS_BOTH == 2,
        CHANNELS == 3,
        3 * MAX_WIDTH <= i32::MAX < 3 * (MAX_WIDTH + 1),
{
}

} // verus!
