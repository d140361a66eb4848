//! Import of decoded pictures on macOS.

use crate::text::{decimal_signed, hex_fixed, push_decimal_signed, push_hex_fixed};
use vstd::prelude::*;

verus! {

/// What a call returns when it succeeds.
pub const CV_RETURN_SUCCESS: i32 = 0;

/// One byte per pixel.
pub const MTL_PIXEL_FORMAT_R8_UNORM: u64 = 10;

/// Two bytes per pixel.
pub const MTL_PIXEL_FORMAT_RG8_UNORM: u64 = 30;

/// NV12 in video range, `420v`.
pub const PIXEL_FORMAT_VIDEO_RANGE: u32 = 0x34323076;

/// NV12 in full range, `420f`.
pub const PIXEL_FORMAT_FULL_RANGE: u32 = 0x34323066;

/// Why a picture could not be imported.
#[derive(Clone, Copy, Debug, PartialEq, Eq, Structural)]
pub enum MetalInteropError {
    /// The device is driven by another API.
    NotMetal,
    /// The texture cache could not be created.
    CacheCreationFailed(i32),
    /// The plane could not be mapped.
    TextureImportFailed(i32),
    /// The mapped plane has no texture.
    NullTexture,
    /// The picture has another pixel format.
    UnsupportedFormat(u32),
}

impl MetalInteropError {
    /// The message of the error.
    pub open spec fn text(&self) -> Seq<char> {
        match *self {
            MetalInteropError::NotMetal => "wgpu backend is not Metal"@,
            MetalInteropError::CacheCreationFailed(code) =>
                "CVMetalTextureCacheCreate failed (CVReturn "@ + decimal_signed(code as int) + ")"@,
            MetalInteropError::TextureImportFailed(code) =>
                "CVMetalTextureCacheCreateTextureFromImage failed (CVReturn "@ + decimal_signed(
                code as int,
            ) + ")"@,
            MetalInteropError::NullTexture => "CVMetalTextureGetTexture returned null"@,
            MetalInteropError::UnsupportedFormat(format) =>
                "unsupported CVPixelBuffer format: 0x"@ + hex_fixed(format as nat, 8),
        }
    }

    /// The message of the error.
    pub fn message(&self) -> (text: String)
        ensures
            text@ == self.text(),
    {
        match *self {
            MetalInteropError::NotMetal => "wgpu backend is not Metal".to_owned(),
            MetalInteropError::CacheCreationFailed(code) => {
                let mut text: String = "CVMetalTextureCacheCreate failed (CVReturn ".to_owned();
                push_decimal_signed(&mut text, code as i64);
                text.push_str(")");
                text
            },
            MetalInteropError::TextureImportFailed(code) => {
                let mut text: String =
                    "CVMetalTextureCacheCreateTextureFromImage failed (CVReturn ".to_owned();
                push_decimal_signed(&mut text, code as i64);
                text.push_str(")");
                text
            },
            MetalInteropError::NullTexture => "CVMetalTextureGetTexture returned null".to_owned(),
            MetalInteropError::UnsupportedFormat(format) => {
                let mut text: String = "unsupported CVPixelBuffer format: 0x".to_owned();
                push_hex_fixed(&mut text, format, 8);
                text
            },
        }
    }
}

/// Whether a picture is NV12, in either range.
pub open spec fn nv12_format(format: u32) -> bool {
    format == PIXEL_FORMAT_VIDEO_RANGE || format == PIXEL_FORMAT_FULL_RANGE
}

/// Whether a picture is NV12, in either range.
pub fn is_supported_format(format: u32) -> (supported: bool)
    ensures
        supported == nv12_format(format),
{
    format == PIXEL_FORMAT_VIDEO_RANGE || format == PIXEL_FORMAT_FULL_RANGE
}

/// What creating a texture cache came to: on another API it is not tried.
pub fn cache_created(is_metal: bool, ret: i32) -> (created: Result<(), MetalInteropError>)
    ensures
        created == if !is_metal {
            Err::<(), MetalInteropError>(MetalInteropError::NotMetal)
        } else if ret != CV_RETURN_SUCCESS {
            Err(MetalInteropError::CacheCreationFailed(ret))
        } else {
            Ok(())
        },
{
    if !is_metal {
        return Err(MetalInteropError::NotMetal);
    }
    if ret != CV_RETURN_SUCCESS {
        return Err(MetalInteropError::CacheCreationFailed(ret));
    }
    Ok(())
}

/// A plane to map.
#[derive(Clone, Copy, Debug, PartialEq, Eq, Structural)]
pub struct PlaneMapping {
    /// Which plane: luma is 0, chroma 1.
    pub plane_index: u64,
    /// Its pixel format.
    pub mtl_format: u64,
    /// Samples per pixel.
    pub channels: u32,
    /// Width in pixels.
    pub width: u32,
    /// Height in pixels.
    pub height: u32,
}

/// How to map a plane of the given size.
pub open spec fn mapping(plane_index: u64, width: u64, height: u64) -> PlaneMapping {
    PlaneMapping {
        plane_index,
        mtl_format: if plane_index == 0 {
            MTL_PIXEL_FORMAT_R8_UNORM
        } else {
            MTL_PIXEL_FORMAT_RG8_UNORM
        },
        channels: if plane_index == 0 {
            1
        } else {
            2
        },
        width: width as u32,
        height: height as u32,
    }
}

/// How to map a plane of the given size.
pub fn plane_mapping(plane_index: u64, width: u64, height: u64) -> (plane: PlaneMapping)
    requires
        plane_index <= 1,
    ensures
        plane == mapping(plane_index, width, height),
{
    if plane_index == 0 {
        PlaneMapping {
            plane_index,
            mtl_format: MTL_PIXEL_FORMAT_R8_UNORM,
            channels: 1,
            width: width as u32,
            height: height as u32,
        }
    } else {
        PlaneMapping {
            plane_index,
            mtl_format: MTL_PIXEL_FORMAT_RG8_UNORM,
            channels: 2,
            width: width as u32,
            height: height as u32,
        }
    }
}

/// How to map the planes of an NV12 picture, given the size of each.
pub fn import_nv12(format: u32, luma: (u64, u64), chroma: (u64, u64)) -> (planes: Result<
    (PlaneMapping, PlaneMapping),
    MetalInteropError,
>)
    ensures
        planes == if nv12_format(format) {
            Ok::<(PlaneMapping, PlaneMapping), MetalInteropError>(
                (mapping(0, luma.0, luma.1), mapping(1, chroma.0, chroma.1)),
            )
        } else {
            Err(MetalInteropError::UnsupportedFormat(format))
        },
{
    if !is_supported_format(format) {
        return Err(MetalInteropError::UnsupportedFormat(format));
    }
    Ok((plane_mapping(0, luma.0, luma.1), plane_mapping(1, chroma.0, chroma.1)))
}

/// How far mapping a plane has come.
#[derive(Clone, Copy, Debug, PartialEq, Eq, Structural)]
pub enum PlaneStage {
    /// The plane has to be mapped.
    MapPlane,
    /// Its texture has to be had.
    GetTexture {
        /// The mapped plane.
        cv_texture: u64,
    },
    /// The mapped plane has to be released, as it has no texture.
    Release {
        /// The mapped plane.
        cv_texture: u64,
    },
    /// The texture can be wrapped; it keeps the mapped plane.
    Ready {
        /// The mapped plane.
        cv_texture: u64,
        /// Its texture.
        mtl_texture: u64,
    },
    /// It failed.
    Failed(MetalInteropError),
}

/// What came of mapping a plane, of getting its texture, or of releasing it: a
/// status and a handle.
pub open spec fn plane_step(stage: PlaneStage, ret: i32, handle: u64) -> PlaneStage {
    match stage {
        PlaneStage::MapPlane => if ret != CV_RETURN_SUCCESS {
            PlaneStage::Failed(MetalInteropError::TextureImportFailed(ret))
        } else {
            PlaneStage::GetTexture { cv_texture: handle }
        },
        PlaneStage::GetTexture { cv_texture } => if handle == 0 {
            PlaneStage::Release { cv_texture }
        } else {
            PlaneStage::Ready { cv_texture, mtl_texture: handle }
        },
        PlaneStage::Release { .. } => PlaneStage::Failed(MetalInteropError::NullTexture),
        other => other,
    }
}

/// Take what came of the stage's call.
pub fn import_plane(stage: PlaneStage, ret: i32, handle: u64) -> (next: PlaneStage)
    ensures
        next == plane_step(stage, ret, handle),
{
    match stage {
        PlaneStage::MapPlane => if ret != CV_RETURN_SUCCESS {
            PlaneStage::Failed(MetalInteropError::TextureImportFailed(ret))
        } else {
            PlaneStage::GetTexture { cv_texture: handle }
        },
        PlaneStage::GetTexture { cv_texture } => if handle == 0 {
            PlaneStage::Release { cv_texture }
        } else {
            PlaneStage::Ready { cv_texture, mtl_texture: handle }
        },
        PlaneStage::Release { .. } => PlaneStage::Failed(MetalInteropError::NullTexture),
        PlaneStage::Ready { cv_texture, mtl_texture } => PlaneStage::Ready {
            cv_texture,
            mtl_texture,
        },
        PlaneStage::Failed(e) => PlaneStage::Failed(e),
    }
}

/// A mapped plane is either kept by a texture or released again: it is never
/// lost.
pub proof fn law_mapped_planes_are_kept_or_released(
    cv_texture: u64,
    get: (i32, u64),
    release: (i32, u64),
)
    ensures
        ({
            let mapped = plane_step(PlaneStage::MapPlane, CV_RETURN_SUCCESS, cv_texture);
            let got = plane_step(mapped, get.0, get.1);
            ||| got == (PlaneStage::Ready { cv_texture, mtl_texture: get.1 }) && get.1 != 0
            ||| got == (PlaneStage::Release { cv_texture }) && plane_step(
                got,
                release.0,
                release.1,
            ) == PlaneStage::Failed(MetalInteropError::NullTexture)
        }),
{
}

/// The luma plane has one sample per pixel and the chroma plane two, each in its own format and
/// of its own size.
pub proof fn law_planes_are_mapped_by_what_they_are(index: u64, width: u64, height: u64)
    requires
        index <= 1,
        width <= u32::MAX,
        height <= u32::MAX,
    ensures
        mapping(index, width, height).plane_index == index,
        mapping(index, width, height).width == width,
        mapping(index, width, height).height == height,
        index == 0 ==> mapping(index, width, height).mtl_format == 10 && mapping(
            index,
            width,
            height,
        ).channels == 1,
        index == 1 ==> mapping(index, width, height).mtl_format == 30 && mapping(
            index,
            width,
            height,
        ).channels == 2,
{
}

/// Pictures of two planes are taken in either range, and no others.
pub proof fn law_two_formats_are_taken(format: u32)
    ensures
        nv12_format(format) <==> format == 0x3432_3076 || format == 0x3432_3066,
{
}

/// A plane that is not mapped is told with its status. One that is mapped gives its texture, or
/// is released and told. What is done stays so.
pub proof fn law_planes_come_to_a_texture_or_an_error(ret: i32, handle: u64, cv_texture: u64)
    ensures
        ret != 0 ==> plane_step(PlaneStage::MapPlane, ret, handle) == PlaneStage::Failed(
            MetalInteropError::TextureImportFailed(ret),
        ),
        ret == 0 ==> plane_step(PlaneStage::MapPlane, ret, handle) == (PlaneStage::GetTexture {
            cv_texture: handle,
        }),
        handle != 0 ==> plane_step(PlaneStage::GetTexture { cv_texture }, ret, handle) == (
        PlaneStage::Ready { cv_texture, mtl_texture: handle }),
        handle == 0 ==> plane_step(PlaneStage::GetTexture { cv_texture }, ret, handle) == (
        PlaneStage::Release { cv_texture }),
        plane_step(PlaneStage::Release { cv_texture }, ret, handle) == PlaneStage::Failed(
            MetalInteropError::NullTexture,
        ),
        plane_step(PlaneStage::Ready { cv_texture, mtl_texture: handle }, ret, handle) == (
        PlaneStage::Ready { cv_texture, mtl_texture: handle }),
{
}

} // verus!
