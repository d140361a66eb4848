//! Where the virtual camera looks.

use crate::number::Real32;
use vstd::prelude::*;

verus! {

/// Pattern of the narrowest field of view a matrix can be built from: one
/// degree.
pub const MIN_FOV: u32 = 0x3f80_0000;

/// Pattern of the widest field of view a matrix can be built from: 179
/// degrees.
pub const MAX_FOV: u32 = 0x4333_0000;

/// Pattern of the field of view of a pose that does not say otherwise: 75
/// degrees.
pub const DEFAULT_FOV: u32 = 0x4296_0000;

/// Yaw, pitch and field of view of the virtual camera.
#[derive(Clone, Copy, Debug, PartialEq, Eq, Structural)]
pub struct Pose {
    /// Pan angle in radians, zero at the seam.
    pub yaw: Real32,
    /// Tilt angle in radians, zero when level.
    pub pitch: Real32,
    /// Vertical field of view in degrees.
    pub fov_degrees: Real32,
}

/// A field of view no matrix degenerates on.
pub open spec fn renderable_fov(fov: Real32) -> Real32 {
    fov.clamped(Real32 { bits: MIN_FOV }, Real32 { bits: MAX_FOV })
}

/// Bring a field of view into the range a matrix can be built from.
pub fn clamp_fov(fov: Real32) -> (clamped: Real32)
    ensures
        clamped == renderable_fov(fov),
{
    fov.clamp(Real32 { bits: MIN_FOV }, Real32 { bits: MAX_FOV })
}

impl Pose {
    /// The field of view this pose renders with.
    pub fn render_fov(&self) -> (fov: Real32)
        ensures
            fov == renderable_fov(self.fov_degrees),
    {
        clamp_fov(self.fov_degrees)
    }
}

impl Default for Pose {
    fn default() -> (pose: Pose)
        ensures
            pose == (Pose {
                yaw: Real32 { bits: 0 },
                pitch: Real32 { bits: 0 },
                fov_degrees: Real32 { bits: DEFAULT_FOV },
            }),
    {
        Pose {
            yaw: Real32 { bits: 0 },
            pitch: Real32 { bits: 0 },
            fov_degrees: Real32 { bits: DEFAULT_FOV },
        }
    }
}

/// Where a director wants the virtual camera to look.
#[derive(Clone, Copy, Debug, PartialEq, Eq, Structural)]
pub struct ViewportPosition {
    /// Pan angle in radians, zero at the seam.
    pub yaw: Real32,
    /// Tilt angle in radians, zero when level.
    pub pitch: Real32,
    /// Field of view in degrees, where it is not the pipeline's.
    pub fov_degrees: Option<Real32>,
}

impl Default for ViewportPosition {
    fn default() -> (position: ViewportPosition)
        ensures
            position == (ViewportPosition {
                yaw: Real32 { bits: 0 },
                pitch: Real32 { bits: 0 },
                fov_degrees: None,
            }),
    {
        ViewportPosition {
            yaw: Real32 { bits: 0 },
            pitch: Real32 { bits: 0 },
            fov_degrees: None,
        }
    }
}

/// The field of view a pose renders with is never one a matrix degenerates
/// on, unless it was no number to begin with.
pub proof fn law_render_fov_in_range(pose: Pose)
    requires
        !pose.fov_degrees.nan(),
    ensures
        !renderable_fov(pose.fov_degrees).below(Real32 { bits: MIN_FOV }),
        !(Real32 { bits: MAX_FOV }).below(renderable_fov(pose.fov_degrees)),
{
    crate::number::law_clamp(
        pose.fov_degrees,
        Real32 { bits: MIN_FOV },
        Real32 { bits: MAX_FOV },
    );
}

/// A field of view between one and 179 degrees is rendered as it is, a narrower one as
/// one degree, a wider one as 179.
pub proof fn law_field_of_view_is_kept_where_it_can_be(fov: Real32)
    ensures
        ({
            let (low, high) = (Real32 { bits: 0x3f80_0000 }, Real32 { bits: 0x4333_0000 });
            &&& fov.below(low) ==> renderable_fov(fov) == low
            &&& high.below(fov) ==> renderable_fov(fov) == high
            &&& !fov.below(low) && !high.below(fov) ==> renderable_fov(fov) == fov
        }),
{
}

} // verus!
