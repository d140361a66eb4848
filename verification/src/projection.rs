//! The shapes the sources are painted on.

use crate::number::{Real32, Real64};
use vstd::prelude::*;

verus! {

/// Two fisheye cameras on perpendicular planes.
#[derive(Clone, Copy, Debug, PartialEq, Eq, Structural)]
pub struct LShape {
    /// Where the planes meet, as a share of the plane width.
    pub intersect: Real64,
    /// Vertical shift of the X plane.
    pub x_ty: Real64,
    /// Rotation of the X plane about Z.
    pub x_rz: Real64,
    /// Rotation of the Z plane about X.
    pub z_rx: Real64,
    /// Rotation of the X plane about X.
    pub x_rx: Real64,
    /// Rotation of the Z plane about Z.
    pub z_rz: Real64,
    /// Width of the seam blend.
    pub blend_width: Real32,
}

/// One panorama painted on the inside of a cylinder.
#[derive(Clone, Copy, Debug, PartialEq, Eq, Structural)]
pub struct Cylinder {
    /// Focal length in pixels.
    pub focal_length: Real64,
    /// Horizontal sweep in degrees.
    pub sweep_deg: Real64,
    /// Height of the video on the cylinder, where it differs from the frame's.
    pub video_height: Option<Real64>,
}

/// A full turn, in degrees.
pub const FULL_TURN: u32 = 360;

/// Sweep of a cylinder that does not say otherwise, in degrees.
pub const DEFAULT_SWEEP: u32 = 180;

/// Focal length of a cylinder that does not say otherwise, in pixels.
pub const DEFAULT_FOCAL_LENGTH: u32 = 2400;

impl Default for Cylinder {
    fn default() -> (shape: Cylinder)
        ensures
            shape.focal_length == number_of(DEFAULT_FOCAL_LENGTH as nat),
            shape.sweep_deg == number_of(DEFAULT_SWEEP as nat),
            shape.video_height is None,
    {
        Cylinder {
            focal_length: whole(DEFAULT_FOCAL_LENGTH),
            sweep_deg: whole(DEFAULT_SWEEP),
            video_height: None,
        }
    }
}

/// The double that stands for the whole number `n`.
pub open spec fn number_of(n: nat) -> Real64 {
    choose|r: Real64| is_number(r, n)
}

/// `r` stands for the whole number `n`.
pub open spec fn is_number(r: Real64, n: nat) -> bool {
    r.finite() && !r.negative() && r.scaled() == n * vstd::arithmetic::power2::pow2(1074)
}

/// Every whole number of 32 bits is a double.
pub proof fn lemma_number_of(n: nat)
    requires
        n <= u32::MAX,
    ensures
        is_number(number_of(n), n),
{
    let witness = crate::number::lemma_whole_exists(n);
    assert(is_number(witness, n));
}

/// The double that stands for the whole number `n`.
pub fn whole(n: u32) -> (r: Real64)
    ensures
        r == number_of(n as nat),
        is_number(r, n as nat),
{
    let r = Real64::from_u32(n);
    proof {
        assert(is_number(r, n as nat));
        crate::number::law_equal_numbers_have_one_pattern(r, number_of(n as nat));
    }
    r
}

/// What an engine needs to know of a topology before it draws anything.
#[derive(Clone, Copy, Debug, PartialEq, Eq, Structural)]
pub enum Projection {
    /// The two-plane rig.
    LShape,
    /// The cylinder.
    Cylinder,
}

impl Projection {
    /// Name of the projection.
    pub open spec fn named(self) -> Seq<char> {
        match self {
            Projection::LShape => "l-shape-stereo-2camera"@,
            Projection::Cylinder => "cylinder-mono-1camera"@,
        }
    }

    /// Number of cameras the projection consumes.
    pub open spec fn cameras(self) -> nat {
        match self {
            Projection::LShape => 2,
            Projection::Cylinder => 1,
        }
    }

    /// Name of the projection.
    pub fn name(&self) -> (name: &'static str)
        ensures
            name@ == self.named(),
    {
        match self {
            Projection::LShape => "l-shape-stereo-2camera",
            Projection::Cylinder => "cylinder-mono-1camera",
        }
    }

    /// Number of cameras the projection consumes.
    pub fn camera_count(&self) -> (n: usize)
        ensures
            n == self.cameras(),
    {
        match self {
            Projection::LShape => 2,
            Projection::Cylinder => 1,
        }
    }
}

/// A full turn is 360 degrees; a cylinder sweeps half of it and has a focal length of 2400 unless
/// it says otherwise.
pub proof fn law_cylinder_defaults()
    ensures
        FULL_TURN == 360,
        2 * DEFAULT_SWEEP == FULL_TURN,
        DEFAULT_FOCAL_LENGTH == 2400,
{
}

} // verus!
