//! The calibration document.
//!
//! A [`Calibration`] describes how the source feeds become one stitched view:
//! per source a [`Lens`], then the [`Topology`] the sources are painted on and
//! the [`Framing`] of the virtual camera. Everything built at run time derives
//! from it, so it is validated once, before anything is built.

use crate::number::{Real32, Real64};
use crate::projection::{Cylinder, LShape, Projection, number_of, whole};
use crate::text::{decimal, decimal_signed, push_decimal, push_decimal_signed};
use vstd::prelude::*;

pub mod laws;
use vstd::std_specs::convert::FromSpecImpl;

verus! {

/// Largest width or height in pixels. Anything above would have the GPU
/// allocate an unreasonable texture.
pub const MAX_DIM: u32 = 8192;

/// Current version of the document format.
pub const SCHEMA_VERSION: u32 = 1;

/// Largest offset between the feeds, in frames.
pub const MAX_SYNC_OFFSET_FRAMES: i64 = 100_000;

/// Pattern of one millionth, the least value anything may have that the
/// geometry divides by.
pub const VALIDATION_EPSILON: u64 = 0x3eb0_c6f7_a0b5_ed8d;

/// Pattern of one in single precision.
pub const ONE32: u32 = 0x3f80_0000;

/// Largest document, in bytes.
pub const MAX_CALIBRATION_FILE_SIZE: u64 = 1_048_576;

/// One source's optical model.
#[derive(Clone, Copy, Debug)]
pub struct Lens {
    /// Calibration frame width in pixels.
    pub width: u32,
    /// Calibration frame height in pixels.
    pub height: u32,
    /// Focal length along x, in pixels.
    pub fx: Real64,
    /// Focal length along y, in pixels.
    pub fy: Real64,
    /// Principal point x, in pixels.
    pub cx: Real64,
    /// Principal point y, in pixels.
    pub cy: Real64,
    /// Fisheye distortion coefficients.
    pub distortion: [Real64; 4],
    /// Share of the distortion model to apply, from pinhole to full.
    pub correction: Real32,
}

/// Which shape the sources are painted on.
#[derive(Clone, Copy, Debug, PartialEq, Eq, Structural)]
pub enum Topology {
    /// Two fisheye cameras on perpendicular planes.
    LShape(LShape),
    /// One panorama on the inside of a cylinder.
    Cylinder(Cylinder),
}

/// The virtual camera's frame of reference.
#[derive(Clone, Copy, Debug, PartialEq, Eq, Structural)]
pub struct Framing {
    /// Distance of the camera from the origin along X and Z.
    pub axis_offset: Real64,
    /// Forward lean of the rig in radians.
    pub tilt: Real64,
    /// Sideways lean of the rig in radians.
    pub roll: Real64,
}

/// Playing-field polygons for detection, in normalized coordinates.
#[derive(Clone, Debug)]
pub struct FieldRoi {
    /// Polygon of the left camera.
    pub left: Vec<[Real64; 2]>,
    /// Polygon of the right camera.
    pub right: Vec<[Real64; 2]>,
}

/// The calibration document.
#[derive(Clone, Debug)]
pub struct Calibration {
    /// Version of the document format.
    pub schema_version: u32,
    /// Optical models, one per camera.
    pub lenses: Vec<Lens>,
    /// Placement of the sources.
    pub topology: Topology,
    /// Frame of the virtual camera.
    pub framing: Framing,
    /// Offset between the feeds in frames; positive where the right is ahead.
    pub sync_offset: i64,
    /// Detection polygons.
    pub field_roi: Option<FieldRoi>,
}

/// The first thing wrong with a calibration.
#[derive(Clone, Debug)]
pub enum CalibrationError {
    /// A value is outside its range.
    OutOfRange {
        /// Path of the field.
        field: String,
        /// The value.
        value: Real64,
        /// Least allowed value.
        min: Real64,
        /// Largest allowed value.
        max: Real64,
    },
    /// A width or height is zero.
    ZeroDimension {
        /// Index of the lens.
        index: usize,
        /// Name of the field.
        field: &'static str,
        /// The value.
        value: u32,
    },
    /// A width or height exceeds [`MAX_DIM`].
    DimensionTooLarge {
        /// Index of the lens.
        index: usize,
        /// Name of the field.
        field: &'static str,
        /// The value.
        value: u32,
        /// The limit.
        max: u32,
    },
    /// A number is infinite or not a number.
    NonFiniteFloat {
        /// Path of the field.
        field: String,
        /// The value as text.
        value: String,
    },
    /// A number is too small to divide by.
    ValueTooSmall {
        /// Path of the field.
        field: String,
        /// The value.
        value: Real64,
        /// The threshold.
        epsilon: Real64,
    },
    /// There are no lenses.
    NoLenses,
    /// The number of lenses does not match the topology.
    LensCountMismatch {
        /// Name of the topology.
        topology: &'static str,
        /// Number of lenses it consumes.
        expected: usize,
        /// Number of lenses there are.
        found: usize,
    },
    /// The offset between the feeds is not realistic.
    SyncOffsetOutOfRange {
        /// The value.
        value: i64,
        /// Least allowed value.
        min: i64,
        /// Largest allowed value.
        max: i64,
    },
}

/// A [`CalibrationError`] with its texts as sequences.
#[verifier::ext_equal]
pub enum Fault {
    /// A value is outside its range.
    OutOfRange { field: Seq<char>, value: Real64, min: Real64, max: Real64 },
    /// A width or height is zero.
    ZeroDimension { index: nat, field: Seq<char>, value: u32 },
    /// A width or height exceeds the limit.
    DimensionTooLarge { index: nat, field: Seq<char>, value: u32, max: u32 },
    /// A number is infinite or not a number.
    NonFiniteFloat { field: Seq<char>, value: Seq<char> },
    /// A number is too small to divide by.
    ValueTooSmall { field: Seq<char>, value: Real64, epsilon: Real64 },
    /// There are no lenses.
    NoLenses,
    /// The number of lenses does not match the topology.
    LensCountMismatch { topology: Seq<char>, expected: nat, found: nat },
    /// The offset between the feeds is not realistic.
    SyncOffsetOutOfRange { value: i64, min: i64, max: i64 },
}

impl View for CalibrationError {
    type V = Fault;

    open spec fn view(&self) -> Fault {
        match *self {
            CalibrationError::OutOfRange { field, value, min, max } => Fault::OutOfRange {
                field: field@,
                value,
                min,
                max,
            },
            CalibrationError::ZeroDimension { index, field, value } => Fault::ZeroDimension {
                index: index as nat,
                field: field@,
                value,
            },
            CalibrationError::DimensionTooLarge { index, field, value, max } =>
                Fault::DimensionTooLarge { index: index as nat, field: field@, value, max },
            CalibrationError::NonFiniteFloat { field, value } => Fault::NonFiniteFloat {
                field: field@,
                value: value@,
            },
            CalibrationError::ValueTooSmall { field, value, epsilon } => Fault::ValueTooSmall {
                field: field@,
                value,
                epsilon,
            },
            CalibrationError::NoLenses => Fault::NoLenses,
            CalibrationError::LensCountMismatch { topology, expected, found } =>
                Fault::LensCountMismatch {
                topology: topology@,
                expected: expected as nat,
                found: found as nat,
            },
            CalibrationError::SyncOffsetOutOfRange { value, min, max } =>
                Fault::SyncOffsetOutOfRange { value, min, max },
        }
    }
}

/// Which fault a check found.
pub open spec fn fault_of(checked: Result<(), CalibrationError>) -> Option<Fault> {
    match checked {
        Ok(_) => None,
        Err(e) => Some(e@),
    }
}

/// `first`, or `second` where there is no first.
pub open spec fn or<T>(first: Option<T>, second: Option<T>) -> Option<T> {
    if first is Some {
        first
    } else {
        second
    }
}

/// A number that is infinite or not a number is at fault.
pub open spec fn finite_fault(field: Seq<char>, value: Real64) -> Option<Fault> {
    if value.finite() {
        None
    } else {
        Some(Fault::NonFiniteFloat { field, value: value.non_finite_name() })
    }
}

/// A number at or below the epsilon is at fault.
pub open spec fn positive_fault(field: Seq<char>, value: Real64) -> Option<Fault> {
    let epsilon = Real64 { bits: VALIDATION_EPSILON };
    if value.at_most(epsilon) {
        Some(Fault::ValueTooSmall { field, value, epsilon })
    } else {
        None
    }
}

/// A number outside `[min, max]` is at fault.
pub open spec fn range_fault(field: Seq<char>, value: Real64, min: Real64, max: Real64) -> Option<
    Fault,
> {
    if min.at_most(value) && value.at_most(max) {
        None
    } else {
        Some(Fault::OutOfRange { field, value, min, max })
    }
}

/// A dimension that is zero or beyond the limit is at fault.
pub open spec fn dimension_fault(index: nat, field: Seq<char>, value: u32) -> Option<Fault> {
    if value == 0 {
        Some(Fault::ZeroDimension { index, field, value })
    } else if value > MAX_DIM {
        Some(Fault::DimensionTooLarge { index, field, value, max: MAX_DIM })
    } else {
        None
    }
}

/// Path of a field of a lens.
pub open spec fn lens_field(index: nat, name: Seq<char>) -> Seq<char> {
    "lens["@ + decimal(index) + "]."@ + name
}

/// Path of a distortion coefficient of a lens.
pub open spec fn coefficient_field(index: nat, i: nat) -> Seq<char> {
    lens_field(index, "distortion["@ + decimal(i) + "]"@)
}

/// The first coefficient at fault, from the `i`th on.
pub open spec fn distortion_fault(index: nat, coefficients: Seq<Real64>, i: nat) -> Option<Fault>
    decreases coefficients.len() - i,
{
    if i >= coefficients.len() {
        None
    } else {
        or(
            finite_fault(coefficient_field(index, i), coefficients[i as int]),
            distortion_fault(index, coefficients, i + 1),
        )
    }
}

impl Lens {
    /// The first thing wrong with the lens, the `index`th of its document.
    pub open spec fn fault(&self, index: nat) -> Option<Fault> {
        let fx = lens_field(index, "fx"@);
        let fy = lens_field(index, "fy"@);
        let correction = lens_field(index, "correction"@);
        let amount = self.correction.widened();
        or(
            dimension_fault(index, "width"@, self.width),
            or(
                dimension_fault(index, "height"@, self.height),
                or(
                    or(finite_fault(fx, self.fx), positive_fault(fx, self.fx)),
                    or(
                        or(finite_fault(fy, self.fy), positive_fault(fy, self.fy)),
                        or(
                            finite_fault(lens_field(index, "cx"@), self.cx),
                            or(
                                finite_fault(lens_field(index, "cy"@), self.cy),
                                or(
                                    distortion_fault(index, self.distortion@, 0),
                                    or(
                                        finite_fault(correction, amount),
                                        range_fault(
                                            correction,
                                            amount,
                                            number_of(0),
                                            number_of(1),
                                        ),
                                    ),
                                ),
                            ),
                        ),
                    ),
                ),
            ),
        )
    }

    /// A fisheye lens at full correction.
    pub fn fisheye(
        width: u32,
        height: u32,
        fx: Real64,
        fy: Real64,
        cx: Real64,
        cy: Real64,
        distortion: [Real64; 4],
    ) -> (lens: Lens)
        ensures
            lens == (Lens {
                width,
                height,
                fx,
                fy,
                cx,
                cy,
                distortion,
                correction: Real32 { bits: ONE32 },
            }),
    {
        Lens { width, height, fx, fy, cx, cy, distortion, correction: Real32 { bits: ONE32 } }
    }

    /// A source without distortion: only its dimensions matter, the
    /// intrinsics are those of a centered frame.
    pub fn flat(width: u32, height: u32) -> (lens: Lens)
        ensures
            lens.width == width,
            lens.height == height,
            is_half(lens.fx, width),
            is_half(lens.fy, width),
            is_half(lens.cx, width),
            is_half(lens.cy, height),
            lens.distortion@ == Seq::new(4, |i: int| Real64 { bits: 0 }),
            lens.correction == (Real32 { bits: ONE32 }),
    {
        let zero = Real64 { bits: 0 };
        let distortion: [Real64; 4] = [zero, zero, zero, zero];
        assert(distortion@ =~= Seq::new(4, |i: int| Real64 { bits: 0 }));
        Lens {
            width,
            height,
            fx: Real64::half_of(width),
            fy: Real64::half_of(width),
            cx: Real64::half_of(width),
            cy: Real64::half_of(height),
            distortion,
            correction: Real32 { bits: ONE32 },
        }
    }
}

/// `r` stands for half of `n`.
pub open spec fn is_half(r: Real64, n: u32) -> bool {
    &&& r.finite()
    &&& !r.negative()
    &&& 2 * r.scaled() == n * vstd::arithmetic::power2::pow2(1074)
}

/// Reject an infinite number or one that is not a number.
pub fn expect_finite(field: &str, value: Real64) -> (checked: Result<(), CalibrationError>)
    ensures
        fault_of(checked) == finite_fault(field@, value),
{
    if value.is_finite() {
        Ok(())
    } else {
        Err(
            CalibrationError::NonFiniteFloat {
                field: field.to_owned(),
                value: value.non_finite_text().to_owned(),
            },
        )
    }
}

/// Reject a number outside `[min, max]`.
pub fn expect_in_range(field: &str, value: Real64, min: Real64, max: Real64) -> (checked: Result<
    (),
    CalibrationError,
>)
    ensures
        fault_of(checked) == range_fault(field@, value, min, max),
{
    if min.le(value) && value.le(max) {
        Ok(())
    } else {
        Err(CalibrationError::OutOfRange { field: field.to_owned(), value, min, max })
    }
}

/// Reject a number that is not meaningfully positive.
pub fn expect_positive(field: &str, value: Real64) -> (checked: Result<(), CalibrationError>)
    ensures
        fault_of(checked) == positive_fault(field@, value),
{
    let epsilon = Real64 { bits: VALIDATION_EPSILON };
    if value.le(epsilon) {
        Err(CalibrationError::ValueTooSmall { field: field.to_owned(), value, epsilon })
    } else {
        Ok(())
    }
}

fn expect_dimension(index: usize, field: &'static str, value: u32) -> (checked: Result<
    (),
    CalibrationError,
>)
    ensures
        fault_of(checked) == dimension_fault(index as nat, field@, value),
{
    if value == 0 {
        Err(CalibrationError::ZeroDimension { index, field, value })
    } else if value > MAX_DIM {
        Err(CalibrationError::DimensionTooLarge { index, field, value, max: MAX_DIM })
    } else {
        Ok(())
    }
}

fn lens_path(index: usize, name: &str) -> (path: String)
    ensures
        path@ == lens_field(index as nat, name@),
{
    let mut path: String = "lens[".to_owned();
    push_decimal(&mut path, index as u64);
    path.push_str("].");
    path.push_str(name);
    path
}

fn coefficient_path(index: usize, i: usize) -> (path: String)
    ensures
        path@ == coefficient_field(index as nat, i as nat),
{
    let mut name: String = "distortion[".to_owned();
    push_decimal(&mut name, i as u64);
    name.push_str("]");
    lens_path(index, name.as_str())
}

fn expect_focal(index: usize, name: &str, value: Real64) -> (checked: Result<(), CalibrationError>)
    ensures
        fault_of(checked) == or(
            finite_fault(lens_field(index as nat, name@), value),
            positive_fault(lens_field(index as nat, name@), value),
        ),
{
    let field = lens_path(index, name);
    let finite = expect_finite(field.as_str(), value);
    if finite.is_err() {
        return finite;
    }
    expect_positive(field.as_str(), value)
}

fn expect_distortion(index: usize, coefficients: &[Real64; 4]) -> (checked: Result<
    (),
    CalibrationError,
>)
    ensures
        fault_of(checked) == distortion_fault(index as nat, coefficients@, 0),
{
    let mut i: usize = 0;
    while i < 4
        invariant
            i <= 4,
            distortion_fault(index as nat, coefficients@, 0) == distortion_fault(
                index as nat,
                coefficients@,
                i as nat,
            ),
        decreases 4 - i,
    {
        let checked = expect_finite(coefficient_path(index, i).as_str(), coefficients[i]);
        if checked.is_err() {
            return checked;
        }
        i = i + 1;
    }
    Ok(())
}

/// Check one lens, the `index`th of its document.
pub fn validate_lens(lens: &Lens, index: usize) -> (checked: Result<(), CalibrationError>)
    ensures
        fault_of(checked) == lens.fault(index as nat),
{
    let width = expect_dimension(index, "width", lens.width);
    if width.is_err() {
        return width;
    }
    let height = expect_dimension(index, "height", lens.height);
    if height.is_err() {
        return height;
    }
    let fx = expect_focal(index, "fx", lens.fx);
    if fx.is_err() {
        return fx;
    }
    let fy = expect_focal(index, "fy", lens.fy);
    if fy.is_err() {
        return fy;
    }
    let cx = expect_finite(lens_path(index, "cx").as_str(), lens.cx);
    if cx.is_err() {
        return cx;
    }
    let cy = expect_finite(lens_path(index, "cy").as_str(), lens.cy);
    if cy.is_err() {
        return cy;
    }
    let distortion = expect_distortion(index, &lens.distortion);
    if distortion.is_err() {
        return distortion;
    }
    let correction = lens_path(index, "correction");
    let amount = lens.correction.widen();
    let finite = expect_finite(correction.as_str(), amount);
    if finite.is_err() {
        return finite;
    }
    expect_in_range(correction.as_str(), amount, whole(0), whole(1))
}

/// Version a document has that does not say otherwise.
pub fn default_schema_version() -> (version: u32)
    ensures
        version == SCHEMA_VERSION,
{
    SCHEMA_VERSION
}

impl LShape {
    /// The first parameter at fault, the framing's distance included: the
    /// planes are built around it.
    pub open spec fn fault(&self, framing: &Framing) -> Option<Fault> {
        or(
            finite_fault("topology.intersect"@, self.intersect),
            or(
                range_fault("topology.intersect"@, self.intersect, number_of(0), number_of(1)),
                or(
                    finite_fault("topology.x_ty"@, self.x_ty),
                    or(
                        finite_fault("topology.x_rz"@, self.x_rz),
                        or(
                            finite_fault("topology.z_rx"@, self.z_rx),
                            or(
                                finite_fault("topology.x_rx"@, self.x_rx),
                                or(
                                    finite_fault("topology.z_rz"@, self.z_rz),
                                    or(
                                        finite_fault(
                                            "topology.blend_width"@,
                                            self.blend_width.widened(),
                                        ),
                                        positive_fault(
                                            "framing.axis_offset"@,
                                            framing.axis_offset,
                                        ),
                                    ),
                                ),
                            ),
                        ),
                    ),
                ),
            ),
        )
    }

    /// Check the parameters and what they ask of the framing.
    pub fn validate(&self, framing: &Framing) -> (checked: Result<(), CalibrationError>)
        ensures
            fault_of(checked) == self.fault(framing),
    {
        let intersect = expect_finite("topology.intersect", self.intersect);
        if intersect.is_err() {
            return intersect;
        }
        let share = expect_in_range("topology.intersect", self.intersect, whole(0), whole(1));
        if share.is_err() {
            return share;
        }
        let x_ty = expect_finite("topology.x_ty", self.x_ty);
        if x_ty.is_err() {
            return x_ty;
        }
        let x_rz = expect_finite("topology.x_rz", self.x_rz);
        if x_rz.is_err() {
            return x_rz;
        }
        let z_rx = expect_finite("topology.z_rx", self.z_rx);
        if z_rx.is_err() {
            return z_rx;
        }
        let x_rx = expect_finite("topology.x_rx", self.x_rx);
        if x_rx.is_err() {
            return x_rx;
        }
        let z_rz = expect_finite("topology.z_rz", self.z_rz);
        if z_rz.is_err() {
            return z_rz;
        }
        let blend = expect_finite("topology.blend_width", self.blend_width.widen());
        if blend.is_err() {
            return blend;
        }
        expect_positive("framing.axis_offset", framing.axis_offset)
    }
}

impl Cylinder {
    /// The first parameter at fault.
    pub open spec fn fault(&self) -> Option<Fault> {
        or(
            finite_fault("topology.focal_length"@, self.focal_length),
            or(
                positive_fault("topology.focal_length"@, self.focal_length),
                or(
                    finite_fault("topology.sweep_deg"@, self.sweep_deg),
                    or(
                        range_fault(
                            "topology.sweep_deg"@,
                            self.sweep_deg,
                            number_of(0),
                            number_of(crate::projection::FULL_TURN as nat),
                        ),
                        or(
                            positive_fault("topology.sweep_deg"@, self.sweep_deg),
                            match self.video_height {
                                Some(height) => finite_fault("topology.video_height"@, height),
                                None => None,
                            },
                        ),
                    ),
                ),
            ),
        )
    }

    /// Check the parameters.
    pub fn validate(&self) -> (checked: Result<(), CalibrationError>)
        ensures
            fault_of(checked) == self.fault(),
    {
        let finite_focal = expect_finite("topology.focal_length", self.focal_length);
        if finite_focal.is_err() {
            return finite_focal;
        }
        let focal = expect_positive("topology.focal_length", self.focal_length);
        if focal.is_err() {
            return focal;
        }
        let finite_sweep = expect_finite("topology.sweep_deg", self.sweep_deg);
        if finite_sweep.is_err() {
            return finite_sweep;
        }
        let sweep = expect_in_range(
            "topology.sweep_deg",
            self.sweep_deg,
            whole(0),
            whole(crate::projection::FULL_TURN),
        );
        if sweep.is_err() {
            return sweep;
        }
        let positive_sweep = expect_positive("topology.sweep_deg", self.sweep_deg);
        if positive_sweep.is_err() {
            return positive_sweep;
        }
        match self.video_height {
            Some(height) => expect_finite("topology.video_height", height),
            None => Ok(()),
        }
    }
}

impl Topology {
    /// The projection these parameters describe.
    pub open spec fn shape(self) -> Projection {
        match self {
            Topology::LShape(_) => Projection::LShape,
            Topology::Cylinder(_) => Projection::Cylinder,
        }
    }

    /// The two-plane parameters, if this is the two-plane rig.
    pub fn l_shape(&self) -> (shape: Option<&LShape>)
        ensures
            shape == (match *self {
                Topology::LShape(t) => Some(&t),
                Topology::Cylinder(_) => None,
            }),
    {
        match self {
            Topology::LShape(t) => Some(t),
            Topology::Cylinder(_) => None,
        }
    }

    /// Mutable [`Self::l_shape`].
    pub fn l_shape_mut(&mut self) -> (shape: Option<&mut LShape>)
        ensures
            match (*old(self), shape) {
                (Topology::LShape(t), Some(inner)) => *inner == t && *final(self)
                    == Topology::LShape(*final(inner)),
                (Topology::Cylinder(_), None) => *final(self) == *old(self),
                _ => false,
            },
    {
        match self {
            Topology::LShape(t) => Some(t),
            Topology::Cylinder(_) => None,
        }
    }

    /// The cylinder parameters, if this is the cylinder.
    pub fn cylinder(&self) -> (shape: Option<&Cylinder>)
        ensures
            shape == (match *self {
                Topology::LShape(_) => None,
                Topology::Cylinder(t) => Some(&t),
            }),
    {
        match self {
            Topology::LShape(_) => None,
            Topology::Cylinder(t) => Some(t),
        }
    }

    /// The projection these parameters describe.
    pub fn projection(&self) -> (projection: Projection)
        ensures
            projection == self.shape(),
    {
        match self {
            Topology::LShape(_) => Projection::LShape,
            Topology::Cylinder(_) => Projection::Cylinder,
        }
    }

    /// Number of cameras this topology consumes.
    pub fn camera_count(&self) -> (n: usize)
        ensures
            n == self.shape().cameras(),
    {
        self.projection().camera_count()
    }

    /// Width of the seam blend; zero for the cylinder, which has no seam.
    pub fn blend_width(&self) -> (width: Real32)
        ensures
            width == (match *self {
                Topology::LShape(t) => t.blend_width,
                Topology::Cylinder(_) => Real32 { bits: 0 },
            }),
    {
        match self {
            Topology::LShape(t) => t.blend_width,
            Topology::Cylinder(_) => Real32 { bits: 0 },
        }
    }
}

impl FromSpecImpl<LShape> for Topology {
    open spec fn obeys_from_spec() -> bool {
        true
    }

    open spec fn from_spec(t: LShape) -> Topology {
        Topology::LShape(t)
    }
}

impl From<LShape> for Topology {
    fn from(t: LShape) -> (topology: Topology) {
        Topology::LShape(t)
    }
}

impl FromSpecImpl<Cylinder> for Topology {
    open spec fn obeys_from_spec() -> bool {
        true
    }

    open spec fn from_spec(t: Cylinder) -> Topology {
        Topology::Cylinder(t)
    }
}

impl From<Cylinder> for Topology {
    fn from(t: Cylinder) -> (topology: Topology) {
        Topology::Cylinder(t)
    }
}

impl Framing {
    /// The first parameter at fault.
    pub open spec fn fault(&self) -> Option<Fault> {
        or(
            finite_fault("framing.axis_offset"@, self.axis_offset),
            or(
                finite_fault("framing.tilt"@, self.tilt),
                finite_fault("framing.roll"@, self.roll),
            ),
        )
    }
}

/// Check what every topology asks of the framing.
pub fn validate_framing(framing: &Framing) -> (checked: Result<(), CalibrationError>)
    ensures
        fault_of(checked) == framing.fault(),
{
    let offset = expect_finite("framing.axis_offset", framing.axis_offset);
    if offset.is_err() {
        return offset;
    }
    let tilt = expect_finite("framing.tilt", framing.tilt);
    if tilt.is_err() {
        return tilt;
    }
    expect_finite("framing.roll", framing.roll)
}

/// The first lens at fault, from the `i`th on.
pub open spec fn lenses_fault(lenses: Seq<Lens>, i: nat) -> Option<Fault>
    decreases lenses.len() - i,
{
    if i >= lenses.len() {
        None
    } else {
        or(lenses[i as int].fault(i), lenses_fault(lenses, i + 1))
    }
}

/// An offset beyond the limit in either direction is at fault.
pub open spec fn sync_fault(offset: i64) -> Option<Fault> {
    if -MAX_SYNC_OFFSET_FRAMES <= offset <= MAX_SYNC_OFFSET_FRAMES {
        None
    } else {
        Some(
            Fault::SyncOffsetOutOfRange {
                value: offset,
                min: (-MAX_SYNC_OFFSET_FRAMES) as i64,
                max: MAX_SYNC_OFFSET_FRAMES,
            },
        )
    }
}

impl Calibration {
    /// What is wrong with the number of lenses.
    pub open spec fn count_fault(&self) -> Option<Fault> {
        if self.lenses@.len() == 0 {
            Some(Fault::NoLenses)
        } else if self.lenses@.len() != self.topology.shape().cameras() {
            Some(
                Fault::LensCountMismatch {
                    topology: self.topology.shape().named(),
                    expected: self.topology.shape().cameras(),
                    found: self.lenses@.len(),
                },
            )
        } else {
            None
        }
    }

    /// What is wrong with the topology.
    pub open spec fn topology_fault(&self) -> Option<Fault> {
        match self.topology {
            Topology::LShape(t) => t.fault(&self.framing),
            Topology::Cylinder(t) => t.fault(),
        }
    }

    /// The first thing wrong with the calibration.
    pub open spec fn fault(&self) -> Option<Fault> {
        or(
            self.count_fault(),
            or(
                lenses_fault(self.lenses@, 0),
                or(
                    self.topology_fault(),
                    or(self.framing.fault(), sync_fault(self.sync_offset)),
                ),
            ),
        )
    }

    /// A calibration of the current version, without offset or polygons.
    pub fn new(lenses: Vec<Lens>, topology: Topology, framing: Framing) -> (calibration: Self)
        ensures
            calibration.schema_version == SCHEMA_VERSION,
            calibration.lenses == lenses,
            calibration.topology == topology,
            calibration.framing == framing,
            calibration.sync_offset == 0,
            calibration.field_roi is None,
    {
        Calibration {
            schema_version: SCHEMA_VERSION,
            lenses,
            topology,
            framing,
            sync_offset: 0,
            field_roi: None,
        }
    }

    /// Check every parameter; the error names the first one at fault.
    pub fn validate(&self) -> (checked: Result<(), CalibrationError>)
        ensures
            fault_of(checked) == self.fault(),
    {
        if self.lenses.len() == 0 {
            return Err(CalibrationError::NoLenses);
        }
        if self.lenses.len() != self.topology.camera_count() {
            return Err(
                CalibrationError::LensCountMismatch {
                    topology: self.topology.projection().name(),
                    expected: self.topology.camera_count(),
                    found: self.lenses.len(),
                },
            );
        }
        let mut i: usize = 0;
        while i < self.lenses.len()
            invariant
                i <= self.lenses@.len(),
                self.count_fault() is None,
                lenses_fault(self.lenses@, 0) == lenses_fault(self.lenses@, i as nat),
            decreases self.lenses@.len() - i,
        {
            let lens = validate_lens(&self.lenses[i], i);
            if lens.is_err() {
                return lens;
            }
            i = i + 1;
        }
        let topology = match &self.topology {
            Topology::LShape(t) => t.validate(&self.framing),
            Topology::Cylinder(t) => t.validate(),
        };
        if topology.is_err() {
            return topology;
        }
        let framing = validate_framing(&self.framing);
        if framing.is_err() {
            return framing;
        }
        if self.sync_offset < -MAX_SYNC_OFFSET_FRAMES || self.sync_offset
            > MAX_SYNC_OFFSET_FRAMES {
            return Err(
                CalibrationError::SyncOffsetOutOfRange {
                    value: self.sync_offset,
                    min: -MAX_SYNC_OFFSET_FRAMES,
                    max: MAX_SYNC_OFFSET_FRAMES,
                },
            );
        }
        Ok(())
    }
}

impl Fault {
    /// The numbers the message shows, in this order.
    pub open spec fn numbers(self) -> Seq<Real64> {
        match self {
            Fault::OutOfRange { value, min, max, .. } => seq![value, min, max],
            Fault::ValueTooSmall { value, epsilon, .. } => seq![value, epsilon],
            _ => seq![],
        }
    }

    /// The message, with `shown` in place of the numbers.
    pub open spec fn message(self, shown: Seq<Seq<char>>) -> Seq<char> {
        match self {
            Fault::OutOfRange { field, .. } => field + " must be in ["@ + shown[1] + ", "@
                + shown[2] + "], got "@ + shown[0],
            Fault::ZeroDimension { index, field, value } => "lens["@ + decimal(index) + "] "@
                + field + " must be > 0, got "@ + decimal(value as nat),
            Fault::DimensionTooLarge { index, field, value, max } => "lens["@ + decimal(index)
                + "] "@ + field + " exceeds the maximum of "@ + decimal(max as nat) + ", got "@
                + decimal(value as nat),
            Fault::NonFiniteFloat { field, value } => "field '"@ + field
                + "' must be finite, got "@ + value,
            Fault::ValueTooSmall { field, .. } => "field '"@ + field + "' must be > "@ + shown[1]
                + ", got "@ + shown[0],
            Fault::NoLenses => "calibration must have at least one lens"@,
            Fault::LensCountMismatch { topology, expected, found } => topology
                + " calibration needs exactly "@ + decimal(expected) + " lens(es), got "@
                + decimal(found),
            Fault::SyncOffsetOutOfRange { value, min, max } => "sync_offset must be in ["@
                + decimal_signed(min as int) + ", "@ + decimal_signed(max as int)
                + "] frames, got "@ + decimal_signed(value as int),
        }
    }
}

/// The texts as sequences.
pub open spec fn texts(strings: Seq<String>) -> Seq<Seq<char>> {
    strings.map_values(|s: String| s@)
}

impl CalibrationError {
    /// The numbers the message shows. The caller writes them out: value
    /// first, then the bounds.
    pub fn numbers(&self) -> (numbers: Vec<Real64>)
        ensures
            numbers@ == self@.numbers(),
    {
        let mut numbers: Vec<Real64> = Vec::new();
        match self {
            CalibrationError::OutOfRange { value, min, max, .. } => {
                numbers.push(*value);
                numbers.push(*min);
                numbers.push(*max);
            },
            CalibrationError::ValueTooSmall { value, epsilon, .. } => {
                numbers.push(*value);
                numbers.push(*epsilon);
            },
            _ => {},
        }
        assert(numbers@ =~= self@.numbers());
        numbers
    }

    /// The message, with `shown` in place of [`Self::numbers`].
    pub fn message(&self, shown: &Vec<String>) -> (text: String)
        requires
            shown@.len() == self@.numbers().len(),
        ensures
            text@ == self@.message(texts(shown@)),
    {
        let mut text: String = String::new();
        match self {
            CalibrationError::OutOfRange { field, .. } => {
                assert(shown@[0]@ == texts(shown@)[0]);
                assert(shown@[1]@ == texts(shown@)[1]);
                assert(shown@[2]@ == texts(shown@)[2]);
                text.push_str(field.as_str());
                text.push_str(" must be in [");
                text.push_str(shown[1].as_str());
                text.push_str(", ");
                text.push_str(shown[2].as_str());
                text.push_str("], got ");
                text.push_str(shown[0].as_str());
            },
            CalibrationError::ZeroDimension { index, field, value } => {
                text.push_str("lens[");
                push_decimal(&mut text, *index as u64);
                text.push_str("] ");
                text.push_str(field);
                text.push_str(" must be > 0, got ");
                push_decimal(&mut text, *value as u64);
            },
            CalibrationError::DimensionTooLarge { index, field, value, max } => {
                text.push_str("lens[");
                push_decimal(&mut text, *index as u64);
                text.push_str("] ");
                text.push_str(field);
                text.push_str(" exceeds the maximum of ");
                push_decimal(&mut text, *max as u64);
                text.push_str(", got ");
                push_decimal(&mut text, *value as u64);
            },
            CalibrationError::NonFiniteFloat { field, value } => {
                text.push_str("field '");
                text.push_str(field.as_str());
                text.push_str("' must be finite, got ");
                text.push_str(value.as_str());
            },
            CalibrationError::ValueTooSmall { field, .. } => {
                assert(shown@[0]@ == texts(shown@)[0]);
                assert(shown@[1]@ == texts(shown@)[1]);
                text.push_str("field '");
                text.push_str(field.as_str());
                text.push_str("' must be > ");
                text.push_str(shown[1].as_str());
                text.push_str(", got ");
                text.push_str(shown[0].as_str());
            },
            CalibrationError::NoLenses => {
                text.push_str("calibration must have at least one lens");
            },
            CalibrationError::LensCountMismatch { topology, expected, found } => {
                text.push_str(topology);
                text.push_str(" calibration needs exactly ");
                push_decimal(&mut text, *expected as u64);
                text.push_str(" lens(es), got ");
                push_decimal(&mut text, *found as u64);
            },
            CalibrationError::SyncOffsetOutOfRange { value, min, max } => {
                text.push_str("sync_offset must be in [");
                push_decimal_signed(&mut text, *min);
                text.push_str(", ");
                push_decimal_signed(&mut text, *max);
                text.push_str("] frames, got ");
                push_decimal_signed(&mut text, *value);
            },
        }
        assert(text@ =~= self@.message(texts(shown@)));
        text
    }
}

/// A lens without fault, in numbers.
pub open spec fn usable(lens: Lens) -> bool {
    &&& 0 < lens.width <= MAX_DIM
    &&& 0 < lens.height <= MAX_DIM
    &&& lens.fx.finite() && lens.fx.scaled() > 0
    &&& lens.fy.finite() && lens.fy.scaled() > 0
    &&& lens.cx.finite()
    &&& lens.cy.finite()
    &&& forall|i: int| 0 <= i < 4 ==> (#[trigger] lens.distortion@[i]).finite()
    &&& lens.correction.finite()
    &&& 0 <= lens.correction.scaled() <= vstd::arithmetic::power2::pow2(149)
}

proof fn lemma_positive(value: Real64)
    requires
        value.finite(),
        positive_fault(seq![], value) is None,
    ensures
        value.scaled() > 0,
{
    let zero = Real64 { bits: 0 };
    crate::number::law_double_order_is_numeric(value, zero);
    crate::number::lemma_zero();
}

proof fn lemma_unit(amount: Real32)
    requires
        amount.finite(),
        range_fault(seq![], amount.widened(), number_of(0), number_of(1)) is None,
    ensures
        0 <= amount.scaled() <= vstd::arithmetic::power2::pow2(149),
{
    crate::number::lemma_widened(amount);
    crate::projection::lemma_number_of(0);
    crate::projection::lemma_number_of(1);
    let wide = amount.widened();
    crate::number::law_double_order_is_numeric(number_of(0), wide);
    crate::number::law_double_order_is_numeric(wide, number_of(1));
    vstd::arithmetic::power2::lemma_pow2_adds(149, 925);
    vstd::arithmetic::power2::lemma_pow2_pos(925);
    let p = vstd::arithmetic::power2::pow2(925) as int;
    let q = vstd::arithmetic::power2::pow2(149) as int;
    let x = amount.scaled();
    assert(0 <= x <= q) by (nonlinear_arith)
        requires
            0 <= x * p <= q * p,
            0 < p,
    ;
}

proof fn lemma_distortion(index: nat, coefficients: Seq<Real64>, i: nat)
    requires
        distortion_fault(index, coefficients, i) is None,
    ensures
        forall|k: int| i <= k < coefficients.len() ==> (#[trigger] coefficients[k]).finite(),
    decreases coefficients.len() - i,
{
    if i < coefficients.len() {
        lemma_distortion(index, coefficients, i + 1);
    }
}

proof fn lemma_lenses(lenses: Seq<Lens>, i: nat)
    requires
        lenses_fault(lenses, i) is None,
    ensures
        forall|k: int| i <= k < lenses.len() ==> (#[trigger] lenses[k]).fault(k as nat) is None,
    decreases lenses.len() - i,
{
    if i < lenses.len() {
        lemma_lenses(lenses, i + 1);
    }
}

/// Validation lets through only what the geometry can be built from: as many
/// lenses as the topology consumes, dimensions within the limit, finite
/// numbers, divisors above zero, and corrections between none and full.
pub proof fn law_valid_calibration_is_usable(calibration: Calibration)
    requires
        calibration.fault() is None,
    ensures
        calibration.lenses@.len() == calibration.topology.shape().cameras(),
        forall|i: int|
            0 <= i < calibration.lenses@.len() ==> usable(#[trigger] calibration.lenses@[i]),
        calibration.framing.axis_offset.finite(),
        calibration.framing.tilt.finite(),
        calibration.framing.roll.finite(),
        calibration.topology is LShape ==> calibration.framing.axis_offset.scaled() > 0,
        -MAX_SYNC_OFFSET_FRAMES <= calibration.sync_offset <= MAX_SYNC_OFFSET_FRAMES,
{
    lemma_lenses(calibration.lenses@, 0);
    assert forall|i: int| 0 <= i < calibration.lenses@.len() implies usable(
        #[trigger] calibration.lenses@[i],
    ) by {
        let lens = calibration.lenses@[i];
        assert(lens.fault(i as nat) is None);
        lemma_positive(lens.fx);
        lemma_positive(lens.fy);
        lemma_distortion(i as nat, lens.distortion@, 0);
        crate::number::lemma_widened(lens.correction);
        lemma_unit(lens.correction);
    }
    if calibration.topology is LShape {
        lemma_positive(calibration.framing.axis_offset);
    }
}

} // verus!
