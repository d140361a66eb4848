//! What holds of the checks on a calibration, in terms of its numbers.

use crate::calibration::{
    Calibration, CalibrationError, Fault, Framing, Lens, Topology, dimension_fault,
    distortion_fault, fault_of, finite_fault, lens_field, lenses_fault, positive_fault,
    range_fault, sync_fault,
};
use crate::number::Real64;
use crate::projection::{Cylinder, LShape, Projection, is_number, lemma_number_of, number_of};
use crate::text::decimal;
use vstd::arithmetic::power2::{lemma_pow2_adds, lemma_pow2_pos, pow2};
use vstd::prelude::*;

verus! {

/// A number passes exactly if it is finite, and one that does not is told by its field.
pub proof fn law_only_finite_numbers_pass(field: Seq<char>, value: Real64)
    ensures
        finite_fault(field, value) is None <==> value.finite(),
        finite_fault(field, value) matches Some(f) ==> f is NonFiniteFloat
            && f->NonFiniteFloat_field == field,
{
}

/// A divisor passes exactly if it is more than a millionth, or no number at all. One that
/// does not is told by its field, with its value and the threshold.
pub proof fn law_only_divisors_above_the_threshold_pass(field: Seq<char>, value: Real64)
    ensures
        ({
            let epsilon = Real64 { bits: 0x3eb0_c6f7_a0b5_ed8d };
            &&& value.finite() ==> (positive_fault(field, value) is None <==> value.scaled()
                > epsilon.scaled())
            &&& positive_fault(field, value) matches Some(f) ==> f == (Fault::ValueTooSmall {
                field,
                value,
                epsilon,
            })
        }),
{
    let epsilon = Real64 { bits: 0x3eb0_c6f7_a0b5_ed8d };
    if value.finite() {
        crate::number::law_double_order_is_numeric(value, epsilon);
    }
}

/// A number passes exactly if it is no less than the least and no more than the largest. One
/// that does not is told by its field, with its value and its range.
pub proof fn law_only_numbers_in_range_pass(
    field: Seq<char>,
    value: Real64,
    min: Real64,
    max: Real64,
)
    requires
        min.finite(),
        max.finite(),
    ensures
        value.finite() ==> (range_fault(field, value, min, max) is None <==> min.scaled()
            <= value.scaled() <= max.scaled()),
        range_fault(field, value, min, max) matches Some(f) ==> f == (Fault::OutOfRange {
            field,
            value,
            min,
            max,
        }),
{
    if value.finite() {
        crate::number::law_double_order_is_numeric(min, value);
        crate::number::law_double_order_is_numeric(value, max);
    }
}

/// A width or height passes exactly if it is from 1 to 8192. One that does not is told by the
/// lens, its field and its value.
pub proof fn law_only_dimensions_within_the_limit_pass(index: nat, field: Seq<char>, value: u32)
    ensures
        dimension_fault(index, field, value) is None <==> 1 <= value <= 8192,
        value == 0 ==> dimension_fault(index, field, value) == Some(
            Fault::ZeroDimension { index, field, value: 0 },
        ),
        value > 8192 ==> dimension_fault(index, field, value) == Some(
            Fault::DimensionTooLarge { index, field, value, max: 8192 },
        ),
{
}

/// An offset passes exactly if it is no more than a hundred thousand frames either way.
pub proof fn law_only_realistic_offsets_pass(offset: i64)
    ensures
        sync_fault(offset) is None <==> -100_000 <= offset <= 100_000,
        sync_fault(offset) matches Some(f) ==> f == (Fault::SyncOffsetOutOfRange {
            value: offset,
            min: (-100_000) as i64,
            max: 100_000,
        }),
{
}

/// An error says what is wrong in the terms of the check that found it.
pub proof fn law_errors_say_what_is_wrong(error: CalibrationError)
    ensures
        fault_of(Err(error)) == Some(error@),
        fault_of(Ok(())) is None,
        error matches CalibrationError::OutOfRange { field, value, min, max } ==> error@ == (
        Fault::OutOfRange { field: field@, value, min, max }),
        error matches CalibrationError::ZeroDimension { index, field, value } ==> error@ == (
        Fault::ZeroDimension { index: index as nat, field: field@, value }),
        error matches CalibrationError::DimensionTooLarge { index, field, value, max } ==> error@
            == (Fault::DimensionTooLarge { index: index as nat, field: field@, value, max }),
        error matches CalibrationError::NonFiniteFloat { field, value } ==> error@ == (
        Fault::NonFiniteFloat { field: field@, value: value@ }),
        error matches CalibrationError::ValueTooSmall { field, value, epsilon } ==> error@ == (
        Fault::ValueTooSmall { field: field@, value, epsilon }),
        error is NoLenses ==> error@ is NoLenses,
        error matches CalibrationError::LensCountMismatch { topology, expected, found } ==> error@
            == (Fault::LensCountMismatch {
            topology: topology@,
            expected: expected as nat,
            found: found as nat,
        }),
        error matches CalibrationError::SyncOffsetOutOfRange { value, min, max } ==> error@ == (
        Fault::SyncOffsetOutOfRange { value, min, max }),
{
}

proof fn lemma_unit_range(field: Seq<char>, value: Real64, top: nat)
    requires
        value.finite(),
        top <= u32::MAX,
    ensures
        range_fault(field, value, number_of(0), number_of(top)) is None <==> 0 <= value.scaled()
            <= top * pow2(1074),
{
    lemma_number_of(0);
    lemma_number_of(top);
    law_only_numbers_in_range_pass(field, value, number_of(0), number_of(top));
    assert(0 * pow2(1074) == 0) by (nonlinear_arith);
}

proof fn lemma_all_coefficients(index: nat, coefficients: Seq<Real64>, i: nat)
    ensures
        distortion_fault(index, coefficients, i) is None <==> forall|k: int|
            i <= k < coefficients.len() ==> (#[trigger] coefficients[k]).finite(),
    decreases coefficients.len() - i,
{
    if i < coefficients.len() {
        lemma_all_coefficients(index, coefficients, i + 1);
    }
}

/// A lens is accepted exactly if its picture has a size within the limit, its focal lengths can
/// be divided by, its other numbers are finite, and its correction is from none to all.
pub proof fn law_lenses_are_accepted_exactly_if_usable(lens: Lens, index: nat)
    ensures
        ({
            let epsilon = Real64 { bits: 0x3eb0_c6f7_a0b5_ed8d };
            lens.fault(index) is None <==> {
                &&& 1 <= lens.width <= 8192
                &&& 1 <= lens.height <= 8192
                &&& lens.fx.finite() && lens.fx.scaled() > epsilon.scaled()
                &&& lens.fy.finite() && lens.fy.scaled() > epsilon.scaled()
                &&& lens.cx.finite()
                &&& lens.cy.finite()
                &&& forall|i: int|
                    0 <= i < lens.distortion@.len() ==> (#[trigger] lens.distortion@[i]).finite()
                &&& lens.correction.finite()
                &&& 0 <= lens.correction.scaled() <= pow2(149)
            }
        }),
{
    law_only_divisors_above_the_threshold_pass(lens_field(index, "fx"@), lens.fx);
    law_only_divisors_above_the_threshold_pass(lens_field(index, "fy"@), lens.fy);
    lemma_all_coefficients(index, lens.distortion@, 0);
    crate::number::lemma_widened(lens.correction);
    let amount = lens.correction.widened();
    if lens.correction.finite() {
        lemma_unit_range(lens_field(index, "correction"@), amount, 1);
        lemma_pow2_adds(149, 925);
        lemma_pow2_pos(925);
        let (p, q, x) = (pow2(925) as int, pow2(149) as int, lens.correction.scaled());
        assert(0 <= x * p <= q * p <==> 0 <= x <= q) by (nonlinear_arith)
            requires
                0 < p,
        ;
        assert(1 * pow2(1074) == pow2(1074)) by (nonlinear_arith);
    }
}

/// Of a lens the first thing wrong is told, in this order: width, height, the focal lengths, the
/// center, the coefficients, the correction; each under the lens's number and its own name.
pub proof fn law_lens_faults_are_told_in_order(lens: Lens, index: nat)
    ensures
        ({
            let size_fine = 1 <= lens.width <= 8192 && 1 <= lens.height <= 8192;
            let named = |name: Seq<char>| "lens["@ + decimal(index) + "]."@ + name;
            let fx = if lens.fx.finite() {
                positive_fault(named("fx"@), lens.fx)
            } else {
                finite_fault(named("fx"@), lens.fx)
            };
            let fy = if lens.fy.finite() {
                positive_fault(named("fy"@), lens.fy)
            } else {
                finite_fault(named("fy"@), lens.fy)
            };
            let cx = finite_fault(named("cx"@), lens.cx);
            let cy = finite_fault(named("cy"@), lens.cy);
            &&& !(1 <= lens.width <= 8192) ==> lens.fault(index) == dimension_fault(
                index,
                "width"@,
                lens.width,
            )
            &&& 1 <= lens.width <= 8192 && !(1 <= lens.height <= 8192) ==> lens.fault(index)
                == dimension_fault(index, "height"@, lens.height)
            &&& size_fine && fx is Some ==> lens.fault(index) == fx
            &&& size_fine && fx is None && fy is Some ==> lens.fault(index) == fy
            &&& size_fine && fx is None && fy is None && cx is Some ==> lens.fault(index) == cx
            &&& size_fine && fx is None && fy is None && cx is None && cy is Some ==> lens.fault(
                index,
            ) == cy
        }),
{
}

/// A rig of two planes is accepted exactly if its numbers are finite, its seam is from none to
/// all, and the offset of its axis can be divided by.
pub proof fn law_two_plane_rigs_are_accepted_exactly_if_usable(shape: LShape, framing: Framing)
    requires
        framing.axis_offset.finite(),
    ensures
        ({
            let epsilon = Real64 { bits: 0x3eb0_c6f7_a0b5_ed8d };
            shape.fault(&framing) is None <==> {
                &&& shape.intersect.finite() && 0 <= shape.intersect.scaled() <= pow2(1074)
                &&& shape.x_ty.finite()
                &&& shape.x_rz.finite()
                &&& shape.z_rx.finite()
                &&& shape.x_rx.finite()
                &&& shape.z_rz.finite()
                &&& shape.blend_width.finite()
                &&& framing.axis_offset.scaled() > epsilon.scaled()
            }
        }),
        shape.fault(&framing) matches Some(f) ==> (f is NonFiniteFloat || f is OutOfRange
            || f is ValueTooSmall),
        !shape.intersect.finite() ==> shape.fault(&framing) == finite_fault(
            "topology.intersect"@,
            shape.intersect,
        ),
{
    law_only_divisors_above_the_threshold_pass("framing.axis_offset"@, framing.axis_offset);
    crate::number::lemma_widened(shape.blend_width);
    if shape.intersect.finite() {
        lemma_unit_range("topology.intersect"@, shape.intersect, 1);
        assert(1 * pow2(1074) == pow2(1074)) by (nonlinear_arith);
    }
}

/// A cylinder is accepted exactly if its focal length can be divided by, it sweeps more than
/// nothing and no more than a full turn, and its height, if it has one, is finite.
pub proof fn law_cylinders_are_accepted_exactly_if_usable(shape: Cylinder)
    ensures
        ({
            let epsilon = Real64 { bits: 0x3eb0_c6f7_a0b5_ed8d };
            shape.fault() is None <==> {
                &&& shape.focal_length.finite() && shape.focal_length.scaled() > epsilon.scaled()
                &&& shape.sweep_deg.finite() && epsilon.scaled() < shape.sweep_deg.scaled() <= 360
                    * pow2(1074)
                &&& shape.video_height matches Some(height) ==> height.finite()
            }
        }),
{
    let epsilon = Real64 { bits: 0x3eb0_c6f7_a0b5_ed8d };
    law_only_divisors_above_the_threshold_pass("topology.focal_length"@, shape.focal_length);
    law_only_divisors_above_the_threshold_pass("topology.sweep_deg"@, shape.sweep_deg);
    if shape.sweep_deg.finite() {
        lemma_unit_range("topology.sweep_deg"@, shape.sweep_deg, 360);
        crate::number::law_double_order_is_numeric(Real64 { bits: 0 }, epsilon);
        crate::number::lemma_zero();
    }
}

/// A framing is accepted exactly if its numbers are finite; the first that is not is told.
pub proof fn law_framings_are_accepted_exactly_if_finite(framing: Framing)
    ensures
        framing.fault() is None <==> framing.axis_offset.finite() && framing.tilt.finite()
            && framing.roll.finite(),
        !framing.axis_offset.finite() ==> framing.fault() == finite_fault(
            "framing.axis_offset"@,
            framing.axis_offset,
        ),
        framing.axis_offset.finite() && !framing.tilt.finite() ==> framing.fault() == finite_fault(
            "framing.tilt"@,
            framing.tilt,
        ),
        framing.axis_offset.finite() && framing.tilt.finite() && !framing.roll.finite()
            ==> framing.fault() == finite_fault("framing.roll"@, framing.roll),
{
}

proof fn lemma_first_lens(lenses: Seq<Lens>, from: nat)
    ensures
        lenses_fault(lenses, from) is None <==> forall|k: int|
            from <= k < lenses.len() ==> (#[trigger] lenses[k]).fault(k as nat) is None,
        forall|i: int|
            from <= i < lenses.len() && (#[trigger] lenses[i]).fault(i as nat) is Some && (forall|
                k: int,
            |
                from <= k < i ==> (#[trigger] lenses[k]).fault(k as nat) is None) ==> lenses_fault(
                lenses,
                from,
            ) == lenses[i].fault(i as nat),
    decreases lenses.len() - from,
{
    if from < lenses.len() {
        lemma_first_lens(lenses, from + 1);
    }
}

/// A calibration is accepted exactly if it has as many lenses as its topology takes and each of
/// them, the topology, the framing and the offset between the feeds pass.
pub proof fn law_calibrations_are_accepted_exactly_if_all_parts_are(calibration: Calibration)
    ensures
        calibration.fault() is None <==> {
            &&& calibration.lenses@.len() == if calibration.topology is LShape {
                2nat
            } else {
                1
            }
            &&& forall|i: int|
                0 <= i < calibration.lenses@.len() ==> (#[trigger] calibration.lenses@[i]).fault(
                    i as nat,
                ) is None
            &&& match calibration.topology {
                Topology::LShape(t) => t.fault(&calibration.framing) is None,
                Topology::Cylinder(t) => t.fault() is None,
            }
            &&& calibration.framing.fault() is None
            &&& -100_000 <= calibration.sync_offset <= 100_000
        },
{
    lemma_first_lens(calibration.lenses@, 0);
}

/// Of a calibration the first thing wrong is told: the number of lenses before the lenses, an
/// earlier lens before a later one, those before the topology, that before the framing and that
/// before the offset.
pub proof fn law_calibration_faults_are_told_in_order(calibration: Calibration, i: int)
    requires
        0 <= i < calibration.lenses@.len(),
        forall|k: int|
            0 <= k < i ==> (#[trigger] calibration.lenses@[k]).fault(k as nat) is None,
    ensures
        ({
            let expected = if calibration.topology is LShape {
                2nat
            } else {
                1
            };
            let found = calibration.lenses@.len();
            let lens = calibration.lenses@[i].fault(i as nat);
            let shape = match calibration.topology {
                Topology::LShape(t) => t.fault(&calibration.framing),
                Topology::Cylinder(t) => t.fault(),
            };
            &&& found != expected ==> (calibration.fault() matches Some(f) && f is LensCountMismatch
                && f->LensCountMismatch_expected == expected && f->LensCountMismatch_found == found)
            &&& found == expected && lens is Some ==> calibration.fault() == lens
            &&& found == expected && i == found - 1 && lens is None && shape is Some
                ==> calibration.fault() == shape
            &&& found == expected && i == found - 1 && lens is None && shape is None
                && calibration.framing.fault() is Some ==> calibration.fault()
                == calibration.framing.fault()
            &&& found == expected && i == found - 1 && lens is None && shape is None
                && calibration.framing.fault() is None ==> calibration.fault() == sync_fault(
                calibration.sync_offset,
            )
        }),
{
    lemma_first_lens(calibration.lenses@, 0);
}

/// A calibration without lenses is told so before anything else.
pub proof fn law_missing_lenses_are_told_first(calibration: Calibration)
    requires
        calibration.lenses@.len() == 0,
    ensures
        calibration.fault() == Some(Fault::NoLenses),
{
}

/// A rig of two planes takes two cameras, a cylinder one; each is known by its own name.
pub proof fn law_topologies_take_their_cameras(topology: Topology)
    ensures
        topology is LShape ==> topology.shape() == Projection::LShape && topology.shape().cameras()
            == 2 && topology.shape().named() == "l-shape-stereo-2camera"@,
        topology is Cylinder ==> topology.shape() == Projection::Cylinder
            && topology.shape().cameras() == 1 && topology.shape().named()
            == "cylinder-mono-1camera"@,
{
}

/// A whole number is held as itself.
pub proof fn law_whole_numbers_are_held_as_themselves(n: nat)
    requires
        n <= u32::MAX,
    ensures
        is_number(number_of(n), n),
        number_of(n).scaled() == n * pow2(1074),
        !number_of(n).negative(),
{
    lemma_number_of(n);
}

} // verus!
