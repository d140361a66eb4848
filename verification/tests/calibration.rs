//! Calibration documents.

use reco_core::calibration::{
    Calibration, CalibrationError, FieldRoi, Framing, Lens, MAX_DIM, MAX_SYNC_OFFSET_FRAMES,
    SCHEMA_VERSION, Topology,
};
use reco_core::document::{CalibrationLoadError, accept, check_text, read_limit};
use reco_core::number::{Real32, Real64};
use reco_core::projection::{Cylinder, LShape};

fn r64(value: f64) -> Real64 {
    Real64 { bits: value.to_bits() }
}

fn r32(value: f32) -> Real32 {
    Real32 { bits: value.to_bits() }
}

fn valid_cal() -> Calibration {
    let lens = || Lens {
        width: 1920,
        height: 1080,
        fx: r64(960.0),
        fy: r64(960.0),
        cx: r64(960.0),
        cy: r64(540.0),
        distortion: [r64(-0.02), r64(0.004), r64(0.0), r64(0.0)],
        correction: r32(1.0),
    };
    Calibration {
        schema_version: SCHEMA_VERSION,
        lenses: vec![lens(), lens()],
        topology: Topology::LShape(LShape {
            intersect: r64(0.5),
            x_ty: r64(0.0),
            x_rz: r64(0.0),
            z_rx: r64(0.0),
            x_rx: r64(0.0),
            z_rz: r64(0.0),
            blend_width: r32(0.05),
        }),
        framing: Framing {
            axis_offset: r64(0.25),
            tilt: r64(0.0),
            roll: r64(0.0),
        },
        sync_offset: 0,
        field_roi: None,
    }
}

fn shown(error: &CalibrationError) -> String {
    let numbers = error.numbers().iter().map(|n| format!("{}", f64::from_bits(n.bits))).collect();
    error.message(&numbers)
}

fn json(cal: &Calibration, stray: bool) -> String {
    let number = |n: Real64| serde_json::Value::from(f64::from_bits(n.bits));
    let mut topology = serde_json::Map::new();
    topology.insert("type".into(), "l-shape".into());
    if let Some(shape) = cal.topology.l_shape() {
        let key = if stray { "xTy" } else { "x_ty" };
        topology.insert(key.into(), number(shape.x_ty));
        topology.insert("intersect".into(), number(shape.intersect));
    }
    let mut top = serde_json::Map::new();
    top.insert("schema_version".into(), cal.schema_version.into());
    top.insert("topology".into(), topology.into());
    serde_json::Value::from(top).to_string()
}

#[test]
fn valid_calibration_passes() {
    valid_cal().validate().unwrap();
}

#[test]
fn cylinder_lens_count_is_enforced() {
    let mut cal = valid_cal();
    cal.topology = Topology::Cylinder(Cylinder::default());
    assert!(
        matches!(
            cal.validate(),
            Err(CalibrationError::LensCountMismatch {
                expected: 1,
                found: 2,
                ..
            })
        ),
        "two lenses on a mono topology must be rejected"
    );
}

#[test]
fn cylinder_parameters_are_validated() {
    let bad = |f: fn(&mut Cylinder)| {
        let mut t = Cylinder::default();
        f(&mut t);
        let cal = Calibration::new(
            vec![Lens::flat(3840, 1080)],
            Topology::from(t),
            Framing {
                axis_offset: r64(0.0),
                tilt: r64(0.0),
                roll: r64(0.0),
            },
        );
        cal.validate()
    };
    assert!(bad(|t| t.focal_length = r64(0.0)).is_err());
    assert!(bad(|t| t.video_height = Some(r64(f64::NAN))).is_err());

    let msg = shown(&bad(|t| t.sweep_deg = r64(361.0)).unwrap_err());
    assert!(msg.contains("[0, 360]"), "{msg}");
    let msg = shown(&bad(|t| t.sweep_deg = r64(0.0)).unwrap_err());
    assert!(msg.contains("> 0.000001,"), "{msg}");
}

#[test]
fn rejects_zero_dimension() {
    let mut c = valid_cal();
    c.lenses[0].width = 0;
    assert!(matches!(
        c.validate(),
        Err(CalibrationError::ZeroDimension { .. })
    ));
}

#[test]
fn rejects_oversized_dimension() {
    let mut c = valid_cal();
    c.lenses[1].height = MAX_DIM + 1;
    assert!(matches!(
        c.validate(),
        Err(CalibrationError::DimensionTooLarge { .. })
    ));
}

#[test]
fn rejects_tiny_focal_length() {
    let mut c = valid_cal();
    c.lenses[0].fx = r64(0.0);
    assert!(matches!(
        c.validate(),
        Err(CalibrationError::ValueTooSmall { ref field, .. }) if field == "lens[0].fx"
    ));
}

#[test]
fn rejects_nonfinite() {
    let mut c = valid_cal();
    c.lenses[0].cx = r64(f64::NAN);
    assert!(matches!(
        c.validate(),
        Err(CalibrationError::NonFiniteFloat { .. })
    ));
}

#[test]
fn rejects_axis_offset_too_small() {
    let mut c = valid_cal();
    c.framing.axis_offset = r64(0.0);
    assert!(matches!(
        c.validate(),
        Err(CalibrationError::ValueTooSmall { ref field, .. }) if field == "framing.axis_offset"
    ));
}

#[test]
fn rejects_intersect_out_of_range() {
    let mut c = valid_cal();
    c.topology.l_shape_mut().unwrap().intersect = r64(1.5);
    assert!(matches!(
        c.validate(),
        Err(CalibrationError::OutOfRange { ref field, .. }) if field == "topology.intersect"
    ));
}

#[test]
fn rejects_no_lenses() {
    let mut c = valid_cal();
    c.lenses.clear();
    assert!(matches!(c.validate(), Err(CalibrationError::NoLenses)));
}

#[test]
fn rejects_one_lens_with_typed_error_not_panic() {
    let mut c = valid_cal();
    c.lenses.pop();
    assert!(matches!(
        c.validate(),
        Err(CalibrationError::LensCountMismatch { found: 1, .. })
    ));
}

#[test]
fn rejects_three_lenses() {
    let mut c = valid_cal();
    let extra = c.lenses[0];
    c.lenses.push(extra);
    assert!(matches!(
        c.validate(),
        Err(CalibrationError::LensCountMismatch { found: 3, .. })
    ));
}

#[test]
fn legacy_match_format_gives_clear_error() {
    let err = check_text(r#"{"left_uniforms":{"width":100},"params":{}}"#).unwrap_err();
    assert!(
        matches!(err, CalibrationLoadError::LegacyMatchFormat),
        "expected LegacyMatchFormat, got {err:?}"
    );
}

#[test]
fn stray_legacy_key_gives_clear_error() {
    let mut cal = valid_cal();
    cal.topology.l_shape_mut().unwrap().x_ty = r64(0.0048);
    check_text(&json(&cal, false)).unwrap();
    let err = check_text(&json(&cal, true)).unwrap_err();
    assert!(
        matches!(err, CalibrationLoadError::LegacyKey { ref key } if key == "xTy"),
        "expected LegacyKey(xTy), got {err:?}"
    );
}

#[test]
fn newer_schema_version_gives_clear_error() {
    let mut cal = valid_cal();
    cal.schema_version = 99;
    check_text(&json(&cal, false)).unwrap();
    let err = accept(cal).unwrap_err();
    assert!(
        matches!(
            err,
            CalibrationLoadError::UnsupportedSchemaVersion { found: 99 }
        ),
        "expected UnsupportedSchemaVersion, got {err:?}"
    );
}

#[test]
fn rejects_pathological_sync_offset() {
    let mut c = valid_cal();
    c.sync_offset = i64::MIN;
    assert!(matches!(
        c.validate(),
        Err(CalibrationError::SyncOffsetOutOfRange { .. })
    ));
}

#[test]
fn rejects_sync_offset_just_past_cap() {
    let mut c = valid_cal();
    c.sync_offset = MAX_SYNC_OFFSET_FRAMES + 1;
    assert!(matches!(
        c.validate(),
        Err(CalibrationError::SyncOffsetOutOfRange { .. })
    ));
}

#[test]
fn rejects_sync_offset_i64_max() {
    let mut c = valid_cal();
    c.sync_offset = i64::MAX;
    assert!(matches!(
        c.validate(),
        Err(CalibrationError::SyncOffsetOutOfRange { .. })
    ));
}

#[test]
fn accepts_sync_offset_at_range_bounds() {
    let mut c = valid_cal();
    c.sync_offset = MAX_SYNC_OFFSET_FRAMES;
    c.validate().unwrap();
    c.sync_offset = -MAX_SYNC_OFFSET_FRAMES;
    c.validate().unwrap();
}

#[test]
fn messages_name_the_field_and_the_bounds() {
    let mut c = valid_cal();
    c.topology.l_shape_mut().unwrap().intersect = r64(1.5);
    assert_eq!(shown(&c.validate().unwrap_err()), "topology.intersect must be in [0, 1], got 1.5");
    let mut c = valid_cal();
    c.lenses[1].height = 9000;
    let text = shown(&c.validate().unwrap_err());
    assert!(text.contains("9000") && text.contains("8192"), "{text}");
    let mut c = valid_cal();
    c.lenses[0].fy = r64(f64::INFINITY);
    let text = shown(&c.validate().unwrap_err());
    assert!(text.contains("lens[0].fy") && text.contains("inf"), "{text}");
}

#[test]
fn a_document_that_is_no_json_is_a_parse_error() {
    assert!(matches!(check_text("{"), Err(CalibrationLoadError::Parse(_))));
    check_text("[1, 2]").unwrap();
}

#[test]
fn keys_of_the_framing_at_the_top_are_rejected() {
    let err = check_text(r#"{"rig_tilt": 0.1, "topology": {"x_ty": 0.0}}"#).unwrap_err();
    assert!(matches!(err, CalibrationLoadError::LegacyKey { ref key } if key == "rig_tilt"));
}

#[test]
fn documents_over_the_limit_are_refused() {
    let text = " ".repeat(1_048_577);
    let err = check_text(&text).unwrap_err();
    assert!(matches!(err, CalibrationLoadError::TooLarge { size: 1_048_577, max: 1_048_576 }));
    assert_eq!(read_limit(), 1_048_577);
}

#[test]
fn an_accepted_calibration_is_valid_and_unchanged() {
    let mut cal = valid_cal();
    cal.field_roi = Some(FieldRoi {
        left: vec![[r64(0.49), r64(0.90)]],
        right: vec![[r64(0.63), r64(0.85)]],
    });
    let accepted = accept(cal).unwrap();
    assert_eq!(accepted.lenses.len(), 2);
    assert_eq!(accepted.topology.camera_count(), 2);
    assert_eq!(accepted.field_roi.unwrap().right[0][1], r64(0.85));
    let mut bad = valid_cal();
    bad.lenses.clear();
    assert!(matches!(accept(bad), Err(CalibrationLoadError::Invalid(CalibrationError::NoLenses))));
}

#[test]
fn flat_lenses_and_fresh_cylinders_are_valid() {
    let cal = Calibration::new(
        vec![Lens::flat(3840, 1080)],
        Topology::from(Cylinder::default()),
        Framing { axis_offset: r64(0.0), tilt: r64(0.0), roll: r64(0.0) },
    );
    cal.validate().unwrap();
    let t = cal.topology.cylinder().unwrap();
    assert_eq!(f64::from_bits(t.focal_length.bits), 2400.0);
    assert_eq!(f64::from_bits(t.sweep_deg.bits), 180.0);
    assert_eq!(cal.topology.camera_count(), 1);
    assert_eq!(cal.topology.blend_width(), r32(0.0));
}

#[test]
fn load_errors_have_texts() {
    let text = |e: CalibrationLoadError| {
        let shown = e.numbers().iter().map(|n| f64::from_bits(n.bits).to_string()).collect();
        e.message(&shown)
    };
    assert_eq!(
        text(CalibrationLoadError::Io { path: "a.json".into(), reason: "gone".into() }),
        "cannot read calibration file 'a.json': gone"
    );
    assert_eq!(
        text(CalibrationLoadError::TooLarge { size: 2_000_000, max: 1_048_576 }),
        "calibration file too large (2000000 bytes, max 1048576)"
    );
    assert_eq!(
        text(CalibrationLoadError::LegacyMatchFormat),
        "legacy 'match' format calibration is no longer supported; \
         re-run `reco calibrate` to produce a current calibration file"
    );
    assert_eq!(
        text(CalibrationLoadError::LegacyKey { key: "xTy".into() }),
        "calibration contains the legacy key 'xTy', which the current \
         schema would silently ignore; rename it to its snake_case \
         equivalent or re-run `reco calibrate`"
    );
    assert_eq!(
        text(CalibrationLoadError::UnsupportedSchemaVersion { found: 2 }),
        "calibration schema version 2 is newer than this reco \
         supports (1); upgrade reco or re-run `reco calibrate`"
    );
    assert_eq!(
        text(CalibrationLoadError::Invalid(CalibrationError::OutOfRange {
            field: "topology.intersect".into(),
            value: r64(1.5),
            min: r64(0.0),
            max: r64(1.0),
        })),
        "topology.intersect must be in [0, 1], got 1.5"
    );
    let broken = check_text("{ \"lenses\": ").unwrap_err();
    let expected = serde_json::from_str::<serde_json::Value>("{ \"lenses\": ").unwrap_err();
    assert_eq!(text(broken), format!("invalid calibration JSON: {expected}"));
}
