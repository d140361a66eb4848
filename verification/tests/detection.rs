//! Detectors and what they find.

use reco_core::detector::{
    CameraId, ChromaFormat, Detection, DetectorError, DetectorFrame, GpuNv12Frame, RawFrame,
    UnifiedDetector, gather, place_detections,
};
use reco_core::number::Real32;
use reco_core::pose::Pose;
use reco_core::time::Duration;

fn r32(value: f32) -> Real32 {
    Real32 { bits: value.to_bits() }
}

fn detection(camera: CameraId) -> Detection {
    Detection {
        camera,
        class_id: 0,
        confidence: r32(0.9),
        center_x: r32(0.5),
        center_y: r32(0.5),
        width: r32(0.1),
        height: r32(0.1),
    }
}

struct FakeDetector {
    labels: Vec<String>,
}

impl UnifiedDetector for FakeDetector {
    fn name(&self) -> &'static str {
        "fake-cpu-only"
    }

    fn detect(
        &mut self,
        camera: CameraId,
        frame: &DetectorFrame<'_>,
    ) -> Result<Vec<Detection>, DetectorError> {
        match frame {
            DetectorFrame::Cpu(_) => Ok(vec![detection(camera)]),
            _ => Err(DetectorError::UnsupportedFrameKind),
        }
    }

    fn class_names(&self) -> Option<&[String]> {
        Some(&self.labels)
    }
}

#[test]
fn unified_detector_accepts_cpu_frame() {
    let y = vec![0u8; 8];
    let u = vec![128u8; 2];
    let v = vec![128u8; 2];
    let raw = RawFrame {
        y: &y,
        chroma: ChromaFormat::Yuv420p { u: &u, v: &v },
        width: 4,
        height: 2,
    };
    let mut det: Box<dyn UnifiedDetector> = Box::new(FakeDetector {
        labels: vec!["ball".into()],
    });
    let out = det
        .detect(CameraId::Left, &DetectorFrame::Cpu(raw))
        .unwrap();
    assert_eq!(out.len(), 1);
    assert_eq!(out[0].camera, CameraId::Left);
}

#[test]
fn unified_detector_returns_error_on_unsupported_variant() {
    let mut det: Box<dyn UnifiedDetector> = Box::new(FakeDetector { labels: vec![] });
    let y = vec![0u8; 4];
    let u = vec![128u8; 1];
    let v = vec![128u8; 1];
    let raw = RawFrame {
        y: &y,
        chroma: ChromaFormat::Yuv420p { u: &u, v: &v },
        width: 2,
        height: 2,
    };
    assert!(det.detect(CameraId::Left, &DetectorFrame::Cpu(raw)).is_ok());
    let metal = DetectorFrame::Metal { cv_pixel_buffer: 1, width: 2, height: 2 };
    assert!(matches!(
        det.detect(CameraId::Left, &metal),
        Err(DetectorError::UnsupportedFrameKind)
    ));
}

#[test]
fn detector_error_is_clone_send_sync() {
    fn assert_clone_send_sync<T: Clone + Send + Sync>() {}
    assert_clone_send_sync::<DetectorError>();
}

#[test]
fn detector_frame_variant_name() {
    let y = vec![0u8; 4];
    let u = vec![128u8; 1];
    let v = vec![128u8; 1];
    let raw = RawFrame {
        y: &y,
        chroma: ChromaFormat::Yuv420p { u: &u, v: &v },
        width: 2,
        height: 2,
    };
    assert_eq!(DetectorFrame::Cpu(raw).variant_name(), "Cpu");
}

#[test]
fn every_kind_of_frame_has_a_name() {
    let cuda = DetectorFrame::Cuda(GpuNv12Frame {
        y_ptr: 1,
        uv_ptr: 2,
        y_pitch: 4,
        uv_pitch: 4,
        width: 4,
        height: 2,
        rotation: 0,
        is_10bit: false,
    });
    assert_eq!(cuda.variant_name(), "Cuda");
    assert_eq!(DetectorFrame::Rgba { data: &[], width: 0, height: 0 }.variant_name(), "Rgba");
    let metal = DetectorFrame::Metal { cv_pixel_buffer: 1, width: 2, height: 2 };
    assert_eq!(metal.variant_name(), "Metal");
    assert_eq!(CameraId::Left.label(), "L");
    assert_eq!(CameraId::Right.label(), "R");
}

#[test]
fn failed_answers_add_nothing() {
    let answers = vec![
        Ok(vec![detection(CameraId::Left)]),
        Err(DetectorError::Canceled),
        Ok(vec![detection(CameraId::Right), detection(CameraId::Right)]),
    ];
    let found = gather(&answers);
    assert_eq!(found.len(), 3);
    assert_eq!(found[1].camera, CameraId::Right);
}

#[test]
fn placed_detections_keep_their_boxes() {
    let found = vec![detection(CameraId::Left), detection(CameraId::Right)];
    let placed = place_detections(&found, &vec![None, Some(Pose::default())]);
    assert_eq!(placed[0].position, None);
    assert_eq!(placed[1].position, Some(Pose::default()));
    assert_eq!(placed[1].camera_center, (r32(0.5), r32(0.5)));
    assert_eq!(placed[1].camera_size, (r32(0.1), r32(0.1)));
}

#[test]
fn detector_errors_have_texts() {
    assert_eq!(
        DetectorError::InferenceFailed("nan".into()).message(),
        "inference failed: nan"
    );
    assert_eq!(
        DetectorError::Timeout { after: Duration::from_millis(1500) }.message(),
        "detector timed out after 1.5s"
    );
    assert_eq!(
        DetectorError::UnsupportedFrameKind.message(),
        "detector does not support this frame variant"
    );
    assert_eq!(DetectorError::Transport("down".into()).message(), "transport error: down");
    assert_eq!(DetectorError::Canceled.message(), "detection canceled");
}
