//! Pictures: encoding, conversion, exposure, grading, resampling.

use reco_core::bayer::{
    AeController, AwbController, BayerDemosaic, IspParams, Schedule, compute_awb,
    compute_mean_brightness, exposure_command,
};
use reco_core::diffusion::{Buffer, GpuDiffusion, Pass, separable_params, upload_bytes};
use reco_core::encode::{
    AsyncEncodeThread, EncodeError, EncodeJob, EncodeStep, Encoder, OutputFrame, PixelFormat,
    SendOutcome, encode_next, output_frame,
};
use reco_core::gpu::{
    Backend, ColorGradeParams, ColorGradePass, GpuError, Host, backend_for, backend_named,
    select_backends,
};
use reco_core::grid::{align_up, div_ceil};
use reco_core::lens::{Corners, Tap, bilinear_corners, undistort_gray};
use reco_core::lens_preview::{
    LensPreviewRenderer, quad_vertices, texture_layout, uniform_layout, vertex_bytes,
};
use reco_core::number::{Real32, Real64};
use reco_core::nv12::{
    MapReport, Nv12Converter, Nv12Downscaler, Nv12Error, ReadbackStage, readback_step,
};
use reco_core::planes::YuvPlanes;
use reco_core::pose::{Pose, clamp_fov};
use reco_core::projection::{Cylinder, Projection};
use reco_core::resources::{BindingKind, BufferUse, Stages, TexelFormat, TextureUse};
use reco_core::ring::ReadbackRing;
use reco_core::text::{has_part, push_decimal, push_decimal_signed, push_hex_fixed, push_hexadecimal};
use reco_core::time::Duration;

fn r32(value: f32) -> Real32 {
    Real32 { bits: value.to_bits() }
}

fn r64(value: f64) -> Real64 {
    Real64 { bits: value.to_bits() }
}

struct NoopEncoder;

impl Encoder for NoopEncoder {
    fn submit(&mut self, _f: OutputFrame<'_>) -> Result<(), EncodeError> {
        Ok(())
    }
    fn finish(&mut self) -> Result<(), EncodeError> {
        Ok(())
    }
}

#[test]
fn counts_encoded_frames() {
    let mut encoder = NoopEncoder;
    let mut t = AsyncEncodeThread::new(16, 16, 2);
    let data = vec![0u8; 16 * 16 * 3 / 2];
    for i in 0..8 {
        let job = t.submit(&data, i).unwrap();
        t.sent(SendOutcome::Sent).unwrap();
        let result = encoder.submit(output_frame(&job, 16, 16));
        t.encoded(result, 1000, job.data).unwrap();
    }
    t.finish(Some(encoder.finish())).unwrap();
    let stats = t.stats();
    let avg_ms = stats.encode_busy_ns as f64 / stats.frames_encoded as f64 / 1e6;
    assert_eq!(stats.frames_encoded, 8);
    assert!(avg_ms.is_finite() && avg_ms >= 0.0);
}

/// Remembers what it was given; fails on one frame.
struct Keeper {
    frames: Vec<(Vec<u8>, i64, u32, u32, PixelFormat)>,
    finished: Vec<usize>,
    fail_on: usize,
}

impl Encoder for Keeper {
    fn submit(&mut self, f: OutputFrame<'_>) -> Result<(), EncodeError> {
        if self.frames.len() == self.fail_on {
            return Err(EncodeError::Frame { frame_index: None, reason: "full".into() });
        }
        self.frames.push((f.data.to_vec(), f.pts_us, f.width, f.height, f.format));
        Ok(())
    }
    fn finish(&mut self) -> Result<(), EncodeError> {
        self.finished.push(self.frames.len());
        Ok(())
    }
}

#[test]
fn accepted_frames_are_encoded_in_order() {
    let mut encoder = Keeper { frames: Vec::new(), finished: Vec::new(), fail_on: 99 };
    let mut t = AsyncEncodeThread::new(2, 2, 1);
    let mut waiting = Vec::new();
    let mut encode = |t: &mut AsyncEncodeThread, job: Option<EncodeJob>| {
        match encode_next(&mut encoder, job, 2, 2) {
            EncodeStep::Encoded { data } => {
                t.encoded(Ok(()), 1, data).unwrap();
                None
            }
            EncodeStep::Ended(result) => Some(result),
        }
    };
    for k in 0..5u8 {
        waiting.push(t.submit(&[k; 6], 10 * k as i64).unwrap());
        if k % 2 == 1 {
            t.sent(SendOutcome::Waited { taken: true, stall_ns: 7 }).unwrap();
            let job = waiting.remove(0);
            assert!(encode(&mut t, Some(job)).is_none());
        }
    }
    for job in waiting {
        assert!(encode(&mut t, Some(job)).is_none());
    }
    let joined = encode(&mut t, None);
    assert!(joined.is_some());
    t.finish(joined).unwrap();
    let expected: Vec<_> =
        (0..5u8).map(|k| (vec![k; 6], 10 * k as i64, 2, 2, PixelFormat::Nv12)).collect();
    assert_eq!(encoder.frames, expected);
    assert_eq!(encoder.finished, vec![5], "once, after the last frame");
    assert_eq!((t.stats().frames_encoded, t.stats().backpressure_count), (5, 2));
    assert!(t.submit(&[9; 6], 99).is_err());
}

#[test]
fn a_frame_that_fails_ends_the_encoding() {
    let mut encoder = Keeper { frames: Vec::new(), finished: Vec::new(), fail_on: 2 };
    let mut t = AsyncEncodeThread::new(2, 2, 4);
    let jobs: Vec<_> = (0..4u8).map(|k| t.submit(&[k; 6], k as i64).unwrap()).collect();
    let mut joined = None;
    for job in jobs {
        match encode_next(&mut encoder, Some(job), 2, 2) {
            EncodeStep::Encoded { data } => t.encoded(Ok(()), 1, data).unwrap(),
            EncodeStep::Ended(result) => {
                joined = Some(result);
                break;
            }
        }
    }
    let shown: Vec<i64> = encoder.frames.iter().map(|f| f.1).collect();
    assert_eq!(shown, vec![0, 1]);
    assert!(encoder.finished.is_empty(), "the output is not completed");
    assert_eq!(
        t.finish(joined).unwrap_err().message(),
        "frame encoding failed (frame None): full"
    );
    assert_eq!(t.stats().frames_encoded, 2);
    assert!(t.submit(&[9; 6], 9).is_err());
}

#[test]
fn buffers_of_the_encoder_are_reused() {
    let mut t = AsyncEncodeThread::new(4, 2, 2);
    let before = t.pool.len();
    let job = t.submit(&[1, 2, 3, 4, 5, 6, 7, 8, 9, 10, 11, 12], 7).unwrap();
    assert_eq!(job.data, vec![1, 2, 3, 4, 5, 6, 7, 8, 9, 10, 11, 12]);
    assert_eq!((job.pts_us, t.pool.len()), (7, before - 1));
    let frame = output_frame(&job, 4, 2);
    assert_eq!((frame.width, frame.height, frame.format), (4, 2, PixelFormat::Nv12));
    t.encoded(Ok(()), 5, job.data).unwrap();
    assert_eq!(t.pool.len(), before);
    t.sent(SendOutcome::Waited { taken: true, stall_ns: 30 }).unwrap();
    assert_eq!((t.stats().backpressure_count, t.stats().backpressure_ns), (1, 30));
}

#[test]
fn a_dead_encoder_is_reported() {
    let mut t = AsyncEncodeThread::new(4, 2, 2);
    let error = EncodeError::Frame { frame_index: Some(3), reason: "bad".into() };
    assert_eq!(
        t.encoded(Err(error), 0, Vec::new()).unwrap_err().message(),
        "frame encoding failed (frame Some(3)): bad"
    );
    assert_eq!(
        t.sent(SendOutcome::Disconnected).unwrap_err().message(),
        "frame encoding failed (frame None): encode thread died"
    );
    assert_eq!(
        t.finish(None).unwrap_err().message(),
        "finalization failed: encode thread panicked"
    );
    assert_eq!(
        t.submit(&[], 0).unwrap_err().message(),
        "frame encoding failed (frame None): encoder already finished"
    );
    assert!(t.finish(None).is_ok(), "a finished encoder finishes again");
    assert_eq!(
        EncodeError::Init { reason: "no codec".into() }.message(),
        "encoder initialization failed: no codec"
    );
}

fn raw_picture(width: usize, height: usize, value: u16) -> Vec<u8> {
    value.to_le_bytes().repeat(width * height)
}

#[test]
fn brightness_is_summed_over_a_grid() {
    let raw = raw_picture(8, 8, 1000);
    let tally = compute_mean_brightness(&raw, 8, 8, 4);
    assert_eq!((tally.count, tally.sum), (4, 4 * (1000 / 64)));
    let tally = compute_mean_brightness(&raw, 8, 8, 3);
    assert_eq!(tally.count, 5, "of nine positions five are green");
    assert_eq!(compute_mean_brightness(&[], 8, 8, 4).count, 0);
}

#[test]
fn brightness_is_that_of_green_pixels() {
    let mut raw = raw_picture(8, 8, 1000);
    let before = compute_mean_brightness(&raw, 8, 8, 2);
    raw[0] = 255;
    raw[2 * (8 + 1)] = 255;
    assert_eq!(compute_mean_brightness(&raw, 8, 8, 2), before);
    raw[3] = 255;
    assert_ne!(compute_mean_brightness(&raw, 8, 8, 2), before);
}

#[test]
fn brightness_at_an_odd_stride_is_green() {
    let raw = [0x80, 0x02, 0x00, 0x05].repeat(3);
    let tally = compute_mean_brightness(&raw, 6, 1, 3);
    assert_eq!((tally.count, tally.sum), (1, 20));
    let tally = compute_mean_brightness(&raw, 6, 1, 1);
    assert_eq!((tally.count, tally.sum), (3, 60));
}

fn mosaic(width: usize, height: usize, r: u16, g: u16, b: u16) -> Vec<u8> {
    let mut raw = Vec::new();
    for y in 0..height {
        for x in 0..width {
            let value = match (x % 2, y % 2) {
                (0, 0) => r,
                (1, 1) => b,
                _ => g,
            };
            raw.extend_from_slice(&value.to_le_bytes());
        }
    }
    raw
}

#[test]
fn white_balance_sees_every_color() {
    for (width, height) in [(2, 2), (4, 4), (5, 3), (17, 16)] {
        let raw = mosaic(width, height, 100, 200, 50);
        for stride in 1..20 {
            let seen = compute_awb(&raw, width as u32, height as u32, stride);
            let within = (stride as usize) < width.min(height);
            assert_eq!(seen.is_some(), stride % 2 == 0 || within);
            if let Some(seen) = seen {
                assert_eq!(seen.r.sum, 100 * seen.r.count);
                assert_eq!(seen.g.sum, 200 * seen.g.count);
                assert_eq!(seen.b.sum, 50 * seen.b.count);
            }
        }
    }
    let seen = compute_awb(&mosaic(4, 4, 100, 200, 50), 4, 4, 2).unwrap();
    assert_eq!((seen.r.count, seen.g.count, seen.b.count), (4, 8, 4));
    assert_eq!(seen.g.sum * seen.r.count, 2 * seen.r.sum * seen.g.count, "red is doubled");
    assert_eq!(seen.g.sum * seen.b.count, 4 * seen.b.sum * seen.g.count, "blue is quadrupled");
}

#[test]
fn white_balance_takes_single_pixels_at_odd_strides() {
    let raw: Vec<u8> = (0..16u16).flat_map(|v| v.to_le_bytes()).collect();
    let seen = compute_awb(&raw, 4, 4, 3).unwrap();
    assert_eq!((seen.r.count, seen.r.sum), (1, 0));
    assert_eq!((seen.g.count, seen.g.sum), (2, 3 + 12));
    assert_eq!((seen.b.count, seen.b.sum), (1, 15));
}

#[test]
fn white_balance_counts_each_pixel_once() {
    let raw: Vec<u8> = (0..15u16).flat_map(|v| v.to_le_bytes()).collect();
    let seen = compute_awb(&raw, 5, 3, 1).unwrap();
    assert_eq!((seen.r.count, seen.r.sum), (6, 0 + 2 + 4 + 10 + 12 + 14));
    assert_eq!((seen.g.count, seen.g.sum), (7, 1 + 3 + 5 + 7 + 9 + 11 + 13));
    assert_eq!((seen.b.count, seen.b.sum), (2, 6 + 8));
    assert_eq!(compute_awb(&raw, 5, 3, 2), Some(seen));
    assert_eq!(compute_awb(&raw, 15, 1, 1), None, "one row holds no blue");
}

#[test]
fn controllers_look_every_so_often() {
    let mut s = Schedule::new(3);
    let due: Vec<bool> = (0..6).map(|_| s.tick()).collect();
    assert_eq!(due.iter().filter(|d| **d).count(), 2);
    let raw = raw_picture(32, 32, 6400);
    let mut awb = AwbController::new(2);
    let looks: Vec<bool> = (0..4).map(|_| awb.update(&raw, 32, 32).is_some()).collect();
    assert_eq!(looks.iter().filter(|l| **l).count(), 2);
    let mut ae = AeController::new(vec!["/dev/v4l-subdev0".into(), "/dev/v4l-subdev1".into()], 1);
    let tally = ae.update(&raw, 32, 32).unwrap();
    assert_eq!((tally.count, tally.sum), (4, 400));
    let commands = ae.commands(500, 16);
    assert_eq!(commands.len(), 2);
    assert_eq!(commands[1], exposure_command("/dev/v4l-subdev1", 500, 16));
    assert_eq!(
        commands[0],
        vec![
            "-d",
            "/dev/v4l-subdev0",
            "--set-ctrl",
            "override_enable=1,exposure=500,gain=16",
        ]
    );
}

#[test]
fn sensor_settings_are_laid_out_for_the_shader() {
    let p = IspParams::imx477_default(4032, 3040);
    let bytes = p.bytes();
    assert_eq!(bytes.len() % 16, 0);
    assert_eq!(bytes[0..4], 4032u32.to_le_bytes());
    assert_eq!(bytes[4..8], 3040u32.to_le_bytes());
    assert_eq!(bytes[8..12], p.black_level.bits.to_le_bytes());
    assert_eq!(bytes[8..12], 64.0f32.to_le_bytes());
    assert_eq!(bytes[28..32], 400.0f32.to_le_bytes());
    assert_ne!(IspParams::imx477_indoor(4, 4).bytes(), IspParams::imx477_default(4, 4).bytes());
    let plan = BayerDemosaic::new(4, 2).encode_demosaic(&[0u8; 16]);
    assert_eq!((plan.bytes_per_row, plan.rows), (8, 2));
    assert_eq!((plan.dispatch_x, plan.dispatch_y), (1, 1));
}

#[test]
fn backends_are_named_in_any_case() {
    assert_eq!(select_backends(Some("VULKAN"), Host::Windows, false), Backend::Vulkan);
    assert_eq!(select_backends(Some("D3D12"), Host::Linux, false), Backend::Dx12);
    assert_eq!(select_backends(Some("Mtl"), Host::Linux, false), Backend::Metal);
    assert_eq!(select_backends(Some("OpenGL"), Host::Linux, false), Backend::Gl);
    assert_eq!(
        select_backends(Some("nonsense"), Host::Windows, false),
        select_backends(None, Host::Windows, false)
    );
    assert_eq!(backend_named("VULKAN"), None);
    assert_eq!(backend_for(None, Host::Apple, false), Backend::Metal);
    assert_eq!(backend_for(None, Host::Linux, true), Backend::Gl);
    assert_eq!(backend_for(None, Host::Linux, false), Backend::Vulkan);
    assert_eq!(Backend::Gl.backend_name(), "OpenGL");
    assert!(Backend::Vulkan.is_vulkan() && !Backend::Vulkan.is_metal());
    assert!(!Backend::Gl.supports_zero_copy(Host::Linux, true));
    assert_eq!(GpuError::NoAdapter.message(), "no compatible GPU adapter found");
    assert_eq!(
        GpuError::DeviceRequest("limits".into()).message(),
        "failed to request GPU device: limits"
    );
    assert_eq!(
        GpuError::AdapterRequest("none".into()).message(),
        "failed to request GPU adapter: none"
    );
}

#[test]
fn doubles_are_rounded_as_the_machine_rounds_them() {
    let check = |v: f64| {
        let narrow = f32::from_bits(r64(v).narrow().bits);
        assert_eq!(narrow.to_bits(), (v as f32).to_bits(), "{v:e}");
    };
    let one = 1.0f64.to_bits();
    let half = 1u64 << 28;
    for base in [one, one + (1 << 29), f64::MIN_POSITIVE.to_bits(), 1e-40f64.to_bits()] {
        for near in [0, 1, half - 1, half, half + 1, 3 * half, (1 << 29) - 1] {
            check(f64::from_bits(base + near));
            check(-f64::from_bits(base + near));
        }
    }
    // Around the largest single, the smallest, and everything between.
    let largest = f32::MAX as f64;
    let step = largest - f32::from_bits(f32::MAX.to_bits() - 1) as f64;
    for v in [largest, largest + step / 2.0, largest + step / 4.0, largest + step, f64::MAX] {
        check(v);
        check(-v);
        check(f64::from_bits(v.to_bits() - 1));
    }
    let least = f32::from_bits(1) as f64;
    for k in 0..20 {
        check(least * k as f64 / 4.0);
        check(f64::from_bits((least * k as f64 / 4.0).to_bits() + 1));
    }
    check(f64::from_bits(1));
    check(0.0);
    check(-0.0);
    check(f64::INFINITY);
    check(f64::NEG_INFINITY);
    assert!(f32::from_bits(r64(f64::NAN).narrow().bits).is_nan());
    let mut bits = 0x9e37_79b9_7f4a_7c15u64;
    for _ in 0..20_000 {
        bits = bits.wrapping_mul(6_364_136_223_846_793_005).wrapping_add(1_442_695_040_888_963_407);
        let exponent = 850 + (bits >> 33) % 320;
        let v = f64::from_bits((bits & 0x800f_ffff_ffff_ffff) | (exponent << 52));
        check(v);
        let single = v as f32;
        if single.is_finite() {
            assert_eq!(r32(single).widen().narrow(), r32(single));
        }
    }
}

#[test]
fn grades_near_one_are_skipped() {
    let identity = |v: f32| {
        ColorGradeParams { brightness: r32(v), saturation: r32(1.0), gamma: r32(1.0) }.is_identity()
    };
    let near = |v: f32| (v - 1.0).abs() < 1e-6;
    for steps in -40i32..40 {
        let v = f32::from_bits((1.0f32.to_bits() as i32 + steps) as u32);
        assert_eq!(identity(v), near(v), "{v}");
    }
    for v in [0.0, -1.0, 2.0, f32::NAN, f32::INFINITY] {
        assert!(!identity(v));
    }
    let mut pass = ColorGradePass::new(&ColorGradeParams::default());
    assert!(pass.is_identity());
    assert_eq!(pass.encode(1920, 1080), None);
    let warm = ColorGradeParams { brightness: r32(1.1), saturation: r32(1.0), gamma: r32(1.0) };
    pass.update_params(&warm);
    assert_eq!(pass.encode(1920, 1080), Some((120, 68)));
    assert_eq!(warm.bytes()[0..4], 1.1f32.to_le_bytes());
    assert_eq!(warm.bytes().len(), 16);
}

/// A fisheye lens as its five numbers and four coefficients.
struct Fisheye {
    fx: f64,
    fy: f64,
    cx: f64,
    cy: f64,
    d: [f64; 4],
}

fn forward_scale(r: f64, d: &[f64; 4]) -> f64 {
    if r < 1e-10 {
        return 1.0;
    }
    let theta = r.atan();
    let t2 = theta * theta;
    theta * (1.0 + d[0] * t2 + d[1] * t2 * t2 + d[2] * t2 * t2 * t2 + d[3] * t2 * t2 * t2 * t2) / r
}

/// Where each pixel of the straightened picture is looked up.
fn lookups(w: u32, h: u32, lens: &Fisheye) -> Vec<(f64, f64)> {
    let (out_fx, out_fy) = (lens.fx / 2.0, lens.fy / 2.0);
    let out_cx = (w as f64 + 2.0 * lens.cx) / 4.0;
    let out_cy = (h as f64 + 2.0 * lens.cy) / 4.0;
    let mut points = Vec::new();
    for oy in 0..h {
        for ox in 0..w {
            let x = (ox as f64 - out_cx) / out_fx;
            let y = (oy as f64 - out_cy) / out_fy;
            let s = forward_scale((x * x + y * y).sqrt(), &lens.d);
            points.push((lens.fx * x * s + lens.cx, lens.fy * y * s + lens.cy));
        }
    }
    points
}

fn blend(corners: Option<Corners>, x: f64, y: f64) -> u8 {
    match corners {
        None => 0,
        Some(c) => {
            let (fx, fy) = (x - x.floor(), y - y.floor());
            let v = c.p00 as f64 * (1.0 - fx) * (1.0 - fy)
                + c.p10 as f64 * fx * (1.0 - fy)
                + c.p01 as f64 * (1.0 - fx) * fy
                + c.p11 as f64 * fx * fy;
            v.round().clamp(0.0, 255.0) as u8
        }
    }
}

fn straighten(data: &[u8], w: u32, h: u32, lens: &Fisheye) -> Vec<u8> {
    let points = lookups(w, h, lens);
    let taps: Vec<Option<Tap>> = points
        .iter()
        .map(|p| Some(Tap { x: p.0.floor() as i64, y: p.1.floor() as i64 }))
        .collect();
    let found = undistort_gray(data, w, h, &taps);
    found.iter().zip(points).map(|(c, p)| blend(*c, p.0, p.1)).collect()
}

#[test]
fn lens_undistort_center_pixel_unchanged() {
    let params = Fisheye { fx: 50.0, fy: 50.0, cx: 50.0, cy: 50.0, d: [0.1, 0.05, -0.03, 0.01] };

    let mut data = vec![0u8; 100 * 100];
    data[50 * 100 + 50] = 255;

    let result = straighten(&data, 100, 100, &params);
    assert_eq!(
        result[50 * 100 + 50],
        255,
        "center pixel should be unchanged"
    );
}

#[test]
fn mod_undistort_center_pixel_unchanged() {
    let params = Fisheye { fx: 50.0, fy: 50.0, cx: 50.0, cy: 50.0, d: [0.1, 0.05, -0.03, 0.01] };

    let mut data = vec![0u8; 100 * 100];
    data[50 * 100 + 50] = 255;

    let result = straighten(&data, 100, 100, &params);
    assert_eq!(
        result[50 * 100 + 50],
        255,
        "center pixel should be unchanged"
    );
}

#[test]
fn lookups_off_the_picture_are_black() {
    let data: Vec<u8> = (0..12).collect();
    let at = |x, y| bilinear_corners(&data, 4, 3, Some(Tap { x, y }));
    assert_eq!(at(1, 1), Some(Corners { p00: 5, p10: 6, p01: 9, p11: 10 }));
    assert_eq!(at(2, 1), Some(Corners { p00: 6, p10: 7, p01: 10, p11: 11 }));
    assert_eq!(at(3, 1), None);
    assert_eq!(at(1, 2), None);
    assert_eq!(at(-1, 0), None);
    assert_eq!(at(0, -1), None);
    assert_eq!(bilinear_corners(&data, 4, 3, None), None);
}

#[test]
fn a_preview_draws_one_quad() {
    let vertices = quad_vertices(r32(0.25));
    assert_eq!(vertices.len(), 6);
    assert!(vertices.iter().all(|v| f32::from_bits(v.y.bits).abs() == 0.25));
    assert!(vertices.iter().all(|v| f32::from_bits(v.x.bits).abs() == 0.5));
    let bytes = vertex_bytes(&vertices);
    assert_eq!(bytes.len(), 120);
    assert_eq!(bytes[0..4], vertices[0].x.bits.to_le_bytes());
    assert_eq!(bytes[8..12], [0, 0, 0, 0]);
    let preview = LensPreviewRenderer::new(6, 4);
    assert_eq!((preview.luma_size().width, preview.chroma_size().width), (6, 3));
    let (y, u, v) = (vec![0u8; 24], vec![0u8; 6], vec![0u8; 6]);
    let plan = preview.render_yuv(&YuvPlanes { y: &y, u: &u, v: &v }, r32(1.0));
    assert_eq!((plan.y.bytes_per_row, plan.u.bytes_per_row, plan.v.rows), (6, 3, 2));
    assert_eq!((plan.output.width, plan.output.height, plan.vertices), (6, 4, 6));
}

#[test]
fn converted_pictures_come_two_calls_later() {
    let mut c = Nv12Converter::new(8, 2).unwrap();
    assert_eq!((c.width(), c.height()), (8, 2));
    assert_eq!(c.params()[0..4], 8u32.to_le_bytes());
    assert_eq!(c.params()[4..8], 2u32.to_le_bytes());
    let first = c.begin(11);
    assert_eq!((first.copy_bytes, first.dispatch_x, first.dispatch_y), (24, 1, 1));
    assert!(first.rebuild_bindings && first.read_slot.is_none());
    assert!(c.finish(None).is_none());
    let second = c.begin(11);
    assert!(!second.rebuild_bindings);
    assert!(c.finish(None).is_none());
    let third = c.begin(12);
    assert!(third.rebuild_bindings);
    assert_eq!(third.read_slot, Some(first.write_slot));
    assert_eq!(c.finish(Some(vec![9; 24])).unwrap(), vec![9u8; 24]);
    assert_eq!(c.drain_slot(), Some(second.write_slot));
    assert_eq!(c.drained(vec![8; 24]), vec![8u8; 24]);
    assert_eq!(c.drain_slot(), Some(third.write_slot));
    c.drained(vec![7; 24]);
    assert_eq!(c.drain_slot(), None);
}

#[test]
fn odd_pictures_are_not_converted() {
    let text = |w, h| match Nv12Converter::new(w, h) {
        Ok(_) => "ok".to_string(),
        Err(e) => e.message(),
    };
    assert_eq!(text(6, 2), "invalid NV12 dimensions: width must be divisible by 4, got 6");
    assert_eq!(text(8, 3), "invalid NV12 dimensions: height must be even, got 3");
    assert_eq!(Nv12Error::BufferMapFailed.message(), "NV12 buffer mapping failed");
}

#[test]
fn readback_waits_when_it_is_not_ready() {
    assert!(matches!(
        readback_step(ReadbackStage::Poll, MapReport::Mapped),
        ReadbackStage::Copy
    ));
    assert!(matches!(
        readback_step(ReadbackStage::Poll, MapReport::NotYet),
        ReadbackStage::Wait
    ));
    assert!(matches!(
        readback_step(ReadbackStage::Wait, MapReport::MapFailed),
        ReadbackStage::Failed
    ));
}

#[test]
fn downscaled_pictures_are_split() {
    let d = Nv12Downscaler::new(4, 2);
    assert_eq!(d.output_size(), 12);
    assert_eq!(d.buffer_size(), 12);
    assert_eq!((d.width(), d.height()), (4, 2));
    let data: Vec<u8> = (0..12).collect();
    let (y, uv) = d.split(&data);
    assert_eq!(y, vec![0, 1, 2, 3, 4, 5, 6, 7]);
    assert_eq!(uv, vec![8, 9, 10, 11]);
    assert_eq!(d.params()[0..4], 4u32.to_le_bytes());
}

#[test]
fn the_ring_never_reads_what_it_writes() {
    let mut ring = ReadbackRing::new();
    for n in 0..10 {
        let due = ring.plan();
        assert_eq!(due.read.is_some(), n >= 2);
        assert_ne!(due.read, Some(due.write));
        ring.advance();
    }
    let oldest = ring.oldest_pending().unwrap();
    ring.drained();
    assert_ne!(ring.oldest_pending(), Some(oldest));
    ring.drained();
    assert_eq!(ring.oldest_pending(), None);
}

#[test]
fn draining_starts_with_the_oldest_frame() {
    for n in 0..7usize {
        let mut ring = ReadbackRing::new();
        for _ in 0..n {
            ring.advance();
        }
        let mut drained = Vec::new();
        while let Some(slot) = ring.oldest_pending() {
            drained.push(slot);
            ring.drained();
        }
        let expected: Vec<usize> = (n.saturating_sub(2)..n).map(|i| i % 3).collect();
        assert_eq!(drained, expected);
    }
}

#[test]
fn diffusion_ends_where_it_started() {
    let d = GpuDiffusion::new(&[(64, 32), (32, 16)]);
    assert_eq!((d.octave_count(), d.buffer_size(1)), (2, 32 * 16 * 4));
    let kernel = [0.25f32.to_bits(), 0.5f32.to_bits(), 0.25f32.to_bits()];
    for steps in 0..4 {
        let taus = vec![0.1f32.to_bits(); steps];
        let plan = d.evolve(0, &kernel, 4.0f32.to_bits(), &taus);
        assert_eq!((plan.dispatch_x, plan.dispatch_y), (4, 2));
        let diffusions = plan
            .passes
            .iter()
            .filter(|p| matches!(p, Pass::Diffuse { .. }))
            .count();
        assert_eq!(diffusions, steps);
        let last = plan.passes.last();
        if steps % 2 == 1 {
            assert!(matches!(
                last,
                Some(Pass::Copy { from: Buffer::LtB, to: Buffer::LtA, .. })
            ));
        } else if steps > 0 {
            assert!(matches!(last, Some(Pass::Diffuse { output: Buffer::LtA, .. })));
        }
    }
    let params = separable_params(64, 32, 1, 0, &kernel);
    assert_eq!(params[0..4], [64, 32, 1, 0]);
    let bytes = upload_bytes(&params);
    assert_eq!(bytes.len(), params.len() * 4);
    assert_eq!(bytes[0..4], 64u32.to_le_bytes());
}

#[test]
fn groups_cover_and_sizes_align() {
    assert_eq!((div_ceil(17, 16), div_ceil(16, 16), div_ceil(0, 16)), (2, 1, 0));
    assert_eq!(div_ceil(u32::MAX, 2), 0x8000_0000);
    assert_eq!((align_up(1, 4096), align_up(4096, 4096), align_up(0, 4096)), (4096, 4096, 0));
}

#[test]
fn bit_patterns_order_as_their_numbers() {
    let values = [
        f64::NEG_INFINITY, -2.5, -1.0, -f64::MIN_POSITIVE, -0.0, 0.0, 1e-300, 0.5, 1.0, 360.0,
        f64::INFINITY, f64::NAN,
    ];
    for a in values {
        for b in values {
            assert_eq!(r64(a).le(r64(b)), a <= b, "{a} {b}");
        }
        assert_eq!(r64(a).is_finite(), a.is_finite());
        assert_eq!(r64(a).is_nan(), a.is_nan());
    }
    let singles = [f32::NEG_INFINITY, -1.0, -0.0, 0.0, 1e-40, 0.1, 75.0, f32::INFINITY, f32::NAN];
    for a in singles {
        for b in singles {
            assert_eq!(r32(a).lt(r32(b)), a < b, "{a} {b}");
        }
        if !a.is_nan() {
            assert_eq!(r32(a).widen(), r64(a as f64), "{a}");
        }
        assert_eq!(r32(a).is_finite(), a.is_finite());
        assert_eq!(r32(a).is_nan(), a.is_nan());
    }
    for n in [0u32, 1, 2, 3, 360, 2400, 8192, u32::MAX] {
        assert_eq!(Real64::from_u32(n), r64(n as f64));
        assert_eq!(Real64::half_of(n), r64(n as f64 / 2.0));
    }
    assert_eq!(r32(5.0).clamp(r32(0.0), r32(1.0)), r32(1.0));
    assert_eq!(r32(-5.0).clamp(r32(0.0), r32(1.0)), r32(0.0));
    assert_eq!(r32(0.5).clamp(r32(0.0), r32(1.0)), r32(0.5));
    assert_eq!(r64(f64::NAN).non_finite_text(), "NaN");
    assert_eq!(r64(f64::NEG_INFINITY).non_finite_text(), "-inf");
}

#[test]
fn fields_of_view_are_renderable() {
    assert_eq!(clamp_fov(r32(0.0)), r32(1.0));
    assert_eq!(clamp_fov(r32(500.0)), r32(179.0));
    assert_eq!(clamp_fov(r32(42.0)), r32(42.0));
    assert_eq!(Pose::default().fov_degrees, r32(75.0));
    let wide = Pose { yaw: r32(0.0), pitch: r32(0.0), fov_degrees: r32(200.0) };
    assert_eq!(wide.render_fov(), r32(179.0));
}

#[test]
fn projections_know_their_cameras() {
    assert_eq!(Projection::LShape.name(), "l-shape-stereo-2camera");
    assert_eq!((Projection::LShape.camera_count(), Projection::Cylinder.camera_count()), (2, 1));
    let cylinder = Cylinder::default();
    assert_eq!((cylinder.focal_length, cylinder.sweep_deg), (r64(2400.0), r64(180.0)));
}

#[test]
fn numbers_are_written_out() {
    let mut text = String::new();
    push_decimal(&mut text, 0);
    push_decimal(&mut text, u64::MAX);
    text.push(' ');
    push_decimal_signed(&mut text, i64::MIN);
    text.push(' ');
    push_hexadecimal(&mut text, 0xBEEF);
    text.push(' ');
    push_hex_fixed(&mut text, 0x2A, 8);
    assert_eq!(text, format!("0{} {} {:x} {:08x}", u64::MAX, i64::MIN, 0xBEEF, 0x2A));
    assert!(has_part("abcd", "bc") && !has_part("abcd", "bd") && has_part("abcd", ""));
}

#[test]
fn durations_do_not_wrap() {
    assert_eq!(Duration::from_secs(1), Duration::from_millis(1000));
    assert_eq!(Duration::from_millis(2).as_nanos(), 2_000_000);
    assert_eq!(Duration::from_nanos(5).saturating_sub(Duration::from_nanos(7)), Duration::zero());
}

#[test]
fn passes_say_what_they_need() {
    let planes = texture_layout();
    assert_eq!((planes.len(), planes[3].binding), (4, 3));
    assert_eq!(planes[3].kind, BindingKind::Sampler);
    assert!(planes.iter().all(|b| b.stages == Stages::Fragment));
    assert_eq!(uniform_layout()[0].stages, Stages::VertexFragment);
    let preview = LensPreviewRenderer::new(1920, 1080);
    let textures = preview.plane_textures();
    assert_eq!((textures[0].width, textures[2].height), (1920, 540));
    assert_eq!(preview.output_texture().usage, TextureUse::drawn());

    let layout = Nv12Converter::layout();
    assert_eq!(layout[0].kind, BindingKind::Texture { filterable: false });
    let converter = Nv12Converter::new(1920, 1080).unwrap().buffers();
    assert_eq!((converter.output.size, converter.staging.size), (3_110_400, 3_110_400));
    assert!(converter.staging.usage.mapped && !converter.params.usage.copy_to);
    assert_eq!(Nv12Downscaler::layout()[4].kind, BindingKind::Uniform);
    let downscaler = Nv12Downscaler::new(3, 3).buffers();
    assert_eq!(downscaler.output.size, 16);
    assert!(downscaler.params.usage.copy_to);

    let demosaic = BayerDemosaic::new(64, 48);
    assert_eq!(demosaic.input_texture().format, TexelFormat::R16Uint);
    assert_eq!(demosaic.output_texture().usage, TextureUse::computed());
    assert_eq!(BayerDemosaic::layout()[0].kind, BindingKind::UintTexture);
    let block = IspParams::imx477_default(64, 48).bytes();
    assert_eq!(BayerDemosaic::params_buffer().size, block.len() as u64);
    assert_eq!(ColorGradePass::layout()[1].kind, BindingKind::StorageTexture);
    assert_eq!(ColorGradePass::params_buffer().size, 16);

    let d = GpuDiffusion::new(&[(64, 32)]);
    assert_eq!(d.octave_buffer(0).size, 8192);
    assert_eq!(d.staging_buffer(0).usage, BufferUse::staging());
    let plan = d.evolve(0, &[0; 3], 0, &[0]);
    let diffuse = &plan.passes[5];
    assert_eq!(diffuse.bound(), vec![Buffer::LtA, Buffer::LtB, Buffer::LFlow]);
    let read_only: Vec<bool> = diffuse
        .layout()
        .iter()
        .map(|b| b.kind == BindingKind::Storage { read_only: true })
        .collect();
    assert_eq!(read_only, vec![true, false, true, false]);
    assert!(plan.passes[6].bound().is_empty());
}
