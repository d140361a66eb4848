//! Graphics drivers: what is asked of them, and what is made of their answers.

use reco_core::coreml::{CoreMlError, PredictReport, TensorShape, model_path, predict, strides};
use reco_core::cuda::{
    AllocCall, AllocStage, CU_MEMORYTYPE_DEVICE, CU_MEMORYTYPE_HOST, ContextCall, ContextStage,
    CudaInteropError, KernelArg, LoadReport, Platform, SharedAllocation, check_cuda, cuda_2d_copy,
    cuda_2d_copy_dtoh, cuda_ensure_context, cuda_ensure_context_step, cuda_memcpy_htod_2d,
    device_symbol, is_cuda_available, kernel_load_error, normalize_hwc_to_chw, required_symbols,
};
use reco_core::d3d11::{
    CopyWait, CudaImportedNv12, D3d11InteropError, D3d11StagingPool, GpuPixelFormat, Luid,
    MAX_POLLS, PoolSetup, SetupCall, SetupReply, find_adapter_by_luid, luid_of,
};
use reco_core::dmabuf::{
    DmaBufImportError, DmaBufNv12Textures, DmaBufPlaneCache, DmaBufTextureCache, DupStep,
    FOREIGN_QUEUE_FAMILY, ImportCall, ImportReply, MemoryFacts, PlaneFormat, PlaneImport,
    allocation_size, dup_step, import_dmabuf_nv12, import_dmabuf_nv12_tiling, import_dmabuf_plane,
    memory_type_index,
};
use reco_core::dx12::{
    CudaArrays, ShareCall, ShareReply, ShareStage, SharedFormat, SharedTexture, Teardown,
    create_shared_texture,
};
use reco_core::metal::{
    MetalInteropError, PIXEL_FORMAT_FULL_RANGE, PIXEL_FORMAT_VIDEO_RANGE, PlaneStage,
    cache_created, import_nv12, import_plane, is_supported_format,
};
use reco_core::npp::{
    NppError, NppReport, NppiRect, check_npp, conversion_libraries, geometry_libraries,
    is_npp_available, npp_mirror_c3, npp_nv12_to_rgb, npp_resize_c3,
};
use reco_core::nvbuf::{
    NvBufDetectionSurface, SetupReply as SurfaceReply, SetupRequest, SetupStage, SurfaceSetup, TRANSFORM_FLAGS,
    is_available, letterbox, transformed,
};

fn report(driver: Option<&str>, missing: Option<usize>) -> LoadReport {
    let mut symbols = vec![None; required_symbols().len()];
    if let Some(i) = missing {
        symbols[i] = Some("not found".to_string());
    }
    LoadReport {
        platform: Platform::Linux,
        driver: driver.map(|s| s.to_string()),
        has_runtime: false,
        device_symbol: None,
        symbols,
    }
}

#[test]
fn cuda_loads_only_with_every_symbol() {
    assert!(is_cuda_available(&report(None, None)));
    assert_eq!(
        report(Some("no such file"), Some(0)).outcome().unwrap_err().message(),
        "CUDA not available: Failed to load libcuda.so.1: no such file"
    );
    let last = required_symbols().len() - 1;
    assert_eq!(
        report(None, Some(last)).outcome().unwrap_err().message(),
        "CUDA not available: cuLaunchKernel: not found"
    );
    let mut r = report(None, Some(2));
    r.device_symbol = Some("gone".to_string());
    assert_eq!(
        r.outcome().unwrap_err().message(),
        "CUDA not available: cuCtxGetDevice: gone"
    );
    assert!(!is_cuda_available(&r));
    assert_eq!(device_symbol(true), "cudaGetDevice");
    assert_eq!(Platform::Linux.runtime_candidates()[1], "libcudart.so.12");
    let windows = Platform::Windows.runtime_candidates();
    assert_eq!(windows[0], "cudart64_200.dll");
    assert_eq!(windows.last().unwrap(), "cudart64_00.dll");
    assert_eq!(Platform::Windows.driver_library(), "nvcuda.dll");
    assert_eq!((Platform::Linux.handle_type(), Platform::Windows.handle_type()), (1, 2));
}

#[test]
fn cuda_errors_have_texts() {
    assert!(check_cuda("cuInit", 0).is_ok());
    assert_eq!(
        check_cuda("cuInit", -3).unwrap_err().message(),
        "CUDA error -3 in cuInit"
    );
    assert_eq!(
        CudaInteropError::VulkanError("lost".into()).message(),
        "Vulkan interop: lost"
    );
    assert_eq!(
        CudaInteropError::NotVulkan.message(),
        "CUDA interop requires the Vulkan backend"
    );
    let relabeled = kernel_load_error(&CudaInteropError::NotAvailable("x".into())).message();
    assert_ne!(relabeled, "CUDA not available: x");
}

#[test]
fn shared_memory_is_allocated_call_by_call() {
    let mut a = SharedAllocation::new(1_000_000, Platform::Linux);
    let mut calls = Vec::new();
    for value in [3u64, 65536, 0x7000, 0xAA, 12, 0, 0, 0] {
        calls.push(a.next_call().unwrap().name());
        a.reply(0, value);
    }
    assert_eq!(
        calls,
        vec![
            "cudaGetDevice",
            "cuMemGetAllocationGranularity",
            "cuMemAddressReserve",
            "cuMemCreate",
            "cuMemExportToShareableHandle",
            "cuMemMap",
            "cuMemRelease",
            "cuMemSetAccess",
        ]
    );
    assert!(a.next_call().is_none());
    let memory = a.outcome().unwrap().unwrap();
    assert_eq!(memory.alloc_size, 1_048_576);
    assert_eq!(memory.device_ptr, 0x7000);
    assert_eq!(memory.shared_handle, 12);
}

#[test]
fn a_failed_allocation_stays_failed() {
    let mut a = SharedAllocation::new(4096, Platform::Windows);
    a.reply(0, 0);
    assert!(matches!(
        a.next_call(),
        Some(AllocCall::GetGranularity { device: 0, handle_type: 2 })
    ));
    a.reply(700, 1);
    assert!(matches!(a.stage, AllocStage::Failed { .. }));
    a.reply(0, 1);
    assert_eq!(
        a.outcome().unwrap().unwrap_err().message(),
        "CUDA error 700 in cuMemGetAllocationGranularity"
    );
}

#[test]
fn a_context_that_is_current_is_kept() {
    let start = cuda_ensure_context();
    assert!(matches!(start, ContextStage::Calling { call: ContextCall::Init }));
    let asked = cuda_ensure_context_step(start, 0, 0);
    assert!(matches!(asked, ContextStage::Calling { call: ContextCall::GetCurrent }));
    assert!(matches!(cuda_ensure_context_step(asked, 0, 77), ContextStage::Ready));
    let device = cuda_ensure_context_step(asked, 0, 0);
    assert!(matches!(device, ContextStage::Calling { call: ContextCall::DeviceGet }));
    let retain = cuda_ensure_context_step(device, 0, 1);
    assert!(matches!(retain, ContextStage::Calling { call: ContextCall::Retain { device: 1 } }));
    let set = cuda_ensure_context_step(retain, 0, 9);
    assert!(matches!(set, ContextStage::Calling { call: ContextCall::SetCurrent { context: 9 } }));
    assert!(matches!(cuda_ensure_context_step(set, 0, 0), ContextStage::Ready));
    assert!(matches!(
        cuda_ensure_context_step(set, 201, 0),
        ContextStage::Failed { call: ContextCall::SetCurrent { .. }, code: 201 }
    ));
    assert_eq!(ContextCall::Retain { device: 0 }.name(), "cuDevicePrimaryCtxRetain");
}

#[test]
fn copies_name_both_sides() {
    let up = cuda_memcpy_htod_2d(10, 512, 20, 100, 96, 50);
    assert_eq!((up.src_memory_type, up.src_host, up.src_pitch), (CU_MEMORYTYPE_HOST, 20, 100));
    assert_eq!((up.dst_memory_type, up.dst_device, up.dst_pitch), (CU_MEMORYTYPE_DEVICE, 10, 512));
    assert_eq!((up.width_in_bytes, up.height), (96, 50));
    let across = cuda_2d_copy(10, 512, 20, 100, 96, 50);
    assert_eq!((across.src_memory_type, across.src_device), (CU_MEMORYTYPE_DEVICE, 20));
    let down = cuda_2d_copy_dtoh(10, 512, 20, 100, 96, 50);
    assert_eq!((down.dst_memory_type, down.dst_host), (CU_MEMORYTYPE_HOST, 10));
    assert_eq!((down.src_memory_type, down.src_device), (CU_MEMORYTYPE_DEVICE, 20));
}

#[test]
fn launches_cover_the_picture() {
    let launch = normalize_hwc_to_chw(7000, 8000, 1280, 721);
    assert_eq!((launch.shape.grid_x, launch.shape.grid_y), (80, 46));
    assert_eq!((launch.shape.block_x, launch.shape.block_y), (16, 16));
    assert_eq!(
        launch.args,
        vec![
            KernelArg::Address(7000),
            KernelArg::Address(8000),
            KernelArg::Number(1280),
            KernelArg::Number(721),
        ]
    );
}

fn npp_report() -> NppReport {
    NppReport {
        platform: Platform::Linux,
        conversion: None,
        geometry: None,
        nv12_to_rgb: None,
        resize_c3: None,
        mirror_c3: None,
    }
}

#[test]
fn npp_loads_only_with_both_libraries() {
    assert!(is_npp_available(&npp_report()));
    let text = |r: NppReport| r.outcome().unwrap_err().message();
    let some = || Some("missing".to_string());
    assert_eq!(
        text(NppReport { conversion: some(), geometry: some(), ..npp_report() }),
        "NPP not available: libnppicc: missing"
    );
    assert_eq!(
        text(NppReport { platform: Platform::Windows, geometry: some(), ..npp_report() }),
        "NPP not available: nppig: missing"
    );
    assert_eq!(
        text(NppReport { nv12_to_rgb: some(), ..npp_report() }),
        "NPP not available: nppiNV12ToRGB_8u_P2C3R_Ctx: missing"
    );
    assert_eq!(
        text(NppReport { resize_c3: some(), ..npp_report() }),
        "NPP not available: nppiResize_8u_C3R_Ctx: missing"
    );
    assert_eq!(
        text(NppReport { mirror_c3: some(), ..npp_report() }),
        "NPP not available: nppiMirror_8u_C3R_Ctx: missing"
    );
    assert_eq!(conversion_libraries(Platform::Linux)[3], "libnppicc.so");
    assert_eq!(geometry_libraries(Platform::Windows)[0], "nppig64_13.dll");
}

#[test]
fn npp_calls_have_steps_and_regions() {
    assert!(check_npp("nppiResize_8u_C3R_Ctx", 0).is_ok());
    assert_eq!(
        check_npp("nppiResize_8u_C3R_Ctx", -5).unwrap_err().message(),
        "NPP error -5 in nppiResize_8u_C3R_Ctx"
    );
    assert!(check_npp("f", 2).is_ok(), "a warning is no error");
    assert!(matches!(check_npp("f", -1), Err(NppError::NppCall { code: -1, .. })));
    let convert = npp_nv12_to_rgb(1, 2048, 2, 1024, 3, 1920, 1080);
    assert_eq!((convert.src_step, convert.dst_step), (2048, 5760));
    assert!(convert.pitch_mismatch);
    let roi = NppiRect { x: 1, y: 2, width: 3, height: 4 };
    let resize = npp_resize_c3(1, 1920, 1080, 2, 640, 640, roi);
    assert_eq!((resize.src_step, resize.dst_step), (5760, 1920));
    assert_eq!((resize.src_roi.width, resize.src_roi.height), (1920, 1080));
    assert_eq!((resize.dst_roi.x, resize.dst_roi.height), (1, 4));
    assert_eq!(resize.interpolation, 1);
    let mirror = npp_mirror_c3(1, 2, 640, 480);
    assert_eq!((mirror.step, mirror.axis, mirror.roi.height), (1920, 2, 480));
}

#[test]
fn letterbox_geometry_16_9() {
    let scale_w: f32 = 1280.0 / 1920.0;
    let scale_h: f32 = 1280.0 / 1080.0;
    let scale = scale_w.min(scale_h);
    let content_w = (1920.0_f32 * scale) as u32;
    let content_h = (1080.0_f32 * scale) as u32;
    let rect = letterbox(1280, content_w, content_h);

    assert_eq!(rect.width, 1280);
    assert_eq!(rect.height, 720);
    assert_eq!(rect.left, 0);
    assert_eq!(rect.top, 280);
    assert!((scale - 0.6667).abs() < 0.001);
}

#[test]
fn letterbox_geometry_4_3() {
    let scale_w: f32 = 1280.0 / 4032.0;
    let scale_h: f32 = 1280.0 / 3040.0;
    let scale = scale_w.min(scale_h);
    let content_w = (4032.0_f32 * scale) as u32;
    let content_h = (3040.0_f32 * scale) as u32;
    let rect = letterbox(1280, content_w, content_h);

    assert_eq!(rect.width, 1280);
    assert_eq!(rect.height, 965);
    assert_eq!(rect.left, 0);
    assert_eq!(rect.top, 157);
}

#[test]
fn nvbuf_not_available_on_desktop() {
    if !is_available(false, false, false) {
        let mut setup = SurfaceSetup::new(1280, 1280, 720);
        setup.reply(SurfaceReply::Libraries(false));
        assert!(setup.next_request().is_none());
        match setup.stage {
            SetupStage::Failed(reason) => {
                assert_eq!(reason, "NvBufSurfTransform libraries not available")
            }
            _ => panic!("no surface without libraries"),
        }
    }
    assert!(is_available(true, true, true));
    assert!(!is_available(true, false, true));
    assert!(!is_available(true, true, false));
}

#[test]
fn a_surface_is_made_filled_and_used() {
    let mut setup = SurfaceSetup::new(1280, 1280, 720);
    setup.reply(SurfaceReply::Libraries(true));
    setup.reply(SurfaceReply::Context(None));
    match setup.next_request() {
        Some(SetupRequest::Create { params }) => {
            assert_eq!((params.width, params.color_format, params.mem_type), (1280, 19, 2));
        }
        _ => panic!("the surface comes next"),
    }
    setup.reply(SurfaceReply::Destroyed);
    setup.reply(SurfaceReply::Created(0));
    setup.reply(SurfaceReply::Inspected { data_ptr: 4096, pitch: 5120 });
    match setup.next_request() {
        Some(SetupRequest::Fill { data_ptr, value, count }) => {
            assert_eq!((data_ptr, value, count), (4096, 114, 5120 * 1280));
        }
        _ => panic!("the grey comes next"),
    }
    setup.reply(SurfaceReply::Filled(None));
    let mut surface = match setup.stage {
        SetupStage::Ready(surface) => surface,
        _ => panic!("the surface is there"),
    };
    assert!(surface.needs_session());
    assert_eq!(
        surface.session_set(-2).unwrap_err(),
        "NvBufSurfTransformSetSessionParams failed: -2"
    );
    assert!(surface.needs_session());
    surface.session_set(0).unwrap();
    assert!(!surface.needs_session());
    assert_eq!(surface.transform_from_nvmm().flags, TRANSFORM_FLAGS);
    assert_eq!(surface.transform_from_nvmm().dst_rect.top, 280);
    let fill = surface.refill_grey();
    assert_eq!((fill.data_ptr, fill.value, fill.count), (surface.data_ptr, 114, 5120 * 1280));
    assert!(NvBufDetectionSurface::refilled(None).is_ok());
    assert_eq!(
        NvBufDetectionSurface::refilled(Some("no memory".into())).unwrap_err(),
        "grey fill: no memory"
    );
    assert!(transformed(0).is_ok());
    assert_eq!(transformed(4).unwrap_err(), "NvBufSurfTransform failed: 4");
}

#[test]
fn a_surface_without_memory_is_destroyed() {
    let fails = |replies: Vec<SurfaceReply>| {
        let mut setup = SurfaceSetup::new(640, 640, 640);
        for r in replies {
            setup.reply(r);
        }
        match setup.stage {
            SetupStage::Failed(reason) => reason,
            _ => "not failed".to_string(),
        }
    };
    assert_eq!(
        fails(vec![
            SurfaceReply::Libraries(true),
            SurfaceReply::Context(None),
            SurfaceReply::Created(0),
            SurfaceReply::Inspected { data_ptr: 0, pitch: 0 },
            SurfaceReply::Destroyed,
        ]),
        "NvBufSurfaceCreate returned null data pointer"
    );
    assert_eq!(
        fails(vec![SurfaceReply::Libraries(true), SurfaceReply::Context(Some("none".into()))]),
        "CUDA context: none"
    );
    assert_eq!(
        fails(vec![
            SurfaceReply::Libraries(true),
            SurfaceReply::Context(None),
            SurfaceReply::Created(-1),
        ]),
        "NvBufSurfaceCreate failed: -1"
    );
    assert_eq!(
        fails(vec![
            SurfaceReply::Libraries(true),
            SurfaceReply::Context(None),
            SurfaceReply::Created(0),
            SurfaceReply::Inspected { data_ptr: 1, pitch: 4 },
            SurfaceReply::Filled(Some("busy".into())),
        ]),
        "grey fill: busy"
    );
}

fn facts(bits: u32) -> MemoryFacts {
    MemoryFacts {
        required_size: 100,
        type_bits: bits,
        type_count: 4,
        file_size: 4096,
        queue_family: 1,
    }
}

/// Answer every call with success, and give the calls.
fn run(import: &mut PlaneImport, bits: u32) -> Vec<ImportCall> {
    let mut calls = Vec::new();
    let mut handle = 100u64;
    while let Some(call) = import.next_call() {
        handle += 1;
        let reply = match call {
            ImportCall::CreateImage { .. }
            | ImportCall::Allocate { .. }
            | ImportCall::CreatePool { .. }
            | ImportCall::AllocateCommands { .. }
            | ImportCall::Wrap { .. } => ImportReply::Handle(handle),
            ImportCall::Inspect { .. } => ImportReply::Facts(facts(bits)),
            _ => ImportReply::Done,
        };
        calls.push(call);
        import.reply(reply);
    }
    calls
}

#[test]
fn memory_types_are_chosen_from_the_lowest() {
    assert_eq!(memory_type_index(0b1010, 4), Some(1));
    assert_eq!(memory_type_index(0b1000, 3), None);
    assert_eq!(memory_type_index(0, 32), None);
    assert_eq!(memory_type_index(0x8000_0000, 32), Some(31));
    assert_eq!(allocation_size(5000, 4096, 100), 5000);
    assert_eq!(allocation_size(0, 4096, 100), 4096);
    assert_eq!(allocation_size(0, -1, 100), 100);
}

#[test]
fn a_plane_is_imported_and_handed_over() {
    let mut plane = import_dmabuf_plane(7, 640, 480, PlaneFormat::R8, true);
    let calls = run(&mut plane, 0b100);
    assert!(matches!(calls[0], ImportCall::OpenDevice));
    assert!(matches!(
        calls[1],
        ImportCall::CreateImage { width: 640, height: 480, channels: 1, linear: true, .. }
    ));
    let barrier = calls
        .iter()
        .any(|c| matches!(c, ImportCall::Barrier { from: FOREIGN_QUEUE_FAMILY, to: 1, .. }));
    let transfers = plane.request.transfer;
    assert_eq!(barrier, transfers);
    assert!(calls
        .iter()
        .any(|c| matches!(c, ImportCall::Allocate { type_index: 2, fd: 7, .. })));
    assert!(matches!(
        calls.last(),
        Some(ImportCall::Wrap { width: 640, height: 480, channels: 1, .. })
    ));
    assert!(plane.outcome().unwrap().is_ok());
}

#[test]
fn both_planes_of_a_picture_are_imported() {
    let (y, uv) = import_dmabuf_nv12_tiling(3, 4, 640, 480, 0, 307_200, 460_800, true, true);
    assert_eq!((y.request.fd, y.request.width, y.request.height), (3, 640, 480));
    assert_eq!((uv.request.fd, uv.request.width, uv.request.height), (4, 320, 240));
    assert_eq!(uv.request.offset, 307_200);
    let mut uv = uv;
    let calls = run(&mut uv, 1);
    assert!(calls.iter().any(|c| matches!(c, ImportCall::Bind { offset: 307_200, .. })));
    assert!(calls.iter().any(|c| matches!(c, ImportCall::Allocate { size: 460_800, .. })));
    assert!(matches!(calls.last(), Some(ImportCall::Wrap { channels: 2, .. })));
    let (y, _) = import_dmabuf_nv12(3, 4, 640, 480, 0, 307_200, 460_800, false);
    assert!(!y.request.transfer);
    let mut y = y;
    assert!(!run(&mut y, 1).iter().any(|c| matches!(c, ImportCall::CreatePool { .. })));
}

#[test]
fn a_failed_import_names_the_call() {
    let fails = |steps: usize| {
        let (mut y, _) = import_dmabuf_nv12_tiling(3, 4, 64, 64, 0, 4096, 6144, true, true);
        for _ in 0..steps {
            let reply = match y.next_call().unwrap() {
                ImportCall::Inspect { .. } => ImportReply::Facts(facts(1)),
                ImportCall::CreateImage { .. }
                | ImportCall::Allocate { .. }
                | ImportCall::CreatePool { .. }
                | ImportCall::AllocateCommands { .. } => ImportReply::Handle(5),
                _ => ImportReply::Done,
            };
            y.reply(reply);
        }
        y.reply(ImportReply::Failed("lost".to_string()));
        match y.outcome() {
            Some(Err(e)) => e.message(),
            _ => "no error".to_string(),
        }
    };
    assert_eq!(fails(0), "wgpu backend is not Vulkan");
    assert_eq!(fails(1), "Vulkan error: vkCreateImage: lost");
    assert_eq!(fails(3), "Vulkan error: vkAllocateMemory (DMA-buf fd=3): lost");
    assert_eq!(fails(4), "Vulkan error: vkBindImageMemory: lost");
    assert_eq!(fails(5), "Vulkan error: cmd pool: lost");
    assert_eq!(fails(6), "Vulkan error: cmd alloc: lost");
    assert_eq!(fails(7), "Vulkan error: begin cmd: lost");
    assert_eq!(fails(9), "Vulkan error: end cmd: lost");
    assert_eq!(fails(10), "Vulkan error: queue submit: lost");
    assert_eq!(fails(11), "Vulkan error: queue wait: lost");

    let mut plane = import_dmabuf_plane(7, 4, 4, PlaneFormat::Rg8, false);
    run(&mut plane, 0);
    assert_eq!(
        plane.outcome().unwrap().unwrap_err().message(),
        "Vulkan error: no compatible memory type for DMA-buf import"
    );
    let mut plane = import_dmabuf_plane(7, 4, 4, PlaneFormat::Other("Rgba8Unorm".into()), false);
    run(&mut plane, 1);
    assert_eq!(
        plane.outcome().unwrap().unwrap_err().message(),
        "Vulkan error: unsupported format: Rgba8Unorm"
    );
}

#[test]
fn descriptors_are_duplicated_in_pairs() {
    assert!(matches!(dup_step(-1, None), DupStep::Fail));
    assert!(matches!(dup_step(5, None), DupStep::Again));
    assert!(matches!(dup_step(5, Some(-1)), DupStep::CloseAndFail { fd: 5 }));
    assert!(matches!(dup_step(5, Some(6)), DupStep::Ready { y_fd: 5, uv_fd: 6 }));
    assert_eq!(DmaBufImportError::DupFd("bad".into()).message(), "dup() failed: bad");
}

#[test]
fn imported_buffers_are_kept() {
    let mut cache = DmaBufTextureCache::new();
    assert!(cache.is_empty());
    let first = DmaBufNv12Textures { y_texture: 1, uv_texture: 2 };
    let second = DmaBufNv12Textures { y_texture: 3, uv_texture: 4 };
    assert!(cache.ensure_imported(9, Err(DmaBufImportError::NotVulkan)).is_err());
    assert!(!cache.is_imported(9));
    cache.ensure_imported(9, Ok(first)).unwrap();
    cache.ensure_imported(9, Ok(second)).unwrap();
    assert_eq!(cache.get(9).y_texture, 1, "the first import stays");
    assert_eq!(cache.len(), 1);
    let mut planes = DmaBufPlaneCache::new();
    planes.ensure_imported(1, Ok(10)).unwrap();
    planes.ensure_imported(2, Ok(20)).unwrap();
    assert!(planes.ensure_imported(3, Err(DmaBufImportError::NotVulkan)).is_err());
    assert_eq!((planes.get(1), planes.get(2), planes.len()), (10, 20, 2));
    assert!(planes.is_imported(2) && !planes.is_imported(3));
}

#[test]
fn adapters_are_found_by_their_luid() {
    let id = 0x0000_0002_0000_1234u64;
    assert_eq!(luid_of(id), Luid { low_part: 0x1234, high_part: 2 });
    let adapters = vec![Ok(luid_of(1)), Ok(luid_of(id))];
    assert_eq!(find_adapter_by_luid(&adapters, id).unwrap(), 1);
    let message = |found: Result<usize, D3d11InteropError>| found.unwrap_err().message();
    assert_eq!(
        message(find_adapter_by_luid(&adapters, 0xFFFF_FFFF_0000_0005)),
        "DXGI: no DXGI adapter with LUID -1:5 (device_id=18446744069414584325)"
    );
    let broken = vec![Err("removed".to_string()), Ok(luid_of(id))];
    assert!(find_adapter_by_luid(&broken, id).is_err());
}

/// Answer every call of a setup with success.
fn fill(setup: &mut PoolSetup, cuda: Option<CudaImportedNv12>) -> Vec<&'static str> {
    let mut calls = Vec::new();
    let mut next = 0u64;
    while let Some(call) = setup.next_call() {
        next += 1;
        let (name, reply) = match call {
            SetupCall::CreateDevice { .. } => (
                "device",
                SetupReply::Device { device: Some(next), context: Some(next + 1000) },
            ),
            SetupCall::GetDevice { .. } => ("device", SetupReply::Made(Some(next))),
            SetupCall::Protect { .. } => ("protect", SetupReply::Done),
            SetupCall::GetContext { .. } => ("context", SetupReply::Made(Some(next))),
            SetupCall::CreateQuery { .. } => ("query", SetupReply::Made(Some(next))),
            SetupCall::CreateTexture { .. } => ("texture", SetupReply::Made(Some(next))),
            SetupCall::Share { .. } => ("share", SetupReply::Made(Some(next))),
            SetupCall::Open { .. } => ("open", SetupReply::Made(Some(next))),
            SetupCall::ImportCuda { .. } => ("cuda", SetupReply::Cuda(cuda)),
            SetupCall::Close { .. } => ("close", SetupReply::Done),
        };
        calls.push(name);
        setup.reply(reply);
    }
    calls
}

#[test]
fn a_staging_pool_gets_all_its_slots() {
    let mut pool =
        D3d11StagingPool::new(true, 1920, 1080, 2, true, GpuPixelFormat::P010).unwrap();
    assert_eq!((pool.n_slots(), pool.width(), pool.height()), (2, 1920, 1080));
    assert_eq!(pool.cuda_nv12_ptrs(0), None);
    let mut setup = pool.ensure_initialized(55).unwrap();
    assert!(matches!(setup.next_call(), Some(SetupCall::GetDevice { texture: 55 })));
    let imported = CudaImportedNv12 { y_ptr: 1, uv_ptr: 2, pitch: 3840 };
    let calls = fill(&mut setup, Some(imported));
    assert_eq!(
        calls,
        vec![
            "device", "protect", "context", "query", "texture", "share", "open", "cuda", "close",
            "texture", "share", "open", "cuda", "close",
        ]
    );
    pool.adopt(setup).unwrap();
    assert!(pool.ensure_initialized(55).is_none());
    assert_eq!(pool.cuda_nv12_ptrs(1), Some((1, 2, 3840)));
    assert_ne!(pool.shared_texture(0), pool.shared_texture(1));
    let copy = pool.stage_copy(3, 1);
    assert_eq!((copy.context, copy.event_query, copy.src_subresource), (3, 4, 3));
    assert!(pool.stage_frame(false, 1).is_ok());
    assert_eq!(
        pool.stage_frame(true, 0).unwrap_err().message(),
        "staging copy failed: null source texture"
    );
    assert_eq!(
        pool.stage_frame(false, 2).unwrap_err().message(),
        "staging copy failed: slot 2 out of range (0..2)"
    );
    assert_eq!(GpuPixelFormat::P010.bytes_per_sample(), 2);
}

#[test]
fn a_pool_without_every_import_has_none() {
    let mut pool = D3d11StagingPool::new(true, 64, 64, 1, true, GpuPixelFormat::Nv12).unwrap();
    let mut setup = pool.ensure_initialized(1).unwrap();
    fill(&mut setup, None);
    pool.adopt(setup).unwrap();
    assert_eq!(pool.cuda_nv12_ptrs(0), None);
    assert!(matches!(
        D3d11StagingPool::new(false, 64, 64, 1, true, GpuPixelFormat::Nv12),
        Err(D3d11InteropError::NotDx12)
    ));
    let (pool, mut setup) = D3d11StagingPool::on_adapter(true, 5, 64, 64).unwrap();
    let calls = fill(&mut setup, None);
    assert_eq!((pool.n_slots(), calls[0], calls[1]), (4, "device", "query"));
    assert!(!calls.contains(&"cuda"));
}

#[test]
fn a_failed_pool_stays_without_state() {
    let fails = |steps: usize, last: SetupReply| {
        let (mut pool, mut setup) = D3d11StagingPool::on_adapter(true, 5, 64, 64).unwrap();
        let replies = [
            SetupReply::Device { device: Some(1), context: Some(2) },
            SetupReply::Made(Some(3)),
            SetupReply::Made(Some(4)),
            SetupReply::Made(Some(5)),
        ];
        for reply in replies.into_iter().take(steps) {
            setup.reply(reply);
        }
        setup.reply(last);
        let e = pool.adopt(setup).unwrap_err().message();
        assert!(pool.ensure_initialized(1).is_some());
        e
    };
    assert_eq!(
        fails(0, SetupReply::Device { device: None, context: None }),
        "D3D11: D3D11CreateDevice returned None"
    );
    assert_eq!(
        fails(0, SetupReply::Device { device: Some(1), context: None }),
        "D3D11: D3D11CreateDevice returned no context"
    );
    assert_eq!(fails(1, SetupReply::Made(None)), "D3D11: CreateQuery returned None");
    assert_eq!(fails(2, SetupReply::Made(None)), "D3D11: CreateTexture2D returned None");
    assert_eq!(fails(3, SetupReply::Refused("denied".into())), "D3D11: denied");
    assert_eq!(fails(4, SetupReply::Made(None)), "D3D11: OpenSharedHandle returned None");
    assert_eq!(fails(4, SetupReply::NotDx12), "wgpu backend is not DX12");
    assert_eq!(fails(0, SetupReply::Done), "D3D11: staging pool not initialized");
    assert_eq!(
        D3d11InteropError::Nv12NotSupported.message(),
        "wgpu NV12 texture format not available"
    );
}

#[test]
fn copies_are_waited_for() {
    let mut wait = CopyWait::new();
    assert!(!wait.poll(1).unwrap());
    assert!(wait.poll(0).unwrap());
    let mut wait = CopyWait::new();
    wait.poll(1).unwrap();
    let failed = wait.poll(-2005270523).unwrap_err().message();
    assert!(failed.starts_with("staging copy failed: GetData failed after "));
    assert!(failed.ends_with(" polls: HRESULT 0x887a0005"), "{failed}");
    let mut wait = CopyWait { spins: MAX_POLLS };
    assert_eq!(
        wait.poll(1).unwrap_err().message(),
        "staging copy failed: GetData timed out (>1M polls)"
    );
}

#[test]
fn textures_are_shared_call_by_call() {
    let mut setup = create_shared_texture(640, 480, SharedFormat::Rg8);
    setup.reply(ShareReply::Done);
    assert!(matches!(
        setup.next_call(),
        Some(ShareCall::CreateResource { width: 640, height: 480, format: SharedFormat::Rg8 })
    ));
    setup.reply(ShareReply::Resource { resource: Some(1), size: 4096 });
    setup.reply(ShareReply::Done);
    setup.reply(ShareReply::Handle(2));
    assert!(matches!(
        setup.next_call(),
        Some(ShareCall::ImportCuda { handle: 2, size: 4096, channels: 2, .. })
    ));
    let cuda = CudaArrays { array: 3, ext_mem: 4, mipmapped_array: 5 };
    setup.reply(ShareReply::Imported(cuda));
    assert!(matches!(setup.next_call(), Some(ShareCall::Close { handle: 2 })));
    setup.reply(ShareReply::Done);
    setup.reply(ShareReply::Handle(6));
    assert!(setup.next_call().is_none());
    let texture = match setup.stage {
        ShareStage::Ready(texture) => texture,
        _ => panic!("the texture is shared"),
    };
    assert_eq!((texture.texture, texture.cuda.array), (6, 3));
    assert_eq!(
        texture.teardown(),
        vec![Teardown::MipmappedArray(5), Teardown::ExternalMemory(4)]
    );
    let bare = SharedTexture {
        texture: 6,
        cuda: CudaArrays { array: 0, ext_mem: 0, mipmapped_array: 0 },
    };
    assert!(bare.teardown().is_empty());
    assert_eq!(SharedFormat::Other.resource_layout().1, 1);
    assert_eq!(SharedFormat::Rg16.resource_layout().1, 2);
}

#[test]
fn a_texture_that_cannot_be_shared_names_the_call() {
    let fails = |steps: usize, last: ShareReply| {
        let mut setup = create_shared_texture(4, 4, SharedFormat::R8);
        let replies = [
            ShareReply::Done,
            ShareReply::Resource { resource: Some(1), size: 16 },
            ShareReply::Done,
            ShareReply::Handle(2),
        ];
        for reply in replies.into_iter().take(steps) {
            setup.reply(reply);
        }
        setup.reply(last);
        match setup.stage {
            ShareStage::Failed(e) => e.message(),
            _ => "not failed".to_string(),
        }
    };
    assert_eq!(fails(0, ShareReply::NotDx12), "CUDA interop requires the Vulkan backend");
    assert_eq!(
        fails(1, ShareReply::Resource { resource: None, size: 0 }),
        "Vulkan interop: CreateCommittedResource returned None"
    );
    assert_eq!(
        fails(1, ShareReply::Refused("full".into())),
        "Vulkan interop: DX12 CreateCommittedResource: full"
    );
    assert_eq!(
        fails(3, ShareReply::Refused("no".into())),
        "Vulkan interop: DX12 CreateSharedHandle: no"
    );
    let cuda = CudaInteropError::CudaError { function: "cuImportExternalMemory", code: 1 };
    assert_eq!(
        fails(4, ShareReply::CudaFailed(cuda)),
        "CUDA error 1 in cuImportExternalMemory"
    );
    assert_eq!(fails(4, ShareReply::Done), "not failed");
}

#[test]
fn pixel_buffers_are_mapped_plane_by_plane() {
    assert!(is_supported_format(PIXEL_FORMAT_VIDEO_RANGE));
    assert!(is_supported_format(PIXEL_FORMAT_FULL_RANGE));
    let (y, uv) = import_nv12(PIXEL_FORMAT_FULL_RANGE, (1920, 1080), (960, 540)).unwrap();
    assert_eq!((y.plane_index, y.mtl_format, y.channels, y.width), (0, 10, 1, 1920));
    assert_eq!((uv.plane_index, uv.mtl_format, uv.channels, uv.height), (1, 30, 2, 540));
    assert_eq!(
        import_nv12(0x2a, (2, 2), (1, 1)).unwrap_err().message(),
        "unsupported CVPixelBuffer format: 0x0000002a"
    );
    let mapped = import_plane(PlaneStage::MapPlane, 0, 7);
    assert!(matches!(mapped, PlaneStage::GetTexture { cv_texture: 7 }));
    let ready = import_plane(mapped, 0, 8);
    assert!(matches!(ready, PlaneStage::Ready { cv_texture: 7, mtl_texture: 8 }));
    let refused = import_plane(PlaneStage::MapPlane, -6660, 0);
    match refused {
        PlaneStage::Failed(e) => assert_eq!(
            e.message(),
            "CVMetalTextureCacheCreateTextureFromImage failed (CVReturn -6660)"
        ),
        _ => panic!("the plane is not mapped"),
    }
    let empty = import_plane(PlaneStage::GetTexture { cv_texture: 7 }, 0, 0);
    assert!(matches!(empty, PlaneStage::Release { cv_texture: 7 }));
    assert!(matches!(
        import_plane(empty, 0, 0),
        PlaneStage::Failed(MetalInteropError::NullTexture)
    ));
    assert_eq!(
        MetalInteropError::NullTexture.message(),
        "CVMetalTextureGetTexture returned null"
    );
    assert!(cache_created(true, 0).is_ok());
    assert_eq!(cache_created(false, 0).unwrap_err().message(), "wgpu backend is not Metal");
    assert_eq!(
        cache_created(true, -1).unwrap_err().message(),
        "CVMetalTextureCacheCreate failed (CVReturn -1)"
    );
}

fn prediction() -> PredictReport {
    PredictReport {
        tensor_is_null: false,
        array: None,
        provider: None,
        prediction: None,
        has_output: true,
        is_array: true,
        shape: vec![1, 6, 8400],
    }
}

#[test]
fn predictions_report_the_first_fault() {
    assert_eq!(predict(&prediction()).unwrap(), 6);
    let text = |r: PredictReport| predict(&r).unwrap_err().message();
    let some = || Some("bad".to_string());
    assert_eq!(
        text(PredictReport { tensor_is_null: true, array: some(), ..prediction() }),
        "CoreML array creation: null tensor pointer"
    );
    assert_eq!(
        text(PredictReport { array: some(), provider: some(), ..prediction() }),
        "CoreML array creation: bad"
    );
    assert_eq!(
        text(PredictReport { provider: some(), ..prediction() }),
        "CoreML feature provider: bad"
    );
    assert_eq!(
        text(PredictReport { prediction: some(), ..prediction() }),
        "CoreML prediction: bad"
    );
    assert_eq!(
        text(PredictReport { has_output: false, ..prediction() }),
        "CoreML output extraction: output feature not found"
    );
    assert_eq!(
        text(PredictReport { is_array: false, ..prediction() }),
        "CoreML output extraction: output is not MLMultiArray"
    );
    assert_eq!(model_path(Some("a.mlmodelc".into())).unwrap(), "a.mlmodelc");
    assert!(matches!(model_path(None), Err(CoreMlError::ModelLoad(_))));
    assert_eq!(model_path(None).unwrap_err().message(), "CoreML model load: invalid path");
}

#[test]
fn tensors_are_laid_out_in_rows() {
    let s = strides(TensorShape { n: 1, c: 3, h: 640, w: 480 });
    assert_eq!((s.n, s.c, s.h, s.w), (921_600, 307_200, 480, 1));
}
