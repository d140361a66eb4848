//! Sharing device memory between CUDA and a graphics API.
//!
//! The driver is loaded at run time and called by whoever owns it. What is
//! decided here: which libraries and symbols to look for, which call comes
//! next and with which arguments, and what the answers amount to.

use crate::grid::{align_up, aligned, div_ceil, groups};
use crate::text::{decimal, decimal_signed, joined, push_decimal, push_decimal_signed};
use vstd::prelude::*;

verus! {

/// An address in device memory.
pub type CUdeviceptr = u64;

/// What a driver call returns when it succeeds.
pub const CUDA_SUCCESS: i32 = 0;

/// Pinned memory, which shareable allocations require.
pub const CU_MEM_ALLOCATION_TYPE_PINNED: u32 = 1;

/// Memory of a device.
pub const CU_MEM_LOCATION_TYPE_DEVICE: u32 = 1;

/// Share as a file descriptor.
pub const CU_MEM_HANDLE_TYPE_POSIX_FILE_DESCRIPTOR: u32 = 1;

/// Share as a handle of the system.
pub const CU_MEM_HANDLE_TYPE_WIN32: u32 = 2;

/// Readable and writable.
pub const CU_MEM_ACCESS_FLAGS_PROT_READWRITE: u32 = 3;

/// Ask for the least granularity.
pub const CU_MEM_ALLOC_GRANULARITY_MINIMUM: u32 = 0;

/// Main memory, in a copy.
pub const CU_MEMORYTYPE_HOST: u32 = 1;

/// Device memory, in a copy.
pub const CU_MEMORYTYPE_DEVICE: u32 = 2;

/// Threads per kernel block, across and down.
pub const BLOCK_SIZE: u32 = 16;

/// Why sharing memory failed.
#[derive(Clone, Debug)]
pub enum CudaInteropError {
    /// The driver is not there.
    NotAvailable(String),
    /// A driver call failed.
    CudaError {
        /// The call.
        function: &'static str,
        /// What it returned.
        code: i32,
    },
    /// The graphics side failed.
    VulkanError(String),
    /// The graphics side is not one that memory can be shared with.
    NotVulkan,
}

impl CudaInteropError {
    /// The message of the error.
    pub open spec fn text(&self) -> Seq<char> {
        match *self {
            CudaInteropError::NotAvailable(e) => "CUDA not available: "@ + e@,
            CudaInteropError::CudaError { function, code } => "CUDA error "@ + decimal_signed(
                code as int,
            ) + " in "@ + function@,
            CudaInteropError::VulkanError(e) => "Vulkan interop: "@ + e@,
            CudaInteropError::NotVulkan => "CUDA interop requires the Vulkan backend"@,
        }
    }

    /// The message of the error.
    pub fn message(&self) -> (text: String)
        ensures
            text@ == self.text(),
    {
        match self {
            CudaInteropError::NotAvailable(e) => joined("CUDA not available: ", e.as_str()),
            CudaInteropError::CudaError { function, code } => {
                let mut text: String = "CUDA error ".to_owned();
                push_decimal_signed(&mut text, *code as i64);
                text.push_str(" in ");
                text.push_str(function);
                text
            },
            CudaInteropError::VulkanError(e) => joined("Vulkan interop: ", e.as_str()),
            CudaInteropError::NotVulkan => "CUDA interop requires the Vulkan backend".to_owned(),
        }
    }
}

/// Identifies a device to both APIs.
#[derive(Clone, Copy, Debug)]
pub struct CUuuid {
    /// The identifier.
    pub bytes: [u8; 16],
}

/// The call `function` failed with `code`.
pub open spec fn failed_call(error: CudaInteropError, function: Seq<char>, code: i32) -> bool {
    error matches CudaInteropError::CudaError { function: f, code: c } && f@ == function && c
        == code
}

/// Turn what a driver call returned into a result.
pub fn check_cuda(function: &'static str, result: i32) -> (checked: Result<(), CudaInteropError>)
    ensures
        checked is Ok <==> result == CUDA_SUCCESS,
        checked matches Err(e) ==> failed_call(e, function@, result),
{
    if result == CUDA_SUCCESS {
        Ok(())
    } else {
        Err(CudaInteropError::CudaError { function, code: result })
    }
}

/// The systems the driver exists for.
#[derive(Clone, Copy, Debug, PartialEq, Eq, Structural)]
pub enum Platform {
    /// Linux.
    Linux,
    /// Windows.
    Windows,
}

impl Platform {
    /// How memory is shared here.
    pub open spec fn sharing(self) -> u32 {
        match self {
            Platform::Linux => CU_MEM_HANDLE_TYPE_POSIX_FILE_DESCRIPTOR,
            Platform::Windows => CU_MEM_HANDLE_TYPE_WIN32,
        }
    }

    /// How memory is shared here.
    pub fn handle_type(self) -> (kind: u32)
        ensures
            kind == self.sharing(),
    {
        match self {
            Platform::Linux => CU_MEM_HANDLE_TYPE_POSIX_FILE_DESCRIPTOR,
            Platform::Windows => CU_MEM_HANDLE_TYPE_WIN32,
        }
    }

    /// The driver's library.
    pub open spec fn driver(self) -> Seq<char> {
        match self {
            Platform::Linux => "libcuda.so.1"@,
            Platform::Windows => "nvcuda.dll"@,
        }
    }

    /// The driver's library.
    pub fn driver_library(self) -> (name: &'static str)
        ensures
            name@ == self.driver(),
    {
        match self {
            Platform::Linux => "libcuda.so.1",
            Platform::Windows => "nvcuda.dll",
        }
    }

    /// The runtime's libraries, in the order they are tried: unversioned and
    /// then newest first.
    pub open spec fn runtimes(self) -> Seq<Seq<char>> {
        match self {
            Platform::Linux => seq!["libcudart.so"@, "libcudart.so.12"@, "libcudart.so.11"@],
            Platform::Windows => Seq::new(
                21,
                |i: int| "cudart64_"@ + decimal((20 - i) as nat) + "0.dll"@,
            ),
        }
    }

    /// The runtime's libraries, in the order they are tried.
    pub fn runtime_candidates(self) -> (names: Vec<String>)
        ensures
            crate::calibration::texts(names@) == self.runtimes(),
    {
        let mut names: Vec<String> = Vec::new();
        match self {
            Platform::Linux => {
                names.push("libcudart.so".to_owned());
                names.push("libcudart.so.12".to_owned());
                names.push("libcudart.so.11".to_owned());
            },
            Platform::Windows => {
                let mut i: u64 = 0;
                while i < 21
                    invariant
                        i <= 21,
                        names@.len() == i,
                        self == Platform::Windows,
                        forall|k: int| 0 <= k < i ==> (#[trigger] names@[k])@ == self.runtimes()[k],
                    decreases 21 - i,
                {
                    let mut name: String = "cudart64_".to_owned();
                    push_decimal(&mut name, 20 - i);
                    name.push_str("0.dll");
                    names.push(name);
                    i = i + 1;
                }
            },
        }
        assert(crate::calibration::texts(names@) =~= self.runtimes());
        names
    }
}

/// The symbol that tells the current device: the runtime's where there is one,
/// else the driver's.
pub open spec fn device_query(has_runtime: bool) -> Seq<char> {
    if has_runtime {
        "cudaGetDevice"@
    } else {
        "cuCtxGetDevice"@
    }
}

/// The symbol that tells the current device.
pub fn device_symbol(has_runtime: bool) -> (name: &'static str)
    ensures
        name@ == device_query(has_runtime),
{
    if has_runtime {
        "cudaGetDevice"
    } else {
        "cuCtxGetDevice"
    }
}

/// The driver's symbols, in the order they are resolved.
pub open spec fn driver_symbols() -> Seq<Seq<char>> {
    seq![
        "cuDeviceGetUuid"@,
        "cuCtxSynchronize"@,
        "cuInit"@,
        "cuDeviceGet"@,
        "cuDevicePrimaryCtxRetain"@,
        "cuCtxGetCurrent"@,
        "cuCtxSetCurrent"@,
        "cuMemGetAllocationGranularity"@,
        "cuMemAddressReserve"@,
        "cuMemCreate"@,
        "cuMemExportToShareableHandle"@,
        "cuMemMap"@,
        "cuMemSetAccess"@,
        "cuMemRelease"@,
        "cuMemUnmap"@,
        "cuMemAddressFree"@,
        "cuMemcpy2D_v2"@,
        "cuMemAlloc_v2"@,
        "cuMemFree_v2"@,
        "cuMemcpyDtoH_v2"@,
        "cuMemsetD8_v2"@,
        "cuModuleLoadData"@,
        "cuModuleUnload"@,
        "cuModuleGetFunction"@,
        "cuLaunchKernel"@,
    ]
}

/// The driver's symbols, in the order they are resolved.
pub fn required_symbols() -> (names: Vec<&'static str>)
    ensures
        names@.map_values(|n: &str| n@) == driver_symbols(),
{
    let names: Vec<&'static str> = vec![
        "cuDeviceGetUuid",
        "cuCtxSynchronize",
        "cuInit",
        "cuDeviceGet",
        "cuDevicePrimaryCtxRetain",
        "cuCtxGetCurrent",
        "cuCtxSetCurrent",
        "cuMemGetAllocationGranularity",
        "cuMemAddressReserve",
        "cuMemCreate",
        "cuMemExportToShareableHandle",
        "cuMemMap",
        "cuMemSetAccess",
        "cuMemRelease",
        "cuMemUnmap",
        "cuMemAddressFree",
        "cuMemcpy2D_v2",
        "cuMemAlloc_v2",
        "cuMemFree_v2",
        "cuMemcpyDtoH_v2",
        "cuMemsetD8_v2",
        "cuModuleLoadData",
        "cuModuleUnload",
        "cuModuleGetFunction",
        "cuLaunchKernel",
    ];
    assert(names@.map_values(|n: &str| n@) =~= driver_symbols());
    names
}

/// What looking for the driver found: an error text for each thing that was
/// not there.
#[derive(Clone, Debug)]
pub struct LoadReport {
    /// The platform.
    pub platform: Platform,
    /// Why the driver's library could not be opened.
    pub driver: Option<String>,
    /// Whether a runtime library was opened.
    pub has_runtime: bool,
    /// Why the device symbol could not be resolved.
    pub device_symbol: Option<String>,
    /// Why each driver symbol could not be resolved, in order.
    pub symbols: Vec<Option<String>>,
}

/// The first symbol from the `i`th on that is missing, with its reason.
pub open spec fn first_missing(symbols: Seq<Option<String>>, i: nat) -> Option<Seq<char>>
    decreases symbols.len() - i,
{
    if i >= symbols.len() {
        None
    } else {
        match symbols[i as int] {
            Some(reason) => Some(driver_symbols()[i as int] + ": "@ + reason@),
            None => first_missing(symbols, i + 1),
        }
    }
}

impl LoadReport {
    /// Why the driver cannot be used, if it cannot.
    pub open spec fn problem(&self) -> Option<Seq<char>> {
        match self.driver {
            Some(reason) => Some(
                "Failed to load "@ + self.platform.driver() + ": "@ + reason@,
            ),
            None => match self.device_symbol {
                Some(reason) => Some(device_query(self.has_runtime) + ": "@ + reason@),
                None => first_missing(self.symbols@, 0),
            },
        }
    }

    /// Whether the driver can be used, or the first reason why not.
    pub fn outcome(&self) -> (outcome: Result<(), CudaInteropError>)
        requires
            self.symbols@.len() == driver_symbols().len(),
        ensures
            outcome is Ok <==> self.problem() is None,
            outcome matches Err(e) ==> e matches CudaInteropError::NotAvailable(text) && Some(text@)
                == self.problem(),
    {
        if let Some(reason) = &self.driver {
            let mut text: String = "Failed to load ".to_owned();
            text.push_str(self.platform.driver_library());
            text.push_str(": ");
            text.push_str(reason.as_str());
            return Err(CudaInteropError::NotAvailable(text));
        }
        if let Some(reason) = &self.device_symbol {
            let mut text: String = device_symbol(self.has_runtime).to_owned();
            text.push_str(": ");
            text.push_str(reason.as_str());
            return Err(CudaInteropError::NotAvailable(text));
        }
        let names = required_symbols();
        let mut i: usize = 0;
        while i < self.symbols.len()
            invariant
                i <= self.symbols@.len(),
                self.symbols@.len() == driver_symbols().len(),
                names@.map_values(|n: &str| n@) == driver_symbols(),
                self.driver is None,
                self.device_symbol is None,
                first_missing(self.symbols@, 0) == first_missing(self.symbols@, i as nat),
            decreases self.symbols@.len() - i,
        {
            assert(names@.map_values(|n: &str| n@)[i as int] == names@[i as int]@);
            if let Some(reason) = &self.symbols[i] {
                let mut text: String = names[i].to_owned();
                text.push_str(": ");
                text.push_str(reason.as_str());
                return Err(CudaInteropError::NotAvailable(text));
            }
            i = i + 1;
        }
        Ok(())
    }
}

/// Whether the driver and all its symbols are there.
pub fn is_cuda_available(report: &LoadReport) -> (available: bool)
    requires
        report.symbols@.len() == driver_symbols().len(),
    ensures
        available == report.problem() is None,
{
    report.outcome().is_ok()
}

/// Memory that CUDA and a graphics API share.
#[derive(Clone, Copy, Debug, PartialEq, Eq, Structural)]
pub struct CudaSharedMemory {
    /// Device address.
    pub device_ptr: CUdeviceptr,
    /// Size in bytes, a multiple of the granularity.
    pub alloc_size: u64,
    /// The handle the other side imports.
    pub shared_handle: i64,
}

/// A driver call of a shared allocation, with its arguments.
#[derive(Clone, Copy, Debug, PartialEq, Eq, Structural)]
pub enum AllocCall {
    /// Ask for the current device.
    GetDevice,
    /// Ask how allocations are rounded on the device.
    GetGranularity {
        /// The device.
        device: i32,
        /// How the memory will be shared.
        handle_type: u32,
    },
    /// Reserve addresses.
    Reserve {
        /// Number of bytes.
        size: u64,
        /// Alignment in bytes.
        alignment: u64,
    },
    /// Create the memory.
    Create {
        /// The device.
        device: i32,
        /// How the memory will be shared.
        handle_type: u32,
        /// Number of bytes.
        size: u64,
    },
    /// Export the memory.
    Export {
        /// The memory.
        handle: u64,
        /// How it is shared.
        handle_type: u32,
    },
    /// Map the memory to the reserved addresses.
    MapMemory {
        /// First address.
        device_ptr: CUdeviceptr,
        /// Number of bytes.
        size: u64,
        /// The memory.
        handle: u64,
    },
    /// Let go of the memory's handle; the mapping keeps it.
    Release {
        /// The memory.
        handle: u64,
    },
    /// Make the addresses readable and writable.
    SetAccess {
        /// First address.
        device_ptr: CUdeviceptr,
        /// Number of bytes.
        size: u64,
        /// The device.
        device: i32,
    },
}

impl AllocCall {
    /// Name of the driver call.
    pub open spec fn function(self) -> Seq<char> {
        match self {
            AllocCall::GetDevice => "cudaGetDevice"@,
            AllocCall::GetGranularity { .. } => "cuMemGetAllocationGranularity"@,
            AllocCall::Reserve { .. } => "cuMemAddressReserve"@,
            AllocCall::Create { .. } => "cuMemCreate"@,
            AllocCall::Export { .. } => "cuMemExportToShareableHandle"@,
            AllocCall::MapMemory { .. } => "cuMemMap"@,
            AllocCall::Release { .. } => "cuMemRelease"@,
            AllocCall::SetAccess { .. } => "cuMemSetAccess"@,
        }
    }

    /// Name of the driver call.
    pub fn name(self) -> (name: &'static str)
        ensures
            name@ == self.function(),
    {
        match self {
            AllocCall::GetDevice => "cudaGetDevice",
            AllocCall::GetGranularity { .. } => "cuMemGetAllocationGranularity",
            AllocCall::Reserve { .. } => "cuMemAddressReserve",
            AllocCall::Create { .. } => "cuMemCreate",
            AllocCall::Export { .. } => "cuMemExportToShareableHandle",
            AllocCall::MapMemory { .. } => "cuMemMap",
            AllocCall::Release { .. } => "cuMemRelease",
            AllocCall::SetAccess { .. } => "cuMemSetAccess",
        }
    }
}

/// How far a shared allocation has come, and what it knows by then.
#[derive(Clone, Copy, Debug, PartialEq, Eq, Structural)]
pub enum AllocStage {
    /// Nothing is known.
    Start,
    /// The device is known.
    Located {
        /// The device.
        device: i32,
    },
    /// The rounding is known.
    Sized {
        /// The device.
        device: i32,
        /// Rounding in bytes.
        granularity: u64,
        /// Rounded size.
        alloc_size: u64,
    },
    /// Addresses are reserved.
    Reserved {
        /// The device.
        device: i32,
        /// Rounded size.
        alloc_size: u64,
        /// First address.
        device_ptr: CUdeviceptr,
    },
    /// The memory exists.
    Created {
        /// The device.
        device: i32,
        /// Rounded size.
        alloc_size: u64,
        /// First address.
        device_ptr: CUdeviceptr,
        /// The memory.
        handle: u64,
    },
    /// The memory is exported.
    Exported {
        /// The device.
        device: i32,
        /// What the allocation will be.
        memory: CudaSharedMemory,
        /// The memory.
        handle: u64,
    },
    /// The memory is mapped.
    Mapped {
        /// The device.
        device: i32,
        /// What the allocation will be.
        memory: CudaSharedMemory,
        /// The memory.
        handle: u64,
    },
    /// The handle is released.
    Released {
        /// The device.
        device: i32,
        /// What the allocation will be.
        memory: CudaSharedMemory,
    },
    /// The allocation can be used.
    Ready {
        /// The allocation.
        memory: CudaSharedMemory,
    },
    /// A call failed.
    Failed {
        /// The call.
        call: AllocCall,
        /// What it returned.
        code: i32,
    },
}

/// A shared allocation under way.
#[derive(Clone, Copy, Debug, PartialEq, Eq, Structural)]
pub struct SharedAllocation {
    /// Number of bytes asked for.
    pub size: u64,
    /// The platform.
    pub platform: Platform,
    /// How far it has come.
    pub stage: AllocStage,
}

impl SharedAllocation {
    /// The call to make next, until the allocation is ready or has failed.
    pub open spec fn pending(self) -> Option<AllocCall> {
        match self.stage {
            AllocStage::Start => Some(AllocCall::GetDevice),
            AllocStage::Located { device } => Some(
                AllocCall::GetGranularity { device, handle_type: self.platform.sharing() },
            ),
            AllocStage::Sized { granularity, alloc_size, .. } => Some(
                AllocCall::Reserve { size: alloc_size, alignment: granularity },
            ),
            AllocStage::Reserved { device, alloc_size, .. } => Some(
                AllocCall::Create {
                    device,
                    handle_type: self.platform.sharing(),
                    size: alloc_size,
                },
            ),
            AllocStage::Created { handle, .. } => Some(
                AllocCall::Export { handle, handle_type: self.platform.sharing() },
            ),
            AllocStage::Exported { memory, handle, .. } => Some(
                AllocCall::MapMemory { device_ptr: memory.device_ptr, size: memory.alloc_size, handle },
            ),
            AllocStage::Mapped { handle, .. } => Some(AllocCall::Release { handle }),
            AllocStage::Released { device, memory } => Some(
                AllocCall::SetAccess {
                    device_ptr: memory.device_ptr,
                    size: memory.alloc_size,
                    device,
                },
            ),
            _ => None,
        }
    }

    /// How far the allocation has come once the pending call has returned
    /// `code` and written `value`.
    pub open spec fn stage_after(self, code: i32, value: u64) -> AllocStage {
        match self.pending() {
            None => self.stage,
            Some(call) => if code != CUDA_SUCCESS {
                AllocStage::Failed { call, code }
            } else {
                match self.stage {
                    AllocStage::Start => AllocStage::Located { device: value as i32 },
                    AllocStage::Located { device } => AllocStage::Sized {
                        device,
                        granularity: value,
                        alloc_size: aligned(self.size as nat, value as nat) as u64,
                    },
                    AllocStage::Sized { device, alloc_size, .. } => AllocStage::Reserved {
                        device,
                        alloc_size,
                        device_ptr: value,
                    },
                    AllocStage::Reserved { device, alloc_size, device_ptr } =>
                        AllocStage::Created { device, alloc_size, device_ptr, handle: value },
                    AllocStage::Created { device, alloc_size, device_ptr, handle } =>
                        AllocStage::Exported {
                        device,
                        memory: CudaSharedMemory {
                            device_ptr,
                            alloc_size,
                            shared_handle: value as i64,
                        },
                        handle,
                    },
                    AllocStage::Exported { device, memory, handle } => AllocStage::Mapped {
                        device,
                        memory,
                        handle,
                    },
                    AllocStage::Mapped { device, memory, .. } => AllocStage::Released {
                        device,
                        memory,
                    },
                    AllocStage::Released { memory, .. } => AllocStage::Ready { memory },
                    other => other,
                }
            },
        }
    }

    /// Start an allocation of `size` bytes.
    pub fn new(size: u64, platform: Platform) -> (allocation: Self)
        ensures
            allocation == (SharedAllocation { size, platform, stage: AllocStage::Start }),
    {
        SharedAllocation { size, platform, stage: AllocStage::Start }
    }

    /// The call to make next, until the allocation is ready or has failed.
    pub fn next_call(&self) -> (call: Option<AllocCall>)
        ensures
            call == self.pending(),
    {
        match self.stage {
            AllocStage::Start => Some(AllocCall::GetDevice),
            AllocStage::Located { device } => Some(
                AllocCall::GetGranularity { device, handle_type: self.platform.handle_type() },
            ),
            AllocStage::Sized { granularity, alloc_size, .. } => Some(
                AllocCall::Reserve { size: alloc_size, alignment: granularity },
            ),
            AllocStage::Reserved { device, alloc_size, .. } => Some(
                AllocCall::Create {
                    device,
                    handle_type: self.platform.handle_type(),
                    size: alloc_size,
                },
            ),
            AllocStage::Created { handle, .. } => Some(
                AllocCall::Export { handle, handle_type: self.platform.handle_type() },
            ),
            AllocStage::Exported { memory, handle, .. } => Some(
                AllocCall::MapMemory { device_ptr: memory.device_ptr, size: memory.alloc_size, handle },
            ),
            AllocStage::Mapped { handle, .. } => Some(AllocCall::Release { handle }),
            AllocStage::Released { device, memory } => Some(
                AllocCall::SetAccess {
                    device_ptr: memory.device_ptr,
                    size: memory.alloc_size,
                    device,
                },
            ),
            AllocStage::Ready { .. } => None,
            AllocStage::Failed { .. } => None,
        }
    }

    /// Take what the pending call returned and what it wrote. A failed call
    /// ends the allocation; the rounding a device reports is not zero.
    pub fn reply(&mut self, code: i32, value: u64)
        requires
            old(self).stage is Located && code == CUDA_SUCCESS ==> value > 0 && aligned(
                old(self).size as nat,
                value as nat,
            ) <= u64::MAX,
        ensures
            *final(self) == (SharedAllocation {
                stage: old(self).stage_after(code, value),
                ..*old(self)
            }),
    {
        let call = match self.next_call() {
            Some(call) => call,
            None => {
                return ;
            },
        };
        if code != CUDA_SUCCESS {
            self.stage = AllocStage::Failed { call, code };
            return ;
        }
        self.stage =
        match self.stage {
            AllocStage::Start => AllocStage::Located { device: value as i32 },
            AllocStage::Located { device } => AllocStage::Sized {
                device,
                granularity: value,
                alloc_size: align_up(self.size, value),
            },
            AllocStage::Sized { device, alloc_size, .. } => AllocStage::Reserved {
                device,
                alloc_size,
                device_ptr: value,
            },
            AllocStage::Reserved { device, alloc_size, device_ptr } => AllocStage::Created {
                device,
                alloc_size,
                device_ptr,
                handle: value,
            },
            AllocStage::Created { device, alloc_size, device_ptr, handle } => AllocStage::Exported {
                device,
                memory: CudaSharedMemory { device_ptr, alloc_size, shared_handle: value as i64 },
                handle,
            },
            AllocStage::Exported { device, memory, handle } => AllocStage::Mapped {
                device,
                memory,
                handle,
            },
            AllocStage::Mapped { device, memory, .. } => AllocStage::Released { device, memory },
            AllocStage::Released { memory, .. } => AllocStage::Ready { memory },
            AllocStage::Ready { memory } => AllocStage::Ready { memory },
            AllocStage::Failed { call, code } => AllocStage::Failed { call, code },
        };
    }

    /// The allocation, or the call that failed; nothing while calls are
    /// pending.
    pub fn outcome(&self) -> (outcome: Option<Result<CudaSharedMemory, CudaInteropError>>)
        ensures
            match self.stage {
                AllocStage::Ready { memory } => outcome matches Some(Ok(m)) && m == memory,
                AllocStage::Failed { call, code } => outcome matches Some(Err(e)) && failed_call(
                    e,
                    call.function(),
                    code,
                ),
                _ => outcome is None,
            },
    {
        match self.stage {
            AllocStage::Ready { memory } => Some(Ok(memory)),
            AllocStage::Failed { call, code } => Some(
                Err(CudaInteropError::CudaError { function: call.name(), code }),
            ),
            _ => None,
        }
    }
}

/// An allocation after the given replies.
pub open spec fn allocation_after(start: SharedAllocation, replies: Seq<(i32, u64)>) -> SharedAllocation
    decreases replies.len(),
{
    if replies.len() == 0 {
        start
    } else {
        let before = allocation_after(start, replies.drop_last());
        SharedAllocation {
            stage: before.stage_after(replies.last().0, replies.last().1),
            ..before
        }
    }
}

/// Eight successful calls make an allocation that is large enough, is a
/// multiple of the granularity, and carries the addresses and the handle the
/// driver gave.
pub proof fn law_successful_calls_allocate(size: u64, platform: Platform, values: Seq<u64>)
    requires
        values.len() == 8,
        values[1] > 0,
        aligned(size as nat, values[1] as nat) <= u64::MAX,
    ensures
        ({
            let start = SharedAllocation { size, platform, stage: AllocStage::Start };
            let replies = values.map_values(|v: u64| (CUDA_SUCCESS, v));
            let memory = CudaSharedMemory {
                device_ptr: values[2],
                alloc_size: aligned(size as nat, values[1] as nat) as u64,
                shared_handle: values[4] as i64,
            };
            &&& allocation_after(start, replies).stage == AllocStage::Ready { memory }
            &&& memory.alloc_size >= size
            &&& memory.alloc_size % values[1] == 0
        }),
{
    let start = SharedAllocation { size, platform, stage: AllocStage::Start };
    let replies = values.map_values(|v: u64| (CUDA_SUCCESS, v));
    crate::grid::law_align_up(size as nat, values[1] as nat);
    reveal_with_fuel(allocation_after, 2);
    assert(replies.take(0) =~= Seq::empty());
    assert(replies.take(1).drop_last() =~= replies.take(0));
    assert(replies.take(2).drop_last() =~= replies.take(1));
    assert(replies.take(3).drop_last() =~= replies.take(2));
    assert(replies.take(4).drop_last() =~= replies.take(3));
    assert(replies.take(5).drop_last() =~= replies.take(4));
    assert(replies.take(6).drop_last() =~= replies.take(5));
    assert(replies.take(7).drop_last() =~= replies.take(6));
    assert(replies.drop_last() =~= replies.take(7));
    assert(allocation_after(start, replies.take(1)).stage is Located);
    assert(allocation_after(start, replies.take(2)).stage is Sized);
    assert(allocation_after(start, replies.take(3)).stage is Reserved);
    assert(allocation_after(start, replies.take(4)).stage is Created);
    assert(allocation_after(start, replies.take(5)).stage is Exported);
    assert(allocation_after(start, replies.take(6)).stage is Mapped);
    assert(allocation_after(start, replies.take(7)).stage is Released);
}

/// Once a call has failed no further call is made, and the outcome stays that
/// call's.
pub proof fn law_failed_allocation_stays_failed(
    allocation: SharedAllocation,
    call: AllocCall,
    code: i32,
    later: (i32, u64),
)
    requires
        allocation.stage == (AllocStage::Failed { call, code }),
    ensures
        allocation.pending() is None,
        allocation.stage_after(later.0, later.1) == allocation.stage,
{
}

/// A driver call that makes a context current.
#[derive(Clone, Copy, Debug, PartialEq, Eq, Structural)]
pub enum ContextCall {
    /// Initialize the driver.
    Init,
    /// Ask for the current context.
    GetCurrent,
    /// Ask for the first device.
    DeviceGet,
    /// Retain the device's primary context.
    Retain {
        /// The device.
        device: i32,
    },
    /// Make a context current.
    SetCurrent {
        /// The context.
        context: u64,
    },
}

impl ContextCall {
    /// Name of the driver call.
    pub open spec fn function(self) -> Seq<char> {
        match self {
            ContextCall::Init => "cuInit"@,
            ContextCall::GetCurrent => "cuCtxGetCurrent"@,
            ContextCall::DeviceGet => "cuDeviceGet"@,
            ContextCall::Retain { .. } => "cuDevicePrimaryCtxRetain"@,
            ContextCall::SetCurrent { .. } => "cuCtxSetCurrent"@,
        }
    }

    /// Name of the driver call.
    pub fn name(self) -> (name: &'static str)
        ensures
            name@ == self.function(),
    {
        match self {
            ContextCall::Init => "cuInit",
            ContextCall::GetCurrent => "cuCtxGetCurrent",
            ContextCall::DeviceGet => "cuDeviceGet",
            ContextCall::Retain { .. } => "cuDevicePrimaryCtxRetain",
            ContextCall::SetCurrent { .. } => "cuCtxSetCurrent",
        }
    }
}

/// How far making a context current has come.
#[derive(Clone, Copy, Debug, PartialEq, Eq, Structural)]
pub enum ContextStage {
    /// This call comes next.
    Calling {
        /// The call.
        call: ContextCall,
    },
    /// A context is current.
    Ready,
    /// A call failed.
    Failed {
        /// The call.
        call: ContextCall,
        /// What it returned.
        code: i32,
    },
}

/// What comes after a call that returned `code` and wrote `value`: a thread
/// that has a context keeps it, and one that has none gets the first device's.
pub open spec fn context_after(stage: ContextStage, code: i32, value: u64) -> ContextStage {
    match stage {
        ContextStage::Calling { call } => if code != CUDA_SUCCESS {
            ContextStage::Failed { call, code }
        } else {
            match call {
                ContextCall::Init => ContextStage::Calling { call: ContextCall::GetCurrent },
                ContextCall::GetCurrent => if value == 0 {
                    ContextStage::Calling { call: ContextCall::DeviceGet }
                } else {
                    ContextStage::Ready
                },
                ContextCall::DeviceGet => ContextStage::Calling {
                    call: ContextCall::Retain { device: value as i32 },
                },
                ContextCall::Retain { .. } => ContextStage::Calling {
                    call: ContextCall::SetCurrent { context: value },
                },
                ContextCall::SetCurrent { .. } => ContextStage::Ready,
            }
        },
        other => other,
    }
}

/// The call that making a context current starts with.
pub fn cuda_ensure_context() -> (stage: ContextStage)
    ensures
        stage == (ContextStage::Calling { call: ContextCall::Init }),
{
    ContextStage::Calling { call: ContextCall::Init }
}

/// Take what a call returned and what it wrote.
pub fn cuda_ensure_context_step(stage: ContextStage, code: i32, value: u64) -> (next: ContextStage)
    ensures
        next == context_after(stage, code, value),
{
    match stage {
        ContextStage::Calling { call } => {
            if code != CUDA_SUCCESS {
                return ContextStage::Failed { call, code };
            }
            match call {
                ContextCall::Init => ContextStage::Calling { call: ContextCall::GetCurrent },
                ContextCall::GetCurrent => {
                    if value == 0 {
                        ContextStage::Calling { call: ContextCall::DeviceGet }
                    } else {
                        ContextStage::Ready
                    }
                },
                ContextCall::DeviceGet => ContextStage::Calling {
                    call: ContextCall::Retain { device: value as i32 },
                },
                ContextCall::Retain { .. } => ContextStage::Calling {
                    call: ContextCall::SetCurrent { context: value },
                },
                ContextCall::SetCurrent { .. } => ContextStage::Ready,
            }
        },
        ContextStage::Ready => ContextStage::Ready,
        ContextStage::Failed { call, code } => ContextStage::Failed { call, code },
    }
}

/// A thread that already has a context is left alone.
pub proof fn law_current_context_is_kept(context: u64)
    requires
        context != 0,
    ensures
        ({
            let start = ContextStage::Calling { call: ContextCall::Init };
            context_after(context_after(start, CUDA_SUCCESS, 0), CUDA_SUCCESS, context)
                == ContextStage::Ready
        }),
{
}

/// A region copied between two pitched buffers.
#[derive(Clone, Copy, Debug, PartialEq, Eq, Structural)]
pub struct CudaMemcpy2D {
    /// First byte of each source row.
    pub src_x_in_bytes: usize,
    /// First source row.
    pub src_y: usize,
    /// Where the source is.
    pub src_memory_type: u32,
    /// Source address in main memory.
    pub src_host: u64,
    /// Source address in device memory.
    pub src_device: CUdeviceptr,
    /// Bytes per source row.
    pub src_pitch: usize,
    /// First byte of each destination row.
    pub dst_x_in_bytes: usize,
    /// First destination row.
    pub dst_y: usize,
    /// Where the destination is.
    pub dst_memory_type: u32,
    /// Destination address in main memory.
    pub dst_host: u64,
    /// Destination address in device memory.
    pub dst_device: CUdeviceptr,
    /// Bytes per destination row.
    pub dst_pitch: usize,
    /// Bytes to copy of each row.
    pub width_in_bytes: usize,
    /// Rows to copy.
    pub height: usize,
}

/// Copy from main memory to the device.
pub fn cuda_memcpy_htod_2d(
    dst: CUdeviceptr,
    dst_pitch: usize,
    src: u64,
    src_pitch: usize,
    width_bytes: usize,
    height: usize,
) -> (region: CudaMemcpy2D)
    ensures
        region == (CudaMemcpy2D {
            src_x_in_bytes: 0,
            src_y: 0,
            src_memory_type: CU_MEMORYTYPE_HOST,
            src_host: src,
            src_device: 0,
            src_pitch,
            dst_x_in_bytes: 0,
            dst_y: 0,
            dst_memory_type: CU_MEMORYTYPE_DEVICE,
            dst_host: 0,
            dst_device: dst,
            dst_pitch,
            width_in_bytes: width_bytes,
            height,
        }),
{
    CudaMemcpy2D {
        src_x_in_bytes: 0,
        src_y: 0,
        src_memory_type: CU_MEMORYTYPE_HOST,
        src_host: src,
        src_device: 0,
        src_pitch,
        dst_x_in_bytes: 0,
        dst_y: 0,
        dst_memory_type: CU_MEMORYTYPE_DEVICE,
        dst_host: 0,
        dst_device: dst,
        dst_pitch,
        width_in_bytes: width_bytes,
        height,
    }
}

/// Copy between two places on the device.
pub fn cuda_2d_copy(
    dst: CUdeviceptr,
    dst_pitch: usize,
    src: CUdeviceptr,
    src_pitch: usize,
    width_bytes: usize,
    height: usize,
) -> (region: CudaMemcpy2D)
    ensures
        region == (CudaMemcpy2D {
            src_x_in_bytes: 0,
            src_y: 0,
            src_memory_type: CU_MEMORYTYPE_DEVICE,
            src_host: 0,
            src_device: src,
            src_pitch,
            dst_x_in_bytes: 0,
            dst_y: 0,
            dst_memory_type: CU_MEMORYTYPE_DEVICE,
            dst_host: 0,
            dst_device: dst,
            dst_pitch,
            width_in_bytes: width_bytes,
            height,
        }),
{
    CudaMemcpy2D {
        src_x_in_bytes: 0,
        src_y: 0,
        src_memory_type: CU_MEMORYTYPE_DEVICE,
        src_host: 0,
        src_device: src,
        src_pitch,
        dst_x_in_bytes: 0,
        dst_y: 0,
        dst_memory_type: CU_MEMORYTYPE_DEVICE,
        dst_host: 0,
        dst_device: dst,
        dst_pitch,
        width_in_bytes: width_bytes,
        height,
    }
}

/// Copy from the device to main memory.
pub fn cuda_2d_copy_dtoh(
    dst: u64,
    dst_pitch: usize,
    src: CUdeviceptr,
    src_pitch: usize,
    width_bytes: usize,
    height: usize,
) -> (region: CudaMemcpy2D)
    ensures
        region == (CudaMemcpy2D {
            src_x_in_bytes: 0,
            src_y: 0,
            src_memory_type: CU_MEMORYTYPE_DEVICE,
            src_host: 0,
            src_device: src,
            src_pitch,
            dst_x_in_bytes: 0,
            dst_y: 0,
            dst_memory_type: CU_MEMORYTYPE_HOST,
            dst_host: dst,
            dst_device: 0,
            dst_pitch,
            width_in_bytes: width_bytes,
            height,
        }),
{
    CudaMemcpy2D {
        src_x_in_bytes: 0,
        src_y: 0,
        src_memory_type: CU_MEMORYTYPE_DEVICE,
        src_host: 0,
        src_device: src,
        src_pitch,
        dst_x_in_bytes: 0,
        dst_y: 0,
        dst_memory_type: CU_MEMORYTYPE_HOST,
        dst_host: dst,
        dst_device: 0,
        dst_pitch,
        width_in_bytes: width_bytes,
        height,
    }
}

/// How a kernel is spread over the device.
#[derive(Clone, Copy, Debug, PartialEq, Eq, Structural)]
pub struct LaunchShape {
    /// Blocks across.
    pub grid_x: u32,
    /// Blocks down.
    pub grid_y: u32,
    /// Threads per block across.
    pub block_x: u32,
    /// Threads per block down.
    pub block_y: u32,
}

/// An argument of a kernel.
#[derive(Clone, Copy, Debug, PartialEq, Eq, Structural)]
pub enum KernelArg {
    /// An address on the device.
    Address(CUdeviceptr),
    /// A number.
    Number(u32),
}

/// A kernel to launch.
#[derive(Clone, Debug)]
pub struct KernelLaunch {
    /// How it is spread over the device.
    pub shape: LaunchShape,
    /// Bytes of shared memory.
    pub shared_mem: u32,
    /// Its arguments, in order.
    pub args: Vec<KernelArg>,
}

/// The launch that turns packed bytes at one address into planes of fractions at
/// another: one thread per pixel of the picture.
pub fn normalize_hwc_to_chw(
    src: CUdeviceptr,
    dst: CUdeviceptr,
    width: u32,
    height: u32,
) -> (launch: KernelLaunch)
    ensures
        launch.shape.grid_x == groups(width as nat, BLOCK_SIZE as nat),
        launch.shape.grid_y == groups(height as nat, BLOCK_SIZE as nat),
        launch.shape.block_x == BLOCK_SIZE,
        launch.shape.block_y == BLOCK_SIZE,
        launch.shared_mem == 0,
        launch.args@ == seq![
            KernelArg::Address(src),
            KernelArg::Address(dst),
            KernelArg::Number(width),
            KernelArg::Number(height),
        ],
{
    let launch = KernelLaunch {
        shape: LaunchShape {
            grid_x: div_ceil(width, BLOCK_SIZE),
            grid_y: div_ceil(height, BLOCK_SIZE),
            block_x: BLOCK_SIZE,
            block_y: BLOCK_SIZE,
        },
        shared_mem: 0,
        args: vec![
            KernelArg::Address(src),
            KernelArg::Address(dst),
            KernelArg::Number(width),
            KernelArg::Number(height),
        ],
    };
    assert(launch.args@ =~= seq![
        KernelArg::Address(src),
        KernelArg::Address(dst),
        KernelArg::Number(width),
        KernelArg::Number(height),
    ]);
    launch
}

/// The error a kernel that did not load gives every time it is wanted: the
/// driver's code, or minus one where there is none.
pub fn kernel_load_error(error: &CudaInteropError) -> (relabeled: CudaInteropError)
    ensures
        failed_call(
            relabeled,
            "normalize_hwc_to_chw_load"@,
            match *error {
                CudaInteropError::CudaError { code, .. } => code,
                _ => -1i32,
            },
        ),
{
    let code: i32 = match error {
        CudaInteropError::CudaError { code, .. } => *code,
        _ => -1,
    };
    CudaInteropError::CudaError { function: "normalize_hwc_to_chw_load", code }
}

/// The blocks reach every pixel.
pub proof fn law_launch_covers_picture(width: u32, height: u32)
    ensures
        groups(width as nat, BLOCK_SIZE as nat) * BLOCK_SIZE >= width,
        groups(height as nat, BLOCK_SIZE as nat) * BLOCK_SIZE >= height,
{
    crate::grid::law_groups_cover(width as nat, BLOCK_SIZE as nat);
    crate::grid::law_groups_cover(height as nat, BLOCK_SIZE as nat);
}

/// The calls of an allocation, in their order, each with what the calls before it gave: the
/// device, the granularity, the rounded size, the addresses and the memory. The memory is
/// created and exported for sharing the way the platform shares, and mapped where it was
/// reserved.
pub proof fn law_allocation_calls_carry_what_was_learned(
    size: u64,
    platform: Platform,
    device: u64,
    granularity: u64,
    address: u64,
    memory: u64,
    shared: u64,
    ignored: Seq<u64>,
)
    requires
        granularity > 0,
        aligned(size as nat, granularity as nat) <= u64::MAX,
        ignored.len() == 3,
    ensures
        ({
            let kind: u32 = if platform == Platform::Linux {
                1
            } else {
                2
            };
            let rounded = aligned(size as nat, granularity as nat) as u64;
            let at = device as i32;
            let s0 = SharedAllocation { size, platform, stage: AllocStage::Start };
            let s1 = SharedAllocation { stage: s0.stage_after(0, device), ..s0 };
            let s2 = SharedAllocation { stage: s1.stage_after(0, granularity), ..s1 };
            let s3 = SharedAllocation { stage: s2.stage_after(0, address), ..s2 };
            let s4 = SharedAllocation { stage: s3.stage_after(0, memory), ..s3 };
            let s5 = SharedAllocation { stage: s4.stage_after(0, shared), ..s4 };
            let s6 = SharedAllocation { stage: s5.stage_after(0, ignored[0]), ..s5 };
            let s7 = SharedAllocation { stage: s6.stage_after(0, ignored[1]), ..s6 };
            let s8 = SharedAllocation { stage: s7.stage_after(0, ignored[2]), ..s7 };
            &&& s0.pending() == Some(AllocCall::GetDevice)
            &&& s1.pending() == Some(AllocCall::GetGranularity { device: at, handle_type: kind })
            &&& s2.pending() == Some(AllocCall::Reserve { size: rounded, alignment: granularity })
            &&& s3.pending() == Some(
                AllocCall::Create { device: at, handle_type: kind, size: rounded },
            )
            &&& s4.pending() == Some(AllocCall::Export { handle: memory, handle_type: kind })
            &&& s5.pending() == Some(
                AllocCall::MapMemory { device_ptr: address, size: rounded, handle: memory },
            )
            &&& s6.pending() == Some(AllocCall::Release { handle: memory })
            &&& s7.pending() == Some(
                AllocCall::SetAccess { device_ptr: address, size: rounded, device: at },
            )
            &&& s8.pending() is None
            &&& s8.stage matches AllocStage::Ready { memory: m } && m.device_ptr == address
                && m.alloc_size == rounded && m.shared_handle == shared as i64
            &&& size <= rounded < size + granularity
            &&& rounded % granularity == 0
        }),
{
    crate::grid::law_align_up(size as nat, granularity as nat);
}

/// A call of an allocation that fails ends it, with the call and its code.
pub proof fn law_failed_calls_end_the_allocation(
    allocation: SharedAllocation,
    code: i32,
    value: u64,
)
    requires
        code != 0,
        allocation.pending() is Some,
    ensures
        allocation.stage_after(code, value) == (AllocStage::Failed {
            call: allocation.pending()->0,
            code,
        }),
{
}

/// A thread without a context gets the primary one of the first device; one that has a context
/// keeps it. A call that fails ends this, with the call and its code.
pub proof fn law_contexts_are_made_current(
    device: u64,
    context: u64,
    current: u64,
    call: ContextCall,
    code: i32,
    ignored: u64,
)
    requires
        current != 0,
        code != 0,
    ensures
        ({
            let start = ContextStage::Calling { call: ContextCall::Init };
            let asked = context_after(start, 0, ignored);
            let none = context_after(asked, 0, 0);
            let located = context_after(none, 0, device);
            let retained = context_after(located, 0, context);
            &&& asked == (ContextStage::Calling { call: ContextCall::GetCurrent })
            &&& context_after(asked, 0, current) == ContextStage::Ready
            &&& none == (ContextStage::Calling { call: ContextCall::DeviceGet })
            &&& located == (ContextStage::Calling {
                call: ContextCall::Retain { device: device as i32 },
            })
            &&& retained == (ContextStage::Calling { call: ContextCall::SetCurrent { context } })
            &&& context_after(retained, 0, ignored) == ContextStage::Ready
            &&& context_after(ContextStage::Calling { call }, code, ignored) == (
            ContextStage::Failed { call, code })
            &&& context_after(ContextStage::Ready, code, ignored) == ContextStage::Ready
        }),
{
}

/// The first symbol that is missing is told with its reason; nothing is exactly if none is.
pub proof fn law_the_first_missing_symbol_is_told(symbols: Seq<Option<String>>, i: nat)
    ensures
        first_missing(symbols, i) is None <==> forall|k: int|
            i <= k < symbols.len() ==> #[trigger] symbols[k] is None,
        forall|k: int|
            i <= k < symbols.len() && (#[trigger] symbols[k]) is Some && (forall|j: int|
                i <= j < k ==> #[trigger] symbols[j] is None) ==> first_missing(symbols, i) == Some(
                driver_symbols()[k] + ": "@ + symbols[k]->0@,
            ),
    decreases symbols.len() - i,
{
    if i < symbols.len() && symbols[i as int] is None {
        law_the_first_missing_symbol_is_told(symbols, i + 1);
    }
}

/// Of several things that are missing the library is told first, then the symbol for the device,
/// then the others; nothing exactly if all is there.
pub proof fn law_load_problems_are_told_in_order(report: LoadReport)
    ensures
        report.problem() is None <==> report.driver is None && report.device_symbol is None
            && forall|k: int|
            0 <= k < report.symbols@.len() ==> #[trigger] report.symbols@[k] is None,
        report.driver matches Some(reason) ==> report.problem() == Some(
            "Failed to load "@ + report.platform.driver() + ": "@ + reason@,
        ),
        report.driver is None ==> (report.device_symbol matches Some(reason) ==> report.problem()
            == Some(device_query(report.has_runtime) + ": "@ + reason@)),
        report.driver is None && report.device_symbol is None ==> report.problem()
            == first_missing(report.symbols@, 0),
        report.platform == Platform::Linux ==> report.platform.driver() == "libcuda.so.1"@,
        report.platform == Platform::Windows ==> report.platform.driver() == "nvcuda.dll"@,
        report.has_runtime ==> device_query(report.has_runtime) == "cudaGetDevice"@,
        !report.has_runtime ==> device_query(report.has_runtime) == "cuCtxGetDevice"@,
{
    law_the_first_missing_symbol_is_told(report.symbols@, 0);
}

/// A failed call is told by its name and its code.
pub proof fn law_failed_calls_are_told(error: CudaInteropError, function: Seq<char>, code: i32)
    requires
        failed_call(error, function, code),
    ensures
        error is CudaError,
        error->CudaError_function@ == function,
        error->CudaError_code == code,
{
}

/// The driver is asked by its own numbers.
pub proof fn law_driver_numbers()
    ensures
        CUDA_SUCCESS == 0,
        CU_MEM_ALLOCATION_TYPE_PINNED == 1,
        CU_MEM_LOCATION_TYPE_DEVICE == 1,
        CU_MEM_ACCESS_FLAGS_PROT_READWRITE == 3,
        CU_MEM_ALLOC_GRANULARITY_MINIMUM == 0,
        CU_MEMORYTYPE_HOST == 1,
        CU_MEMORYTYPE_DEVICE == 2,
        BLOCK_SIZE == 16,
{
}

} // verus!
