//! Staging of hardware-decoded frames on Windows.
//!
//! Decoded frames are copied to staging textures that Direct3D 11 shares with
//! Direct3D 12, and with CUDA where that is possible. The calls are made by
//! whoever holds the devices; [`PoolSetup`] says which comes next and what its
//! answer amounts to, [`D3d11StagingPool`] keeps the slots.

use crate::cuda::CUdeviceptr;
use crate::text::{
    decimal, decimal_signed, hexadecimal, joined, push_decimal, push_decimal_signed,
    push_hexadecimal,
};
use vstd::prelude::*;

verus! {

/// Polls after which a copy is given up.
pub const MAX_POLLS: u32 = 1_000_000;

/// Slots of a pool on a device of its own: two per camera.
pub const ADAPTER_SLOTS: usize = 4;

/// Why a frame could not be staged.
#[derive(Clone, Debug)]
pub enum D3d11InteropError {
    /// A Direct3D 11 call failed.
    D3d11(String),
    /// An adapter could not be found.
    Dxgi(String),
    /// The texture format is not there.
    Nv12NotSupported,
    /// The device is driven by another API.
    NotDx12,
    /// The copy failed.
    StagingCopy(String),
}

impl D3d11InteropError {
    /// The message of the error.
    pub open spec fn text(&self) -> Seq<char> {
        match *self {
            D3d11InteropError::D3d11(e) => "D3D11: "@ + e@,
            D3d11InteropError::Dxgi(e) => "DXGI: "@ + e@,
            D3d11InteropError::Nv12NotSupported => "wgpu NV12 texture format not available"@,
            D3d11InteropError::NotDx12 => "wgpu backend is not DX12"@,
            D3d11InteropError::StagingCopy(e) => "staging copy failed: "@ + e@,
        }
    }

    /// The message of the error.
    pub fn message(&self) -> (text: String)
        ensures
            text@ == self.text(),
    {
        match self {
            D3d11InteropError::D3d11(e) => joined("D3D11: ", e.as_str()),
            D3d11InteropError::Dxgi(e) => joined("DXGI: ", e.as_str()),
            D3d11InteropError::Nv12NotSupported => {
                "wgpu NV12 texture format not available".to_owned()
            },
            D3d11InteropError::NotDx12 => "wgpu backend is not DX12".to_owned(),
            D3d11InteropError::StagingCopy(e) => joined("staging copy failed: ", e.as_str()),
        }
    }
}

/// A Direct3D 11 error with this text.
pub open spec fn d3d11_error(error: D3d11InteropError, text: Seq<char>) -> bool {
    error matches D3d11InteropError::D3d11(e) && e@ == text
}

/// A failed copy with this text.
pub open spec fn copy_error(error: D3d11InteropError, text: Seq<char>) -> bool {
    error matches D3d11InteropError::StagingCopy(e) && e@ == text
}

/// Identity of an adapter.
#[derive(Clone, Copy, Debug, PartialEq, Eq, Structural)]
pub struct Luid {
    /// Low half.
    pub low_part: u32,
    /// High half.
    pub high_part: i32,
}

/// The identity that a device number stands for.
pub fn luid_of(device_id: u64) -> (luid: Luid)
    ensures
        luid.low_part == device_id % 0x1_0000_0000,
        luid.high_part == (device_id >> 32) as i32,
        device_id < 0x1_0000_0000 ==> luid.high_part == 0,
{
    proof {
        assert(device_id as u32 == device_id % 0x1_0000_0000) by (bit_vector);
        assert(device_id < 0x1_0000_0000u64 ==> device_id >> 32 == 0) by (bit_vector);
    }
    Luid { low_part: device_id as u32, high_part: (device_id >> 32) as i32 }
}

/// Whether all adapters before `end` could be asked and are others.
pub open spec fn none_before(adapters: Seq<Result<Luid, String>>, luid: Luid, end: int) -> bool {
    forall|j: int| 0 <= j < end ==> #[trigger] adapters[j] is Ok && adapters[j]->Ok_0 != luid
}

/// Find the adapter with the given number among those the system lists, in its
/// order. Asking an adapter who it is may fail, which ends the search.
pub fn find_adapter_by_luid(adapters: &Vec<Result<Luid, String>>, device_id: u64) -> (found: Result<
    usize,
    D3d11InteropError,
>)
    ensures
        ({
            let low = (device_id % 0x1_0000_0000) as u32;
            let luid = Luid { low_part: low, high_part: (device_id >> 32) as i32 };
            match found {
                Ok(i) => {
                    &&& i < adapters@.len()
                    &&& adapters@[i as int] == Ok::<Luid, String>(luid)
                    &&& none_before(adapters@, luid, i as int)
                },
                Err(D3d11InteropError::D3d11(e)) => exists|i: int|
                    {
                        &&& 0 <= i < adapters@.len()
                        &&& none_before(adapters@, luid, i)
                        &&& (#[trigger] adapters@[i]) matches Err(reason) && reason@ == e@
                    },
                Err(D3d11InteropError::Dxgi(e)) => {
                    &&& none_before(adapters@, luid, adapters@.len() as int)
                    &&& e@ == "no DXGI adapter with LUID "@ + decimal_signed(luid.high_part as int)
                        + ":"@ + decimal(low as nat) + " (device_id="@ + decimal(device_id as nat)
                        + ")"@
                },
                _ => false,
            }
        }),
{
    let luid: Luid = luid_of(device_id);
    let mut i: usize = 0;
    while i < adapters.len()
        invariant
            i <= adapters@.len(),
            luid.low_part == device_id % 0x1_0000_0000,
            luid.high_part == (device_id >> 32) as i32,
            none_before(adapters@, luid, i as int),
        decreases adapters@.len() - i,
    {
        match &adapters[i] {
            Ok(other) => {
                if other.low_part == luid.low_part && other.high_part == luid.high_part {
                    return Ok(i);
                }
            },
            Err(reason) => {
                let text: String = joined("", reason.as_str());
                proof {
                    reveal_strlit("");
                    assert(text@ =~= reason@);
                    assert(adapters@[i as int] is Err);
                }
                return Err(D3d11InteropError::D3d11(text));
            },
        }
        i = i + 1;
    }
    let mut text: String = "no DXGI adapter with LUID ".to_owned();
    push_decimal_signed(&mut text, luid.high_part as i64);
    text.push_str(":");
    push_decimal(&mut text, luid.low_part as u64);
    text.push_str(" (device_id=");
    push_decimal(&mut text, device_id);
    text.push_str(")");
    Err(D3d11InteropError::Dxgi(text))
}

/// Pixel format of staged frames.
#[derive(Clone, Copy, Debug, PartialEq, Eq, Structural)]
pub enum GpuPixelFormat {
    /// Eight bits per sample.
    Nv12,
    /// Ten bits per sample, in two bytes.
    P010,
}

impl GpuPixelFormat {
    /// Bytes per sample.
    pub open spec fn sample_bytes(self) -> u32 {
        match self {
            GpuPixelFormat::Nv12 => 1,
            GpuPixelFormat::P010 => 2,
        }
    }

    /// Bytes per sample of the plane views.
    pub fn bytes_per_sample(self) -> (bytes: u32)
        ensures
            bytes == self.sample_bytes(),
    {
        match self {
            GpuPixelFormat::Nv12 => 1,
            GpuPixelFormat::P010 => 2,
        }
    }
}

/// Whose device the staging textures live on.
#[derive(Clone, Copy, Debug, PartialEq, Eq, Structural)]
pub enum DeviceOwner {
    /// A device made for the adapter.
    Adapter {
        /// The adapter.
        adapter: u64,
    },
    /// The decoder's own device, which the decoded texture belongs to.
    Decoder {
        /// The decoded texture.
        texture: u64,
    },
}

/// What a pool is made for.
#[derive(Clone, Copy, Debug, PartialEq, Eq, Structural)]
pub struct PoolConfig {
    /// Width in pixels.
    pub width: u32,
    /// Height in pixels.
    pub height: u32,
    /// Number of slots.
    pub n_slots: usize,
    /// Pixel format.
    pub pixel_format: GpuPixelFormat,
    /// Whether detection reads the slots through CUDA.
    pub enable_cuda: bool,
}

/// A picture that CUDA can read.
#[derive(Clone, Copy, Debug, PartialEq, Eq, Structural)]
pub struct CudaImportedNv12 {
    /// Address of the luma plane.
    pub y_ptr: CUdeviceptr,
    /// Address of the chroma plane.
    pub uv_ptr: CUdeviceptr,
    /// Bytes per row.
    pub pitch: usize,
}

/// A staging texture.
#[derive(Clone, Copy, Debug, PartialEq, Eq, Structural)]
pub struct StagingSlot {
    /// On the decoding side.
    pub texture: u64,
    /// On the rendering side.
    pub shared: u64,
    /// For detection, where CUDA could import it.
    pub cuda: Option<CudaImportedNv12>,
}

/// How far setting up a pool has come.
#[derive(Clone, Copy, Debug, PartialEq, Eq, Structural)]
pub enum SetupStep {
    /// A device has to be made or found.
    Device,
    /// The decoder's device has to be protected from concurrent use.
    Protect,
    /// The device's context has to be had.
    Context,
    /// A query has to be created.
    Query,
    /// The slot's texture has to be created.
    Texture,
    /// It has to be shared.
    Share,
    /// It has to be opened on the rendering side.
    Open,
    /// It has to be imported into CUDA.
    Cuda,
    /// The shared handle has to be closed.
    Close,
    /// All slots are there.
    Ready,
    /// A call failed.
    Failed,
}

/// A call of a pool's setup, with its arguments.
#[derive(Clone, Copy, Debug, PartialEq, Eq, Structural)]
pub enum SetupCall {
    /// Make a device and its context for an adapter.
    CreateDevice {
        /// The adapter.
        adapter: u64,
    },
    /// Get the device a texture belongs to.
    GetDevice {
        /// The texture.
        texture: u64,
    },
    /// Protect a device from concurrent use.
    Protect {
        /// The device.
        device: u64,
    },
    /// Get a device's context.
    GetContext {
        /// The device.
        device: u64,
    },
    /// Create an event query.
    CreateQuery {
        /// The device.
        device: u64,
    },
    /// Create a texture that can be shared.
    CreateTexture {
        /// The device.
        device: u64,
        /// Width in pixels.
        width: u32,
        /// Height in pixels.
        height: u32,
        /// Pixel format.
        pixel_format: GpuPixelFormat,
    },
    /// Share a texture.
    Share {
        /// The texture.
        texture: u64,
    },
    /// Open a shared texture on the rendering side.
    Open {
        /// The shared handle.
        handle: u64,
        /// Width in pixels.
        width: u32,
        /// Height in pixels.
        height: u32,
        /// Pixel format.
        pixel_format: GpuPixelFormat,
    },
    /// Import a shared texture into CUDA.
    ImportCuda {
        /// The shared handle.
        handle: u64,
        /// Width in pixels.
        width: u32,
        /// Height in pixels.
        height: u32,
        /// Bytes per row.
        pitch: usize,
    },
    /// Close a shared handle.
    Close {
        /// The shared handle.
        handle: u64,
    },
}

/// What came of a call.
#[derive(Clone, Debug)]
pub enum SetupReply {
    /// A new device and its context, as far as they came.
    Device {
        /// The device.
        device: Option<u64>,
        /// The context.
        context: Option<u64>,
    },
    /// What was made, if anything came.
    Made(Option<u64>),
    /// It worked, or did not matter.
    Done,
    /// What CUDA could import.
    Cuda(Option<CudaImportedNv12>),
    /// The rendering side is another API.
    NotDx12,
    /// The call failed, with this reason.
    Refused(String),
}

/// The setup of a pool.
#[derive(Clone, Debug)]
pub struct PoolSetup {
    /// What the pool is made for.
    pub config: PoolConfig,
    /// Whose device it uses.
    pub owner: DeviceOwner,
    /// How far it has come.
    pub step: SetupStep,
    /// The device.
    pub device: u64,
    /// Its context.
    pub context: u64,
    /// The query.
    pub query: u64,
    /// The slots that are done.
    pub slots: Vec<StagingSlot>,
    /// The slot under way.
    pub current: StagingSlot,
    /// Its shared handle.
    pub handle: u64,
    /// Why it failed, if it did.
    pub error: Option<D3d11InteropError>,
}

/// What a setup knows, as plain values.
#[verifier::ext_equal]
pub struct SetupState {
    /// What the pool is made for.
    pub config: PoolConfig,
    /// Whose device it uses.
    pub owner: DeviceOwner,
    /// How far it has come.
    pub step: SetupStep,
    /// The device.
    pub device: u64,
    /// Its context.
    pub context: u64,
    /// The query.
    pub query: u64,
    /// The slots that are done.
    pub slots: Seq<StagingSlot>,
    /// The slot under way.
    pub current: StagingSlot,
    /// Its shared handle.
    pub handle: u64,
    /// Why it failed, if it did.
    pub fault: Option<Fault>,
}

/// Why a setup failed.
pub enum Fault {
    /// A call failed or gave nothing.
    D3d11(Seq<char>),
    /// The rendering side is another API.
    NotDx12,
    /// Anything else, which a setup does not run into.
    Other,
}

/// The fault that an error stands for.
pub open spec fn fault_of(error: Option<D3d11InteropError>) -> Option<Fault> {
    match error {
        None => None,
        Some(D3d11InteropError::D3d11(e)) => Some(Fault::D3d11(e@)),
        Some(D3d11InteropError::NotDx12) => Some(Fault::NotDx12),
        Some(_) => Some(Fault::Other),
    }
}

impl View for PoolSetup {
    type V = SetupState;

    open spec fn view(&self) -> SetupState {
        SetupState {
            config: self.config,
            owner: self.owner,
            step: self.step,
            device: self.device,
            context: self.context,
            query: self.query,
            slots: self.slots@,
            current: self.current,
            handle: self.handle,
            fault: fault_of(self.error),
        }
    }
}

impl SetupState {
    /// This state, failed.
    pub open spec fn failed(self, fault: Fault) -> SetupState {
        SetupState { step: SetupStep::Failed, fault: Some(fault), ..self }
    }

    /// This state once a slot is done or none is to be made: on to the next
    /// slot, or ready.
    pub open spec fn with_slots(self, slots: Seq<StagingSlot>) -> SetupState {
        SetupState {
            slots,
            step: if slots.len() < self.config.n_slots {
                SetupStep::Texture
            } else {
                SetupStep::Ready
            },
            ..self
        }
    }

    /// The call to make next, until the pool is ready or has failed.
    pub open spec fn pending(self) -> Option<SetupCall> {
        match self.step {
            SetupStep::Device => match self.owner {
                DeviceOwner::Adapter { adapter } => Some(SetupCall::CreateDevice { adapter }),
                DeviceOwner::Decoder { texture } => Some(SetupCall::GetDevice { texture }),
            },
            SetupStep::Protect => Some(SetupCall::Protect { device: self.device }),
            SetupStep::Context => Some(SetupCall::GetContext { device: self.device }),
            SetupStep::Query => Some(SetupCall::CreateQuery { device: self.device }),
            SetupStep::Texture => Some(
                SetupCall::CreateTexture {
                    device: self.device,
                    width: self.config.width,
                    height: self.config.height,
                    pixel_format: self.config.pixel_format,
                },
            ),
            SetupStep::Share => Some(SetupCall::Share { texture: self.current.texture }),
            SetupStep::Open => Some(
                SetupCall::Open {
                    handle: self.handle,
                    width: self.config.width,
                    height: self.config.height,
                    pixel_format: self.config.pixel_format,
                },
            ),
            SetupStep::Cuda => Some(
                SetupCall::ImportCuda {
                    handle: self.handle,
                    width: self.config.width,
                    height: self.config.height,
                    pitch: self.config.width as usize,
                },
            ),
            SetupStep::Close => Some(SetupCall::Close { handle: self.handle }),
            SetupStep::Ready => None,
            SetupStep::Failed => None,
        }
    }

    /// This state after a reply. A reply that the pending call cannot have
    /// changes nothing.
    pub open spec fn after(self, reply: SetupReply) -> SetupState {
        match (self.step, reply) {
            (SetupStep::Ready, _) => self,
            (SetupStep::Failed, _) => self,
            (SetupStep::Close, SetupReply::Refused(_)) => self.with_slots(
                self.slots.push(self.current),
            ),
            (SetupStep::Close, SetupReply::Done) => self.with_slots(self.slots.push(self.current)),
            (SetupStep::Cuda, SetupReply::Cuda(cuda)) => SetupState {
                step: SetupStep::Close,
                current: StagingSlot { cuda, ..self.current },
                ..self
            },
            (SetupStep::Cuda, _) => self,
            (SetupStep::Close, _) => self,
            (_, SetupReply::Refused(reason)) => self.failed(Fault::D3d11(reason@)),
            (SetupStep::Device, SetupReply::Device { device, context }) => match self.owner {
                DeviceOwner::Adapter { .. } => match (device, context) {
                    (None, _) => self.failed(Fault::D3d11("D3D11CreateDevice returned None"@)),
                    (_, None) => self.failed(
                        Fault::D3d11("D3D11CreateDevice returned no context"@),
                    ),
                    (Some(d), Some(c)) => SetupState {
                        step: SetupStep::Query,
                        device: d,
                        context: c,
                        ..self
                    },
                },
                DeviceOwner::Decoder { .. } => self,
            },
            (SetupStep::Device, SetupReply::Made(Some(device))) => match self.owner {
                DeviceOwner::Adapter { .. } => self,
                DeviceOwner::Decoder { .. } => SetupState {
                    step: SetupStep::Protect,
                    device,
                    ..self
                },
            },
            (SetupStep::Protect, SetupReply::Done) => SetupState {
                step: SetupStep::Context,
                ..self
            },
            (SetupStep::Context, SetupReply::Made(Some(context))) => SetupState {
                step: SetupStep::Query,
                context,
                ..self
            },
            (SetupStep::Query, SetupReply::Made(made)) => match made {
                None => self.failed(Fault::D3d11("CreateQuery returned None"@)),
                Some(query) => SetupState { query, ..self }.with_slots(self.slots),
            },
            (SetupStep::Texture, SetupReply::Made(made)) => match made {
                None => self.failed(Fault::D3d11("CreateTexture2D returned None"@)),
                Some(texture) => SetupState {
                    step: SetupStep::Share,
                    current: StagingSlot { texture, shared: 0, cuda: None },
                    ..self
                },
            },
            (SetupStep::Share, SetupReply::Made(Some(handle))) => SetupState {
                step: SetupStep::Open,
                handle,
                ..self
            },
            (SetupStep::Open, SetupReply::NotDx12) => self.failed(Fault::NotDx12),
            (SetupStep::Open, SetupReply::Made(made)) => match made {
                None => self.failed(Fault::D3d11("OpenSharedHandle returned None"@)),
                Some(shared) => SetupState {
                    step: match self.owner {
                        DeviceOwner::Adapter { .. } => SetupStep::Close,
                        DeviceOwner::Decoder { .. } => SetupStep::Cuda,
                    },
                    current: StagingSlot { shared, ..self.current },
                    ..self
                },
            },
            _ => self,
        }
    }
}

impl PoolSetup {
    /// Start setting up a pool.
    pub fn new(config: PoolConfig, owner: DeviceOwner) -> (setup: Self)
        ensures
            setup@.config == config,
            setup@.owner == owner,
            setup@.step == SetupStep::Device,
            setup@.slots.len() == 0,
            setup@.fault is None,
    {
        PoolSetup {
            config,
            owner,
            step: SetupStep::Device,
            device: 0,
            context: 0,
            query: 0,
            slots: Vec::new(),
            current: StagingSlot { texture: 0, shared: 0, cuda: None },
            handle: 0,
            error: None,
        }
    }

    /// The call to make next, until the pool is ready or has failed.
    pub fn next_call(&self) -> (call: Option<SetupCall>)
        ensures
            call == self@.pending(),
    {
        match self.step {
            SetupStep::Device => match self.owner {
                DeviceOwner::Adapter { adapter } => Some(SetupCall::CreateDevice { adapter }),
                DeviceOwner::Decoder { texture } => Some(SetupCall::GetDevice { texture }),
            },
            SetupStep::Protect => Some(SetupCall::Protect { device: self.device }),
            SetupStep::Context => Some(SetupCall::GetContext { device: self.device }),
            SetupStep::Query => Some(SetupCall::CreateQuery { device: self.device }),
            SetupStep::Texture => Some(
                SetupCall::CreateTexture {
                    device: self.device,
                    width: self.config.width,
                    height: self.config.height,
                    pixel_format: self.config.pixel_format,
                },
            ),
            SetupStep::Share => Some(SetupCall::Share { texture: self.current.texture }),
            SetupStep::Open => Some(
                SetupCall::Open {
                    handle: self.handle,
                    width: self.config.width,
                    height: self.config.height,
                    pixel_format: self.config.pixel_format,
                },
            ),
            SetupStep::Cuda => Some(
                SetupCall::ImportCuda {
                    handle: self.handle,
                    width: self.config.width,
                    height: self.config.height,
                    pitch: self.config.width as usize,
                },
            ),
            SetupStep::Close => Some(SetupCall::Close { handle: self.handle }),
            SetupStep::Ready => None,
            SetupStep::Failed => None,
        }
    }

    fn fail(&mut self, error: D3d11InteropError)
        requires
            fault_of(Some(error)) is Some,
        ensures
            final(self)@ == old(self)@.failed(fault_of(Some(error))->0),
    {
        self.step = SetupStep::Failed;
        self.error = Some(error);
    }

    fn next_slot(&mut self)
        ensures
            final(self)@ == old(self)@.with_slots(old(self)@.slots),
    {
        self.step =
        if self.slots.len() < self.config.n_slots {
            SetupStep::Texture
        } else {
            SetupStep::Ready
        };
    }

    fn nothing_came(&mut self, text: &str)
        ensures
            final(self)@ == old(self)@.failed(Fault::D3d11(text@)),
    {
        self.fail(D3d11InteropError::D3d11(text.to_owned()));
    }

    /// Take what came of the pending call. A reply that the call cannot have
    /// changes nothing; that a handle could not be closed, or that CUDA could
    /// not import a texture, does not stop the setup.
    pub fn reply(&mut self, reply: SetupReply)
        ensures
            final(self)@ == old(self)@.after(reply),
    {
        match self.step {
            SetupStep::Ready => {},
            SetupStep::Failed => {},
            SetupStep::Close => match reply {
                SetupReply::Refused(_) => {
                    self.slots.push(self.current);
                    self.next_slot();
                },
                SetupReply::Done => {
                    self.slots.push(self.current);
                    self.next_slot();
                },
                _ => {},
            },
            SetupStep::Cuda => {
                if let SetupReply::Cuda(cuda) = reply {
                    self.current.cuda = cuda;
                    self.step = SetupStep::Close;
                }
            },
            SetupStep::Device => match reply {
                SetupReply::Refused(reason) => self.fail(D3d11InteropError::D3d11(reason)),
                SetupReply::Device { device, context } => {
                    if let DeviceOwner::Adapter { .. } = self.owner {
                        match (device, context) {
                            (None, _) => self.nothing_came("D3D11CreateDevice returned None"),
                            (_, None) => self.nothing_came("D3D11CreateDevice returned no context"),
                            (Some(d), Some(c)) => {
                                self.device = d;
                                self.context = c;
                                self.step = SetupStep::Query;
                            },
                        }
                    }
                },
                SetupReply::Made(Some(device)) => {
                    if let DeviceOwner::Decoder { .. } = self.owner {
                        self.device = device;
                        self.step = SetupStep::Protect;
                    }
                },
                _ => {},
            },
            SetupStep::Protect => match reply {
                SetupReply::Refused(reason) => self.fail(D3d11InteropError::D3d11(reason)),
                SetupReply::Done => {
                    self.step = SetupStep::Context;
                },
                _ => {},
            },
            SetupStep::Context => match reply {
                SetupReply::Refused(reason) => self.fail(D3d11InteropError::D3d11(reason)),
                SetupReply::Made(Some(context)) => {
                    self.context = context;
                    self.step = SetupStep::Query;
                },
                _ => {},
            },
            SetupStep::Query => match reply {
                SetupReply::Refused(reason) => self.fail(D3d11InteropError::D3d11(reason)),
                SetupReply::Made(None) => self.nothing_came("CreateQuery returned None"),
                SetupReply::Made(Some(query)) => {
                    self.query = query;
                    self.next_slot();
                },
                _ => {},
            },
            SetupStep::Texture => match reply {
                SetupReply::Refused(reason) => self.fail(D3d11InteropError::D3d11(reason)),
                SetupReply::Made(None) => self.nothing_came("CreateTexture2D returned None"),
                SetupReply::Made(Some(texture)) => {
                    self.current = StagingSlot { texture, shared: 0, cuda: None };
                    self.step = SetupStep::Share;
                },
                _ => {},
            },
            SetupStep::Share => match reply {
                SetupReply::Refused(reason) => self.fail(D3d11InteropError::D3d11(reason)),
                SetupReply::Made(Some(handle)) => {
                    self.handle = handle;
                    self.step = SetupStep::Open;
                },
                _ => {},
            },
            SetupStep::Open => match reply {
                SetupReply::Refused(reason) => self.fail(D3d11InteropError::D3d11(reason)),
                SetupReply::NotDx12 => self.fail(D3d11InteropError::NotDx12),
                SetupReply::Made(None) => self.nothing_came("OpenSharedHandle returned None"),
                SetupReply::Made(Some(shared)) => {
                    self.current.shared = shared;
                    self.step =
                    match self.owner {
                        DeviceOwner::Adapter { .. } => SetupStep::Close,
                        DeviceOwner::Decoder { .. } => SetupStep::Cuda,
                    };
                },
                _ => {},
            },
        }
    }
}

/// A setup never has more slots than it was asked for, and is ready only with
/// all of them.
pub open spec fn slots_in_order(state: SetupState) -> bool {
    &&& state.slots.len() <= state.config.n_slots
    &&& state.step is Ready ==> state.slots.len() == state.config.n_slots
    &&& (state.step is Texture || state.step is Share || state.step is Open || state.step is Cuda
        || state.step is Close) ==> state.slots.len() < state.config.n_slots
    &&& (state.step is Failed <==> state.fault is Some)
}

/// Every reply keeps a setup in order: a pool that is ready has exactly the
/// slots it was asked for, and none is lost or made twice.
pub proof fn law_pool_has_all_slots(state: SetupState, reply: SetupReply)
    requires
        slots_in_order(state),
    ensures
        slots_in_order(state.after(reply)),
        state.slots.is_prefix_of(state.after(reply).slots),
{
}

/// A pool whose setup failed or is done makes no further call and does not
/// change.
pub proof fn law_finished_setup_is_final(state: SetupState, reply: SetupReply)
    requires
        state.step is Ready || state.step is Failed,
    ensures
        state.pending() is None,
        state.after(reply) == state,
{
}

/// Staging textures and what they share.
#[derive(Clone, Debug)]
pub struct StagingState {
    /// The context that copies.
    pub context: u64,
    /// The query that tells when a copy is done.
    pub event_query: u64,
    /// The slots.
    pub slots: Vec<StagingSlot>,
    /// What detection reads, slot by slot, if it can read all of them.
    pub cuda_nv12: Option<Vec<CudaImportedNv12>>,
}

/// A pool of staging textures. They are made on the first frame, on the device
/// that the frame belongs to.
pub struct D3d11StagingPool {
    /// What the pool is made for.
    pub config: PoolConfig,
    /// The textures, once they are made.
    pub state: Option<StagingState>,
}

/// A copy to make.
#[derive(Clone, Copy, Debug, PartialEq, Eq, Structural)]
pub struct StageCopy {
    /// The context that copies.
    pub context: u64,
    /// To this texture.
    pub target: u64,
    /// From this part of the source.
    pub src_subresource: u32,
    /// The query that tells when the copy is done.
    pub event_query: u64,
}

/// Whether detection can read every slot.
pub open spec fn all_imported(slots: Seq<StagingSlot>) -> bool {
    forall|i: int| 0 <= i < slots.len() ==> (#[trigger] slots[i]).cuda is Some
}

fn collect_cuda(slots: &Vec<StagingSlot>) -> (collected: Option<Vec<CudaImportedNv12>>)
    ensures
        collected is Some <==> all_imported(slots@),
        collected matches Some(v) ==> v@.len() == slots@.len() && forall|i: int|
            0 <= i < v@.len() ==> slots@[i].cuda == Some(#[trigger] v@[i]),
{
    let mut all: Vec<CudaImportedNv12> = Vec::with_capacity(slots.len());
    let mut i: usize = 0;
    while i < slots.len()
        invariant
            i <= slots@.len(),
            all@.len() == i,
            forall|j: int| 0 <= j < i ==> slots@[j].cuda == Some(#[trigger] all@[j]),
        decreases slots@.len() - i,
    {
        match slots[i].cuda {
            None => {
                assert(!all_imported(slots@));
                return None;
            },
            Some(c) => all.push(c),
        }
        i = i + 1;
    }
    assert forall|j: int| 0 <= j < slots@.len() implies (#[trigger] slots@[j]).cuda is Some by {
        assert(slots@[j].cuda == Some(all@[j]));
    }
    Some(all)
}

impl D3d11StagingPool {
    /// A pool whose textures are made on the first frame.
    pub fn new(
        is_dx12: bool,
        width: u32,
        height: u32,
        n_slots: usize,
        enable_cuda: bool,
        pixel_format: GpuPixelFormat,
    ) -> (pool: Result<Self, D3d11InteropError>)
        ensures
            match pool {
                Ok(p) => is_dx12 && p.state is None && p.config == (PoolConfig {
                    width,
                    height,
                    n_slots,
                    pixel_format,
                    enable_cuda,
                }),
                Err(e) => !is_dx12 && e is NotDx12,
            },
    {
        if !is_dx12 {
            return Err(D3d11InteropError::NotDx12);
        }
        Ok(
            D3d11StagingPool {
                config: PoolConfig { width, height, n_slots, pixel_format, enable_cuda },
                state: None,
            },
        )
    }

    /// A pool on a device of its own, for eight-bit frames of two cameras, and
    /// its setup.
    pub fn on_adapter(is_dx12: bool, adapter: u64, width: u32, height: u32) -> (pool: Result<
        (Self, PoolSetup),
        D3d11InteropError,
    >)
        ensures
            match pool {
                Ok((p, setup)) => {
                    &&& is_dx12
                    &&& p.state is None
                    &&& p.config == (PoolConfig {
                        width,
                        height,
                        n_slots: ADAPTER_SLOTS,
                        pixel_format: GpuPixelFormat::Nv12,
                        enable_cuda: false,
                    })
                    &&& setup@.config == p.config
                    &&& setup@.owner == (DeviceOwner::Adapter { adapter })
                    &&& setup@.step == SetupStep::Device
                    &&& setup@.slots.len() == 0
                    &&& setup@.fault is None
                },
                Err(e) => !is_dx12 && e is NotDx12,
            },
    {
        match D3d11StagingPool::new(is_dx12, width, height, ADAPTER_SLOTS, false, GpuPixelFormat::Nv12) {
            Ok(pool) => {
                let config: PoolConfig = pool.config;
                Ok((pool, PoolSetup::new(config, DeviceOwner::Adapter { adapter })))
            },
            Err(e) => Err(e),
        }
    }

    /// The setup to run for a frame, unless the textures are there.
    pub fn ensure_initialized(&self, src_texture: u64) -> (setup: Option<PoolSetup>)
        ensures
            setup is None <==> self.state is Some,
            setup matches Some(s) ==> {
                &&& s@.config == self.config
                &&& s@.owner == (DeviceOwner::Decoder { texture: src_texture })
                &&& s@.step == SetupStep::Device
                &&& s@.slots.len() == 0
                &&& s@.fault is None
            },
    {
        match &self.state {
            Some(_) => None,
            None => Some(
                PoolSetup::new(self.config, DeviceOwner::Decoder { texture: src_texture }),
            ),
        }
    }

    /// Take the outcome of a setup. Detection reads the slots only if it was
    /// asked to and can read all of them.
    pub fn adopt(&mut self, setup: PoolSetup) -> (adopted: Result<(), D3d11InteropError>)
        ensures
            final(self).config == old(self).config,
            match adopted {
                Ok(_) => {
                    &&& setup@.step is Ready
                    &&& final(self).state matches Some(state)
                    &&& state.context == setup@.context
                    &&& state.event_query == setup@.query
                    &&& state.slots@ == setup@.slots
                    &&& state.cuda_nv12 is Some <==> old(self).config.enable_cuda && all_imported(
                        setup@.slots,
                    )
                    &&& state.cuda_nv12 matches Some(v) ==> v@.len() == setup@.slots.len()
                        && forall|i: int|
                        0 <= i < v@.len() ==> setup@.slots[i].cuda == Some(#[trigger] v@[i])
                },
                Err(e) => {
                    &&& !(setup@.step is Ready)
                    &&& final(self).state == old(self).state
                    &&& setup@.fault is Some ==> fault_of(Some(e)) == setup@.fault
                    &&& setup@.fault is None ==> d3d11_error(e, "staging pool not initialized"@)
                },
            },
    {
        let ready = match setup.step {
            SetupStep::Ready => true,
            _ => false,
        };
        if !ready {
            return match setup.error {
                Some(e) => Err(e),
                None => Err(D3d11InteropError::D3d11("staging pool not initialized".to_owned())),
            };
        }
        let cuda_nv12: Option<Vec<CudaImportedNv12>> = if self.config.enable_cuda {
            collect_cuda(&setup.slots)
        } else {
            None
        };
        self.state =
        Some(
            StagingState {
                context: setup.context,
                event_query: setup.query,
                slots: setup.slots,
                cuda_nv12,
            },
        );
        Ok(())
    }

    /// Whether a frame can be staged in a slot.
    pub fn stage_frame(&self, src_is_null: bool, slot: usize) -> (accepted: Result<
        (),
        D3d11InteropError,
    >)
        ensures
            match accepted {
                Ok(_) => !src_is_null && slot < self.config.n_slots,
                Err(e) => if src_is_null {
                    copy_error(e, "null source texture"@)
                } else {
                    slot >= self.config.n_slots && copy_error(
                        e,
                        "slot "@ + decimal(slot as nat) + " out of range (0.."@ + decimal(
                            self.config.n_slots as nat,
                        ) + ")"@,
                    )
                },
            },
    {
        if src_is_null {
            return Err(D3d11InteropError::StagingCopy("null source texture".to_owned()));
        }
        if slot >= self.config.n_slots {
            let mut text: String = "slot ".to_owned();
            push_decimal(&mut text, slot as u64);
            text.push_str(" out of range (0..");
            push_decimal(&mut text, self.config.n_slots as u64);
            text.push_str(")");
            return Err(D3d11InteropError::StagingCopy(text));
        }
        Ok(())
    }

    /// The copy that stages a frame in a slot.
    pub fn stage_copy(&self, array_slice: usize, slot: usize) -> (copy: StageCopy)
        requires
            self.state matches Some(state) && slot < state.slots@.len(),
        ensures
            copy == (StageCopy {
                context: self.state->0.context,
                target: self.state->0.slots@[slot as int].texture,
                src_subresource: array_slice as u32,
                event_query: self.state->0.event_query,
            }),
    {
        let state: &StagingState = self.state.as_ref().unwrap();
        StageCopy {
            context: state.context,
            target: state.slots[slot].texture,
            src_subresource: array_slice as u32,
            event_query: state.event_query,
        }
    }

    /// The slot's texture on the rendering side, which its plane views show.
    pub fn shared_texture(&self, slot: usize) -> (texture: u64)
        requires
            self.state matches Some(state) && slot < state.slots@.len(),
        ensures
            texture == self.state->0.slots@[slot as int].shared,
    {
        let state: &StagingState = self.state.as_ref().unwrap();
        state.slots[slot].shared
    }

    /// What detection reads of a slot, if it can.
    pub fn cuda_nv12_ptrs(&self, slot: usize) -> (ptrs: Option<
        (CUdeviceptr, CUdeviceptr, usize),
    >)
        requires
            self.state matches Some(state) && state.cuda_nv12 matches Some(v) ==> slot < v@.len(),
        ensures
            ptrs == match self.state {
                None => None,
                Some(state) => match state.cuda_nv12 {
                    None => None,
                    Some(v) => Some(
                        (v@[slot as int].y_ptr, v@[slot as int].uv_ptr, v@[slot as int].pitch),
                    ),
                },
            },
    {
        match &self.state {
            None => None,
            Some(state) => match &state.cuda_nv12 {
                None => None,
                Some(v) => {
                    let m: CudaImportedNv12 = v[slot];
                    Some((m.y_ptr, m.uv_ptr, m.pitch))
                },
            },
        }
    }

    /// Number of slots.
    pub fn n_slots(&self) -> (n: usize)
        ensures
            n == self.config.n_slots,
    {
        self.config.n_slots
    }

    /// Width of the slots.
    pub fn width(&self) -> (width: u32)
        ensures
            width == self.config.width,
    {
        self.config.width
    }

    /// Height of the slots.
    pub fn height(&self) -> (height: u32)
        ensures
            height == self.config.height,
    {
        self.config.height
    }
}

/// Waiting for a copy.
#[derive(Clone, Copy, Debug, PartialEq, Eq, Structural)]
pub struct CopyWait {
    /// Polls so far that found the copy under way.
    pub spins: u32,
}

/// The bits of a status code, as a number.
pub open spec fn status_bits(hr: i32) -> nat {
    if hr < 0 {
        (hr + 0x1_0000_0000) as nat
    } else {
        hr as nat
    }
}

impl CopyWait {
    /// Nothing polled yet.
    pub fn new() -> (wait: Self)
        ensures
            wait.spins == 0,
    {
        CopyWait { spins: 0 }
    }

    /// Take the status of a poll: zero when the copy is done, negative when it
    /// failed, positive while it is under way. Returns whether it is done.
    pub fn poll(&mut self, hr: i32) -> (done: Result<bool, D3d11InteropError>)
        requires
            old(self).spins <= MAX_POLLS,
        ensures
            final(self).spins == if hr > 0 {
                old(self).spins + 1
            } else {
                old(self).spins as int
            },
            match done {
                Ok(d) => d == (hr == 0) && hr >= 0 && final(self).spins <= MAX_POLLS,
                Err(e) => if hr < 0 {
                    copy_error(
                        e,
                        "GetData failed after "@ + decimal(old(self).spins as nat)
                            + " polls: HRESULT 0x"@ + hexadecimal(status_bits(hr)),
                    )
                } else {
                    hr > 0 && old(self).spins == MAX_POLLS && copy_error(
                        e,
                        "GetData timed out (>1M polls)"@,
                    )
                },
            },
    {
        if hr == 0 {
            return Ok(true);
        }
        if hr < 0 {
            let bits: u32 = (hr as i64 + 0x1_0000_0000) as u32;
            let mut text: String = "GetData failed after ".to_owned();
            push_decimal(&mut text, self.spins as u64);
            text.push_str(" polls: HRESULT 0x");
            push_hexadecimal(&mut text, bits);
            return Err(D3d11InteropError::StagingCopy(text));
        }
        self.spins = self.spins + 1;
        if self.spins > MAX_POLLS {
            return Err(
                D3d11InteropError::StagingCopy("GetData timed out (>1M polls)".to_owned()),
            );
        }
        Ok(false)
    }
}

/// A slot is made by its calls in their order: its texture in the pool's size and format, shared,
/// opened on the rendering side, imported for detection where the decoder owns the device, and
/// its handle closed. It joins the slots as what those calls gave, and the pool is ready once it
/// has as many as it was asked for.
pub proof fn law_slots_are_made_of_what_came(
    state: SetupState,
    texture: u64,
    handle: u64,
    shared: u64,
    cuda: Option<CudaImportedNv12>,
)
    requires
        state.step is Texture,
    ensures
        ({
            let c = state.config;
            let a = state.after(SetupReply::Made(Some(texture)));
            let b = a.after(SetupReply::Made(Some(handle)));
            let d = b.after(SetupReply::Made(Some(shared)));
            let imports = state.owner is Decoder;
            let e = if imports {
                d.after(SetupReply::Cuda(cuda))
            } else {
                d
            };
            let f = e.after(SetupReply::Done);
            &&& state.pending() == Some(
                SetupCall::CreateTexture {
                    device: state.device,
                    width: c.width,
                    height: c.height,
                    pixel_format: c.pixel_format,
                },
            )
            &&& a.pending() == Some(SetupCall::Share { texture })
            &&& b.pending() == Some(
                SetupCall::Open {
                    handle,
                    width: c.width,
                    height: c.height,
                    pixel_format: c.pixel_format,
                },
            )
            &&& imports ==> d.pending() == Some(
                SetupCall::ImportCuda {
                    handle,
                    width: c.width,
                    height: c.height,
                    pitch: c.width as usize,
                },
            )
            &&& e.pending() == Some(SetupCall::Close { handle })
            &&& f.slots == state.slots.push(
                StagingSlot {
                    texture,
                    shared,
                    cuda: if imports {
                        cuda
                    } else {
                        None
                    },
                },
            )
            &&& f.step is Ready <==> f.slots.len() >= c.n_slots
            &&& f.step is Texture <==> f.slots.len() < c.n_slots
            &&& f.device == state.device && f.context == state.context && f.query == state.query
            &&& f.config == c && f.owner == state.owner && f.fault == state.fault
        }),
{
}

/// On a device of its own a pool makes the device and takes its context; on the decoder's it takes
/// the device of the decoded texture, protects it and asks for its context. Then comes the query
/// that tells when a copy is done, and then the slots.
pub proof fn law_pools_start_with_their_device(
    state: SetupState,
    device: u64,
    context: u64,
    query: u64,
)
    requires
        state.step is Device,
        state.slots.len() == 0,
    ensures
        state.owner matches DeviceOwner::Adapter { adapter } ==> {
            let a = state.after(
                SetupReply::Device { device: Some(device), context: Some(context) },
            );
            let b = a.after(SetupReply::Made(Some(query)));
            &&& state.pending() == Some(SetupCall::CreateDevice { adapter })
            &&& a.pending() == Some(SetupCall::CreateQuery { device })
            &&& b.device == device && b.context == context && b.query == query
            &&& state.config.n_slots > 0 ==> b.step is Texture
            &&& state.config.n_slots == 0 ==> b.step is Ready
        },
        state.owner matches DeviceOwner::Decoder { texture } ==> {
            let a = state.after(SetupReply::Made(Some(device)));
            let b = a.after(SetupReply::Done);
            let c = b.after(SetupReply::Made(Some(context)));
            let d = c.after(SetupReply::Made(Some(query)));
            &&& state.pending() == Some(SetupCall::GetDevice { texture })
            &&& a.pending() == Some(SetupCall::Protect { device })
            &&& b.pending() == Some(SetupCall::GetContext { device })
            &&& c.pending() == Some(SetupCall::CreateQuery { device })
            &&& d.device == device && d.context == context && d.query == query
            &&& state.config.n_slots > 0 ==> d.step is Texture
            &&& state.config.n_slots == 0 ==> d.step is Ready
        },
{
}

/// A call that is refused ends the setup with its reason, except that a handle cannot be closed,
/// which changes nothing about the slot, and that CUDA cannot import, which is no refusal.
pub proof fn law_refused_calls_end_the_setup(state: SetupState, reason: String)
    ensures
        !(state.step is Ready || state.step is Failed || state.step is Close || state.step is Cuda)
            ==> state.after(SetupReply::Refused(reason)).step is Failed && state.after(
            SetupReply::Refused(reason),
        ).fault == Some(Fault::D3d11(reason@)),
        state.step is Close ==> state.after(SetupReply::Refused(reason)) == state.after(
            SetupReply::Done,
        ),
        state.step is Open ==> state.after(SetupReply::NotDx12).fault == Some(Fault::NotDx12),
        state.step is Texture ==> state.after(SetupReply::Made(None)).fault == Some(
            Fault::D3d11("CreateTexture2D returned None"@),
        ),
        state.step is Open ==> state.after(SetupReply::Made(None)).fault == Some(
            Fault::D3d11("OpenSharedHandle returned None"@),
        ),
        state.step is Query ==> state.after(SetupReply::Made(None)).fault == Some(
            Fault::D3d11("CreateQuery returned None"@),
        ),
{
}

/// Samples of eight bits take a byte, those of ten bits two.
pub proof fn law_samples_take_their_bytes()
    ensures
        GpuPixelFormat::Nv12.sample_bytes() == 1,
        GpuPixelFormat::P010.sample_bytes() == 2,
        MAX_POLLS == 1_000_000,
        ADAPTER_SLOTS == 4,
{
}

/// An adapter is found only past others that could be asked.
pub proof fn law_adapters_before_are_others(
    adapters: Seq<Result<Luid, String>>,
    luid: Luid,
    end: int,
    j: int,
)
    requires
        none_before(adapters, luid, end),
        0 <= j < end <= adapters.len(),
    ensures
        adapters[j] is Ok,
        adapters[j]->Ok_0 != luid,
{
}

/// What is told of a setup is what went wrong: the driver's words, or that the rendering side is
/// another API.
pub proof fn law_setup_errors_are_told(error: D3d11InteropError, text: Seq<char>)
    ensures
        fault_of(None) is None,
        error matches D3d11InteropError::D3d11(e) ==> fault_of(Some(error)) == Some(
            Fault::D3d11(e@),
        ),
        error is NotDx12 ==> fault_of(Some(error)) == Some(Fault::NotDx12),
        d3d11_error(error, text) ==> error is D3d11 && error->D3d11_0@ == text,
        copy_error(error, text) ==> error is StagingCopy && error->StagingCopy_0@ == text,
{
}

/// Detection reads the slots exactly if it can read each of them.
pub proof fn law_all_slots_have_to_be_readable(slots: Seq<StagingSlot>, slot: StagingSlot)
    ensures
        all_imported(Seq::empty()),
        all_imported(slots.push(slot)) <==> all_imported(slots) && slot.cuda is Some,
{
    let more = slots.push(slot);
    if all_imported(more) {
        assert forall|i: int| 0 <= i < slots.len() implies (#[trigger] slots[i]).cuda is Some by {
            assert(more[i] == slots[i]);
        }
        assert(more[slots.len() as int].cuda is Some);
    }
}

/// A status keeps its bits when it is written as a number.
pub proof fn law_statuses_keep_their_bits(hr: i32)
    ensures
        status_bits(hr) < 0x1_0000_0000,
        hr >= 0 ==> status_bits(hr) == hr,
        hr < 0 ==> status_bits(hr) == 0x1_0000_0000 + hr,
{
}

/// A setup is seen as what it holds.
pub proof fn law_setups_are_seen_as_they_are(setup: PoolSetup)
    ensures
        setup@.config == setup.config,
        setup@.owner == setup.owner,
        setup@.step == setup.step,
        setup@.device == setup.device,
        setup@.context == setup.context,
        setup@.query == setup.query,
        setup@.slots == setup.slots@,
        setup@.handle == setup.handle,
        setup@.fault == fault_of(setup.error),
{
}

} // verus!
