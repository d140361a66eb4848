//! NV12 output of the stitched picture.
//!
//! [`Nv12Converter`] plans the conversion of the render target and its
//! triple-buffered readback; [`Nv12Downscaler`] plans the smaller picture that
//! detection reads back.

use crate::grid::{align_up, aligned, div_ceil, groups, native_bytes, words_to_bytes};
use crate::planes::zeros;
use crate::resources::{
    Binding, BindingKind, BufferSpec, BufferUse, PassBuffers, Stages, buffer_fits, can_copy,
    create_bind_group_layout, filled, numbered, parameters, staging,
};
use crate::ring::{MAX_PENDING, ReadbackRing, SLOTS};
use crate::text::{decimal, push_decimal};
use vstd::prelude::*;

verus! {

/// Pixels one conversion thread handles.
pub const PIXELS_PER_THREAD: u32 = 4;

/// Threads per workgroup across.
pub const GROUP_WIDTH: u32 = 16;

/// Threads per workgroup down.
pub const GROUP_HEIGHT: u32 = 4;

/// Threads per downscaling workgroup.
pub const DOWNSCALE_GROUP: u32 = 64;

/// Why a conversion could not be done.
#[derive(Clone, Debug)]
pub enum Nv12Error {
    /// A staging buffer could not be read.
    BufferMapFailed,
    /// The picture has dimensions that NV12 cannot have.
    InvalidDimensions(String),
}

/// Bytes of an NV12 picture: a luma plane and half as much chroma.
pub open spec fn nv12_size(width: nat, height: nat) -> nat {
    width * height * 3 / 2
}

/// What is wrong with the dimensions of an NV12 picture.
pub open spec fn dimensions_fault(width: u32, height: u32) -> Option<Seq<char>> {
    if width % 4 != 0 {
        Some("width must be divisible by 4, got "@ + decimal(width as nat))
    } else if height % 2 != 0 {
        Some("height must be even, got "@ + decimal(height as nat))
    } else {
        None
    }
}

impl Nv12Error {
    /// The message of the error.
    pub open spec fn text(&self) -> Seq<char> {
        match self {
            Nv12Error::BufferMapFailed => "NV12 buffer mapping failed"@,
            Nv12Error::InvalidDimensions(reason) => "invalid NV12 dimensions: "@ + reason@,
        }
    }

    /// The message of the error.
    pub fn message(&self) -> (text: String)
        ensures
            text@ == self.text(),
    {
        match self {
            Nv12Error::BufferMapFailed => "NV12 buffer mapping failed".to_owned(),
            Nv12Error::InvalidDimensions(reason) => {
                let mut text: String = "invalid NV12 dimensions: ".to_owned();
                text.push_str(reason.as_str());
                text
            },
        }
    }
}

/// A render target, told apart from others by its number.
pub type TextureId = u64;

/// What the device has to do for one frame.
#[derive(Clone, Copy, Debug, PartialEq, Eq, Structural)]
pub struct ConvertPlan {
    /// Whether the bindings have to be built for the render target first.
    pub rebuild_bindings: bool,
    /// Workgroups across.
    pub dispatch_x: u32,
    /// Workgroups down.
    pub dispatch_y: u32,
    /// Bytes to copy to the staging slot.
    pub copy_bytes: u64,
    /// Slot to copy to.
    pub write_slot: usize,
    /// Slot to read, if one is due.
    pub read_slot: Option<usize>,
}

/// What a conversion binds: the picture, its output and the parameters.
pub open spec fn converter_kinds() -> Seq<BindingKind> {
    seq![
        BindingKind::Texture { filterable: false },
        BindingKind::Storage { read_only: false },
        BindingKind::Uniform,
    ]
}

/// The buffers of a conversion of `bytes` bytes.
pub open spec fn converter_buffers(bytes: nat) -> PassBuffers {
    PassBuffers {
        output: BufferSpec { size: bytes as u64, usage: filled() },
        staging: BufferSpec { size: bytes as u64, usage: staging() },
        params: BufferSpec { size: 8, usage: parameters(false) },
    }
}

/// State of an NV12 conversion.
pub struct Nv12Converter {
    width: u32,
    height: u32,
    nv12_bytes: u64,
    dispatch_x: u32,
    dispatch_y: u32,
    ring: ReadbackRing,
    bound: Option<TextureId>,
    buffers: Vec<Vec<u8>>,
}

/// What a converter is, without its buffers' storage.
#[verifier::ext_equal]
pub struct ConverterState {
    /// Width of the picture.
    pub width: u32,
    /// Height of the picture.
    pub height: u32,
    /// The staging slots.
    pub ring: ReadbackRing,
    /// The render target the bindings were built for.
    pub bound: Option<TextureId>,
    /// What was last read from each slot.
    pub buffers: Seq<Seq<u8>>,
}

impl View for Nv12Converter {
    type V = ConverterState;

    closed spec fn view(&self) -> ConverterState {
        ConverterState {
            width: self.width,
            height: self.height,
            ring: self.ring,
            bound: self.bound,
            buffers: self.buffers@.map_values(|b: Vec<u8>| b@),
        }
    }
}

impl ConverterState {
    /// Bytes of the picture.
    pub open spec fn bytes(self) -> nat {
        nv12_size(self.width as nat, self.height as nat)
    }

    /// What the device has to do for a frame in `target`.
    pub open spec fn plan(self, target: TextureId) -> ConvertPlan {
        ConvertPlan {
            rebuild_bindings: self.bound != Some(target),
            dispatch_x: groups((self.width / 4) as nat, GROUP_WIDTH as nat) as u32,
            dispatch_y: groups(self.height as nat, GROUP_HEIGHT as nat) as u32,
            copy_bytes: self.bytes() as u64,
            write_slot: self.ring.due().write,
            read_slot: self.ring.due().read,
        }
    }
}

impl Nv12Converter {
    /// The invariant of every converter.
    pub closed spec fn valid(&self) -> bool {
        &&& self.ring.valid()
        &&& dimensions_fault(self.width, self.height) is None
        &&& self.nv12_bytes == nv12_size(self.width as nat, self.height as nat)
        &&& self.dispatch_x == groups((self.width / 4) as nat, GROUP_WIDTH as nat)
        &&& self.dispatch_y == groups(self.height as nat, GROUP_HEIGHT as nat)
        &&& self.buffers@.len() == 3
        &&& forall|i: int|
            0 <= i < 3 ==> (#[trigger] self.buffers@[i])@.len() == self.nv12_bytes
    }

    /// A converter for pictures of the given dimensions.
    ///
    /// The conversion handles four pixels of a row at a time and shares chroma
    /// between two rows, so the width has to be divisible by four and the
    /// height even.
    pub fn new(width: u32, height: u32) -> (converter: Result<Self, Nv12Error>)
        requires
            dimensions_fault(width, height) is None ==> width as nat * height as nat * 3
                <= u64::MAX && nv12_size(width as nat, height as nat) <= usize::MAX,
        ensures
            match converter {
                Ok(c) => {
                    &&& dimensions_fault(width, height) is None
                    &&& c.valid()
                    &&& c@.width == width
                    &&& c@.height == height
                    &&& c@.ring.current_slot == 0
                    &&& c@.ring@.len() == 0
                    &&& c@.bound is None
                    &&& c@.buffers.len() == 3
                    &&& forall|i: int|
                        0 <= i < 3 ==> #[trigger] c@.buffers[i] == zeros(
                            nv12_size(width as nat, height as nat),
                        )
                },
                Err(e) => e matches Nv12Error::InvalidDimensions(reason) && dimensions_fault(
                    width,
                    height,
                ) == Some(reason@),
            },
    {
        if width % PIXELS_PER_THREAD != 0 {
            let mut reason: String = "width must be divisible by 4, got ".to_owned();
            push_decimal(&mut reason, width as u64);
            return Err(Nv12Error::InvalidDimensions(reason));
        }
        if height % 2 != 0 {
            let mut reason: String = "height must be even, got ".to_owned();
            push_decimal(&mut reason, height as u64);
            return Err(Nv12Error::InvalidDimensions(reason));
        }
        assert(width * height <= width * height * 3) by (nonlinear_arith)
            requires
                0 <= width,
                0 <= height,
        ;
        let nv12_bytes: u64 = width as u64 * height as u64 * 3 / 2;
        let mut buffers: Vec<Vec<u8>> = Vec::with_capacity(3);
        buffers.push(vec![0u8; nv12_bytes as usize]);
        buffers.push(vec![0u8; nv12_bytes as usize]);
        buffers.push(vec![0u8; nv12_bytes as usize]);
        let converter = Nv12Converter {
            width,
            height,
            nv12_bytes,
            dispatch_x: div_ceil(width / PIXELS_PER_THREAD, GROUP_WIDTH),
            dispatch_y: div_ceil(height, GROUP_HEIGHT),
            ring: ReadbackRing::new(),
            bound: None,
            buffers,
        };
        assert forall|i: int, k: int|
            0 <= i < 3 && 0 <= k < nv12_size(
                width as nat,
                height as nat,
            ) implies #[trigger] converter@.buffers[i][k] == 0 by {
            assert(converter@.buffers[i] == converter.buffers@[i]@);
        }
        Ok(converter)
    }

    /// Layout of the conversion's bindings.
    pub fn layout() -> (layout: Vec<Binding>)
        ensures
            layout@ == numbered(Stages::Compute, converter_kinds()),
    {
        let kinds: [BindingKind; 3] = [
            BindingKind::Texture { filterable: false },
            BindingKind::Storage { read_only: false },
            BindingKind::Uniform,
        ];
        assert(kinds@ =~= converter_kinds());
        create_bind_group_layout(Stages::Compute, &kinds)
    }

    /// The conversion's buffers, of which there is one to stage for each slot.
    pub fn buffers(&self) -> (buffers: PassBuffers)
        requires
            self.valid(),
        ensures
            buffers == converter_buffers(self@.bytes()),
    {
        PassBuffers {
            output: BufferSpec { size: self.nv12_bytes, usage: BufferUse::filled() },
            staging: BufferSpec { size: self.nv12_bytes, usage: BufferUse::staging() },
            params: BufferSpec { size: 8, usage: BufferUse::parameters(false) },
        }
    }

    /// Width and height as the conversion reads them.
    pub fn params(&self) -> (bytes: Vec<u8>)
        ensures
            native_bytes(seq![self@.width, self@.height], bytes@),
    {
        let words: [u32; 2] = [self.width, self.height];
        assert(words@ =~= seq![self@.width, self@.height]);
        words_to_bytes(&words)
    }

    /// Start a frame rendered to `target`: what to bind, dispatch and copy, and
    /// which slot to read afterwards.
    pub fn begin(&mut self, target: TextureId) -> (plan: ConvertPlan)
        requires
            old(self).valid(),
        ensures
            final(self).valid(),
            plan == old(self)@.plan(target),
            final(self)@ == (ConverterState { bound: Some(target), ..old(self)@ }),
            plan.write_slot < SLOTS,
            plan.read_slot matches Some(r) ==> r < SLOTS && r != plan.write_slot,
    {
        let rebuild_bindings = match self.bound {
            Some(bound) => bound != target,
            None => true,
        };
        self.bound = Some(target);
        let slots = self.ring.plan();
        ConvertPlan {
            rebuild_bindings,
            dispatch_x: self.dispatch_x,
            dispatch_y: self.dispatch_y,
            copy_bytes: self.nv12_bytes,
            write_slot: slots.write,
            read_slot: slots.read,
        }
    }

    /// Finish a frame with what was read from the slot that was due: the
    /// picture submitted two frames ago. Nothing is due on the first two
    /// frames.
    pub fn finish(&mut self, mapped: Option<Vec<u8>>) -> (picture: Option<&[u8]>)
        requires
            old(self).valid(),
            mapped is Some <==> old(self)@.ring.due().read is Some,
            mapped matches Some(data) ==> data@.len() == old(self)@.bytes(),
        ensures
            final(self).valid(),
            final(self)@.width == old(self)@.width,
            final(self)@.height == old(self)@.height,
            final(self)@.bound == old(self)@.bound,
            final(self)@.ring.current_slot == (old(self)@.ring.current_slot + 1) % 3,
            final(self)@.ring@ == (if old(self)@.ring@.len() == MAX_PENDING {
                old(self)@.ring@.drop_first()
            } else {
                old(self)@.ring@
            }).push(old(self)@.ring.current_slot as int),
            match mapped {
                Some(data) => {
                    &&& picture matches Some(p) && p@ == data@
                    &&& final(self)@.buffers == old(self)@.buffers.update(
                        old(self)@.ring@[0],
                        data@,
                    )
                },
                None => picture is None && final(self)@.buffers == old(self)@.buffers,
            },
    {
        let slots = self.ring.plan();
        let ghost before = self@;
        self.ring.advance();
        match (mapped, slots.read) {
            (Some(data), Some(slot)) => {
                self.buffers.set(slot, data);
                proof {
                    assert(self@.buffers =~= before.buffers.update(slot as int, data@));
                }
                Some(self.buffers[slot].as_slice())
            },
            _ => {
                assert(self@.buffers =~= before.buffers);
                None
            },
        }
    }

    /// The slot to drain once no more frames follow, oldest first.
    pub fn drain_slot(&self) -> (slot: Option<usize>)
        requires
            self.valid(),
        ensures
            slot == (if self@.ring@.len() > 0 {
                Some(self@.ring@[0] as usize)
            } else {
                None
            }),
            slot matches Some(s) ==> s < SLOTS,
    {
        self.ring.oldest_pending()
    }

    /// Take what was read from the slot to drain.
    pub fn drained(&mut self, data: Vec<u8>) -> (picture: &[u8])
        requires
            old(self).valid(),
            old(self)@.ring@.len() > 0,
            data@.len() == old(self)@.bytes(),
        ensures
            final(self).valid(),
            picture@ == data@,
            final(self)@.width == old(self)@.width,
            final(self)@.height == old(self)@.height,
            final(self)@.bound == old(self)@.bound,
            final(self)@.ring.current_slot == old(self)@.ring.current_slot,
            final(self)@.ring@ == old(self)@.ring@.drop_first(),
            final(self)@.buffers == old(self)@.buffers.update(old(self)@.ring@[0], data@),
    {
        let ghost before = self@;
        let slot: usize = (self.ring.current_slot + SLOTS - self.ring.pending_count as usize)
            % SLOTS;
        self.ring.drained();
        self.buffers.set(slot, data);
        assert(self@.buffers =~= before.buffers.update(slot as int, data@));
        self.buffers[slot].as_slice()
    }

    /// Width of the picture.
    pub fn width(&self) -> (width: u32)
        ensures
            width == self@.width,
    {
        self.width
    }

    /// Height of the picture.
    pub fn height(&self) -> (height: u32)
        ensures
            height == self@.height,
    {
        self.height
    }
}

/// Where the readback of a staging slot stands.
#[derive(Clone, Copy, Debug, PartialEq, Eq, Structural)]
pub enum ReadbackStage {
    /// The mapping was requested; the device has to be polled once.
    Poll,
    /// The mapping was not complete; wait for the device.
    Wait,
    /// The slot is mapped and can be copied.
    Copy,
    /// The slot could not be mapped.
    Failed,
}

/// What the device reported of a mapping.
#[derive(Clone, Copy, Debug, PartialEq, Eq, Structural)]
pub enum MapReport {
    /// Polling itself failed.
    PollFailed,
    /// The slot is mapped.
    Mapped,
    /// The mapping failed.
    MapFailed,
    /// Nothing is known yet.
    NotYet,
    /// No report will come.
    Disconnected,
}

/// Where a readback stands after a report: a slot that is not mapped by the
/// first poll is waited for once, and anything else than a mapping fails.
pub open spec fn readback_after(stage: ReadbackStage, report: MapReport) -> ReadbackStage {
    match (stage, report) {
        (ReadbackStage::Poll, MapReport::NotYet) => ReadbackStage::Wait,
        (ReadbackStage::Poll, MapReport::Mapped) => ReadbackStage::Copy,
        (ReadbackStage::Wait, MapReport::Mapped) => ReadbackStage::Copy,
        (ReadbackStage::Copy, _) => ReadbackStage::Copy,
        _ => ReadbackStage::Failed,
    }
}

/// Take a report of the device into account.
pub fn readback_step(stage: ReadbackStage, report: MapReport) -> (next: ReadbackStage)
    ensures
        next == readback_after(stage, report),
{
    match stage {
        ReadbackStage::Poll => match report {
            MapReport::Mapped => ReadbackStage::Copy,
            MapReport::NotYet => ReadbackStage::Wait,
            _ => ReadbackStage::Failed,
        },
        ReadbackStage::Wait => match report {
            MapReport::Mapped => ReadbackStage::Copy,
            _ => ReadbackStage::Failed,
        },
        ReadbackStage::Copy => ReadbackStage::Copy,
        ReadbackStage::Failed => ReadbackStage::Failed,
    }
}

/// A readback ends after at most two reports.
pub proof fn law_readback_ends(first: MapReport, second: MapReport)
    ensures
        ({
            let end = readback_after(readback_after(ReadbackStage::Poll, first), second);
            end == ReadbackStage::Copy || end == ReadbackStage::Failed
        }),
{
}

/// What a downscaling binds: luma, chroma, their sampler, the output and the
/// parameters.
pub open spec fn downscaler_kinds() -> Seq<BindingKind> {
    seq![
        BindingKind::Texture { filterable: true },
        BindingKind::Texture { filterable: true },
        BindingKind::Sampler,
        BindingKind::Storage { read_only: false },
        BindingKind::Uniform,
    ]
}

/// The buffers of a downscaling to `bytes` bytes.
pub open spec fn downscaler_buffers(bytes: nat) -> PassBuffers {
    PassBuffers {
        output: BufferSpec { size: bytes as u64, usage: filled() },
        staging: BufferSpec { size: bytes as u64, usage: staging() },
        params: BufferSpec { size: 8, usage: parameters(true) },
    }
}

/// Sizes of a downscaled NV12 picture.
#[derive(Clone, Copy, Debug, PartialEq, Eq, Structural)]
pub struct Nv12Downscaler {
    out_width: u32,
    out_height: u32,
    output_size_bytes: u64,
}

impl Nv12Downscaler {
    /// The invariant of every downscaler.
    pub closed spec fn valid(&self) -> bool {
        &&& self.out_width * self.out_height <= u32::MAX
        &&& self.output_size_bytes == self.out_width * self.out_height + (self.out_width
            * self.out_height) / 2
    }

    /// Width of the output.
    pub closed spec fn out_w(&self) -> nat {
        self.out_width as nat
    }

    /// Height of the output.
    pub closed spec fn out_h(&self) -> nat {
        self.out_height as nat
    }

    /// A downscaler to the given dimensions.
    pub fn new(out_width: u32, out_height: u32) -> (downscaler: Self)
        requires
            out_width * out_height <= u32::MAX,
        ensures
            downscaler.valid(),
            downscaler.out_w() == out_width,
            downscaler.out_h() == out_height,
    {
        let y_size: u32 = out_width * out_height;
        let uv_size: u32 = y_size / 2;
        Nv12Downscaler {
            out_width,
            out_height,
            output_size_bytes: y_size as u64 + uv_size as u64,
        }
    }

    /// Bytes of the output picture.
    pub fn output_size(&self) -> (bytes: u64)
        requires
            self.valid(),
        ensures
            bytes == self.out_w() * self.out_h() + (self.out_w() * self.out_h()) / 2,
    {
        self.output_size_bytes
    }

    /// Bytes of the device buffers: the picture, in whole words.
    pub fn buffer_size(&self) -> (bytes: u64)
        requires
            self.valid(),
        ensures
            bytes == aligned(
                self.out_w() * self.out_h() + (self.out_w() * self.out_h()) / 2,
                4,
            ),
    {
        proof {
            crate::grid::law_align_up(self.output_size_bytes as nat, 4);
        }
        align_up(self.output_size_bytes, 4)
    }

    /// Layout of the downscaling's bindings.
    pub fn layout() -> (layout: Vec<Binding>)
        ensures
            layout@ == numbered(Stages::Compute, downscaler_kinds()),
    {
        let plane: BindingKind = BindingKind::Texture { filterable: true };
        let kinds: [BindingKind; 5] = [
            plane,
            plane,
            BindingKind::Sampler,
            BindingKind::Storage { read_only: false },
            BindingKind::Uniform,
        ];
        assert(kinds@ =~= downscaler_kinds());
        create_bind_group_layout(Stages::Compute, &kinds)
    }

    /// The downscaling's buffers.
    pub fn buffers(&self) -> (buffers: PassBuffers)
        requires
            self.valid(),
        ensures
            buffers == downscaler_buffers(
                aligned(self.out_w() * self.out_h() + (self.out_w() * self.out_h()) / 2, 4),
            ),
    {
        let size: u64 = self.buffer_size();
        PassBuffers {
            output: BufferSpec { size, usage: BufferUse::filled() },
            staging: BufferSpec { size, usage: BufferUse::staging() },
            params: BufferSpec { size: 8, usage: BufferUse::parameters(true) },
        }
    }

    /// Workgroups across and down.
    pub fn dispatch(&self) -> (counts: (u32, u32))
        ensures
            counts.0 == groups(groups(self.out_w(), 4), DOWNSCALE_GROUP as nat),
            counts.1 == self.out_h(),
    {
        let across: u32 = div_ceil(self.out_width, PIXELS_PER_THREAD);
        (div_ceil(across, DOWNSCALE_GROUP), self.out_height)
    }

    /// Width and height as the shader reads them.
    pub fn params(&self) -> (bytes: Vec<u8>)
        ensures
            native_bytes(seq![self.out_w() as u32, self.out_h() as u32], bytes@),
    {
        let words: [u32; 2] = [self.out_width, self.out_height];
        assert(words@ =~= seq![self.out_w() as u32, self.out_h() as u32]);
        words_to_bytes(&words)
    }

    /// Split what was read back into the luma plane and the chroma plane.
    pub fn split(&self, data: &[u8]) -> (planes: (Vec<u8>, Vec<u8>))
        requires
            self.valid(),
            data@.len() >= self.out_w() * self.out_h() + (self.out_w() * self.out_h()) / 2,
        ensures
            planes.0@ == data@.subrange(0, (self.out_w() * self.out_h()) as int),
            planes.1@ == data@.subrange(
                (self.out_w() * self.out_h()) as int,
                (self.out_w() * self.out_h() + (self.out_w() * self.out_h()) / 2) as int,
            ),
    {
        let y_size: usize = (self.out_width * self.out_height) as usize;
        let uv_size: usize = y_size / 2;
        assert(y_size + uv_size <= data.len());
        let y = vstd::slice::slice_subrange(data, 0, y_size);
        let uv = vstd::slice::slice_subrange(data, y_size, y_size + uv_size);
        (vstd::slice::slice_to_vec(y), vstd::slice::slice_to_vec(uv))
    }

    /// Width of the output.
    pub fn width(&self) -> (width: u32)
        ensures
            width == self.out_w(),
    {
        self.out_width
    }

    /// Height of the output.
    pub fn height(&self) -> (height: u32)
        ensures
            height == self.out_h(),
    {
        self.out_height
    }
}

/// The buffers of either pass can be bound where its layout has them, and what
/// it computes can be copied to where the host reads it.
pub proof fn law_buffers_fit_their_bindings(bytes: nat)
    ensures
        buffer_fits(converter_kinds()[1], converter_buffers(bytes).output),
        buffer_fits(converter_kinds()[2], converter_buffers(bytes).params),
        can_copy(converter_buffers(bytes).output, converter_buffers(bytes).staging),
        buffer_fits(downscaler_kinds()[3], downscaler_buffers(bytes).output),
        buffer_fits(downscaler_kinds()[4], downscaler_buffers(bytes).params),
        can_copy(downscaler_buffers(bytes).output, downscaler_buffers(bytes).staging),
{
}

/// The conversion's workgroups reach every pixel.
pub proof fn law_conversion_covers_picture(state: ConverterState, target: TextureId)
    requires
        dimensions_fault(state.width, state.height) is None,
    ensures
        state.plan(target).dispatch_x * GROUP_WIDTH * PIXELS_PER_THREAD >= state.width,
        state.plan(target).dispatch_y * GROUP_HEIGHT >= state.height,
{
    crate::grid::law_groups_cover((state.width / 4) as nat, GROUP_WIDTH as nat);
    crate::grid::law_groups_cover(state.height as nat, GROUP_HEIGHT as nat);
    lemma_groups_fit((state.width / 4) as nat, GROUP_WIDTH as nat);
    lemma_groups_fit(state.height as nat, GROUP_HEIGHT as nat);
}

proof fn lemma_groups_fit(count: nat, size: nat)
    requires
        1 <= size <= 64,
        count <= u32::MAX,
    ensures
        groups(count, size) <= u32::MAX,
{
    let c = count as int;
    let s = size as int;
    if count == 0 {
        assert((s - 1) / s == 0) by (nonlinear_arith)
            requires
                0 < s,
        ;
    } else {
        assert((c + s - 1) / s <= c) by (nonlinear_arith)
            requires
                0 < s,
                0 < c,
        ;
    }
}

/// The planes of a valid picture fill it exactly: a luma plane and half as
/// much chroma.
pub proof fn law_nv12_planes_fill_the_picture(width: u32, height: u32)
    requires
        dimensions_fault(width, height) is None,
    ensures
        nv12_size(width as nat, height as nat) == width * height + (width * height) / 2,
        (width * height) % 2 == 0,
{
    let w = (width / 4) as int;
    assert(width == 4 * w);
    let p = width * height;
    assert(p == 4 * (w * height)) by (nonlinear_arith)
        requires
            width == 4 * w,
            p == width * height,
    ;
    assert(width as nat * height as nat == p) by (nonlinear_arith)
        requires
            p == width * height,
    ;
}

/// A size can be converted exactly if its width is divisible by four and its height is even.
pub proof fn law_convertible_sizes(width: u32, height: u32)
    ensures
        dimensions_fault(width, height) is None <==> width % 4 == 0 && height % 2 == 0,
{
}

/// A conversion works on whole groups and on no more of them than it needs, writes the slot and
/// reads the slot that the ring says, copies the whole picture, and binds anew exactly when the
/// target is another.
pub proof fn law_conversion_does_what_is_due(state: ConverterState, target: TextureId)
    requires
        dimensions_fault(state.width, state.height) is None,
        state.width * state.height * 3 / 2 <= u64::MAX,
    ensures
        ({
            let plan = state.plan(target);
            &&& 64 * plan.dispatch_x >= state.width
            &&& plan.dispatch_x > 0 ==> 64 * (plan.dispatch_x - 1) < state.width
            &&& 4 * plan.dispatch_y >= state.height
            &&& plan.dispatch_y > 0 ==> 4 * (plan.dispatch_y - 1) < state.height
            &&& plan.copy_bytes == state.width * state.height * 3 / 2
            &&& plan.write_slot == state.ring.due().write
            &&& plan.read_slot == state.ring.due().read
            &&& plan.rebuild_bindings <==> state.bound != Some(target)
        }),
{
    law_conversion_covers_picture(state, target);
    crate::grid::law_groups_cover((state.width / 4) as nat, GROUP_WIDTH as nat);
    crate::grid::law_groups_cover(state.height as nat, GROUP_HEIGHT as nat);
    lemma_groups_fit((state.width / 4) as nat, GROUP_WIDTH as nat);
    lemma_groups_fit(state.height as nat, GROUP_HEIGHT as nat);
    assert(state.width as nat * state.height as nat == state.width * state.height)
        by (nonlinear_arith);
}

/// A mapping that is done is copied. One that is not done yet is waited for once. Anything else
/// fails, and what has failed or is copied stays so.
pub proof fn law_mappings_are_waited_for_once(report: MapReport)
    ensures
        readback_after(ReadbackStage::Poll, MapReport::Mapped) == ReadbackStage::Copy,
        readback_after(ReadbackStage::Poll, MapReport::NotYet) == ReadbackStage::Wait,
        readback_after(ReadbackStage::Wait, MapReport::Mapped) == ReadbackStage::Copy,
        report != MapReport::Mapped ==> readback_after(ReadbackStage::Wait, report)
            == ReadbackStage::Failed,
        report != MapReport::Mapped && report != MapReport::NotYet ==> readback_after(
            ReadbackStage::Poll,
            report,
        ) == ReadbackStage::Failed,
        readback_after(ReadbackStage::Copy, report) == ReadbackStage::Copy,
        readback_after(ReadbackStage::Failed, report) == ReadbackStage::Failed,
{
}

/// Each pass binds what its shader has, in the shader's order, and its buffers hold the picture.
pub proof fn law_passes_bind_what_their_shaders_have(bytes: nat)
    requires
        bytes <= u64::MAX,
    ensures
        converter_kinds().len() == 3,
        converter_kinds()[0] == (BindingKind::Texture { filterable: false }),
        converter_kinds()[1] == (BindingKind::Storage { read_only: false }),
        converter_kinds()[2] is Uniform,
        downscaler_kinds().len() == 5,
        downscaler_kinds()[0] == (BindingKind::Texture { filterable: true }),
        downscaler_kinds()[1] == (BindingKind::Texture { filterable: true }),
        downscaler_kinds()[2] is Sampler,
        downscaler_kinds()[3] == (BindingKind::Storage { read_only: false }),
        downscaler_kinds()[4] is Uniform,
        converter_buffers(bytes).output.size == bytes,
        converter_buffers(bytes).staging.size == bytes,
        converter_buffers(bytes).params.size == 8,
        !converter_buffers(bytes).params.usage.copy_to,
        downscaler_buffers(bytes).params.usage.copy_to,
        downscaler_buffers(bytes).output.size == bytes,
        downscaler_buffers(bytes).staging.size == bytes,
        downscaler_buffers(bytes).params.size == 8,
{
}

/// A conversion's thread handles four pixels and its groups are sixteen by four; a downscaling's
/// groups have 64 threads.
pub proof fn law_conversion_groups()
    ensures
        PIXELS_PER_THREAD == 4,
        GROUP_WIDTH == 16,
        GROUP_HEIGHT == 4,
        DOWNSCALE_GROUP == 64,
{
}

} // verus!
