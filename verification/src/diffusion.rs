//! Nonlinear diffusion of a picture on the device.
//!
//! One evolution step of a scale-space octave blurs the picture, takes its
//! derivatives, turns them into a conductivity and then diffuses the picture a
//! number of times, back and forth between two buffers. [`GpuDiffusion`] plans
//! the passes; whoever owns the device encodes them in order.

use crate::grid::{div_ceil, groups, native_bytes, words_to_bytes};
use crate::resources::{
    Binding, BindingKind, BufferSpec, BufferUse, Stages, buffer_fits, can_copy,
    create_bind_group_layout, numbered, staging, working,
};
use vstd::prelude::*;

verus! {

/// Threads per workgroup, across and down.
pub const WG_SIZE: u32 = 16;

/// Kernel weights a filter pass has room for.
pub const MAX_KERNEL: usize = 16;

/// Pattern of minus one in single precision.
pub const MINUS_ONE: u32 = 0xbf80_0000;

/// Pattern of one in single precision.
pub const PLUS_ONE: u32 = 0x3f80_0000;

/// Filter along rows.
pub const HORIZONTAL: u32 = 0;

/// Filter along columns.
pub const VERTICAL: u32 = 1;

/// A buffer of an octave.
#[derive(Clone, Copy, Debug, PartialEq, Eq, Structural)]
pub enum Buffer {
    /// The picture. It is uploaded here and ends up here.
    LtA,
    /// The picture's other half of the time.
    LtB,
    /// The blurred picture.
    LSmooth,
    /// Derivative across.
    Lx,
    /// Derivative down.
    Ly,
    /// Conductivity.
    LFlow,
    /// Between the two passes of a separable filter.
    Temp,
}

/// One pass on the device.
#[derive(Clone, Debug)]
pub enum Pass {
    /// Filter along one direction.
    Separable {
        /// Read.
        input: Buffer,
        /// Written.
        output: Buffer,
        /// Dimensions, radius, direction and weights.
        params: Vec<u32>,
    },
    /// Conductivity from the derivatives.
    Conductivity {
        /// Read.
        lx: Buffer,
        /// Read.
        ly: Buffer,
        /// Written.
        lflow: Buffer,
        /// Dimensions and contrast.
        params: Vec<u32>,
    },
    /// One diffusion step.
    Diffuse {
        /// Read.
        input: Buffer,
        /// Written.
        output: Buffer,
        /// Read.
        lflow: Buffer,
        /// Dimensions and step size.
        params: Vec<u32>,
    },
    /// Copy a buffer.
    Copy {
        /// Read.
        from: Buffer,
        /// Written.
        to: Buffer,
        /// Number of bytes.
        bytes: u64,
    },
}

/// A [`Pass`] with its parameters as a sequence.
#[verifier::ext_equal]
pub enum PassView {
    /// Filter along one direction.
    Separable { input: Buffer, output: Buffer, params: Seq<u32> },
    /// Conductivity from the derivatives.
    Conductivity { lx: Buffer, ly: Buffer, lflow: Buffer, params: Seq<u32> },
    /// One diffusion step.
    Diffuse { input: Buffer, output: Buffer, lflow: Buffer, params: Seq<u32> },
    /// Copy a buffer.
    Copy { from: Buffer, to: Buffer, bytes: nat },
}

impl View for Pass {
    type V = PassView;

    open spec fn view(&self) -> PassView {
        match *self {
            Pass::Separable { input, output, params } => PassView::Separable {
                input,
                output,
                params: params@,
            },
            Pass::Conductivity { lx, ly, lflow, params } => PassView::Conductivity {
                lx,
                ly,
                lflow,
                params: params@,
            },
            Pass::Diffuse { input, output, lflow, params } => PassView::Diffuse {
                input,
                output,
                lflow,
                params: params@,
            },
            Pass::Copy { from, to, bytes } => PassView::Copy { from, to, bytes: bytes as nat },
        }
    }
}

/// What a pass binds: its buffers, and then its parameters. Copies bind
/// nothing.
pub open spec fn pass_kinds(pass: PassView) -> Seq<BindingKind> {
    let read = BindingKind::Storage { read_only: true };
    let write = BindingKind::Storage { read_only: false };
    match pass {
        PassView::Separable { .. } => seq![read, write, BindingKind::Uniform],
        PassView::Conductivity { .. } => seq![read, read, write, BindingKind::Uniform],
        PassView::Diffuse { .. } => seq![read, write, read, BindingKind::Uniform],
        PassView::Copy { .. } => seq![],
    }
}

/// The buffers of a pass, in the order of its bindings.
pub open spec fn pass_buffers(pass: PassView) -> Seq<Buffer> {
    match pass {
        PassView::Separable { input, output, .. } => seq![input, output],
        PassView::Conductivity { lx, ly, lflow, .. } => seq![lx, ly, lflow],
        PassView::Diffuse { input, output, lflow, .. } => seq![input, output, lflow],
        PassView::Copy { .. } => seq![],
    }
}

impl Pass {
    /// Layout of the pass's bindings.
    pub fn layout(&self) -> (layout: Vec<Binding>)
        ensures
            layout@ == numbered(Stages::Compute, pass_kinds(self@)),
    {
        let read: BindingKind = BindingKind::Storage { read_only: true };
        let write: BindingKind = BindingKind::Storage { read_only: false };
        let kinds: Vec<BindingKind> = match self {
            Pass::Separable { .. } => vec![read, write, BindingKind::Uniform],
            Pass::Conductivity { .. } => vec![read, read, write, BindingKind::Uniform],
            Pass::Diffuse { .. } => vec![read, write, read, BindingKind::Uniform],
            Pass::Copy { .. } => Vec::new(),
        };
        assert(kinds@ =~= pass_kinds(self@));
        create_bind_group_layout(Stages::Compute, kinds.as_slice())
    }

    /// The buffers that the pass binds, in order.
    pub fn bound(&self) -> (buffers: Vec<Buffer>)
        ensures
            buffers@ == pass_buffers(self@),
    {
        let buffers: Vec<Buffer> = match self {
            Pass::Separable { input, output, .. } => vec![*input, *output],
            Pass::Conductivity { lx, ly, lflow, .. } => vec![*lx, *ly, *lflow],
            Pass::Diffuse { input, output, lflow, .. } => vec![*input, *output, *lflow],
            Pass::Copy { .. } => Vec::new(),
        };
        assert(buffers@ =~= pass_buffers(self@));
        buffers
    }
}

/// The passes as views.
pub open spec fn pass_views(passes: Seq<Pass>) -> Seq<PassView> {
    passes.map_values(|p: Pass| p@)
}

/// Parameters of a filter pass: the header, then up to sixteen weights, the
/// rest zero.
pub open spec fn filter_params(
    width: u32,
    height: u32,
    radius: u32,
    direction: u32,
    kernel: Seq<u32>,
) -> Seq<u32> {
    Seq::new(
        20,
        |i: int|
            if i == 0 {
                width
            } else if i == 1 {
                height
            } else if i == 2 {
                radius
            } else if i == 3 {
                direction
            } else if i - 4 < kernel.len() {
                kernel[i - 4]
            } else {
                0u32
            },
    )
}

/// Weights of a derivative filter.
pub open spec fn scharr() -> Seq<u32> {
    seq![MINUS_ONE, 0u32, PLUS_ONE]
}

/// Diffusion step `i`: even steps go from the picture to its other half, odd
/// steps back.
pub open spec fn diffuse_pass(width: u32, height: u32, tau: u32, i: nat) -> PassView {
    PassView::Diffuse {
        input: if i % 2 == 0 {
            Buffer::LtA
        } else {
            Buffer::LtB
        },
        output: if i % 2 == 0 {
            Buffer::LtB
        } else {
            Buffer::LtA
        },
        lflow: Buffer::LFlow,
        params: seq![width, height, tau, 0u32],
    }
}

/// What comes before the diffusion steps.
pub open spec fn preparation(width: u32, height: u32, kernel: Seq<u32>, inv_k_sq: u32) -> Seq<
    PassView,
> {
    let radius = (kernel.len() / 2) as u32;
    seq![
        PassView::Separable {
            input: Buffer::LtA,
            output: Buffer::Temp,
            params: filter_params(width, height, radius, HORIZONTAL, kernel),
        },
        PassView::Separable {
            input: Buffer::Temp,
            output: Buffer::LSmooth,
            params: filter_params(width, height, radius, VERTICAL, kernel),
        },
        PassView::Separable {
            input: Buffer::LSmooth,
            output: Buffer::Lx,
            params: filter_params(width, height, 1, HORIZONTAL, scharr()),
        },
        PassView::Separable {
            input: Buffer::LSmooth,
            output: Buffer::Ly,
            params: filter_params(width, height, 1, VERTICAL, scharr()),
        },
        PassView::Conductivity {
            lx: Buffer::Lx,
            ly: Buffer::Ly,
            lflow: Buffer::LFlow,
            params: seq![width, height, inv_k_sq, 0u32],
        },
    ]
}

/// The diffusion steps.
pub open spec fn diffusion_steps(width: u32, height: u32, taus: Seq<u32>) -> Seq<PassView> {
    Seq::new(taus.len(), |i: int| diffuse_pass(width, height, taus[i], i as nat))
}

/// Brings the picture back to where it started, after an odd number of steps.
pub open spec fn homecoming(width: u32, height: u32, steps: nat) -> Seq<PassView> {
    if steps % 2 == 1 {
        seq![
            PassView::Copy {
                from: Buffer::LtB,
                to: Buffer::LtA,
                bytes: width as nat * height as nat * 4,
            },
        ]
    } else {
        seq![]
    }
}

/// All passes of an evolution step.
pub open spec fn evolution(
    width: u32,
    height: u32,
    kernel: Seq<u32>,
    inv_k_sq: u32,
    taus: Seq<u32>,
) -> Seq<PassView> {
    preparation(width, height, kernel, inv_k_sq) + diffusion_steps(width, height, taus)
        + homecoming(width, height, taus.len())
}

/// Build the parameters of a filter pass.
pub fn separable_params(
    width: u32,
    height: u32,
    radius: u32,
    direction: u32,
    kernel: &[u32],
) -> (params: Vec<u32>)
    ensures
        params@ == filter_params(width, height, radius, direction, kernel@),
{
    let mut params: Vec<u32> = Vec::with_capacity(4 + MAX_KERNEL);
    params.push(width);
    params.push(height);
    params.push(radius);
    params.push(direction);
    let ghost goal = filter_params(width, height, radius, direction, kernel@);
    let mut i: usize = 0;
    while i < MAX_KERNEL
        invariant
            i <= MAX_KERNEL,
            params@.len() == 4 + i,
            goal == filter_params(width, height, radius, direction, kernel@),
            forall|k: int| 0 <= k < 4 + i ==> params@[k] == goal[k],
        decreases MAX_KERNEL - i,
    {
        if i < kernel.len() {
            params.push(kernel[i]);
        } else {
            params.push(0);
        }
        i = i + 1;
    }
    assert(params@ =~= goal);
    params
}

fn header_params(width: u32, height: u32, value: u32) -> (params: Vec<u32>)
    ensures
        params@ == seq![width, height, value, 0u32],
{
    let mut params: Vec<u32> = Vec::with_capacity(4);
    params.push(width);
    params.push(height);
    params.push(value);
    params.push(0);
    assert(params@ =~= seq![width, height, value, 0u32]);
    params
}

/// The parameters of a pass, as bytes to upload.
pub fn upload_bytes(params: &Vec<u32>) -> (bytes: Vec<u8>)
    ensures
        native_bytes(params@, bytes@),
{
    words_to_bytes(params.as_slice())
}

/// Dimensions of one octave.
#[derive(Clone, Copy, Debug, PartialEq, Eq, Structural)]
pub struct Octave {
    /// Width in pixels.
    pub width: u32,
    /// Height in pixels.
    pub height: u32,
}

/// A buffer that an octave works in: four bytes per pixel.
pub open spec fn work_buffer(octave: Octave) -> BufferSpec {
    BufferSpec { size: (octave.width * octave.height * 4) as u64, usage: working() }
}

/// The buffer that the host reads an octave's picture from.
pub open spec fn read_buffer(octave: Octave) -> BufferSpec {
    BufferSpec { size: (octave.width * octave.height * 4) as u64, usage: staging() }
}

/// What one evolution step does.
#[derive(Clone, Debug)]
pub struct EvolvePlan {
    /// Workgroups across, for every pass.
    pub dispatch_x: u32,
    /// Workgroups down, for every pass.
    pub dispatch_y: u32,
    /// The passes, in order.
    pub passes: Vec<Pass>,
}

/// The octaves of a scale space.
pub struct GpuDiffusion {
    octaves: Vec<Octave>,
}

impl View for GpuDiffusion {
    type V = Seq<Octave>;

    closed spec fn view(&self) -> Seq<Octave> {
        self.octaves@
    }
}

impl GpuDiffusion {
    /// Octaves of the given dimensions, largest first.
    pub fn new(octave_dims: &[(u32, u32)]) -> (diffusion: Self)
        ensures
            diffusion@.len() == octave_dims@.len(),
            forall|i: int|
                0 <= i < octave_dims@.len() ==> #[trigger] diffusion@[i] == (Octave {
                    width: octave_dims@[i].0,
                    height: octave_dims@[i].1,
                }),
    {
        let mut octaves: Vec<Octave> = Vec::with_capacity(octave_dims.len());
        let mut i: usize = 0;
        while i < octave_dims.len()
            invariant
                i <= octave_dims@.len(),
                octaves@.len() == i,
                forall|k: int|
                    0 <= k < i ==> #[trigger] octaves@[k] == (Octave {
                        width: octave_dims@[k].0,
                        height: octave_dims@[k].1,
                    }),
            decreases octave_dims@.len() - i,
        {
            octaves.push(Octave { width: octave_dims[i].0, height: octave_dims[i].1 });
            i = i + 1;
        }
        GpuDiffusion { octaves }
    }

    /// Number of octaves.
    pub fn octave_count(&self) -> (n: usize)
        ensures
            n == self@.len(),
    {
        self.octaves.len()
    }

    /// Bytes of each buffer of an octave: four per pixel.
    pub fn buffer_size(&self, octave: usize) -> (bytes: u64)
        requires
            octave < self@.len(),
            self@[octave as int].width * self@[octave as int].height * 4 <= u32::MAX,
        ensures
            bytes == self@[octave as int].width * self@[octave as int].height * 4,
    {
        let oct = self.octaves[octave];
        proof {
            lemma_pixel_bytes(oct.width, oct.height);
        }
        (oct.width * oct.height * 4) as u64
    }

    /// Any of the seven buffers that an octave works in.
    pub fn octave_buffer(&self, octave: usize) -> (buffer: BufferSpec)
        requires
            octave < self@.len(),
            self@[octave as int].width * self@[octave as int].height * 4 <= u32::MAX,
        ensures
            buffer == work_buffer(self@[octave as int]),
    {
        BufferSpec { size: self.buffer_size(octave), usage: BufferUse::working() }
    }

    /// The buffer that the host reads an octave's picture from.
    pub fn staging_buffer(&self, octave: usize) -> (buffer: BufferSpec)
        requires
            octave < self@.len(),
            self@[octave as int].width * self@[octave as int].height * 4 <= u32::MAX,
        ensures
            buffer == read_buffer(self@[octave as int]),
    {
        BufferSpec { size: self.buffer_size(octave), usage: BufferUse::staging() }
    }

    /// Plan an evolution step of an octave.
    ///
    /// `kernel`, `inv_k_sq` and `taus` are patterns of single-precision
    /// numbers: the blur's weights, the inverse square of the contrast, and
    /// the sizes of the diffusion steps. However many steps there are, the
    /// picture ends up where it started.
    pub fn evolve(&self, octave: usize, kernel: &[u32], inv_k_sq: u32, taus: &[u32]) -> (plan:
        EvolvePlan)
        requires
            octave < self@.len(),
            kernel@.len() / 2 <= u32::MAX,
            self@[octave as int].width * self@[octave as int].height * 4 <= u32::MAX,
        ensures
            plan.dispatch_x == groups(self@[octave as int].width as nat, WG_SIZE as nat),
            plan.dispatch_y == groups(self@[octave as int].height as nat, WG_SIZE as nat),
            pass_views(plan.passes@) == evolution(
                self@[octave as int].width,
                self@[octave as int].height,
                kernel@,
                inv_k_sq,
                taus@,
            ),
    {
        let oct = self.octaves[octave];
        let (w, h): (u32, u32) = (oct.width, oct.height);
        let radius: u32 = (kernel.len() / 2) as u32;
        let derivative: [u32; 3] = [MINUS_ONE, 0, PLUS_ONE];
        assert(derivative@ =~= scharr());
        let mut passes: Vec<Pass> = Vec::new();
        passes.push(
            Pass::Separable {
                input: Buffer::LtA,
                output: Buffer::Temp,
                params: separable_params(w, h, radius, HORIZONTAL, kernel),
            },
        );
        passes.push(
            Pass::Separable {
                input: Buffer::Temp,
                output: Buffer::LSmooth,
                params: separable_params(w, h, radius, VERTICAL, kernel),
            },
        );
        passes.push(
            Pass::Separable {
                input: Buffer::LSmooth,
                output: Buffer::Lx,
                params: separable_params(w, h, 1, HORIZONTAL, &derivative),
            },
        );
        passes.push(
            Pass::Separable {
                input: Buffer::LSmooth,
                output: Buffer::Ly,
                params: separable_params(w, h, 1, VERTICAL, &derivative),
            },
        );
        passes.push(
            Pass::Conductivity {
                lx: Buffer::Lx,
                ly: Buffer::Ly,
                lflow: Buffer::LFlow,
                params: header_params(w, h, inv_k_sq),
            },
        );
        let ghost first = preparation(w, h, kernel@, inv_k_sq);
        assert(pass_views(passes@) =~= first);
        let ghost steps = diffusion_steps(w, h, taus@);
        let mut i: usize = 0;
        while i < taus.len()
            invariant
                i <= taus@.len(),
                steps == diffusion_steps(w, h, taus@),
                pass_views(passes@) == first + steps.take(i as int),
            decreases taus@.len() - i,
        {
            let ghost before = pass_views(passes@);
            let (input, output) = if i % 2 == 0 {
                (Buffer::LtA, Buffer::LtB)
            } else {
                (Buffer::LtB, Buffer::LtA)
            };
            passes.push(
                Pass::Diffuse {
                    input,
                    output,
                    lflow: Buffer::LFlow,
                    params: header_params(w, h, taus[i]),
                },
            );
            assert(passes@.last()@ == diffuse_pass(w, h, taus@[i as int], i as nat));
            assert(pass_views(passes@) =~= before.push(steps[i as int]));
            assert(first + steps.take(i + 1) =~= before.push(steps[i as int]));
            i = i + 1;
        }
        assert(steps.take(i as int) =~= steps);
        let ghost so_far = pass_views(passes@);
        if taus.len() % 2 == 1 {
            proof {
                lemma_pixel_bytes(w, h);
            }
            passes.push(
                Pass::Copy {
                    from: Buffer::LtB,
                    to: Buffer::LtA,
                    bytes: (w * h * 4) as u64,
                },
            );
            assert(pass_views(passes@) =~= so_far + homecoming(w, h, taus@.len()));
        } else {
            assert(pass_views(passes@) =~= so_far + homecoming(w, h, taus@.len()));
        }
        EvolvePlan { dispatch_x: div_ceil(w, WG_SIZE), dispatch_y: div_ceil(h, WG_SIZE), passes }
    }
}

proof fn lemma_pixel_bytes(width: u32, height: u32)
    requires
        width * height * 4 <= u32::MAX,
    ensures
        0 <= width * height <= u32::MAX,
        width as nat * height as nat * 4 == width * height * 4,
{
    assert(0 <= width * height) by (nonlinear_arith)
        requires
            0 <= width,
            0 <= height,
    ;
}

/// How often the picture in each of its two buffers has been diffused, once
/// the passes are done; nothing is known of a buffer at a negative count.
pub open spec fn diffused(passes: Seq<PassView>, a: int, b: int) -> (int, int)
    decreases passes.len(),
{
    if passes.len() == 0 {
        (a, b)
    } else {
        let (x, y) = diffused(passes.drop_last(), a, b);
        match passes.last() {
            PassView::Diffuse { input: Buffer::LtA, output: Buffer::LtB, .. } => (x, x + 1),
            PassView::Diffuse { input: Buffer::LtB, output: Buffer::LtA, .. } => (y + 1, y),
            PassView::Copy { from: Buffer::LtB, to: Buffer::LtA, .. } => (y, y),
            PassView::Separable { output: Buffer::LtA, .. } => (-1, y),
            PassView::Separable { output: Buffer::LtB, .. } => (x, -1),
            PassView::Conductivity { lflow: Buffer::LtA, .. } => (-1, y),
            PassView::Conductivity { lflow: Buffer::LtB, .. } => (x, -1),
            _ => (x, y),
        }
    }
}

proof fn lemma_diffused_add(p: Seq<PassView>, q: Seq<PassView>, a: int, b: int)
    ensures
        diffused(p + q, a, b) == diffused(q, diffused(p, a, b).0, diffused(p, a, b).1),
    decreases q.len(),
{
    if q.len() == 0 {
        assert(p + q =~= p);
    } else {
        lemma_diffused_add(p, q.drop_last(), a, b);
        assert((p + q).drop_last() =~= p + q.drop_last());
    }
}

proof fn lemma_diffused_steps(width: u32, height: u32, taus: Seq<u32>, n: nat, b: int)
    requires
        n <= taus.len(),
    ensures
        ({
            let (x, y) = diffused(diffusion_steps(width, height, taus).take(n as int), 0, b);
            if n % 2 == 0 {
                x == n
            } else {
                y == n
            }
        }),
    decreases n,
{
    let steps = diffusion_steps(width, height, taus);
    if n > 0 {
        lemma_diffused_steps(width, height, taus, (n - 1) as nat, b);
        assert(steps.take(n as int).drop_last() =~= steps.take(n - 1));
        assert(steps.take(n as int).last() == diffuse_pass(
            width,
            height,
            taus[n - 1],
            (n - 1) as nat,
        ));
    }
}

proof fn lemma_preparation_leaves_picture(
    width: u32,
    height: u32,
    kernel: Seq<u32>,
    inv_k_sq: u32,
    b: int,
)
    ensures
        diffused(preparation(width, height, kernel, inv_k_sq), 0, b) == (0int, b),
{
    let p = preparation(width, height, kernel, inv_k_sq);
    reveal_with_fuel(diffused, 6);
    assert(p.drop_last().drop_last().drop_last().drop_last().drop_last() =~= Seq::empty());
}

/// Whatever the number of steps, the fully diffused picture ends up in the
/// buffer it was uploaded to.
pub proof fn law_evolution_ends_where_it_started(
    width: u32,
    height: u32,
    kernel: Seq<u32>,
    inv_k_sq: u32,
    taus: Seq<u32>,
)
    ensures
        diffused(evolution(width, height, kernel, inv_k_sq, taus), 0, -1).0 == taus.len(),
{
    let first = preparation(width, height, kernel, inv_k_sq);
    let steps = diffusion_steps(width, height, taus);
    let last = homecoming(width, height, taus.len());
    lemma_preparation_leaves_picture(width, height, kernel, inv_k_sq, -1);
    lemma_diffused_add(first, steps, 0, -1);
    lemma_diffused_add(first + steps, last, 0, -1);
    lemma_diffused_steps(width, height, taus, taus.len(), -1);
    assert(steps.take(taus.len() as int) =~= steps);
    let (x, y) = diffused(first + steps, 0, -1);
    assert(evolution(width, height, kernel, inv_k_sq, taus) == first + steps + last);
    reveal_with_fuel(diffused, 2);
    if taus.len() % 2 == 1 {
        assert(last.drop_last() =~= Seq::empty());
        assert(diffused(last, x, y) == (y, y));
    } else {
        assert(diffused(last, x, y) == (x, y));
    }
}

/// Whether a pass reads the buffer it writes.
pub open spec fn in_place(pass: PassView) -> bool {
    match pass {
        PassView::Separable { input, output, .. } => input == output,
        PassView::Conductivity { lx, ly, lflow, .. } => lx == lflow || ly == lflow,
        PassView::Diffuse { input, output, lflow, .. } => input == output || lflow == output,
        PassView::Copy { from, to, .. } => from == to,
    }
}

/// No pass of an evolution step reads the buffer it writes.
pub proof fn law_no_pass_is_in_place(
    width: u32,
    height: u32,
    kernel: Seq<u32>,
    inv_k_sq: u32,
    taus: Seq<u32>,
    i: int,
)
    requires
        0 <= i < evolution(width, height, kernel, inv_k_sq, taus).len(),
    ensures
        !in_place(evolution(width, height, kernel, inv_k_sq, taus)[i]),
{
    let first = preparation(width, height, kernel, inv_k_sq);
    let steps = diffusion_steps(width, height, taus);
    if 5 <= i < 5 + taus.len() {
        assert(evolution(width, height, kernel, inv_k_sq, taus)[i] == steps[i - 5]);
    }
}

/// Every pass binds its buffers and then its parameters, each buffer where it
/// can be bound; and an octave's buffers can be copied to one another and to
/// where the host reads them.
pub proof fn law_passes_fit_their_bindings(pass: PassView, octave: Octave)
    ensures
        pass is Copy || pass_kinds(pass).len() == pass_buffers(pass).len() + 1,
        forall|i: int|
            0 <= i < pass_buffers(pass).len() ==> buffer_fits(
                #[trigger] pass_kinds(pass)[i],
                work_buffer(octave),
            ),
        can_copy(work_buffer(octave), work_buffer(octave)),
        can_copy(work_buffer(octave), read_buffer(octave)),
{
}

/// The parameters of a filter are the size of the picture, the radius, the direction and the
/// weights, as many as there is room for, and zeros after them.
pub proof fn law_filter_parameters_have_their_places(
    width: u32,
    height: u32,
    radius: u32,
    direction: u32,
    kernel: Seq<u32>,
    i: int,
)
    requires
        0 <= i < 16,
    ensures
        filter_params(width, height, radius, direction, kernel).len() == 20,
        filter_params(width, height, radius, direction, kernel)[0] == width,
        filter_params(width, height, radius, direction, kernel)[1] == height,
        filter_params(width, height, radius, direction, kernel)[2] == radius,
        filter_params(width, height, radius, direction, kernel)[3] == direction,
        filter_params(width, height, radius, direction, kernel)[4 + i] == (if i < kernel.len() {
            kernel[i]
        } else {
            0
        }),
{
}

/// An evolution step first blurs the picture across and down, then takes the differences of what
/// is blurred across and down, and then the conductivity from both; each reads what the one
/// before it wrote.
pub proof fn law_evolution_prepares_the_conductivity(
    width: u32,
    height: u32,
    kernel: Seq<u32>,
    inv_k_sq: u32,
    taus: Seq<u32>,
)
    requires
        kernel.len() / 2 <= u32::MAX,
    ensures
        ({
            let passes = evolution(width, height, kernel, inv_k_sq, taus);
            let radius = (kernel.len() / 2) as u32;
            let sobel = seq![0xbf80_0000u32, 0u32, 0x3f80_0000u32];
            &&& passes.len() == 5 + taus.len() + taus.len() % 2
            &&& passes[0] matches PassView::Separable { input, output, params } && input
                == Buffer::LtA && output == Buffer::Temp && params == filter_params(
                width,
                height,
                radius,
                0,
                kernel,
            )
            &&& passes[1] matches PassView::Separable { input, output, params } && input
                == Buffer::Temp && output == Buffer::LSmooth && params == filter_params(
                width,
                height,
                radius,
                1,
                kernel,
            )
            &&& passes[2] matches PassView::Separable { input, output, params } && input
                == Buffer::LSmooth && output == Buffer::Lx && params == filter_params(
                width,
                height,
                1,
                0,
                sobel,
            )
            &&& passes[3] matches PassView::Separable { input, output, params } && input
                == Buffer::LSmooth && output == Buffer::Ly && params == filter_params(
                width,
                height,
                1,
                1,
                sobel,
            )
            &&& passes[4] matches PassView::Conductivity { lx, ly, lflow, params } && lx
                == Buffer::Lx && ly == Buffer::Ly && lflow == Buffer::LFlow && params
                == seq![width, height, inv_k_sq, 0u32]
        }),
{
}

/// Then it diffuses the picture once for every step size, in their order, back and forth between
/// two buffers and by the conductivity; and after an odd number it copies the picture back.
pub proof fn law_evolution_diffuses_once_per_step(
    width: u32,
    height: u32,
    kernel: Seq<u32>,
    inv_k_sq: u32,
    taus: Seq<u32>,
    i: int,
)
    requires
        0 <= i < taus.len(),
    ensures
        ({
            let passes = evolution(width, height, kernel, inv_k_sq, taus);
            &&& passes[5 + i] matches PassView::Diffuse { input, output, lflow, params } && lflow
                == Buffer::LFlow && params == seq![width, height, taus[i], 0u32] && (if i % 2 == 0 {
                input == Buffer::LtA && output == Buffer::LtB
            } else {
                input == Buffer::LtB && output == Buffer::LtA
            })
            &&& taus.len() % 2 == 1 ==> (passes.last() matches PassView::Copy { from, to, bytes }
                && from == Buffer::LtB && to == Buffer::LtA && bytes == width as nat * height as nat
                * 4)
        }),
{
    let before = preparation(width, height, kernel, inv_k_sq);
    let steps = diffusion_steps(width, height, taus);
    assert((before + steps)[5 + i] == steps[i]);
}

/// A pass is what it is seen as: the same buffers in the same places, and the same parameters.
pub proof fn law_passes_are_seen_as_they_are(pass: Pass)
    ensures
        pass matches Pass::Separable { input, output, params } ==> pass@ == (PassView::Separable {
            input,
            output,
            params: params@,
        }),
        pass matches Pass::Conductivity { lx, ly, lflow, params } ==> pass@ == (
        PassView::Conductivity { lx, ly, lflow, params: params@ }),
        pass matches Pass::Diffuse { input, output, lflow, params } ==> pass@ == (
        PassView::Diffuse { input, output, lflow, params: params@ }),
        pass matches Pass::Copy { from, to, bytes } ==> pass@ == (PassView::Copy {
            from,
            to,
            bytes: bytes as nat,
        }),
        pass_views(seq![pass]) == seq![pass@],
{
    assert(pass_views(seq![pass]) =~= seq![pass@]);
}

/// Each pass binds its buffers in its shader's order: what it reads and what it writes for what
/// they are, and then its parameters.
pub proof fn law_passes_bind_in_their_shaders_order(
    a: Buffer,
    b: Buffer,
    c: Buffer,
    params: Seq<u32>,
)
    ensures
        ({
            let read = BindingKind::Storage { read_only: true };
            let write = BindingKind::Storage { read_only: false };
            let filter = PassView::Separable { input: a, output: b, params };
            let flow = PassView::Conductivity { lx: a, ly: b, lflow: c, params };
            let diffuse = PassView::Diffuse { input: a, output: b, lflow: c, params };
            &&& pass_kinds(filter) == seq![read, write, BindingKind::Uniform]
            &&& pass_buffers(filter) == seq![a, b]
            &&& pass_kinds(flow) == seq![read, read, write, BindingKind::Uniform]
            &&& pass_buffers(flow) == seq![a, b, c]
            &&& pass_kinds(diffuse) == seq![read, write, read, BindingKind::Uniform]
            &&& pass_buffers(diffuse) == seq![a, b, c]
        }),
{
}

/// The buffers of an octave hold four bytes for each of its pixels.
pub proof fn law_octave_buffers_hold_the_picture(octave: Octave)
    requires
        octave.width * octave.height * 4 <= u32::MAX,
    ensures
        work_buffer(octave).size == octave.width * octave.height * 4,
        read_buffer(octave).size == octave.width * octave.height * 4,
{
    lemma_pixel_bytes(octave.width, octave.height);
}

/// Passes work on groups of sixteen by sixteen, with at most sixteen weights.
pub proof fn law_passes_work_on_groups()
    ensures
        WG_SIZE == 16,
        MAX_KERNEL == 16,
{
}

} // verus!
