//! Pixel planes handed to the pipeline.
//!
//! The render path wants tightly packed planes. Capture frameworks expose
//! rows padded to a stride and pixels in their own byte order; the functions
//! here repack both into buffers the caller keeps across frames.

use vstd::prelude::*;

verus! {

/// Tightly packed YUV 4:2:0 planes.
pub struct YuvPlanes<'a> {
    /// Luma, full resolution.
    pub y: &'a [u8],
    /// Cb, half resolution in each dimension.
    pub u: &'a [u8],
    /// Cr, half resolution in each dimension.
    pub v: &'a [u8],
}

/// One plane whose rows may carry padding.
pub struct FramePlaneView<'a> {
    /// Plane bytes.
    pub data: &'a [u8],
    /// Bytes per row, padding included.
    pub stride: u32,
    /// Usable bytes per row.
    pub width: u32,
    /// Number of rows.
    pub height: u32,
}

/// YUV 4:2:0 planes whose rows may carry padding.
pub struct StridedYuvPlanes<'a> {
    /// Luma, full resolution.
    pub y: FramePlaneView<'a>,
    /// Cb, half resolution in each dimension.
    pub u: FramePlaneView<'a>,
    /// Cr, half resolution in each dimension.
    pub v: FramePlaneView<'a>,
}

/// Tightly packed NV12 planes.
pub struct Nv12Planes<'a> {
    /// Luma, full resolution.
    pub y: &'a [u8],
    /// Interleaved chroma, half resolution in each dimension.
    pub uv: &'a [u8],
}

/// Tightly packed pixels of four bytes, red first.
pub struct BgraPlanes<'a> {
    /// Red, green, blue and alpha of each pixel in turn.
    pub rgba: &'a [u8],
}

/// The first `width` bytes of each of `height` rows that start `stride` apart.
pub open spec fn tight_rows(data: Seq<u8>, stride: nat, width: nat, height: nat) -> Seq<u8> {
    Seq::new(width * height, |i: int| data[(i / width as int) * stride + i % width as int])
}

/// `n` zero bytes.
pub open spec fn zeros(n: nat) -> Seq<u8> {
    Seq::new(n, |i: int| 0u8)
}

impl FramePlaneView<'_> {
    /// Bytes of the plane once its padding is gone.
    pub open spec fn tight_len(&self) -> nat {
        self.width as nat * self.height as nat
    }

    /// The rows do not overlap and the data holds all of them.
    pub open spec fn well_shaped(&self) -> bool {
        &&& self.stride >= self.width
        &&& self.data@.len() >= self.stride * self.height
    }

    /// The plane without padding; a malformed plane is black.
    pub open spec fn packed(&self) -> Seq<u8> {
        if self.well_shaped() {
            tight_rows(
                self.data@,
                self.stride as nat,
                self.width as nat,
                self.height as nat,
            )
        } else {
            zeros(self.tight_len())
        }
    }
}

fn fill_zero(dst: &mut [u8])
    ensures
        final(dst)@ == zeros(old(dst)@.len()),
{
    let mut i: usize = 0;
    let ghost n = dst@.len();
    while i < dst.len()
        invariant
            i <= dst@.len(),
            dst@.len() == n,
            forall|k: int| 0 <= k < i ==> dst@[k] == 0,
        decreases dst@.len() - i,
    {
        dst[i] = 0;
        i = i + 1;
    }
    assert(dst@ =~= zeros(n));
}

proof fn lemma_row_major(row: int, col: int, width: int)
    requires
        0 <= col < width,
        0 <= row,
    ensures
        (row * width + col) / width == row,
        (row * width + col) % width == col,
{
    assert((row * width + col) / width == row && (row * width + col) % width == col)
        by (nonlinear_arith)
        requires
            0 <= col < width,
            0 <= row,
    ;
}

/// Copy the rows of `src` into `dst`, leaving the padding out.
///
/// A destination that is not exactly one plane long, rows that overlap, or
/// data that ends early all give a black plane.
pub fn copy_plane_tight(src: &FramePlaneView<'_>, dst: &mut [u8])
    ensures
        final(dst)@ == (if old(dst)@.len() == src.tight_len() {
            src.packed()
        } else {
            zeros(old(dst)@.len())
        }),
{
    let width: u64 = src.width as u64;
    let height: u64 = src.height as u64;
    let stride: u64 = src.stride as u64;
    proof {
        lemma_product_fits(src.width, src.height);
        lemma_product_fits(src.stride, src.height);
    }
    if dst.len() as u64 != width * height {
        fill_zero(dst);
        return ;
    }
    if stride < width {
        fill_zero(dst);
        return ;
    }
    if (src.data.len() as u64) < stride * height {
        fill_zero(dst);
        return ;
    }
    let ghost n = dst.len() as nat;
    let ghost m = src.data.len() as nat;
    let ghost goal = src.packed();
    proof {
        if height > 0 {
            assert(stride <= stride * height) by (nonlinear_arith)
                requires
                    0 < height,
                    0 <= stride,
            ;
        }
    }
    let mut row: usize = 0;
    let mut src_at: usize = 0;
    let mut dst_at: usize = 0;
    while (row as u64) < height
        invariant
            row <= height,
            height == src.height,
            width == src.width,
            stride == src.stride,
            stride >= width,
            src.well_shaped(),
            goal == src.packed(),
            n == src.tight_len(),
            dst@.len() == n,
            src.data@.len() == m,
            n <= usize::MAX,
            m <= usize::MAX,
            src_at == row * stride,
            dst_at == row * width,
            dst_at <= n,
            row < height ==> src_at + stride <= src.data@.len(),
            forall|k: int| 0 <= k < dst_at ==> dst@[k] == goal[k],
        decreases height - row,
    {
        assert(row * width + width <= n) by (nonlinear_arith)
            requires
                row + 1 <= height,
                n == width * height,
        ;
        let mut col: usize = 0;
        while (col as u64) < width
            invariant
                col <= width,
                row < height,
                height == src.height,
                width == src.width,
                stride == src.stride,
                stride >= width,
                src.well_shaped(),
                goal == src.packed(),
                n == src.tight_len(),
                dst@.len() == n,
                src.data@.len() == m,
                n <= usize::MAX,
                m <= usize::MAX,
                src_at == row * stride,
                dst_at == row * width,
                dst_at + width <= n,
                src_at + stride <= src.data@.len(),
                forall|k: int| 0 <= k < dst_at + col ==> dst@[k] == goal[k],
            decreases width - col,
        {
            proof {
                lemma_row_major(row as int, col as int, width as int);
                assert(goal[dst_at + col] == src.data@[src_at + col]);
            }
            dst[dst_at + col] = src.data[src_at + col];
            col = col + 1;
        }
        proof {
            assert(row * width + width == (row + 1) * width) by (nonlinear_arith);
            assert(row * stride + stride == (row + 1) * stride) by (nonlinear_arith);
            if row + 1 < height {
                assert((row + 1) * stride + stride <= stride * height) by (nonlinear_arith)
                    requires
                        row + 2 <= height,
                        0 <= stride,
                ;
            }
        }
        row = row + 1;
        dst_at = dst_at + src.width as usize;
        src_at = src_at + src.stride as usize;
    }
    assert(dst@ =~= goal) by {
        assert(row * width == n) by (nonlinear_arith)
            requires
                row == height,
                n == width * height,
        ;
    }
}

proof fn lemma_product_fits(a: u32, b: u32)
    ensures
        0 <= a * b <= 0xffff_fffe_0000_0001,
        a as nat * b as nat == a * b,
{
    assert(0 <= a * b <= 0xffff_fffe_0000_0001) by (nonlinear_arith)
        requires
            0 <= a <= 0xffff_ffff,
            0 <= b <= 0xffff_ffff,
    ;
}

impl StridedYuvPlanes<'_> {
    /// Bytes of all three planes without padding.
    pub open spec fn tight_len(&self) -> nat {
        self.y.tight_len() + self.u.tight_len() + self.v.tight_len()
    }

    /// Repack the planes into `buffer` and hand out views of it.
    ///
    /// The buffer is resized to the three planes; keep it across frames and
    /// it is not reallocated.
    pub fn copy_into<'b>(&self, buffer: &'b mut Vec<u8>) -> (planes: YuvPlanes<'b>)
        requires
            self.tight_len() <= usize::MAX,
        ensures
            planes.y@ == self.y.packed(),
            planes.u@ == self.u.packed(),
            planes.v@ == self.v.packed(),
            final(buffer)@ == self.y.packed() + self.u.packed() + self.v.packed(),
    {
        proof {
            lemma_product_fits(self.y.width, self.y.height);
            lemma_product_fits(self.u.width, self.u.height);
            lemma_product_fits(self.v.width, self.v.height);
        }
        let y_len: usize = (self.y.width as usize) * (self.y.height as usize);
        let u_len: usize = (self.u.width as usize) * (self.u.height as usize);
        let v_len: usize = (self.v.width as usize) * (self.v.height as usize);
        buffer.resize(y_len + u_len + v_len, 0);
        let (y_dst, rest) = buffer.split_at_mut(y_len);
        let (u_dst, v_dst) = rest.split_at_mut(u_len);
        copy_plane_tight(&self.y, y_dst);
        copy_plane_tight(&self.u, u_dst);
        copy_plane_tight(&self.v, v_dst);
        let (y, chroma) = buffer.split_at(y_len);
        let (u, v) = chroma.split_at(u_len);
        proof {
            assert(y@ =~= self.y.packed());
            assert(u@ =~= self.u.packed());
            assert(v@ =~= self.v.packed());
            assert(buffer@ =~= self.y.packed() + self.u.packed() + self.v.packed());
        }
        YuvPlanes { y, u, v }
    }
}

/// `src` with the first and third byte of every whole pixel exchanged. Bytes
/// behind the last whole pixel are those of `rest`, or zero past its end.
pub open spec fn swizzled(src: Seq<u8>, rest: Seq<u8>) -> Seq<u8> {
    Seq::new(
        src.len(),
        |i: int|
            if i - i % 4 + 4 <= src.len() {
                if i % 4 == 0 {
                    src[i + 2]
                } else if i % 4 == 2 {
                    src[i - 2]
                } else {
                    src[i]
                }
            } else if i < rest.len() {
                rest[i]
            } else {
                0u8
            },
    )
}

impl<'a> BgraPlanes<'a> {
    /// Wrap pixels that are already red first.
    pub fn from_rgba(rgba: &'a [u8]) -> (planes: Self)
        ensures
            planes.rgba@ == rgba@,
    {
        BgraPlanes { rgba }
    }

    /// Reorder blue-first pixels into `buffer` and wrap it.
    ///
    /// The buffer is resized to the source; keep it across frames and it is
    /// not reallocated.
    pub fn from_bgra_swizzle_into(bgra: &[u8], buffer: &'a mut Vec<u8>) -> (planes: Self)
        ensures
            planes.rgba@ == swizzled(bgra@, old(buffer)@),
            final(buffer)@ == swizzled(bgra@, old(buffer)@),
    {
        let ghost rest = buffer@;
        let ghost goal = swizzled(bgra@, rest);
        let n: usize = bgra.len();
        buffer.resize(n, 0);
        let ghost resized = buffer@;
        assert forall|i: int| 0 <= i < n implies #[trigger] resized[i] == (if i < rest.len() {
            rest[i]
        } else {
            0u8
        }) by {
            if rest.len() < n && i < rest.len() {
                assert(resized.subrange(0, rest.len() as int)[i] == rest[i]);
            }
        }
        let mut at: usize = 0;
        while n - at >= 4
            invariant
                n == bgra@.len(),
                at <= n,
                at % 4 == 0,
                buffer@.len() == n,
                goal == swizzled(bgra@, rest),
                forall|i: int|
                    0 <= i < n ==> #[trigger] resized[i] == (if i < rest.len() {
                        rest[i]
                    } else {
                        0u8
                    }),
                forall|k: int| 0 <= k < at ==> buffer@[k] == goal[k],
                forall|k: int| at <= k < n ==> buffer@[k] == resized[k],
            decreases n - at,
        {
            buffer.set(at, bgra[at + 2]);
            buffer.set(at + 1, bgra[at + 1]);
            buffer.set(at + 2, bgra[at]);
            buffer.set(at + 3, bgra[at + 3]);
            at = at + 4;
        }
        assert forall|k: int| 0 <= k < n implies buffer@[k] == goal[k] by {
            if k >= at {
                assert(k % 4 == k - at);
                assert(resized[k] == goal[k]);
            }
        }
        assert(buffer@ =~= goal);
        BgraPlanes { rgba: buffer }
    }
}

/// Rows without padding are copied as they are.
pub proof fn law_tight_rows_of_tight_plane(data: Seq<u8>, width: nat, height: nat)
    requires
        data.len() >= width * height,
    ensures
        tight_rows(data, width, width, height) == data.take((width * height) as int),
{
    let rows = tight_rows(data, width, width, height);
    assert forall|i: int| 0 <= i < rows.len() implies rows[i] == data[i] by {
        assert(width > 0) by (nonlinear_arith)
            requires
                0 <= i < width * height,
                0 <= width,
        ;
        vstd::arithmetic::div_mod::lemma_fundamental_div_mod(i, width as int);
        assert((i / width as int) * width == width as int * (i / width as int))
            by (nonlinear_arith);
    }
    assert(rows =~= data.take((width * height) as int));
}

/// Padding bytes never reach the packed plane: row `r`, column `c` of the
/// result is column `c` of row `r` of the data.
pub proof fn law_tight_rows_addressing(
    data: Seq<u8>,
    stride: nat,
    width: nat,
    height: nat,
    r: nat,
    c: nat,
)
    requires
        r < height,
        c < width,
    ensures
        r * width + c < tight_rows(data, stride, width, height).len(),
        tight_rows(data, stride, width, height)[(r * width + c) as int] == data[(r * stride + c) as int],
{
    assert(r * width + c < width * height) by (nonlinear_arith)
        requires
            r + 1 <= height,
            c < width,
            0 <= r,
    ;
    lemma_row_major(r as int, c as int, width as int);
}

/// Reordering twice gives the pixels back.
pub proof fn law_swizzle_is_an_involution(src: Seq<u8>, first: Seq<u8>, second: Seq<u8>)
    requires
        src.len() % 4 == 0,
    ensures
        swizzled(swizzled(src, first), second) == src,
{
    assert(swizzled(swizzled(src, first), second) =~= src);
}

/// A plane loses its padding and nothing else: column `c` of row `r` of what is left is
/// column `c` of row `r` of the plane. A plane whose rows overlap or whose data ends early is
/// black.
pub proof fn law_packing_takes_out_the_padding(plane: FramePlaneView<'_>, r: nat, c: nat)
    requires
        r < plane.height,
        c < plane.width,
    ensures
        plane.packed().len() == plane.width * plane.height,
        r * plane.width + c < plane.packed().len(),
        plane.stride >= plane.width && plane.data@.len() >= plane.stride * plane.height
            ==> plane.packed()[r * plane.width + c] == plane.data@[r * plane.stride + c],
        plane.stride < plane.width || plane.data@.len() < plane.stride * plane.height
            ==> plane.packed()[r * plane.width + c] == 0,
{
    law_tight_rows_addressing(
        plane.data@,
        plane.stride as nat,
        plane.width as nat,
        plane.height as nat,
        r,
        c,
    );
    let (w, h) = (plane.width as nat, plane.height as nat);
    assert(r * w + c < w * h) by (nonlinear_arith)
        requires
            r < h,
            c < w,
    ;
    assert(0 <= r * w) by (nonlinear_arith)
        requires
            0 <= r,
            0 <= w,
    ;
    assert(w * h == plane.width * plane.height) by (nonlinear_arith)
        requires
            w == plane.width,
            h == plane.height,
    ;
}

/// Repacked planes are as long as their pixels, and a frame's are one after the other.
pub proof fn law_repacked_planes_fill_the_buffer(planes: StridedYuvPlanes<'_>)
    ensures
        planes.y.packed().len() == planes.y.width * planes.y.height,
        planes.u.packed().len() == planes.u.width * planes.u.height,
        planes.v.packed().len() == planes.v.width * planes.v.height,
        planes.tight_len() == planes.y.packed().len() + planes.u.packed().len()
            + planes.v.packed().len(),
{
    lemma_product_fits(planes.y.width, planes.y.height);
    lemma_product_fits(planes.u.width, planes.u.height);
    lemma_product_fits(planes.v.width, planes.v.height);
}

/// Reordering exchanges the first and the third byte of each pixel, and leaves the second and
/// the fourth. What is behind the last whole pixel is left of the buffer, or zero past its
/// end.
pub proof fn law_swizzle_exchanges_blue_and_red(src: Seq<u8>, rest: Seq<u8>, i: int)
    requires
        0 <= i < src.len(),
    ensures
        swizzled(src, rest).len() == src.len(),
        i / 4 < src.len() / 4 ==> {
            &&& i % 4 == 0 ==> swizzled(src, rest)[i] == src[i + 2]
            &&& i % 4 == 1 ==> swizzled(src, rest)[i] == src[i]
            &&& i % 4 == 2 ==> swizzled(src, rest)[i] == src[i - 2]
            &&& i % 4 == 3 ==> swizzled(src, rest)[i] == src[i]
        },
        i / 4 >= src.len() / 4 ==> swizzled(src, rest)[i] == (if i < rest.len() {
            rest[i]
        } else {
            0
        }),
{
}

} // verus!
