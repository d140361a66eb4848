//! Raw sensor frames: sampling for exposure and white balance, tuning
//! parameters, and the demosaic pass.
//!
//! A raw frame holds one little-endian 16-bit value per pixel, ten bits shifted
//! up by six, in rows of red and green alternating with rows of green and blue.

use crate::grid::{div_ceil, groups, native_bytes, words_to_bytes};
use crate::number::Real32;
use crate::resources::{
    Binding, BindingKind, BufferSpec, BufferUse, Stages, TexelFormat, TextureSpec, TextureUse,
    buffer_fits, computed, create_bind_group_layout, numbered, parameters, texture_fits, uploaded,
};
use crate::text::{decimal, push_decimal};
use vstd::prelude::*;

verus! {

/// Threads per workgroup, across and down.
pub const DEMOSAIC_GROUP: u32 = 16;

/// Distance between the pixels that white balance looks at.
pub const AWB_STRIDE: u32 = 8;

/// Distance between the pixels that exposure looks at.
pub const AE_STRIDE: u32 = 16;

/// Sum and number of the pixels of one color.
#[derive(Clone, Copy, Debug, PartialEq, Eq, Structural)]
pub struct Tally {
    /// Sum of the values.
    pub sum: u64,
    /// Number of values.
    pub count: u64,
}

/// Sum and number of some values.
pub struct Total {
    /// Sum of the values.
    pub sum: nat,
    /// Number of values.
    pub count: nat,
}

impl Total {
    /// No values.
    pub open spec fn none() -> Total {
        Total { sum: 0, count: 0 }
    }

    /// Both together.
    pub open spec fn and(self, other: Total) -> Total {
        Total { sum: self.sum + other.sum, count: self.count + other.count }
    }
}

impl View for Tally {
    type V = Total;

    open spec fn view(&self) -> Total {
        Total { sum: self.sum as nat, count: self.count as nat }
    }
}

/// The value of a pixel, if the frame holds it.
pub open spec fn pixel(raw: Seq<u8>, width: nat, x: nat, y: nat) -> Option<nat> {
    let at = (y * width + x) * 2;
    if at + 1 < raw.len() {
        Some(raw[at as int] as nat + 256 * raw[at as int + 1] as nat)
    } else {
        None
    }
}

fn pixel_at(raw: &[u8], width: u64, x: u64, y: u64) -> (value: Option<u64>)
    requires
        (y * width + x) * 2 + 1 <= u64::MAX,
        y * width + x <= u64::MAX,
    ensures
        value is Some <==> pixel(raw@, width as nat, x as nat, y as nat) is Some,
        value matches Some(v) ==> pixel(raw@, width as nat, x as nat, y as nat) == Some(v as nat)
            && v <= 65535,
{
    assert(0 <= y * width) by (nonlinear_arith)
        requires
            0 <= y,
            0 <= width,
    ;
    let at: u64 = (y * width + x) * 2;
    if at + 1 >= raw.len() as u64 {
        return None;
    }
    let i: usize = at as usize;
    Some(raw[i] as u64 + 256 * raw[i + 1] as u64)
}

/// Color of a pixel.
#[derive(Clone, Copy, Debug, PartialEq, Eq, Structural)]
pub enum BayerColor {
    /// Red.
    Red,
    /// Green.
    Green,
    /// Blue.
    Blue,
}

/// Color of the pixel at a position: red where both are even, blue where both
/// are odd, green elsewhere.
pub open spec fn color_at(x: nat, y: nat) -> BayerColor {
    if x % 2 == 0 && y % 2 == 0 {
        BayerColor::Red
    } else if x % 2 == 1 && y % 2 == 1 {
        BayerColor::Blue
    } else {
        BayerColor::Green
    }
}

/// What one pixel adds to the green of exposure: its ten bits. A pixel of
/// another color adds nothing.
pub open spec fn bright(raw: Seq<u8>, width: nat, x: nat, y: nat) -> Total {
    match pixel(raw, width, x, y) {
        Some(v) => if color_at(x, y) is Green {
            Total { sum: v / 64, count: 1 }
        } else {
            Total::none()
        },
        None => Total::none(),
    }
}

/// What one pixel adds to a color of white balance. A pixel beyond the edge of
/// the frame adds nothing.
pub open spec fn tint(
    raw: Seq<u8>,
    width: nat,
    height: nat,
    color: BayerColor,
    x: nat,
    y: nat,
) -> Total {
    match pixel(raw, width, x, y) {
        Some(v) => if x < width && y < height && color_at(x, y) == color {
            Total { sum: v, count: 1 }
        } else {
            Total::none()
        },
        None => Total::none(),
    }
}

/// What white balance takes at a position: the pixel there, or where the stride is
/// even the cell of two by two pixels that begins there. Pixels an even stride apart
/// all have one color; a cell has all three.
pub open spec fn sample(
    raw: Seq<u8>,
    width: nat,
    height: nat,
    stride: nat,
    color: BayerColor,
    x: nat,
    y: nat,
) -> Total {
    let here = tint(raw, width, height, color, x, y);
    if stride % 2 == 0 {
        here.and(tint(raw, width, height, color, x + 1, y)).and(
            tint(raw, width, height, color, x, y + 1),
        ).and(tint(raw, width, height, color, x + 1, y + 1))
    } else {
        here
    }
}

/// Distance between two samples of exposure: a stride below two counts as two.
pub open spec fn spacing(stride: u32) -> nat {
    if stride < 2 {
        2
    } else {
        stride as nat
    }
}

/// What every `stride`-th pixel of a row adds, from `x` on.
pub open spec fn row_bright(raw: Seq<u8>, width: nat, stride: nat, x: nat, y: nat) -> Total
    decreases width + stride - x,
    when stride > 0
{
    if x >= width {
        Total::none()
    } else {
        bright(raw, width, x, y).and(row_bright(raw, width, stride, x + stride, y))
    }
}

/// What every `stride`-th row adds, from `y` on: in each, every `stride`-th
/// pixel from the second on.
pub open spec fn frame_bright(raw: Seq<u8>, width: nat, height: nat, stride: nat, y: nat) -> Total
    decreases height + stride - y,
    when stride > 0
{
    if y >= height {
        Total::none()
    } else {
        row_bright(raw, width, stride, 1, y).and(
            frame_bright(raw, width, height, stride, y + stride),
        )
    }
}

/// What is taken at every `stride`-th pixel of a row adds to a color, from `x`
/// on.
pub open spec fn row_tint(
    raw: Seq<u8>,
    width: nat,
    height: nat,
    stride: nat,
    color: BayerColor,
    x: nat,
    y: nat,
) -> Total
    decreases width + stride - x,
    when stride > 0
{
    if x >= width {
        Total::none()
    } else {
        sample(raw, width, height, stride, color, x, y).and(
            row_tint(raw, width, height, stride, color, x + stride, y),
        )
    }
}

/// What is taken at every `stride`-th pixel of every `stride`-th row adds to a
/// color, from row `y` on.
pub open spec fn frame_tint(
    raw: Seq<u8>,
    width: nat,
    height: nat,
    stride: nat,
    color: BayerColor,
    y: nat,
) -> Total
    decreases height + stride - y,
    when stride > 0
{
    if y >= height {
        Total::none()
    } else {
        row_tint(raw, width, height, stride, color, 0, y).and(
            frame_tint(raw, width, height, stride, color, y + stride),
        )
    }
}

/// The lesser of two numbers.
pub open spec fn least(a: int, b: int) -> int {
    if a < b {
        a
    } else {
        b
    }
}

/// Whether positions in a frame, and the number of pixels that it holds, are
/// within the range of the counters.
pub open spec fn countable(raw: Seq<u8>, width: u32, height: u32) -> bool {
    &&& 2 * (width * height) <= u64::MAX
    &&& least(width * height, raw.len() as int / 2) <= u32::MAX
}

proof fn lemma_position_fits(width: u32, height: u32, x: u64, y: u64)
    requires
        x < width,
        y < height,
    ensures
        0 <= y * width,
        y * width + x < width * height,
{
    assert(y * width + x <= width * height - 1) by (nonlinear_arith)
        requires
            x < width,
            y < height,
    ;
    assert(0 <= y * width) by (nonlinear_arith)
        requires
            0 <= y,
            0 <= width,
    ;
}

/// Sum and number of the green pixels that exposure looks at, whose quotient is
/// the mean brightness in ten bits. A stride below two counts as two.
pub fn compute_mean_brightness(raw: &[u8], width: u32, height: u32, stride: u32) -> (tally: Tally)
    requires
        countable(raw@, width, height),
    ensures
        tally@ == frame_bright(raw@, width as nat, height as nat, spacing(stride), 0),
{
    let step: u64 = if stride < 2 {
        2
    } else {
        stride as u64
    };
    let w: u64 = width as u64;
    let h: u64 = height as u64;
    let ghost whole = frame_bright(raw@, w as nat, h as nat, step as nat, 0);
    let mut sum: u64 = 0;
    let mut count: u64 = 0;
    let mut y: u64 = 0;
    while y < h
        invariant
            w == width,
            h == height,
            2 <= step <= u32::MAX,
            y <= h + step,
            countable(raw@, width, height),
            count <= y * w,
            count <= raw@.len() / 2,
            sum <= 1023 * count,
            whole == (Total { sum: sum as nat, count: count as nat }).and(
                frame_bright(raw@, w as nat, h as nat, step as nat, y as nat),
            ),
        decreases h + step - y,
    {
        let ghost rest = frame_bright(raw@, w as nat, h as nat, step as nat, (y + step) as nat);
        let mut x: u64 = 1;
        while x < w
            invariant
                w == width,
                h == height,
                2 <= step <= u32::MAX,
                y < h,
                x <= w + step,
                countable(raw@, width, height),
                count <= y * w + least(x as int, w as int),
                count <= raw@.len() / 2,
                sum <= 1023 * count,
                whole == (Total { sum: sum as nat, count: count as nat }).and(
                    row_bright(raw@, w as nat, step as nat, x as nat, y as nat),
                ).and(rest),
            decreases w + step - x,
        {
            proof {
                lemma_position_fits(width, height, x, y);
            }
            if let Some(value) = pixel_at(raw, w, x, y) {
                if x % 2 != y % 2 {
                    assert(value >> 6 == value / 64) by (bit_vector);
                    sum = sum + (value >> 6);
                    count = count + 1;
                }
            }
            x = x + step;
        }
        assert(y * w + w <= (y + step) * w) by (nonlinear_arith)
            requires
                step >= 1,
                0 <= w,
        ;
        y = y + step;
    }
    Tally { sum, count }
}

/// Sums and numbers of the pixels that white balance looks at.
#[derive(Clone, Copy, Debug, PartialEq, Eq, Structural)]
pub struct ColorTally {
    /// Red.
    pub r: Tally,
    /// Green.
    pub g: Tally,
    /// Blue.
    pub b: Tally,
}

/// Whether these are the sums and numbers of the pixels that white balance looks
/// at; nothing where a color has none.
pub open spec fn colors_of(
    raw: Seq<u8>,
    width: u32,
    height: u32,
    stride: u32,
    tally: Option<ColorTally>,
) -> bool {
    let (w, h, step) = (width as nat, height as nat, stride as nat);
    let red = frame_tint(raw, w, h, step, BayerColor::Red, 0);
    let green = frame_tint(raw, w, h, step, BayerColor::Green, 0);
    let blue = frame_tint(raw, w, h, step, BayerColor::Blue, 0);
    match tally {
        Some(t) => {
            &&& t.r@ == red && t.g@ == green && t.b@ == blue
            &&& red.count > 0 && green.count > 0 && blue.count > 0
        },
        None => red.count == 0 || green.count == 0 || blue.count == 0,
    }
}

/// The value of a pixel, if it is within the frame and the bytes hold it.
fn site_at(raw: &[u8], width: u32, height: u32, x: u64, y: u64) -> (value: Option<u64>)
    requires
        countable(raw@, width, height),
    ensures
        value == (if x < width && y < height {
            match pixel(raw@, width as nat, x as nat, y as nat) {
                Some(v) => Some(v as u64),
                None => None,
            }
        } else {
            None
        }),
        value matches Some(v) ==> {
            &&& v <= 65535
            &&& pixel(raw@, width as nat, x as nat, y as nat) == Some(v as nat)
            &&& 0 <= y * width
            &&& y * width + x < width * height
            &&& y * width + x < raw@.len() / 2
        },
{
    if x >= width as u64 || y >= height as u64 {
        return None;
    }
    proof {
        lemma_position_fits(width, height, x, y);
    }
    pixel_at(raw, width as u64, x, y)
}

fn counted(tally: Tally, value: Option<u64>) -> (next: Tally)
    requires
        value matches Some(v) ==> v <= 65535 && tally.count < 2 * u32::MAX,
        tally.sum <= 65535 * tally.count,
    ensures
        next@ == tally@.and(
            match value {
                Some(v) => Total { sum: v as nat, count: 1 },
                None => Total::none(),
            },
        ),
        next.sum <= 65535 * next.count,
{
    match value {
        Some(v) => Tally { sum: tally.sum + v, count: tally.count + 1 },
        None => tally,
    }
}

/// Sums and numbers of the pixels that white balance looks at, from whose means
/// the gains follow: every `stride`-th pixel, or where the stride is even the whole
/// cell there. Nothing where a color has none: the gains are then one.
pub fn compute_awb(raw: &[u8], width: u32, height: u32, stride: u32) -> (tally: Option<
    ColorTally,
>)
    requires
        stride > 0,
        countable(raw@, width, height),
    ensures
        colors_of(raw@, width, height, stride, tally),
{
    let step: u64 = stride as u64;
    let whole: bool = step % 2 == 0;
    let ghost w = width as nat;
    let ghost h = height as nat;
    let ghost k = step as nat;
    let ghost red = frame_tint(raw@, w, h, k, BayerColor::Red, 0);
    let ghost green = frame_tint(raw@, w, h, k, BayerColor::Green, 0);
    let ghost blue = frame_tint(raw@, w, h, k, BayerColor::Blue, 0);
    let mut r: Tally = Tally { sum: 0, count: 0 };
    let mut g: Tally = Tally { sum: 0, count: 0 };
    let mut b: Tally = Tally { sum: 0, count: 0 };
    let mut y: u64 = 0;
    assert(0 * w == 0) by (nonlinear_arith);
    while y < height as u64
        invariant
            w == width,
            h == height,
            k == step,
            1 <= step <= u32::MAX,
            whole == (step % 2 == 0),
            whole ==> y % 2 == 0,
            y <= height + step,
            countable(raw@, width, height),
            r.count <= y * w,
            g.count <= 2 * (y * w),
            b.count <= y * w,
            r.count <= u32::MAX,
            g.count <= 2 * u32::MAX,
            b.count <= u32::MAX,
            r.sum <= 65535 * r.count,
            g.sum <= 65535 * g.count,
            b.sum <= 65535 * b.count,
            red == r@.and(frame_tint(raw@, w, h, k, BayerColor::Red, y as nat)),
            green == g@.and(frame_tint(raw@, w, h, k, BayerColor::Green, y as nat)),
            blue == b@.and(frame_tint(raw@, w, h, k, BayerColor::Blue, y as nat)),
        decreases height + step - y,
    {
        let ghost rest_r = frame_tint(raw@, w, h, k, BayerColor::Red, (y + step) as nat);
        let ghost rest_g = frame_tint(raw@, w, h, k, BayerColor::Green, (y + step) as nat);
        let ghost rest_b = frame_tint(raw@, w, h, k, BayerColor::Blue, (y + step) as nat);
        let ghost before = y * w;
        let mut x: u64 = 0;
        while x < width as u64
            invariant
                w == width,
                h == height,
                k == step,
                1 <= step <= u32::MAX,
                whole == (step % 2 == 0),
                whole ==> x % 2 == 0 && y % 2 == 0,
                y < height,
                x <= width + step,
                countable(raw@, width, height),
                before == y * w,
                r.count <= before + least(x as int, w as int),
                g.count <= 2 * (before + least(x as int, w as int)),
                b.count <= before + least(x as int, w as int),
                r.count <= u32::MAX,
                g.count <= 2 * u32::MAX,
                b.count <= u32::MAX,
                r.sum <= 65535 * r.count,
                g.sum <= 65535 * g.count,
                b.sum <= 65535 * b.count,
                red == r@.and(
                    row_tint(raw@, w, h, k, BayerColor::Red, x as nat, y as nat),
                ).and(rest_r),
                green == g@.and(
                    row_tint(raw@, w, h, k, BayerColor::Green, x as nat, y as nat),
                ).and(rest_g),
                blue == b@.and(
                    row_tint(raw@, w, h, k, BayerColor::Blue, x as nat, y as nat),
                ).and(rest_b),
            decreases width + step - x,
        {
            assert((y + 1) * w == before + w) by (nonlinear_arith)
                requires
                    before == y * w,
            ;
            let here: Option<u64> = site_at(raw, width, height, x, y);
            if whole {
                let right: Option<u64> = site_at(raw, width, height, x + 1, y);
                let below: Option<u64> = site_at(raw, width, height, x, y + 1);
                let far: Option<u64> = site_at(raw, width, height, x + 1, y + 1);
                r = counted(r, here);
                g = counted(counted(g, right), below);
                b = counted(b, far);
            } else if x % 2 == 0 && y % 2 == 0 {
                r = counted(r, here);
            } else if x % 2 == 1 && y % 2 == 1 {
                b = counted(b, here);
            } else {
                g = counted(g, here);
            }
            x = x + step;
        }
        assert(before + w <= (y + step) * w) by (nonlinear_arith)
            requires
                before == y * w,
                step >= 1,
                0 <= w,
        ;
        y = y + step;
    }
    if r.count == 0 || g.count == 0 || b.count == 0 {
        return None;
    }
    Some(ColorTally { r, g, b })
}

/// White balance finds all three colors in a whole frame of at least one cell
/// whenever the stride is even, and also at an odd stride that is less than both
/// sides of the frame.
pub proof fn law_white_balance_sees_every_color(
    raw: Seq<u8>,
    width: u32,
    height: u32,
    stride: u32,
    tally: Option<ColorTally>,
)
    requires
        stride > 0,
        width >= 2,
        height >= 2,
        stride % 2 == 0 || (stride < width && stride < height),
        raw.len() >= 2 * (width * height),
        colors_of(raw, width, height, stride, tally),
    ensures
        tally is Some,
{
    let (w, h, k) = (width as nat, height as nat, stride as nat);
    let far = if k % 2 == 0 {
        1
    } else {
        k
    };
    assert(far * w + far < w * h) by (nonlinear_arith)
        requires
            far < w,
            far < h,
            w >= 2,
    ;
    assert(0 <= far * w) by (nonlinear_arith)
        requires
            0 <= far,
            0 <= w,
    ;
    assert(0 * w == 0) by (nonlinear_arith);
    assert(pixel(raw, w, 0, 0) is Some);
    assert(pixel(raw, w, far, 0) is Some);
    assert(pixel(raw, w, far, far) is Some);
    lemma_first_samples(raw, w, h, k, BayerColor::Red);
    lemma_first_samples(raw, w, h, k, BayerColor::Green);
    lemma_first_samples(raw, w, h, k, BayerColor::Blue);
}

proof fn lemma_first_samples(raw: Seq<u8>, w: nat, h: nat, k: nat, color: BayerColor)
    requires
        k > 0,
        w > 0,
        h > 0,
    ensures
        frame_tint(raw, w, h, k, color, 0).count >= sample(raw, w, h, k, color, 0, 0).count,
        k < w ==> frame_tint(raw, w, h, k, color, 0).count >= sample(raw, w, h, k, color, k, 0).count,
        k < w && k < h ==> frame_tint(raw, w, h, k, color, 0).count >= sample(
            raw,
            w,
            h,
            k,
            color,
            k,
            k,
        ).count,
{
    let first = row_tint(raw, w, h, k, color, 0, 0);
    let second = row_tint(raw, w, h, k, color, 0, k);
    assert(frame_tint(raw, w, h, k, color, 0) == first.and(frame_tint(raw, w, h, k, color, k)));
    assert(first == sample(raw, w, h, k, color, 0, 0).and(row_tint(raw, w, h, k, color, k, 0)));
    if k < w {
        assert(row_tint(raw, w, h, k, color, k, 0) == sample(raw, w, h, k, color, k, 0).and(
            row_tint(raw, w, h, k, color, k + k, 0),
        ));
    }
    if k < w && k < h {
        assert(frame_tint(raw, w, h, k, color, k) == second.and(
            frame_tint(raw, w, h, k, color, k + k),
        ));
        assert(second == sample(raw, w, h, k, color, 0, k).and(row_tint(raw, w, h, k, color, k, k)));
        assert(row_tint(raw, w, h, k, color, k, k) == sample(raw, w, h, k, color, k, k).and(
            row_tint(raw, w, h, k, color, k + k, k),
        ));
    }
}

/// Where all pixels of a color have one value, that is the mean of the color,
/// whatever the stride: the gains are then those between the values.
pub proof fn law_plain_color_is_its_mean(
    raw: Seq<u8>,
    width: nat,
    height: nat,
    stride: nat,
    color: BayerColor,
    value: nat,
    y: nat,
)
    requires
        stride > 0,
        forall|i: nat, j: nat|
            i < width && j < height && color_at(i, j) == color && (#[trigger] pixel(
                raw,
                width,
                i,
                j,
            )) is Some ==> pixel(raw, width, i, j) == Some(value),
    ensures
        ({
            let total = frame_tint(raw, width, height, stride, color, y);
            total.sum == value * total.count
        }),
    decreases height + stride - y,
{
    assert(value * 0 == 0) by (nonlinear_arith);
    if y < height {
        lemma_plain_row(raw, width, height, stride, color, value, 0, y);
        law_plain_color_is_its_mean(raw, width, height, stride, color, value, y + stride);
        let row = row_tint(raw, width, height, stride, color, 0, y);
        let rest = frame_tint(raw, width, height, stride, color, y + stride);
        assert(value * (row.count + rest.count) == value * row.count + value * rest.count)
            by (nonlinear_arith);
    }
}

proof fn lemma_plain_row(
    raw: Seq<u8>,
    width: nat,
    height: nat,
    stride: nat,
    color: BayerColor,
    value: nat,
    x: nat,
    y: nat,
)
    requires
        stride > 0,
        forall|i: nat, j: nat|
            i < width && j < height && color_at(i, j) == color && (#[trigger] pixel(
                raw,
                width,
                i,
                j,
            )) is Some ==> pixel(raw, width, i, j) == Some(value),
    ensures
        ({
            let total = row_tint(raw, width, height, stride, color, x, y);
            total.sum == value * total.count
        }),
    decreases width + stride - x,
{
    assert(value * 0 == 0) by (nonlinear_arith);
    if x < width {
        lemma_plain_row(raw, width, height, stride, color, value, x + stride, y);
        let cell = sample(raw, width, height, stride, color, x, y);
        let rest = row_tint(raw, width, height, stride, color, x + stride, y);
        assert(cell.sum == value * cell.count) by {
            assert(value * 1 == value && value * 2 == value + value && value * 3 == value + value
                + value && value * 4 == value + value + value + value) by (nonlinear_arith);
        }
        assert(value * (cell.count + rest.count) == value * cell.count + value * rest.count)
            by (nonlinear_arith);
    }
}

/// The brightness that exposure goes by is that of the green pixels alone,
/// whatever the stride: frames that agree in those are equally bright.
pub proof fn law_brightness_is_green(
    a: Seq<u8>,
    b: Seq<u8>,
    width: nat,
    height: nat,
    stride: nat,
    y: nat,
)
    requires
        stride > 0,
        forall|i: nat, j: nat|
            color_at(i, j) is Green ==> #[trigger] pixel(a, width, i, j) == pixel(b, width, i, j),
    ensures
        frame_bright(a, width, height, stride, y) == frame_bright(b, width, height, stride, y),
    decreases height + stride - y,
{
    if y < height {
        lemma_green_row(a, b, width, stride, 1, y);
        law_brightness_is_green(a, b, width, height, stride, y + stride);
    }
}

proof fn lemma_green_row(a: Seq<u8>, b: Seq<u8>, width: nat, stride: nat, x: nat, y: nat)
    requires
        stride > 0,
        forall|i: nat, j: nat|
            color_at(i, j) is Green ==> #[trigger] pixel(a, width, i, j) == pixel(b, width, i, j),
    ensures
        row_bright(a, width, stride, x, y) == row_bright(b, width, stride, x, y),
    decreases width + stride - x,
{
    if x < width {
        assert(color_at(x, y) is Green ==> pixel(a, width, x, y) == pixel(b, width, x, y));
        lemma_green_row(a, b, width, stride, x + stride, y);
    }
}

/// Which frames something is done for: the first, and then one in every
/// `interval`.
#[derive(Clone, Copy, Debug, PartialEq, Eq, Structural)]
pub struct Schedule {
    /// Distance between two such frames.
    pub interval: u64,
    /// Frames seen so far.
    pub frame_count: u64,
}

/// Whether it is done for frame `index`. Without an interval it is done for the
/// first frame alone.
pub open spec fn due(interval: u64, index: u64) -> bool {
    if interval == 0 {
        index == 0
    } else {
        index % interval == 0
    }
}

impl Schedule {
    /// A schedule that has seen no frame.
    pub fn new(interval: u64) -> (schedule: Self)
        ensures
            schedule == (Schedule { interval, frame_count: 0 }),
    {
        Schedule { interval, frame_count: 0 }
    }

    /// See a frame. Returns whether it is one of those.
    pub fn tick(&mut self) -> (is_due: bool)
        requires
            old(self).frame_count < u64::MAX,
        ensures
            *final(self) == (Schedule {
                frame_count: (old(self).frame_count + 1) as u64,
                ..*old(self)
            }),
            is_due == due(old(self).interval, old(self).frame_count),
    {
        let index: u64 = self.frame_count;
        self.frame_count = index + 1;
        if self.interval == 0 {
            index == 0
        } else {
            index % self.interval == 0
        }
    }
}

/// Of every `interval` frames in a row exactly one is due: the first is, and
/// from a due frame on the next one comes `interval` frames later.
pub proof fn law_schedule_is_periodic(interval: u64, index: u64, ahead: u64)
    requires
        interval > 0,
        0 < ahead <= interval,
        index + ahead <= u64::MAX,
        due(interval, index),
    ensures
        due(interval, 0),
        due(interval, (index + ahead) as u64) <==> ahead == interval,
{
    let (i, n, a) = (index as int, interval as int, ahead as int);
    vstd::arithmetic::div_mod::lemma_fundamental_div_mod(i, n);
    let q = i / n;
    assert(n * (q + 1) == n * q + n) by (nonlinear_arith);
    if a == n {
        vstd::arithmetic::div_mod::lemma_fundamental_div_mod_converse(i + a, n, q + 1, 0);
    } else {
        vstd::arithmetic::div_mod::lemma_fundamental_div_mod_converse(i + a, n, q, a);
    }
}

/// White balance over time.
#[derive(Clone, Copy, Debug, PartialEq, Eq, Structural)]
pub struct AwbController {
    /// The frames it looks at.
    pub schedule: Schedule,
}

impl AwbController {
    /// A controller that looks at one frame in every `interval`.
    pub fn new(interval: u64) -> (controller: Self)
        ensures
            controller.schedule == (Schedule { interval, frame_count: 0 }),
    {
        AwbController { schedule: Schedule::new(interval) }
    }

    /// See a frame. Where it is one to look at, returns what its colors add up
    /// to, if they are all there.
    pub fn update(&mut self, raw: &[u8], width: u32, height: u32) -> (seen: Option<
        Option<ColorTally>,
    >)
        requires
            old(self).schedule.frame_count < u64::MAX,
            countable(raw@, width, height),
        ensures
            final(self).schedule == (Schedule {
                frame_count: (old(self).schedule.frame_count + 1) as u64,
                ..old(self).schedule
            }),
            seen is Some <==> due(old(self).schedule.interval, old(self).schedule.frame_count),
            seen matches Some(t) ==> colors_of(raw@, width, height, AWB_STRIDE, t),
    {
        if !self.schedule.tick() {
            return None;
        }
        Some(compute_awb(raw, width, height, AWB_STRIDE))
    }
}

/// Exposure over time.
#[derive(Clone, Debug)]
pub struct AeController {
    /// The frames it looks at.
    pub schedule: Schedule,
    /// The devices whose exposure it sets.
    pub devices: Vec<String>,
}

impl AeController {
    /// A controller that looks at one frame in every `interval`.
    pub fn new(devices: Vec<String>, interval: u64) -> (controller: Self)
        ensures
            controller.schedule == (Schedule { interval, frame_count: 0 }),
            controller.devices == devices,
    {
        AeController { schedule: Schedule::new(interval), devices }
    }

    /// See a frame. Where it is one to look at and has green pixels, returns what
    /// they add up to.
    pub fn update(&mut self, raw: &[u8], width: u32, height: u32) -> (seen: Option<Tally>)
        requires
            old(self).schedule.frame_count < u64::MAX,
            countable(raw@, width, height),
        ensures
            final(self).devices == old(self).devices,
            final(self).schedule == (Schedule {
                frame_count: (old(self).schedule.frame_count + 1) as u64,
                ..old(self).schedule
            }),
            ({
                let green = frame_bright(
                    raw@,
                    width as nat,
                    height as nat,
                    AE_STRIDE as nat,
                    0,
                );
                match seen {
                    Some(t) => t@ == green && t.count > 0 && due(
                        old(self).schedule.interval,
                        old(self).schedule.frame_count,
                    ),
                    None => green.count == 0 || !due(
                        old(self).schedule.interval,
                        old(self).schedule.frame_count,
                    ),
                }
            }),
    {
        if !self.schedule.tick() {
            return None;
        }
        let tally: Tally = compute_mean_brightness(raw, width, height, AE_STRIDE);
        if tally.count == 0 {
            return None;
        }
        Some(tally)
    }

    /// The arguments of the tool that sets exposure and gain, device by device.
    pub fn commands(&self, exposure: u32, gain: u32) -> (commands: Vec<Vec<String>>)
        ensures
            commands@.len() == self.devices@.len(),
            forall|i: int|
                0 <= i < commands@.len() ==> sets_exposure(
                    #[trigger] commands@[i]@,
                    self.devices@[i]@,
                    exposure,
                    gain,
                ),
    {
        let mut commands: Vec<Vec<String>> = Vec::with_capacity(self.devices.len());
        let mut i: usize = 0;
        while i < self.devices.len()
            invariant
                i <= self.devices@.len(),
                commands@.len() == i,
                forall|j: int|
                    0 <= j < i ==> sets_exposure(
                        #[trigger] commands@[j]@,
                        self.devices@[j]@,
                        exposure,
                        gain,
                    ),
            decreases self.devices@.len() - i,
        {
            commands.push(exposure_command(self.devices[i].as_str(), exposure, gain));
            i = i + 1;
        }
        commands
    }
}

/// The controls that set exposure and gain.
pub open spec fn exposure_controls(exposure: u32, gain: u32) -> Seq<char> {
    "override_enable=1,exposure="@ + decimal(exposure as nat) + ",gain="@ + decimal(gain as nat)
}

/// Whether these are the arguments that set exposure and gain of a device.
pub open spec fn sets_exposure(
    args: Seq<String>,
    device: Seq<char>,
    exposure: u32,
    gain: u32,
) -> bool {
    &&& args.len() == 4
    &&& args[0]@ == "-d"@
    &&& args[1]@ == device
    &&& args[2]@ == "--set-ctrl"@
    &&& args[3]@ == exposure_controls(exposure, gain)
}

/// The arguments of the tool that sets exposure and gain of a device.
pub fn exposure_command(device: &str, exposure: u32, gain: u32) -> (args: Vec<String>)
    ensures
        sets_exposure(args@, device@, exposure, gain),
{
    let mut controls: String = "override_enable=1,exposure=".to_owned();
    push_decimal(&mut controls, exposure as u64);
    controls.push_str(",gain=");
    push_decimal(&mut controls, gain as u64);
    let mut args: Vec<String> = Vec::with_capacity(4);
    args.push("-d".to_owned());
    args.push(device.to_owned());
    args.push("--set-ctrl".to_owned());
    args.push(controls);
    args
}

/// Tuning of the demosaic pass.
#[derive(Clone, Copy, Debug)]
pub struct IspParams {
    /// Width in pixels.
    pub width: u32,
    /// Height in pixels.
    pub height: u32,
    /// Value of black, in ten bits.
    pub black_level: Real32,
    /// Strength of the shading correction.
    pub lsc_strength: Real32,
    /// Gain of red.
    pub wb_r: Real32,
    /// Gain of green.
    pub wb_g: Real32,
    /// Gain of blue.
    pub wb_b: Real32,
    /// Value of white, in ten bits.
    pub white_level: Real32,
    /// First row of the color matrix.
    pub ccm_row0: [Real32; 4],
    /// Second row of the color matrix.
    pub ccm_row1: [Real32; 4],
    /// Third row of the color matrix.
    pub ccm_row2: [Real32; 4],
    /// Saturation.
    pub saturation: Real32,
    /// Scale of the linear values.
    pub brightness: Real32,
}

fn single(bits: u32) -> (value: Real32)
    ensures
        value.bits == bits,
{
    Real32 { bits }
}

impl IspParams {
    /// The words of the parameter block, padded to a multiple of four.
    pub open spec fn block(&self) -> Seq<u32> {
        seq![
            self.width,
            self.height,
            self.black_level.bits,
            self.lsc_strength.bits,
            self.wb_r.bits,
            self.wb_g.bits,
            self.wb_b.bits,
            self.white_level.bits,
            self.ccm_row0@[0].bits,
            self.ccm_row0@[1].bits,
            self.ccm_row0@[2].bits,
            self.ccm_row0@[3].bits,
            self.ccm_row1@[0].bits,
            self.ccm_row1@[1].bits,
            self.ccm_row1@[2].bits,
            self.ccm_row1@[3].bits,
            self.ccm_row2@[0].bits,
            self.ccm_row2@[1].bits,
            self.ccm_row2@[2].bits,
            self.ccm_row2@[3].bits,
            self.saturation.bits,
            self.brightness.bits,
            0,
            0,
        ]
    }

    /// The sensor's parameters: black 64, shading 0.35, gains 1.7, 1 and 2,
    /// white 400, an identity matrix, saturation 1.6, half the brightness.
    pub fn imx477_default(width: u32, height: u32) -> (params: Self)
        ensures
            params.block() == seq![
                width,
                height,
                0x42800000u32,
                0x3eb33333,
                0x3fd9999a,
                0x3f800000,
                0x40000000,
                0x43c80000,
                0x3f800000,
                0,
                0,
                0,
                0,
                0x3f800000,
                0,
                0,
                0,
                0,
                0x3f800000,
                0,
                0x3fcccccd,
                0x3f000000,
                0,
                0,
            ],
    {
        let zero: Real32 = single(0);
        let one: Real32 = single(0x3f800000);
        IspParams {
            width,
            height,
            black_level: single(0x42800000),
            lsc_strength: single(0x3eb33333),
            wb_r: single(0x3fd9999a),
            wb_g: one,
            wb_b: single(0x40000000),
            white_level: single(0x43c80000),
            ccm_row0: [one, zero, zero, zero],
            ccm_row1: [zero, one, zero, zero],
            ccm_row2: [zero, zero, one, zero],
            saturation: single(0x3fcccccd),
            brightness: single(0x3f000000),
        }
    }

    /// The sensor's parameters under warm indoor light: gains 1.18 and 3.3,
    /// white 500, a color matrix, saturation 1.35.
    pub fn imx477_indoor(width: u32, height: u32) -> (params: Self)
        ensures
            params.block() == seq![
                width,
                height,
                0x42800000u32,
                0x3eb33333,
                0x3f970a3d,
                0x3f800000,
                0x40533333,
                0x43fa0000,
                0x3fcccccd,
                0xbf000000,
                0xbdcccccd,
                0,
                0xbe19999a,
                0x3fb33333,
                0xbe800000,
                0,
                0xbdcccccd,
                0xbeb33333,
                0x3fb9999a,
                0,
                0x3faccccd,
                0x3f000000,
                0,
                0,
            ],
    {
        let zero: Real32 = single(0);
        let base: IspParams = IspParams::imx477_default(width, height);
        assert(base.block()[0] == width && base.block()[1] == height && base.block()[2]
            == 0x42800000 && base.block()[3] == 0x3eb33333 && base.block()[5] == 0x3f800000
            && base.block()[21] == 0x3f000000);
        IspParams {
            wb_r: single(0x3f970a3d),
            wb_b: single(0x40533333),
            white_level: single(0x43fa0000),
            ccm_row0: [single(0x3fcccccd), single(0xbf000000), single(0xbdcccccd), zero],
            ccm_row1: [single(0xbe19999a), single(0x3fb33333), single(0xbe800000), zero],
            ccm_row2: [single(0xbdcccccd), single(0xbeb33333), single(0x3fb9999a), zero],
            saturation: single(0x3faccccd),
            ..base
        }
    }

    /// The bytes of the parameter block.
    pub fn bytes(&self) -> (bytes: Vec<u8>)
        ensures
            native_bytes(self.block(), bytes@),
    {
        let words: Vec<u32> = vec![
            self.width,
            self.height,
            self.black_level.bits,
            self.lsc_strength.bits,
            self.wb_r.bits,
            self.wb_g.bits,
            self.wb_b.bits,
            self.white_level.bits,
            self.ccm_row0[0].bits,
            self.ccm_row0[1].bits,
            self.ccm_row0[2].bits,
            self.ccm_row0[3].bits,
            self.ccm_row1[0].bits,
            self.ccm_row1[1].bits,
            self.ccm_row1[2].bits,
            self.ccm_row1[3].bits,
            self.ccm_row2[0].bits,
            self.ccm_row2[1].bits,
            self.ccm_row2[2].bits,
            self.ccm_row2[3].bits,
            self.saturation.bits,
            self.brightness.bits,
            0,
            0,
        ];
        assert(words@ =~= self.block());
        words_to_bytes(words.as_slice())
    }
}

/// What a demosaic pass uploads and dispatches.
#[derive(Clone, Copy, Debug, PartialEq, Eq, Structural)]
pub struct DemosaicPlan {
    /// Bytes per uploaded row.
    pub bytes_per_row: u32,
    /// Uploaded rows.
    pub rows: u32,
    /// Workgroups across.
    pub dispatch_x: u32,
    /// Workgroups down.
    pub dispatch_y: u32,
}

/// What a demosaic pass binds: the raw frame, the picture and the parameters.
pub open spec fn demosaic_kinds() -> Seq<BindingKind> {
    seq![BindingKind::UintTexture, BindingKind::StorageTexture, BindingKind::Uniform]
}

/// The texture of a raw frame.
pub open spec fn raw_texture(width: u32, height: u32) -> TextureSpec {
    TextureSpec { width, height, format: TexelFormat::R16Uint, usage: uploaded() }
}

/// The texture of a finished picture.
pub open spec fn picture_texture(width: u32, height: u32) -> TextureSpec {
    TextureSpec { width, height, format: TexelFormat::Rgba8Unorm, usage: computed() }
}

/// The parameter block of a demosaic pass: 24 words.
pub open spec fn isp_buffer() -> BufferSpec {
    BufferSpec { size: 96, usage: parameters(true) }
}

/// The demosaic pass of frames of one size.
#[derive(Clone, Copy, Debug, PartialEq, Eq, Structural)]
pub struct BayerDemosaic {
    /// Width in pixels.
    pub width: u32,
    /// Height in pixels.
    pub height: u32,
}

impl BayerDemosaic {
    /// A pass for frames of the given size.
    pub fn new(width: u32, height: u32) -> (pass: Self)
        ensures
            pass == (BayerDemosaic { width, height }),
    {
        BayerDemosaic { width, height }
    }

    /// Layout of the pass's bindings.
    pub fn layout() -> (layout: Vec<Binding>)
        ensures
            layout@ == numbered(Stages::Compute, demosaic_kinds()),
    {
        let kinds: [BindingKind; 3] = [
            BindingKind::UintTexture,
            BindingKind::StorageTexture,
            BindingKind::Uniform,
        ];
        assert(kinds@ =~= demosaic_kinds());
        create_bind_group_layout(Stages::Compute, &kinds)
    }

    /// The texture that raw frames are uploaded to.
    pub fn input_texture(&self) -> (texture: TextureSpec)
        ensures
            texture == raw_texture(self.width, self.height),
    {
        TextureSpec {
            width: self.width,
            height: self.height,
            format: TexelFormat::R16Uint,
            usage: TextureUse::uploaded(),
        }
    }

    /// The texture that finished pictures are in.
    pub fn output_texture(&self) -> (texture: TextureSpec)
        ensures
            texture == picture_texture(self.width, self.height),
    {
        TextureSpec {
            width: self.width,
            height: self.height,
            format: TexelFormat::Rgba8Unorm,
            usage: TextureUse::computed(),
        }
    }

    /// The buffer of the parameters.
    pub fn params_buffer() -> (buffer: BufferSpec)
        ensures
            buffer == isp_buffer(),
    {
        BufferSpec { size: 96, usage: BufferUse::parameters(true) }
    }

    /// What to upload and dispatch for a raw frame of two bytes per pixel.
    pub fn encode_demosaic(&self, raw: &[u8]) -> (plan: DemosaicPlan)
        requires
            self.width * 2 <= u32::MAX,
            raw@.len() == self.width * self.height * 2,
        ensures
            plan == (DemosaicPlan {
                bytes_per_row: (self.width * 2) as u32,
                rows: self.height,
                dispatch_x: groups(self.width as nat, DEMOSAIC_GROUP as nat) as u32,
                dispatch_y: groups(self.height as nat, DEMOSAIC_GROUP as nat) as u32,
            }),
            plan.bytes_per_row * plan.rows == raw@.len(),
    {
        assert((self.width * 2) * self.height == self.width * self.height * 2) by (nonlinear_arith);
        DemosaicPlan {
            bytes_per_row: self.width * 2,
            rows: self.height,
            dispatch_x: div_ceil(self.width, DEMOSAIC_GROUP),
            dispatch_y: div_ceil(self.height, DEMOSAIC_GROUP),
        }
    }
}

/// What a demosaic pass makes can be bound where its layout has it, and the
/// parameter block holds all parameters.
pub proof fn law_demosaic_fits_its_bindings(width: u32, height: u32, params: IspParams)
    ensures
        texture_fits(demosaic_kinds()[0], raw_texture(width, height)),
        texture_fits(demosaic_kinds()[1], picture_texture(width, height)),
        buffer_fits(demosaic_kinds()[2], isp_buffer()),
        params.block().len() * 4 == isp_buffer().size,
{
}

/// A pixel is two bytes, the lower one first, and the pixels of a frame follow row by row. One
/// that the bytes do not hold is none.
pub proof fn law_pixels_are_two_bytes(raw: Seq<u8>, width: nat, x: nat, y: nat)
    ensures
        2 * (y * width + x) + 1 < raw.len() ==> pixel(raw, width, x, y) == Some(
            (raw[2 * (y * width + x) as int] + 256 * raw[2 * (y * width + x) as int + 1]) as nat,
        ),
        2 * (y * width + x) + 1 >= raw.len() ==> pixel(raw, width, x, y) is None,
{
}

/// Every cell of two by two pixels has red in its first corner, blue in the opposite one and
/// green in the other two.
pub proof fn law_cells_are_red_green_green_blue(i: nat, j: nat)
    ensures
        color_at(2 * i, 2 * j) == BayerColor::Red,
        color_at(2 * i + 1, 2 * j) == BayerColor::Green,
        color_at(2 * i, 2 * j + 1) == BayerColor::Green,
        color_at(2 * i + 1, 2 * j + 1) == BayerColor::Blue,
{
}

/// Brightness adds up, one every `stride` pixels from the second of a row on and one row in
/// every `stride`: a green pixel adds its upper ten bits and counts, any other neither.
pub proof fn law_brightness_adds_up_green_pixels(
    raw: Seq<u8>,
    width: nat,
    height: nat,
    stride: nat,
    x: nat,
    y: nat,
)
    requires
        stride > 0,
    ensures
        y >= height ==> frame_bright(raw, width, height, stride, y).count == 0,
        y >= height ==> frame_bright(raw, width, height, stride, y).sum == 0,
        y < height ==> {
            let (all, row, rest) = (
                frame_bright(raw, width, height, stride, y),
                row_bright(raw, width, stride, 1, y),
                frame_bright(raw, width, height, stride, y + stride),
            );
            all.sum == row.sum + rest.sum && all.count == row.count + rest.count
        },
        x >= width ==> row_bright(raw, width, stride, x, y).count == 0,
        x >= width ==> row_bright(raw, width, stride, x, y).sum == 0,
        x < width ==> {
            let (all, rest) = (
                row_bright(raw, width, stride, x, y),
                row_bright(raw, width, stride, x + stride, y),
            );
            if x % 2 != y % 2 && pixel(raw, width, x, y) is Some {
                all.sum == pixel(raw, width, x, y)->0 / 64 + rest.sum && all.count == 1 + rest.count
            } else {
                all == rest
            }
        },
{
}

/// White balance adds up, one every `stride` pixels and one row in every `stride`, from the
/// first of both on: at an odd stride the pixel there to its own color, at an even one each of
/// the four pixels of the cell there to its own.
pub proof fn law_white_balance_adds_up_its_samples(
    raw: Seq<u8>,
    width: nat,
    height: nat,
    stride: nat,
    color: BayerColor,
    x: nat,
    y: nat,
)
    requires
        stride > 0,
    ensures
        y >= height ==> frame_tint(raw, width, height, stride, color, y) == (Total {
            sum: 0,
            count: 0,
        }),
        y < height ==> {
            let (all, row, rest) = (
                frame_tint(raw, width, height, stride, color, y),
                row_tint(raw, width, height, stride, color, 0, y),
                frame_tint(raw, width, height, stride, color, y + stride),
            );
            all.sum == row.sum + rest.sum && all.count == row.count + rest.count
        },
        x >= width ==> row_tint(raw, width, height, stride, color, x, y) == (Total {
            sum: 0,
            count: 0,
        }),
        x < width ==> {
            let (all, here, rest) = (
                row_tint(raw, width, height, stride, color, x, y),
                sample(raw, width, height, stride, color, x, y),
                row_tint(raw, width, height, stride, color, x + stride, y),
            );
            all.sum == here.sum + rest.sum && all.count == here.count + rest.count
        },
        stride % 2 == 1 ==> sample(raw, width, height, stride, color, x, y) == tint(
            raw,
            width,
            height,
            color,
            x,
            y,
        ),
        stride % 2 == 0 ==> {
            let all = sample(raw, width, height, stride, color, x, y);
            let (a, b, c, d) = (
                tint(raw, width, height, color, x, y),
                tint(raw, width, height, color, x + 1, y),
                tint(raw, width, height, color, x, y + 1),
                tint(raw, width, height, color, x + 1, y + 1),
            );
            all.sum == a.sum + b.sum + c.sum + d.sum && all.count == a.count + b.count + c.count
                + d.count
        },
        ({
            let one = tint(raw, width, height, color, x, y);
            if x < width && y < height && color_at(x, y) == color && pixel(raw, width, x, y) is Some {
                one.count == 1 && one.sum == pixel(raw, width, x, y)->0
            } else {
                one.count == 0 && one.sum == 0
            }
        }),
{
}

/// The sums of white balance are those of their own colors, over the whole frame.
pub proof fn law_tallies_are_of_their_own_colors(
    raw: Seq<u8>,
    width: u32,
    height: u32,
    stride: u32,
    tally: Option<ColorTally>,
)
    requires
        colors_of(raw, width, height, stride, tally),
    ensures
        ({
            let (w, h, k) = (width as nat, height as nat, stride as nat);
            let (red, green, blue) = (
                frame_tint(raw, w, h, k, BayerColor::Red, 0),
                frame_tint(raw, w, h, k, BayerColor::Green, 0),
                frame_tint(raw, w, h, k, BayerColor::Blue, 0),
            );
            &&& tally is Some <==> red.count > 0 && green.count > 0 && blue.count > 0
            &&& tally matches Some(t) ==> t.r.sum == red.sum && t.r.count == red.count && t.g.sum
                == green.sum && t.g.count == green.count && t.b.sum == blue.sum && t.b.count
                == blue.count
        }),
{
}

/// Exposure samples at its stride, but never closer than every other pixel.
pub proof fn law_exposure_never_samples_closer_than_two(stride: u32)
    ensures
        stride >= 2 ==> spacing(stride) == stride,
        stride < 2 ==> spacing(stride) == 2,
{
}

/// The first frame is always one to look at, and the only one where there is no interval.
pub proof fn law_first_frame_is_due(interval: u64, index: u64)
    ensures
        due(interval, 0),
        interval == 0 && index > 0 ==> !due(interval, index),
        interval == 1 ==> due(interval, index),
{
    if interval > 0 {
        vstd::arithmetic::div_mod::lemma_small_mod(0, interval as nat);
    }
}

/// The parameter block has each parameter in its own place.
pub proof fn law_parameters_have_their_places(p: IspParams)
    ensures
        p.block().len() == 24,
        p.block()[0] == p.width,
        p.block()[1] == p.height,
        p.block()[2] == p.black_level.bits,
        p.block()[3] == p.lsc_strength.bits,
        p.block()[4] == p.wb_r.bits,
        p.block()[5] == p.wb_g.bits,
        p.block()[6] == p.wb_b.bits,
        p.block()[7] == p.white_level.bits,
        forall|i: int| 0 <= i < 4 ==> p.block()[8 + i] == (#[trigger] p.ccm_row0@[i]).bits,
        forall|i: int| 0 <= i < 4 ==> p.block()[12 + i] == (#[trigger] p.ccm_row1@[i]).bits,
        forall|i: int| 0 <= i < 4 ==> p.block()[16 + i] == (#[trigger] p.ccm_row2@[i]).bits,
        p.block()[20] == p.saturation.bits,
        p.block()[21] == p.brightness.bits,
        p.block()[22] == 0,
        p.block()[23] == 0,
{
}

/// An exposure is set on the device it is meant for, as the exposure and the gain that are
/// given.
pub proof fn law_exposure_is_set_on_its_device(
    args: Seq<String>,
    device: Seq<char>,
    exposure: u32,
    gain: u32,
)
    requires
        sets_exposure(args, device, exposure, gain),
    ensures
        args.len() == 4,
        args[0]@ == "-d"@,
        args[1]@ == device,
        args[2]@ == "--set-ctrl"@,
        args[3]@ == "override_enable=1,exposure="@ + decimal(exposure as nat) + ",gain"@ + "="@
            + decimal(gain as nat),
{
    reveal_strlit(",gain=");
    reveal_strlit(",gain");
    reveal_strlit("=");
    assert(",gain="@ =~= ",gain"@ + "="@);
    let a = "override_enable=1,exposure="@ + decimal(exposure as nat);
    assert(a + (",gain"@ + "="@) =~= a + ",gain"@ + "="@);
}

/// Textures of a demosaic pass have the picture's size and hold what the pass reads and writes.
pub proof fn law_demosaic_textures_have_the_pictures_size(width: u32, height: u32)
    ensures
        raw_texture(width, height).width == width,
        raw_texture(width, height).height == height,
        raw_texture(width, height).format == TexelFormat::R16Uint,
        picture_texture(width, height).width == width,
        picture_texture(width, height).height == height,
        picture_texture(width, height).format == TexelFormat::Rgba8Unorm,
        isp_buffer().size == 96,
{
}

/// A tally's sum is its sum and its count its count.
pub proof fn law_tallies_are_what_they_hold(tally: Tally)
    ensures
        tally@.sum == tally.sum,
        tally@.count == tally.count,
{
}

/// White balance looks at every eighth pixel and exposure at every sixteenth; a demosaic pass
/// works on groups of sixteen by sixteen.
pub proof fn law_sampling_distances()
    ensures
        AWB_STRIDE == 8,
        AE_STRIDE == 16,
        DEMOSAIC_GROUP == 16,
{
}

} // verus!
