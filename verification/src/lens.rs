//! Resampling of grey pictures through a lens.
//!
//! Where a picture is looked up is computed from the lens model in floating
//! point; which of its pixels that touches is decided here.

use vstd::prelude::*;

verus! {

/// Where a picture is looked up, rounded down. Nothing where the lens model
/// gives no number.
#[derive(Clone, Copy, Debug, PartialEq, Eq, Structural)]
pub struct Tap {
    /// Column.
    pub x: i64,
    /// Row.
    pub y: i64,
}

/// The four pixels around a point.
#[derive(Clone, Copy, Debug, PartialEq, Eq, Structural)]
pub struct Corners {
    /// Up and left.
    pub p00: u8,
    /// Up and right.
    pub p10: u8,
    /// Down and left.
    pub p01: u8,
    /// Down and right.
    pub p11: u8,
}

/// Whether all four pixels around a point lie in the picture.
pub open spec fn inside(tap: Tap, width: u32, height: u32) -> bool {
    0 <= tap.x < width - 1 && 0 <= tap.y < height - 1
}

/// The pixel in the given column and row.
pub open spec fn grey_at(data: Seq<u8>, width: u32, x: int, y: int) -> u8 {
    data[y * width + x]
}

/// The four pixels around a point, if all of them lie in the picture.
pub open spec fn corners(data: Seq<u8>, width: u32, height: u32, tap: Option<Tap>) -> Option<
    Corners,
> {
    match tap {
        Some(t) => if inside(t, width, height) {
            Some(
                Corners {
                    p00: grey_at(data, width, t.x as int, t.y as int),
                    p10: grey_at(data, width, t.x + 1, t.y as int),
                    p01: grey_at(data, width, t.x as int, t.y + 1),
                    p11: grey_at(data, width, t.x + 1, t.y + 1),
                },
            )
        } else {
            None
        },
        None => None,
    }
}

/// The four pixels around a point, if all of them lie in the picture.
pub fn bilinear_corners(data: &[u8], width: u32, height: u32, tap: Option<Tap>) -> (found: Option<
    Corners,
>)
    requires
        width > 0,
        height > 0,
        width * height <= u32::MAX,
        data@.len() >= width * height,
    ensures
        found == corners(data@, width, height, tap),
{
    let t: Tap = match tap {
        Some(t) => t,
        None => {
            return None;
        },
    };
    let last_x: i64 = width as i64 - 1;
    let last_y: i64 = height as i64 - 1;
    if t.x < 0 || t.y < 0 || t.x >= last_x || t.y >= last_y {
        return None;
    }
    let x: u32 = t.x as u32;
    let y: u32 = t.y as u32;
    assert(0 <= y * width && y * width + x + 1 < width * height && (y + 1) * width == y * width
        + width && (y + 1) * width + x + 1 < width * height) by (nonlinear_arith)
        requires
            0 <= x < width - 1,
            0 <= y < height - 1,
    ;
    let upper: usize = (y * width + x) as usize;
    let lower: usize = ((y + 1) * width + x) as usize;
    Some(
        Corners {
            p00: data[upper],
            p10: data[upper + 1],
            p01: data[lower],
            p11: data[lower + 1],
        },
    )
}

/// Look a grey picture up at one point per pixel, row by row. A pixel whose
/// point has no four neighbours in the picture is black.
pub fn undistort_gray(data: &[u8], width: u32, height: u32, taps: &Vec<Option<Tap>>) -> (found: Vec<
    Option<Corners>,
>)
    requires
        width * height <= u32::MAX,
        data@.len() >= width * height,
        taps@.len() == width * height,
    ensures
        found@.len() == taps@.len(),
        forall|i: int|
            0 <= i < taps@.len() ==> #[trigger] found@[i] == corners(
                data@,
                width,
                height,
                taps@[i],
            ),
{
    let mut found: Vec<Option<Corners>> = Vec::with_capacity(taps.len());
    let mut i: usize = 0;
    while i < taps.len()
        invariant
            i <= taps@.len(),
            width * height <= u32::MAX,
            data@.len() >= width * height,
            taps@.len() == width * height,
            found@.len() == i,
            forall|j: int|
                0 <= j < i ==> #[trigger] found@[j] == corners(data@, width, height, taps@[j]),
        decreases taps@.len() - i,
    {
        assert(width > 0 && height > 0) by (nonlinear_arith)
            requires
                width * height > 0,
                width >= 0,
                height >= 0,
        ;
        found.push(bilinear_corners(data, width, height, taps[i]));
        i = i + 1;
    }
    found
}

/// A point whose four neighbours all have the same value is looked up as that
/// value four times: resampling a picture of one grey gives that grey, wherever
/// the picture is touched.
pub proof fn law_flat_pictures_stay_flat(
    data: Seq<u8>,
    width: u32,
    height: u32,
    grey: u8,
    tap: Tap,
)
    requires
        data.len() >= width * height,
        forall|i: int| 0 <= i < data.len() ==> data[i] == grey,
        inside(tap, width, height),
    ensures
        corners(data, width, height, Some(tap)) == Some(
            Corners { p00: grey, p10: grey, p01: grey, p11: grey },
        ),
{
    let (x, y, w, h) = (tap.x as int, tap.y as int, width as int, height as int);
    assert(0 <= y * w + x && (y + 1) * w + x + 1 < w * h && y * w + x + 1 < w * h && 0 <= (y + 1)
        * w + x) by (nonlinear_arith)
        requires
            0 <= x < w - 1,
            0 <= y < h - 1,
    ;
}

/// A lookup takes the pixel it falls on, the one to the right, the one below and the one below
/// to the right, where the picture has all four; elsewhere it takes nothing.
pub proof fn law_lookups_take_the_four_neighbors(data: Seq<u8>, width: u32, height: u32, tap: Tap)
    ensures
        corners(data, width, height, None) is None,
        corners(data, width, height, Some(tap)) is Some <==> 0 <= tap.x && tap.x + 1 < width && 0
            <= tap.y && tap.y + 1 < height,
        corners(data, width, height, Some(tap)) matches Some(c) ==> {
            &&& c.p00 == data[tap.y * width + tap.x]
            &&& c.p10 == data[tap.y * width + tap.x + 1]
            &&& c.p01 == data[(tap.y + 1) * width + tap.x]
            &&& c.p11 == data[(tap.y + 1) * width + tap.x + 1]
        },
{
}

} // verus!
