//! Preview of one camera through its lens profile.

use crate::grid::{native_bytes, words_to_bytes};
use crate::number::Real32;
use crate::planes::YuvPlanes;
use crate::resources::{
    Binding, BindingKind, Stages, TexelFormat, TextureSpec, TextureUse, create_bind_group_layout,
    drawn, numbered, texture_fits, uploaded,
};
use vstd::prelude::*;

verus! {

/// Bytes per vertex: a position of three numbers, then a texture coordinate of
/// two.
pub const VERTEX_STRIDE: u64 = 20;

/// First byte of the texture coordinate.
pub const UV_OFFSET: u64 = 12;

/// Vertices of the two triangles.
pub const VERTEX_COUNT: u32 = 6;

/// One half.
pub const HALF: u32 = 0x3F00_0000;

/// Minus one half.
pub const MINUS_HALF: u32 = 0xBF00_0000;

/// One.
pub const ONE: u32 = 0x3F80_0000;

/// Sign bit of a single.
pub const SIGN: u32 = 0x8000_0000;

/// A corner of the picture.
#[derive(Clone, Copy, Debug, PartialEq, Eq, Structural)]
pub struct Vertex {
    /// Across.
    pub x: Real32,
    /// Up.
    pub y: Real32,
    /// Texture column.
    pub u: Real32,
    /// Texture row, downwards.
    pub v: Real32,
}

impl Vertex {
    /// The words of the vertex; it lies in the plane of depth zero.
    pub open spec fn words(self) -> Seq<u32> {
        seq![self.x.bits, self.y.bits, 0u32, self.u.bits, self.v.bits]
    }
}

/// A number with the other sign.
pub open spec fn negated(value: Real32) -> Real32 {
    Real32 {
        bits: if value.bits >= SIGN {
            (value.bits - SIGN) as u32
        } else {
            (value.bits + SIGN) as u32
        },
    }
}

fn negate(value: Real32) -> (minus: Real32)
    ensures
        minus == negated(value),
{
    if value.bits >= SIGN {
        Real32 { bits: value.bits - SIGN }
    } else {
        Real32 { bits: value.bits + SIGN }
    }
}

/// A corner of the picture: right or left, top or bottom. The texture starts at
/// its top left.
pub open spec fn corner(right: bool, top: bool, half_height: Real32) -> Vertex {
    Vertex {
        x: Real32 {
            bits: if right {
                HALF
            } else {
                MINUS_HALF
            },
        },
        y: if top {
            half_height
        } else {
            negated(half_height)
        },
        u: Real32 {
            bits: if right {
                ONE
            } else {
                0
            },
        },
        v: Real32 {
            bits: if top {
                0
            } else {
                ONE
            },
        },
    }
}

fn make_corner(right: bool, top: bool, half_height: Real32) -> (vertex: Vertex)
    ensures
        vertex == corner(right, top, half_height),
{
    let y: Real32 = if top {
        half_height
    } else {
        negate(half_height)
    };
    Vertex {
        x: Real32 {
            bits: if right {
                HALF
            } else {
                MINUS_HALF
            },
        },
        y,
        u: Real32 {
            bits: if right {
                ONE
            } else {
                0
            },
        },
        v: Real32 {
            bits: if top {
                0
            } else {
                ONE
            },
        },
    }
}

/// The two triangles of the picture, one unit wide.
pub open spec fn quad(half_height: Real32) -> Seq<Vertex> {
    seq![
        corner(false, false, half_height),
        corner(true, false, half_height),
        corner(true, true, half_height),
        corner(false, false, half_height),
        corner(true, true, half_height),
        corner(false, true, half_height),
    ]
}

/// The two triangles of the picture, one unit wide, half of it up and half of
/// it down.
pub fn quad_vertices(half_height: Real32) -> (vertices: Vec<Vertex>)
    ensures
        vertices@ == quad(half_height),
{
    let vertices: Vec<Vertex> = vec![
        make_corner(false, false, half_height),
        make_corner(true, false, half_height),
        make_corner(true, true, half_height),
        make_corner(false, false, half_height),
        make_corner(true, true, half_height),
        make_corner(false, true, half_height),
    ];
    assert(vertices@ =~= quad(half_height));
    vertices
}

/// The words of some vertices, one after the other.
pub open spec fn vertex_words(vertices: Seq<Vertex>) -> Seq<u32>
    decreases vertices.len(),
{
    if vertices.len() == 0 {
        seq![]
    } else {
        vertex_words(vertices.drop_last()) + vertices.last().words()
    }
}

/// The bytes of some vertices.
pub fn vertex_bytes(vertices: &Vec<Vertex>) -> (bytes: Vec<u8>)
    ensures
        native_bytes(vertex_words(vertices@), bytes@),
{
    let mut words: Vec<u32> = Vec::new();
    let mut i: usize = 0;
    while i < vertices.len()
        invariant
            i <= vertices@.len(),
            words@ == vertex_words(vertices@.take(i as int)),
        decreases vertices@.len() - i,
    {
        let v: Vertex = vertices[i];
        let ghost before = words@;
        words.push(v.x.bits);
        words.push(v.y.bits);
        words.push(0);
        words.push(v.u.bits);
        words.push(v.v.bits);
        assert(words@ =~= before + v.words());
        assert(vertices@.take(i + 1).drop_last() =~= vertices@.take(i as int));
        i = i + 1;
    }
    assert(vertices@.take(i as int) =~= vertices@);
    words_to_bytes(words.as_slice())
}

/// Size of a texture.
#[derive(Clone, Copy, Debug, PartialEq, Eq, Structural)]
pub struct TextureSize {
    /// Width in pixels.
    pub width: u32,
    /// Height in pixels.
    pub height: u32,
}

/// How a plane is uploaded: one byte per pixel, rows one after the other.
#[derive(Clone, Copy, Debug, PartialEq, Eq, Structural)]
pub struct PlaneUpload {
    /// Bytes per row.
    pub bytes_per_row: u32,
    /// Rows.
    pub rows: u32,
}

/// What a preview draws.
#[derive(Clone, Copy, Debug, PartialEq, Eq, Structural)]
pub struct PreviewPlan {
    /// Luma.
    pub y: PlaneUpload,
    /// Cb.
    pub u: PlaneUpload,
    /// Cr.
    pub v: PlaneUpload,
    /// How much of the lens profile is applied, from none to all of it.
    pub correction: Real32,
    /// Size of the drawn picture.
    pub output: TextureSize,
    /// Vertices to draw.
    pub vertices: u32,
}

/// What a preview's fragments read: three planes and their sampler.
pub open spec fn plane_kinds() -> Seq<BindingKind> {
    seq![
        BindingKind::Texture { filterable: true },
        BindingKind::Texture { filterable: true },
        BindingKind::Texture { filterable: true },
        BindingKind::Sampler,
    ]
}

/// Layout of the planes and their sampler.
pub fn texture_layout() -> (layout: Vec<Binding>)
    ensures
        layout@ == numbered(Stages::Fragment, plane_kinds()),
{
    let plane: BindingKind = BindingKind::Texture { filterable: true };
    let kinds: [BindingKind; 4] = [plane, plane, plane, BindingKind::Sampler];
    assert(kinds@ =~= plane_kinds());
    create_bind_group_layout(Stages::Fragment, &kinds)
}

/// Layout of the parameters.
pub fn uniform_layout() -> (layout: Vec<Binding>)
    ensures
        layout@ == numbered(Stages::VertexFragment, seq![BindingKind::Uniform]),
{
    let kinds: [BindingKind; 1] = [BindingKind::Uniform];
    assert(kinds@ =~= seq![BindingKind::Uniform]);
    create_bind_group_layout(Stages::VertexFragment, &kinds)
}

fn plane_texture(size: TextureSize) -> (texture: TextureSpec)
    ensures
        texture == plane_of(size.width, size.height),
{
    TextureSpec {
        width: size.width,
        height: size.height,
        format: TexelFormat::R8Unorm,
        usage: TextureUse::uploaded(),
    }
}

/// The texture of a plane: a byte per pixel, uploaded for every frame.
pub open spec fn plane_of(width: u32, height: u32) -> TextureSpec {
    TextureSpec { width, height, format: TexelFormat::R8Unorm, usage: uploaded() }
}

/// The preview of one camera.
#[derive(Clone, Copy, Debug, PartialEq, Eq, Structural)]
pub struct LensPreviewRenderer {
    /// Width of the camera's frames.
    pub width: u32,
    /// Height of the camera's frames.
    pub height: u32,
}

impl LensPreviewRenderer {
    /// A preview for frames of the given size.
    pub fn new(width: u32, height: u32) -> (preview: Self)
        ensures
            preview == (LensPreviewRenderer { width, height }),
    {
        LensPreviewRenderer { width, height }
    }

    /// Size of the luma texture: that of the frame.
    pub fn luma_size(&self) -> (size: TextureSize)
        ensures
            size == (TextureSize { width: self.width, height: self.height }),
    {
        TextureSize { width: self.width, height: self.height }
    }

    /// Size of either chroma texture: half that of the frame.
    pub fn chroma_size(&self) -> (size: TextureSize)
        ensures
            size == (TextureSize { width: self.width / 2, height: self.height / 2 }),
    {
        TextureSize { width: self.width / 2, height: self.height / 2 }
    }

    /// The textures of the planes: luma, and chroma at half the size.
    pub open spec fn planes(&self) -> Seq<TextureSpec> {
        seq![
            plane_of(self.width, self.height),
            plane_of(self.width / 2, self.height / 2),
            plane_of(self.width / 2, self.height / 2),
        ]
    }

    /// The textures of the planes.
    pub fn plane_textures(&self) -> (textures: Vec<TextureSpec>)
        ensures
            textures@ == self.planes(),
    {
        let chroma: TextureSpec = plane_texture(self.chroma_size());
        let textures: Vec<TextureSpec> = vec![plane_texture(self.luma_size()), chroma, chroma];
        assert(textures@ =~= self.planes());
        textures
    }

    /// The texture that a frame is drawn to.
    pub fn output_texture(&self) -> (texture: TextureSpec)
        ensures
            texture == (TextureSpec {
                width: self.width,
                height: self.height,
                format: TexelFormat::Chosen,
                usage: drawn(),
            }),
    {
        TextureSpec {
            width: self.width,
            height: self.height,
            format: TexelFormat::Chosen,
            usage: TextureUse::drawn(),
        }
    }

    /// What to upload and draw for a frame. `correction` is how much of the
    /// lens profile to apply; it is kept between none and all of it.
    pub fn render_yuv(&self, planes: &YuvPlanes<'_>, correction: Real32) -> (plan: PreviewPlan)
        requires
            planes.y@.len() >= self.width * self.height,
            planes.u@.len() >= (self.width / 2) * (self.height / 2),
            planes.v@.len() >= (self.width / 2) * (self.height / 2),
        ensures
            plan == (PreviewPlan {
                y: PlaneUpload { bytes_per_row: self.width, rows: self.height },
                u: PlaneUpload { bytes_per_row: self.width / 2, rows: self.height / 2 },
                v: PlaneUpload { bytes_per_row: self.width / 2, rows: self.height / 2 },
                correction: correction.clamped(Real32 { bits: 0 }, Real32 { bits: ONE }),
                output: TextureSize { width: self.width, height: self.height },
                vertices: VERTEX_COUNT,
            }),
    {
        let luma = self.luma_size();
        let chroma = self.chroma_size();
        PreviewPlan {
            y: PlaneUpload { bytes_per_row: luma.width, rows: luma.height },
            u: PlaneUpload { bytes_per_row: chroma.width, rows: chroma.height },
            v: PlaneUpload { bytes_per_row: chroma.width, rows: chroma.height },
            correction: correction.clamp(Real32 { bits: 0 }, Real32 { bits: ONE }),
            output: luma,
            vertices: VERTEX_COUNT,
        }
    }
}

/// Every plane's texture can be bound where the fragments read it.
pub proof fn law_planes_fit_their_bindings(preview: LensPreviewRenderer, i: int)
    requires
        0 <= i < preview.planes().len(),
    ensures
        texture_fits(
            numbered(Stages::Fragment, plane_kinds())[i].kind,
            preview.planes()[i],
        ),
{
}

/// The two triangles share the diagonal from the lower left to the upper right,
/// and texture rows run against the picture's: its top is the texture's first
/// row.
pub proof fn law_quad_covers_the_picture(half_height: Real32)
    ensures
        quad(half_height).len() == VERTEX_COUNT,
        quad(half_height)[0] == quad(half_height)[3],
        quad(half_height)[2] == quad(half_height)[4],
        forall|i: int|
            0 <= i < 6 ==> ((#[trigger] quad(half_height)[i]).v.bits == 0 <==> quad(
                half_height,
            )[i] == corner(true, true, half_height) || quad(half_height)[i] == corner(
                false,
                true,
                half_height,
            )),
{
}

/// A corner of the quad is half to its side, half the height up or down, and looks up the corner
/// of the texture that it shows: left at zero and right at one, top at zero and bottom at one.
pub proof fn law_corners_show_their_corner(right: bool, top: bool, half_height: Real32)
    ensures
        corner(right, top, half_height).x.bits == (if right {
            0x3f00_0000u32
        } else {
            0xbf00_0000u32
        }),
        top ==> corner(right, top, half_height).y == half_height,
        !top ==> corner(right, top, half_height).y == negated(half_height),
        corner(right, top, half_height).u.bits == (if right {
            0x3f80_0000u32
        } else {
            0u32
        }),
        corner(right, top, half_height).v.bits == (if top {
            0u32
        } else {
            0x3f80_0000u32
        }),
{
}

/// Changing the sign changes nothing else, and changing it twice nothing at all.
pub proof fn law_negation_changes_the_sign(value: Real32)
    ensures
        negated(value).magnitude() == value.magnitude(),
        negated(value).negative() != value.negative(),
        negated(negated(value)) == value,
{
}

/// The quad is drawn as two triangles that together have all four corners.
pub proof fn law_quad_has_all_corners(half_height: Real32)
    ensures
        quad(half_height).len() == 6,
        quad(half_height)[0] == corner(false, false, half_height),
        quad(half_height)[1] == corner(true, false, half_height),
        quad(half_height)[2] == corner(true, true, half_height),
        quad(half_height)[3] == corner(false, false, half_height),
        quad(half_height)[4] == corner(true, true, half_height),
        quad(half_height)[5] == corner(false, true, half_height),
{
}

/// Vertices are laid out one after the other: place across, up and ahead, then texture across and
/// down.
pub proof fn law_vertices_are_laid_out_in_order(before: Seq<Vertex>, vertex: Vertex)
    ensures
        vertex.words().len() == 5,
        vertex.words()[0] == vertex.x.bits,
        vertex.words()[1] == vertex.y.bits,
        vertex.words()[2] == 0,
        vertex.words()[3] == vertex.u.bits,
        vertex.words()[4] == vertex.v.bits,
        VERTEX_STRIDE == 4 * vertex.words().len(),
        UV_OFFSET == 4 * 3,
        vertex_words(before.push(vertex)) == vertex_words(before) + vertex.words(),
        vertex_words(Seq::empty()).len() == 0,
{
    assert(before.push(vertex).drop_last() =~= before);
}

/// The planes of a frame are its luma at full size and both chromas at half of it, a byte each.
pub proof fn law_preview_planes_have_the_frames_size(preview: LensPreviewRenderer)
    ensures
        preview.planes().len() == 3,
        preview.planes()[0].width == preview.width,
        preview.planes()[0].height == preview.height,
        preview.planes()[1].width == preview.width / 2,
        preview.planes()[1].height == preview.height / 2,
        preview.planes()[2] == preview.planes()[1],
        forall|i: int| 0 <= i < 3 ==> (#[trigger] preview.planes()[i]).format
            == TexelFormat::R8Unorm,
        plane_kinds().len() == 4,
        forall|i: int| 0 <= i < 3 ==> #[trigger] plane_kinds()[i] == (BindingKind::Texture {
            filterable: true,
        }),
        plane_kinds()[3] is Sampler,
{
}

} // verus!
