//! What a device pass needs: its bindings, textures and buffers.
//!
//! The passes say here what they need as plain values; whoever owns the device
//! makes it.

use vstd::prelude::*;

verus! {

/// Which shader stages see a binding.
#[derive(Clone, Copy, Debug, PartialEq, Eq, Structural)]
pub enum Stages {
    /// Compute shaders.
    Compute,
    /// Fragment shaders.
    Fragment,
    /// Vertex and fragment shaders.
    VertexFragment,
}

/// What is bound.
#[derive(Clone, Copy, Debug, PartialEq, Eq, Structural)]
pub enum BindingKind {
    /// A texture of fractions, read with or without a filter.
    Texture {
        /// Whether a filtering sampler may read it.
        filterable: bool,
    },
    /// A texture of whole numbers.
    UintTexture,
    /// A texture that the shader writes.
    StorageTexture,
    /// A filtering sampler.
    Sampler,
    /// A buffer of data.
    Storage {
        /// Whether the shader only reads it.
        read_only: bool,
    },
    /// A buffer of parameters.
    Uniform,
}

/// One entry of a bind group's layout.
#[derive(Clone, Copy, Debug, PartialEq, Eq, Structural)]
pub struct Binding {
    /// Number that the shader knows it by.
    pub binding: u32,
    /// Who sees it.
    pub stages: Stages,
    /// What it is.
    pub kind: BindingKind,
}

/// A layout with the given kinds, numbered from zero.
pub open spec fn numbered(stages: Stages, kinds: Seq<BindingKind>) -> Seq<Binding> {
    Seq::new(
        kinds.len(),
        |i: int| Binding { binding: i as u32, stages, kind: kinds[i] },
    )
}

/// A layout with the given kinds, numbered from zero.
pub fn create_bind_group_layout(stages: Stages, kinds: &[BindingKind]) -> (layout: Vec<Binding>)
    requires
        kinds@.len() <= u32::MAX,
    ensures
        layout@ == numbered(stages, kinds@),
{
    let mut layout: Vec<Binding> = Vec::with_capacity(kinds.len());
    let mut i: usize = 0;
    while i < kinds.len()
        invariant
            i <= kinds@.len() <= u32::MAX,
            layout@ == numbered(stages, kinds@).take(i as int),
        decreases kinds@.len() - i,
    {
        layout.push(Binding { binding: i as u32, stages, kind: kinds[i] });
        assert(layout@ =~= numbered(stages, kinds@).take(i + 1));
        i = i + 1;
    }
    assert(numbered(stages, kinds@).take(i as int) =~= numbered(stages, kinds@));
    layout
}

/// No two bindings of a layout have the same number.
pub proof fn law_bindings_are_told_apart(stages: Stages, kinds: Seq<BindingKind>, i: int, j: int)
    requires
        kinds.len() <= u32::MAX,
        0 <= i < kinds.len(),
        0 <= j < kinds.len(),
        i != j,
    ensures
        numbered(stages, kinds)[i].binding != numbered(stages, kinds)[j].binding,
{
}

/// What a texture holds.
#[derive(Clone, Copy, Debug, PartialEq, Eq, Structural)]
pub enum TexelFormat {
    /// One byte, from zero to one.
    R8Unorm,
    /// One 16-bit number.
    R16Uint,
    /// Four bytes, from zero to one each.
    Rgba8Unorm,
    /// What the caller displays.
    Chosen,
}

/// What a texture is used for.
#[derive(Clone, Copy, Debug, PartialEq, Eq, Structural)]
pub struct TextureUse {
    /// Shaders read it.
    pub sampled: bool,
    /// Shaders write it.
    pub storage: bool,
    /// It is drawn to.
    pub attachment: bool,
    /// It is copied to.
    pub copy_to: bool,
    /// It is copied from.
    pub copy_from: bool,
}

/// A texture.
#[derive(Clone, Copy, Debug, PartialEq, Eq, Structural)]
pub struct TextureSpec {
    /// Width in pixels.
    pub width: u32,
    /// Height in pixels.
    pub height: u32,
    /// What it holds.
    pub format: TexelFormat,
    /// What it is used for.
    pub usage: TextureUse,
}

/// What a buffer is used for.
#[derive(Clone, Copy, Debug, PartialEq, Eq, Structural)]
pub struct BufferUse {
    /// Shaders read or write it as data.
    pub storage: bool,
    /// Shaders read it as parameters.
    pub uniform: bool,
    /// It is copied to.
    pub copy_to: bool,
    /// It is copied from.
    pub copy_from: bool,
    /// The host reads it.
    pub mapped: bool,
}

/// A buffer.
#[derive(Clone, Copy, Debug, PartialEq, Eq, Structural)]
pub struct BufferSpec {
    /// Size in bytes.
    pub size: u64,
    /// What it is used for.
    pub usage: BufferUse,
}

/// The buffers of a pass that computes on the device and is read by the host.
#[derive(Clone, Copy, Debug, PartialEq, Eq, Structural)]
pub struct PassBuffers {
    /// What the shader fills.
    pub output: BufferSpec,
    /// What the host reads.
    pub staging: BufferSpec,
    /// The parameters.
    pub params: BufferSpec,
}

/// A texture that is uploaded to and read by shaders.
pub open spec fn uploaded() -> TextureUse {
    TextureUse { sampled: true, storage: false, attachment: false, copy_to: true, copy_from: false }
}

/// A texture that shaders write and that is copied from.
pub open spec fn computed() -> TextureUse {
    TextureUse { sampled: false, storage: true, attachment: false, copy_to: false, copy_from: true }
}

/// A texture that is drawn and then shown.
pub open spec fn drawn() -> TextureUse {
    TextureUse { sampled: true, storage: false, attachment: true, copy_to: false, copy_from: false }
}

/// A buffer that shaders fill and that is copied from.
pub open spec fn filled() -> BufferUse {
    BufferUse { storage: true, uniform: false, copy_to: false, copy_from: true, mapped: false }
}

/// A buffer that shaders read and fill, and that is copied both ways.
pub open spec fn working() -> BufferUse {
    BufferUse { storage: true, uniform: false, copy_to: true, copy_from: true, mapped: false }
}

/// A buffer that is copied to and read by the host.
pub open spec fn staging() -> BufferUse {
    BufferUse { storage: false, uniform: false, copy_to: true, copy_from: false, mapped: true }
}

/// A parameter block, which can be written again if it is `updated`.
pub open spec fn parameters(updated: bool) -> BufferUse {
    BufferUse { storage: false, uniform: true, copy_to: updated, copy_from: false, mapped: false }
}

impl TextureUse {
    /// Uploaded to and read by shaders.
    pub fn uploaded() -> (usage: TextureUse)
        ensures
            usage == uploaded(),
    {
        TextureUse {
            sampled: true,
            storage: false,
            attachment: false,
            copy_to: true,
            copy_from: false,
        }
    }

    /// Written by shaders and copied from.
    pub fn computed() -> (usage: TextureUse)
        ensures
            usage == computed(),
    {
        TextureUse {
            sampled: false,
            storage: true,
            attachment: false,
            copy_to: false,
            copy_from: true,
        }
    }

    /// Drawn and then shown.
    pub fn drawn() -> (usage: TextureUse)
        ensures
            usage == drawn(),
    {
        TextureUse {
            sampled: true,
            storage: false,
            attachment: true,
            copy_to: false,
            copy_from: false,
        }
    }
}

impl BufferUse {
    /// Filled by shaders and copied from.
    pub fn filled() -> (usage: BufferUse)
        ensures
            usage == filled(),
    {
        BufferUse { storage: true, uniform: false, copy_to: false, copy_from: true, mapped: false }
    }

    /// Read and filled by shaders, and copied both ways.
    pub fn working() -> (usage: BufferUse)
        ensures
            usage == working(),
    {
        BufferUse { storage: true, uniform: false, copy_to: true, copy_from: true, mapped: false }
    }

    /// Copied to and read by the host.
    pub fn staging() -> (usage: BufferUse)
        ensures
            usage == staging(),
    {
        BufferUse { storage: false, uniform: false, copy_to: true, copy_from: false, mapped: true }
    }

    /// Parameters, which can be written again if they are `updated`.
    pub fn parameters(updated: bool) -> (usage: BufferUse)
        ensures
            usage == parameters(updated),
    {
        BufferUse {
            storage: false,
            uniform: true,
            copy_to: updated,
            copy_from: false,
            mapped: false,
        }
    }
}

/// Whether a texture can be bound as the given kind.
pub open spec fn texture_fits(kind: BindingKind, texture: TextureSpec) -> bool {
    match kind {
        BindingKind::Texture { .. } => texture.usage.sampled && texture.format
            != TexelFormat::R16Uint,
        BindingKind::UintTexture => texture.usage.sampled && texture.format == TexelFormat::R16Uint,
        BindingKind::StorageTexture => texture.usage.storage && texture.format
            == TexelFormat::Rgba8Unorm,
        _ => false,
    }
}

/// Whether a buffer can be bound as the given kind.
pub open spec fn buffer_fits(kind: BindingKind, buffer: BufferSpec) -> bool {
    match kind {
        BindingKind::Storage { .. } => buffer.usage.storage,
        BindingKind::Uniform => buffer.usage.uniform,
        _ => false,
    }
}

/// Whether the whole of one buffer can be copied to another.
pub open spec fn can_copy(from: BufferSpec, to: BufferSpec) -> bool {
    from.usage.copy_from && to.usage.copy_to && from.size == to.size
}

/// Bindings are numbered from zero in the order of their kinds, all in the same stages.
pub proof fn law_bindings_are_numbered_in_order(stages: Stages, kinds: Seq<BindingKind>, i: int)
    requires
        0 <= i < kinds.len() <= u32::MAX,
    ensures
        numbered(stages, kinds).len() == kinds.len(),
        numbered(stages, kinds)[i].binding == i,
        numbered(stages, kinds)[i].kind == kinds[i],
        numbered(stages, kinds)[i].stages == stages,
{
}

/// Each resource is used for what it is there for and for nothing else.
pub proof fn law_resources_are_used_for_what_they_are(updated: bool)
    ensures
        uploaded().sampled && uploaded().copy_to,
        !uploaded().storage && !uploaded().attachment && !uploaded().copy_from,
        computed().storage && computed().copy_from,
        !computed().sampled && !computed().attachment && !computed().copy_to,
        drawn().sampled && drawn().attachment,
        !drawn().storage && !drawn().copy_to && !drawn().copy_from,
        filled().storage && filled().copy_from,
        !filled().uniform && !filled().copy_to && !filled().mapped,
        working().storage && working().copy_to && working().copy_from,
        !working().uniform && !working().mapped,
        staging().copy_to && staging().mapped,
        !staging().storage && !staging().uniform && !staging().copy_from,
        parameters(updated).uniform && parameters(updated).copy_to == updated,
        !parameters(updated).storage && !parameters(updated).copy_from && !parameters(
            updated,
        ).mapped,
{
}

} // verus!
