//! Choosing a graphics device, and the color grading pass.

use crate::grid::{div_ceil, groups, native_bytes, words_to_bytes};
use crate::number::Real32;
use crate::resources::{
    Binding, BindingKind, BufferSpec, BufferUse, Stages, create_bind_group_layout, numbered,
    parameters,
};
use crate::text::{joined, same};
use vstd::prelude::*;

verus! {

/// Pixel format of the stitched picture.
#[derive(Clone, Copy, Debug, PartialEq, Eq, Structural)]
pub enum OutputFormat {
    /// Red first, linear; for encoding.
    Rgba8Unorm,
    /// Red first, gamma-encoded; for display.
    Rgba8UnormSrgb,
    /// Blue first, gamma-encoded; for some displays.
    Bgra8UnormSrgb,
}

/// Why there is no device.
#[derive(Clone, Debug)]
pub enum GpuError {
    /// There is no adapter.
    NoAdapter,
    /// The adapter could not be had.
    AdapterRequest(String),
    /// The device could not be had.
    DeviceRequest(String),
}

impl GpuError {
    /// The message of the error.
    pub open spec fn text(&self) -> Seq<char> {
        match *self {
            GpuError::NoAdapter => "no compatible GPU adapter found"@,
            GpuError::AdapterRequest(e) => "failed to request GPU adapter: "@ + e@,
            GpuError::DeviceRequest(e) => "failed to request GPU device: "@ + e@,
        }
    }

    /// The message of the error.
    pub fn message(&self) -> (text: String)
        ensures
            text@ == self.text(),
    {
        match self {
            GpuError::NoAdapter => "no compatible GPU adapter found".to_owned(),
            GpuError::AdapterRequest(e) => joined("failed to request GPU adapter: ", e.as_str()),
            GpuError::DeviceRequest(e) => joined("failed to request GPU device: ", e.as_str()),
        }
    }
}

/// A graphics API.
#[derive(Clone, Copy, Debug, PartialEq, Eq, Structural)]
pub enum Backend {
    /// Vulkan.
    Vulkan,
    /// Direct3D 12.
    Dx12,
    /// Metal.
    Metal,
    /// OpenGL.
    Gl,
    /// Anything else.
    Other,
}

/// An operating system.
#[derive(Clone, Copy, Debug, PartialEq, Eq, Structural)]
pub enum Host {
    /// Windows.
    Windows,
    /// macOS or iOS.
    Apple,
    /// Linux.
    Linux,
    /// Anything else.
    Other,
}

/// What `str::to_lowercase` makes of a text.
pub uninterp spec fn lower_case(text: Seq<char>) -> Seq<char>;

/// The text in lower case, by `str::to_lowercase`, which follows the Unicode
/// property of that name.
#[verifier::external_body]
fn to_lower_case(text: &str) -> (lowered: String)
    ensures
        lowered@ == lower_case(text@),
{
    text.to_lowercase()
}

/// The backend that a lower-case name stands for.
pub open spec fn named_backend(name: Seq<char>) -> Option<Backend> {
    if name == "vulkan"@ || name == "vk"@ {
        Some(Backend::Vulkan)
    } else if name == "dx12"@ || name == "d3d12"@ {
        Some(Backend::Dx12)
    } else if name == "metal"@ || name == "mtl"@ {
        Some(Backend::Metal)
    } else if name == "gl"@ || name == "opengl"@ {
        Some(Backend::Gl)
    } else {
        None
    }
}

/// The backend of a system that asks for none. One graphics chip draws black
/// under Vulkan.
pub open spec fn default_backend(host: Host, is_v3d: bool) -> Backend {
    match host {
        Host::Windows => Backend::Dx12,
        Host::Apple => Backend::Metal,
        _ => if is_v3d {
            Backend::Gl
        } else {
            Backend::Vulkan
        },
    }
}

/// The backend that a lower-case name stands for.
pub fn backend_named(name: &str) -> (backend: Option<Backend>)
    ensures
        backend == named_backend(name@),
{
    if same(name, "vulkan") || same(name, "vk") {
        Some(Backend::Vulkan)
    } else if same(name, "dx12") || same(name, "d3d12") {
        Some(Backend::Dx12)
    } else if same(name, "metal") || same(name, "mtl") {
        Some(Backend::Metal)
    } else if same(name, "gl") || same(name, "opengl") {
        Some(Backend::Gl)
    } else {
        None
    }
}

/// The backend to use, given the lower-case name asked for, if any. A name
/// that stands for nothing is passed over.
pub fn backend_for(name: Option<&str>, host: Host, is_v3d: bool) -> (backend: Backend)
    ensures
        backend == match name {
            Some(n) => match named_backend(n@) {
                Some(b) => b,
                None => default_backend(host, is_v3d),
            },
            None => default_backend(host, is_v3d),
        },
{
    if let Some(n) = name {
        if let Some(b) = backend_named(n) {
            return b;
        }
    }
    match host {
        Host::Windows => Backend::Dx12,
        Host::Apple => Backend::Metal,
        _ => if is_v3d {
            Backend::Gl
        } else {
            Backend::Vulkan
        },
    }
}

/// The backend to use, given the name asked for in any case, if any.
pub fn select_backends(asked: Option<&str>, host: Host, is_v3d: bool) -> (backend: Backend)
    ensures
        backend == match asked {
            Some(n) => match named_backend(lower_case(n@)) {
                Some(b) => b,
                None => default_backend(host, is_v3d),
            },
            None => default_backend(host, is_v3d),
        },
{
    match asked {
        Some(n) => {
            let lowered: String = to_lower_case(n);
            backend_for(Some(lowered.as_str()), host, is_v3d)
        },
        None => backend_for(None, host, is_v3d),
    }
}

impl Backend {
    /// Name of the backend.
    pub fn backend_name(self) -> (name: &'static str)
        ensures
            name@ == match self {
                Backend::Vulkan => "Vulkan"@,
                Backend::Dx12 => "Dx12"@,
                Backend::Metal => "Metal"@,
                Backend::Gl => "OpenGL"@,
                Backend::Other => "Unknown"@,
            },
    {
        match self {
            Backend::Vulkan => "Vulkan",
            Backend::Dx12 => "Dx12",
            Backend::Metal => "Metal",
            Backend::Gl => "OpenGL",
            Backend::Other => "Unknown",
        }
    }

    /// Whether this is Vulkan.
    pub fn is_vulkan(self) -> (is: bool)
        ensures
            is == (self == Backend::Vulkan),
    {
        self == Backend::Vulkan
    }

    /// Whether this is Metal.
    pub fn is_metal(self) -> (is: bool)
        ensures
            is == (self == Backend::Metal),
    {
        self == Backend::Metal
    }

    /// Whether decoded frames can be used without a copy.
    pub fn supports_zero_copy(self, host: Host, cuda_available: bool) -> (supports: bool)
        ensures
            supports == match host {
                Host::Linux => self == Backend::Vulkan && cuda_available,
                Host::Apple => self == Backend::Metal,
                _ => false,
            },
    {
        match host {
            Host::Linux => self.is_vulkan() && cuda_available,
            Host::Apple => self.is_metal(),
            _ => false,
        }
    }
}

/// Threads per grading workgroup, across and down.
pub const GRADE_GROUP: u32 = 16;

/// The single just within a millionth below one.
pub const IDENTITY_LOW: u32 = 0x3F7F_FFF0;

/// The single just within a millionth above one.
pub const IDENTITY_HIGH: u32 = 0x3F80_0008;

/// The single that is one.
pub const ONE: u32 = 0x3F80_0000;

/// Color grading parameters.
#[derive(Clone, Copy, Debug, PartialEq, Eq, Structural)]
pub struct ColorGradeParams {
    /// Scale of all channels.
    pub brightness: Real32,
    /// Distance from grey.
    pub saturation: Real32,
    /// Exponent.
    pub gamma: Real32,
}

/// Whether a number is within a millionth of one: it is one of the singles
/// from [`IDENTITY_LOW`] to [`IDENTITY_HIGH`].
pub open spec fn near_one(value: Real32) -> bool {
    IDENTITY_LOW <= value.bits <= IDENTITY_HIGH
}

impl Default for ColorGradeParams {
    /// Parameters that change nothing.
    fn default() -> (params: Self)
        ensures
            params.brightness.bits == ONE,
            params.saturation.bits == ONE,
            params.gamma.bits == ONE,
    {
        ColorGradeParams {
            brightness: Real32 { bits: ONE },
            saturation: Real32 { bits: ONE },
            gamma: Real32 { bits: ONE },
        }
    }
}

impl ColorGradeParams {
    /// Whether the parameters change nothing.
    pub open spec fn identity(self) -> bool {
        near_one(self.brightness) && near_one(self.saturation) && near_one(self.gamma)
    }

    /// Whether the parameters change nothing, so that the pass can be skipped.
    pub fn is_identity(&self) -> (identity: bool)
        ensures
            identity == self.identity(),
    {
        let near = |value: Real32| -> (near: bool)
            ensures
                near == near_one(value),
            { IDENTITY_LOW <= value.bits && value.bits <= IDENTITY_HIGH };
        near(self.brightness) && near(self.saturation) && near(self.gamma)
    }

    /// The bytes of the parameter block, padded to four words.
    pub fn bytes(&self) -> (bytes: Vec<u8>)
        ensures
            native_bytes(
                seq![self.brightness.bits, self.saturation.bits, self.gamma.bits, 0u32],
                bytes@,
            ),
    {
        let words: Vec<u32> = vec![
            self.brightness.bits,
            self.saturation.bits,
            self.gamma.bits,
            0,
        ];
        assert(words@ =~= seq![self.brightness.bits, self.saturation.bits, self.gamma.bits, 0u32]);
        words_to_bytes(words.as_slice())
    }
}

/// What a grading pass binds: the picture, the graded picture and the
/// parameters.
pub open spec fn grade_kinds() -> Seq<BindingKind> {
    seq![
        BindingKind::Texture { filterable: false },
        BindingKind::StorageTexture,
        BindingKind::Uniform,
    ]
}

/// A color grading pass.
#[derive(Clone, Copy, Debug, PartialEq, Eq, Structural)]
pub struct ColorGradePass {
    /// Whether its parameters change nothing.
    pub identity: bool,
}

impl ColorGradePass {
    /// A pass with the given parameters.
    pub fn new(params: &ColorGradeParams) -> (pass: Self)
        ensures
            pass.identity == params.identity(),
    {
        ColorGradePass { identity: params.is_identity() }
    }

    /// Layout of the pass's bindings.
    pub fn layout() -> (layout: Vec<Binding>)
        ensures
            layout@ == numbered(Stages::Compute, grade_kinds()),
    {
        let kinds: [BindingKind; 3] = [
            BindingKind::Texture { filterable: false },
            BindingKind::StorageTexture,
            BindingKind::Uniform,
        ];
        assert(kinds@ =~= grade_kinds());
        create_bind_group_layout(Stages::Compute, &kinds)
    }

    /// The buffer of the parameters: four words.
    pub fn params_buffer() -> (buffer: BufferSpec)
        ensures
            buffer == (BufferSpec { size: 16, usage: parameters(true) }),
    {
        BufferSpec { size: 16, usage: BufferUse::parameters(true) }
    }

    /// Use other parameters.
    pub fn update_params(&mut self, params: &ColorGradeParams)
        ensures
            final(self).identity == params.identity(),
    {
        self.identity = params.is_identity();
    }

    /// Whether the pass changes nothing.
    pub fn is_identity(&self) -> (identity: bool)
        ensures
            identity == self.identity,
    {
        self.identity
    }

    /// Workgroups across and down for a picture, unless the pass changes
    /// nothing: then the picture is used as it is.
    pub fn encode(&self, width: u32, height: u32) -> (dispatch: Option<(u32, u32)>)
        ensures
            dispatch == if self.identity {
                None::<(u32, u32)>
            } else {
                Some(
                    (
                        groups(width as nat, GRADE_GROUP as nat) as u32,
                        groups(height as nat, GRADE_GROUP as nat) as u32,
                    ),
                )
            },
    {
        if self.identity {
            return None;
        }
        Some((div_ceil(width, GRADE_GROUP), div_ceil(height, GRADE_GROUP)))
    }
}

/// Fresh parameters change nothing, so their pass is skipped.
pub proof fn law_default_grade_is_skipped(params: ColorGradeParams)
    requires
        params.brightness.bits == ONE,
        params.saturation.bits == ONE,
        params.gamma.bits == ONE,
    ensures
        params.identity(),
{
}

/// A backend is known by two names each, and by no other.
pub proof fn law_backends_are_known_by_their_names(name: Seq<char>)
    ensures
        name == "vulkan"@ || name == "vk"@ <==> named_backend(name) == Some(Backend::Vulkan),
        name == "dx12"@ || name == "d3d12"@ <==> named_backend(name) == Some(Backend::Dx12),
        name == "metal"@ || name == "mtl"@ <==> named_backend(name) == Some(Backend::Metal),
        name == "gl"@ || name == "opengl"@ <==> named_backend(name) == Some(Backend::Gl),
        named_backend(name) != Some(Backend::Other),
{
    reveal_strlit("vulkan");
    reveal_strlit("vk");
    reveal_strlit("dx12");
    reveal_strlit("d3d12");
    reveal_strlit("metal");
    reveal_strlit("mtl");
    reveal_strlit("gl");
    reveal_strlit("opengl");
    assert("vulkan"@[0] == 'v' && "vk"@[0] == 'v');
    assert("dx12"@[0] == 'd' && "d3d12"@[0] == 'd');
    assert("metal"@[0] == 'm' && "mtl"@[0] == 'm');
    assert("gl"@[0] == 'g' && "opengl"@[0] == 'o');
}

/// A system that is asked for nothing uses its own backend: Windows DX12, Apple Metal, and
/// anything else Vulkan, or OpenGL on the chip that cannot.
pub proof fn law_systems_have_their_own_backend(host: Host, is_v3d: bool)
    ensures
        host == Host::Windows ==> default_backend(host, is_v3d) == Backend::Dx12,
        host == Host::Apple ==> default_backend(host, is_v3d) == Backend::Metal,
        host != Host::Windows && host != Host::Apple && is_v3d ==> default_backend(host, is_v3d)
            == Backend::Gl,
        host != Host::Windows && host != Host::Apple && !is_v3d ==> default_backend(host, is_v3d)
            == Backend::Vulkan,
{
}

/// A grade is skipped exactly if each of its three parameters is one of the singles from
/// sixteen below one to eight above it.
pub proof fn law_only_grades_near_one_are_skipped(params: ColorGradeParams)
    ensures
        params.identity() <==> {
            &&& 0x3f80_0000 - 16 <= params.brightness.bits <= 0x3f80_0000 + 8
            &&& 0x3f80_0000 - 16 <= params.saturation.bits <= 0x3f80_0000 + 8
            &&& 0x3f80_0000 - 16 <= params.gamma.bits <= 0x3f80_0000 + 8
        },
{
}

/// A grading pass binds the picture, the graded picture and the parameters, and works on groups
/// of sixteen by sixteen.
pub proof fn law_grading_binds_what_its_shader_has()
    ensures
        grade_kinds().len() == 3,
        grade_kinds()[0] == (BindingKind::Texture { filterable: false }),
        grade_kinds()[1] is StorageTexture,
        grade_kinds()[2] is Uniform,
        GRADE_GROUP == 16,
{
}

} // verus!
