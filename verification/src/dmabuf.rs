//! Import of camera buffers by their file descriptors.
//!
//! A camera writes NV12 pictures to buffers that Vulkan can import. The calls
//! themselves are made by whoever holds the device; [`PlaneImport`] says which
//! call comes next and with which arguments, and what its answer amounts to.

use crate::text::{decimal_signed, joined, push_decimal_signed};
use std::collections::HashMap;
use vstd::prelude::*;
use vstd::std_specs::hash::group_hash_axioms;

verus! {

/// Queue family of a producer outside the graphics API.
pub const FOREIGN_QUEUE_FAMILY: u32 = 0xFFFF_FFFE;

/// Most memory types a device can have.
pub const MAX_MEMORY_TYPES: u32 = 32;

/// Why a buffer could not be imported.
#[derive(Clone, Debug)]
pub enum DmaBufImportError {
    /// The device is driven by another API.
    NotVulkan,
    /// A call failed.
    Vulkan(String),
    /// The descriptor could not be duplicated.
    DupFd(String),
}

impl DmaBufImportError {
    /// The message of the error.
    pub open spec fn text(&self) -> Seq<char> {
        match *self {
            DmaBufImportError::NotVulkan => "wgpu backend is not Vulkan"@,
            DmaBufImportError::Vulkan(e) => "Vulkan error: "@ + e@,
            DmaBufImportError::DupFd(e) => "dup() failed: "@ + e@,
        }
    }

    /// The message of the error.
    pub fn message(&self) -> (text: String)
        ensures
            text@ == self.text(),
    {
        match self {
            DmaBufImportError::NotVulkan => "wgpu backend is not Vulkan".to_owned(),
            DmaBufImportError::Vulkan(e) => joined("Vulkan error: ", e.as_str()),
            DmaBufImportError::DupFd(e) => joined("dup() failed: ", e.as_str()),
        }
    }
}

/// Pixel format of a plane.
#[derive(Clone, Debug)]
pub enum PlaneFormat {
    /// One byte per pixel.
    R8,
    /// Two bytes per pixel.
    Rg8,
    /// Anything else, by name.
    Other(String),
}

impl PlaneFormat {
    /// Number of channels, of a byte each. Of a format that can be imported.
    pub open spec fn channels(self) -> u32 {
        if self is R8 {
            1
        } else {
            2
        }
    }

    fn channel_count(&self) -> (channels: u32)
        ensures
            channels == self.channels(),
    {
        match self {
            PlaneFormat::R8 => 1,
            _ => 2,
        }
    }
}

/// A plane to import.
#[derive(Clone, Debug)]
pub struct PlaneRequest {
    /// The descriptor, which the import takes over.
    pub fd: i32,
    /// Width in pixels.
    pub width: u32,
    /// Height in pixels.
    pub height: u32,
    /// Pixel format.
    pub format: PlaneFormat,
    /// First byte of the plane in the buffer.
    pub offset: u32,
    /// Size of the buffer, or zero if it is not known.
    pub total_size: u32,
    /// Whether rows lie one after the other.
    pub linear: bool,
    /// Whether the plane's ownership is transferred from the producer.
    pub transfer: bool,
}

/// What the device says of a new image and of the buffer.
#[derive(Clone, Copy, Debug, PartialEq, Eq, Structural)]
pub struct MemoryFacts {
    /// Bytes the image needs.
    pub required_size: u64,
    /// Memory types the image can have, one bit each.
    pub type_bits: u32,
    /// Number of memory types the device has.
    pub type_count: u32,
    /// Size of the buffer; not positive if it is not known.
    pub file_size: i64,
    /// Queue family of the device.
    pub queue_family: u32,
}

/// Whether an image can have the memory type.
pub open spec fn type_allowed(bits: u32, index: u32) -> bool {
    bits & (1u32 << index) != 0
}

/// Whether `index` is the first memory type that the image can have.
pub open spec fn first_type(bits: u32, count: u32, index: u32) -> bool {
    &&& index < count
    &&& type_allowed(bits, index)
    &&& forall|j: u32| j < index ==> !type_allowed(bits, j)
}

/// The first memory type that the image can have.
pub fn memory_type_index(bits: u32, count: u32) -> (index: Option<u32>)
    requires
        count <= MAX_MEMORY_TYPES,
    ensures
        match index {
            Some(i) => first_type(bits, count, i),
            None => forall|j: u32| j < count ==> !type_allowed(bits, j),
        },
{
    let mut i: u32 = 0;
    while i < count
        invariant
            i <= count <= MAX_MEMORY_TYPES,
            forall|j: u32| j < i ==> !type_allowed(bits, j),
        decreases count - i,
    {
        if bits & (1u32 << i) != 0 {
            return Some(i);
        }
        i = i + 1;
    }
    None
}

/// Bytes to allocate for a plane: the size it was given with, else the
/// buffer's own size, else what the image needs.
pub open spec fn allocation(total_size: u32, file_size: i64, required: u64) -> u64 {
    if total_size > 0 {
        total_size as u64
    } else if file_size > 0 {
        file_size as u64
    } else {
        required
    }
}

/// Bytes to allocate for a plane: the size it was given with, else the
/// buffer's own size, else what the image needs.
pub fn allocation_size(total_size: u32, file_size: i64, required: u64) -> (size: u64)
    ensures
        size == allocation(total_size, file_size, required),
{
    if total_size > 0 {
        total_size as u64
    } else if file_size > 0 {
        file_size as u64
    } else {
        required
    }
}

/// How far an import has come.
#[derive(Clone, Copy, Debug, PartialEq, Eq, Structural)]
pub enum ImportStep {
    /// The device has to be opened.
    OpenDevice,
    /// The image has to be created.
    CreateImage,
    /// The image and the buffer have to be looked at.
    Inspect,
    /// The memory has to be imported.
    Allocate,
    /// The memory has to be bound to the image.
    Bind,
    /// A command pool has to be created.
    CreatePool,
    /// A command buffer has to be allocated.
    AllocateCommands,
    /// The command buffer has to be begun.
    BeginCommands,
    /// The ownership transfer has to be recorded.
    Barrier,
    /// The command buffer has to be ended.
    EndCommands,
    /// The command buffer has to be submitted.
    Submit,
    /// The queue has to become idle.
    Wait,
    /// The command pool has to be destroyed.
    DestroyPool,
    /// The image has to be wrapped as a texture.
    Wrap,
    /// The texture is there.
    Ready,
    /// The import failed.
    Failed,
}

/// What an import has learned.
#[derive(Clone, Copy, Debug, PartialEq, Eq, Structural)]
pub struct Known {
    /// The image.
    pub image: u64,
    /// What the device said of it.
    pub facts: MemoryFacts,
    /// Memory type to allocate.
    pub type_index: u32,
    /// Bytes to allocate.
    pub size: u64,
    /// The memory.
    pub memory: u64,
    /// The command pool.
    pub pool: u64,
    /// The command buffer.
    pub commands: u64,
    /// The texture.
    pub texture: u64,
}

/// A call of an import, with its arguments.
#[derive(Clone, Copy, Debug, PartialEq, Eq, Structural)]
pub enum ImportCall {
    /// Open the device.
    OpenDevice,
    /// Create an image for imported memory.
    CreateImage {
        /// Width in pixels.
        width: u32,
        /// Height in pixels.
        height: u32,
        /// Bytes per pixel: one or two.
        channels: u32,
        /// Whether rows lie one after the other.
        linear: bool,
        /// Whether its contents are there before it is first used.
        preinitialized: bool,
    },
    /// Look at an image and at a buffer.
    Inspect {
        /// The image.
        image: u64,
        /// The buffer.
        fd: i32,
    },
    /// Import memory for an image.
    Allocate {
        /// Number of bytes.
        size: u64,
        /// Memory type.
        type_index: u32,
        /// The buffer.
        fd: i32,
        /// The image the memory is dedicated to, if it is.
        dedicated: Option<u64>,
    },
    /// Bind memory to an image.
    Bind {
        /// The image.
        image: u64,
        /// The memory.
        memory: u64,
        /// First byte of the image in the memory.
        offset: u64,
    },
    /// Create a command pool.
    CreatePool {
        /// Its queue family.
        queue_family: u32,
    },
    /// Allocate one command buffer.
    AllocateCommands {
        /// The pool.
        pool: u64,
    },
    /// Begin a command buffer.
    BeginCommands {
        /// The command buffer.
        commands: u64,
    },
    /// Record an ownership transfer.
    Barrier {
        /// The command buffer.
        commands: u64,
        /// The image.
        image: u64,
        /// From this queue family.
        from: u32,
        /// To this one.
        to: u32,
    },
    /// End a command buffer.
    EndCommands {
        /// The command buffer.
        commands: u64,
    },
    /// Submit a command buffer.
    Submit {
        /// The command buffer.
        commands: u64,
    },
    /// Wait until the queue is idle.
    Wait,
    /// Destroy a command pool.
    DestroyPool {
        /// The pool.
        pool: u64,
    },
    /// Wrap an image as a texture that owns it and its memory.
    Wrap {
        /// The image.
        image: u64,
        /// The memory.
        memory: u64,
        /// Width in pixels.
        width: u32,
        /// Height in pixels.
        height: u32,
        /// Channels per pixel, of a byte each.
        channels: u32,
    },
}

/// What came of a call.
#[derive(Clone, Debug)]
pub enum ImportReply {
    /// It worked.
    Done,
    /// It worked and gave this handle.
    Handle(u64),
    /// What the device says of the image.
    Facts(MemoryFacts),
    /// It failed, with this reason.
    Failed(String),
}

/// The import of one plane.
#[derive(Clone, Debug)]
pub struct PlaneImport {
    /// What to import.
    pub request: PlaneRequest,
    /// How far it has come.
    pub step: ImportStep,
    /// What it has learned.
    pub known: Known,
    /// Why it failed, if it did.
    pub error: Option<DmaBufImportError>,
}

impl ImportStep {
    /// The step after this one, if all goes well.
    pub open spec fn following(self, transfer: bool) -> ImportStep {
        match self {
            ImportStep::OpenDevice => ImportStep::CreateImage,
            ImportStep::CreateImage => ImportStep::Inspect,
            ImportStep::Inspect => ImportStep::Allocate,
            ImportStep::Allocate => ImportStep::Bind,
            ImportStep::Bind => if transfer {
                ImportStep::CreatePool
            } else {
                ImportStep::Wrap
            },
            ImportStep::CreatePool => ImportStep::AllocateCommands,
            ImportStep::AllocateCommands => ImportStep::BeginCommands,
            ImportStep::BeginCommands => ImportStep::Barrier,
            ImportStep::Barrier => ImportStep::EndCommands,
            ImportStep::EndCommands => ImportStep::Submit,
            ImportStep::Submit => ImportStep::Wait,
            ImportStep::Wait => ImportStep::DestroyPool,
            ImportStep::DestroyPool => ImportStep::Wrap,
            ImportStep::Wrap => ImportStep::Ready,
            other => other,
        }
    }

    /// Whether the step is answered with a handle.
    pub open spec fn gives_handle(self) -> bool {
        self is CreateImage || self is Allocate || self is CreatePool || self is AllocateCommands
            || self is Wrap
    }

    /// Whether the step is answered with nothing.
    pub open spec fn gives_nothing(self) -> bool {
        self is OpenDevice || self is Bind || self is BeginCommands || self is Barrier
            || self is EndCommands || self is Submit || self is Wait || self is DestroyPool
    }

    /// Whether the step can fail.
    pub open spec fn can_fail(self) -> bool {
        !(self is Inspect || self is Barrier || self is DestroyPool || self is Ready
            || self is Failed)
    }

    fn next(self, transfer: bool) -> (step: ImportStep)
        ensures
            step == self.following(transfer),
    {
        match self {
            ImportStep::OpenDevice => ImportStep::CreateImage,
            ImportStep::CreateImage => ImportStep::Inspect,
            ImportStep::Inspect => ImportStep::Allocate,
            ImportStep::Allocate => ImportStep::Bind,
            ImportStep::Bind => if transfer {
                ImportStep::CreatePool
            } else {
                ImportStep::Wrap
            },
            ImportStep::CreatePool => ImportStep::AllocateCommands,
            ImportStep::AllocateCommands => ImportStep::BeginCommands,
            ImportStep::BeginCommands => ImportStep::Barrier,
            ImportStep::Barrier => ImportStep::EndCommands,
            ImportStep::EndCommands => ImportStep::Submit,
            ImportStep::Submit => ImportStep::Wait,
            ImportStep::Wait => ImportStep::DestroyPool,
            ImportStep::DestroyPool => ImportStep::Wrap,
            ImportStep::Wrap => ImportStep::Ready,
            ImportStep::Ready => ImportStep::Ready,
            ImportStep::Failed => ImportStep::Failed,
        }
    }
}

/// What a failed step is reported as.
pub open spec fn failure_text(step: ImportStep, fd: i32, reason: Seq<char>) -> Seq<char> {
    match step {
        ImportStep::CreateImage => "vkCreateImage: "@ + reason,
        ImportStep::Allocate => "vkAllocateMemory (DMA-buf fd="@ + decimal_signed(fd as int)
            + "): "@ + reason,
        ImportStep::Bind => "vkBindImageMemory: "@ + reason,
        ImportStep::CreatePool => "cmd pool: "@ + reason,
        ImportStep::AllocateCommands => "cmd alloc: "@ + reason,
        ImportStep::BeginCommands => "begin cmd: "@ + reason,
        ImportStep::EndCommands => "end cmd: "@ + reason,
        ImportStep::Submit => "queue submit: "@ + reason,
        _ => "queue wait: "@ + reason,
    }
}

/// A failed Vulkan call with this text.
pub open spec fn vulkan_error(error: Option<DmaBufImportError>, text: Seq<char>) -> bool {
    error matches Some(DmaBufImportError::Vulkan(e)) && e@ == text
}

impl Known {
    /// Nothing.
    pub open spec fn nothing() -> Known {
        Known {
            image: 0,
            facts: MemoryFacts {
                required_size: 0,
                type_bits: 0,
                type_count: 0,
                file_size: 0,
                queue_family: 0,
            },
            type_index: 0,
            size: 0,
            memory: 0,
            pool: 0,
            commands: 0,
            texture: 0,
        }
    }

    /// What is known once a step has been answered with a handle.
    pub open spec fn with(self, step: ImportStep, handle: u64) -> Known {
        match step {
            ImportStep::CreateImage => Known { image: handle, ..self },
            ImportStep::Allocate => Known { memory: handle, ..self },
            ImportStep::CreatePool => Known { pool: handle, ..self },
            ImportStep::AllocateCommands => Known { commands: handle, ..self },
            ImportStep::Wrap => Known { texture: handle, ..self },
            _ => self,
        }
    }
}

impl PlaneImport {
    /// Whether nothing has been done yet.
    pub open spec fn begins(self) -> bool {
        self.step is OpenDevice && self.known == Known::nothing() && self.error is None
    }

    /// The call to make next, until the import is ready or has failed.
    pub open spec fn pending(self) -> Option<ImportCall> {
        let k = self.known;
        match self.step {
            ImportStep::OpenDevice => Some(ImportCall::OpenDevice),
            ImportStep::CreateImage => Some(
                ImportCall::CreateImage {
                    width: self.request.width,
                    height: self.request.height,
                    channels: self.request.format.channels(),
                    linear: self.request.linear,
                    preinitialized: self.request.transfer,
                },
            ),
            ImportStep::Inspect => Some(
                ImportCall::Inspect { image: k.image, fd: self.request.fd },
            ),
            ImportStep::Allocate => Some(
                ImportCall::Allocate {
                    size: k.size,
                    type_index: k.type_index,
                    fd: self.request.fd,
                    dedicated: if self.request.transfer {
                        Some(k.image)
                    } else {
                        None
                    },
                },
            ),
            ImportStep::Bind => Some(
                ImportCall::Bind {
                    image: k.image,
                    memory: k.memory,
                    offset: self.request.offset as u64,
                },
            ),
            ImportStep::CreatePool => Some(
                ImportCall::CreatePool { queue_family: k.facts.queue_family },
            ),
            ImportStep::AllocateCommands => Some(ImportCall::AllocateCommands { pool: k.pool }),
            ImportStep::BeginCommands => Some(ImportCall::BeginCommands { commands: k.commands }),
            ImportStep::Barrier => Some(
                ImportCall::Barrier {
                    commands: k.commands,
                    image: k.image,
                    from: FOREIGN_QUEUE_FAMILY,
                    to: k.facts.queue_family,
                },
            ),
            ImportStep::EndCommands => Some(ImportCall::EndCommands { commands: k.commands }),
            ImportStep::Submit => Some(ImportCall::Submit { commands: k.commands }),
            ImportStep::Wait => Some(ImportCall::Wait),
            ImportStep::DestroyPool => Some(ImportCall::DestroyPool { pool: k.pool }),
            ImportStep::Wrap => Some(
                ImportCall::Wrap {
                    image: k.image,
                    memory: k.memory,
                    width: self.request.width,
                    height: self.request.height,
                    channels: self.request.format.channels(),
                },
            ),
            ImportStep::Ready => None,
            ImportStep::Failed => None,
        }
    }

    /// Bytes to allocate once the device has spoken. Without an ownership
    /// transfer the size is the one that was given.
    pub open spec fn size_for(self, facts: MemoryFacts) -> u64 {
        if self.request.transfer {
            allocation(self.request.total_size, facts.file_size, facts.required_size)
        } else {
            self.request.total_size as u64
        }
    }

    /// How `self` relates to the import before the reply.
    pub open spec fn answered(self, before: PlaneImport, reply: ImportReply) -> bool {
        &&& self.request == before.request
        &&& match reply {
            ImportReply::Failed(reason) => if before.step.can_fail() {
                &&& self.step is Failed
                &&& self.known == before.known
                &&& if before.step is OpenDevice || before.step is Wrap {
                    self.error == Some(DmaBufImportError::NotVulkan)
                } else {
                    vulkan_error(
                        self.error,
                        failure_text(before.step, before.request.fd, reason@),
                    )
                }
            } else {
                self == before
            },
            ImportReply::Handle(handle) => if before.step.gives_handle() {
                &&& self.step == before.step.following(before.request.transfer)
                &&& self.known == before.known.with(before.step, handle)
                &&& self.error == before.error
            } else {
                self == before
            },
            ImportReply::Facts(facts) => if before.step is Inspect {
                if exists|i: u32| first_type(facts.type_bits, facts.type_count, i) {
                    &&& self.step is Allocate
                    &&& first_type(facts.type_bits, facts.type_count, self.known.type_index)
                    &&& self.known == (Known {
                        facts,
                        type_index: self.known.type_index,
                        size: before.size_for(facts),
                        ..before.known
                    })
                    &&& self.error == before.error
                } else {
                    &&& self.step is Failed
                    &&& self.known == before.known
                    &&& vulkan_error(self.error, "no compatible memory type for DMA-buf import"@)
                }
            } else {
                self == before
            },
            ImportReply::Done => if before.step is OpenDevice && before.request.format is Other {
                &&& self.step is Failed
                &&& self.known == before.known
                &&& vulkan_error(
                    self.error,
                    "unsupported format: "@ + before.request.format->Other_0@,
                )
            } else if before.step.gives_nothing() {
                &&& self.step == before.step.following(before.request.transfer)
                &&& self.known == before.known
                &&& self.error == before.error
            } else {
                self == before
            },
        }
    }

    /// Start importing a plane.
    pub fn new(request: PlaneRequest) -> (import: Self)
        ensures
            import.request == request,
            import.begins(),
    {
        PlaneImport {
            request,
            step: ImportStep::OpenDevice,
            known: Known {
                image: 0,
                facts: MemoryFacts {
                    required_size: 0,
                    type_bits: 0,
                    type_count: 0,
                    file_size: 0,
                    queue_family: 0,
                },
                type_index: 0,
                size: 0,
                memory: 0,
                pool: 0,
                commands: 0,
                texture: 0,
            },
            error: None,
        }
    }

    /// The call to make next, until the import is ready or has failed.
    pub fn next_call(&self) -> (call: Option<ImportCall>)
        ensures
            call == self.pending(),
    {
        let k: Known = self.known;
        match self.step {
            ImportStep::OpenDevice => Some(ImportCall::OpenDevice),
            ImportStep::CreateImage => {
                Some(
                    ImportCall::CreateImage {
                        width: self.request.width,
                        height: self.request.height,
                        channels: self.request.format.channel_count(),
                        linear: self.request.linear,
                        preinitialized: self.request.transfer,
                    },
                )
            },
            ImportStep::Inspect => Some(
                ImportCall::Inspect { image: k.image, fd: self.request.fd },
            ),
            ImportStep::Allocate => Some(
                ImportCall::Allocate {
                    size: k.size,
                    type_index: k.type_index,
                    fd: self.request.fd,
                    dedicated: if self.request.transfer {
                        Some(k.image)
                    } else {
                        None
                    },
                },
            ),
            ImportStep::Bind => Some(
                ImportCall::Bind {
                    image: k.image,
                    memory: k.memory,
                    offset: self.request.offset as u64,
                },
            ),
            ImportStep::CreatePool => Some(
                ImportCall::CreatePool { queue_family: k.facts.queue_family },
            ),
            ImportStep::AllocateCommands => Some(ImportCall::AllocateCommands { pool: k.pool }),
            ImportStep::BeginCommands => Some(ImportCall::BeginCommands { commands: k.commands }),
            ImportStep::Barrier => Some(
                ImportCall::Barrier {
                    commands: k.commands,
                    image: k.image,
                    from: FOREIGN_QUEUE_FAMILY,
                    to: k.facts.queue_family,
                },
            ),
            ImportStep::EndCommands => Some(ImportCall::EndCommands { commands: k.commands }),
            ImportStep::Submit => Some(ImportCall::Submit { commands: k.commands }),
            ImportStep::Wait => Some(ImportCall::Wait),
            ImportStep::DestroyPool => Some(ImportCall::DestroyPool { pool: k.pool }),
            ImportStep::Wrap => Some(
                ImportCall::Wrap {
                    image: k.image,
                    memory: k.memory,
                    width: self.request.width,
                    height: self.request.height,
                    channels: self.request.format.channel_count(),
                },
            ),
            ImportStep::Ready => None,
            ImportStep::Failed => None,
        }
    }

    fn fail(&mut self, error: DmaBufImportError)
        ensures
            *final(self) == (PlaneImport {
                step: ImportStep::Failed,
                error: Some(error),
                ..*old(self)
            }),
    {
        self.step = ImportStep::Failed;
        self.error = Some(error);
    }

    fn fail_call(&mut self, reason: &str)
        requires
            old(self).step.can_fail(),
            !(old(self).step is OpenDevice) && !(old(self).step is Wrap),
        ensures
            final(self).step is Failed,
            final(self).request == old(self).request,
            final(self).known == old(self).known,
            vulkan_error(
                final(self).error,
                failure_text(old(self).step, old(self).request.fd, reason@),
            ),
    {
        let text: String = match self.step {
            ImportStep::CreateImage => joined("vkCreateImage: ", reason),
            ImportStep::Allocate => {
                let mut text: String = "vkAllocateMemory (DMA-buf fd=".to_owned();
                push_decimal_signed(&mut text, self.request.fd as i64);
                text.push_str("): ");
                text.push_str(reason);
                text
            },
            ImportStep::Bind => joined("vkBindImageMemory: ", reason),
            ImportStep::CreatePool => joined("cmd pool: ", reason),
            ImportStep::AllocateCommands => joined("cmd alloc: ", reason),
            ImportStep::BeginCommands => joined("begin cmd: ", reason),
            ImportStep::EndCommands => joined("end cmd: ", reason),
            ImportStep::Submit => joined("queue submit: ", reason),
            _ => joined("queue wait: ", reason),
        };
        self.fail(DmaBufImportError::Vulkan(text));
    }

    /// Take what came of the pending call. A reply that the call cannot have
    /// changes nothing.
    pub fn reply(&mut self, reply: ImportReply)
        requires
            reply matches ImportReply::Facts(facts) ==> facts.type_count <= MAX_MEMORY_TYPES,
        ensures
            final(self).answered(*old(self), reply),
    {
        match &reply {
            ImportReply::Failed(reason) => {
                match self.step {
                    ImportStep::OpenDevice => self.fail(DmaBufImportError::NotVulkan),
                    ImportStep::Wrap => self.fail(DmaBufImportError::NotVulkan),
                    ImportStep::Inspect => {},
                    ImportStep::Barrier => {},
                    ImportStep::DestroyPool => {},
                    ImportStep::Ready => {},
                    ImportStep::Failed => {},
                    _ => self.fail_call(reason.as_str()),
                }
            },
            ImportReply::Handle(handle) => {
                match self.step {
                    ImportStep::CreateImage => {
                        self.known.image = *handle;
                        self.step = ImportStep::Inspect;
                    },
                    ImportStep::Allocate => {
                        self.known.memory = *handle;
                        self.step = ImportStep::Bind;
                    },
                    ImportStep::CreatePool => {
                        self.known.pool = *handle;
                        self.step = ImportStep::AllocateCommands;
                    },
                    ImportStep::AllocateCommands => {
                        self.known.commands = *handle;
                        self.step = ImportStep::BeginCommands;
                    },
                    ImportStep::Wrap => {
                        self.known.texture = *handle;
                        self.step = ImportStep::Ready;
                    },
                    _ => {},
                }
            },
            ImportReply::Facts(facts) => {
                if let ImportStep::Inspect = self.step {
                    match memory_type_index(facts.type_bits, facts.type_count) {
                        None => self.fail(
                            DmaBufImportError::Vulkan(
                                "no compatible memory type for DMA-buf import".to_owned(),
                            ),
                        ),
                        Some(index) => {
                            self.known.facts = *facts;
                            self.known.type_index = index;
                            self.known.size =
                            if self.request.transfer {
                                allocation_size(
                                    self.request.total_size,
                                    facts.file_size,
                                    facts.required_size,
                                )
                            } else {
                                self.request.total_size as u64
                            };
                            self.step = ImportStep::Allocate;
                        },
                    }
                }
            },
            ImportReply::Done => {
                let unsupported: Option<String> = match (&self.step, &self.request.format) {
                    (ImportStep::OpenDevice, PlaneFormat::Other(name)) => Some(
                        joined("unsupported format: ", name.as_str()),
                    ),
                    _ => None,
                };
                if let Some(text) = unsupported {
                    self.fail(DmaBufImportError::Vulkan(text));
                } else {
                    match self.step {
                        ImportStep::OpenDevice => {
                            self.step = self.step.next(self.request.transfer);
                        },
                        ImportStep::Bind => {
                            self.step = self.step.next(self.request.transfer);
                        },
                        ImportStep::BeginCommands => {
                            self.step = self.step.next(self.request.transfer);
                        },
                        ImportStep::Barrier => {
                            self.step = self.step.next(self.request.transfer);
                        },
                        ImportStep::EndCommands => {
                            self.step = self.step.next(self.request.transfer);
                        },
                        ImportStep::Submit => {
                            self.step = self.step.next(self.request.transfer);
                        },
                        ImportStep::Wait => {
                            self.step = self.step.next(self.request.transfer);
                        },
                        ImportStep::DestroyPool => {
                            self.step = self.step.next(self.request.transfer);
                        },
                        _ => {},
                    }
                }
            },
        }
    }

    /// The texture, or why there is none; nothing while calls are pending.
    pub fn outcome(self) -> (outcome: Option<Result<u64, DmaBufImportError>>)
        ensures
            match self.step {
                ImportStep::Ready => outcome == Some(
                    Ok::<u64, DmaBufImportError>(self.known.texture),
                ),
                ImportStep::Failed => match self.error {
                    Some(e) => outcome == Some(Err::<u64, DmaBufImportError>(e)),
                    None => outcome is None,
                },
                _ => outcome is None,
            },
    {
        match self.step {
            ImportStep::Ready => Some(Ok(self.known.texture)),
            ImportStep::Failed => match self.error {
                Some(e) => Some(Err(e)),
                None => None,
            },
            _ => None,
        }
    }
}

/// Number of calls between a step and the end of an import.
pub open spec fn steps_left(step: ImportStep, transfer: bool) -> nat {
    match step {
        ImportStep::Ready => 0,
        ImportStep::Failed => 0,
        ImportStep::Wrap => 1,
        ImportStep::DestroyPool => 2,
        ImportStep::Wait => 3,
        ImportStep::Submit => 4,
        ImportStep::EndCommands => 5,
        ImportStep::Barrier => 6,
        ImportStep::BeginCommands => 7,
        ImportStep::AllocateCommands => 8,
        ImportStep::CreatePool => 9,
        ImportStep::Bind => if transfer {
            10
        } else {
            2
        },
        ImportStep::Allocate => if transfer {
            11
        } else {
            3
        },
        ImportStep::Inspect => if transfer {
            12
        } else {
            4
        },
        ImportStep::CreateImage => if transfer {
            13
        } else {
            5
        },
        ImportStep::OpenDevice => if transfer {
            14
        } else {
            6
        },
    }
}

/// Every reply either changes nothing, ends the import with an error, or
/// brings it exactly one call closer to the end.
pub proof fn law_import_ends(before: PlaneImport, after: PlaneImport, reply: ImportReply)
    requires
        after.answered(before, reply),
    ensures
        after == before || (after.step is Failed && after.error is Some) || steps_left(
            after.step,
            after.request.transfer,
        ) + 1 == steps_left(before.step, before.request.transfer),
{
}

/// An import that is ready or has failed makes no further call and does not
/// change.
pub proof fn law_finished_import_is_final(
    before: PlaneImport,
    after: PlaneImport,
    reply: ImportReply,
)
    requires
        before.step is Ready || before.step is Failed,
        after.answered(before, reply),
    ensures
        before.pending() is None,
        after == before,
{
}

/// Memory is only allocated with a type that the image can have, and that
/// stays so until the end.
pub open spec fn compatible(import: PlaneImport) -> bool {
    match import.step {
        ImportStep::OpenDevice => true,
        ImportStep::CreateImage => true,
        ImportStep::Inspect => true,
        ImportStep::Failed => true,
        _ => first_type(
            import.known.facts.type_bits,
            import.known.facts.type_count,
            import.known.type_index,
        ),
    }
}

/// Every reply keeps the chosen memory type one that the image can have, so an
/// import that is ready used such memory.
pub proof fn law_memory_is_compatible(before: PlaneImport, after: PlaneImport, reply: ImportReply)
    requires
        compatible(before),
        after.answered(before, reply),
    ensures
        compatible(after),
{
}

/// What duplicating a descriptor for the two planes of a picture amounts to.
#[derive(Clone, Copy, Debug, PartialEq, Eq, Structural)]
pub enum DupStep {
    /// Duplicate it once more.
    Again,
    /// Give up.
    Fail,
    /// Close the first duplicate and give up.
    CloseAndFail {
        /// The first duplicate.
        fd: i32,
    },
    /// Both duplicates are there.
    Ready {
        /// For the luma plane.
        y_fd: i32,
        /// For the chroma plane.
        uv_fd: i32,
    },
}

/// What to do with the duplicates that were asked for so far; a negative one
/// could not be had.
pub fn dup_step(first: i32, second: Option<i32>) -> (step: DupStep)
    ensures
        step == if first < 0 {
            DupStep::Fail
        } else {
            match second {
                None => DupStep::Again,
                Some(uv_fd) => if uv_fd < 0 {
                    DupStep::CloseAndFail { fd: first }
                } else {
                    DupStep::Ready { y_fd: first, uv_fd }
                },
            }
        },
{
    if first < 0 {
        return DupStep::Fail;
    }
    match second {
        None => DupStep::Again,
        Some(uv_fd) => if uv_fd < 0 {
            DupStep::CloseAndFail { fd: first }
        } else {
            DupStep::Ready { y_fd: first, uv_fd }
        },
    }
}

/// The two planes of an NV12 picture in one buffer: luma in full size, chroma
/// in half.
pub fn import_dmabuf_nv12_tiling(
    y_fd: i32,
    uv_fd: i32,
    width: u32,
    height: u32,
    y_offset: u32,
    uv_offset: u32,
    total_size: u32,
    linear: bool,
    transfer: bool,
) -> (planes: (PlaneImport, PlaneImport))
    ensures
        planes.0.begins(),
        planes.1.begins(),
        planes.0.request == (PlaneRequest {
            fd: y_fd,
            width,
            height,
            format: PlaneFormat::R8,
            offset: y_offset,
            total_size,
            linear,
            transfer,
        }),
        planes.1.request == (PlaneRequest {
            fd: uv_fd,
            width: width / 2,
            height: height / 2,
            format: PlaneFormat::Rg8,
            offset: uv_offset,
            total_size,
            linear,
            transfer,
        }),
{
    let y = PlaneImport::new(
        PlaneRequest {
            fd: y_fd,
            width,
            height,
            format: PlaneFormat::R8,
            offset: y_offset,
            total_size,
            linear,
            transfer,
        },
    );
    let uv = PlaneImport::new(
        PlaneRequest {
            fd: uv_fd,
            width: width / 2,
            height: height / 2,
            format: PlaneFormat::Rg8,
            offset: uv_offset,
            total_size,
            linear,
            transfer,
        },
    );
    (y, uv)
}

/// The two planes of a tiled NV12 picture in one buffer.
pub fn import_dmabuf_nv12(
    y_fd: i32,
    uv_fd: i32,
    width: u32,
    height: u32,
    y_offset: u32,
    uv_offset: u32,
    total_size: u32,
    transfer: bool,
) -> (planes: (PlaneImport, PlaneImport))
    ensures
        planes.0.begins(),
        planes.1.begins(),
        planes.0.request == (PlaneRequest {
            fd: y_fd,
            width,
            height,
            format: PlaneFormat::R8,
            offset: y_offset,
            total_size,
            linear: false,
            transfer,
        }),
        planes.1.request == (PlaneRequest {
            fd: uv_fd,
            width: width / 2,
            height: height / 2,
            format: PlaneFormat::Rg8,
            offset: uv_offset,
            total_size,
            linear: false,
            transfer,
        }),
{
    import_dmabuf_nv12_tiling(
        y_fd,
        uv_fd,
        width,
        height,
        y_offset,
        uv_offset,
        total_size,
        false,
        transfer,
    )
}

/// One plane that has a buffer of its own.
pub fn import_dmabuf_plane(
    fd: i32,
    width: u32,
    height: u32,
    format: PlaneFormat,
    linear: bool,
) -> (plane: PlaneImport)
    ensures
        plane.begins(),
        plane.request == (PlaneRequest {
            fd,
            width,
            height,
            format,
            offset: 0,
            total_size: 0,
            linear,
            transfer: true,
        }),
{
    PlaneImport::new(
        PlaneRequest {
            fd,
            width,
            height,
            format,
            offset: 0,
            total_size: 0,
            linear,
            transfer: true,
        },
    )
}

/// The textures of an NV12 picture.
#[derive(Clone, Copy, Debug, PartialEq, Eq, Structural)]
pub struct DmaBufNv12Textures {
    /// Luma.
    pub y_texture: u64,
    /// Chroma.
    pub uv_texture: u64,
}

/// Imported pictures by the descriptor of their buffer.
///
/// A camera rotates through a few buffers with stable descriptors, so each is
/// imported once.
pub struct DmaBufTextureCache {
    cache: HashMap<i32, DmaBufNv12Textures>,
}

impl View for DmaBufTextureCache {
    type V = Map<i32, DmaBufNv12Textures>;

    closed spec fn view(&self) -> Map<i32, DmaBufNv12Textures> {
        self.cache@
    }
}

/// What is cached once an import has been made for a descriptor that may be
/// cached already.
pub open spec fn cached_after<T>(cache: Map<i32, T>, fd: i32, imported: Option<T>) -> Map<i32, T> {
    if cache.dom().contains(fd) {
        cache
    } else {
        match imported {
            Some(t) => cache.insert(fd, t),
            None => cache,
        }
    }
}

impl DmaBufTextureCache {
    /// An empty cache.
    pub fn new() -> (cache: Self)
        ensures
            cache@ == Map::<i32, DmaBufNv12Textures>::empty(),
    {
        DmaBufTextureCache { cache: HashMap::new() }
    }

    /// Whether nothing is cached.
    pub fn is_empty(&self) -> (empty: bool)
        ensures
            empty == (self@.len() == 0),
    {
        broadcast use group_hash_axioms;

        self.cache.len() == 0
    }

    /// Number of cached pictures.
    pub fn len(&self) -> (n: usize)
        ensures
            n == self@.len(),
    {
        broadcast use group_hash_axioms;

        self.cache.len()
    }

    /// Whether the descriptor's buffer has been imported.
    pub fn is_imported(&self, fd: i32) -> (imported: bool)
        ensures
            imported == self@.dom().contains(fd),
    {
        broadcast use group_hash_axioms;

        self.cache.contains_key(&fd)
    }

    /// Keep what importing the descriptor's buffer gave, unless it is cached.
    pub fn ensure_imported(
        &mut self,
        fd: i32,
        imported: Result<DmaBufNv12Textures, DmaBufImportError>,
    ) -> (done: Result<(), DmaBufImportError>)
        ensures
            final(self)@ == cached_after(
                old(self)@,
                fd,
                match imported {
                    Ok(t) => Some(t),
                    Err(_) => None,
                },
            ),
            done is Ok <==> old(self)@.dom().contains(fd) || imported is Ok,
            done matches Err(e) ==> imported == Err::<DmaBufNv12Textures, DmaBufImportError>(e),
    {
        broadcast use group_hash_axioms;

        if self.cache.contains_key(&fd) {
            return Ok(());
        }
        match imported {
            Ok(textures) => {
                self.cache.insert(fd, textures);
                Ok(())
            },
            Err(e) => Err(e),
        }
    }

    /// The textures of an imported buffer.
    pub fn get(&self, fd: i32) -> (textures: DmaBufNv12Textures)
        requires
            self@.dom().contains(fd),
        ensures
            textures == self@[fd],
    {
        broadcast use group_hash_axioms;

        *self.cache.get(&fd).unwrap()
    }
}

/// Imported planes by the descriptor of their buffer, for cameras whose luma
/// and chroma have buffers of their own.
pub struct DmaBufPlaneCache {
    cache: HashMap<i32, u64>,
}

impl View for DmaBufPlaneCache {
    type V = Map<i32, u64>;

    closed spec fn view(&self) -> Map<i32, u64> {
        self.cache@
    }
}

impl DmaBufPlaneCache {
    /// An empty cache.
    pub fn new() -> (cache: Self)
        ensures
            cache@ == Map::<i32, u64>::empty(),
    {
        DmaBufPlaneCache { cache: HashMap::new() }
    }

    /// Number of cached planes.
    pub fn len(&self) -> (n: usize)
        ensures
            n == self@.len(),
    {
        broadcast use group_hash_axioms;

        self.cache.len()
    }

    /// Whether the descriptor's buffer has been imported.
    pub fn is_imported(&self, fd: i32) -> (imported: bool)
        ensures
            imported == self@.dom().contains(fd),
    {
        broadcast use group_hash_axioms;

        self.cache.contains_key(&fd)
    }

    /// Keep what importing the descriptor's buffer gave, unless it is cached.
    pub fn ensure_imported(&mut self, fd: i32, imported: Result<u64, DmaBufImportError>) -> (done:
        Result<(), DmaBufImportError>)
        ensures
            final(self)@ == cached_after(
                old(self)@,
                fd,
                match imported {
                    Ok(t) => Some(t),
                    Err(_) => None,
                },
            ),
            done is Ok <==> old(self)@.dom().contains(fd) || imported is Ok,
            done matches Err(e) ==> imported == Err::<u64, DmaBufImportError>(e),
    {
        broadcast use group_hash_axioms;

        if self.cache.contains_key(&fd) {
            return Ok(());
        }
        match imported {
            Ok(texture) => {
                self.cache.insert(fd, texture);
                Ok(())
            },
            Err(e) => Err(e),
        }
    }

    /// The texture of an imported buffer.
    pub fn get(&self, fd: i32) -> (texture: u64)
        requires
            self@.dom().contains(fd),
        ensures
            texture == self@[fd],
    {
        broadcast use group_hash_axioms;

        *self.cache.get(&fd).unwrap()
    }
}

/// A buffer that is cached stays cached as it was, whatever is imported later.
pub proof fn law_cached_buffers_are_kept<T>(
    cache: Map<i32, T>,
    fd: i32,
    later: i32,
    imported: Option<T>,
)
    requires
        cache.dom().contains(fd),
    ensures
        cached_after(cache, later, imported).dom().contains(fd),
        cached_after(cache, later, imported)[fd] == cache[fd],
{
}

/// A buffer that has been imported can be had from the cache.
pub proof fn law_imported_buffers_are_cached<T>(cache: Map<i32, T>, fd: i32, imported: T)
    ensures
        cached_after(cache, fd, Some(imported)).dom().contains(fd),
        !cache.dom().contains(fd) ==> cached_after(cache, fd, Some(imported))[fd] == imported,
{
}

/// The memory type that is chosen is the lowest that the bits allow and the device has.
pub proof fn law_the_lowest_memory_type_is_chosen(bits: u32, count: u32, a: u32, b: u32)
    requires
        first_type(bits, count, a),
        first_type(bits, count, b),
    ensures
        a == b,
        a < count,
        bits & (1u32 << a) != 0,
        forall|j: u32| j < a ==> bits & (#[trigger] (1u32 << j)) == 0,
{
    assert forall|j: u32| j < a implies bits & (#[trigger] (1u32 << j)) == 0 by {
        assert(!type_allowed(bits, j));
    }
    if a < b {
        assert(!type_allowed(bits, a));
    }
    if b < a {
        assert(!type_allowed(bits, b));
    }
}

/// As much is allocated as the request says, or else as the buffer's file has, or else as the
/// image needs.
pub proof fn law_allocations_have_the_size_that_is_known(
    total_size: u32,
    file_size: i64,
    required: u64,
)
    ensures
        total_size > 0 ==> allocation(total_size, file_size, required) == total_size,
        total_size == 0 && file_size > 0 ==> allocation(total_size, file_size, required)
            == file_size,
        total_size == 0 && file_size <= 0 ==> allocation(total_size, file_size, required)
            == required,
{
}

/// The calls of an import, each with what the calls before it gave and what was asked for: the
/// image in the plane's size and format, its memory from the plane's own buffer, both bound at the
/// plane's offset, and the texture over both.
pub proof fn law_import_calls_carry_what_was_learned(
    before: PlaneImport,
    after: PlaneImport,
    reply: ImportReply,
)
    requires
        after.answered(before, reply),
        !(before.request.format is Other),
    ensures
        before.step is OpenDevice ==> before.pending() == Some(ImportCall::OpenDevice),
        before.step is OpenDevice && reply is Done ==> after.pending() == Some(
            ImportCall::CreateImage {
                width: before.request.width,
                height: before.request.height,
                channels: if before.request.format is R8 {
                    1
                } else {
                    2
                },
                linear: before.request.linear,
                preinitialized: before.request.transfer,
            },
        ),
        before.step is CreateImage && reply is Handle ==> after.pending() == Some(
            ImportCall::Inspect { image: reply->Handle_0, fd: before.request.fd },
        ) && after.known.image == reply->Handle_0,
        before.step is Inspect && reply is Facts && after.step is Allocate ==> {
            let facts = reply->Facts_0;
            &&& after.known.facts == facts
            &&& first_type(facts.type_bits, facts.type_count, after.known.type_index)
            &&& after.pending() == Some(
                ImportCall::Allocate {
                    size: if before.request.transfer {
                        allocation(
                            before.request.total_size,
                            facts.file_size,
                            facts.required_size,
                        )
                    } else {
                        before.request.total_size as u64
                    },
                    type_index: after.known.type_index,
                    fd: before.request.fd,
                    dedicated: if before.request.transfer {
                        Some(before.known.image)
                    } else {
                        None
                    },
                },
            )
        },
        before.step is Allocate && reply is Handle ==> after.pending() == Some(
            ImportCall::Bind {
                image: before.known.image,
                memory: reply->Handle_0,
                offset: before.request.offset as u64,
            },
        ) && after.known.memory == reply->Handle_0,
        (before.step is Bind && reply is Done && !before.request.transfer) || (
        before.step is DestroyPool && reply is Done) ==> after.pending() == Some(
            ImportCall::Wrap {
                image: before.known.image,
                memory: before.known.memory,
                width: before.request.width,
                height: before.request.height,
                channels: if before.request.format is R8 {
                    1
                } else {
                    2
                },
            },
        ),
        before.step is Wrap && reply is Handle ==> after.step is Ready && after.known.texture
            == reply->Handle_0,
        after.request == before.request,
{
}

/// A plane that comes from another queue is taken over from it before it is wrapped: on a pool of
/// the device's own queue, by a barrier that is recorded, submitted and waited for, and the pool is
/// destroyed again.
pub proof fn law_foreign_planes_are_taken_over(
    before: PlaneImport,
    after: PlaneImport,
    reply: ImportReply,
)
    requires
        after.answered(before, reply),
        before.request.transfer,
        !(before.request.format is Other),
    ensures
        ({
            let k = before.known;
            let queue = k.facts.queue_family;
            &&& before.step is Bind && reply is Done ==> after.pending() == Some(
                ImportCall::CreatePool { queue_family: queue },
            )
            &&& before.step is CreatePool && reply is Handle ==> after.pending() == Some(
                ImportCall::AllocateCommands { pool: reply->Handle_0 },
            )
            &&& before.step is AllocateCommands && reply is Handle ==> after.pending() == Some(
                ImportCall::BeginCommands { commands: reply->Handle_0 },
            )
            &&& before.step is BeginCommands && reply is Done ==> after.pending() == Some(
                ImportCall::Barrier {
                    commands: k.commands,
                    image: k.image,
                    from: 0xFFFF_FFFE,
                    to: queue,
                },
            )
            &&& before.step is Barrier && reply is Done ==> after.pending() == Some(
                ImportCall::EndCommands { commands: k.commands },
            )
            &&& before.step is EndCommands && reply is Done ==> after.pending() == Some(
                ImportCall::Submit { commands: k.commands },
            )
            &&& before.step is Submit && reply is Done ==> after.pending() == Some(ImportCall::Wait)
            &&& before.step is Wait && reply is Done ==> after.pending() == Some(
                ImportCall::DestroyPool { pool: k.pool },
            )
        }),
{
}

/// A call that fails ends the import. What cannot be imported, or has no memory type, is told as
/// that; and a device or texture of another API as that.
pub proof fn law_failed_imports_say_why(
    before: PlaneImport,
    after: PlaneImport,
    reply: ImportReply,
)
    requires
        after.answered(before, reply),
    ensures
        before.step is OpenDevice && reply is Done && before.request.format is Other
            ==> after.step is Failed && (after.error matches Some(e) && e is Vulkan && e->Vulkan_0@
            == "unsupported format: "@ + before.request.format->Other_0@),
        (before.step is OpenDevice || before.step is Wrap) && reply is Failed
            ==> after.step is Failed && (after.error matches Some(e) && e is NotVulkan),
        before.step is CreateImage && reply is Failed ==> after.step is Failed && (
        after.error matches Some(e) && e is Vulkan && e->Vulkan_0@ == "vkCreateImage: "@
            + reply->Failed_0@),
        before.step is Bind && reply is Failed ==> after.step is Failed && (
        after.error matches Some(e) && e is Vulkan && e->Vulkan_0@ == "vkBindImageMemory: "@
            + reply->Failed_0@),
        before.step is Inspect && reply is Facts && !(exists|i: u32|
            first_type(reply->Facts_0.type_bits, reply->Facts_0.type_count, i))
            ==> after.step is Failed && (after.error matches Some(e) && e is Vulkan && e->Vulkan_0@
            == "no compatible memory type for DMA-buf import"@),
        before.step is Inspect && reply is Facts && (exists|i: u32|
            first_type(reply->Facts_0.type_bits, reply->Facts_0.type_count, i))
            ==> after.step is Allocate,
{
}

/// An import starts with nothing learned and nothing wrong.
pub proof fn law_imports_start_afresh(import: PlaneImport)
    requires
        import.begins(),
    ensures
        import.step is OpenDevice,
        import.error is None,
        import.known.image == 0 && import.known.memory == 0 && import.known.texture == 0,
{
}

/// A buffer that is cached stays as it is; one that is not is kept as what its import gave, and
/// not at all if that failed. No other buffer changes.
pub proof fn law_caching_keeps_what_was_imported<T>(
    cache: Map<i32, T>,
    fd: i32,
    other: i32,
    imported: Option<T>,
)
    requires
        other != fd,
    ensures
        cache.dom().contains(fd) ==> cached_after(cache, fd, imported) == cache,
        !cache.dom().contains(fd) && imported is Some ==> cached_after(
            cache,
            fd,
            imported,
        ).dom().contains(fd) && cached_after(cache, fd, imported)[fd] == imported->0,
        !cache.dom().contains(fd) && imported is None ==> !cached_after(
            cache,
            fd,
            imported,
        ).dom().contains(fd),
        cached_after(cache, fd, imported).dom().contains(other) <==> cache.dom().contains(other),
        cache.dom().contains(other) ==> cached_after(cache, fd, imported)[other] == cache[other],
{
}

} // verus!
