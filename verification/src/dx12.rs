//! Textures that Direct3D 12 shares with CUDA.

use crate::cuda::CudaInteropError;
use crate::text::joined;
use vstd::prelude::*;

verus! {

/// Pixel format of a shared texture.
#[derive(Clone, Copy, Debug, PartialEq, Eq, Structural)]
pub enum SharedFormat {
    /// One byte per pixel.
    R8,
    /// Two bytes per pixel.
    Rg8,
    /// One two-byte sample per pixel.
    R16,
    /// Two two-byte samples per pixel.
    Rg16,
    /// Anything else.
    Other,
}

impl SharedFormat {
    /// The format the resource is created with and its channels. What cannot
    /// be shared as it is, is shared as bytes.
    pub open spec fn layout(self) -> (SharedFormat, u32) {
        match self {
            SharedFormat::R8 => (SharedFormat::R8, 1),
            SharedFormat::Rg8 => (SharedFormat::Rg8, 2),
            SharedFormat::R16 => (SharedFormat::R16, 1),
            SharedFormat::Rg16 => (SharedFormat::Rg16, 2),
            SharedFormat::Other => (SharedFormat::R8, 1),
        }
    }

    /// The format the resource is created with and its channels.
    pub fn resource_layout(self) -> (layout: (SharedFormat, u32))
        ensures
            layout == self.layout(),
    {
        match self {
            SharedFormat::R8 => (SharedFormat::R8, 1),
            SharedFormat::Rg8 => (SharedFormat::Rg8, 2),
            SharedFormat::R16 => (SharedFormat::R16, 1),
            SharedFormat::Rg16 => (SharedFormat::Rg16, 2),
            SharedFormat::Other => (SharedFormat::R8, 1),
        }
    }
}

/// What CUDA made of a shared texture.
#[derive(Clone, Copy, Debug, PartialEq, Eq, Structural)]
pub struct CudaArrays {
    /// The array that decoding writes to.
    pub array: u64,
    /// The imported memory.
    pub ext_mem: u64,
    /// The array's parent.
    pub mipmapped_array: u64,
}

/// A texture that Direct3D 12 shares with CUDA.
#[derive(Clone, Copy, Debug, PartialEq, Eq, Structural)]
pub struct SharedTexture {
    /// The texture.
    pub texture: u64,
    /// What CUDA made of it.
    pub cuda: CudaArrays,
}

/// A call of a shared texture's setup, with its arguments.
#[derive(Clone, Copy, Debug, PartialEq, Eq, Structural)]
pub enum ShareCall {
    /// Open the device.
    OpenDevice,
    /// Create the resource, and find out its size in memory.
    CreateResource {
        /// Width in pixels.
        width: u64,
        /// Height in pixels.
        height: u32,
        /// Pixel format.
        format: SharedFormat,
    },
    /// Open the device again.
    ReopenDevice,
    /// Share the resource.
    ShareResource {
        /// The resource.
        resource: u64,
    },
    /// Import the shared resource into CUDA.
    ImportCuda {
        /// The shared handle.
        handle: u64,
        /// Size in memory.
        size: u64,
        /// Width in pixels.
        width: u32,
        /// Height in pixels.
        height: u32,
        /// Samples per pixel.
        channels: u32,
    },
    /// Close the shared handle.
    Close {
        /// The shared handle.
        handle: u64,
    },
    /// Wrap the resource as a texture.
    Wrap {
        /// The resource.
        resource: u64,
        /// Width in pixels.
        width: u32,
        /// Height in pixels.
        height: u32,
        /// Pixel format.
        format: SharedFormat,
    },
}

/// What came of a call.
#[derive(Clone, Debug)]
pub enum ShareReply {
    /// It worked, or did not matter.
    Done,
    /// The device is driven by another API.
    NotDx12,
    /// The resource, if one came, and its size in memory.
    Resource {
        /// The resource.
        resource: Option<u64>,
        /// Size in memory.
        size: u64,
    },
    /// It gave this handle.
    Handle(u64),
    /// What CUDA made of it.
    Imported(CudaArrays),
    /// The call failed, with this reason.
    Refused(String),
    /// CUDA failed, with this error.
    CudaFailed(CudaInteropError),
}

/// How far sharing a texture has come.
#[derive(Clone, Debug)]
pub enum ShareStage {
    /// The device has to be opened.
    OpenDevice,
    /// The resource has to be created.
    CreateResource,
    /// The device has to be opened again.
    ReopenDevice {
        /// The resource.
        resource: u64,
        /// Size in memory.
        size: u64,
    },
    /// The resource has to be shared.
    ShareResource {
        /// The resource.
        resource: u64,
        /// Size in memory.
        size: u64,
    },
    /// It has to be imported into CUDA.
    ImportCuda {
        /// The resource.
        resource: u64,
        /// Size in memory.
        size: u64,
        /// The shared handle.
        handle: u64,
    },
    /// The shared handle has to be closed.
    Close {
        /// The resource.
        resource: u64,
        /// What CUDA made of it.
        cuda: CudaArrays,
        /// The shared handle.
        handle: u64,
    },
    /// The resource has to be wrapped.
    Wrap {
        /// The resource.
        resource: u64,
        /// What CUDA made of it.
        cuda: CudaArrays,
    },
    /// The texture is there.
    Ready(SharedTexture),
    /// A call failed.
    Failed(CudaInteropError),
}

/// The setup of a shared texture.
#[derive(Clone, Debug)]
pub struct ShareSetup {
    /// Width in pixels.
    pub width: u32,
    /// Height in pixels.
    pub height: u32,
    /// Pixel format.
    pub format: SharedFormat,
    /// How far it has come.
    pub stage: ShareStage,
}

/// The graphics side failed with this text.
pub open spec fn graphics_error(stage: ShareStage, text: Seq<char>) -> bool {
    stage matches ShareStage::Failed(CudaInteropError::VulkanError(e)) && e@ == text
}

/// Whether `next` is the stage that follows `stage` on a reply.
pub open spec fn share_step(stage: ShareStage, reply: ShareReply, next: ShareStage) -> bool {
    match (stage, reply) {
        (ShareStage::OpenDevice, ShareReply::Done) => next == ShareStage::CreateResource,
        (ShareStage::OpenDevice, ShareReply::NotDx12) => next == ShareStage::Failed(
            CudaInteropError::NotVulkan,
        ),
        (ShareStage::CreateResource, ShareReply::Resource { resource, size }) => match resource {
            Some(r) => next == (ShareStage::ReopenDevice { resource: r, size }),
            None => graphics_error(next, "CreateCommittedResource returned None"@),
        },
        (ShareStage::CreateResource, ShareReply::Refused(e)) => graphics_error(
            next,
            "DX12 CreateCommittedResource: "@ + e@,
        ),
        (ShareStage::ReopenDevice { resource, size }, ShareReply::Done) => next == (
        ShareStage::ShareResource { resource, size }),
        (ShareStage::ReopenDevice { .. }, ShareReply::NotDx12) => next == ShareStage::Failed(
            CudaInteropError::NotVulkan,
        ),
        (ShareStage::ShareResource { resource, size }, ShareReply::Handle(handle)) => next == (
        ShareStage::ImportCuda { resource, size, handle }),
        (ShareStage::ShareResource { .. }, ShareReply::Refused(e)) => graphics_error(
            next,
            "DX12 CreateSharedHandle: "@ + e@,
        ),
        (ShareStage::ImportCuda { resource, handle, .. }, ShareReply::Imported(cuda)) => next == (
        ShareStage::Close { resource, cuda, handle }),
        (ShareStage::ImportCuda { .. }, ShareReply::CudaFailed(e)) => next == ShareStage::Failed(e),
        (ShareStage::Close { resource, cuda, .. }, ShareReply::Done) => next == (
        ShareStage::Wrap { resource, cuda }),
        (ShareStage::Wrap { cuda, .. }, ShareReply::Handle(texture)) => next == ShareStage::Ready(
            SharedTexture { texture, cuda },
        ),
        _ => next == stage,
    }
}

impl ShareSetup {
    /// The call to make next, until the texture is there or a call has failed.
    pub open spec fn pending(self) -> Option<ShareCall> {
        match self.stage {
            ShareStage::OpenDevice => Some(ShareCall::OpenDevice),
            ShareStage::CreateResource => Some(
                ShareCall::CreateResource {
                    width: self.width as u64,
                    height: self.height,
                    format: self.format.layout().0,
                },
            ),
            ShareStage::ReopenDevice { .. } => Some(ShareCall::ReopenDevice),
            ShareStage::ShareResource { resource, .. } => Some(
                ShareCall::ShareResource { resource },
            ),
            ShareStage::ImportCuda { size, handle, .. } => Some(
                ShareCall::ImportCuda {
                    handle,
                    size,
                    width: self.width,
                    height: self.height,
                    channels: self.format.layout().1,
                },
            ),
            ShareStage::Close { handle, .. } => Some(ShareCall::Close { handle }),
            ShareStage::Wrap { resource, .. } => Some(
                ShareCall::Wrap {
                    resource,
                    width: self.width,
                    height: self.height,
                    format: self.format,
                },
            ),
            _ => None,
        }
    }

    /// The call to make next, until the texture is there or a call has failed.
    pub fn next_call(&self) -> (call: Option<ShareCall>)
        ensures
            call == self.pending(),
    {
        match &self.stage {
            ShareStage::OpenDevice => Some(ShareCall::OpenDevice),
            ShareStage::CreateResource => Some(
                ShareCall::CreateResource {
                    width: self.width as u64,
                    height: self.height,
                    format: self.format.resource_layout().0,
                },
            ),
            ShareStage::ReopenDevice { .. } => Some(ShareCall::ReopenDevice),
            ShareStage::ShareResource { resource, .. } => Some(
                ShareCall::ShareResource { resource: *resource },
            ),
            ShareStage::ImportCuda { size, handle, .. } => Some(
                ShareCall::ImportCuda {
                    handle: *handle,
                    size: *size,
                    width: self.width,
                    height: self.height,
                    channels: self.format.resource_layout().1,
                },
            ),
            ShareStage::Close { handle, .. } => Some(ShareCall::Close { handle: *handle }),
            ShareStage::Wrap { resource, .. } => Some(
                ShareCall::Wrap {
                    resource: *resource,
                    width: self.width,
                    height: self.height,
                    format: self.format,
                },
            ),
            ShareStage::Ready(_) => None,
            ShareStage::Failed(_) => None,
        }
    }

    /// Take what came of the pending call. A reply that the call cannot have
    /// changes nothing.
    pub fn reply(&mut self, reply: ShareReply)
        ensures
            final(self).width == old(self).width,
            final(self).height == old(self).height,
            final(self).format == old(self).format,
            share_step(old(self).stage, reply, final(self).stage),
    {
        let next: Option<ShareStage> = match (&self.stage, reply) {
            (ShareStage::OpenDevice, ShareReply::Done) => Some(ShareStage::CreateResource),
            (ShareStage::OpenDevice, ShareReply::NotDx12) => Some(
                ShareStage::Failed(CudaInteropError::NotVulkan),
            ),
            (ShareStage::CreateResource, ShareReply::Resource { resource, size }) => {
                match resource {
                    Some(r) => Some(ShareStage::ReopenDevice { resource: r, size }),
                    None => Some(
                        ShareStage::Failed(
                            CudaInteropError::VulkanError(
                                "CreateCommittedResource returned None".to_owned(),
                            ),
                        ),
                    ),
                }
            },
            (ShareStage::CreateResource, ShareReply::Refused(e)) => Some(
                ShareStage::Failed(
                    CudaInteropError::VulkanError(
                        joined("DX12 CreateCommittedResource: ", e.as_str()),
                    ),
                ),
            ),
            (ShareStage::ReopenDevice { resource, size }, ShareReply::Done) => Some(
                ShareStage::ShareResource { resource: *resource, size: *size },
            ),
            (ShareStage::ReopenDevice { .. }, ShareReply::NotDx12) => Some(
                ShareStage::Failed(CudaInteropError::NotVulkan),
            ),
            (ShareStage::ShareResource { resource, size }, ShareReply::Handle(handle)) => Some(
                ShareStage::ImportCuda { resource: *resource, size: *size, handle },
            ),
            (ShareStage::ShareResource { .. }, ShareReply::Refused(e)) => Some(
                ShareStage::Failed(
                    CudaInteropError::VulkanError(joined("DX12 CreateSharedHandle: ", e.as_str())),
                ),
            ),
            (ShareStage::ImportCuda { resource, handle, .. }, ShareReply::Imported(cuda)) => Some(
                ShareStage::Close { resource: *resource, cuda, handle: *handle },
            ),
            (ShareStage::ImportCuda { .. }, ShareReply::CudaFailed(e)) => Some(
                ShareStage::Failed(e),
            ),
            (ShareStage::Close { resource, cuda, .. }, ShareReply::Done) => Some(
                ShareStage::Wrap { resource: *resource, cuda: *cuda },
            ),
            (ShareStage::Wrap { cuda, .. }, ShareReply::Handle(texture)) => Some(
                ShareStage::Ready(SharedTexture { texture, cuda: *cuda }),
            ),
            _ => None,
        };
        if let Some(stage) = next {
            self.stage = stage;
        }
    }
}

/// Start creating a texture that is shared with CUDA.
pub fn create_shared_texture(width: u32, height: u32, format: SharedFormat) -> (setup: ShareSetup)
    ensures
        setup == (ShareSetup { width, height, format, stage: ShareStage::OpenDevice }),
{
    ShareSetup { width, height, format, stage: ShareStage::OpenDevice }
}

/// Stages until the texture is there.
pub open spec fn stages_left(stage: ShareStage) -> nat {
    match stage {
        ShareStage::OpenDevice => 7,
        ShareStage::CreateResource => 6,
        ShareStage::ReopenDevice { .. } => 5,
        ShareStage::ShareResource { .. } => 4,
        ShareStage::ImportCuda { .. } => 3,
        ShareStage::Close { .. } => 2,
        ShareStage::Wrap { .. } => 1,
        _ => 0,
    }
}

/// Every reply changes nothing, ends the setup with an error, or brings it one
/// call closer to the texture.
pub proof fn law_sharing_ends(stage: ShareStage, reply: ShareReply, next: ShareStage)
    requires
        share_step(stage, reply, next),
    ensures
        next == stage || next is Failed || stages_left(next) + 1 == stages_left(stage),
{
}

/// What has to be destroyed when a shared texture is let go, in this order.
#[derive(Clone, Copy, Debug, PartialEq, Eq, Structural)]
pub enum Teardown {
    /// Destroy the array's parent.
    MipmappedArray(u64),
    /// Destroy the imported memory.
    ExternalMemory(u64),
}

impl SharedTexture {
    /// What has to be destroyed, in order: the arrays go before the memory
    /// they show. What was never made is left out.
    pub fn teardown(&self) -> (steps: Vec<Teardown>)
        ensures
            steps@ == (if self.cuda.mipmapped_array != 0 {
                seq![Teardown::MipmappedArray(self.cuda.mipmapped_array)]
            } else {
                seq![]
            }) + (if self.cuda.ext_mem != 0 {
                seq![Teardown::ExternalMemory(self.cuda.ext_mem)]
            } else {
                seq![]
            }),
    {
        let mut steps: Vec<Teardown> = Vec::new();
        if self.cuda.mipmapped_array != 0 {
            steps.push(Teardown::MipmappedArray(self.cuda.mipmapped_array));
        }
        if self.cuda.ext_mem != 0 {
            steps.push(Teardown::ExternalMemory(self.cuda.ext_mem));
        }
        assert(steps@ =~= (if self.cuda.mipmapped_array != 0 {
            seq![Teardown::MipmappedArray(self.cuda.mipmapped_array)]
        } else {
            seq![]
        }) + (if self.cuda.ext_mem != 0 {
            seq![Teardown::ExternalMemory(self.cuda.ext_mem)]
        } else {
            seq![]
        }));
        steps
    }
}

/// The calls of sharing a texture, in their order, each with what the calls before it gave: the
/// resource and its size, the shared handle, and what CUDA made of it. The handle is closed again
/// and the texture wrapped in the size and format asked for.
pub proof fn law_sharing_calls_carry_what_was_learned(
    setup: ShareSetup,
    resource: u64,
    size: u64,
    handle: u64,
    cuda: CudaArrays,
    texture: u64,
    stages: Seq<ShareStage>,
)
    requires
        setup.stage is OpenDevice,
        stages.len() == 7,
        share_step(setup.stage, ShareReply::Done, stages[0]),
        share_step(
            stages[0],
            ShareReply::Resource { resource: Some(resource), size },
            stages[1],
        ),
        share_step(stages[1], ShareReply::Done, stages[2]),
        share_step(stages[2], ShareReply::Handle(handle), stages[3]),
        share_step(stages[3], ShareReply::Imported(cuda), stages[4]),
        share_step(stages[4], ShareReply::Done, stages[5]),
        share_step(stages[5], ShareReply::Handle(texture), stages[6]),
    ensures
        ({
            let at = |k: int| (ShareSetup { stage: stages[k], ..setup }).pending();
            &&& setup.pending() == Some(ShareCall::OpenDevice)
            &&& at(0) == Some(
                ShareCall::CreateResource {
                    width: setup.width as u64,
                    height: setup.height,
                    format: if setup.format is Other {
                        SharedFormat::R8
                    } else {
                        setup.format
                    },
                },
            )
            &&& at(1) == Some(ShareCall::ReopenDevice)
            &&& at(2) == Some(ShareCall::ShareResource { resource })
            &&& at(3) == Some(
                ShareCall::ImportCuda {
                    handle,
                    size,
                    width: setup.width,
                    height: setup.height,
                    channels: if setup.format is Rg8 || setup.format is Rg16 {
                        2
                    } else {
                        1
                    },
                },
            )
            &&& at(4) == Some(ShareCall::Close { handle })
            &&& at(5) == Some(
                ShareCall::Wrap {
                    resource,
                    width: setup.width,
                    height: setup.height,
                    format: setup.format,
                },
            )
            &&& at(6) is None
            &&& stages[6] == ShareStage::Ready(SharedTexture { texture, cuda })
        }),
{
}

/// A device of another API, a resource that does not come, a call that is refused and a failure
/// of CUDA each end the sharing, and are told as what they are.
pub proof fn law_sharing_failures_are_told(
    resource: u64,
    size: u64,
    handle: u64,
    reason: String,
    error: CudaInteropError,
    next: ShareStage,
)
    ensures
        share_step(ShareStage::OpenDevice, ShareReply::NotDx12, next) ==> next
            == ShareStage::Failed(CudaInteropError::NotVulkan),
        share_step(ShareStage::ReopenDevice { resource, size }, ShareReply::NotDx12, next) ==> next
            == ShareStage::Failed(CudaInteropError::NotVulkan),
        share_step(
            ShareStage::CreateResource,
            ShareReply::Resource { resource: None, size },
            next,
        ) ==> next is Failed && next->Failed_0 is VulkanError && next->Failed_0->VulkanError_0@
            == "CreateCommittedResource returned None"@,
        share_step(ShareStage::CreateResource, ShareReply::Refused(reason), next)
            ==> next is Failed && next->Failed_0 is VulkanError && next->Failed_0->VulkanError_0@
            == "DX12 CreateCommittedResource: "@ + reason@,
        share_step(
            ShareStage::ShareResource { resource, size },
            ShareReply::Refused(reason),
            next,
        ) ==> next is Failed && next->Failed_0 is VulkanError && next->Failed_0->VulkanError_0@
            == "DX12 CreateSharedHandle: "@ + reason@,
        share_step(
            ShareStage::ImportCuda { resource, size, handle },
            ShareReply::CudaFailed(error),
            next,
        ) ==> next == ShareStage::Failed(error),
{
}

} // verus!
