//! Error taxonomy of the renderer core.
//!
//! Every boundary call into the graphics API is treated as an invariant that
//! must hold, so most device-level failures abort the program in the driving
//! application. The errors modelled here are the ones the core itself
//! decides: rejected shader bytecode, an exhausted descriptor pool, and a
//! teardown attempted after the device context was already given up.

use vstd::prelude::*;

verus! {

/// A failure decided by the renderer core itself.
#[derive(Clone, Copy, Debug, PartialEq, Eq, Structural)]
pub enum RenderError {
    /// Shader bytecode was absent or malformed.
    ShaderLoadFailure,
    /// A descriptor-set allocation exceeded the pool's configured capacity.
    DescriptorPoolExhausted,
    /// A stage teardown ran after its device context was already released,
    /// so destroying the resources would touch a dangling device.
    DanglingDeviceContext,
}

/// The kind of one device-owned resource, as recorded in the device
/// context's destruction log. Teardown order is part of each stage's
/// contract and is stated over sequences of these.
#[derive(Clone, Copy, Debug, PartialEq, Eq, Structural)]
pub enum ResourceKind {
    Buffer,
    Memory,
    Image,
    ImageView,
    Sampler,
    ShaderModule,
    Framebuffer,
    Pipeline,
    PipelineLayout,
    DescriptorSetLayout,
    DescriptorPool,
    RenderPass,
    Swapchain,
}

} // verus!
