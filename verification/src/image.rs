//! Tracked-state GPU images.
//!
//! A GPU image is an owned image + view + backing memory + sampler, tagged
//! with its current usage state: the {access mask, layout, pipeline stage}
//! triple the hardware believes. The tracked state must always reflect the
//! image's true GPU-visible state; any consumer that needs a different state
//! must first transition the image, which records a barrier and updates the
//! stored triple atomically. Transitions are recorded by the device context.

use vstd::prelude::*;

verus! {

/// Access-mask bit: color-attachment reads.
pub const ACCESS_COLOR_ATTACHMENT_READ: u32 = 0x80;

/// Access-mask bit: color-attachment writes.
pub const ACCESS_COLOR_ATTACHMENT_WRITE: u32 = 0x100;

/// Access-mask bit: depth/stencil-attachment reads.
pub const ACCESS_DEPTH_STENCIL_ATTACHMENT_READ: u32 = 0x200;

/// Access-mask bit: depth/stencil-attachment writes.
pub const ACCESS_DEPTH_STENCIL_ATTACHMENT_WRITE: u32 = 0x400;

/// Access-mask bit: transfer (copy/blit) reads.
pub const ACCESS_TRANSFER_READ: u32 = 0x800;

/// Pipeline-stage bit: color-attachment output.
pub const STAGE_COLOR_ATTACHMENT_OUTPUT: u32 = 0x400;

/// Pipeline-stage bit: transfer operations.
pub const STAGE_TRANSFER: u32 = 0x1000;

/// Pipeline-stage mask covering all graphics stages.
pub const STAGE_ALL_GRAPHICS: u32 = 0x8000;

/// An image layout, as the hardware distinguishes them.
#[derive(Clone, Copy, Debug, PartialEq, Eq, Structural)]
pub enum ImageLayout {
    Undefined,
    ColorAttachmentOptimal,
    DepthStencilAttachmentOptimal,
    ShaderReadOnlyOptimal,
    TransferSrcOptimal,
    TransferDstOptimal,
    PresentSrc,
}

/// A pixel or attachment format.
#[derive(Clone, Copy, Debug, PartialEq, Eq, Structural)]
pub enum Format {
    R8g8b8a8Unorm,
    B8g8r8a8Unorm,
    D32Sfloat,
    R32g32b32Sfloat,
    R32g32Sfloat,
}

/// Image-aspect bit: color.
pub const ASPECT_COLOR: u32 = 0x1;

/// Image-aspect bit: depth.
pub const ASPECT_DEPTH: u32 = 0x2;

/// Image-usage bit: color attachment.
pub const USAGE_COLOR_ATTACHMENT: u32 = 0x10;

/// Image-usage bit: depth/stencil attachment.
pub const USAGE_DEPTH_STENCIL_ATTACHMENT: u32 = 0x20;

/// Image-usage bit: sampled in shaders.
pub const USAGE_SAMPLED: u32 = 0x4;

/// The tracked usage state of a GPU image: which accesses are visible, in
/// which layout the image sits, and after which pipeline stage the last use
/// completes.
#[derive(Clone, Copy, Debug, PartialEq, Eq, Structural)]
pub struct UsageState {
    pub access: u32,
    pub layout: ImageLayout,
    pub stage: u32,
}

/// The state in which an image serves as a render target: color-attachment
/// read/write access, color-attachment-optimal layout, color-output stage.
pub open spec fn color_target_state() -> UsageState {
    UsageState {
        access: ACCESS_COLOR_ATTACHMENT_READ | ACCESS_COLOR_ATTACHMENT_WRITE,
        layout: ImageLayout::ColorAttachmentOptimal,
        stage: STAGE_COLOR_ATTACHMENT_OUTPUT,
    }
}

/// The state in which an image serves as a depth target.
pub open spec fn depth_target_state() -> UsageState {
    UsageState {
        access: ACCESS_DEPTH_STENCIL_ATTACHMENT_READ | ACCESS_DEPTH_STENCIL_ATTACHMENT_WRITE,
        layout: ImageLayout::DepthStencilAttachmentOptimal,
        stage: STAGE_ALL_GRAPHICS,
    }
}

/// The state in which an image can be read as the source of a copy or blit.
pub open spec fn transfer_src_state() -> UsageState {
    UsageState {
        access: ACCESS_TRANSFER_READ,
        layout: ImageLayout::TransferSrcOptimal,
        stage: STAGE_TRANSFER,
    }
}

/// An owned GPU image: the four device handles that belong to it, its
/// dimensions and format, and the tracked usage state. The view covers the
/// whole image (single mip level, single array layer), so the view's
/// dimensions are the image's.
#[derive(Clone, Copy, Debug, PartialEq, Eq, Structural)]
pub struct GpuImage {
    /// Device handle of the image itself.
    pub image: u64,
    /// Device handle of the whole-image view.
    pub view: u64,
    /// Device handle of the backing memory.
    pub memory: u64,
    /// Device handle of the sampler.
    pub sampler: u64,
    /// Width of the image and of its view, in pixels.
    pub width: u32,
    /// Height of the image and of its view, in pixels.
    pub height: u32,
    pub format: Format,
    /// Aspect bits the view selects.
    pub aspect: u32,
    /// Usage bits the image was created with.
    pub usage: u32,
    /// The tracked {access, layout, stage} triple.
    pub state: UsageState,
}

/// The image after a transition to `target`: the same image, with the
/// tracked usage state set exactly to the requested target.
pub open spec fn transitioned(img: GpuImage, target: UsageState) -> GpuImage {
    GpuImage { state: target, ..img }
}

/// Transitions are idempotent: transitioning an image again to the state it
/// already holds changes nothing, and repeating a transition to the same
/// target gives the same image as performing it once. (The barrier is still
/// recorded each time; only the tracked state is at issue here.)
pub proof fn lemma_transition_idempotent(img: GpuImage, target: UsageState)
    ensures
        img.state == target ==> transitioned(img, target) == img,
        transitioned(transitioned(img, target), target) == transitioned(img, target),
{
}

} // verus!
