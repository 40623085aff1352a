//! The presentation stage: owns the screen surface and its presentable
//! image, and each frame copies the offscreen stage's color image onto it,
//! then presents. The render target is transitioned to a transfer source
//! before the copy and handed back in its renderable color-attachment state
//! for the next frame.

use crate::command::{barrier, Command, CommandBuffer};
use crate::device::DeviceContext;
use crate::error::{RenderError, ResourceKind};
use crate::image::{
    color_target_state, transfer_src_state, transitioned, Format, GpuImage, ImageLayout,
    ACCESS_COLOR_ATTACHMENT_READ, ACCESS_COLOR_ATTACHMENT_WRITE, ACCESS_TRANSFER_READ,
    STAGE_COLOR_ATTACHMENT_OUTPUT, STAGE_TRANSFER,
};
use vstd::prelude::*;

verus! {

/// What presentation teardown releases: the swapchain with its presentable
/// images.
pub open spec fn present_teardown_order() -> Seq<ResourceKind> {
    seq![ResourceKind::Swapchain]
}

/// The presentation stage.
pub struct PresentPass {
    /// Format of the presentable surface images.
    pub surface_format: Format,
    /// Handle of the presentable image the render target is copied onto.
    pub swapchain_image: u64,
    /// Command buffer the copy is recorded into each frame.
    pub commandbuffer: CommandBuffer,
    /// Frames presented so far.
    pub frames_presented: u64,
}

impl PresentPass {
    /// The stage's invariant: between presentations its command buffer is
    /// closed.
    pub open spec fn wf(&self) -> bool {
        !self.commandbuffer.recording
    }

    /// Initializes the presentation stage against the device context: the
    /// surface with its presentable image and the copy command buffer. The
    /// stage takes one shared reference to the device, released again at
    /// teardown.
    pub fn init(dev: &mut DeviceContext) -> (pp: PresentPass)
        requires
            old(dev).alive,
            old(dev).next_handle + 2 <= u64::MAX,
            old(dev).live_allocations + 2 <= u64::MAX,
            old(dev).refs < u64::MAX,
        ensures
            *final(dev) == (DeviceContext {
                refs: (old(dev).refs + 1) as u64,
                next_handle: (old(dev).next_handle + 2) as u64,
                live_allocations: (old(dev).live_allocations + 2) as u64,
                ..*old(dev)
            }),
            pp.wf(),
            pp.surface_format == Format::B8g8r8a8Unorm,
            pp.swapchain_image == old(dev).next_handle,
            pp.commandbuffer.handle == old(dev).next_handle + 1,
            pp.commandbuffer.commands@ == Seq::<Command>::empty(),
            pp.frames_presented == 0,
    {
        let swapchain_image = dev.fresh_handle();
        let commandbuffer = dev.create_commandbuffer();
        dev.retain();
        PresentPass {
            surface_format: Format::B8g8r8a8Unorm,
            swapchain_image,
            commandbuffer,
            frames_presented: 0,
        }
    }

    /// Presents the rendered image: records a barrier making it a transfer
    /// source, copies its full extent onto the presentable image, hands it
    /// back in its renderable color-attachment state, submits the copy and
    /// presents. Control returns once the copy is issued.
    pub fn present_image(&mut self, dev: &mut DeviceContext, image: &mut GpuImage)
        requires
            old(self).wf(),
            old(dev).alive,
            old(dev).submissions < u64::MAX,
            old(self).frames_presented < u64::MAX,
        ensures
            final(self).wf(),
            *final(image) == transitioned(*old(image), color_target_state()),
            *final(self) == (PresentPass {
                commandbuffer: final(self).commandbuffer,
                frames_presented: (old(self).frames_presented + 1) as u64,
                ..*old(self)
            }),
            final(self).commandbuffer.handle == old(self).commandbuffer.handle,
            final(self).commandbuffer.commands@ == seq![
                barrier(old(image).image, old(image).state, transfer_src_state()),
                Command::CopyImage {
                    src: old(image).image,
                    dst: old(self).swapchain_image,
                    width: old(image).width,
                    height: old(image).height,
                },
                barrier(old(image).image, transfer_src_state(), color_target_state()),
            ],
            *final(dev) == (DeviceContext {
                submissions: (old(dev).submissions + 1) as u64,
                ..*old(dev)
            }),
    {
        self.commandbuffer.begin();

        // The render target must be readable by the copy engine first.
        dev.transition_texture(
            image,
            ACCESS_TRANSFER_READ,
            ImageLayout::TransferSrcOptimal,
            STAGE_TRANSFER,
            &mut self.commandbuffer,
        );

        self.commandbuffer.record(
            Command::CopyImage {
                src: image.image,
                dst: self.swapchain_image,
                width: image.width,
                height: image.height,
            },
        );

        // Hand the image back in its renderable state for the next frame.
        dev.transition_texture(
            image,
            ACCESS_COLOR_ATTACHMENT_READ | ACCESS_COLOR_ATTACHMENT_WRITE,
            ImageLayout::ColorAttachmentOptimal,
            STAGE_COLOR_ATTACHMENT_OUTPUT,
            &mut self.commandbuffer,
        );

        self.commandbuffer.end();
        dev.submit(&self.commandbuffer);
        self.frames_presented = self.frames_presented + 1;
    }

    /// Tears the presentation stage down: waits for the device to go idle,
    /// releases the swapchain, and gives up the stage's device reference.
    /// As with the offscreen stage, the device context must still be held
    /// elsewhere; otherwise nothing is destroyed and the stage is handed
    /// back with `DanglingDeviceContext`.
    pub fn try_teardown(self, dev: &mut DeviceContext) -> (r: Result<
        (),
        (PresentPass, RenderError),
    >)
        requires
            old(dev).alive,
            old(dev).refs >= 1,
            old(dev).live_allocations >= 1,
            old(dev).idle_waits < u64::MAX,
        ensures
            r is Ok <==> old(dev).refs >= 2,
            r matches Err(p) ==> {
                &&& p.0 == self
                &&& p.1 == RenderError::DanglingDeviceContext
                &&& *final(dev) == *old(dev)
            },
            r is Ok ==> {
                &&& *final(dev) == (DeviceContext {
                    refs: (old(dev).refs - 1) as u64,
                    live_allocations: (old(dev).live_allocations - 1) as u64,
                    idle_waits: (old(dev).idle_waits + 1) as u64,
                    destruction_log: final(dev).destruction_log,
                    ..*old(dev)
                })
                &&& final(dev).destruction_log@ == old(dev).destruction_log@
                    + present_teardown_order()
            },
    {
        if dev.refs < 2 {
            return Err((self, RenderError::DanglingDeviceContext));
        }
        dev.wait_idle();
        dev.destroy_resource(ResourceKind::Swapchain);
        dev.release_ref();
        proof {
            assert(dev.destruction_log@ =~= old(dev).destruction_log@ + present_teardown_order());
        }
        Ok(())
    }
}

} // verus!
