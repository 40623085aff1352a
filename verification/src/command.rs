//! Command buffers and the commands recorded into them.
//!
//! A command buffer is modelled as its recording flag plus the exact
//! sequence of commands recorded since it was last begun. Beginning a buffer
//! implicitly resets it, as the device's command pool allows; recording must
//! be strictly paired: a buffer may not be begun twice without being ended
//! in between.

use crate::image::UsageState;
use crate::pipeline::{Rect2d, Viewport};
use vstd::prelude::*;

verus! {

/// One recorded command.
#[derive(Clone, Copy, Debug, PartialEq, Eq, Structural)]
pub enum Command {
    /// A pipeline barrier transitioning the image with the given handle
    /// from one usage state to another.
    PipelineBarrier { image: u64, from: UsageState, to: UsageState },
    /// Begins the render pass over the given framebuffer, clearing both
    /// attachments (depth cleared to its far value).
    BeginRenderPass { render_pass: u64, framebuffer: u64 },
    /// Ends the current render pass.
    EndRenderPass,
    /// Binds descriptor sets starting at the given set index.
    BindDescriptorSets { first_set: u32, set_count: u32 },
    /// Binds the graphics pipeline.
    BindPipeline { pipeline: u64 },
    /// Sets the dynamic viewport.
    SetViewport { viewport: Viewport },
    /// Sets the dynamic scissor rectangle.
    SetScissor { scissor: Rect2d },
    /// Draws `vertex_count` vertices in one instance.
    Draw { vertex_count: u32 },
    /// Copies the full extent of one image into another.
    CopyImage { src: u64, dst: u64, width: u32, height: u32 },
}

/// The barrier command that moves the image with handle `image` from state
/// `from` to state `to`.
pub open spec fn barrier(image: u64, from: UsageState, to: UsageState) -> Command {
    Command::PipelineBarrier { image, from, to }
}

/// A command buffer: a device handle, whether it is currently recording,
/// and the commands recorded since it was last begun.
#[derive(Clone, Debug, PartialEq, Eq)]
pub struct CommandBuffer {
    /// Device handle of the command buffer.
    pub handle: u64,
    /// Whether recording has begun and not yet ended.
    pub recording: bool,
    /// The commands recorded since the last begin.
    pub commands: Vec<Command>,
}

impl CommandBuffer {
    /// Begins recording, resetting the buffer's contents. The buffer must
    /// not already be recording.
    pub fn begin(&mut self)
        requires
            !old(self).recording,
        ensures
            *final(self) == (CommandBuffer {
                recording: true,
                commands: final(self).commands,
                ..*old(self)
            }),
            final(self).commands@ == Seq::<Command>::empty(),
    {
        self.recording = true;
        self.commands = Vec::new();
        proof {
            assert(self.commands@ =~= Seq::<Command>::empty());
        }
    }

    /// Ends recording, keeping the recorded commands. The buffer must be
    /// recording.
    pub fn end(&mut self)
        requires
            old(self).recording,
        ensures
            *final(self) == (CommandBuffer { recording: false, ..*old(self) }),
    {
        self.recording = false;
    }

    /// Records one command. The buffer must be recording.
    pub fn record(&mut self, cmd: Command)
        requires
            old(self).recording,
        ensures
            *final(self) == (CommandBuffer { commands: final(self).commands, ..*old(self) }),
            final(self).commands@ == old(self).commands@.push(cmd),
    {
        self.commands.push(cmd);
    }
}

} // verus!
