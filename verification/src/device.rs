//! The device context: single source of truth for device-level handles and
//! a factory for GPU images, buffers, command buffers and shader modules.
//!
//! The context is constructed once, shared by reference by every other
//! component, and destroyed last; its reference count models the shared
//! ownership, and every dependent stage holds one reference until its own
//! teardown. Device objects are modelled by fresh handles drawn from a
//! counter, and the context keeps a log of destroyed resources so that
//! teardown order is part of each stage's contract.

use crate::command::{barrier, Command, CommandBuffer};
use crate::error::{RenderError, ResourceKind};
use crate::image::{transitioned, Format, GpuImage, ImageLayout, UsageState};
use vstd::prelude::*;

verus! {

/// Buffer-usage bit: uniform buffer.
pub const BUFFER_USAGE_UNIFORM: u32 = 0x10;

/// Memory-property bit: host-visible.
pub const MEMORY_HOST_VISIBLE: u32 = 0x2;

/// Memory-property bit: host-coherent.
pub const MEMORY_HOST_COHERENT: u32 = 0x4;

/// A buffer with its backing memory.
#[derive(Clone, Copy, Debug, PartialEq, Eq, Structural)]
pub struct GpuBuffer {
    /// Device handle of the buffer.
    pub buffer: u64,
    /// Device handle of the backing memory.
    pub memory: u64,
    /// Usage bits the buffer was created with.
    pub usage: u32,
    /// Memory-property bits of the backing memory.
    pub memory_properties: u32,
    /// Size of the buffer, in bytes.
    pub size: u64,
}

/// A compiled shader module.
#[derive(Clone, Copy, Debug, PartialEq, Eq, Structural)]
pub struct ShaderModule {
    /// Device handle of the module.
    pub handle: u64,
    /// Number of bytecode words the module was built from.
    pub word_count: usize,
}

/// Valid shader bytecode: at least the five-word header, whole words only,
/// and the bytecode magic number in the first word (little-endian).
pub open spec fn valid_spirv(bytes: Seq<u8>) -> bool {
    &&& bytes.len() >= 20
    &&& bytes.len() % 4 == 0
    &&& bytes[0] == 0x03u8
    &&& bytes[1] == 0x02u8
    &&& bytes[2] == 0x23u8
    &&& bytes[3] == 0x07u8
}

/// Checks shader bytecode for the shape `valid_spirv` states.
pub fn spirv_ok(bytes: &Vec<u8>) -> (b: bool)
    ensures
        b == valid_spirv(bytes@),
{
    if bytes.len() < 20 {
        return false;
    }
    if bytes.len() % 4 != 0 {
        return false;
    }
    *bytes.get(0).unwrap() == 0x03u8 && *bytes.get(1).unwrap() == 0x02u8 && *bytes.get(2).unwrap()
        == 0x23u8 && *bytes.get(3).unwrap() == 0x07u8
}

/// The logical device, its graphics queue and its command pool, with the
/// bookkeeping that the resource-lifetime contracts are stated over.
pub struct DeviceContext {
    /// Whether the device has not yet been destroyed.
    pub alive: bool,
    /// Shared-reference count: the owner plus every stage holding the
    /// context. The device may be destroyed only when the owner's reference
    /// is the last one.
    pub refs: u64,
    /// Source of fresh device handles.
    pub next_handle: u64,
    /// Device objects currently allocated and not yet destroyed.
    pub live_allocations: u64,
    /// Command-buffer submissions made to the graphics queue.
    pub submissions: u64,
    /// Times the device was made to wait until idle.
    pub idle_waits: u64,
    /// Every destroyed resource, in destruction order.
    pub destruction_log: Vec<ResourceKind>,
}

impl DeviceContext {
    /// Creates the device context: one live device, owned by a single
    /// reference, with nothing allocated yet.
    pub fn new() -> (dc: Self)
        ensures
            dc.alive,
            dc.refs == 1,
            dc.next_handle == 1,
            dc.live_allocations == 0,
            dc.submissions == 0,
            dc.idle_waits == 0,
            dc.destruction_log@ == Seq::<ResourceKind>::empty(),
    {
        let dc = DeviceContext {
            alive: true,
            refs: 1,
            next_handle: 1,
            live_allocations: 0,
            submissions: 0,
            idle_waits: 0,
            destruction_log: Vec::new(),
        };
        proof {
            assert(dc.destruction_log@ =~= Seq::<ResourceKind>::empty());
        }
        dc
    }

    /// Takes one more shared reference to the device.
    pub fn retain(&mut self)
        requires
            old(self).alive,
            old(self).refs < u64::MAX,
        ensures
            *final(self) == (DeviceContext { refs: (old(self).refs + 1) as u64, ..*old(self) }),
    {
        self.refs = self.refs + 1;
    }

    /// Gives up one shared reference to the device.
    pub fn release_ref(&mut self)
        requires
            old(self).refs >= 1,
        ensures
            *final(self) == (DeviceContext { refs: (old(self).refs - 1) as u64, ..*old(self) }),
    {
        self.refs = self.refs - 1;
    }

    /// Blocks until the device has finished all submitted work.
    pub fn wait_idle(&mut self)
        requires
            old(self).alive,
            old(self).idle_waits < u64::MAX,
        ensures
            *final(self) == (DeviceContext {
                idle_waits: (old(self).idle_waits + 1) as u64,
                ..*old(self)
            }),
    {
        self.idle_waits = self.idle_waits + 1;
    }

    /// Registers one newly created device object — a render pass, pipeline,
    /// descriptor pool or the like — and returns its fresh handle.
    pub fn fresh_handle(&mut self) -> (h: u64)
        requires
            old(self).alive,
            old(self).next_handle < u64::MAX,
            old(self).live_allocations < u64::MAX,
        ensures
            *final(self) == (DeviceContext {
                next_handle: (old(self).next_handle + 1) as u64,
                live_allocations: (old(self).live_allocations + 1) as u64,
                ..*old(self)
            }),
            h == old(self).next_handle,
    {
        let h = self.next_handle;
        self.next_handle = self.next_handle + 1;
        self.live_allocations = self.live_allocations + 1;
        h
    }

    /// Destroys one device-owned resource of the given kind, appending it to
    /// the destruction log.
    pub fn destroy_resource(&mut self, kind: ResourceKind)
        requires
            old(self).alive,
            old(self).live_allocations >= 1,
        ensures
            *final(self) == (DeviceContext {
                live_allocations: (old(self).live_allocations - 1) as u64,
                destruction_log: final(self).destruction_log,
                ..*old(self)
            }),
            final(self).destruction_log@ == old(self).destruction_log@.push(kind),
    {
        self.live_allocations = self.live_allocations - 1;
        self.destruction_log.push(kind);
    }

    /// Destroys a shader module, appending it to the destruction log.
    pub fn destroy_shader_module(&mut self, module: ShaderModule)
        requires
            old(self).alive,
            old(self).live_allocations >= 1,
        ensures
            *final(self) == (DeviceContext {
                live_allocations: (old(self).live_allocations - 1) as u64,
                destruction_log: final(self).destruction_log,
                ..*old(self)
            }),
            final(self).destruction_log@ == old(self).destruction_log@.push(
                ResourceKind::ShaderModule,
            ),
    {
        let _ = module;
        self.destroy_resource(ResourceKind::ShaderModule);
    }

    /// Destroys the device itself. The device must be alive and the caller's
    /// reference must be the last one; the device waits until idle first.
    pub fn destroy(&mut self)
        requires
            old(self).alive,
            old(self).refs == 1,
            old(self).idle_waits < u64::MAX,
        ensures
            *final(self) == (DeviceContext {
                alive: false,
                refs: 0,
                idle_waits: (old(self).idle_waits + 1) as u64,
                ..*old(self)
            }),
    {
        self.idle_waits = self.idle_waits + 1;
        self.alive = false;
        self.refs = 0;
    }

    /// Creates a GPU image with a whole-image view, backing memory and a
    /// sampler, its tracked usage state seeded to the given initial state.
    /// The view's dimensions equal the requested size.
    pub fn create_texture(
        &mut self,
        width: u32,
        height: u32,
        format: Format,
        aspect: u32,
        usage: u32,
        initial_access: u32,
        initial_layout: ImageLayout,
        initial_stage: u32,
    ) -> (img: GpuImage)
        requires
            old(self).alive,
            old(self).next_handle + 4 <= u64::MAX,
            old(self).live_allocations + 4 <= u64::MAX,
        ensures
            *final(self) == (DeviceContext {
                next_handle: (old(self).next_handle + 4) as u64,
                live_allocations: (old(self).live_allocations + 4) as u64,
                ..*old(self)
            }),
            img == (GpuImage {
                image: old(self).next_handle,
                view: (old(self).next_handle + 1) as u64,
                memory: (old(self).next_handle + 2) as u64,
                sampler: (old(self).next_handle + 3) as u64,
                width,
                height,
                format,
                aspect,
                usage,
                state: (UsageState {
                    access: initial_access,
                    layout: initial_layout,
                    stage: initial_stage,
                }),
            }),
    {
        let img = GpuImage {
            image: self.next_handle,
            view: self.next_handle + 1,
            memory: self.next_handle + 2,
            sampler: self.next_handle + 3,
            width,
            height,
            format,
            aspect,
            usage,
            state: UsageState { access: initial_access, layout: initial_layout, stage: initial_stage },
        };
        self.next_handle = self.next_handle + 4;
        self.live_allocations = self.live_allocations + 4;
        img
    }

    /// Creates a buffer with backing memory of the given size and
    /// properties.
    pub fn create_buffer(&mut self, usage: u32, memory_properties: u32, size: u64) -> (buf:
        GpuBuffer)
        requires
            old(self).alive,
            old(self).next_handle + 2 <= u64::MAX,
            old(self).live_allocations + 2 <= u64::MAX,
        ensures
            *final(self) == (DeviceContext {
                next_handle: (old(self).next_handle + 2) as u64,
                live_allocations: (old(self).live_allocations + 2) as u64,
                ..*old(self)
            }),
            buf == (GpuBuffer {
                buffer: old(self).next_handle,
                memory: (old(self).next_handle + 1) as u64,
                usage,
                memory_properties,
                size,
            }),
    {
        let buf = GpuBuffer {
            buffer: self.next_handle,
            memory: self.next_handle + 1,
            usage,
            memory_properties,
            size,
        };
        self.next_handle = self.next_handle + 2;
        self.live_allocations = self.live_allocations + 2;
        buf
    }

    /// Allocates one primary command buffer from the command pool, not yet
    /// recording.
    pub fn create_commandbuffer(&mut self) -> (cb: CommandBuffer)
        requires
            old(self).alive,
            old(self).next_handle + 1 <= u64::MAX,
            old(self).live_allocations + 1 <= u64::MAX,
        ensures
            *final(self) == (DeviceContext {
                next_handle: (old(self).next_handle + 1) as u64,
                live_allocations: (old(self).live_allocations + 1) as u64,
                ..*old(self)
            }),
            cb.handle == old(self).next_handle,
            !cb.recording,
            cb.commands@ == Seq::<Command>::empty(),
    {
        let cb = CommandBuffer { handle: self.next_handle, recording: false, commands: Vec::new() };
        self.next_handle = self.next_handle + 1;
        self.live_allocations = self.live_allocations + 1;
        proof {
            assert(cb.commands@ =~= Seq::<Command>::empty());
        }
        cb
    }

    /// Compiles a shader module from bytecode. Succeeds if and only if the
    /// bytecode is well-formed as `valid_spirv` states; malformed bytecode
    /// is rejected and leaves the context unchanged.
    pub fn create_shader_module(&mut self, bytes: &Vec<u8>) -> (r: Result<
        ShaderModule,
        RenderError,
    >)
        requires
            old(self).alive,
            old(self).next_handle + 1 <= u64::MAX,
            old(self).live_allocations + 1 <= u64::MAX,
        ensures
            r is Ok <==> valid_spirv(bytes@),
            r matches Ok(m) ==> {
                &&& m == (ShaderModule {
                    handle: old(self).next_handle,
                    word_count: (bytes@.len() / 4) as usize,
                })
                &&& *final(self) == (DeviceContext {
                    next_handle: (old(self).next_handle + 1) as u64,
                    live_allocations: (old(self).live_allocations + 1) as u64,
                    ..*old(self)
                })
            },
            r matches Err(e) ==> {
                &&& e == RenderError::ShaderLoadFailure
                &&& *final(self) == *old(self)
            },
    {
        if !spirv_ok(bytes) {
            return Err(RenderError::ShaderLoadFailure);
        }
        let m = ShaderModule { handle: self.next_handle, word_count: bytes.len() / 4 };
        self.next_handle = self.next_handle + 1;
        self.live_allocations = self.live_allocations + 1;
        Ok(m)
    }

    /// Records a barrier into the given command buffer that moves the image
    /// to the requested {access, layout, stage} and updates the tracked
    /// state to exactly that target — also when the target equals the
    /// current state, in which case the barrier is still recorded.
    pub fn transition_texture(
        &self,
        image: &mut GpuImage,
        new_access: u32,
        new_layout: ImageLayout,
        new_stage: u32,
        cmd: &mut CommandBuffer,
    )
        requires
            self.alive,
            old(cmd).recording,
        ensures
            *final(image) == transitioned(
                *old(image),
                UsageState { access: new_access, layout: new_layout, stage: new_stage },
            ),
            *final(cmd) == (CommandBuffer { commands: final(cmd).commands, ..*old(cmd) }),
            final(cmd).commands@ == old(cmd).commands@.push(
                barrier(old(image).image, old(image).state, final(image).state),
            ),
    {
        let target = UsageState { access: new_access, layout: new_layout, stage: new_stage };
        cmd.record(Command::PipelineBarrier { image: image.image, from: image.state, to: target });
        image.state = target;
    }

    /// Transitions the image immediately: allocates a one-off command
    /// buffer, records the barrier, submits it to the graphics queue and
    /// waits for it, then frees the transient buffer. The tracked state is
    /// updated to exactly the requested target.
    pub fn transition_texture_now(
        &mut self,
        image: &mut GpuImage,
        new_access: u32,
        new_layout: ImageLayout,
        new_stage: u32,
    )
        requires
            old(self).alive,
            old(self).submissions < u64::MAX,
        ensures
            *final(self) == (DeviceContext {
                submissions: (old(self).submissions + 1) as u64,
                ..*old(self)
            }),
            *final(image) == transitioned(
                *old(image),
                UsageState { access: new_access, layout: new_layout, stage: new_stage },
            ),
    {
        self.submissions = self.submissions + 1;
        image.state = UsageState { access: new_access, layout: new_layout, stage: new_stage };
    }

    /// Submits one command buffer to the graphics queue, with no wait or
    /// signal semaphores. The buffer must have finished recording.
    pub fn submit(&mut self, cmd: &CommandBuffer)
        requires
            old(self).alive,
            !cmd.recording,
            old(self).submissions < u64::MAX,
        ensures
            *final(self) == (DeviceContext {
                submissions: (old(self).submissions + 1) as u64,
                ..*old(self)
            }),
    {
        self.submissions = self.submissions + 1;
    }
}

} // verus!
