//! The offscreen render stage: one render pass over a color and a depth
//! attachment, a fixed-function graphics pipeline, a framebuffer over a GPU
//! image pair, and one reusable command buffer recorded and submitted every
//! frame.
//!
//! The stage is a state machine: after construction it is ready; `begin_frame`
//! moves it to recording and hands the command buffer to the caller for
//! per-object draws; `end_frame` closes the pass, submits the buffer and
//! returns the stage to ready. Recording is strictly balanced — the stage
//! cannot be begun twice without an intervening end — and the whole history
//! of begins and ends is carried as a ghost log over which that balance is
//! proved.

use crate::command::{barrier, Command, CommandBuffer};
use crate::device::{
    spirv_ok, valid_spirv, DeviceContext, GpuBuffer, BUFFER_USAGE_UNIFORM, MEMORY_HOST_COHERENT,
    MEMORY_HOST_VISIBLE,
};
use crate::error::{RenderError, ResourceKind};
use crate::image::{
    color_target_state, depth_target_state, Format, GpuImage, ImageLayout,
    ACCESS_COLOR_ATTACHMENT_READ, ACCESS_COLOR_ATTACHMENT_WRITE,
    ACCESS_DEPTH_STENCIL_ATTACHMENT_READ, ACCESS_DEPTH_STENCIL_ATTACHMENT_WRITE, ASPECT_COLOR,
    ASPECT_DEPTH, STAGE_ALL_GRAPHICS, STAGE_COLOR_ATTACHMENT_OUTPUT, USAGE_COLOR_ATTACHMENT,
    USAGE_DEPTH_STENCIL_ATTACHMENT, USAGE_SAMPLED,
};
use crate::pipeline::{
    AttachmentDesc, CompareOp, CullMode, DescriptorBinding, DescriptorPool, DescriptorSet,
    DescriptorSetLayout, DescriptorType, Framebuffer, FrontFace, LoadOp, PipelineDesc,
    PipelineLayout, Rect2d, RenderPassDesc, StoreOp, Topology, Viewport, SHADER_STAGE_FRAGMENT,
    SHADER_STAGE_VERTEX, VERTEX_STRIDE,
};
use vstd::prelude::*;

verus! {

/// Maximum number of descriptor sets the stage's pool can hand out.
pub const POOL_MAX_SETS: u32 = 8;

/// Combined-image-sampler descriptor budget of the stage's pool.
pub const POOL_SAMPLER_DESCRIPTORS: u32 = 14;

/// Uniform-buffer descriptor budget of the stage's pool.
pub const POOL_UNIFORM_DESCRIPTORS: u32 = 1;

/// Byte size of the push-constant range: two 4x4 matrices of 4-byte floats.
pub const PUSH_CONSTANT_BYTES: u32 = 128;

/// Byte size of the view-matrix uniform buffer: one 4x4 matrix of 4-byte
/// floats.
pub const VIEW_MATRIX_BYTES: u64 = 64;

/// One step of the stage's recording history.
#[derive(Clone, Copy, Debug, PartialEq, Eq, Structural)]
pub enum FrameEvent {
    BeginFrame,
    EndFrame,
}

/// Where the stage stands between construction and teardown.
#[derive(Clone, Copy, Debug, PartialEq, Eq, Structural)]
pub enum PassPhase {
    /// Ready for the next `begin_frame`.
    Ready,
    /// Between `begin_frame` and `end_frame`: the command buffer is open.
    Recording,
}

/// A history of begins and ends is balanced when they strictly alternate,
/// starting with a begin: no frame is begun twice without an intervening
/// end, and no end comes without a begin.
pub open spec fn alternating(log: Seq<FrameEvent>) -> bool {
    forall|i: int| 0 <= i < log.len() ==> (log[i] is BeginFrame <==> i % 2 == 0)
}

/// How many begins a history holds.
pub open spec fn begin_count(log: Seq<FrameEvent>) -> int
    decreases log.len(),
{
    if log.len() == 0 {
        0
    } else {
        begin_count(log.drop_last()) + if log.last() is BeginFrame {
            1int
        } else {
            0int
        }
    }
}

/// How many ends a history holds.
pub open spec fn end_count(log: Seq<FrameEvent>) -> int
    decreases log.len(),
{
    if log.len() == 0 {
        0
    } else {
        end_count(log.drop_last()) + if log.last() is EndFrame {
            1int
        } else {
            0int
        }
    }
}

/// Appending an event of the parity the alternation expects keeps the
/// history alternating.
proof fn lemma_alternating_push(log: Seq<FrameEvent>, e: FrameEvent)
    requires
        alternating(log),
        e is BeginFrame <==> log.len() % 2 == 0,
    ensures
        alternating(log.push(e)),
{
    let pushed = log.push(e);
    assert forall|i: int| 0 <= i < pushed.len() implies (pushed[i] is BeginFrame <==> i % 2
        == 0) by {
        if i < log.len() {
            assert(pushed[i] == log[i]);
        } else {
            assert(pushed[i] == e);
        }
    }
}

/// In an alternating history the counts are determined by the length alone:
/// with an even length, begins and ends are equal; with an odd length there
/// is exactly one more begin than ends.
pub proof fn lemma_alternating_balance(log: Seq<FrameEvent>)
    requires
        alternating(log),
    ensures
        log.len() % 2 == 0 ==> begin_count(log) == end_count(log),
        log.len() % 2 == 1 ==> begin_count(log) == end_count(log) + 1,
        begin_count(log) + end_count(log) == log.len(),
    decreases log.len(),
{
    if log.len() > 0 {
        let prefix = log.drop_last();
        assert forall|i: int| 0 <= i < prefix.len() implies (prefix[i] is BeginFrame <==> i % 2
            == 0) by {
            assert(prefix[i] == log[i]);
        }
        lemma_alternating_balance(prefix);
        assert(log.last() == log[log.len() - 1]);
    }
}

/// The offscreen render stage.
pub struct MainPass {
    /// The render pass: color and depth attachment, one subpass.
    pub renderpass: RenderPassDesc,
    /// Pool that the per-drawable and per-frame descriptor sets come from.
    pub descriptor_pool: DescriptorPool,
    /// Set layouts: material textures (set 0) and view matrix (set 1).
    pub descriptor_set_layouts: Vec<DescriptorSetLayout>,
    /// Pipeline layout carrying the push-constant range.
    pub pipeline_layout: PipelineLayout,
    /// Dynamic viewport covering the render target.
    pub viewport: Viewport,
    /// Dynamic scissor covering the render target.
    pub scissor: Rect2d,
    /// The compiled graphics pipeline.
    pub pipeline: PipelineDesc,
    /// Framebuffer over the color and depth images.
    pub framebuffer: Framebuffer,
    /// The single reusable per-frame command buffer.
    pub commandbuffer: CommandBuffer,
    /// The color image rendered to, consumed by the presentation stage.
    pub render_image: GpuImage,
    /// The depth attachment.
    pub depth_image: GpuImage,
    /// Host-visible uniform buffer holding the view matrix.
    pub view_matrix_ub: GpuBuffer,
    /// Descriptor set pointing at the view-matrix buffer.
    pub view_matrix_ds: Vec<DescriptorSet>,
    /// Where the stage stands in its begin/end cycle.
    pub phase: PassPhase,
    /// The full history of begins and ends, for the balance proof.
    pub frame_log: Ghost<Seq<FrameEvent>>,
}

/// The bindings of the material-texture set layout: two combined image
/// samplers (color and normal map), fragment-stage visible.
pub open spec fn material_bindings() -> Seq<DescriptorBinding> {
    seq![
        DescriptorBinding {
            binding: 0,
            descriptor_type: DescriptorType::CombinedImageSampler,
            descriptor_count: 1,
            stage_flags: SHADER_STAGE_FRAGMENT,
        },
        DescriptorBinding {
            binding: 1,
            descriptor_type: DescriptorType::CombinedImageSampler,
            descriptor_count: 1,
            stage_flags: SHADER_STAGE_FRAGMENT,
        },
    ]
}

/// The binding of the view-matrix set layout: one uniform buffer,
/// vertex-stage visible.
pub open spec fn view_matrix_bindings() -> Seq<DescriptorBinding> {
    seq![
        DescriptorBinding {
            binding: 0,
            descriptor_type: DescriptorType::UniformBuffer,
            descriptor_count: 1,
            stage_flags: SHADER_STAGE_VERTEX,
        },
    ]
}

/// The order in which teardown releases the stage's resources: the uniform
/// buffer and its memory, the depth image's four parts, the color image's
/// four parts, the framebuffer, the pipeline and its layout, the two set
/// layouts, the descriptor pool, and finally the render pass. Destroying a
/// dependent after its dependency — the framebuffer after the render pass,
/// say — would be a fatal usage error, so the order is part of the
/// contract.
pub open spec fn teardown_order() -> Seq<ResourceKind> {
    seq![
        ResourceKind::Buffer,
        ResourceKind::Memory,
        ResourceKind::Sampler,
        ResourceKind::ImageView,
        ResourceKind::Image,
        ResourceKind::Memory,
        ResourceKind::Sampler,
        ResourceKind::ImageView,
        ResourceKind::Image,
        ResourceKind::Memory,
        ResourceKind::Framebuffer,
        ResourceKind::Pipeline,
        ResourceKind::PipelineLayout,
        ResourceKind::DescriptorSetLayout,
        ResourceKind::DescriptorSetLayout,
        ResourceKind::DescriptorPool,
        ResourceKind::RenderPass,
    ]
}

/// The commands `begin_frame` records before any draw: the barrier making
/// the render target a color attachment, the render-pass begin, the
/// view-matrix descriptor set (set index 1), the pipeline, and the dynamic
/// viewport and scissor.
pub open spec fn frame_prelude(mp: MainPass) -> Seq<Command> {
    seq![
        barrier(mp.render_image.image, mp.render_image.state, color_target_state()),
        Command::BeginRenderPass {
            render_pass: mp.renderpass.handle,
            framebuffer: mp.framebuffer.handle,
        },
        Command::BindDescriptorSets { first_set: 1, set_count: 1 },
        Command::BindPipeline { pipeline: mp.pipeline.handle },
        Command::SetViewport { viewport: mp.viewport },
        Command::SetScissor { scissor: mp.scissor },
    ]
}

/// The draw commands for one drawable vertex count each.
pub open spec fn draw_commands(draws: Seq<u32>) -> Seq<Command> {
    draws.map_values(|v: u32| Command::Draw { vertex_count: v })
}

impl MainPass {
    /// The stage's invariant: the command buffer is open exactly while the
    /// stage is recording, the ghost history alternates and its parity
    /// matches the phase, and the fixed shape of the descriptor structures
    /// holds.
    pub open spec fn wf(&self) -> bool {
        &&& (self.phase is Recording <==> self.commandbuffer.recording)
        &&& (self.phase is Recording <==> self.frame_log@.len() % 2 == 1)
        &&& alternating(self.frame_log@)
        &&& self.descriptor_set_layouts.len() == 2
        &&& self.view_matrix_ds.len() == 1
        &&& self.descriptor_pool.wf()
    }

    /// Creates the render pass: one color attachment (cleared on load, kept
    /// on store) and one depth attachment (cleared on load, discarded on
    /// store), both staying in their attachment-optimal layouts.
    fn create_renderpass(dev: &mut DeviceContext, render_format: Format) -> (rp: RenderPassDesc)
        requires
            old(dev).alive,
            old(dev).next_handle < u64::MAX,
            old(dev).live_allocations < u64::MAX,
        ensures
            *final(dev) == (DeviceContext {
                next_handle: (old(dev).next_handle + 1) as u64,
                live_allocations: (old(dev).live_allocations + 1) as u64,
                ..*old(dev)
            }),
            rp == (RenderPassDesc {
                handle: old(dev).next_handle,
                color: (AttachmentDesc {
                    format: render_format,
                    samples: 1,
                    load_op: LoadOp::Clear,
                    store_op: StoreOp::Store,
                    stencil_load_op: LoadOp::DontCare,
                    stencil_store_op: StoreOp::DontCare,
                    initial_layout: ImageLayout::ColorAttachmentOptimal,
                    final_layout: ImageLayout::ColorAttachmentOptimal,
                }),
                depth: (AttachmentDesc {
                    format: Format::D32Sfloat,
                    samples: 1,
                    load_op: LoadOp::Clear,
                    store_op: StoreOp::DontCare,
                    stencil_load_op: LoadOp::DontCare,
                    stencil_store_op: StoreOp::DontCare,
                    initial_layout: ImageLayout::DepthStencilAttachmentOptimal,
                    final_layout: ImageLayout::DepthStencilAttachmentOptimal,
                }),
            }),
    {
        let handle = dev.fresh_handle();
        RenderPassDesc {
            handle,
            color: AttachmentDesc {
                format: render_format,
                samples: 1,
                load_op: LoadOp::Clear,
                store_op: StoreOp::Store,
                stencil_load_op: LoadOp::DontCare,
                stencil_store_op: StoreOp::DontCare,
                initial_layout: ImageLayout::ColorAttachmentOptimal,
                final_layout: ImageLayout::ColorAttachmentOptimal,
            },
            depth: AttachmentDesc {
                format: Format::D32Sfloat,
                samples: 1,
                load_op: LoadOp::Clear,
                store_op: StoreOp::DontCare,
                stencil_load_op: LoadOp::DontCare,
                stencil_store_op: StoreOp::DontCare,
                initial_layout: ImageLayout::DepthStencilAttachmentOptimal,
                final_layout: ImageLayout::DepthStencilAttachmentOptimal,
            },
        }
    }

    /// Builds the descriptor pool, the two set layouts, the pipeline layout
    /// with its push-constant range, the viewport and scissor, and the
    /// pipeline itself from the two shader bytecodes. Fails — leaving the
    /// device untouched — exactly when a bytecode is malformed.
    fn create_pipeline(
        dev: &mut DeviceContext,
        render_width: u32,
        render_height: u32,
        vertex_shader: &Vec<u8>,
        fragment_shader: &Vec<u8>,
    ) -> (r: Result<
        (DescriptorPool, Vec<DescriptorSetLayout>, PipelineLayout, Viewport, Rect2d, PipelineDesc),
        RenderError,
    >)
        requires
            old(dev).alive,
            old(dev).next_handle + 7 <= u64::MAX,
            old(dev).live_allocations + 7 <= u64::MAX,
        ensures
            r is Ok <==> valid_spirv(vertex_shader@) && valid_spirv(fragment_shader@),
            r matches Err(e) ==> {
                &&& e == RenderError::ShaderLoadFailure
                &&& *final(dev) == *old(dev)
            },
            r matches Ok(t) ==> {
                &&& *final(dev) == (DeviceContext {
                    next_handle: (old(dev).next_handle + 7) as u64,
                    live_allocations: (old(dev).live_allocations + 5) as u64,
                    destruction_log: final(dev).destruction_log,
                    ..*old(dev)
                })
                &&& final(dev).destruction_log@ == old(dev).destruction_log@.push(
                    ResourceKind::ShaderModule,
                ).push(ResourceKind::ShaderModule)
                &&& t.0 == (DescriptorPool {
                    handle: old(dev).next_handle,
                    max_sets: POOL_MAX_SETS,
                    allocated_sets: 0,
                    sampler_capacity: POOL_SAMPLER_DESCRIPTORS,
                    sampler_used: 0,
                    uniform_capacity: POOL_UNIFORM_DESCRIPTORS,
                    uniform_used: 0,
                })
                &&& t.1@.len() == 2
                &&& t.1@[0].handle == old(dev).next_handle + 1
                &&& t.1@[0].bindings@ == material_bindings()
                &&& t.1@[1].handle == old(dev).next_handle + 2
                &&& t.1@[1].bindings@ == view_matrix_bindings()
                &&& t.2 == (PipelineLayout {
                    handle: (old(dev).next_handle + 3) as u64,
                    set_layout_count: 2,
                    push_constant_offset: 0,
                    push_constant_size: PUSH_CONSTANT_BYTES,
                    push_constant_stages: SHADER_STAGE_VERTEX,
                })
                &&& t.3 == (Viewport { x: 0, y: 0, width: render_width, height: render_height })
                &&& t.4 == (Rect2d { x: 0, y: 0, width: render_width, height: render_height })
                &&& t.5 == (PipelineDesc {
                    handle: (old(dev).next_handle + 6) as u64,
                    topology: Topology::TriangleList,
                    cull_mode: CullMode::Back,
                    front_face: FrontFace::CounterClockwise,
                    depth_test: true,
                    depth_write: true,
                    depth_compare: CompareOp::LessOrEqual,
                    blend_enable: false,
                    vertex_stride: VERTEX_STRIDE,
                    dynamic_viewport_scissor: true,
                })
            },
    {
        if !spirv_ok(vertex_shader) {
            return Err(RenderError::ShaderLoadFailure);
        }
        if !spirv_ok(fragment_shader) {
            return Err(RenderError::ShaderLoadFailure);
        }
        let pool_handle = dev.fresh_handle();
        let descriptor_pool = DescriptorPool {
            handle: pool_handle,
            max_sets: POOL_MAX_SETS,
            allocated_sets: 0,
            sampler_capacity: POOL_SAMPLER_DESCRIPTORS,
            sampler_used: 0,
            uniform_capacity: POOL_UNIFORM_DESCRIPTORS,
            uniform_used: 0,
        };

        let material_handle = dev.fresh_handle();
        let mut material_b: Vec<DescriptorBinding> = Vec::new();
        material_b.push(
            DescriptorBinding {
                binding: 0,
                descriptor_type: DescriptorType::CombinedImageSampler,
                descriptor_count: 1,
                stage_flags: SHADER_STAGE_FRAGMENT,
            },
        );
        material_b.push(
            DescriptorBinding {
                binding: 1,
                descriptor_type: DescriptorType::CombinedImageSampler,
                descriptor_count: 1,
                stage_flags: SHADER_STAGE_FRAGMENT,
            },
        );
        proof {
            assert(material_b@ =~= material_bindings());
        }
        let material_layout = DescriptorSetLayout { handle: material_handle, bindings: material_b };

        let view_handle = dev.fresh_handle();
        let mut view_b: Vec<DescriptorBinding> = Vec::new();
        view_b.push(
            DescriptorBinding {
                binding: 0,
                descriptor_type: DescriptorType::UniformBuffer,
                descriptor_count: 1,
                stage_flags: SHADER_STAGE_VERTEX,
            },
        );
        proof {
            assert(view_b@ =~= view_matrix_bindings());
        }
        let view_layout = DescriptorSetLayout { handle: view_handle, bindings: view_b };

        let mut descriptor_set_layouts: Vec<DescriptorSetLayout> = Vec::new();
        descriptor_set_layouts.push(material_layout);
        descriptor_set_layouts.push(view_layout);

        let layout_handle = dev.fresh_handle();
        let pipeline_layout = PipelineLayout {
            handle: layout_handle,
            set_layout_count: 2,
            push_constant_offset: 0,
            push_constant_size: PUSH_CONSTANT_BYTES,
            push_constant_stages: SHADER_STAGE_VERTEX,
        };

        let vertex_module = match dev.create_shader_module(vertex_shader) {
            Ok(m) => m,
            Err(e) => {
                return Err(e);
            },
        };
        let fragment_module = match dev.create_shader_module(fragment_shader) {
            Ok(m) => m,
            Err(e) => {
                return Err(e);
            },
        };

        let pipeline_handle = dev.fresh_handle();
        let pipeline = PipelineDesc {
            handle: pipeline_handle,
            topology: Topology::TriangleList,
            cull_mode: CullMode::Back,
            front_face: FrontFace::CounterClockwise,
            depth_test: true,
            depth_write: true,
            depth_compare: CompareOp::LessOrEqual,
            blend_enable: false,
            vertex_stride: VERTEX_STRIDE,
            dynamic_viewport_scissor: true,
        };

        // The pipeline keeps its own copy of the shaders; the modules are
        // released right away, the fragment module first.
        dev.destroy_shader_module(fragment_module);
        dev.destroy_shader_module(vertex_module);

        let viewport = Viewport { x: 0, y: 0, width: render_width, height: render_height };
        let scissor = Rect2d { x: 0, y: 0, width: render_width, height: render_height };

        Ok((descriptor_pool, descriptor_set_layouts, pipeline_layout, viewport, scissor, pipeline))
    }

    /// Creates the framebuffer binding the color and depth views to the
    /// render pass's attachments, sized to the render resolution.
    fn create_framebuffer(
        dev: &mut DeviceContext,
        render_width: u32,
        render_height: u32,
        color_view: u64,
        depth_view: u64,
        render_pass: u64,
    ) -> (fb: Framebuffer)
        requires
            old(dev).alive,
            old(dev).next_handle < u64::MAX,
            old(dev).live_allocations < u64::MAX,
        ensures
            *final(dev) == (DeviceContext {
                next_handle: (old(dev).next_handle + 1) as u64,
                live_allocations: (old(dev).live_allocations + 1) as u64,
                ..*old(dev)
            }),
            fb == (Framebuffer {
                handle: old(dev).next_handle,
                render_pass,
                color_view,
                depth_view,
                width: render_width,
                height: render_height,
            }),
    {
        let handle = dev.fresh_handle();
        Framebuffer {
            handle,
            render_pass,
            color_view,
            depth_view,
            width: render_width,
            height: render_height,
        }
    }

    /// Allocates the stage's single reusable command buffer.
    fn create_commandbuffer(dev: &mut DeviceContext) -> (cb: CommandBuffer)
        requires
            old(dev).alive,
            old(dev).next_handle < u64::MAX,
            old(dev).live_allocations < u64::MAX,
        ensures
            *final(dev) == (DeviceContext {
                next_handle: (old(dev).next_handle + 1) as u64,
                live_allocations: (old(dev).live_allocations + 1) as u64,
                ..*old(dev)
            }),
            cb.handle == old(dev).next_handle,
            !cb.recording,
            cb.commands@ == Seq::<Command>::empty(),
    {
        dev.create_commandbuffer()
    }

    /// Initializes the offscreen render stage against the device context:
    /// the color and depth images sized to the render resolution, the render
    /// pass, the pipeline with its layouts, the framebuffer, the command
    /// buffer, the view-matrix uniform buffer and its descriptor set. The
    /// stage takes one shared reference to the device, released again at
    /// teardown. Fails — leaving the device untouched — exactly when one of
    /// the shader bytecodes is malformed.
    pub fn init(
        dev: &mut DeviceContext,
        render_width: u32,
        render_height: u32,
        vertex_shader: &Vec<u8>,
        fragment_shader: &Vec<u8>,
    ) -> (r: Result<MainPass, RenderError>)
        requires
            old(dev).alive,
            old(dev).next_handle + 20 <= u64::MAX,
            old(dev).live_allocations + 18 <= u64::MAX,
            old(dev).refs < u64::MAX,
        ensures
            r is Ok <==> valid_spirv(vertex_shader@) && valid_spirv(fragment_shader@),
            r matches Err(e) ==> {
                &&& e == RenderError::ShaderLoadFailure
                &&& *final(dev) == *old(dev)
            },
            r matches Ok(mp) ==> {
                &&& mp.wf()
                &&& mp.phase is Ready
                &&& mp.frame_log@ == Seq::<FrameEvent>::empty()
                &&& mp.render_image.image == old(dev).next_handle
                &&& mp.depth_image.image == old(dev).next_handle + 4
                &&& mp.render_image.width == render_width
                &&& mp.render_image.height == render_height
                &&& mp.render_image.format == Format::R8g8b8a8Unorm
                &&& mp.render_image.aspect == ASPECT_COLOR
                &&& mp.render_image.usage == USAGE_COLOR_ATTACHMENT | USAGE_SAMPLED
                &&& mp.render_image.state == color_target_state()
                &&& mp.depth_image.width == render_width
                &&& mp.depth_image.height == render_height
                &&& mp.depth_image.format == Format::D32Sfloat
                &&& mp.depth_image.aspect == ASPECT_DEPTH
                &&& mp.depth_image.usage == USAGE_DEPTH_STENCIL_ATTACHMENT
                &&& mp.depth_image.state == depth_target_state()
                &&& mp.renderpass.color.format == Format::R8g8b8a8Unorm
                &&& mp.renderpass.color.load_op == LoadOp::Clear
                &&& mp.renderpass.color.store_op == StoreOp::Store
                &&& mp.renderpass.depth.format == Format::D32Sfloat
                &&& mp.renderpass.depth.load_op == LoadOp::Clear
                &&& mp.renderpass.depth.store_op == StoreOp::DontCare
                &&& mp.descriptor_pool.max_sets == POOL_MAX_SETS
                &&& mp.descriptor_pool.sampler_capacity == POOL_SAMPLER_DESCRIPTORS
                &&& mp.descriptor_pool.uniform_capacity == POOL_UNIFORM_DESCRIPTORS
                &&& mp.descriptor_pool.allocated_sets == 1
                &&& mp.descriptor_pool.sampler_used == 0
                &&& mp.descriptor_pool.uniform_used == 1
                &&& mp.descriptor_set_layouts@[0].bindings@ == material_bindings()
                &&& mp.descriptor_set_layouts@[1].bindings@ == view_matrix_bindings()
                &&& mp.pipeline_layout.set_layout_count == 2
                &&& mp.pipeline_layout.push_constant_offset == 0
                &&& mp.pipeline_layout.push_constant_size == PUSH_CONSTANT_BYTES
                &&& mp.pipeline_layout.push_constant_stages == SHADER_STAGE_VERTEX
                &&& mp.viewport == (Viewport {
                    x: 0,
                    y: 0,
                    width: render_width,
                    height: render_height,
                })
                &&& mp.scissor == (Rect2d {
                    x: 0,
                    y: 0,
                    width: render_width,
                    height: render_height,
                })
                &&& mp.pipeline.topology == Topology::TriangleList
                &&& mp.pipeline.cull_mode == CullMode::Back
                &&& mp.pipeline.front_face == FrontFace::CounterClockwise
                &&& mp.pipeline.depth_test
                &&& mp.pipeline.depth_write
                &&& mp.pipeline.depth_compare == CompareOp::LessOrEqual
                &&& !mp.pipeline.blend_enable
                &&& mp.pipeline.vertex_stride == VERTEX_STRIDE
                &&& mp.pipeline.dynamic_viewport_scissor
                &&& mp.framebuffer.render_pass == mp.renderpass.handle
                &&& mp.framebuffer.color_view == mp.render_image.view
                &&& mp.framebuffer.depth_view == mp.depth_image.view
                &&& mp.framebuffer.width == render_width
                &&& mp.framebuffer.height == render_height
                &&& !mp.commandbuffer.recording
                &&& mp.commandbuffer.commands@ == Seq::<Command>::empty()
                &&& mp.view_matrix_ub.usage == BUFFER_USAGE_UNIFORM
                &&& mp.view_matrix_ub.memory_properties == MEMORY_HOST_VISIBLE
                    | MEMORY_HOST_COHERENT
                &&& mp.view_matrix_ub.size == VIEW_MATRIX_BYTES
                &&& mp.view_matrix_ds@[0] == (DescriptorSet {
                    pool: mp.descriptor_pool.handle,
                    index: 0,
                })
                &&& *final(dev) == (DeviceContext {
                    refs: (old(dev).refs + 1) as u64,
                    next_handle: (old(dev).next_handle + 20) as u64,
                    live_allocations: (old(dev).live_allocations + 18) as u64,
                    destruction_log: final(dev).destruction_log,
                    ..*old(dev)
                })
                &&& final(dev).destruction_log@ == old(dev).destruction_log@.push(
                    ResourceKind::ShaderModule,
                ).push(ResourceKind::ShaderModule)
            },
    {
        if !spirv_ok(vertex_shader) {
            return Err(RenderError::ShaderLoadFailure);
        }
        if !spirv_ok(fragment_shader) {
            return Err(RenderError::ShaderLoadFailure);
        }

        let render_format = Format::R8g8b8a8Unorm;

        let render_image = dev.create_texture(
            render_width,
            render_height,
            render_format,
            ASPECT_COLOR,
            USAGE_COLOR_ATTACHMENT | USAGE_SAMPLED,
            ACCESS_COLOR_ATTACHMENT_READ | ACCESS_COLOR_ATTACHMENT_WRITE,
            ImageLayout::ColorAttachmentOptimal,
            STAGE_COLOR_ATTACHMENT_OUTPUT,
        );
        let depth_image = dev.create_texture(
            render_width,
            render_height,
            Format::D32Sfloat,
            ASPECT_DEPTH,
            USAGE_DEPTH_STENCIL_ATTACHMENT,
            ACCESS_DEPTH_STENCIL_ATTACHMENT_READ | ACCESS_DEPTH_STENCIL_ATTACHMENT_WRITE,
            ImageLayout::DepthStencilAttachmentOptimal,
            STAGE_ALL_GRAPHICS,
        );

        let renderpass = MainPass::create_renderpass(dev, render_format);
        let (mut descriptor_pool, descriptor_set_layouts, pipeline_layout, viewport, scissor,
        pipeline) = match MainPass::create_pipeline(
            dev,
            render_width,
            render_height,
            vertex_shader,
            fragment_shader,
        ) {
            Ok(t) => t,
            Err(e) => {
                return Err(e);
            },
        };
        let framebuffer = MainPass::create_framebuffer(
            dev,
            render_width,
            render_height,
            render_image.view,
            depth_image.view,
            renderpass.handle,
        );
        let commandbuffer = MainPass::create_commandbuffer(dev);

        let view_matrix_ub = dev.create_buffer(
            BUFFER_USAGE_UNIFORM,
            MEMORY_HOST_VISIBLE | MEMORY_HOST_COHERENT,
            VIEW_MATRIX_BYTES,
        );

        let view_matrix_set = match descriptor_pool.allocate_set(0, 1) {
            Ok(s) => s,
            Err(e) => {
                return Err(e);
            },
        };
        let mut view_matrix_ds: Vec<DescriptorSet> = Vec::new();
        view_matrix_ds.push(view_matrix_set);

        dev.retain();

        Ok(
            MainPass {
                renderpass,
                descriptor_pool,
                descriptor_set_layouts,
                pipeline_layout,
                viewport,
                scissor,
                pipeline,
                framebuffer,
                commandbuffer,
                render_image,
                depth_image,
                view_matrix_ub,
                view_matrix_ds,
                phase: PassPhase::Ready,
                frame_log: Ghost(Seq::empty()),
            },
        )
    }

    /// Begins the frame: opens the command buffer (resetting it), records
    /// the barrier that makes the render target a color attachment again,
    /// refreshes the view-matrix descriptor set, begins the render pass with
    /// both attachments cleared, binds the view-matrix set (set index 1) and
    /// the pipeline, and sets the dynamic viewport and scissor. Returns the
    /// command buffer's handle for per-object draw recording.
    pub fn begin_frame(&mut self, dev: &DeviceContext) -> (cmd: u64)
        requires
            old(self).wf(),
            old(self).phase is Ready,
            dev.alive,
        ensures
            final(self).wf(),
            final(self).phase is Recording,
            *final(self) == (MainPass {
                render_image: final(self).render_image,
                commandbuffer: final(self).commandbuffer,
                phase: final(self).phase,
                frame_log: final(self).frame_log,
                ..*old(self)
            }),
            final(self).render_image == crate::image::transitioned(
                old(self).render_image,
                color_target_state(),
            ),
            final(self).commandbuffer.handle == old(self).commandbuffer.handle,
            final(self).commandbuffer.recording,
            final(self).commandbuffer.commands@ == frame_prelude(*old(self)),
            final(self).frame_log@ == old(self).frame_log@.push(FrameEvent::BeginFrame),
            cmd == old(self).commandbuffer.handle,
    {
        self.commandbuffer.begin();

        // Make the stage's output a renderable color attachment again.
        dev.transition_texture(
            &mut self.render_image,
            ACCESS_COLOR_ATTACHMENT_READ | ACCESS_COLOR_ATTACHMENT_WRITE,
            ImageLayout::ColorAttachmentOptimal,
            STAGE_COLOR_ATTACHMENT_OUTPUT,
            &mut self.commandbuffer,
        );

        self.commandbuffer.record(
            Command::BeginRenderPass {
                render_pass: self.renderpass.handle,
                framebuffer: self.framebuffer.handle,
            },
        );
        self.commandbuffer.record(Command::BindDescriptorSets { first_set: 1, set_count: 1 });
        self.commandbuffer.record(Command::BindPipeline { pipeline: self.pipeline.handle });
        self.commandbuffer.record(Command::SetViewport { viewport: self.viewport });
        self.commandbuffer.record(Command::SetScissor { scissor: self.scissor });

        self.phase = PassPhase::Recording;
        proof {
            assert(self.commandbuffer.commands@ =~= frame_prelude(*old(self)));
            lemma_alternating_push(self.frame_log@, FrameEvent::BeginFrame);
        }
        self.frame_log = Ghost(self.frame_log@.push(FrameEvent::BeginFrame));
        self.commandbuffer.handle
    }

    /// Records one draw of `vertex_count` vertices into the open command
    /// buffer, on behalf of a drawable.
    pub fn record_draw(&mut self, vertex_count: u32)
        requires
            old(self).wf(),
            old(self).phase is Recording,
        ensures
            final(self).wf(),
            *final(self) == (MainPass { commandbuffer: final(self).commandbuffer, ..*old(self) }),
            final(self).commandbuffer == (CommandBuffer {
                commands: final(self).commandbuffer.commands,
                ..old(self).commandbuffer
            }),
            final(self).commandbuffer.commands@ == old(self).commandbuffer.commands@.push(
                Command::Draw { vertex_count },
            ),
    {
        self.commandbuffer.record(Command::Draw { vertex_count });
    }

    /// Ends the frame: closes the render pass and the command buffer, and
    /// submits the buffer to the graphics queue with no wait or signal
    /// semaphores (a single frame is in flight at a time).
    pub fn end_frame(&mut self, dev: &mut DeviceContext)
        requires
            old(self).wf(),
            old(self).phase is Recording,
            old(dev).alive,
            old(dev).submissions < u64::MAX,
        ensures
            final(self).wf(),
            final(self).phase is Ready,
            *final(self) == (MainPass {
                commandbuffer: final(self).commandbuffer,
                phase: final(self).phase,
                frame_log: final(self).frame_log,
                ..*old(self)
            }),
            !final(self).commandbuffer.recording,
            final(self).commandbuffer.handle == old(self).commandbuffer.handle,
            final(self).commandbuffer.commands@ == old(self).commandbuffer.commands@.push(
                Command::EndRenderPass,
            ),
            final(self).frame_log@ == old(self).frame_log@.push(FrameEvent::EndFrame),
            *final(dev) == (DeviceContext {
                submissions: (old(dev).submissions + 1) as u64,
                ..*old(dev)
            }),
    {
        self.commandbuffer.record(Command::EndRenderPass);
        self.commandbuffer.end();
        dev.submit(&self.commandbuffer);
        self.phase = PassPhase::Ready;
        proof {
            lemma_alternating_push(self.frame_log@, FrameEvent::EndFrame);
        }
        self.frame_log = Ghost(self.frame_log@.push(FrameEvent::EndFrame));
    }

    /// Tears the stage down: waits for the device to go idle, then releases
    /// every resource in dependency order — `teardown_order` spells it out —
    /// and gives up the stage's device reference. The device context must
    /// still be held elsewhere: if the stage's reference is the last one the
    /// device is already dangling, nothing is destroyed, and the stage is
    /// handed back with `DanglingDeviceContext`.
    pub fn try_teardown(self, dev: &mut DeviceContext) -> (r: Result<
        (),
        (MainPass, RenderError),
    >)
        requires
            old(dev).alive,
            old(dev).refs >= 1,
            old(dev).live_allocations >= 17,
            old(dev).idle_waits < u64::MAX,
        ensures
            r is Ok <==> old(dev).refs >= 2,
            r matches Err(p) ==> {
                &&& p.0 == self
                &&& p.1 == RenderError::DanglingDeviceContext
                &&& *final(dev) == *old(dev)
            },
            r is Ok ==> {
                &&& *final(dev) == (DeviceContext {
                    refs: (old(dev).refs - 1) as u64,
                    live_allocations: (old(dev).live_allocations - 17) as u64,
                    idle_waits: (old(dev).idle_waits + 1) as u64,
                    destruction_log: final(dev).destruction_log,
                    ..*old(dev)
                })
                &&& final(dev).destruction_log@ == old(dev).destruction_log@ + teardown_order()
            },
    {
        // The stage's reference cannot be the last one: the device must
        // outlive the teardown that still uses it.
        if dev.refs < 2 {
            return Err((self, RenderError::DanglingDeviceContext));
        }

        dev.wait_idle();

        dev.destroy_resource(ResourceKind::Buffer);
        dev.destroy_resource(ResourceKind::Memory);

        dev.destroy_resource(ResourceKind::Sampler);
        dev.destroy_resource(ResourceKind::ImageView);
        dev.destroy_resource(ResourceKind::Image);
        dev.destroy_resource(ResourceKind::Memory);

        dev.destroy_resource(ResourceKind::Sampler);
        dev.destroy_resource(ResourceKind::ImageView);
        dev.destroy_resource(ResourceKind::Image);
        dev.destroy_resource(ResourceKind::Memory);

        dev.destroy_resource(ResourceKind::Framebuffer);

        dev.destroy_resource(ResourceKind::Pipeline);
        dev.destroy_resource(ResourceKind::PipelineLayout);

        dev.destroy_resource(ResourceKind::DescriptorSetLayout);
        dev.destroy_resource(ResourceKind::DescriptorSetLayout);

        dev.destroy_resource(ResourceKind::DescriptorPool);

        dev.destroy_resource(ResourceKind::RenderPass);

        dev.release_ref();

        proof {
            assert(dev.destruction_log@ =~= old(dev).destruction_log@ + teardown_order());
        }
        Ok(())
    }
}

/// The transition protocol in action: every frame's recording carries the
/// barrier that puts the render target into its color-attachment state
/// before the render pass that draws into it begins, so no operation ever
/// sees the image in a state other than the tracked one.
pub proof fn lemma_prelude_transitions_before_use(mp: MainPass)
    ensures
        frame_prelude(mp)[0] == barrier(
            mp.render_image.image,
            mp.render_image.state,
            color_target_state(),
        ),
        frame_prelude(mp)[1] is BeginRenderPass,
{
}

/// Command recording is always balanced: in every reachable stage state the
/// begins and ends of its history strictly alternate, so every `begin_frame`
/// is followed by exactly one `end_frame` before the next `begin_frame`;
/// when the stage is ready the counts are equal, and while it is recording
/// exactly one begin is still open.
pub proof fn lemma_recording_balanced(p: &MainPass)
    requires
        p.wf(),
    ensures
        p.phase is Ready ==> begin_count(p.frame_log@) == end_count(p.frame_log@),
        p.phase is Recording ==> begin_count(p.frame_log@) == end_count(p.frame_log@) + 1,
{
    lemma_alternating_balance(p.frame_log@);
}

} // verus!
