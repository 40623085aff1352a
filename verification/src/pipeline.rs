//! Immutable render-pipeline state: render-pass and attachment descriptions,
//! descriptor-set layouts and the descriptor pool, the pipeline layout with
//! its push-constant range, the fixed vertex input layout, and the compiled
//! pipeline's fixed-function state. All of it is built once at stage
//! construction and never changes afterwards; rebuilding requires full
//! teardown and recreation.

use crate::error::RenderError;
use crate::image::Format;
use vstd::prelude::*;

verus! {

/// What a render pass does with an attachment's contents on load.
#[derive(Clone, Copy, Debug, PartialEq, Eq, Structural)]
pub enum LoadOp {
    Clear,
    Load,
    DontCare,
}

/// What a render pass does with an attachment's contents on store.
#[derive(Clone, Copy, Debug, PartialEq, Eq, Structural)]
pub enum StoreOp {
    Store,
    DontCare,
}

/// One attachment of a render pass: its format, load/store behaviour, and
/// the layouts it is in when the pass begins and ends.
#[derive(Clone, Copy, Debug, PartialEq, Eq, Structural)]
pub struct AttachmentDesc {
    pub format: Format,
    pub samples: u32,
    pub load_op: LoadOp,
    pub store_op: StoreOp,
    pub stencil_load_op: LoadOp,
    pub stencil_store_op: StoreOp,
    pub initial_layout: crate::image::ImageLayout,
    pub final_layout: crate::image::ImageLayout,
}

/// A render pass over one color and one depth attachment, referenced by a
/// single subpass.
#[derive(Clone, Copy, Debug, PartialEq, Eq, Structural)]
pub struct RenderPassDesc {
    /// Device handle of the render pass.
    pub handle: u64,
    pub color: AttachmentDesc,
    pub depth: AttachmentDesc,
}

/// The kind of resource one descriptor binding carries.
#[derive(Clone, Copy, Debug, PartialEq, Eq, Structural)]
pub enum DescriptorType {
    CombinedImageSampler,
    UniformBuffer,
}

/// Shader-stage bit: vertex stage.
pub const SHADER_STAGE_VERTEX: u32 = 0x1;

/// Shader-stage bit: fragment stage.
pub const SHADER_STAGE_FRAGMENT: u32 = 0x10;

/// One binding of a descriptor-set layout.
#[derive(Clone, Copy, Debug, PartialEq, Eq, Structural)]
pub struct DescriptorBinding {
    pub binding: u32,
    pub descriptor_type: DescriptorType,
    pub descriptor_count: u32,
    pub stage_flags: u32,
}

/// A descriptor-set layout: a device handle plus the bindings it declares.
#[derive(Clone, Debug, PartialEq, Eq)]
pub struct DescriptorSetLayout {
    /// Device handle of the layout.
    pub handle: u64,
    pub bindings: Vec<DescriptorBinding>,
}

/// A descriptor set allocated from a pool, identified by the pool's handle
/// and its index within the pool.
#[derive(Clone, Copy, Debug, PartialEq, Eq, Structural)]
pub struct DescriptorSet {
    pub pool: u64,
    pub index: u32,
}

/// A descriptor pool with a fixed capacity: a maximum number of sets and a
/// fixed budget of descriptors per type. Allocations beyond either bound are
/// rejected.
#[derive(Clone, Copy, Debug, PartialEq, Eq, Structural)]
pub struct DescriptorPool {
    /// Device handle of the pool.
    pub handle: u64,
    /// Configured maximum number of sets this pool can hand out.
    pub max_sets: u32,
    /// Sets handed out so far.
    pub allocated_sets: u32,
    /// Configured combined-image-sampler descriptor budget.
    pub sampler_capacity: u32,
    /// Combined-image-sampler descriptors handed out so far.
    pub sampler_used: u32,
    /// Configured uniform-buffer descriptor budget.
    pub uniform_capacity: u32,
    /// Uniform-buffer descriptors handed out so far.
    pub uniform_used: u32,
}

impl DescriptorPool {
    /// The pool's invariant: nothing handed out exceeds its budget.
    pub open spec fn wf(&self) -> bool {
        &&& self.allocated_sets <= self.max_sets
        &&& self.sampler_used <= self.sampler_capacity
        &&& self.uniform_used <= self.uniform_capacity
    }

    /// Whether a request for one more set, needing the given number of
    /// descriptors of each type, fits in what is left of the pool.
    pub open spec fn can_allocate(&self, samplers: u32, uniforms: u32) -> bool {
        &&& self.allocated_sets < self.max_sets
        &&& self.sampler_used + samplers <= self.sampler_capacity
        &&& self.uniform_used + uniforms <= self.uniform_capacity
    }

    /// Allocates one descriptor set needing `samplers` combined-image-sampler
    /// descriptors and `uniforms` uniform-buffer descriptors. Succeeds if and
    /// only if the request fits the pool's configured capacity; a rejected
    /// request leaves the pool unchanged.
    pub fn allocate_set(&mut self, samplers: u32, uniforms: u32) -> (r: Result<
        DescriptorSet,
        RenderError,
    >)
        requires
            old(self).wf(),
        ensures
            final(self).wf(),
            r is Ok <==> old(self).can_allocate(samplers, uniforms),
            r matches Ok(set) ==> {
                &&& set == (DescriptorSet { pool: old(self).handle, index: old(self).allocated_sets })
                &&& *final(self) == (DescriptorPool {
                    allocated_sets: (old(self).allocated_sets + 1) as u32,
                    sampler_used: (old(self).sampler_used + samplers) as u32,
                    uniform_used: (old(self).uniform_used + uniforms) as u32,
                    ..*old(self)
                })
            },
            r matches Err(e) ==> {
                &&& e == RenderError::DescriptorPoolExhausted
                &&& *final(self) == *old(self)
            },
    {
        if self.allocated_sets >= self.max_sets {
            return Err(RenderError::DescriptorPoolExhausted);
        }
        if samplers > self.sampler_capacity - self.sampler_used {
            return Err(RenderError::DescriptorPoolExhausted);
        }
        if uniforms > self.uniform_capacity - self.uniform_used {
            return Err(RenderError::DescriptorPoolExhausted);
        }
        let set = DescriptorSet { pool: self.handle, index: self.allocated_sets };
        self.allocated_sets = self.allocated_sets + 1;
        self.sampler_used = self.sampler_used + samplers;
        self.uniform_used = self.uniform_used + uniforms;
        Ok(set)
    }
}

/// A pool sized for `max_sets` sets can never hand out more: once
/// `max_sets` sets are allocated, every further request is rejected,
/// whatever it asks for.
pub proof fn lemma_pool_rejects_beyond_capacity(p: DescriptorPool, samplers: u32, uniforms: u32)
    requires
        p.wf(),
        p.allocated_sets == p.max_sets,
    ensures
        !p.can_allocate(samplers, uniforms),
{
}

/// A pipeline layout: the descriptor-set layouts it binds and the single
/// push-constant range carried per draw call.
#[derive(Clone, Copy, Debug, PartialEq, Eq, Structural)]
pub struct PipelineLayout {
    /// Device handle of the pipeline layout.
    pub handle: u64,
    /// How many descriptor-set layouts the layout binds.
    pub set_layout_count: u32,
    /// Byte offset of the push-constant range.
    pub push_constant_offset: u32,
    /// Byte size of the push-constant range.
    pub push_constant_size: u32,
    /// Shader stages that can read the push constants.
    pub push_constant_stages: u32,
}

/// One vertex attribute: where it sits in the interleaved vertex and which
/// format it has.
#[derive(Clone, Copy, Debug, PartialEq, Eq, Structural)]
pub struct VertexAttribute {
    pub location: u32,
    pub binding: u32,
    pub format: Format,
    pub offset: u32,
}

/// Byte stride of one interleaved vertex: position, normal, tangent,
/// bitangent (three 4-byte floats each) and texcoord (two 4-byte floats).
pub const VERTEX_STRIDE: u32 = 56;

/// The fixed vertex input layout: five attributes, one binding, interleaved.
pub open spec fn vertex_layout() -> Seq<VertexAttribute> {
    seq![
        VertexAttribute { location: 0, binding: 0, format: Format::R32g32b32Sfloat, offset: 0 },
        VertexAttribute { location: 1, binding: 0, format: Format::R32g32b32Sfloat, offset: 12 },
        VertexAttribute { location: 2, binding: 0, format: Format::R32g32b32Sfloat, offset: 24 },
        VertexAttribute { location: 3, binding: 0, format: Format::R32g32b32Sfloat, offset: 36 },
        VertexAttribute { location: 4, binding: 0, format: Format::R32g32Sfloat, offset: 48 },
    ]
}

/// Builds the fixed vertex input layout as a vector, exactly as
/// `vertex_layout` states it.
pub fn build_vertex_layout() -> (v: Vec<VertexAttribute>)
    ensures
        v@ == vertex_layout(),
{
    let mut v: Vec<VertexAttribute> = Vec::new();
    v.push(VertexAttribute { location: 0, binding: 0, format: Format::R32g32b32Sfloat, offset: 0 });
    v.push(
        VertexAttribute { location: 1, binding: 0, format: Format::R32g32b32Sfloat, offset: 12 },
    );
    v.push(
        VertexAttribute { location: 2, binding: 0, format: Format::R32g32b32Sfloat, offset: 24 },
    );
    v.push(
        VertexAttribute { location: 3, binding: 0, format: Format::R32g32b32Sfloat, offset: 36 },
    );
    v.push(VertexAttribute { location: 4, binding: 0, format: Format::R32g32Sfloat, offset: 48 });
    proof {
        assert(v@ =~= vertex_layout());
    }
    v
}

/// Primitive topology of the fixed pipeline.
#[derive(Clone, Copy, Debug, PartialEq, Eq, Structural)]
pub enum Topology {
    TriangleList,
}

/// Which faces the rasterizer culls.
#[derive(Clone, Copy, Debug, PartialEq, Eq, Structural)]
pub enum CullMode {
    Back,
    Front,
}

/// Winding order that counts as front-facing.
#[derive(Clone, Copy, Debug, PartialEq, Eq, Structural)]
pub enum FrontFace {
    CounterClockwise,
    Clockwise,
}

/// Depth-compare operation.
#[derive(Clone, Copy, Debug, PartialEq, Eq, Structural)]
pub enum CompareOp {
    LessOrEqual,
    Always,
}

/// The compiled graphics pipeline: its device handle and the fixed-function
/// state it was built with.
#[derive(Clone, Copy, Debug, PartialEq, Eq, Structural)]
pub struct PipelineDesc {
    /// Device handle of the pipeline.
    pub handle: u64,
    pub topology: Topology,
    pub cull_mode: CullMode,
    pub front_face: FrontFace,
    pub depth_test: bool,
    pub depth_write: bool,
    pub depth_compare: CompareOp,
    /// Whether the single color-blend attachment blends (it does not).
    pub blend_enable: bool,
    /// Byte stride of the vertex binding.
    pub vertex_stride: u32,
    /// Whether viewport and scissor are dynamic state.
    pub dynamic_viewport_scissor: bool,
}

/// A viewport rectangle, in pixels, with the depth range fixed to [0, 1].
#[derive(Clone, Copy, Debug, PartialEq, Eq, Structural)]
pub struct Viewport {
    pub x: i32,
    pub y: i32,
    pub width: u32,
    pub height: u32,
}

/// A scissor rectangle, in pixels.
#[derive(Clone, Copy, Debug, PartialEq, Eq, Structural)]
pub struct Rect2d {
    pub x: i32,
    pub y: i32,
    pub width: u32,
    pub height: u32,
}

/// A framebuffer binding concrete image views to a render pass's
/// attachments.
#[derive(Clone, Copy, Debug, PartialEq, Eq, Structural)]
pub struct Framebuffer {
    /// Device handle of the framebuffer.
    pub handle: u64,
    /// Render pass the framebuffer was built for.
    pub render_pass: u64,
    /// View bound to the color attachment.
    pub color_view: u64,
    /// View bound to the depth attachment.
    pub depth_view: u64,
    pub width: u32,
    pub height: u32,
}

} // verus!
