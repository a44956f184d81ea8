//! What the GPU is told about the viewer's data: the surface, the
//! bind-group layouts, and the render pipeline.

use vstd::prelude::*;
use crate::draw::DrawCommand;
use crate::model::{BindGroup, ModelVertex, Vertex, VertexBufferDescriptor, VertexLayout};
use crate::texture::{TextureFormat, DEPTH_FORMAT};

verus! {

/// How finished frames reach the screen.
#[derive(Clone, Copy, PartialEq, Eq, Structural, Debug)]
pub enum PresentMode {
    Immediate,
    Mailbox,
    /// In order, one per refresh of the display.
    Fifo,
}

/// The configuration of the window's presentation surface.
#[derive(Clone, Copy, PartialEq, Eq, Structural, Debug)]
pub struct SwapChainDescriptor {
    pub format: TextureFormat,
    pub width: u32,
    pub height: u32,
    pub present_mode: PresentMode,
}

/// The shader stage a binding is visible to.
#[derive(Clone, Copy, PartialEq, Eq, Structural, Debug)]
pub enum ShaderStage {
    Vertex,
    Fragment,
}

/// What kind of resource a binding takes.
#[derive(Clone, Copy, PartialEq, Eq, Structural, Debug)]
pub enum BindingType {
    /// A uniform buffer at a fixed offset.
    UniformBuffer,
    /// A storage buffer at a fixed offset.
    StorageBuffer { readonly: bool },
    /// A sampler that does not compare.
    Sampler,
    /// A two-dimensional texture with one sample per pixel.
    SampledTexture,
}

/// One binding of a bind-group layout.
#[derive(Clone, Copy, PartialEq, Eq, Structural, Debug)]
pub struct BindGroupLayoutEntry {
    pub binding: u32,
    pub visibility: ShaderStage,
    pub ty: BindingType,
}

/// The two bind-group layouts of the viewer.
#[derive(Clone, Copy, PartialEq, Eq, Structural, Debug)]
pub enum BindGroupLayout {
    /// A texture and its sampler, for the fragment stage.
    Texture,
    /// The camera matrix and the instance matrices, for the vertex stage.
    Uniform,
}

/// A resource bound in a bind group.
#[derive(Clone, Copy, PartialEq, Eq, Structural, Debug)]
pub enum BindingResource {
    /// The view of the group's texture.
    TextureView,
    /// The sampler of the group's texture.
    Sampler,
    /// The whole buffer that holds the camera matrix.
    UniformBuffer,
    /// The whole buffer that holds the instance matrices.
    InstanceBuffer,
}

/// One binding of a bind group.
#[derive(Clone, Copy, PartialEq, Eq, Structural, Debug)]
pub struct BindGroupEntry {
    pub binding: u32,
    pub resource: BindingResource,
}

impl BindingResource {
    /// Whether a binding of type `ty` takes this resource.
    pub open spec fn fits(self, ty: BindingType) -> bool {
        match self {
            BindingResource::TextureView => ty == BindingType::SampledTexture,
            BindingResource::Sampler => ty == BindingType::Sampler,
            BindingResource::UniformBuffer => ty == BindingType::UniformBuffer,
            BindingResource::InstanceBuffer => ty is StorageBuffer,
        }
    }
}

impl BindGroupLayout {
    /// The bindings of the layout.
    pub open spec fn spec_entries(self) -> Seq<BindGroupLayoutEntry> {
        match self {
            BindGroupLayout::Texture => seq![
                BindGroupLayoutEntry {
                    binding: 0,
                    visibility: ShaderStage::Fragment,
                    ty: BindingType::SampledTexture,
                },
                BindGroupLayoutEntry {
                    binding: 1,
                    visibility: ShaderStage::Fragment,
                    ty: BindingType::Sampler,
                },
            ],
            BindGroupLayout::Uniform => seq![
                BindGroupLayoutEntry {
                    binding: 0,
                    visibility: ShaderStage::Vertex,
                    ty: BindingType::UniformBuffer,
                },
                BindGroupLayoutEntry {
                    binding: 1,
                    visibility: ShaderStage::Vertex,
                    ty: BindingType::StorageBuffer { readonly: true },
                },
            ],
        }
    }

    /// The bindings of the layout.
    pub fn entries(self) -> (entries: Vec<BindGroupLayoutEntry>)
        ensures
            entries@ == self.spec_entries(),
    {
        let mut entries: Vec<BindGroupLayoutEntry> = Vec::new();
        match self {
            BindGroupLayout::Texture => {
                entries.push(
                    BindGroupLayoutEntry {
                        binding: 0,
                        visibility: ShaderStage::Fragment,
                        ty: BindingType::SampledTexture,
                    },
                );
                entries.push(
                    BindGroupLayoutEntry {
                        binding: 1,
                        visibility: ShaderStage::Fragment,
                        ty: BindingType::Sampler,
                    },
                );
            },
            BindGroupLayout::Uniform => {
                entries.push(
                    BindGroupLayoutEntry {
                        binding: 0,
                        visibility: ShaderStage::Vertex,
                        ty: BindingType::UniformBuffer,
                    },
                );
                entries.push(
                    BindGroupLayoutEntry {
                        binding: 1,
                        visibility: ShaderStage::Vertex,
                        ty: BindingType::StorageBuffer { readonly: true },
                    },
                );
            },
        }
        assert(entries@ =~= self.spec_entries());
        entries
    }
}

impl BindGroup {
    /// The layout the group is made for.
    pub open spec fn spec_layout(self) -> BindGroupLayout {
        match self {
            BindGroup::Diffuse => BindGroupLayout::Texture,
            BindGroup::Material(_) => BindGroupLayout::Texture,
            BindGroup::Uniform => BindGroupLayout::Uniform,
        }
    }

    /// The resources of the group.
    pub open spec fn spec_entries(self) -> Seq<BindGroupEntry> {
        match self.spec_layout() {
            BindGroupLayout::Texture => seq![
                BindGroupEntry { binding: 0, resource: BindingResource::TextureView },
                BindGroupEntry { binding: 1, resource: BindingResource::Sampler },
            ],
            BindGroupLayout::Uniform => seq![
                BindGroupEntry { binding: 0, resource: BindingResource::UniformBuffer },
                BindGroupEntry { binding: 1, resource: BindingResource::InstanceBuffer },
            ],
        }
    }

    /// The layout the group is made for.
    #[verifier::when_used_as_spec(spec_layout)]
    pub fn layout(self) -> (layout: BindGroupLayout)
        ensures
            layout == self.spec_layout(),
    {
        match self {
            BindGroup::Diffuse => BindGroupLayout::Texture,
            BindGroup::Material(_) => BindGroupLayout::Texture,
            BindGroup::Uniform => BindGroupLayout::Uniform,
        }
    }

    /// The resources of the group, one for each binding of its layout.
    pub fn entries(self) -> (entries: Vec<BindGroupEntry>)
        ensures
            entries@ == self.spec_entries(),
    {
        let mut entries: Vec<BindGroupEntry> = Vec::new();
        match self.layout() {
            BindGroupLayout::Texture => {
                entries.push(BindGroupEntry { binding: 0, resource: BindingResource::TextureView });
                entries.push(BindGroupEntry { binding: 1, resource: BindingResource::Sampler });
            },
            BindGroupLayout::Uniform => {
                entries.push(
                    BindGroupEntry { binding: 0, resource: BindingResource::UniformBuffer },
                );
                entries.push(
                    BindGroupEntry { binding: 1, resource: BindingResource::InstanceBuffer },
                );
            },
        }
        assert(entries@ =~= self.spec_entries());
        entries
    }
}

/// Every bind group answers its layout binding for binding: as many
/// entries, the same binding numbers, and a resource of the type the layout
/// asks for.
pub proof fn lemma_bind_group_fits_layout(group: BindGroup)
    ensures
        group.spec_entries().len() == group.spec_layout().spec_entries().len(),
        forall|i: int|
            0 <= i < group.spec_entries().len() ==> {
                &&& (#[trigger] group.spec_entries()[i]).binding
                    == group.spec_layout().spec_entries()[i].binding
                &&& group.spec_entries()[i].resource.fits(group.spec_layout().spec_entries()[i].ty)
            },
{
}

/// Which side of a triangle is its front.
#[derive(Clone, Copy, PartialEq, Eq, Structural, Debug)]
pub enum FrontFace {
    /// The side on which the corners run counter-clockwise.
    Ccw,
    Cw,
}

/// Which triangles are left out.
#[derive(Clone, Copy, PartialEq, Eq, Structural, Debug)]
pub enum CullMode {
    /// No triangle is left out.
    Nothing,
    Front,
    Back,
}

/// How vertices make up primitives.
#[derive(Clone, Copy, PartialEq, Eq, Structural, Debug)]
pub enum PrimitiveTopology {
    /// Every three vertices are one triangle.
    TriangleList,
}

/// How a new colour meets the one already there.
#[derive(Clone, Copy, PartialEq, Eq, Structural, Debug)]
pub enum BlendDescriptor {
    /// The new colour takes its place.
    Replace,
}

/// The test a fragment's depth has to pass.
#[derive(Clone, Copy, PartialEq, Eq, Structural, Debug)]
pub enum CompareFunction {
    /// Nearer than what is there.
    Less,
}

/// The width of an index.
#[derive(Clone, Copy, PartialEq, Eq, Structural, Debug)]
pub enum IndexFormat {
    Uint32,
}

/// The colour target of a pipeline; every channel is written.
#[derive(Clone, Copy, PartialEq, Eq, Structural, Debug)]
pub struct ColorStateDescriptor {
    pub format: TextureFormat,
    pub color_blend: BlendDescriptor,
    pub alpha_blend: BlendDescriptor,
}

/// The depth test of a pipeline; the stencil is left alone.
#[derive(Clone, Copy, PartialEq, Eq, Structural, Debug)]
pub struct DepthStencilStateDescriptor {
    pub format: TextureFormat,
    pub depth_write_enabled: bool,
    pub depth_compare: CompareFunction,
}

/// A render pipeline.  Both shader stages enter at `main`; depth bias and
/// depth clamping are off.
#[derive(Clone, PartialEq, Eq, Debug)]
pub struct RenderPipelineDescriptor {
    /// The layouts of the bind groups, by slot.
    pub bind_group_layouts: Vec<BindGroupLayout>,
    pub front_face: FrontFace,
    pub cull_mode: CullMode,
    pub primitive_topology: PrimitiveTopology,
    pub color_state: ColorStateDescriptor,
    pub depth_stencil_state: Option<DepthStencilStateDescriptor>,
    pub index_format: IndexFormat,
    /// The layouts of the vertex buffers, by slot.
    pub vertex_buffers: Vec<VertexBufferDescriptor>,
    pub sample_count: u32,
    pub sample_mask: u32,
    pub alpha_to_coverage_enabled: bool,
}

/// The mathematical content of a [`RenderPipelineDescriptor`].
pub struct RenderPipeline {
    pub bind_group_layouts: Seq<BindGroupLayout>,
    pub front_face: FrontFace,
    pub cull_mode: CullMode,
    pub primitive_topology: PrimitiveTopology,
    pub color_state: ColorStateDescriptor,
    pub depth_stencil_state: Option<DepthStencilStateDescriptor>,
    pub index_format: IndexFormat,
    pub vertex_buffers: Seq<VertexLayout>,
    pub sample_count: u32,
    pub sample_mask: u32,
    pub alpha_to_coverage_enabled: bool,
}

impl View for RenderPipelineDescriptor {
    type V = RenderPipeline;

    open spec fn view(&self) -> RenderPipeline {
        RenderPipeline {
            bind_group_layouts: self.bind_group_layouts@,
            front_face: self.front_face,
            cull_mode: self.cull_mode,
            primitive_topology: self.primitive_topology,
            color_state: self.color_state,
            depth_stencil_state: self.depth_stencil_state,
            index_format: self.index_format,
            vertex_buffers: Seq::new(
                self.vertex_buffers@.len(),
                |i: int| self.vertex_buffers@[i]@,
            ),
            sample_count: self.sample_count,
            sample_mask: self.sample_mask,
            alpha_to_coverage_enabled: self.alpha_to_coverage_enabled,
        }
    }
}

impl RenderPipeline {
    /// Whether a pass that uses this pipeline may hold `command`: a bind
    /// group goes to a slot the pipeline has, and is made for the layout of
    /// that slot; a vertex buffer goes to a slot the pipeline has.
    pub open spec fn accepts(self, command: DrawCommand) -> bool {
        match command {
            DrawCommand::SetBindGroup { index, bind_group } => {
                &&& index < self.bind_group_layouts.len()
                &&& self.bind_group_layouts[index as int] == bind_group.spec_layout()
            },
            DrawCommand::SetVertexBuffer { slot, buffer } => slot < self.vertex_buffers.len(),
            _ => true,
        }
    }
}

/// The pipeline that draws models onto a surface of the given format.
///
/// It has three bind-group slots, because a draw of a mesh binds three
/// groups: the material at slot 0, the uniforms at slot 1 and the light at
/// slot 2.  A pipeline with the texture and the uniform layout alone would
/// have no slot for the third, and the device would refuse the frame.  The
/// viewer has no light group of its own and binds the uniform group there,
/// so slot 2 takes the uniform layout as slot 1 does.
///
/// The rest: counter-clockwise triangles with their backs culled;
/// colours replaced; depth tested with "less" in [`DEPTH_FORMAT`] and
/// written; 32-bit indices; one vertex buffer of [`ModelVertex`] records.
pub open spec fn model_pipeline(format: TextureFormat) -> RenderPipeline {
    RenderPipeline {
        bind_group_layouts: seq![
            BindGroupLayout::Texture,
            BindGroupLayout::Uniform,
            BindGroupLayout::Uniform,
        ],
        front_face: FrontFace::Ccw,
        cull_mode: CullMode::Back,
        primitive_topology: PrimitiveTopology::TriangleList,
        color_state: ColorStateDescriptor {
            format,
            color_blend: BlendDescriptor::Replace,
            alpha_blend: BlendDescriptor::Replace,
        },
        depth_stencil_state: Some(
            DepthStencilStateDescriptor {
                format: DEPTH_FORMAT,
                depth_write_enabled: true,
                depth_compare: CompareFunction::Less,
            },
        ),
        index_format: IndexFormat::Uint32,
        vertex_buffers: seq![ModelVertex::layout()],
        sample_count: 1,
        sample_mask: 0,
        alpha_to_coverage_enabled: false,
    }
}

/// Describes the pipeline that draws models onto a surface of the given
/// format.
pub fn model_pipeline_descriptor(format: TextureFormat) -> (descriptor: RenderPipelineDescriptor)
    ensures
        descriptor@ == model_pipeline(format),
{
    let mut bind_group_layouts: Vec<BindGroupLayout> = Vec::new();
    bind_group_layouts.push(BindGroupLayout::Texture);
    bind_group_layouts.push(BindGroupLayout::Uniform);
    bind_group_layouts.push(BindGroupLayout::Uniform);
    let mut vertex_buffers: Vec<VertexBufferDescriptor> = Vec::new();
    vertex_buffers.push(ModelVertex::desc());
    let descriptor = RenderPipelineDescriptor {
        bind_group_layouts,
        front_face: FrontFace::Ccw,
        cull_mode: CullMode::Back,
        primitive_topology: PrimitiveTopology::TriangleList,
        color_state: ColorStateDescriptor {
            format,
            color_blend: BlendDescriptor::Replace,
            alpha_blend: BlendDescriptor::Replace,
        },
        depth_stencil_state: Some(
            DepthStencilStateDescriptor {
                format: DEPTH_FORMAT,
                depth_write_enabled: true,
                depth_compare: CompareFunction::Less,
            },
        ),
        index_format: IndexFormat::Uint32,
        vertex_buffers,
        sample_count: 1,
        sample_mask: 0,
        alpha_to_coverage_enabled: false,
    };
    assert(descriptor@.bind_group_layouts =~= model_pipeline(format).bind_group_layouts);
    assert(descriptor@.vertex_buffers =~= model_pipeline(format).vertex_buffers);
    descriptor
}

} // verus!
