//! Drawing meshes and models: the commands a render pass records.

use vstd::prelude::*;
use core::ops::Range;
use crate::model::{BindGroup, Material, Mesh, Model};

verus! {

/// A half-open range of indices, vertices or instances: from `start` up to,
/// not including, `end`.
#[derive(Clone, Copy, PartialEq, Eq, Structural, Debug)]
pub struct Span {
    pub start: u32,
    pub end: u32,
}

/// The span a range covers.
pub open spec fn span_of(range: Range<u32>) -> Span {
    Span { start: range.start, end: range.end }
}

/// One command of a render pass.  Buffers are named by the position of
/// their mesh in the model, bind groups by [`BindGroup`].
#[derive(Clone, Copy, PartialEq, Eq, Structural, Debug)]
pub enum DrawCommand {
    /// Use the viewer's render pipeline.
    SetPipeline,
    /// Bind the vertex buffer `buffer` at `slot`, whole.
    SetVertexBuffer { slot: u32, buffer: usize },
    /// Bind the index buffer `buffer`, whole.
    SetIndexBuffer { buffer: usize },
    /// Bind `bind_group` at `index`, without dynamic offsets.
    SetBindGroup { index: u32, bind_group: BindGroup },
    /// Draw the indexed triangles of `indices`, once for each instance.
    DrawIndexed { indices: Span, base_vertex: i32, instances: Span },
    /// Draw the vertices of `vertices` unindexed, once for each instance.
    Draw { vertices: Span, instances: Span },
}

/// A render pass under recording: the commands given so far, oldest first.
#[derive(Clone, PartialEq, Eq, Debug)]
pub struct RenderPass {
    pub commands: Vec<DrawCommand>,
}

impl View for RenderPass {
    type V = Seq<DrawCommand>;

    open spec fn view(&self) -> Seq<DrawCommand> {
        self.commands@
    }
}

/// A colour; each channel is the bit pattern of an IEEE-754 double.
#[derive(Clone, Copy, PartialEq, Eq, Structural, Debug)]
pub struct Color {
    pub r: u64,
    pub g: u64,
    pub b: u64,
    pub a: u64,
}

/// The colour a frame is cleared to: (0.1, 0.2, 0.3, 1.0).
pub open spec fn clear_color() -> Color {
    Color {
        r: 0x3FB9_9999_9999_999A,
        g: 0x3FC9_9999_9999_999A,
        b: 0x3FD3_3333_3333_3333,
        a: 0x3FF0_0000_0000_0000,
    }
}

impl Color {
    /// The colour a frame is cleared to.
    pub fn background() -> (color: Color)
        ensures
            color == clear_color(),
    {
        Color {
            r: 0x3FB9_9999_9999_999A,
            g: 0x3FC9_9999_9999_999A,
            b: 0x3FD3_3333_3333_3333,
            a: 0x3FF0_0000_0000_0000,
        }
    }
}

/// One frame to be encoded: what the targets are cleared to and what the
/// pass draws.
#[derive(Clone, PartialEq, Eq, Debug)]
pub struct Frame {
    pub clear_color: Color,
    /// The depth the depth texture is cleared to, a single; `None` where
    /// the frame has no depth texture.
    pub clear_depth: Option<u32>,
    pub pass: RenderPass,
}

/// The range that holds one instance, the first.
pub open spec fn single_instance() -> Range<u32> {
    Range { start: 0, end: 1 }
}

/// What drawing one mesh with its material records: the mesh's buffers, the
/// material at slot 0, the uniforms at slot 1, the light at slot 2, and one
/// indexed draw over all elements.
pub open spec fn mesh_commands(
    mesh: Mesh,
    material: Material,
    instances: Range<u32>,
    uniforms: BindGroup,
    light: BindGroup,
) -> Seq<DrawCommand> {
    seq![
        DrawCommand::SetVertexBuffer { slot: 0, buffer: mesh.vertex_buffer.id },
        DrawCommand::SetIndexBuffer { buffer: mesh.index_buffer.id },
        DrawCommand::SetBindGroup { index: 0, bind_group: material.bind_group },
        DrawCommand::SetBindGroup { index: 1, bind_group: uniforms },
        DrawCommand::SetBindGroup { index: 2, bind_group: light },
        DrawCommand::DrawIndexed {
            indices: Span { start: 0, end: mesh.num_elements },
            base_vertex: 0,
            instances: span_of(instances),
        },
    ]
}

/// What drawing a model records: [`mesh_commands`] for each mesh in order,
/// each with the material it names.
pub open spec fn model_commands(
    model: Model,
    instances: Range<u32>,
    uniforms: BindGroup,
    light: BindGroup,
) -> Seq<DrawCommand> {
    Seq::new(
        6 * model.meshes@.len(),
        |k: int|
            mesh_commands(
                model.meshes@[k / 6],
                model.materials@[model.meshes@[k / 6].material as int],
                instances,
                uniforms,
                light,
            )[k % 6],
    )
}

/// What drawing one mesh as a light records: the mesh's buffers, the
/// uniforms at slot 0, the light at slot 1, and one indexed draw over all
/// elements.
pub open spec fn light_mesh_commands(
    mesh: Mesh,
    instances: Range<u32>,
    uniforms: BindGroup,
    light: BindGroup,
) -> Seq<DrawCommand> {
    seq![
        DrawCommand::SetVertexBuffer { slot: 0, buffer: mesh.vertex_buffer.id },
        DrawCommand::SetIndexBuffer { buffer: mesh.index_buffer.id },
        DrawCommand::SetBindGroup { index: 0, bind_group: uniforms },
        DrawCommand::SetBindGroup { index: 1, bind_group: light },
        DrawCommand::DrawIndexed {
            indices: Span { start: 0, end: mesh.num_elements },
            base_vertex: 0,
            instances: span_of(instances),
        },
    ]
}

/// What drawing a model as a light records: [`light_mesh_commands`] for
/// each mesh in order.
pub open spec fn light_model_commands(
    model: Model,
    instances: Range<u32>,
    uniforms: BindGroup,
    light: BindGroup,
) -> Seq<DrawCommand> {
    Seq::new(
        5 * model.meshes@.len(),
        |k: int| light_mesh_commands(model.meshes@[k / 5], instances, uniforms, light)[k % 5],
    )
}

/// Drawing with material, uniforms and light.
pub trait DrawModel: View<V = Seq<DrawCommand>> {
    /// Draws one instance of the mesh.
    fn draw_mesh(
        &mut self,
        mesh: &Mesh,
        material: &Material,
        uniforms: BindGroup,
        light: BindGroup,
    )
        ensures
            final(self)@ == old(self)@ + mesh_commands(
                *mesh,
                *material,
                single_instance(),
                uniforms,
                light,
            ),
    ;

    /// Draws the instances of the mesh.
    fn draw_mesh_instanced(
        &mut self,
        mesh: &Mesh,
        material: &Material,
        instances: Range<u32>,
        uniforms: BindGroup,
        light: BindGroup,
    )
        ensures
            final(self)@ == old(self)@ + mesh_commands(
                *mesh,
                *material,
                instances,
                uniforms,
                light,
            ),
    ;

    /// Draws one instance of every mesh of the model.
    fn draw_model(&mut self, model: &Model, uniforms: BindGroup, light: BindGroup)
        requires
            model.materials_resolve(),
        ensures
            final(self)@ == old(self)@ + model_commands(
                *model,
                single_instance(),
                uniforms,
                light,
            ),
    ;

    /// Draws the instances of every mesh of the model.
    fn draw_model_instanced(
        &mut self,
        model: &Model,
        instances: Range<u32>,
        uniforms: BindGroup,
        light: BindGroup,
    )
        requires
            model.materials_resolve(),
        ensures
            final(self)@ == old(self)@ + model_commands(*model, instances, uniforms, light),
    ;
}

/// Drawing as a light: with uniforms and light, without material.
pub trait DrawLight: View<V = Seq<DrawCommand>> {
    /// Draws one instance of the mesh.
    fn draw_light_mesh(&mut self, mesh: &Mesh, uniforms: BindGroup, light: BindGroup)
        ensures
            final(self)@ == old(self)@ + light_mesh_commands(
                *mesh,
                single_instance(),
                uniforms,
                light,
            ),
    ;

    /// Draws the instances of the mesh.
    fn draw_light_mesh_instanced(
        &mut self,
        mesh: &Mesh,
        instances: Range<u32>,
        uniforms: BindGroup,
        light: BindGroup,
    )
        ensures
            final(self)@ == old(self)@ + light_mesh_commands(*mesh, instances, uniforms, light),
    ;

    /// Draws one instance of every mesh of the model.
    fn draw_light_model(&mut self, model: &Model, uniforms: BindGroup, light: BindGroup)
        ensures
            final(self)@ == old(self)@ + light_model_commands(
                *model,
                single_instance(),
                uniforms,
                light,
            ),
    ;

    /// Draws the instances of every mesh of the model.
    fn draw_light_model_instanced(
        &mut self,
        model: &Model,
        instances: Range<u32>,
        uniforms: BindGroup,
        light: BindGroup,
    )
        ensures
            final(self)@ == old(self)@ + light_model_commands(*model, instances, uniforms, light),
    ;
}

impl RenderPass {
    /// A pass with nothing recorded.
    pub fn new() -> (pass: RenderPass)
        ensures
            pass@ == Seq::<DrawCommand>::empty(),
    {
        RenderPass { commands: Vec::new() }
    }

    /// Records the use of the viewer's render pipeline.
    pub fn set_pipeline(&mut self)
        ensures
            final(self)@ == old(self)@.push(DrawCommand::SetPipeline),
    {
        self.commands.push(DrawCommand::SetPipeline);
    }

    /// Records an unindexed draw.
    pub fn draw(&mut self, vertices: Range<u32>, instances: Range<u32>)
        ensures
            final(self)@ == old(self)@.push(
                DrawCommand::Draw { vertices: span_of(vertices), instances: span_of(instances) },
            ),
    {
        self.commands.push(
            DrawCommand::Draw {
                vertices: Span { start: vertices.start, end: vertices.end },
                instances: Span { start: instances.start, end: instances.end },
            },
        );
    }
}

impl DrawModel for RenderPass {
    fn draw_mesh(
        &mut self,
        mesh: &Mesh,
        material: &Material,
        uniforms: BindGroup,
        light: BindGroup,
    ) {
        self.draw_mesh_instanced(mesh, material, 0..1, uniforms, light);
    }

    fn draw_mesh_instanced(
        &mut self,
        mesh: &Mesh,
        material: &Material,
        instances: Range<u32>,
        uniforms: BindGroup,
        light: BindGroup,
    ) {
        self.commands.push(DrawCommand::SetVertexBuffer { slot: 0, buffer: mesh.vertex_buffer.id });
        self.commands.push(DrawCommand::SetIndexBuffer { buffer: mesh.index_buffer.id });
        self.commands.push(DrawCommand::SetBindGroup { index: 0, bind_group: material.bind_group });
        self.commands.push(DrawCommand::SetBindGroup { index: 1, bind_group: uniforms });
        self.commands.push(DrawCommand::SetBindGroup { index: 2, bind_group: light });
        self.commands.push(
            DrawCommand::DrawIndexed {
                indices: Span { start: 0, end: mesh.num_elements },
                base_vertex: 0,
                instances: Span { start: instances.start, end: instances.end },
            },
        );
        assert(self@ =~= old(self)@ + mesh_commands(*mesh, *material, instances, uniforms, light));
    }

    fn draw_model(&mut self, model: &Model, uniforms: BindGroup, light: BindGroup) {
        self.draw_model_instanced(model, 0..1, uniforms, light);
    }

    fn draw_model_instanced(
        &mut self,
        model: &Model,
        instances: Range<u32>,
        uniforms: BindGroup,
        light: BindGroup,
    ) {
        let mut j: usize = 0;
        while j < model.meshes.len()
            invariant
                model.materials_resolve(),
                j <= model.meshes.len(),
                self@.len() == old(self)@.len() + 6 * j,
                forall|k: int| 0 <= k < old(self)@.len() ==> self@[k] == old(self)@[k],
                forall|k: int|
                    0 <= k < 6 * j ==> self@[old(self)@.len() + k] == model_commands(
                        *model,
                        instances,
                        uniforms,
                        light,
                    )[k],
            decreases model.meshes.len() - j,
        {
            let mesh = &model.meshes[j];
            let material = &model.materials[mesh.material];
            let ghost before = self@;
            self.draw_mesh_instanced(
                mesh,
                material,
                instances.start..instances.end,
                uniforms,
                light,
            );
            assert forall|k: int| 0 <= k < 6 * (j + 1) implies self@[old(self)@.len() + k]
                == model_commands(*model, instances, uniforms, light)[k] by {
                if k >= 6 * j {
                    assert(k / 6 == j);
                    assert(self@[old(self)@.len() + k] == mesh_commands(
                        *mesh,
                        *material,
                        instances,
                        uniforms,
                        light,
                    )[k - 6 * j]);
                } else {
                    assert(self@[old(self)@.len() + k] == before[old(self)@.len() + k]);
                }
            }
            j += 1;
        }
        assert(self@ =~= old(self)@ + model_commands(*model, instances, uniforms, light));
    }
}

impl DrawLight for RenderPass {
    fn draw_light_mesh(&mut self, mesh: &Mesh, uniforms: BindGroup, light: BindGroup) {
        self.draw_light_mesh_instanced(mesh, 0..1, uniforms, light);
    }

    fn draw_light_mesh_instanced(
        &mut self,
        mesh: &Mesh,
        instances: Range<u32>,
        uniforms: BindGroup,
        light: BindGroup,
    ) {
        self.commands.push(DrawCommand::SetVertexBuffer { slot: 0, buffer: mesh.vertex_buffer.id });
        self.commands.push(DrawCommand::SetIndexBuffer { buffer: mesh.index_buffer.id });
        self.commands.push(DrawCommand::SetBindGroup { index: 0, bind_group: uniforms });
        self.commands.push(DrawCommand::SetBindGroup { index: 1, bind_group: light });
        self.commands.push(
            DrawCommand::DrawIndexed {
                indices: Span { start: 0, end: mesh.num_elements },
                base_vertex: 0,
                instances: Span { start: instances.start, end: instances.end },
            },
        );
        assert(self@ =~= old(self)@ + light_mesh_commands(*mesh, instances, uniforms, light));
    }

    fn draw_light_model(&mut self, model: &Model, uniforms: BindGroup, light: BindGroup) {
        self.draw_light_model_instanced(model, 0..1, uniforms, light);
    }

    fn draw_light_model_instanced(
        &mut self,
        model: &Model,
        instances: Range<u32>,
        uniforms: BindGroup,
        light: BindGroup,
    ) {
        let mut j: usize = 0;
        while j < model.meshes.len()
            invariant
                j <= model.meshes.len(),
                self@.len() == old(self)@.len() + 5 * j,
                forall|k: int| 0 <= k < old(self)@.len() ==> self@[k] == old(self)@[k],
                forall|k: int|
                    0 <= k < 5 * j ==> self@[old(self)@.len() + k] == light_model_commands(
                        *model,
                        instances,
                        uniforms,
                        light,
                    )[k],
            decreases model.meshes.len() - j,
        {
            let mesh = &model.meshes[j];
            let ghost before = self@;
            self.draw_light_mesh_instanced(mesh, instances.start..instances.end, uniforms, light);
            assert forall|k: int| 0 <= k < 5 * (j + 1) implies self@[old(self)@.len() + k]
                == light_model_commands(*model, instances, uniforms, light)[k] by {
                if k >= 5 * j {
                    assert(k / 5 == j);
                    assert(self@[old(self)@.len() + k] == light_mesh_commands(
                        *mesh,
                        instances,
                        uniforms,
                        light,
                    )[k - 5 * j]);
                } else {
                    assert(self@[old(self)@.len() + k] == before[old(self)@.len() + k]);
                }
            }
            j += 1;
        }
        assert(self@ =~= old(self)@ + light_model_commands(*model, instances, uniforms, light));
    }
}

} // verus!
