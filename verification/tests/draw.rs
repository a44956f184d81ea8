use viewer_core::draw::{DrawCommand, DrawLight, DrawModel, RenderPass, Span};
use viewer_core::model::{BindGroup, Material, Mesh, Model, ObjMaterial, ObjMesh, ObjModel};

fn source(name: &str, indices: usize, material_id: Option<usize>) -> ObjModel {
    ObjModel {
        name: name.to_string(),
        mesh: ObjMesh {
            positions: vec![0; 9],
            normals: vec![0; 9],
            texcoords: vec![0; 6],
            indices: vec![0; indices],
            material_id,
        },
    }
}

fn model() -> Model {
    let materials = vec![
        ObjMaterial { name: "a".to_string(), diffuse_texture: "a.png".to_string() },
        ObjMaterial { name: "b".to_string(), diffuse_texture: "b.png".to_string() },
    ];
    let meshes = vec![source("one", 3, Some(1)), source("two", 6, None)];
    Model::load(&meshes, &materials, Some("res")).unwrap()
}

fn standard(mesh: &Mesh, material: &Material, instances: Span) -> Vec<DrawCommand> {
    vec![
        DrawCommand::SetVertexBuffer { slot: 0, buffer: mesh.vertex_buffer.id },
        DrawCommand::SetIndexBuffer { buffer: mesh.index_buffer.id },
        DrawCommand::SetBindGroup { index: 0, bind_group: material.bind_group },
        DrawCommand::SetBindGroup { index: 1, bind_group: BindGroup::Uniform },
        DrawCommand::SetBindGroup { index: 2, bind_group: BindGroup::Diffuse },
        DrawCommand::DrawIndexed {
            indices: Span { start: 0, end: mesh.num_elements },
            base_vertex: 0,
            instances,
        },
    ]
}

fn light(mesh: &Mesh, instances: Span) -> Vec<DrawCommand> {
    vec![
        DrawCommand::SetVertexBuffer { slot: 0, buffer: mesh.vertex_buffer.id },
        DrawCommand::SetIndexBuffer { buffer: mesh.index_buffer.id },
        DrawCommand::SetBindGroup { index: 0, bind_group: BindGroup::Uniform },
        DrawCommand::SetBindGroup { index: 1, bind_group: BindGroup::Diffuse },
        DrawCommand::DrawIndexed {
            indices: Span { start: 0, end: mesh.num_elements },
            base_vertex: 0,
            instances,
        },
    ]
}

#[test]
fn new_pass_is_empty() {
    assert!(RenderPass::new().commands.is_empty());
}

#[test]
fn draw_mesh_instanced_binds_buffers_and_three_groups_then_draws() {
    let model = model();
    let mut pass = RenderPass::new();
    pass.draw_mesh_instanced(
        &model.meshes[0],
        &model.materials[1],
        2..9,
        BindGroup::Uniform,
        BindGroup::Diffuse,
    );
    assert_eq!(
        pass.commands,
        vec![
            DrawCommand::SetVertexBuffer { slot: 0, buffer: 0 },
            DrawCommand::SetIndexBuffer { buffer: 0 },
            DrawCommand::SetBindGroup { index: 0, bind_group: BindGroup::Material(1) },
            DrawCommand::SetBindGroup { index: 1, bind_group: BindGroup::Uniform },
            DrawCommand::SetBindGroup { index: 2, bind_group: BindGroup::Diffuse },
            DrawCommand::DrawIndexed {
                indices: Span { start: 0, end: 3 },
                base_vertex: 0,
                instances: Span { start: 2, end: 9 },
            },
        ]
    );
}

#[test]
fn draw_mesh_draws_one_instance() {
    let model = model();
    let mut single = RenderPass::new();
    single.draw_mesh(&model.meshes[1], &model.materials[0], BindGroup::Uniform, BindGroup::Diffuse);
    let mut ranged = RenderPass::new();
    ranged.draw_mesh_instanced(
        &model.meshes[1],
        &model.materials[0],
        0..1,
        BindGroup::Uniform,
        BindGroup::Diffuse,
    );
    assert_eq!(single, ranged);
    assert_eq!(
        single.commands,
        standard(&model.meshes[1], &model.materials[0], Span { start: 0, end: 1 })
    );
}

#[test]
fn draw_model_instanced_draws_every_mesh_with_its_material() {
    let model = model();
    let mut pass = RenderPass::new();
    pass.set_pipeline();
    pass.draw_model_instanced(&model, 0..100, BindGroup::Uniform, BindGroup::Diffuse);
    let instances = Span { start: 0, end: 100 };
    let mut expected = vec![DrawCommand::SetPipeline];
    expected.extend(standard(&model.meshes[0], &model.materials[1], instances));
    expected.extend(standard(&model.meshes[1], &model.materials[0], instances));
    assert_eq!(pass.commands, expected);
    assert_eq!(pass.commands.len(), 1 + 6 * 2);
}

#[test]
fn draw_model_draws_one_instance_of_every_mesh() {
    let model = model();
    let mut single = RenderPass::new();
    single.draw_model(&model, BindGroup::Uniform, BindGroup::Diffuse);
    let mut ranged = RenderPass::new();
    ranged.draw_model_instanced(&model, 0..1, BindGroup::Uniform, BindGroup::Diffuse);
    assert_eq!(single, ranged);
    assert_eq!(single.commands.len(), 12);
}

#[test]
fn draw_model_of_no_meshes_records_nothing() {
    let empty = Model::load(&vec![], &vec![], Some("res")).unwrap();
    let mut pass = RenderPass::new();
    pass.draw_model_instanced(&empty, 0..5, BindGroup::Uniform, BindGroup::Diffuse);
    pass.draw_light_model_instanced(&empty, 0..5, BindGroup::Uniform, BindGroup::Diffuse);
    assert!(pass.commands.is_empty());
}

#[test]
fn draw_light_mesh_instanced_binds_two_groups_and_no_material() {
    let model = model();
    let mut pass = RenderPass::new();
    pass.draw_light_mesh_instanced(&model.meshes[1], 3..4, BindGroup::Uniform, BindGroup::Diffuse);
    assert_eq!(
        pass.commands,
        vec![
            DrawCommand::SetVertexBuffer { slot: 0, buffer: 1 },
            DrawCommand::SetIndexBuffer { buffer: 1 },
            DrawCommand::SetBindGroup { index: 0, bind_group: BindGroup::Uniform },
            DrawCommand::SetBindGroup { index: 1, bind_group: BindGroup::Diffuse },
            DrawCommand::DrawIndexed {
                indices: Span { start: 0, end: 6 },
                base_vertex: 0,
                instances: Span { start: 3, end: 4 },
            },
        ]
    );
}

#[test]
fn draw_light_mesh_draws_one_instance() {
    let model = model();
    let mut single = RenderPass::new();
    single.draw_light_mesh(&model.meshes[0], BindGroup::Uniform, BindGroup::Diffuse);
    assert_eq!(single.commands, light(&model.meshes[0], Span { start: 0, end: 1 }));
}

#[test]
fn draw_light_model_draws_every_mesh() {
    let model = model();
    let mut pass = RenderPass::new();
    pass.draw_light_model_instanced(&model, 4..6, BindGroup::Uniform, BindGroup::Diffuse);
    let instances = Span { start: 4, end: 6 };
    let mut expected = light(&model.meshes[0], instances);
    expected.extend(light(&model.meshes[1], instances));
    assert_eq!(pass.commands, expected);

    let mut single = RenderPass::new();
    single.draw_light_model(&model, BindGroup::Uniform, BindGroup::Diffuse);
    let mut expected = light(&model.meshes[0], Span { start: 0, end: 1 });
    expected.extend(light(&model.meshes[1], Span { start: 0, end: 1 }));
    assert_eq!(single.commands, expected);
}

#[test]
fn draws_add_to_what_the_pass_holds() {
    let model = model();
    let mut pass = RenderPass::new();
    pass.draw(0..3, 0..1);
    pass.draw_light_mesh(&model.meshes[0], BindGroup::Uniform, BindGroup::Diffuse);
    pass.draw_mesh(&model.meshes[0], &model.materials[0], BindGroup::Uniform, BindGroup::Diffuse);
    assert_eq!(pass.commands.len(), 1 + 5 + 6);
    assert_eq!(
        pass.commands[0],
        DrawCommand::Draw { vertices: Span { start: 0, end: 3 }, instances: Span { start: 0, end: 1 } }
    );
}
