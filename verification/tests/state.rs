use viewer_core::camera::{AspectRatio, CameraController, CameraStep};
use viewer_core::draw::{Color, DrawCommand, Span};
use viewer_core::event::{
    ElementState, Event, KeyboardInput, PhysicalSize, VirtualKeyCode, WindowEvent,
};
use viewer_core::instance::instance_grid;
use viewer_core::model::{BindGroup, Model, ObjMaterial, ObjMesh, ObjModel};
use viewer_core::pipeline::{PresentMode, SwapChainDescriptor};
use viewer_core::state::{
    starting_camera, surface_descriptor, Reaction, State, CAMERA_SPEED, EYE_DEPTH, EYE_HEIGHT,
    FIELD_OF_VIEW, ONE, ZERO, Z_FAR, Z_NEAR,
};
use viewer_core::texture::{TextureDescriptor, TextureFormat};

fn size(width: u32, height: u32) -> PhysicalSize {
    PhysicalSize { width, height }
}

fn cube_like() -> Model {
    let meshes = vec![ObjModel {
        name: "cube".to_string(),
        mesh: ObjMesh {
            positions: vec![0; 9],
            normals: vec![0; 9],
            texcoords: vec![0; 6],
            indices: vec![0, 1, 2],
            material_id: Some(0),
        },
    }];
    let materials =
        vec![ObjMaterial { name: "stone".to_string(), diffuse_texture: "stone.png".to_string() }];
    Model::load(&meshes, &materials, Some("res")).unwrap()
}

fn state(width: u32, height: u32) -> State {
    State::new(size(width, height), cube_like())
}

fn own(event: WindowEvent) -> Event {
    Event::WindowEvent { event, own_window: true }
}

fn key(state: ElementState, code: VirtualKeyCode) -> WindowEvent {
    WindowEvent::KeyboardInput { input: KeyboardInput { state, virtual_keycode: Some(code) } }
}

fn ratio(aspect: AspectRatio) -> f32 {
    aspect.width as f32 / aspect.height as f32
}

#[test]
fn constants_are_the_numbers_they_stand_for() {
    assert_eq!(f32::from_bits(ZERO), 0.0);
    assert_eq!(f32::from_bits(ONE), 1.0);
    assert_eq!(f32::from_bits(EYE_HEIGHT), 5.0);
    assert_eq!(f32::from_bits(EYE_DEPTH), -10.0);
    assert_eq!(f32::from_bits(FIELD_OF_VIEW), 45.0);
    assert_eq!(f32::from_bits(Z_NEAR), 0.1);
    assert_eq!(f32::from_bits(Z_FAR), 100.0);
    assert_eq!(f32::from_bits(CAMERA_SPEED), 0.2);
    let color = Color::background();
    assert_eq!(
        (
            f64::from_bits(color.r),
            f64::from_bits(color.g),
            f64::from_bits(color.b),
            f64::from_bits(color.a)
        ),
        (0.1, 0.2, 0.3, 1.0)
    );
}

#[test]
fn new_state_has_the_starting_camera_and_the_grid() {
    let state = state(800, 600);
    assert_eq!(state.size, size(800, 600));
    assert_eq!(
        state.sc_desc,
        SwapChainDescriptor {
            format: TextureFormat::Bgra8UnormSrgb,
            width: 800,
            height: 600,
            present_mode: PresentMode::Fifo,
        }
    );
    let eye: Vec<f32> = state.camera.eye.iter().map(|b| f32::from_bits(*b)).collect();
    let target: Vec<f32> = state.camera.target.iter().map(|b| f32::from_bits(*b)).collect();
    let up: Vec<f32> = state.camera.up.iter().map(|b| f32::from_bits(*b)).collect();
    assert_eq!(eye, vec![0.0, 5.0, -10.0]);
    assert_eq!(target, vec![0.0, 0.0, 0.0]);
    assert_eq!(up, vec![0.0, 1.0, 0.0]);
    assert_eq!(state.camera.aspect, AspectRatio { width: 800, height: 600 });
    assert_eq!(f32::from_bits(state.camera.fovy), 45.0);
    assert_eq!(f32::from_bits(state.camera.znear), 0.1);
    assert_eq!(f32::from_bits(state.camera.zfar), 100.0);
    assert_eq!(state.camera_controller, CameraController::new(0.2f32.to_bits()));
    assert_eq!(state.instances, instance_grid());
    assert_eq!(state.instances.len(), 100);
    assert_eq!(state.diffuse_bind_group, BindGroup::Diffuse);
    assert_eq!(state.uniform_bind_group, BindGroup::Uniform);
    assert_eq!(state.obj_model, cube_like());
    assert_eq!(
        state.depth_texture,
        TextureDescriptor {
            width: 800,
            height: 600,
            format: TextureFormat::Depth32Float,
            output_attachment: true,
            sampled: true,
            copy_src: false,
            copy_dst: false,
        }
    );
    assert_eq!(state.render_pipeline.color_state.format, state.sc_desc.format);
}

#[test]
fn resize_gives_the_ratio_of_the_new_size() {
    for (width, height) in [(1024, 1024), (1024, 768), (600, 800), (800, 600), (1, 7)] {
        let mut wide = state(width, height);
        wide.resize(size(800, 600));
        assert_eq!(wide.camera.aspect, AspectRatio { width: 800, height: 600 });
        assert_eq!(ratio(wide.camera.aspect), 800.0f32 / 600.0f32);
        assert!((ratio(wide.camera.aspect) - 1.3333).abs() < 1e-4);

        let mut tall = state(width, height);
        tall.resize(size(600, 800));
        assert_eq!(tall.camera.aspect, AspectRatio { width: 600, height: 800 });
        assert_eq!(ratio(tall.camera.aspect), 0.75);
    }
}

#[test]
fn resize_after_resize_gives_the_ratio_of_the_last() {
    let mut state = state(1024, 1024);
    state.resize(size(800, 600));
    assert_eq!(ratio(state.camera.aspect), 800.0f32 / 600.0f32);
    state.resize(size(600, 800));
    assert_eq!(ratio(state.camera.aspect), 0.75);
    assert_eq!(state.size, size(600, 800));
    assert_eq!((state.sc_desc.width, state.sc_desc.height), (600, 800));
    assert_eq!((state.depth_texture.width, state.depth_texture.height), (600, 800));
}

#[test]
fn resize_to_the_same_size_twice_changes_nothing_more() {
    let mut state = state(1024, 1024);
    state.resize(size(640, 480));
    let once = state.clone();
    state.resize(size(640, 480));
    assert_eq!(state, once);
    assert_eq!(ratio(state.camera.aspect), 640.0f32 / 480.0f32);
}

#[test]
fn resize_keeps_everything_but_sizes_and_ratio() {
    let before = state(800, 600);
    let mut after = before.clone();
    after.resize(size(1024, 768));
    assert_eq!(after.sc_desc.format, before.sc_desc.format);
    assert_eq!(after.sc_desc.present_mode, before.sc_desc.present_mode);
    assert_eq!(after.render_pipeline, before.render_pipeline);
    assert_eq!(after.camera.eye, before.camera.eye);
    assert_eq!(after.camera.target, before.camera.target);
    assert_eq!(after.camera.up, before.camera.up);
    assert_eq!(after.camera.fovy, before.camera.fovy);
    assert_eq!(after.camera_controller, before.camera_controller);
    assert_eq!(after.instances, before.instances);
    assert_eq!(after.obj_model, before.obj_model);
    assert_eq!(after, State::new(size(1024, 768), before.obj_model.clone()));
}

#[test]
fn resize_to_nothing_is_taken_as_it_is() {
    let mut state = state(800, 600);
    state.resize(size(0, 0));
    assert_eq!(state.size, size(0, 0));
    assert_eq!(state.camera.aspect, AspectRatio { width: 0, height: 0 });
    assert_eq!((state.depth_texture.width, state.depth_texture.height), (0, 0));
}

#[test]
fn input_goes_to_the_controller() {
    let mut state = state(800, 600);
    assert!(state.input(&key(ElementState::Pressed, VirtualKeyCode::A)));
    assert!(state.camera_controller.is_left_pressed);
    assert!(!state.input(&WindowEvent::CloseRequested));
    assert!(!state.input(&key(ElementState::Pressed, VirtualKeyCode::Escape)));
    assert_eq!(state.update(true), vec![CameraStep::StrafeLeft]);
}

#[test]
fn update_follows_the_keys() {
    let mut state = state(800, 600);
    assert_eq!(state.update(true), vec![]);
    state.input(&key(ElementState::Pressed, VirtualKeyCode::W));
    state.input(&key(ElementState::Pressed, VirtualKeyCode::D));
    assert_eq!(state.update(true), vec![CameraStep::Advance, CameraStep::StrafeRight]);
    assert_eq!(state.update(false), vec![CameraStep::StrafeRight]);
}

#[test]
fn render_without_a_frame_skips() {
    assert_eq!(state(800, 600).render(false), None);
}

#[test]
fn render_clears_and_draws_the_model_for_every_instance() {
    let frame = state(800, 600).render(true).unwrap();
    assert_eq!(frame.clear_color, Color::background());
    assert_eq!(frame.clear_depth.map(f32::from_bits), Some(1.0));
    assert_eq!(
        frame.pass.commands,
        vec![
            DrawCommand::SetPipeline,
            DrawCommand::SetVertexBuffer { slot: 0, buffer: 0 },
            DrawCommand::SetIndexBuffer { buffer: 0 },
            DrawCommand::SetBindGroup { index: 0, bind_group: BindGroup::Material(0) },
            DrawCommand::SetBindGroup { index: 1, bind_group: BindGroup::Uniform },
            DrawCommand::SetBindGroup { index: 2, bind_group: BindGroup::Uniform },
            DrawCommand::DrawIndexed {
                indices: Span { start: 0, end: 3 },
                base_vertex: 0,
                instances: Span { start: 0, end: 100 },
            },
        ]
    );
}

#[test]
fn every_bind_group_of_a_frame_fits_its_slot() {
    let state = state(800, 600);
    let frame = state.render(true).unwrap();
    for command in &frame.pass.commands {
        if let DrawCommand::SetBindGroup { index, bind_group } = command {
            assert_eq!(
                state.render_pipeline.bind_group_layouts[*index as usize],
                bind_group.layout()
            );
        }
    }
}

#[test]
fn redraw_and_cleared_events_are_passed_on() {
    let mut state = state(800, 600);
    let before = state.clone();
    assert_eq!(state.handle_event(&Event::RedrawRequested), Reaction::Redraw);
    assert_eq!(state.handle_event(&Event::MainEventsCleared), Reaction::RequestRedraw);
    assert_eq!(state.handle_event(&Event::Other), Reaction::Ignore);
    assert_eq!(state, before);
}

#[test]
fn close_and_escape_end_the_loop() {
    let mut state = state(800, 600);
    let before = state.clone();
    assert_eq!(state.handle_event(&own(WindowEvent::CloseRequested)), Reaction::Exit);
    assert_eq!(
        state.handle_event(&own(key(ElementState::Pressed, VirtualKeyCode::Escape))),
        Reaction::Exit
    );
    assert_eq!(
        state.handle_event(&own(key(ElementState::Released, VirtualKeyCode::Escape))),
        Reaction::Ignore
    );
    assert_eq!(state, before);
}

#[test]
fn steering_keys_are_consumed() {
    let mut state = state(800, 600);
    assert_eq!(
        state.handle_event(&own(key(ElementState::Pressed, VirtualKeyCode::Space))),
        Reaction::Ignore
    );
    assert!(state.camera_controller.is_up_pressed);
    assert_eq!(
        state.handle_event(&own(key(ElementState::Released, VirtualKeyCode::Space))),
        Reaction::Ignore
    );
    assert!(!state.camera_controller.is_up_pressed);
}

#[test]
fn resize_scale_and_move_bring_a_new_size() {
    let events = [
        WindowEvent::Resized(size(640, 480)),
        WindowEvent::ScaleFactorChanged { new_inner_size: size(640, 480) },
        WindowEvent::Moved { inner_size: size(640, 480) },
    ];
    for event in events {
        let mut state = state(800, 600);
        let mut expected = state.clone();
        expected.resize(size(640, 480));
        assert_eq!(state.handle_event(&own(event)), Reaction::Reconfigure);
        assert_eq!(state, expected);
        assert_eq!(state.size, size(640, 480));
    }
}

#[test]
fn events_of_other_windows_are_ignored() {
    let events = [
        WindowEvent::CloseRequested,
        WindowEvent::Resized(size(640, 480)),
        key(ElementState::Pressed, VirtualKeyCode::W),
        key(ElementState::Pressed, VirtualKeyCode::Escape),
    ];
    for event in events {
        let mut state = state(800, 600);
        let before = state.clone();
        assert_eq!(
            state.handle_event(&Event::WindowEvent { event, own_window: false }),
            Reaction::Ignore
        );
        assert_eq!(state, before);
    }
}

#[test]
fn unknown_window_events_are_ignored() {
    let mut state = state(800, 600);
    let before = state.clone();
    assert_eq!(state.handle_event(&own(WindowEvent::Other)), Reaction::Ignore);
    assert_eq!(
        state.handle_event(&own(WindowEvent::KeyboardInput {
            input: KeyboardInput { state: ElementState::Pressed, virtual_keycode: None }
        })),
        Reaction::Ignore
    );
    assert_eq!(state, before);
}

#[test]
fn surface_and_camera_follow_the_window() {
    let state = state(1280, 720);
    assert_eq!(surface_descriptor(size(1280, 720)), state.sc_desc);
    assert_eq!(starting_camera(size(1280, 720)), state.camera);
    assert_eq!(starting_camera(size(1, 2)).aspect, AspectRatio { width: 1, height: 2 });
    assert_eq!(surface_descriptor(size(0, 0)).present_mode, PresentMode::Fifo);
}
