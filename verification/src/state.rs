//! The orchestrator: what the viewer holds between frames, and how window
//! events, resizes and redraws change it.

use vstd::prelude::*;
use crate::camera::{AspectRatio, Camera, CameraController, CameraStep};
use crate::draw::{
    clear_color, model_commands, Color, DrawCommand, DrawModel, Frame, RenderPass, Span,
};
use crate::event::{ElementState, Event, KeyboardInput, PhysicalSize, VirtualKeyCode, WindowEvent};
use crate::instance::{grid, instance_grid, Instance, NUM_INSTANCES};
use crate::model::{element_count, BindGroup, Model};
use crate::pipeline::{
    model_pipeline, model_pipeline_descriptor, PresentMode, RenderPipelineDescriptor,
    SwapChainDescriptor,
};
use crate::texture::{
    depth_texture_descriptor, depth_texture_for, TextureDescriptor, TextureFormat,
};
use core::ops::Range;

verus! {

/// 0.0 as a single.
pub const ZERO: u32 = 0;

/// 1.0 as a single.
pub const ONE: u32 = 0x3F80_0000;

/// Height of the eye at the start: 5.0 as a single.
pub const EYE_HEIGHT: u32 = 0x40A0_0000;

/// Depth of the eye at the start: -10.0 as a single.
pub const EYE_DEPTH: u32 = 0xC120_0000;

/// Vertical field of view: 45.0 as a single.
pub const FIELD_OF_VIEW: u32 = 0x4234_0000;

/// The near clip plane: 0.1 as a single.
pub const Z_NEAR: u32 = 0x3DCC_CCCD;

/// The far clip plane: 100.0 as a single.
pub const Z_FAR: u32 = 0x42C8_0000;

/// Distance the camera moves per frame: 0.2 as a single.
pub const CAMERA_SPEED: u32 = 0x3E4C_CCCD;

/// What the event loop has to do after an event.
#[derive(Clone, Copy, PartialEq, Eq, Structural, Debug)]
pub enum Reaction {
    /// Nothing.
    Ignore,
    /// Update, then render.
    Redraw,
    /// Ask the window system for a redraw.
    RequestRedraw,
    /// Leave the loop.
    Exit,
    /// The state has taken a new size: configure the surface and the depth
    /// texture anew from it.
    Reconfigure,
}

/// Everything the viewer holds between frames, as far as it is not a GPU
/// object.
#[derive(Clone, PartialEq, Eq, Debug)]
pub struct State {
    pub sc_desc: SwapChainDescriptor,
    pub size: PhysicalSize,
    pub render_pipeline: RenderPipelineDescriptor,
    pub diffuse_bind_group: BindGroup,
    pub camera: Camera,
    pub camera_controller: CameraController,
    pub uniform_bind_group: BindGroup,
    pub instances: Vec<Instance>,
    pub depth_texture: TextureDescriptor,
    pub obj_model: Model,
}

/// The camera at the start, for a surface of the given size: five units
/// up and ten back, looking at the origin, the y axis up.
pub open spec fn initial_camera(size: PhysicalSize) -> Camera {
    Camera {
        eye: [ZERO, EYE_HEIGHT, EYE_DEPTH],
        target: [ZERO, ZERO, ZERO],
        up: [ZERO, ONE, ZERO],
        aspect: AspectRatio { width: size.width, height: size.height },
        fovy: FIELD_OF_VIEW,
        znear: Z_NEAR,
        zfar: Z_FAR,
    }
}

/// The surface configuration for a window of the given size.
pub open spec fn surface_for(size: PhysicalSize) -> SwapChainDescriptor {
    SwapChainDescriptor {
        format: TextureFormat::Bgra8UnormSrgb,
        width: size.width,
        height: size.height,
        present_mode: PresentMode::Fifo,
    }
}

/// Describes the surface of a window of the given size: 8-bit sRGB, frames
/// presented in order, one per refresh.
pub fn surface_descriptor(size: PhysicalSize) -> (sc_desc: SwapChainDescriptor)
    ensures
        sc_desc == surface_for(size),
{
    SwapChainDescriptor {
        format: TextureFormat::Bgra8UnormSrgb,
        width: size.width,
        height: size.height,
        present_mode: PresentMode::Fifo,
    }
}

/// The camera at the start, for a surface of the given size.
pub fn starting_camera(size: PhysicalSize) -> (camera: Camera)
    ensures
        camera == initial_camera(size),
{
    let camera = Camera {
        eye: [ZERO, EYE_HEIGHT, EYE_DEPTH],
        target: [ZERO, ZERO, ZERO],
        up: [ZERO, ONE, ZERO],
        aspect: AspectRatio { width: size.width, height: size.height },
        fovy: FIELD_OF_VIEW,
        znear: Z_NEAR,
        zfar: Z_FAR,
    };
    assert(camera.eye@ =~= initial_camera(size).eye@);
    assert(camera.target@ =~= initial_camera(size).target@);
    assert(camera.up@ =~= initial_camera(size).up@);
    camera
}

/// Whether a window event asks the viewer to leave: a close request, or
/// Escape going down.
pub open spec fn asks_to_exit(event: WindowEvent) -> bool {
    match event {
        WindowEvent::CloseRequested => true,
        WindowEvent::KeyboardInput {
            input: KeyboardInput {
                state: ElementState::Pressed,
                virtual_keycode: Some(VirtualKeyCode::Escape),
            },
        } => true,
        _ => false,
    }
}

/// The size a window event brings, if it brings one.
pub open spec fn size_from(event: WindowEvent) -> Option<PhysicalSize> {
    match event {
        WindowEvent::Resized(size) => Some(size),
        WindowEvent::ScaleFactorChanged { new_inner_size } => Some(new_inner_size),
        WindowEvent::Moved { inner_size } => Some(inner_size),
        _ => None,
    }
}

impl State {
    /// What holds of a state from its making on: surface, stored size,
    /// camera ratio, pipeline and depth texture agree, the bind groups are
    /// the viewer's own, and the instances are the grid.
    pub open spec fn is_consistent(self) -> bool {
        &&& self.size.width == self.sc_desc.width
        &&& self.size.height == self.sc_desc.height
        &&& self.camera.aspect == (AspectRatio {
            width: self.sc_desc.width,
            height: self.sc_desc.height,
        })
        &&& self.render_pipeline@ == model_pipeline(self.sc_desc.format)
        &&& self.depth_texture == depth_texture_for(self.sc_desc)
        &&& self.diffuse_bind_group == BindGroup::Diffuse
        &&& self.uniform_bind_group == BindGroup::Uniform
        &&& self.instances@ == grid()
    }

    /// The state after a resize to `new_size`: size, surface and depth
    /// texture take the new size, and the camera the ratio of its width to
    /// its height.
    pub open spec fn resized(self, new_size: PhysicalSize) -> State {
        let sc_desc = SwapChainDescriptor {
            width: new_size.width,
            height: new_size.height,
            ..self.sc_desc
        };
        State {
            camera: Camera {
                aspect: AspectRatio { width: new_size.width, height: new_size.height },
                ..self.camera
            },
            size: new_size,
            sc_desc,
            depth_texture: depth_texture_for(sc_desc),
            ..self
        }
    }

    /// The state after the controller has seen `event`.
    pub open spec fn with_input(self, event: WindowEvent) -> State {
        State { camera_controller: self.camera_controller.after(event), ..self }
    }

    /// What the event loop has to do after `event`.
    pub open spec fn reaction_to(event: Event) -> Reaction {
        match event {
            Event::RedrawRequested => Reaction::Redraw,
            Event::MainEventsCleared => Reaction::RequestRedraw,
            Event::WindowEvent { event, own_window: true } => {
                if crate::camera::steering(event).is_some() {
                    Reaction::Ignore
                } else if asks_to_exit(event) {
                    Reaction::Exit
                } else if size_from(event).is_some() {
                    Reaction::Reconfigure
                } else {
                    Reaction::Ignore
                }
            },
            _ => Reaction::Ignore,
        }
    }

    /// The state after `event`.
    pub open spec fn after(self, event: Event) -> State {
        match event {
            Event::WindowEvent { event, own_window: true } => {
                if crate::camera::steering(event).is_some() {
                    self.with_input(event)
                } else if asks_to_exit(event) {
                    self
                } else {
                    match size_from(event) {
                        Some(size) => self.resized(size),
                        None => self,
                    }
                }
            },
            _ => self,
        }
    }

    /// What a frame draws: the pipeline, then every mesh of the model for
    /// every instance, with the uniform bind group for uniforms and light.
    pub open spec fn frame_commands(self) -> Seq<DrawCommand> {
        seq![DrawCommand::SetPipeline] + model_commands(
            self.obj_model,
            Range { start: 0, end: element_count(self.instances@.len()) },
            self.uniform_bind_group,
            self.uniform_bind_group,
        )
    }

    /// The state of a viewer whose window has the given inner size and that
    /// shows `obj_model`.
    pub fn new(size: PhysicalSize, obj_model: Model) -> (state: State)
        ensures
            state.is_consistent(),
            state.sc_desc == surface_for(size),
            state.camera == initial_camera(size),
            state.camera_controller == CameraController::idle(CAMERA_SPEED),
            state.obj_model == obj_model,
    {
        let sc_desc = surface_descriptor(size);
        let camera = starting_camera(size);
        State {
            sc_desc,
            size,
            render_pipeline: model_pipeline_descriptor(sc_desc.format),
            diffuse_bind_group: BindGroup::Diffuse,
            camera,
            camera_controller: CameraController::new(CAMERA_SPEED),
            uniform_bind_group: BindGroup::Uniform,
            instances: instance_grid(),
            depth_texture: depth_texture_descriptor(&sc_desc),
            obj_model,
        }
    }

    /// Takes a new size.  The surface and the depth texture are to be
    /// configured anew from the state afterwards.
    pub fn resize(&mut self, new_size: PhysicalSize)
        ensures
            *final(self) == old(self).resized(new_size),
            old(self).is_consistent() ==> final(self).is_consistent(),
    {
        self.size = new_size;
        self.sc_desc.width = new_size.width;
        self.sc_desc.height = new_size.height;
        self.camera.aspect = AspectRatio {
            width: self.sc_desc.width,
            height: self.sc_desc.height,
        };
        self.depth_texture = depth_texture_descriptor(&self.sc_desc);
    }

    /// Offers a window event to the camera controller.  Returns whether the
    /// controller took it.
    pub fn input(&mut self, event: &WindowEvent) -> (consumed: bool)
        ensures
            consumed == crate::camera::steering(*event).is_some(),
            *final(self) == old(self).with_input(*event),
            old(self).is_consistent() ==> final(self).is_consistent(),
    {
        self.camera_controller.process_events(event)
    }

    /// Decides how the camera moves this frame; see
    /// [`CameraController::update_camera`].  The caller moves the eye,
    /// derives the view-projection matrix anew and writes it to the uniform
    /// buffer.
    pub fn update(&self, target_out_of_reach: bool) -> (steps: Vec<CameraStep>)
        ensures
            steps@ == self.camera_controller.steps(target_out_of_reach),
    {
        self.camera_controller.update_camera(target_out_of_reach)
    }

    /// Lays out one frame.  Where no frame could be acquired there is none:
    /// the frame is skipped.
    pub fn render(&self, frame_acquired: bool) -> (frame: Option<Frame>)
        requires
            frame_acquired ==> self.obj_model.materials_resolve(),
        ensures
            !frame_acquired ==> frame is None,
            frame_acquired ==> frame is Some && frame->0.clear_color == clear_color()
                && frame->0.clear_depth == Some(ONE) && frame->0.pass@ == self.frame_commands(),
    {
        if !frame_acquired {
            return None;
        }
        let mut pass = RenderPass::new();
        pass.set_pipeline();
        let len: u64 = self.instances.len() as u64;
        let count: u32 = (len % 0x1_0000_0000) as u32;
        pass.draw_model_instanced(
            &self.obj_model,
            0..count,
            self.uniform_bind_group,
            self.uniform_bind_group,
        );
        assert(pass@ =~= self.frame_commands());
        Some(Frame { clear_color: Color::background(), clear_depth: Some(ONE), pass })
    }

    /// Takes one event of the event loop.  Redraw requests and cleared
    /// queues are passed on as such.  An event for the viewer's own window
    /// goes to the camera controller first; if the controller does not take
    /// it, a close request or Escape going down ends the loop, and a resize,
    /// a change of scale factor or a move brings a new size.  Everything
    /// else is ignored.
    pub fn handle_event(&mut self, event: &Event) -> (reaction: Reaction)
        ensures
            reaction == State::reaction_to(*event),
            *final(self) == old(self).after(*event),
            old(self).is_consistent() ==> final(self).is_consistent(),
    {
        match event {
            Event::RedrawRequested => Reaction::Redraw,
            Event::MainEventsCleared => Reaction::RequestRedraw,
            Event::WindowEvent { event, own_window: true } => {
                if self.input(event) {
                    Reaction::Ignore
                } else {
                    match event {
                        WindowEvent::CloseRequested => Reaction::Exit,
                        WindowEvent::KeyboardInput {
                            input: KeyboardInput {
                                state: ElementState::Pressed,
                                virtual_keycode: Some(VirtualKeyCode::Escape),
                            },
                        } => Reaction::Exit,
                        WindowEvent::Resized(physical_size) => {
                            self.resize(*physical_size);
                            Reaction::Reconfigure
                        },
                        WindowEvent::ScaleFactorChanged { new_inner_size } => {
                            self.resize(*new_inner_size);
                            Reaction::Reconfigure
                        },
                        WindowEvent::Moved { inner_size } => {
                            self.resize(*inner_size);
                            Reaction::Reconfigure
                        },
                        _ => Reaction::Ignore,
                    }
                }
            },
            _ => Reaction::Ignore,
        }
    }
}

/// Every command of a frame is one the state's pipeline accepts, names
/// buffers of a mesh the model has, and, where it draws, draws every
/// instance of the grid.
pub proof fn lemma_frame_fits_pipeline(state: State, k: int)
    requires
        state.is_consistent(),
        state.obj_model.materials_resolve(),
        state.obj_model.is_numbered_by_position(),
        0 <= k < state.frame_commands().len(),
    ensures
        state.render_pipeline@.accepts(state.frame_commands()[k]),
        state.frame_commands()[k] matches DrawCommand::SetVertexBuffer { buffer, .. }
            ==> buffer < state.obj_model.meshes@.len(),
        state.frame_commands()[k] matches DrawCommand::SetIndexBuffer { buffer }
            ==> buffer < state.obj_model.meshes@.len(),
        state.frame_commands()[k] matches DrawCommand::DrawIndexed { instances, .. }
            ==> instances == (Span { start: 0, end: NUM_INSTANCES }),
{
    let model = state.obj_model;
    if k >= 1 {
        let j = (k - 1) / 6;
        let mesh = model.meshes@[j];
        let material = model.materials@[mesh.material as int];
        let instances = Range { start: 0u32, end: element_count(state.instances@.len()) };
        let per_mesh = crate::draw::mesh_commands(
            mesh,
            material,
            instances,
            state.uniform_bind_group,
            state.uniform_bind_group,
        );
        assert(state.frame_commands()[k] == per_mesh[(k - 1) % 6]);
        assert(material.bind_group == BindGroup::Material(mesh.material));
    }
}

/// After a resize the camera has the ratio of the new size, whatever the
/// size was before; a second resize to the same size changes nothing; and
/// only the last of several resizes counts.
pub proof fn lemma_resize_takes_the_new_ratio(
    state: State,
    earlier: PhysicalSize,
    new_size: PhysicalSize,
)
    ensures
        state.resized(new_size).camera.aspect == (AspectRatio {
            width: new_size.width,
            height: new_size.height,
        }),
        state.resized(new_size).resized(new_size) == state.resized(new_size),
        state.resized(earlier).resized(new_size) == state.resized(new_size),
        state.is_consistent() ==> state.resized(new_size).is_consistent(),
{
}

/// No event takes a state out of consistency, and only an event for the
/// viewer's own window changes the state at all.
pub proof fn lemma_events_keep_consistency(state: State, event: Event)
    requires
        state.is_consistent(),
    ensures
        state.after(event).is_consistent(),
        !(event matches Event::WindowEvent { own_window: true, .. }) ==> state.after(event)
            == state,
        state.after(event).obj_model == state.obj_model,
        state.after(event).instances == state.instances,
{
}

} // verus!
