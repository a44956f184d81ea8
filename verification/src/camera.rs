//! The camera and its controller: six key flags and the moves they ask for.

use vstd::prelude::*;
use crate::event::{ElementState, KeyboardInput, VirtualKeyCode, WindowEvent};

verus! {

/// The ratio of a width to a height, kept as the two whole numbers it was
/// taken from.  A height of zero is allowed; what the quotient then is, is
/// for the one who divides.
#[derive(Clone, Copy, PartialEq, Eq, Structural, Debug)]
pub struct AspectRatio {
    pub width: u32,
    pub height: u32,
}

/// The viewpoint.  Vectors and scalars are bit patterns of IEEE-754
/// singles; the aspect ratio is exact.
#[derive(Clone, Copy, PartialEq, Eq, Debug)]
pub struct Camera {
    pub eye: [u32; 3],
    pub target: [u32; 3],
    pub up: [u32; 3],
    pub aspect: AspectRatio,
    /// Vertical field of view in degrees.
    pub fovy: u32,
    pub znear: u32,
    pub zfar: u32,
}

impl Camera {
    /// Puts the eye somewhere else.  Nothing but the eye changes.
    pub fn move_eye(&mut self, eye: [u32; 3])
        ensures
            *final(self) == (Camera { eye, ..*old(self) }),
    {
        self.eye = eye;
    }
}

/// A direction the controller can be asked to move the camera in.
#[derive(Clone, Copy, PartialEq, Eq, Structural, Debug)]
pub enum Direction {
    Up,
    Down,
    Forward,
    Backward,
    Left,
    Right,
}

/// The direction a key steers in, if it steers at all.
pub open spec fn key_direction(key: VirtualKeyCode) -> Option<Direction> {
    match key {
        VirtualKeyCode::Space => Some(Direction::Up),
        VirtualKeyCode::LShift => Some(Direction::Down),
        VirtualKeyCode::W | VirtualKeyCode::Up => Some(Direction::Forward),
        VirtualKeyCode::A | VirtualKeyCode::Left => Some(Direction::Left),
        VirtualKeyCode::S | VirtualKeyCode::Down => Some(Direction::Backward),
        VirtualKeyCode::D | VirtualKeyCode::Right => Some(Direction::Right),
        _ => None,
    }
}

/// What an event tells the controller: a direction and whether its key is now
/// held.  `None` for every event that is not a transition of a steering key.
pub open spec fn steering(event: WindowEvent) -> Option<(Direction, bool)> {
    match event {
        WindowEvent::KeyboardInput {
            input: KeyboardInput { state, virtual_keycode: Some(key) },
        } => match key_direction(key) {
            Some(direction) => Some((direction, state == ElementState::Pressed)),
            None => None,
        },
        _ => None,
    }
}

/// One displacement of the camera's eye.  The caller carries it out on the
/// real-valued camera; the controller only decides which ones happen.
#[derive(Clone, Copy, PartialEq, Eq, Structural, Debug)]
pub enum CameraStep {
    /// Move the eye towards the target by the controller's speed.
    Advance,
    /// Move the eye away from the target by the controller's speed.
    Retreat,
    /// Swing the eye to the right around the target, keeping its distance.
    StrafeRight,
    /// Swing the eye to the left around the target, keeping its distance.
    StrafeLeft,
}

/// Keyboard state of the camera, and the distance it moves per frame.
#[derive(Clone, Copy, PartialEq, Eq, Structural, Debug)]
pub struct CameraController {
    /// Distance per frame, as the bit pattern of an IEEE-754 single.
    pub speed: u32,
    pub is_up_pressed: bool,
    pub is_down_pressed: bool,
    pub is_forward_pressed: bool,
    pub is_backward_pressed: bool,
    pub is_left_pressed: bool,
    pub is_right_pressed: bool,
}

impl CameraController {
    /// The controller with the flag of `direction` set to `pressed`.
    pub open spec fn with_flag(self, direction: Direction, pressed: bool) -> Self {
        match direction {
            Direction::Up => CameraController { is_up_pressed: pressed, ..self },
            Direction::Down => CameraController { is_down_pressed: pressed, ..self },
            Direction::Forward => CameraController { is_forward_pressed: pressed, ..self },
            Direction::Backward => CameraController { is_backward_pressed: pressed, ..self },
            Direction::Left => CameraController { is_left_pressed: pressed, ..self },
            Direction::Right => CameraController { is_right_pressed: pressed, ..self },
        }
    }

    /// The controller after it has seen `event`.
    pub open spec fn after(self, event: WindowEvent) -> Self {
        match steering(event) {
            Some((direction, pressed)) => self.with_flag(direction, pressed),
            None => self,
        }
    }

    /// The steps one frame takes, in the order they are carried out.
    /// `target_out_of_reach` says whether the eye is further from the target
    /// than the controller's speed.
    pub open spec fn steps(self, target_out_of_reach: bool) -> Seq<CameraStep> {
        let advance: Seq<CameraStep> = if self.is_forward_pressed && target_out_of_reach {
            seq![CameraStep::Advance]
        } else {
            seq![]
        };
        let retreat: Seq<CameraStep> = if self.is_backward_pressed {
            seq![CameraStep::Retreat]
        } else {
            seq![]
        };
        let right: Seq<CameraStep> = if self.is_right_pressed {
            seq![CameraStep::StrafeRight]
        } else {
            seq![]
        };
        let left: Seq<CameraStep> = if self.is_left_pressed {
            seq![CameraStep::StrafeLeft]
        } else {
            seq![]
        };
        advance + retreat + right + left
    }

    /// The controller with the given speed and no key held.
    pub open spec fn idle(speed: u32) -> Self {
        CameraController {
            speed,
            is_up_pressed: false,
            is_down_pressed: false,
            is_forward_pressed: false,
            is_backward_pressed: false,
            is_left_pressed: false,
            is_right_pressed: false,
        }
    }

    /// A controller with no key held.
    pub fn new(speed: u32) -> (controller: Self)
        ensures
            controller == Self::idle(speed),
    {
        CameraController {
            speed,
            is_up_pressed: false,
            is_down_pressed: false,
            is_forward_pressed: false,
            is_backward_pressed: false,
            is_left_pressed: false,
            is_right_pressed: false,
        }
    }

    /// Records a key transition.  Returns whether the event was one of a
    /// steering key; any other event leaves the controller as it was.
    pub fn process_events(&mut self, event: &WindowEvent) -> (handled: bool)
        ensures
            handled == steering(*event).is_some(),
            *final(self) == old(self).after(*event),
    {
        match event {
            WindowEvent::KeyboardInput {
                input: KeyboardInput { state, virtual_keycode: Some(keycode) },
            } => {
                let is_pressed = match state {
                    ElementState::Pressed => true,
                    ElementState::Released => false,
                };
                match keycode {
                    VirtualKeyCode::Space => {
                        self.is_up_pressed = is_pressed;
                        true
                    },
                    VirtualKeyCode::LShift => {
                        self.is_down_pressed = is_pressed;
                        true
                    },
                    VirtualKeyCode::W | VirtualKeyCode::Up => {
                        self.is_forward_pressed = is_pressed;
                        true
                    },
                    VirtualKeyCode::A | VirtualKeyCode::Left => {
                        self.is_left_pressed = is_pressed;
                        true
                    },
                    VirtualKeyCode::S | VirtualKeyCode::Down => {
                        self.is_backward_pressed = is_pressed;
                        true
                    },
                    VirtualKeyCode::D | VirtualKeyCode::Right => {
                        self.is_right_pressed = is_pressed;
                        true
                    },
                    _ => false,
                }
            },
            _ => false,
        }
    }

    /// Decides the steps of one frame.  `target_out_of_reach` is whether the
    /// distance from eye to target exceeds the controller's speed, measured
    /// before any step of this frame.
    pub fn update_camera(&self, target_out_of_reach: bool) -> (steps: Vec<CameraStep>)
        ensures
            steps@ == self.steps(target_out_of_reach),
    {
        let mut steps: Vec<CameraStep> = Vec::new();
        if self.is_forward_pressed && target_out_of_reach {
            steps.push(CameraStep::Advance);
        }
        if self.is_backward_pressed {
            steps.push(CameraStep::Retreat);
        }
        if self.is_right_pressed {
            steps.push(CameraStep::StrafeRight);
        }
        if self.is_left_pressed {
            steps.push(CameraStep::StrafeLeft);
        }
        assert(steps@ =~= self.steps(target_out_of_reach));
        steps
    }
}

/// A frame holds an advance exactly if the forward key is held and the
/// target is out of reach; it holds a retreat exactly if the backward key is
/// held, however near the target is.
pub proof fn lemma_advance_is_guarded(controller: CameraController, target_out_of_reach: bool)
    ensures
        controller.steps(target_out_of_reach).contains(CameraStep::Advance) <==> (
        controller.is_forward_pressed && target_out_of_reach),
        controller.steps(target_out_of_reach).contains(CameraStep::Retreat)
            <==> controller.is_backward_pressed,
{
    let steps = controller.steps(target_out_of_reach);
    if controller.is_forward_pressed && target_out_of_reach {
        assert(steps[0] == CameraStep::Advance);
    }
    if controller.is_backward_pressed {
        let at = if controller.is_forward_pressed && target_out_of_reach {
            1int
        } else {
            0int
        };
        assert(steps[at] == CameraStep::Retreat);
    }
}

/// An event that is not a transition of a steering key leaves the
/// controller as it was, and a transition of a steering key changes no flag
/// but that key's.
pub proof fn lemma_event_changes_one_flag(controller: CameraController, event: WindowEvent)
    ensures
        steering(event) is None ==> controller.after(event) == controller,
        controller.after(event).speed == controller.speed,
        steering(event) matches Some((direction, pressed)) ==> controller.after(event)
            == controller.with_flag(direction, pressed) && controller.after(event).after(event)
            == controller.after(event),
{
}

} // verus!
