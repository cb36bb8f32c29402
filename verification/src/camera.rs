//! The camera controller: which movement keys are held down.
//!
//! The controller is told about keyboard input and remembers, for each of
//! the six movement directions, whether its key is pressed. Moving the
//! camera from those flags is floating-point work done by the caller.

use vstd::prelude::*;

verus! {

/// Describes the input state of a key.
#[derive(Clone, Copy, Debug, PartialEq, Eq, Structural)]
pub enum ElementState {
    Pressed,
    Released,
}

/// The keys the framework reacts to; every other key is `Other`.
#[derive(Clone, Copy, Debug, PartialEq, Eq, Structural)]
pub enum Key {
    Space,
    LShift,
    W,
    A,
    S,
    D,
    Up,
    Down,
    Left,
    Right,
    Escape,
    Other,
}

/// Describes a keyboard input event.
#[derive(Clone, Copy, Debug, PartialEq, Eq, Structural)]
pub struct KeyboardInput {
    /// Describes the input state of a key.
    pub state: ElementState,
    /// Identifies the semantic meaning of the key, when it has one.
    pub virtual_keycode: Option<Key>,
}

/// A movement direction of the camera.
#[derive(Clone, Copy, Debug, PartialEq, Eq, Structural)]
pub enum Control {
    Up,
    Down,
    Forward,
    Backward,
    Left,
    Right,
}

/// The direction a key controls, if any: Space goes up, left Shift down,
/// W or Up forward, A or Left left, S or Down backward, D or Right right.
pub open spec fn key_control(key: Key) -> Option<Control> {
    match key {
        Key::Space => Some(Control::Up),
        Key::LShift => Some(Control::Down),
        Key::W | Key::Up => Some(Control::Forward),
        Key::A | Key::Left => Some(Control::Left),
        Key::S | Key::Down => Some(Control::Backward),
        Key::D | Key::Right => Some(Control::Right),
        _ => None,
    }
}

/// Which movement keys are held down.
#[derive(Debug)]
pub struct ControlFlags {
    pub up: bool,
    pub down: bool,
    pub forward: bool,
    pub backward: bool,
    pub left: bool,
    pub right: bool,
}

impl ControlFlags {
    /// No key held.
    pub open spec fn released() -> Self {
        ControlFlags {
            up: false,
            down: false,
            forward: false,
            backward: false,
            left: false,
            right: false,
        }
    }

    /// Whether the key of the given direction is held.
    pub open spec fn get(self, c: Control) -> bool {
        match c {
            Control::Up => self.up,
            Control::Down => self.down,
            Control::Forward => self.forward,
            Control::Backward => self.backward,
            Control::Left => self.left,
            Control::Right => self.right,
        }
    }

    /// These flags with the one of direction `c` set to `pressed`.
    pub open spec fn set(self, c: Control, pressed: bool) -> Self {
        match c {
            Control::Up => ControlFlags { up: pressed, ..self },
            Control::Down => ControlFlags { down: pressed, ..self },
            Control::Forward => ControlFlags { forward: pressed, ..self },
            Control::Backward => ControlFlags { backward: pressed, ..self },
            Control::Left => ControlFlags { left: pressed, ..self },
            Control::Right => ControlFlags { right: pressed, ..self },
        }
    }

    /// What handling `input` does to these flags.
    pub open spec fn after_input(self, input: KeyboardInput) -> Self {
        match input.virtual_keycode {
            Some(k) => match key_control(k) {
                Some(c) => self.set(c, input.state == ElementState::Pressed),
                None => self,
            },
            None => self,
        }
    }
}

/// Whether the controller reacts to `input`: it names a movement key.
pub open spec fn handles_input(input: KeyboardInput) -> bool {
    match input.virtual_keycode {
        Some(k) => key_control(k) is Some,
        None => false,
    }
}

/// What a [`CameraController`] holds: its speed and its flags.
pub struct CameraControllerModel<S> {
    pub speed: S,
    pub flags: ControlFlags,
}

/// Tracks the movement keys for a camera that moves `speed` per update.
#[derive(Debug)]
pub struct CameraController<S> {
    speed: S,
    is_up_pressed: bool,
    is_down_pressed: bool,
    is_forward_pressed: bool,
    is_backward_pressed: bool,
    is_left_pressed: bool,
    is_right_pressed: bool,
}

impl<S> View for CameraController<S> {
    type V = CameraControllerModel<S>;

    closed spec fn view(&self) -> CameraControllerModel<S> {
        CameraControllerModel {
            speed: self.speed,
            flags: ControlFlags {
                up: self.is_up_pressed,
                down: self.is_down_pressed,
                forward: self.is_forward_pressed,
                backward: self.is_backward_pressed,
                left: self.is_left_pressed,
                right: self.is_right_pressed,
            },
        }
    }
}

impl<S> CameraController<S> {
    /// A controller with the given speed and no key held.
    pub fn new(speed: S) -> (r: Self)
        ensures
            r@.speed == speed,
            r@.flags == ControlFlags::released(),
    {
        CameraController {
            speed,
            is_up_pressed: false,
            is_down_pressed: false,
            is_forward_pressed: false,
            is_backward_pressed: false,
            is_left_pressed: false,
            is_right_pressed: false,
        }
    }

    /// Record a keyboard input. A movement key sets its direction's flag to
    /// whether it is pressed, and the result is true; any other input
    /// changes nothing, and the result is false.
    pub fn process_events(&mut self, input: &KeyboardInput) -> (r: bool)
        ensures
            r == handles_input(*input),
            final(self)@.speed == old(self)@.speed,
            final(self)@.flags == old(self)@.flags.after_input(*input),
    {
        match input.virtual_keycode {
            Some(keycode) => {
                let is_pressed = match input.state {
                    ElementState::Pressed => true,
                    ElementState::Released => false,
                };
                match keycode {
                    Key::Space => {
                        self.is_up_pressed = is_pressed;
                        true
                    },
                    Key::LShift => {
                        self.is_down_pressed = is_pressed;
                        true
                    },
                    Key::W | Key::Up => {
                        self.is_forward_pressed = is_pressed;
                        true
                    },
                    Key::A | Key::Left => {
                        self.is_left_pressed = is_pressed;
                        true
                    },
                    Key::S | Key::Down => {
                        self.is_backward_pressed = is_pressed;
                        true
                    },
                    Key::D | Key::Right => {
                        self.is_right_pressed = is_pressed;
                        true
                    },
                    _ => false,
                }
            },
            None => false,
        }
    }

    /// The distance the camera moves per update.
    pub fn speed(&self) -> (r: &S)
        ensures
            *r == self@.speed,
    {
        &self.speed
    }

    /// Whether the key that moves the camera in direction `control` is held.
    pub fn is_pressed(&self, control: Control) -> (r: bool)
        ensures
            r == self@.flags.get(control),
    {
        match control {
            Control::Up => self.is_up_pressed,
            Control::Down => self.is_down_pressed,
            Control::Forward => self.is_forward_pressed,
            Control::Backward => self.is_backward_pressed,
            Control::Left => self.is_left_pressed,
            Control::Right => self.is_right_pressed,
        }
    }
}

/// Give a keyboard input to the camera controller, when there is one. With
/// a controller the result says whether it reacted to the input; without
/// one the result is true and nothing changes.
pub fn process_camera_events<S>(
    controller: &mut Option<CameraController<S>>,
    input: &KeyboardInput,
) -> (r: bool)
    ensures
        match *old(controller) {
            Some(c) => (*final(controller)) is Some && r == handles_input(*input) && (
            *final(controller))->0@.speed == c@.speed && (*final(controller))->0@.flags
                == c@.flags.after_input(*input),
            None => r && (*final(controller)) is None,
        },
{
    match controller {
        Some(c) => c.process_events(input),
        None => true,
    }
}

/// Handling an input leaves every flag but its key's direction unchanged,
/// and sets that one to whether the key is pressed.
pub proof fn lemma_input_touches_one_flag(flags: ControlFlags, input: KeyboardInput, c: Control)
    ensures
        (match input.virtual_keycode {
            Some(k) => key_control(k) == Some(c),
            None => false,
        }) ==> flags.after_input(input).get(c) == (input.state == ElementState::Pressed),
        !(match input.virtual_keycode {
            Some(k) => key_control(k) == Some(c),
            None => false,
        }) ==> flags.after_input(input).get(c) == flags.get(c),
{
}

/// Handling the same input twice is the same as handling it once.
pub proof fn lemma_input_idempotent(flags: ControlFlags, input: KeyboardInput)
    ensures
        flags.after_input(input).after_input(input) == flags.after_input(input),
{
}

/// Pressing a movement key and then releasing it leaves every flag as it
/// was before, except the key's direction, which ends up released.
pub proof fn lemma_press_then_release(flags: ControlFlags, k: Key)
    requires
        key_control(k) is Some,
    ensures
        ({
            let press = KeyboardInput { state: ElementState::Pressed, virtual_keycode: Some(k) };
            let release = KeyboardInput {
                state: ElementState::Released,
                virtual_keycode: Some(k),
            };
            flags.after_input(press).after_input(release) == flags.set(
                key_control(k)->0,
                false,
            )
        }),
{
}

/// Two keys that control the same direction have the same effect.
pub proof fn lemma_same_direction_same_effect(
    flags: ControlFlags,
    state: ElementState,
    k1: Key,
    k2: Key,
)
    requires
        key_control(k1) == key_control(k2),
    ensures
        flags.after_input(KeyboardInput { state, virtual_keycode: Some(k1) }) == flags.after_input(
            KeyboardInput { state, virtual_keycode: Some(k2) },
        ),
{
}

} // verus!
