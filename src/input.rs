//! What an input event does to the camera.
//!
//! Pointer motion turns the camera: the vertical delta is the pitch and the
//! horizontal delta the yaw, both in degrees. Six movement keys step the
//! camera along its local axes, and a resize of the window sets the aspect
//! ratio. Only key presses act; releases and other events change nothing.

use vstd::prelude::*;

verus! {

/// The movement keys, by meaning rather than by physical code.
#[derive(Clone, Copy, Debug, PartialEq, Eq, Structural)]
pub enum Key {
    /// W: along the camera's local +Z.
    Forward,
    /// S: along the camera's local -Z.
    Backward,
    /// A: along the camera's local +X.
    Left,
    /// D: along the camera's local -X.
    Right,
    /// Space: along the camera's local +Y.
    Up,
    /// Left shift: along the camera's local -Y.
    Down,
    /// Any other key.
    Other,
}

/// The key that a scancode of the macOS-style layout stands for.
pub open spec fn key_of_scancode(code: u32) -> Key {
    if code == 13 {
        Key::Forward
    } else if code == 1 {
        Key::Backward
    } else if code == 0 {
        Key::Left
    } else if code == 2 {
        Key::Right
    } else if code == 49 {
        Key::Up
    } else if code == 56 {
        Key::Down
    } else {
        Key::Other
    }
}

/// Maps a raw scancode of the macOS-style layout to a movement key.
pub fn key_from_scancode(code: u32) -> (r: Key)
    ensures
        r == key_of_scancode(code),
{
    match code {
        13 => Key::Forward,
        1 => Key::Backward,
        0 => Key::Left,
        2 => Key::Right,
        49 => Key::Up,
        56 => Key::Down,
        _ => Key::Other,
    }
}

/// An input event, as far as the camera cares.
#[derive(Clone, Copy, Debug, PartialEq, Eq, Structural)]
pub enum InputEvent {
    /// Relative pointer motion; each delta is a double-precision bit pattern.
    PointerMotion { dx: u64, dy: u64 },
    KeyPressed { key: Key },
    KeyReleased { key: Key },
    /// The window's new size in pixels.
    Resized { width: u32, height: u32 },
    Other,
}

/// What to do to the camera.
#[derive(Clone, Copy, Debug, PartialEq, Eq, Structural)]
pub enum CameraAction {
    /// `rotate` by these angles in degrees, given as double-precision bit patterns.
    Rotate { pitch_degrees: u64, yaw_degrees: u64 },
    /// `translate` by one step along each nonzero component, each -1, 0 or 1.
    Translate { forward: i8, left: i8, up: i8 },
    /// `set_aspect` to `width / height`; both are greater than zero.
    SetAspect { width: u32, height: u32 },
    /// Nothing changes.
    Unchanged,
}

/// The step of translation that a movement key asks for, as (forward, left, up).
pub open spec fn step_of(key: Key) -> Option<(i8, i8, i8)> {
    match key {
        Key::Forward => Some((1, 0, 0)),
        Key::Backward => Some((-1i8, 0i8, 0i8)),
        Key::Left => Some((0, 1, 0)),
        Key::Right => Some((0i8, -1i8, 0i8)),
        Key::Up => Some((0, 0, 1)),
        Key::Down => Some((0i8, 0i8, -1i8)),
        Key::Other => None,
    }
}

/// The action that an event asks for.
pub open spec fn action_of(event: InputEvent) -> CameraAction {
    match event {
        InputEvent::PointerMotion { dx, dy } => CameraAction::Rotate {
            pitch_degrees: dy,
            yaw_degrees: dx,
        },
        InputEvent::KeyPressed { key } => match step_of(key) {
            Some(s) => CameraAction::Translate { forward: s.0, left: s.1, up: s.2 },
            None => CameraAction::Unchanged,
        },
        InputEvent::Resized { width, height } => if width > 0 && height > 0 {
            CameraAction::SetAspect { width, height }
        } else {
            CameraAction::Unchanged
        },
        _ => CameraAction::Unchanged,
    }
}

impl CameraAction {
    /// Whether carrying out the action changes the camera.
    pub fn changes_camera(&self) -> (r: bool)
        ensures
            r <==> !(*self is Unchanged),
    {
        match self {
            CameraAction::Unchanged => false,
            _ => true,
        }
    }
}

/// The scene content that only drives the camera from input.
pub struct SimpleCamera {}

impl SimpleCamera {
    pub fn new() -> SimpleCamera {
        SimpleCamera {  }
    }

    /// The camera action for an event; `changes_camera` of it is the
    /// "camera changed" signal for the frame host.
    pub fn update_camera(&mut self, event: &InputEvent) -> (r: CameraAction)
        ensures
            r == action_of(*event),
    {
        match *event {
            InputEvent::PointerMotion { dx, dy } => CameraAction::Rotate {
                pitch_degrees: dy,
                yaw_degrees: dx,
            },
            InputEvent::KeyPressed { key } => match key {
                Key::Forward => CameraAction::Translate { forward: 1, left: 0, up: 0 },
                Key::Backward => CameraAction::Translate { forward: -1, left: 0, up: 0 },
                Key::Left => CameraAction::Translate { forward: 0, left: 1, up: 0 },
                Key::Right => CameraAction::Translate { forward: 0, left: -1, up: 0 },
                Key::Up => CameraAction::Translate { forward: 0, left: 0, up: 1 },
                Key::Down => CameraAction::Translate { forward: 0, left: 0, up: -1 },
                Key::Other => CameraAction::Unchanged,
            },
            InputEvent::Resized { width, height } => {
                if width > 0 && height > 0 {
                    CameraAction::SetAspect { width, height }
                } else {
                    CameraAction::Unchanged
                }
            },
            _ => CameraAction::Unchanged,
        }
    }
}

} // verus!
