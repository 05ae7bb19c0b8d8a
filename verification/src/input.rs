//! The input vocabulary: keys, buttons, and discrete input events.
//!
//! Events are delivered edge-triggered between ticks; the scenes only ever
//! see values of these types, never the platform's own event structures.

use vstd::prelude::*;
use crate::vector2::Vector2;

verus! {

/// A key of the fixed set the engine reacts to.
#[derive(Clone, Copy, Debug, PartialEq, Eq, Structural)]
pub enum Key {
    /// Rotate the falling piece.
    Up,
    /// Soft drop: move the falling piece one cell down.
    Down,
    /// Shift the falling piece one column left.
    Left,
    /// Shift the falling piece one column right.
    Right,
    /// Hard drop: move the falling piece to rest and lock it.
    Space,
    /// Free rise: nudge the falling piece one row up.
    W,
    /// Restart: clear the board and the score.
    R,
    /// Select the home scene.
    Key1,
    /// Select the level scene.
    Key2,
    /// Leave the game; the engine itself ignores it.
    Escape,
}

/// A source of input events, for callers that queue them up.
pub trait Inputer<T> {
    /// The next queued event, if any.
    fn pop_input(&mut self) -> Option<T>;
}

/// A cardinal direction.
#[derive(Clone, Copy, Debug, PartialEq, Eq, Structural)]
pub enum Direction {
    /// Toward negative x.
    Left,
    /// Toward positive x.
    Right,
    /// Toward positive y.
    Top,
    /// Toward negative y.
    Bottom,
}

/// A mouse click event.
#[derive(Clone, Copy, Debug, PartialEq, Eq, Structural)]
pub enum MouseEvent {
    /// The right button was clicked.
    RightClick,
    /// The left button was clicked.
    LeftClick,
}

/// A keyboard event, named by the key pressed.
#[derive(Clone, Copy, Debug, PartialEq, Eq, Structural)]
pub enum KeyboardInput {
    /// The letter W.
    KeyW,
    /// The letter A.
    KeyA,
    /// The letter S.
    KeyS,
    /// The letter D.
    KeyD,
    /// The left arrow.
    ArrowLeft,
    /// The up arrow.
    ArrowUp,
    /// The right arrow.
    ArrowRight,
    /// The down arrow.
    ArrowDown,
    /// The escape key.
    Esc,
}

/// Any discrete input event.
#[derive(Clone, Copy, Debug, PartialEq, Eq, Structural)]
pub enum GeneralInput {
    /// A mouse event.
    Mouse(MouseEvent),
    /// A keyboard event.
    Keyboard(KeyboardInput),
}

/// Press state of a button.
#[derive(Clone, Copy, Debug, PartialEq, Eq, Structural)]
pub enum ButtonState {
    /// The button is held down.
    Pressed,
    /// The button is up.
    Released,
}

impl ButtonState {
    /// Whether this is the pressed state.
    pub fn is_pressed(&self) -> (r: bool)
        ensures
            r == (*self is Pressed),
    {
        matches!(self, ButtonState::Pressed)
    }
}

/// Which buttons are down, and which changed during the current frame.
#[derive(Debug)]
pub struct ButtonInput<T> {
    /// Every button currently held down.
    pub pressed: Vec<T>,
    /// The buttons pressed during this frame.
    pub frame_pressed: Vec<T>,
    /// The buttons released during this frame.
    pub frame_released: Vec<T>,
}

/// A mouse button.
#[derive(Clone, Copy, Debug, PartialEq, Eq, Structural)]
pub enum MouseButton {
    /// The left mouse button.
    Left,
    /// The right mouse button.
    Right,
    /// The middle mouse button.
    Middle,
    /// The back mouse button.
    Back,
    /// The forward mouse button.
    Forward,
    /// Another mouse button with the associated number.
    Other(u16),
}

/// A pointer movement since the last position.
#[derive(Clone, Copy, Debug, PartialEq, Eq, Structural)]
pub struct PointerMove {
    /// Difference from the previous pointer position.
    pub delta: Vector2,
}

/// The unit a mouse wheel reports its movement in.
#[derive(Clone, Copy, Debug, PartialEq, Eq, Structural)]
pub enum MouseScrollUnit {
    /// Lines or rows to scroll.
    Line,
    /// Pixels to scroll.
    Pixel,
}

/// A mouse wheel movement.
#[derive(Clone, Copy, Debug, PartialEq, Eq, Structural)]
pub struct MouseWheel {
    /// The mouse scroll unit.
    pub unit: MouseScrollUnit,
    /// Horizontal scroll movement.
    pub x: i32,
    /// Vertical scroll movement.
    pub y: i32,
}

/// A mouse button press or release event.
#[derive(Clone, Copy, Debug, PartialEq, Eq, Structural)]
pub struct MouseButtonInput {
    /// Mouse button assigned to the event.
    pub button: MouseButton,
    /// Press state of the mouse button.
    pub state: ButtonState,
}

} // verus!
