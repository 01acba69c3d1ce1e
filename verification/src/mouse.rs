//! Mouse buttons, wheel directions and button states.

use vstd::prelude::*;

verus! {

/// A mouse button, as SDL numbers it.
#[derive(Copy, Clone, Debug, PartialEq, Eq, Structural, Hash)]
pub enum MouseButton {
    Unknown,
    Left,
    Middle,
    Right,
    X1,
    X2,
}

impl MouseButton {
    /// The button that SDL numbers `button`; numbers SDL does not define give `Unknown`.
    pub open spec fn spec_from_ll(button: u8) -> MouseButton {
        match button {
            1 => MouseButton::Left,
            2 => MouseButton::Middle,
            3 => MouseButton::Right,
            4 => MouseButton::X1,
            5 => MouseButton::X2,
            _ => MouseButton::Unknown,
        }
    }

    /// SDL's number for this button (`Unknown` is 0).
    pub open spec fn spec_to_u8(self) -> u8 {
        match self {
            MouseButton::Unknown => 0,
            MouseButton::Left => 1,
            MouseButton::Middle => 2,
            MouseButton::Right => 3,
            MouseButton::X1 => 4,
            MouseButton::X2 => 5,
        }
    }

    /// The button that SDL numbers `button`.
    pub fn from_ll(button: u8) -> (r: MouseButton)
        ensures
            r == Self::spec_from_ll(button),
    {
        match button {
            1 => MouseButton::Left,
            2 => MouseButton::Middle,
            3 => MouseButton::Right,
            4 => MouseButton::X1,
            5 => MouseButton::X2,
            _ => MouseButton::Unknown,
        }
    }

    /// SDL's number for this button.
    pub fn to_u8(self) -> (r: u8)
        ensures
            r == self.spec_to_u8(),
    {
        match self {
            MouseButton::Unknown => 0,
            MouseButton::Left => 1,
            MouseButton::Middle => 2,
            MouseButton::Right => 3,
            MouseButton::X1 => 4,
            MouseButton::X2 => 5,
        }
    }

    /// Every button is found again from its number.
    pub proof fn lemma_from_to_ll(b: MouseButton)
        ensures
            Self::spec_from_ll(b.spec_to_u8()) == b,
    {
    }
}

/// The direction in which the mouse wheel reports its motion.
#[derive(Copy, Clone, Debug, PartialEq, Eq, Structural, Hash)]
pub enum MouseWheelDirection {
    Normal,
    Flipped,
    Unknown(u32),
}

impl MouseWheelDirection {
    /// The direction that SDL numbers `direction`: 0 is normal, 1 is flipped.
    pub open spec fn spec_from_ll(direction: u32) -> MouseWheelDirection {
        match direction {
            0 => MouseWheelDirection::Normal,
            1 => MouseWheelDirection::Flipped,
            _ => MouseWheelDirection::Unknown(direction),
        }
    }

    /// SDL's number for this direction.
    pub open spec fn spec_to_ll(self) -> u32 {
        match self {
            MouseWheelDirection::Normal => 0,
            MouseWheelDirection::Flipped => 1,
            MouseWheelDirection::Unknown(direction) => direction,
        }
    }

    /// The direction that SDL numbers `direction`.
    pub fn from_ll(direction: u32) -> (r: MouseWheelDirection)
        ensures
            r == Self::spec_from_ll(direction),
    {
        match direction {
            0 => MouseWheelDirection::Normal,
            1 => MouseWheelDirection::Flipped,
            _ => MouseWheelDirection::Unknown(direction),
        }
    }

    /// SDL's number for this direction.
    pub fn to_ll(&self) -> (r: u32)
        ensures
            r == self.spec_to_ll(),
    {
        match self {
            MouseWheelDirection::Normal => 0,
            MouseWheelDirection::Flipped => 1,
            MouseWheelDirection::Unknown(direction) => *direction,
        }
    }

    /// A direction is found again from its number, unless it is an `Unknown` that carries
    /// the number of `Normal` or `Flipped`.
    pub proof fn lemma_from_to_ll(d: MouseWheelDirection)
        requires
            d != MouseWheelDirection::Unknown(0),
            d != MouseWheelDirection::Unknown(1),
        ensures
            Self::spec_from_ll(d.spec_to_ll()) == d,
    {
    }
}

/// The state of the mouse buttons, as SDL's button bit mask, with the pointer position
/// where one was read.
#[derive(Copy, Clone, Debug, PartialEq, Eq, Structural, Hash)]
pub struct MouseState {
    mouse_state: u32,
    x: i32,
    y: i32,
}

impl MouseState {
    /// SDL's button bit mask.
    pub closed spec fn spec_sdl_state(self) -> u32 {
        self.mouse_state
    }

    pub closed spec fn spec_x(self) -> i32 {
        self.x
    }

    pub closed spec fn spec_y(self) -> i32 {
        self.y
    }

    /// The state with button mask `state` at position (0, 0).
    pub closed spec fn spec_from_sdl_state(state: u32) -> MouseState {
        MouseState { mouse_state: state, x: 0, y: 0 }
    }

    /// The state with button mask `state` at position (`x`, `y`).
    pub fn new(state: u32, x: i32, y: i32) -> (r: MouseState)
        ensures
            r.spec_sdl_state() == state,
            r.spec_x() == x,
            r.spec_y() == y,
    {
        MouseState { mouse_state: state, x, y }
    }

    /// The state with button mask `state` at position (0, 0).
    pub fn from_sdl_state(state: u32) -> (r: MouseState)
        ensures
            r == Self::spec_from_sdl_state(state),
            r.spec_sdl_state() == state,
            r.spec_x() == 0,
            r.spec_y() == 0,
    {
        MouseState { mouse_state: state, x: 0, y: 0 }
    }

    /// SDL's button bit mask.
    pub fn to_sdl_state(&self) -> (r: u32)
        ensures
            r == self.spec_sdl_state(),
    {
        self.mouse_state
    }

    pub fn x(&self) -> (r: i32)
        ensures
            r == self.spec_x(),
    {
        self.x
    }

    pub fn y(&self) -> (r: i32)
        ensures
            r == self.spec_y(),
    {
        self.y
    }

    /// What `spec_from_sdl_state` gives: the mask, at position (0, 0).
    pub proof fn lemma_from_sdl_state(state: u32)
        ensures
            Self::spec_from_sdl_state(state).spec_sdl_state() == state,
            Self::spec_from_sdl_state(state).spec_x() == 0,
            Self::spec_from_sdl_state(state).spec_y() == 0,
    {
    }

    /// A state at position (0, 0) is found again from its button mask.
    pub proof fn lemma_from_to_sdl_state(m: MouseState)
        requires
            m.spec_x() == 0,
            m.spec_y() == 0,
        ensures
            Self::spec_from_sdl_state(m.spec_sdl_state()) == m,
    {
    }
}

/// The state of the mouse buttons with the pointer's motion since it was last read.
#[derive(Copy, Clone, Debug, PartialEq, Eq, Structural, Hash)]
pub struct RelativeMouseState {
    mouse_state: u32,
    x: i32,
    y: i32,
}

impl RelativeMouseState {
    /// SDL's button bit mask.
    pub closed spec fn spec_sdl_state(self) -> u32 {
        self.mouse_state
    }

    pub closed spec fn spec_x(self) -> i32 {
        self.x
    }

    pub closed spec fn spec_y(self) -> i32 {
        self.y
    }

    /// The state with button mask `state` and motion (`x`, `y`).
    pub fn new(state: u32, x: i32, y: i32) -> (r: RelativeMouseState)
        ensures
            r.spec_sdl_state() == state,
            r.spec_x() == x,
            r.spec_y() == y,
    {
        RelativeMouseState { mouse_state: state, x, y }
    }

    /// SDL's button bit mask.
    pub fn to_sdl_state(&self) -> (r: u32)
        ensures
            r == self.spec_sdl_state(),
    {
        self.mouse_state
    }

    pub fn x(&self) -> (r: i32)
        ensures
            r == self.spec_x(),
    {
        self.x
    }

    pub fn y(&self) -> (r: i32)
        ensures
            r == self.spec_y(),
    {
        self.y
    }
}


impl MouseButton {
    /// SDL's mouse button numbers: left 1, middle 2, right 3, X1 4, X2 5; every other number is an unknown button, which SDL's number 0 stands for.
    pub proof fn lemma_button_numbers(n: u8)
        ensures
            MouseButton::Unknown.spec_to_u8() == 0,
            MouseButton::Left.spec_to_u8() == 1,
            MouseButton::Middle.spec_to_u8() == 2,
            MouseButton::Right.spec_to_u8() == 3,
            MouseButton::X1.spec_to_u8() == 4,
            MouseButton::X2.spec_to_u8() == 5,
            Self::spec_from_ll(1) == MouseButton::Left,
            Self::spec_from_ll(2) == MouseButton::Middle,
            Self::spec_from_ll(3) == MouseButton::Right,
            Self::spec_from_ll(4) == MouseButton::X1,
            Self::spec_from_ll(5) == MouseButton::X2,
            !(n == 1 || n == 2 || n == 3 || n == 4 || n == 5) ==> Self::spec_from_ll(n) == MouseButton::Unknown,
    {
    }
}


impl MouseWheelDirection {
    /// SDL's wheel direction numbers: `SDL_MOUSEWHEEL_NORMAL` is 0 and `SDL_MOUSEWHEEL_FLIPPED`
    /// is 1; any other number is an unknown direction that keeps the number.
    pub proof fn lemma_direction_numbers(n: u32)
        ensures
            MouseWheelDirection::Normal.spec_to_ll() == 0,
            MouseWheelDirection::Flipped.spec_to_ll() == 1,
            MouseWheelDirection::Unknown(n).spec_to_ll() == n,
            Self::spec_from_ll(0) == MouseWheelDirection::Normal,
            Self::spec_from_ll(1) == MouseWheelDirection::Flipped,
            n > 1 ==> Self::spec_from_ll(n) == MouseWheelDirection::Unknown(n),
    {
    }
}

} // verus!
