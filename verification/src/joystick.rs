//! Joystick hat positions.

use vstd::prelude::*;

verus! {

/// The position of a joystick hat.
#[derive(Copy, Clone, Debug, PartialEq, Eq, Structural, Hash)]
pub enum HatState {
    Centered,
    Up,
    Right,
    Down,
    Left,
    RightUp,
    RightDown,
    LeftUp,
    LeftDown,
}

impl HatState {
    /// The position that SDL's hat value `raw` describes; a value that names no position
    /// counts as centered.
    pub open spec fn spec_from_raw(raw: u8) -> HatState {
        match raw {
            0 => HatState::Centered,
            1 => HatState::Up,
            2 => HatState::Right,
            4 => HatState::Down,
            8 => HatState::Left,
            3 => HatState::RightUp,
            6 => HatState::RightDown,
            12 => HatState::LeftDown,
            9 => HatState::LeftUp,
            _ => HatState::Centered,
        }
    }

    /// SDL's hat value for this position.
    pub open spec fn spec_to_raw(self) -> u8 {
        match self {
            HatState::Centered => 0,
            HatState::Up => 1,
            HatState::Right => 2,
            HatState::Down => 4,
            HatState::Left => 8,
            HatState::RightUp => 3,
            HatState::RightDown => 6,
            HatState::LeftUp => 9,
            HatState::LeftDown => 12,
        }
    }

    pub fn from_raw(raw: u8) -> (r: HatState)
        ensures
            r == Self::spec_from_raw(raw),
    {
        match raw {
            0 => HatState::Centered,
            1 => HatState::Up,
            2 => HatState::Right,
            4 => HatState::Down,
            8 => HatState::Left,
            3 => HatState::RightUp,
            6 => HatState::RightDown,
            12 => HatState::LeftDown,
            9 => HatState::LeftUp,
            _ => HatState::Centered,
        }
    }

    pub fn to_raw(self) -> (r: u8)
        ensures
            r == self.spec_to_raw(),
    {
        match self {
            HatState::Centered => 0,
            HatState::Up => 1,
            HatState::Right => 2,
            HatState::Down => 4,
            HatState::Left => 8,
            HatState::RightUp => 3,
            HatState::RightDown => 6,
            HatState::LeftUp => 9,
            HatState::LeftDown => 12,
        }
    }

    /// Every position is found again from its hat value.
    pub proof fn lemma_from_to_raw(h: HatState)
        ensures
            Self::spec_from_raw(h.spec_to_raw()) == h,
    {
    }
}


impl HatState {
    /// SDL's hat values: centered 0, up 1, right 2, down 4, left 8, and the diagonals as the sums of their two directions; every other value counts as centered.
    pub proof fn lemma_hat_values(n: u8)
        ensures
            HatState::Centered.spec_to_raw() == 0,
            HatState::Up.spec_to_raw() == 1,
            HatState::Right.spec_to_raw() == 2,
            HatState::Down.spec_to_raw() == 4,
            HatState::Left.spec_to_raw() == 8,
            HatState::RightUp.spec_to_raw() == 3,
            HatState::RightDown.spec_to_raw() == 6,
            HatState::LeftUp.spec_to_raw() == 9,
            HatState::LeftDown.spec_to_raw() == 12,
            Self::spec_from_raw(1) == HatState::Up,
            Self::spec_from_raw(2) == HatState::Right,
            Self::spec_from_raw(4) == HatState::Down,
            Self::spec_from_raw(8) == HatState::Left,
            Self::spec_from_raw(3) == HatState::RightUp,
            Self::spec_from_raw(6) == HatState::RightDown,
            Self::spec_from_raw(9) == HatState::LeftUp,
            Self::spec_from_raw(12) == HatState::LeftDown,
            !(n == 1 || n == 2 || n == 4 || n == 8 || n == 3 || n == 6 || n == 9 || n == 12) ==> Self::spec_from_raw(n) == HatState::Centered,
    {
    }
}

} // verus!
