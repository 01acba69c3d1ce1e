//! Game controller axes and buttons.

use vstd::prelude::*;

verus! {

/// A game controller axis.
#[derive(Copy, Clone, Debug, PartialEq, Eq, Structural, Hash)]
pub enum Axis {
    LeftX,
    LeftY,
    RightX,
    RightY,
    TriggerLeft,
    TriggerRight,
}

impl Axis {
    /// The axis that SDL numbers `axis`, if there is one.
    pub open spec fn spec_from_ll(axis: i32) -> Option<Axis> {
        match axis {
            0 => Some(Axis::LeftX),
            1 => Some(Axis::LeftY),
            2 => Some(Axis::RightX),
            3 => Some(Axis::RightY),
            4 => Some(Axis::TriggerLeft),
            5 => Some(Axis::TriggerRight),
            _ => None,
        }
    }

    /// SDL's number for this axis.
    pub open spec fn spec_to_ll(self) -> i32 {
        match self {
            Axis::LeftX => 0,
            Axis::LeftY => 1,
            Axis::RightX => 2,
            Axis::RightY => 3,
            Axis::TriggerLeft => 4,
            Axis::TriggerRight => 5,
        }
    }

    pub fn from_ll(axis: i32) -> (r: Option<Axis>)
        ensures
            r == Self::spec_from_ll(axis),
    {
        match axis {
            0 => Some(Axis::LeftX),
            1 => Some(Axis::LeftY),
            2 => Some(Axis::RightX),
            3 => Some(Axis::RightY),
            4 => Some(Axis::TriggerLeft),
            5 => Some(Axis::TriggerRight),
            _ => None,
        }
    }

    pub fn to_ll(self) -> (r: i32)
        ensures
            r == self.spec_to_ll(),
    {
        match self {
            Axis::LeftX => 0,
            Axis::LeftY => 1,
            Axis::RightX => 2,
            Axis::RightY => 3,
            Axis::TriggerLeft => 4,
            Axis::TriggerRight => 5,
        }
    }

    /// Every axis is found again from its number.
    pub proof fn lemma_from_to_ll(a: Axis)
        ensures
            Self::spec_from_ll(a.spec_to_ll()) == Some(a),
    {
    }
}

/// A game controller button.
#[derive(Copy, Clone, Debug, PartialEq, Eq, Structural, Hash)]
pub enum Button {
    A,
    B,
    X,
    Y,
    Back,
    Guide,
    Start,
    LeftStick,
    RightStick,
    LeftShoulder,
    RightShoulder,
    DPadUp,
    DPadDown,
    DPadLeft,
    DPadRight,
}

impl Button {
    /// The button that SDL numbers `button`, if there is one.
    pub open spec fn spec_from_ll(button: i32) -> Option<Button> {
        match button {
            0 => Some(Button::A),
            1 => Some(Button::B),
            2 => Some(Button::X),
            3 => Some(Button::Y),
            4 => Some(Button::Back),
            5 => Some(Button::Guide),
            6 => Some(Button::Start),
            7 => Some(Button::LeftStick),
            8 => Some(Button::RightStick),
            9 => Some(Button::LeftShoulder),
            10 => Some(Button::RightShoulder),
            11 => Some(Button::DPadUp),
            12 => Some(Button::DPadDown),
            13 => Some(Button::DPadLeft),
            14 => Some(Button::DPadRight),
            _ => None,
        }
    }

    /// SDL's number for this button.
    pub open spec fn spec_to_ll(self) -> i32 {
        match self {
            Button::A => 0,
            Button::B => 1,
            Button::X => 2,
            Button::Y => 3,
            Button::Back => 4,
            Button::Guide => 5,
            Button::Start => 6,
            Button::LeftStick => 7,
            Button::RightStick => 8,
            Button::LeftShoulder => 9,
            Button::RightShoulder => 10,
            Button::DPadUp => 11,
            Button::DPadDown => 12,
            Button::DPadLeft => 13,
            Button::DPadRight => 14,
        }
    }

    pub fn from_ll(button: i32) -> (r: Option<Button>)
        ensures
            r == Self::spec_from_ll(button),
    {
        match button {
            0 => Some(Button::A),
            1 => Some(Button::B),
            2 => Some(Button::X),
            3 => Some(Button::Y),
            4 => Some(Button::Back),
            5 => Some(Button::Guide),
            6 => Some(Button::Start),
            7 => Some(Button::LeftStick),
            8 => Some(Button::RightStick),
            9 => Some(Button::LeftShoulder),
            10 => Some(Button::RightShoulder),
            11 => Some(Button::DPadUp),
            12 => Some(Button::DPadDown),
            13 => Some(Button::DPadLeft),
            14 => Some(Button::DPadRight),
            _ => None,
        }
    }

    pub fn to_ll(self) -> (r: i32)
        ensures
            r == self.spec_to_ll(),
    {
        match self {
            Button::A => 0,
            Button::B => 1,
            Button::X => 2,
            Button::Y => 3,
            Button::Back => 4,
            Button::Guide => 5,
            Button::Start => 6,
            Button::LeftStick => 7,
            Button::RightStick => 8,
            Button::LeftShoulder => 9,
            Button::RightShoulder => 10,
            Button::DPadUp => 11,
            Button::DPadDown => 12,
            Button::DPadLeft => 13,
            Button::DPadRight => 14,
        }
    }

    /// Every button is found again from its number.
    pub proof fn lemma_from_to_ll(b: Button)
        ensures
            Self::spec_from_ll(b.spec_to_ll()) == Some(b),
    {
    }
}


impl Axis {
    /// SDL's game controller axis numbers: left stick x 0 and y 1, right stick x 2 and y 3, left trigger 4, right trigger 5; every other number names no axis.
    pub proof fn lemma_axis_numbers(n: i32)
        ensures
            Axis::LeftX.spec_to_ll() == 0,
            Axis::LeftY.spec_to_ll() == 1,
            Axis::RightX.spec_to_ll() == 2,
            Axis::RightY.spec_to_ll() == 3,
            Axis::TriggerLeft.spec_to_ll() == 4,
            Axis::TriggerRight.spec_to_ll() == 5,
            Self::spec_from_ll(0) == Some(Axis::LeftX),
            Self::spec_from_ll(1) == Some(Axis::LeftY),
            Self::spec_from_ll(2) == Some(Axis::RightX),
            Self::spec_from_ll(3) == Some(Axis::RightY),
            Self::spec_from_ll(4) == Some(Axis::TriggerLeft),
            Self::spec_from_ll(5) == Some(Axis::TriggerRight),
            !(n == 0 || n == 1 || n == 2 || n == 3 || n == 4 || n == 5) ==> Self::spec_from_ll(n) == None::<Axis>,
    {
    }
}


impl Button {
    /// SDL's game controller button numbers, each for the button of the same name (A 0, B 1, X 2, Y 3, back 4, guide 5, start 6, the sticks 7 and 8, the shoulders 9 and 10, the pad up, down, left and right 11 to 14); every other number names no button.
    pub proof fn lemma_button_numbers(n: i32)
        ensures
            Button::A.spec_to_ll() == 0,
            Button::B.spec_to_ll() == 1,
            Button::X.spec_to_ll() == 2,
            Button::Y.spec_to_ll() == 3,
            Button::Back.spec_to_ll() == 4,
            Button::Guide.spec_to_ll() == 5,
            Button::Start.spec_to_ll() == 6,
            Button::LeftStick.spec_to_ll() == 7,
            Button::RightStick.spec_to_ll() == 8,
            Button::LeftShoulder.spec_to_ll() == 9,
            Button::RightShoulder.spec_to_ll() == 10,
            Button::DPadUp.spec_to_ll() == 11,
            Button::DPadDown.spec_to_ll() == 12,
            Button::DPadLeft.spec_to_ll() == 13,
            Button::DPadRight.spec_to_ll() == 14,
            Self::spec_from_ll(0) == Some(Button::A),
            Self::spec_from_ll(1) == Some(Button::B),
            Self::spec_from_ll(2) == Some(Button::X),
            Self::spec_from_ll(3) == Some(Button::Y),
            Self::spec_from_ll(4) == Some(Button::Back),
            Self::spec_from_ll(5) == Some(Button::Guide),
            Self::spec_from_ll(6) == Some(Button::Start),
            Self::spec_from_ll(7) == Some(Button::LeftStick),
            Self::spec_from_ll(8) == Some(Button::RightStick),
            Self::spec_from_ll(9) == Some(Button::LeftShoulder),
            Self::spec_from_ll(10) == Some(Button::RightShoulder),
            Self::spec_from_ll(11) == Some(Button::DPadUp),
            Self::spec_from_ll(12) == Some(Button::DPadDown),
            Self::spec_from_ll(13) == Some(Button::DPadLeft),
            Self::spec_from_ll(14) == Some(Button::DPadRight),
            !(n == 0 || n == 1 || n == 2 || n == 3 || n == 4 || n == 5 || n == 6 || n == 7 || n == 8 || n == 9 || n == 10 || n == 11 || n == 12 || n == 13 || n == 14) ==> Self::spec_from_ll(n) == None::<Button>,
    {
    }
}

} // verus!
