//! Window events.

use vstd::prelude::*;

verus! {

/// An enum of window events.
#[derive(Copy, Clone, Debug, PartialEq, Eq, Structural, Hash)]
pub enum WindowEvent {
    NoEvent,
    Shown,
    Hidden,
    Exposed,
    Moved(i32, i32),
    Resized(i32, i32),
    SizeChanged(i32, i32),
    Minimized,
    Maximized,
    Restored,
    Enter,
    Leave,
    FocusGained,
    FocusLost,
    Close,
    TakeFocus,
    HitTest,
}

impl WindowEvent {
    /// The window event that SDL's event number `id` and data fields describe; an unknown
    /// number gives `NoEvent`, and only `Moved`, `Resized` and `SizeChanged` keep the data.
    pub open spec fn spec_from_ll(id: u8, data1: i32, data2: i32) -> WindowEvent {
        match id {
            0 => WindowEvent::NoEvent,
            1 => WindowEvent::Shown,
            2 => WindowEvent::Hidden,
            3 => WindowEvent::Exposed,
            4 => WindowEvent::Moved(data1, data2),
            5 => WindowEvent::Resized(data1, data2),
            6 => WindowEvent::SizeChanged(data1, data2),
            7 => WindowEvent::Minimized,
            8 => WindowEvent::Maximized,
            9 => WindowEvent::Restored,
            10 => WindowEvent::Enter,
            11 => WindowEvent::Leave,
            12 => WindowEvent::FocusGained,
            13 => WindowEvent::FocusLost,
            14 => WindowEvent::Close,
            15 => WindowEvent::TakeFocus,
            16 => WindowEvent::HitTest,
            _ => WindowEvent::NoEvent,
        }
    }

    /// SDL's event number and data fields for this window event (data is zero where the
    /// event carries none).
    pub open spec fn spec_to_ll(self) -> (u8, i32, i32) {
        match self {
            WindowEvent::NoEvent => (0, 0, 0),
            WindowEvent::Shown => (1, 0, 0),
            WindowEvent::Hidden => (2, 0, 0),
            WindowEvent::Exposed => (3, 0, 0),
            WindowEvent::Moved(d1, d2) => (4, d1, d2),
            WindowEvent::Resized(d1, d2) => (5, d1, d2),
            WindowEvent::SizeChanged(d1, d2) => (6, d1, d2),
            WindowEvent::Minimized => (7, 0, 0),
            WindowEvent::Maximized => (8, 0, 0),
            WindowEvent::Restored => (9, 0, 0),
            WindowEvent::Enter => (10, 0, 0),
            WindowEvent::Leave => (11, 0, 0),
            WindowEvent::FocusGained => (12, 0, 0),
            WindowEvent::FocusLost => (13, 0, 0),
            WindowEvent::Close => (14, 0, 0),
            WindowEvent::TakeFocus => (15, 0, 0),
            WindowEvent::HitTest => (16, 0, 0),
        }
    }

    /// The window event that SDL's event number `id` and data fields describe.
    pub fn from_ll(id: u8, data1: i32, data2: i32) -> (r: WindowEvent)
        ensures
            r == Self::spec_from_ll(id, data1, data2),
    {
        match id {
            0 => WindowEvent::NoEvent,
            1 => WindowEvent::Shown,
            2 => WindowEvent::Hidden,
            3 => WindowEvent::Exposed,
            4 => WindowEvent::Moved(data1, data2),
            5 => WindowEvent::Resized(data1, data2),
            6 => WindowEvent::SizeChanged(data1, data2),
            7 => WindowEvent::Minimized,
            8 => WindowEvent::Maximized,
            9 => WindowEvent::Restored,
            10 => WindowEvent::Enter,
            11 => WindowEvent::Leave,
            12 => WindowEvent::FocusGained,
            13 => WindowEvent::FocusLost,
            14 => WindowEvent::Close,
            15 => WindowEvent::TakeFocus,
            16 => WindowEvent::HitTest,
            _ => WindowEvent::NoEvent,
        }
    }

    /// SDL's event number and data fields for this window event.
    pub fn to_ll(&self) -> (r: (u8, i32, i32))
        ensures
            r == self.spec_to_ll(),
    {
        match *self {
            WindowEvent::NoEvent => (0, 0, 0),
            WindowEvent::Shown => (1, 0, 0),
            WindowEvent::Hidden => (2, 0, 0),
            WindowEvent::Exposed => (3, 0, 0),
            WindowEvent::Moved(d1, d2) => (4, d1, d2),
            WindowEvent::Resized(d1, d2) => (5, d1, d2),
            WindowEvent::SizeChanged(d1, d2) => (6, d1, d2),
            WindowEvent::Minimized => (7, 0, 0),
            WindowEvent::Maximized => (8, 0, 0),
            WindowEvent::Restored => (9, 0, 0),
            WindowEvent::Enter => (10, 0, 0),
            WindowEvent::Leave => (11, 0, 0),
            WindowEvent::FocusGained => (12, 0, 0),
            WindowEvent::FocusLost => (13, 0, 0),
            WindowEvent::Close => (14, 0, 0),
            WindowEvent::TakeFocus => (15, 0, 0),
            WindowEvent::HitTest => (16, 0, 0),
        }
    }

    /// Every window event is found again from its SDL encoding.
    pub proof fn lemma_from_to_ll(w: WindowEvent)
        ensures
            ({
                let (id, d1, d2) = w.spec_to_ll();
                Self::spec_from_ll(id, d1, d2) == w
            }),
    {
    }

    /// An encoding that SDL can produce (a known event number, with zero data for the events
    /// that carry none) is given back by decoding and re-encoding.
    pub proof fn lemma_to_from_ll(id: u8, data1: i32, data2: i32)
        requires
            id <= 16,
            (4 <= id <= 6) || (data1 == 0 && data2 == 0),
        ensures
            Self::spec_from_ll(id, data1, data2).spec_to_ll() == (id, data1, data2),
    {
    }

    /// SDL's window event numbers (`SDL_WINDOWEVENT_NONE` = 0 up to `SDL_WINDOWEVENT_HIT_TEST`
    /// = 16) each stand for the window event of the same name, in both directions; moves and
    /// size changes carry their two data fields, and a number above 16 names no event.
    pub proof fn lemma_window_event_numbers(id: u8, data1: i32, data2: i32)
        ensures
            Self::spec_from_ll(0, data1, data2) == WindowEvent::NoEvent,
            Self::spec_from_ll(1, data1, data2) == WindowEvent::Shown,
            Self::spec_from_ll(2, data1, data2) == WindowEvent::Hidden,
            Self::spec_from_ll(3, data1, data2) == WindowEvent::Exposed,
            Self::spec_from_ll(4, data1, data2) == WindowEvent::Moved(data1, data2),
            Self::spec_from_ll(5, data1, data2) == WindowEvent::Resized(data1, data2),
            Self::spec_from_ll(6, data1, data2) == WindowEvent::SizeChanged(data1, data2),
            Self::spec_from_ll(7, data1, data2) == WindowEvent::Minimized,
            Self::spec_from_ll(8, data1, data2) == WindowEvent::Maximized,
            Self::spec_from_ll(9, data1, data2) == WindowEvent::Restored,
            Self::spec_from_ll(10, data1, data2) == WindowEvent::Enter,
            Self::spec_from_ll(11, data1, data2) == WindowEvent::Leave,
            Self::spec_from_ll(12, data1, data2) == WindowEvent::FocusGained,
            Self::spec_from_ll(13, data1, data2) == WindowEvent::FocusLost,
            Self::spec_from_ll(14, data1, data2) == WindowEvent::Close,
            Self::spec_from_ll(15, data1, data2) == WindowEvent::TakeFocus,
            Self::spec_from_ll(16, data1, data2) == WindowEvent::HitTest,
            id > 16 ==> Self::spec_from_ll(id, data1, data2) == WindowEvent::NoEvent,
            WindowEvent::NoEvent.spec_to_ll() == (0u8, 0i32, 0i32),
            WindowEvent::Shown.spec_to_ll() == (1u8, 0i32, 0i32),
            WindowEvent::Hidden.spec_to_ll() == (2u8, 0i32, 0i32),
            WindowEvent::Exposed.spec_to_ll() == (3u8, 0i32, 0i32),
            WindowEvent::Moved(data1, data2).spec_to_ll() == (4u8, data1, data2),
            WindowEvent::Resized(data1, data2).spec_to_ll() == (5u8, data1, data2),
            WindowEvent::SizeChanged(data1, data2).spec_to_ll() == (6u8, data1, data2),
            WindowEvent::Minimized.spec_to_ll() == (7u8, 0i32, 0i32),
            WindowEvent::Maximized.spec_to_ll() == (8u8, 0i32, 0i32),
            WindowEvent::Restored.spec_to_ll() == (9u8, 0i32, 0i32),
            WindowEvent::Enter.spec_to_ll() == (10u8, 0i32, 0i32),
            WindowEvent::Leave.spec_to_ll() == (11u8, 0i32, 0i32),
            WindowEvent::FocusGained.spec_to_ll() == (12u8, 0i32, 0i32),
            WindowEvent::FocusLost.spec_to_ll() == (13u8, 0i32, 0i32),
            WindowEvent::Close.spec_to_ll() == (14u8, 0i32, 0i32),
            WindowEvent::TakeFocus.spec_to_ll() == (15u8, 0i32, 0i32),
            WindowEvent::HitTest.spec_to_ll() == (16u8, 0i32, 0i32),
    {
    }
}

} // verus!
