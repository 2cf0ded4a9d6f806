//! The fixed, linear order of the wizard's screens.

use vstd::prelude::*;

verus! {

/// One step of the wizard.
#[derive(Debug, Clone, Copy, PartialEq, Eq, Structural)]
pub enum Screen {
    Start,
    Selection,
    Result,
}

impl Screen {
    /// Number of screens in the sequence.
    pub open spec fn count() -> int {
        3
    }

    /// Place of this screen in the sequence, counted from zero.
    pub open spec fn position(self) -> int {
        match self {
            Screen::Start => 0,
            Screen::Selection => 1,
            Screen::Result => 2,
        }
    }

    /// The screen at place `i` of the sequence, if the sequence is that long.
    pub open spec fn at(i: int) -> Option<Screen> {
        if i == 0 {
            Some(Screen::Start)
        } else if i == 1 {
            Some(Screen::Selection)
        } else if i == 2 {
            Some(Screen::Result)
        } else {
            None
        }
    }

    /// The screen one step forward, or `None` on the last screen.
    pub fn next(self) -> (r: Option<Screen>)
        ensures
            r == Screen::at(self.position() + 1),
    {
        match self {
            Screen::Start => Some(Screen::Selection),
            Screen::Selection => Some(Screen::Result),
            Screen::Result => None,
        }
    }

    /// The screen one step backward, or `None` on the first screen.
    pub fn previous(self) -> (r: Option<Screen>)
        ensures
            r == Screen::at(self.position() - 1),
    {
        match self {
            Screen::Start => None,
            Screen::Selection => Some(Screen::Start),
            Screen::Result => Some(Screen::Selection),
        }
    }

    /// Every screen sits at its own position, and positions stay inside the
    /// sequence.
    pub proof fn position_is_place(s: Screen)
        ensures
            0 <= s.position() < Screen::count(),
            Screen::at(s.position()) == Some(s),
    {
    }

    /// A place holds a screen exactly when it lies inside the sequence, and
    /// that screen's position is the place.
    pub proof fn place_is_position(i: int)
        ensures
            Screen::at(i) is Some <==> 0 <= i < Screen::count(),
            Screen::at(i) matches Some(s) ==> s.position() == i,
    {
    }

    /// Stepping forward and then backward returns to the screen one started
    /// from.
    pub proof fn forward_then_backward(s: Screen)
        ensures
            Screen::at(s.position() + 1) matches Some(n) ==> Screen::at(n.position() - 1)
                == Some(s),
    {
    }

    /// Stepping backward and then forward returns to the screen one started
    /// from.
    pub proof fn backward_then_forward(s: Screen)
        ensures
            Screen::at(s.position() - 1) matches Some(p) ==> Screen::at(p.position() + 1)
                == Some(s),
    {
    }
}

} // verus!
