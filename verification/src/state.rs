//! The four toggles of the grid.

use vstd::prelude::*;

verus! {

/// Which of the four toggles are on.
///
/// The toggles are independent of each other. Their order, A1, A2, B1, B2, is
/// fixed: it is the order in which the text form lists them.
#[derive(Clone, Copy, Debug, PartialEq, Eq, Structural)]
pub struct ToggleState {
    /// Top left.
    pub a1: bool,
    /// Top right.
    pub a2: bool,
    /// Bottom left.
    pub b1: bool,
    /// Bottom right.
    pub b2: bool,
}

impl ToggleState {
    /// The state with every toggle off.
    pub open spec fn all_off() -> ToggleState {
        ToggleState { a1: false, a2: false, b1: false, b2: false }
    }

    /// A fresh grid: every toggle is off.
    pub fn new() -> (state: ToggleState)
        ensures
            state == ToggleState::all_off(),
    {
        ToggleState { a1: false, a2: false, b1: false, b2: false }
    }
}

impl Default for ToggleState {
    /// Same as [`ToggleState::new`].
    fn default() -> (state: ToggleState)
        ensures
            state == ToggleState::all_off(),
    {
        ToggleState::new()
    }
}

} // verus!
