//! Buttons as the board's control library numbers them.
use vstd::prelude::*;

verus! {

/// Debounce time of the buttons, in microseconds.
pub const BUTTON_DEBOUNCE: i32 = 2000;

/// Buttons of the board.
#[derive(Clone, Copy, Debug, PartialEq, Eq, Structural)]
pub enum Button {
    Pause,
    Mode,
}

impl Button {
    /// The pin number of the button.
    pub fn pin(&self) -> (r: i32)
        ensures
            r == (match *self {
                Button::Pause => 5i32,
                Button::Mode => 4i32,
            }),
    {
        match self {
            Button::Pause => 5,
            Button::Mode => 4,
        }
    }
}

} // verus!
