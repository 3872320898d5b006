//! The button argument a controller packet carries alongside the drive
//! argument.

use vstd::prelude::*;

verus! {

/// Which auxiliary button is held this tick, if any.
#[derive(Clone, Copy, Debug, PartialEq, Eq, Structural)]
pub enum ButtonArg {
    /// No button held.
    Null,
    /// Arm up.
    Up,
    /// Arm down.
    Down,
    /// The A button.
    A,
}

impl ButtonArg {
    /// The button's name.
    pub fn to_string(self) -> (r: &'static str)
        ensures
            r@ == match self {
                ButtonArg::Up => "Up"@,
                ButtonArg::Down => "Down"@,
                ButtonArg::Null => "Null"@,
                ButtonArg::A => "A"@,
            },
    {
        match self {
            ButtonArg::Up => "Up",
            ButtonArg::Down => "Down",
            ButtonArg::Null => "Null",
            ButtonArg::A => "A",
        }
    }
}

} // verus!
