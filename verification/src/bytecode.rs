//! Bytecode instructions for the control loop: small commands the teleop
//! controls emit and the loop's actuator glue executes.

use vstd::prelude::*;

verus! {

/// A single bytecode instruction.
#[derive(Clone, Copy, Debug, PartialEq, Eq, Structural)]
pub enum ByteCode {
    /// Progress a number of tick cycles.
    Cycle(u32),
    /// Update the drive-train's goal: the turn (`x`) and forward (`y`)
    /// voltages.
    Drive {
        /// The turn voltage.
        x: i32,
        /// The forward voltage.
        y: i32,
    },
    /// Set the conveyor-belt voltage.
    Belt(i32),
    /// Engage or release the solenoid.
    Solenoid(bool),
}

} // verus!
