//! A five-channel run-length autonomous routine: one run-length stream of
//! voltages per drive motor, each with its own cursor.

use vstd::prelude::*;

verus! {

/// One motor's run-length channel: its `(voltage, ticks)` runs, the index
/// of the current run, and the ticks already spent in it.
pub type Channel = (Vec<(i32, u16)>, u16, u16);

/// A five-channel autonomous routine, one run-length stream per motor.
pub struct Auto {
    /// Top-left motor channel.
    pub l1: Channel,
    /// Bottom-left motor channel.
    pub l2: Channel,
    /// Top-right motor channel.
    pub r1: Channel,
    /// Bottom-right motor channel.
    pub r2: Channel,
    /// Arm motor channel.
    pub arm: Channel,
}

impl Auto {
    /// Builds a routine from the five motors' run-length streams, every
    /// cursor at the start.
    pub fn new(
        l1: Vec<(i32, u16)>,
        l2: Vec<(i32, u16)>,
        r1: Vec<(i32, u16)>,
        r2: Vec<(i32, u16)>,
        arm: Vec<(i32, u16)>,
    ) -> (r: Auto)
        ensures
            r.l1 == (l1, 0u16, 0u16),
            r.l2 == (l2, 0u16, 0u16),
            r.r1 == (r1, 0u16, 0u16),
            r.r2 == (r2, 0u16, 0u16),
            r.arm == (arm, 0u16, 0u16),
    {
        Auto {
            l1: (l1, 0, 0),
            l2: (l2, 0, 0),
            r1: (r1, 0, 0),
            r2: (r2, 0, 0),
            arm: (arm, 0, 0),
        }
    }
}

} // verus!
