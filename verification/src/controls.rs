//! Teleop control decisions: turning the controller's button and joystick
//! readings into bytecode instructions. Polling the controller and driving
//! the actuators is the surrounding loop's business; these functions only
//! decide.

use vstd::prelude::*;

verus! {

use crate::bytecode::ByteCode;
use crate::maths::clamp;
use crate::mixer::JoyStick;
use crate::shaper::{shape, shape_of};

/// The belt's running voltage in millivolts.
pub const BELT_VOLTS: i32 = 12000;

/// The minimum number of ticks between two solenoid toggles.
pub const SOLENOID_DELAY: u32 = 8;

/// Decides the belt instruction from the two belt buttons: up wins over
/// down, and neither stops the belt.
pub fn belt(up: bool, down: bool) -> (r: ByteCode)
    ensures
        r == (if up {
            ByteCode::Belt(12000i32)
        } else if down {
            ByteCode::Belt(-12000i32)
        } else {
            ByteCode::Belt(0i32)
        }),
{
    if up {
        return ByteCode::Belt(BELT_VOLTS);
    }
    if down {
        return ByteCode::Belt(-BELT_VOLTS);
    }
    ByteCode::Belt(0)
}

/// Decides the solenoid instruction: a toggle press flips the stored state
/// and remembers the tick, but no sooner than `SOLENOID_DELAY` ticks after
/// the previous flip; the instruction always carries the current state.
pub fn solenoid(tick: u32, last_toggled: &mut u32, active: &mut bool, toggled: bool) -> (r: ByteCode)
    requires
        *old(last_toggled) <= tick,
    ensures
        ({
            let flips = tick - *old(last_toggled) >= 8 && toggled;
            &&& *final(active) == (if flips {
                !*old(active)
            } else {
                *old(active)
            })
            &&& *final(last_toggled) == (if flips {
                tick
            } else {
                *old(last_toggled)
            })
            &&& r == ByteCode::Solenoid(*final(active))
        }),
{
    if tick - *last_toggled < SOLENOID_DELAY {
        return ByteCode::Solenoid(*active);
    }
    if toggled {
        *last_toggled = tick;
        *active = !*active;
    }
    ByteCode::Solenoid(*active)
}

/// Decides the drive instruction from the drive joystick: each axis goes
/// through the exponential response curve to a voltage.
pub fn drive(j1: JoyStick) -> (r: ByteCode)
    ensures
        r == (ByteCode::Drive {
            x: shape_of(clamp(j1.x as int, -127, 127)) as i32,
            y: shape_of(clamp(j1.y as int, -127, 127)) as i32,
        }),
{
    let x = if (j1.x as i32) < -127 {
        -127
    } else {
        j1.x as i32
    };
    let y = if (j1.y as i32) < -127 {
        -127
    } else {
        j1.y as i32
    };
    ByteCode::Drive { x: shape(x), y: shape(y) }
}

} // verus!
