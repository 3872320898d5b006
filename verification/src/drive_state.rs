//! The per-tick voltage state of the drive-train's motors, and how a batch
//! of drive arguments turns into one.

use vstd::prelude::*;

verus! {

use crate::maths::{abs, clamp, div_trunc};
use crate::mixer::JoyStick;
use crate::shaper::{shape, shape_mag};

/// The percentage of full response used when driving forward.
pub const FORWARD_SPEED_PCT: u8 = 100;

/// The percentage of full response used when driving backward.
pub const BACKWARD_SPEED_PCT: u8 = 100;

/// The percentage of full response used when turning.
pub const TURN_SPEED_PCT: u8 = 64;

/// The percentage of full scale used when strafing.
pub const STRAFE_SPEED_PCT: u8 = 100;

/// The percentage of full scale used when moving the arm.
pub const ARM_SPEED_PCT: u8 = 100;

/// Stick deflections below this magnitude read as centred.
pub const STICK_DEADZONE: u8 = 10;

/// One drive argument for a control tick: a movement with its stick
/// magnitude and precision flag, a strafe, or an arm command.
#[derive(Clone, Copy, Debug, PartialEq, Eq, Structural)]
pub enum DriveArg {
    /// Drive forward by a stick magnitude.
    Forward(u8, bool),
    /// Drive backward by a stick magnitude.
    Backward(u8, bool),
    /// Turn left by a stick magnitude.
    TLeft(u8, bool),
    /// Turn right by a stick magnitude.
    TRight(u8, bool),
    /// Strafe left.
    SLeft,
    /// Strafe right.
    SRight,
    /// Move the arm up (true) or down (false).
    Arm(bool),
}

/// The current millivolt state for each of the drive-train's motors.
#[derive(Clone, Copy, Debug, PartialEq, Eq, Structural)]
pub struct DriveState {
    /// Top-left motor.
    pub l1: i32,
    /// Bottom-left motor.
    pub l2: i32,
    /// Top-right motor.
    pub r1: i32,
    /// Bottom-right motor.
    pub r2: i32,
    /// The arm motor.
    pub arm: i32,
}

/// The millivolt command for a joystick magnitude: in precise mode the
/// flat percentage of full scale, otherwise the shaped exponential
/// response scaled by the percentage.
pub open spec fn joy_volt_of(stick: int, percent: int, precise: bool) -> int {
    let pct = clamp(percent, 0, 100);
    if precise {
        div_trunc(12000 * pct, 100)
    } else {
        div_trunc(shape_mag(clamp(stick, 0, 127) as nat) * pct, 100)
    }
}

/// The flat millivolt command for a percentage of full scale.
pub open spec fn scale_full_of(percent: int) -> int {
    div_trunc(12000 * clamp(percent, 0, 100), 100)
}

/// One drive argument folded into a motor state.
pub open spec fn apply_arg_of(state: DriveState, arg: DriveArg) -> DriveState {
    match arg {
        DriveArg::Forward(x, precise) => {
            let v = joy_volt_of(x as int, 100, precise);
            DriveState { l1: v as i32, l2: v as i32, r1: v as i32, r2: v as i32, ..state }
        },
        DriveArg::Backward(x, precise) => {
            let v = joy_volt_of(x as int, 100, precise);
            DriveState { l1: -v as i32, l2: -v as i32, r1: -v as i32, r2: -v as i32, ..state }
        },
        DriveArg::TLeft(x, precise) => {
            let v = joy_volt_of(x as int, 64, precise);
            DriveState { l1: -v as i32, l2: -v as i32, r1: v as i32, r2: v as i32, ..state }
        },
        DriveArg::TRight(x, precise) => {
            let v = joy_volt_of(x as int, 64, precise);
            DriveState { l1: v as i32, l2: v as i32, r1: -v as i32, r2: -v as i32, ..state }
        },
        DriveArg::SLeft => {
            let v = scale_full_of(100);
            DriveState { l1: v as i32, l2: -v as i32, r1: -v as i32, r2: v as i32, ..state }
        },
        DriveArg::SRight => {
            let v = scale_full_of(100);
            DriveState { l1: -v as i32, l2: v as i32, r1: v as i32, r2: -v as i32, ..state }
        },
        DriveArg::Arm(up) => {
            let v = scale_full_of(100);
            DriveState { arm: if up { v as i32 } else { -v as i32 }, ..state }
        },
    }
}

/// A batch of drive arguments folded, in order, into the motor state for
/// one tick, starting from all motors stopped.
pub open spec fn drive_state_of(args: Seq<DriveArg>) -> DriveState
    decreases args.len(),
{
    if args.len() == 0 {
        DriveState { l1: 0, l2: 0, r1: 0, r2: 0, arm: 0 }
    } else {
        apply_arg_of(drive_state_of(args.drop_last()), args.last())
    }
}

/// Calculates the millivolt command for a joystick magnitude at a
/// percentage of full response. Precise mode gives the flat percentage of
/// full scale regardless of deflection; otherwise the shaped exponential
/// response is scaled by the percentage.
pub fn calc_joy_voltage(stick: u8, percent: u8, precise: bool) -> (r: i32)
    ensures
        r == joy_volt_of(stick as int, percent as int, precise),
        0 <= r <= 12000,
{
    let pct: i32 = if percent > 100 {
        100
    } else {
        percent as i32
    };
    if precise {
        return 12000 * pct / 100;
    }
    let capped: i32 = if stick > 127 {
        127
    } else {
        stick as i32
    };
    let shaped = shape(capped);
    proof {
        assert(shape_mag(clamp(stick as int, 0, 127) as nat) == shaped as int);
        assert(abs(shaped as int * pct as int) <= 1200000) by (nonlinear_arith)
            requires
                0 <= shaped as int <= 12000,
                0 <= pct as int <= 100,
        ;
        vstd::arithmetic::div_mod::lemma_div_is_ordered(shaped as int * pct as int, 1200000, 100);
        vstd::arithmetic::div_mod::lemma_div_pos_is_pos(shaped as int * pct as int, 100);
    }
    shaped * pct / 100
}

/// The flat millivolt command for a percentage of full scale.
fn scale_full(percent: u8) -> (r: i32)
    ensures
        r == scale_full_of(percent as int),
        0 <= r <= 12000,
{
    let pct: i32 = if percent > 100 {
        100
    } else {
        percent as i32
    };
    12000 * pct / 100
}

impl DriveState {
    /// Builds the motor state for one tick from a batch of drive
    /// arguments, folding them in order over a stopped drive-train: a
    /// movement sets the four wheel motors, a strafe sets them in
    /// opposition, and an arm command sets the arm motor.
    pub fn new(args: &[DriveArg]) -> (r: DriveState)
        ensures
            r == drive_state_of(args@),
    {
        let mut state = DriveState { l1: 0, l2: 0, r1: 0, r2: 0, arm: 0 };
        proof {
            assert(args@.take(0) =~= Seq::<DriveArg>::empty());
        }
        let mut i: usize = 0;
        while i < args.len()
            invariant
                i <= args@.len(),
                state == drive_state_of(args@.take(i as int)),
            decreases args@.len() - i,
        {
            let arg = args[i];
            match arg {
                DriveArg::Forward(x, precise) => {
                    let v = calc_joy_voltage(x, FORWARD_SPEED_PCT, precise);
                    state.l1 = v;
                    state.l2 = v;
                    state.r1 = v;
                    state.r2 = v;
                },
                DriveArg::Backward(x, precise) => {
                    let v = calc_joy_voltage(x, BACKWARD_SPEED_PCT, precise);
                    state.l1 = -v;
                    state.l2 = -v;
                    state.r1 = -v;
                    state.r2 = -v;
                },
                DriveArg::TLeft(x, precise) => {
                    let v = calc_joy_voltage(x, TURN_SPEED_PCT, precise);
                    state.l1 = -v;
                    state.l2 = -v;
                    state.r1 = v;
                    state.r2 = v;
                },
                DriveArg::TRight(x, precise) => {
                    let v = calc_joy_voltage(x, TURN_SPEED_PCT, precise);
                    state.l1 = v;
                    state.l2 = v;
                    state.r1 = -v;
                    state.r2 = -v;
                },
                DriveArg::SLeft => {
                    let v = scale_full(STRAFE_SPEED_PCT);
                    state.l1 = v;
                    state.l2 = -v;
                    state.r1 = -v;
                    state.r2 = v;
                },
                DriveArg::SRight => {
                    let v = scale_full(STRAFE_SPEED_PCT);
                    state.l1 = -v;
                    state.l2 = v;
                    state.r1 = v;
                    state.r2 = -v;
                },
                DriveArg::Arm(up) => {
                    let v = scale_full(ARM_SPEED_PCT);
                    state.arm = if up {
                        v
                    } else {
                        -v
                    };
                },
            }
            i = i + 1;
            proof {
                assert(args@.take(i as int).drop_last() =~= args@.take(i as int - 1));
                assert(args@.take(i as int).last() == args@[i as int - 1]);
            }
        }
        proof {
            assert(args@.take(args@.len() as int) =~= args@);
        }
        state
    }
}

/// An axis reading with the deadzone applied: anything below the minimum
/// deflection reads as centred.
pub open spec fn deadzone_of(v: int) -> int {
    if abs(v) < 10 {
        0
    } else {
        v
    }
}

/// The movement argument one joystick asks for, if any: its dominant axis
/// (sideways beating forward on ties going forward) picks a turn or a
/// drive, signed by the deflection; a centred stick asks for none.
pub open spec fn movement_of(x: int, y: int, precise: bool) -> Option<DriveArg> {
    let stick = if abs(x) > abs(y) {
        x
    } else {
        y
    };
    if stick == 0 {
        Option::None
    } else if abs(x) > abs(y) {
        if stick > 0 {
            Some(DriveArg::TRight(stick as u8, precise))
        } else {
            Some(DriveArg::TLeft((-stick) as u8, precise))
        }
    } else {
        if stick > 0 {
            Some(DriveArg::Forward(stick as u8, precise))
        } else {
            Some(DriveArg::Backward((-stick) as u8, precise))
        }
    }
}

/// The batch of drive arguments one tick's controller readings ask for:
/// the right stick takes over in precise mode when deflected, a strafe
/// button only counts while no stick movement does, and the arm buttons
/// act independently, up winning over down.
pub open spec fn drive_args_of(
    left: JoyStick,
    right: JoyStick,
    l2: bool,
    r2: bool,
    up: bool,
    down: bool,
) -> Seq<DriveArg> {
    let lx = deadzone_of(left.x as int);
    let ly = deadzone_of(left.y as int);
    let rx = deadzone_of(right.x as int);
    let ry = deadzone_of(right.y as int);
    let precise = if abs(rx) > abs(ry) {
        rx != 0
    } else {
        ry != 0
    };
    let movement = if precise {
        movement_of(rx, ry, true)
    } else {
        movement_of(lx, ly, false)
    };
    let with_movement = match movement {
        Some(arg) => seq![arg],
        Option::None => if l2 {
            seq![DriveArg::SLeft]
        } else if r2 {
            seq![DriveArg::SRight]
        } else {
            Seq::empty()
        },
    };
    if up {
        with_movement.push(DriveArg::Arm(true))
    } else if down {
        with_movement.push(DriveArg::Arm(false))
    } else {
        with_movement
    }
}

/// An axis reading with the deadzone applied.
fn deadzone(v: i8) -> (r: i32)
    ensures
        r == deadzone_of(v as int),
        -128 <= r <= 127,
{
    let w = v as i32;
    let mag = if w < 0 {
        -w
    } else {
        w
    };
    if mag < STICK_DEADZONE as i32 {
        0
    } else {
        w
    }
}

/// The movement argument one joystick asks for, if any.
fn movement(x: i32, y: i32, precise: bool) -> (r: Option<DriveArg>)
    requires
        -128 <= x <= 127,
        -128 <= y <= 127,
    ensures
        r == movement_of(x as int, y as int, precise),
{
    let ax = if x < 0 {
        -x
    } else {
        x
    };
    let ay = if y < 0 {
        -y
    } else {
        y
    };
    let stick = if ax > ay {
        x
    } else {
        y
    };
    if stick == 0 {
        None
    } else if ax > ay {
        if stick > 0 {
            Some(DriveArg::TRight(stick as u8, precise))
        } else {
            Some(DriveArg::TLeft((-stick) as u8, precise))
        }
    } else {
        if stick > 0 {
            Some(DriveArg::Forward(stick as u8, precise))
        } else {
            Some(DriveArg::Backward((-stick) as u8, precise))
        }
    }
}

impl DriveArg {
    /// Builds the batch of drive arguments for one tick from the two
    /// joysticks and the strafe and arm buttons. A deflected right stick
    /// switches to precise mode and takes over the movement; strafing only
    /// happens while nothing else moves; the arm buttons always apply,
    /// up before down.
    pub fn new(
        left_stick: JoyStick,
        right_stick: JoyStick,
        l2: bool,
        r2: bool,
        up: bool,
        down: bool,
    ) -> (r: Vec<DriveArg>)
        ensures
            r@ == drive_args_of(left_stick, right_stick, l2, r2, up, down),
    {
        let lx = deadzone(left_stick.x);
        let ly = deadzone(left_stick.y);
        let rx = deadzone(right_stick.x);
        let ry = deadzone(right_stick.y);
        let arx = if rx < 0 {
            -rx
        } else {
            rx
        };
        let ary = if ry < 0 {
            -ry
        } else {
            ry
        };
        let precise = if arx > ary {
            rx != 0
        } else {
            ry != 0
        };
        let movement_arg = if precise {
            movement(rx, ry, true)
        } else {
            movement(lx, ly, false)
        };
        let mut args: Vec<DriveArg> = Vec::new();
        match movement_arg {
            Some(arg) => args.push(arg),
            None => {
                if l2 {
                    args.push(DriveArg::SLeft);
                } else if r2 {
                    args.push(DriveArg::SRight);
                }
            },
        }
        if up {
            args.push(DriveArg::Arm(true));
        } else if down {
            args.push(DriveArg::Arm(false));
        }
        proof {
            assert(args@ =~= drive_args_of(left_stick, right_stick, l2, r2, up, down));
        }
        args
    }
}

} // verus!
