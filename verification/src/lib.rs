//! Motion-control and autonomous-instruction logic for a competition robot.
//!
//! The library holds the numerically sensitive core of the firmware: joystick
//! response shaping, arcade-drive mixing, dual-sensor odometry integration, a
//! PID corrector with anti-windup and lookahead prediction, a bit-packed
//! instruction codec, a run-length recorder, and a restartable instruction
//! player. Everything is exact integer arithmetic in fixed units:
//!
//! - sensor and yaw angles in centidegrees (1/100 degree); instruction
//!   target angles and compass alignments in whole degrees,
//! - linear position in micrometres,
//! - motor voltages in millivolts (full scale 12000),
//! - joystick deflection in raw stick units (-127..=127),
//! - time in milliseconds.
//!
//! Hardware access (sensors, motors, storage, the controller) lives outside
//! the library; every function here is a pure or explicitly stateful
//! computation on plain values.

pub mod algor;
pub mod author;
pub mod auto;
pub mod button;
pub mod bytecode;
pub mod codec;
pub mod controls;
pub mod drive_state;
pub mod log;
pub mod maths;
pub mod mixer;
pub mod odom;
pub mod pid;
pub mod player;
pub mod recorder;
pub mod relative;
pub mod shaper;

pub use mixer::arcade;
