//! Relative rotation tracking in whole degrees: how far the robot has
//! drifted from a chosen compass alignment, and the drive argument that
//! corrects for the drift.

use vstd::prelude::*;

verus! {

use crate::drive_state::DriveArg;

/// How many degrees the robot turns in one tick of a turning argument.
pub const DEGREES_PER_TICK: i16 = 5;

/// Within this many degrees of the desired alignment the robot drives
/// straight instead of correcting.
pub const ROTATION_THRESHOLD: u8 = 10;

/// A compass alignment the robot can be held to.
#[derive(Clone, Copy, Debug, PartialEq, Eq, Structural)]
pub enum RelAlign {
    /// North.
    N,
    /// East.
    E,
    /// West.
    W,
    /// South.
    S,
    /// North-east.
    NE,
    /// South-east.
    SE,
    /// South-west.
    SW,
    /// North-west.
    NW,
}

/// The signed degree offset of an alignment, measured rightward from
/// north.
pub open spec fn align_value_of(a: RelAlign) -> int {
    match a {
        RelAlign::N => 0,
        RelAlign::NE => 45,
        RelAlign::E => 90,
        RelAlign::SE => 135,
        RelAlign::S => 180,
        RelAlign::SW => -135,
        RelAlign::W => -90,
        RelAlign::NW => -45,
    }
}

impl RelAlign {
    /// The signed degree offset of this alignment, measured rightward
    /// from north.
    pub fn value(&self) -> (r: i16)
        ensures
            r == align_value_of(*self),
    {
        match self {
            RelAlign::N => 0,
            RelAlign::NE => 45,
            RelAlign::E => 90,
            RelAlign::SE => 135,
            RelAlign::S => 180,
            RelAlign::SW => -135,
            RelAlign::W => -90,
            RelAlign::NW => -45,
        }
    }

    /// The alignment's name.
    pub fn to_string(&self) -> (r: &'static str)
        ensures
            r@ == match *self {
                RelAlign::N => "North"@,
                RelAlign::NE => "NorthEast"@,
                RelAlign::E => "East"@,
                RelAlign::SE => "SouthEast"@,
                RelAlign::S => "South"@,
                RelAlign::SW => "SouthWest"@,
                RelAlign::W => "West"@,
                RelAlign::NW => "NorthWest"@,
            },
    {
        match self {
            RelAlign::N => "North",
            RelAlign::NE => "NorthEast",
            RelAlign::E => "East",
            RelAlign::SE => "SouthEast",
            RelAlign::S => "South",
            RelAlign::SW => "SouthWest",
            RelAlign::W => "West",
            RelAlign::NW => "NorthWest",
        }
    }
}

/// A signed degree difference folded back into a side and an unsigned
/// difference of at most half a turn: past half a turn the side flips and
/// the remainder of the full turn is kept; below zero the side flips and
/// the magnitude is kept; otherwise both stay.
pub open spec fn safe_set_of(left: bool, value: int) -> (bool, int) {
    if value > 180 {
        (!left, 360 - value)
    } else if value < 0 {
        (!left, -value)
    } else {
        (left, value)
    }
}

/// A value seen from the other side when the sides disagree.
pub open spec fn aligned_value_of(self_left: bool, left: bool, value: int) -> int {
    if self_left != left {
        -value
    } else {
        value
    }
}

/// The relative rotation tracker: how many degrees the robot points away
/// from its alignment, and to which side.
pub struct Rel {
    dif: u8,
    left: bool,
    align: RelAlign,
}

impl Rel {
    /// The tracked difference never exceeds half a turn.
    pub closed spec fn wf(self) -> bool {
        self.dif <= 180
    }

    /// The tracked degree difference from the alignment.
    pub closed spec fn dif(self) -> int {
        self.dif as int
    }

    /// Whether the robot points to the left of the alignment.
    pub closed spec fn is_left(self) -> bool {
        self.left
    }

    /// The alignment currently held to.
    pub closed spec fn alignment(self) -> RelAlign {
        self.align
    }

    /// A fresh tracker: pointing north with no difference.
    pub fn new() -> (r: Rel)
        ensures
            r.wf(),
            r.dif() == 0,
            r.is_left() == true,
            r.alignment() == RelAlign::N,
    {
        Rel { dif: 0, left: true, align: RelAlign::N }
    }

    /// Folds a signed difference back into the side and the stored
    /// unsigned difference.
    fn safe_set(&mut self, value: i16)
        requires
            old(self).wf(),
            -180 <= value <= 360,
        ensures
            final(self).wf(),
            final(self).alignment() == old(self).alignment(),
            (final(self).is_left(), final(self).dif()) == safe_set_of(
                old(self).is_left(),
                value as int,
            ),
    {
        if value > 180 {
            self.left = !self.left;
            self.dif = (360 - value) as u8;
        } else if value < 0 {
            self.left = !self.left;
            self.dif = (-value) as u8;
        } else {
            self.dif = value as u8;
        }
    }

    /// Turns the tracked difference by a signed number of degrees seen
    /// from the given side.
    pub fn add(&mut self, left: bool, value: i16)
        requires
            old(self).wf(),
            -180 <= value <= 180,
        ensures
            final(self).wf(),
            final(self).alignment() == old(self).alignment(),
            (final(self).is_left(), final(self).dif()) == safe_set_of(
                old(self).is_left(),
                old(self).dif() + aligned_value_of(old(self).is_left(), left, value as int),
            ),
    {
        let v = if self.left != left {
            -value
        } else {
            value
        };
        self.safe_set(self.dif as i16 + v);
    }

    /// Turns the tracked difference back by a signed number of degrees
    /// seen from the given side.
    pub fn sub(&mut self, left: bool, value: i16)
        requires
            old(self).wf(),
            -180 <= value <= 180,
        ensures
            final(self).wf(),
            final(self).alignment() == old(self).alignment(),
            (final(self).is_left(), final(self).dif()) == safe_set_of(
                old(self).is_left(),
                old(self).dif() - aligned_value_of(old(self).is_left(), left, value as int),
            ),
    {
        let v = if self.left != left {
            -value
        } else {
            value
        };
        self.safe_set(self.dif as i16 - v);
    }

    /// The turning contribution of one tick's drive argument: a left turn
    /// moves the difference toward this side, a right turn away from it,
    /// anything else not at all.
    pub open spec fn record_delta_of(self_left: bool, arg: DriveArg) -> int {
        match arg {
            DriveArg::TLeft(_, _) => if self_left {
                5
            } else {
                -5
            },
            DriveArg::TRight(_, _) => if self_left {
                -5
            } else {
                5
            },
            _ => 0,
        }
    }

    /// Records one tick's drive argument: a turning argument moves the
    /// tracked difference by `DEGREES_PER_TICK`; run this every tick.
    pub fn record(&mut self, arg: &DriveArg)
        requires
            old(self).wf(),
        ensures
            final(self).wf(),
            final(self).alignment() == old(self).alignment(),
            (final(self).is_left(), final(self).dif()) == safe_set_of(
                old(self).is_left(),
                old(self).dif() + Self::record_delta_of(old(self).is_left(), *arg),
            ),
    {
        let delta: i16 = match arg {
            DriveArg::TLeft(_, _) => if self.left {
                DEGREES_PER_TICK
            } else {
                -DEGREES_PER_TICK
            },
            DriveArg::TRight(_, _) => if self.left {
                -DEGREES_PER_TICK
            } else {
                DEGREES_PER_TICK
            },
            _ => 0,
        };
        self.safe_set(self.dif as i16 + delta);
    }

    /// Re-aims the tracker at a new alignment: the difference is first
    /// brought back to north by undoing the old alignment's offset, then
    /// turned to the new one.
    pub fn align(&mut self, align: RelAlign)
        requires
            old(self).wf(),
        ensures
            final(self).wf(),
            final(self).alignment() == align,
            ({
                let step1 = safe_set_of(
                    old(self).is_left(),
                    old(self).dif() + aligned_value_of(
                        old(self).is_left(),
                        false,
                        align_value_of(old(self).alignment()),
                    ),
                );
                (final(self).is_left(), final(self).dif()) == safe_set_of(
                    step1.0,
                    step1.1 - aligned_value_of(step1.0, false, align_value_of(align)),
                )
            }),
    {
        let old_value = self.align.value();
        self.add(false, old_value);
        self.align = RelAlign::N;
        let new_value = align.value();
        self.sub(false, new_value);
        self.align = align;
    }

    /// The drive argument that corrects the tracked difference: straight
    /// ahead within the threshold, otherwise a turn back toward the
    /// alignment.
    pub fn get_arg(&self, mult: u8, precise: bool) -> (r: DriveArg)
        ensures
            r == (if self.dif() <= 10 {
                DriveArg::Forward(mult, precise)
            } else if self.is_left() {
                DriveArg::TRight(mult, precise)
            } else {
                DriveArg::TLeft(mult, precise)
            }),
    {
        if self.dif <= ROTATION_THRESHOLD {
            return DriveArg::Forward(mult, precise);
        }
        if self.left {
            DriveArg::TRight(mult, precise)
        } else {
            DriveArg::TLeft(mult, precise)
        }
    }
}

} // verus!
