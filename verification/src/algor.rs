//! A pre-authored autonomous algorithm: one optional drive argument per
//! tick, looked up by tick number.

use vstd::prelude::*;

verus! {

use crate::drive_state::DriveArg;

/// An autonomous algorithm: the drive argument for each tick of the run,
/// with gaps where no argument is issued.
pub struct Algor(pub Vec<Option<DriveArg>>);

impl Algor {
    /// The drive argument for a tick: the stored argument when the tick is
    /// inside the algorithm and a step is present there, and nothing
    /// otherwise.
    pub fn get(&self, tick: usize) -> (r: Option<DriveArg>)
        ensures
            r == (if tick < self.0@.len() {
                self.0@[tick as int]
            } else {
                Option::<DriveArg>::None
            }),
    {
        if tick < self.0.len() {
            self.0[tick]
        } else {
            None
        }
    }

    /// Whether the algorithm has run out of ticks.
    pub fn is_finished(&self, tick: usize) -> (r: bool)
        ensures
            r == (self.0@.len() <= tick),
    {
        self.0.len() <= tick
    }
}

} // verus!
