//! Call buttons as the button poller reports them.
use vstd::prelude::*;

verus! {

/// Call kind of the hall button that asks for a ride upwards.
pub const HALL_UP: u8 = 0;

/// Call kind of the hall button that asks for a ride downwards.
pub const HALL_DOWN: u8 = 1;

/// Call kind of the button inside the cab.
pub const CAB: u8 = 2;

/// One button of the building: a floor and a call kind.
#[derive(Debug, Copy, Clone, PartialEq, Eq, Structural)]
pub struct CallButton {
    pub floor: u8,
    pub call: u8,
}

impl CallButton {
    /// The button exists in a building with `n_floors` floors.
    pub open spec fn valid(self, n_floors: nat) -> bool {
        self.floor < n_floors && self.call <= CAB
    }

    /// The button is one of the two hall buttons of its floor.
    pub open spec fn is_hall(self) -> bool {
        self.call == HALL_UP || self.call == HALL_DOWN
    }

    /// Tells whether the button exists in a building with `n_floors` floors.
    pub fn is_valid(&self, n_floors: usize) -> (ok: bool)
        ensures
            ok == self.valid(n_floors as nat),
    {
        (self.floor as usize) < n_floors && self.call <= CAB
    }
}

/// A button reading counts as a press when the button is down and was not
/// down at the reading before.
pub fn is_new_press(previous: bool, reading: bool) -> (pressed: bool)
    ensures
        pressed == (reading && !previous),
{
    reading && previous != reading
}

/// A floor sensor reading is passed on when the cab is at a floor other than
/// the one passed on last.
pub fn new_floor(previous: u8, reading: Option<u8>) -> (floor: Option<u8>)
    ensures
        floor == (match reading {
            Some(f) => if f != previous {
                Some(f)
            } else {
                None
            },
            None => None,
        }),
{
    match reading {
        Some(f) => if f != previous {
            Some(f)
        } else {
            None
        },
        None => None,
    }
}

/// A switch reading, of the stop button or of the obstruction switch, is
/// passed on when it differs from the reading before.
pub fn has_changed(previous: bool, reading: bool) -> (changed: bool)
    ensures
        changed == (previous != reading),
{
    previous != reading
}

} // verus!
