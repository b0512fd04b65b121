use vstd::prelude::*;

use crate::geometry::Point;
use crate::selection::SelectionMode;

verus! {

/// The courier's marker on the map.
#[derive(Clone, Copy, Debug, PartialEq, Eq, Structural)]
pub struct Courier {
    pub position: Point,
}

impl Courier {
    pub fn new(position: Point) -> (c: Courier)
        ensures
            c.position == position,
    {
        Courier { position }
    }

    /// Moves the courier to `p` when `mode` is courier mode; in any other
    /// mode nothing changes. No bound or road is checked.
    pub fn set_position(&mut self, mode: SelectionMode, p: Point)
        ensures
            final(self).position == (if mode == SelectionMode::PlacingCourier {
                p
            } else {
                old(self).position
            }),
    {
        if mode == SelectionMode::PlacingCourier {
            self.position = p;
        }
    }
}

} // verus!
