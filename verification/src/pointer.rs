//! The mouse as one frame sees it.

use crate::geometry::Point;
use vstd::prelude::*;

verus! {

/// A snapshot of the pointer for one frame.
///
/// `down` is a level: the primary button is held at this moment. `pressed`
/// and `released` are edges: the button went down, or came up, during this
/// frame, and they are false again on the next one.
#[derive(Clone, Copy, Debug, PartialEq, Eq, Structural)]
pub struct Pointer {
    pub position: Point,
    pub down: bool,
    pub pressed: bool,
    pub released: bool,
}

impl Pointer {
    /// The snapshot of the frame after `self`, in which the pointer is at
    /// `position` and the primary button is held or not as `down` says. The
    /// edges follow from the two levels.
    pub open spec fn followed_by(self, position: Point, down: bool) -> Pointer {
        Pointer { position, down, pressed: down && !self.down, released: !down && self.down }
    }

    /// A pointer at `position` whose button is up and has not just moved.
    pub fn at_rest(position: Point) -> (p: Pointer)
        ensures
            p == (Pointer { position, down: false, pressed: false, released: false }),
    {
        Pointer { position, down: false, pressed: false, released: false }
    }

    /// Builds the snapshot of the next frame from this one and the new
    /// position and button level.
    pub fn advance(&self, position: Point, down: bool) -> (next: Pointer)
        ensures
            next == self.followed_by(position, down),
    {
        Pointer { position, down, pressed: down && !self.down, released: !down && self.down }
    }
}

} // verus!
