//! The immutable rectangle that bounds the playable grid.

use vstd::prelude::*;

verus! {

/// Axis-aligned rectangle bounding the play field, in grid-cell
/// coordinates. Immutable after construction; every other component uses
/// it only for bounds checks.
#[derive(Clone, Copy, Debug, PartialEq, Eq, Structural)]
pub struct Boundary {
    pub left: u32,
    pub right: u32,
    pub top: u32,
    pub bottom: u32,
}

impl Boundary {
    /// A boundary is well formed when it is a proper rectangle and its
    /// extents leave room for the `+ 1` arithmetic of the grid walk.
    pub open spec fn wf(self) -> bool {
        &&& self.left < self.right
        &&& self.top < self.bottom
        &&& self.right < u32::MAX
        &&& self.bottom < u32::MAX
    }

    /// The physics of the projectile needs at least three columns and
    /// three rows to reflect without leaving the rectangle.
    pub open spec fn roomy(self) -> bool {
        &&& self.wf()
        &&& self.left + 2 <= self.right
        &&& self.top + 2 <= self.bottom
    }

    pub fn new(left: u32, right: u32, top: u32, bottom: u32) -> (b: Self)
        requires
            left < right,
            top < bottom,
            right < u32::MAX,
            bottom < u32::MAX,
        ensures
            b == (Boundary { left, right, top, bottom }),
            b.wf(),
    {
        Self { left, right, top, bottom }
    }

    pub fn left(&self) -> (r: u32)
        ensures
            r == self.left,
    {
        self.left
    }

    pub fn right(&self) -> (r: u32)
        ensures
            r == self.right,
    {
        self.right
    }

    pub fn top(&self) -> (r: u32)
        ensures
            r == self.top,
    {
        self.top
    }

    pub fn bottom(&self) -> (r: u32)
        ensures
            r == self.bottom,
    {
        self.bottom
    }
}

} // verus!
