//! Rectangles and offsets in grid coordinates.

use vstd::prelude::*;

verus! {

/// A rectangle of cells: the columns `x .. x + width` of the rows
/// `y .. y + height`. An area of zero width or height holds no cell.
#[derive(Clone, Copy, Debug, PartialEq, Eq, Structural)]
pub struct Area {
    pub x: u16,
    pub y: u16,
    pub width: u16,
    pub height: u16,
}

/// A displacement in cells; negative values point left and up.
#[derive(Clone, Copy, Debug, PartialEq, Eq, Structural)]
pub struct Offset {
    pub x: i32,
    pub y: i32,
}

impl Area {
    /// The area with its top left cell at `(x, y)`.
    pub fn new(x: u16, y: u16, width: u16, height: u16) -> (r: Area)
        ensures
            r == (Area { x, y, width, height }),
    {
        Area { x, y, width, height }
    }
}

} // verus!
