//! Patterns: rules that stagger the cells of an area in time.

use vstd::prelude::*;

verus! {

/// The fixed-point representation of 1 for an origin: origins are given in
/// thousandths of the area's width and height.
pub const UNIT: u16 = 1000;

/// A rule that staggers the cells of an area in time.
#[derive(Clone, Copy, Debug, PartialEq, Eq, Structural)]
pub enum Pattern {
    /// The effect spreads from an origin outwards. The origin is given in
    /// thousandths of the area's width and height, the width of the
    /// transition between untouched and finished cells in cells.
    Radial { origin_x: u16, origin_y: u16, transition: u16 },
    /// The cells start in a scattered order.
    Coalesce,
}

impl Pattern {
    /// Whether the pattern's parameters are in range: an origin lies within
    /// the area, between 0 and [`UNIT`] thousandths of its width and height.
    pub open spec fn valid(self) -> bool {
        match self {
            Pattern::Radial { origin_x, origin_y, .. } => origin_x <= UNIT && origin_y <= UNIT,
            Pattern::Coalesce => true,
        }
    }

    /// Decides whether the pattern's parameters are in range.
    pub fn is_valid(&self) -> (r: bool)
        ensures
            r == self.valid(),
    {
        match self {
            Pattern::Radial { origin_x, origin_y, .. } => *origin_x <= UNIT && *origin_y <= UNIT,
            Pattern::Coalesce => true,
        }
    }

    /// A radial pattern, if the origin lies within the area.
    pub fn radial(origin_x: u16, origin_y: u16, transition: u16) -> (r: Option<Pattern>)
        ensures
            r == if origin_x <= UNIT && origin_y <= UNIT {
                Some(Pattern::Radial { origin_x, origin_y, transition })
            } else {
                None
            },
    {
        if origin_x <= UNIT && origin_y <= UNIT {
            Some(Pattern::Radial { origin_x, origin_y, transition })
        } else {
            None
        }
    }
}

} // verus!
