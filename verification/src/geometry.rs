//! Points, velocities and the screen.

use vstd::prelude::*;
use crate::units::{UNITS_PER_HALF_PIXEL, UNITS_PER_PIXEL};

verus! {

/// A place on the screen, in units of length. `x` grows to the right and `y`
/// grows downwards, from the top left corner.
#[derive(Clone, Copy, Debug, PartialEq, Eq, Structural)]
pub struct Point {
    pub x: i64,
    pub y: i64,
}

/// A velocity, in units of length per tick along each axis.
#[derive(Clone, Copy, Debug, PartialEq, Eq, Structural)]
pub struct Vector {
    pub x: i64,
    pub y: i64,
}

/// The drawable size of the window, in pixels.
#[derive(Clone, Copy, Debug, PartialEq, Eq, Structural)]
pub struct Screen {
    pub width: u32,
    pub height: u32,
}

impl Screen {
    /// The width of the screen in units of length.
    pub open spec fn spec_right(self) -> int {
        self.width * UNITS_PER_PIXEL
    }

    /// The height of the screen in units of length.
    pub open spec fn spec_bottom(self) -> int {
        self.height * UNITS_PER_PIXEL
    }

    /// The middle of the screen.
    pub open spec fn spec_center(self) -> Point {
        Point {
            x: (self.width * UNITS_PER_HALF_PIXEL) as i64,
            y: (self.height * UNITS_PER_HALF_PIXEL) as i64,
        }
    }

    /// The width of the screen in units of length.
    pub fn right(self) -> (edge: i64)
        ensures
            edge == self.spec_right(),
    {
        (self.width as i64) * UNITS_PER_PIXEL
    }

    /// The height of the screen in units of length.
    pub fn bottom(self) -> (edge: i64)
        ensures
            edge == self.spec_bottom(),
    {
        (self.height as i64) * UNITS_PER_PIXEL
    }

    /// The middle of the screen: half its width and half its height, exactly.
    pub fn center(self) -> (middle: Point)
        ensures
            middle == self.spec_center(),
            2 * middle.x == self.spec_right(),
            2 * middle.y == self.spec_bottom(),
    {
        Point {
            x: (self.width as i64) * UNITS_PER_HALF_PIXEL,
            y: (self.height as i64) * UNITS_PER_HALF_PIXEL,
        }
    }
}

} // verus!
