//! Rectangles with integer sides.

use vstd::prelude::*;

verus! {

/// A rectangle given by its two sides.
#[derive(Clone, Copy, Debug, PartialEq, Eq, Structural)]
pub struct Rect {
    pub height: i32,
    pub width: i32,
}

impl Rect {
    /// The area as a mathematical integer.
    pub open spec fn spec_area(&self) -> int {
        self.width * self.height
    }

    /// The perimeter as a mathematical integer.
    pub open spec fn spec_perimeter(&self) -> int {
        2 * (self.width + self.height)
    }

    /// The area, `width * height`, where it fits in an `i32`.
    pub fn area(&self) -> (area: i32)
        requires
            i32::MIN <= self.spec_area() <= i32::MAX,
        ensures
            area == self.spec_area(),
    {
        self.width * self.height
    }

    /// The perimeter, twice the sum of the sides, where it fits in an `i32`.
    pub fn perimeter(&self) -> (perimeter: i32)
        requires
            i32::MIN <= self.spec_perimeter() <= i32::MAX,
        ensures
            perimeter == self.spec_perimeter(),
    {
        2 * (self.width + self.height)
    }
}

} // verus!
