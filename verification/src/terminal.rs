//! Points and rectangles of a screen, in cells counted from one.

use std::ops::RangeInclusive;
use vstd::prelude::*;

verus! {

/// A cell of the screen.
#[derive(Debug, Copy, Clone, Eq, PartialEq, Structural)]
pub struct Point {
    pub x: u16,
    pub y: u16,
}

/// A region of the screen, from its first cell to its last.
#[derive(Debug, Copy, Clone, Eq, PartialEq, Structural)]
pub struct Rect {
    pub start: Point,
    pub end: Point,
}

impl Rect {
    /// The distance from the first column to the last.
    pub fn width(self) -> (width: u16)
        requires
            self.start.x <= self.end.x,
        ensures
            width == self.end.x - self.start.x,
    {
        self.end.x - self.start.x
    }

    /// The distance from the first row to the last.
    pub fn height(self) -> (height: u16)
        requires
            self.start.y <= self.end.y,
        ensures
            height == self.end.y - self.start.y,
    {
        self.end.y - self.start.y
    }

    /// The columns of the region, the last one included.
    pub fn range_x(self) -> (columns: RangeInclusive<u16>)
        ensures
            columns@.start == self.start.x,
            columns@.end == self.end.x,
            !columns@.exhausted,
    {
        RangeInclusive::new(self.start.x, self.end.x)
    }

    /// The rows of the region, the last one included.
    pub fn range_y(self) -> (rows: RangeInclusive<u16>)
        ensures
            rows@.start == self.start.y,
            rows@.end == self.end.y,
            !rows@.exhausted,
    {
        RangeInclusive::new(self.start.y, self.end.y)
    }
}

} // verus!
