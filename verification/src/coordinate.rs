//! Integer points and sizes of the terminal grid.

use vstd::prelude::*;

verus! {

/// A point of the unbounded integer plane: the mathematical value of a
/// [`Coordinate`], used for positions and for extents alike.
pub ghost struct Point {
    pub x: int,
    pub y: int,
}

impl Point {
    /// The origin, which is also the empty extent.
    pub open spec fn zero() -> Point {
        Point { x: 0, y: 0 }
    }

    /// Component-wise sum.
    pub open spec fn plus(self, other: Point) -> Point {
        Point { x: self.x + other.x, y: self.y + other.y }
    }

    /// Component-wise product. Multiplying by `(1, 0)` or `(0, 1)` projects
    /// a size onto one axis.
    pub open spec fn times(self, other: Point) -> Point {
        Point { x: self.x * other.x, y: self.y * other.y }
    }

    /// Both components are representable as `usize`.
    pub open spec fn fits(self) -> bool {
        0 <= self.x <= usize::MAX && 0 <= self.y <= usize::MAX
    }
}

/// A cell position or a size on the terminal grid.
#[derive(Clone, Copy, Debug, PartialEq, Eq, Structural)]
pub struct Coordinate {
    pub x: usize,
    pub y: usize,
}

impl View for Coordinate {
    type V = Point;

    open spec fn view(&self) -> Point {
        Point { x: self.x as int, y: self.y as int }
    }
}

impl Coordinate {
    pub fn new(x: usize, y: usize) -> (c: Coordinate)
        ensures
            c.x == x,
            c.y == y,
    {
        Coordinate { x, y }
    }

    /// Component-wise sum.
    pub fn add(self, other: Coordinate) -> (sum: Coordinate)
        requires
            self@.plus(other@).fits(),
        ensures
            sum@ == self@.plus(other@),
    {
        Coordinate { x: self.x + other.x, y: self.y + other.y }
    }

    /// Component-wise product.
    pub fn multiply(self, other: Coordinate) -> (product: Coordinate)
        requires
            self@.times(other@).fits(),
        ensures
            product@ == self@.times(other@),
    {
        Coordinate { x: self.x * other.x, y: self.y * other.y }
    }
}

} // verus!
