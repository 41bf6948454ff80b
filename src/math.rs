use vstd::prelude::*;

verus! {

/// A pixel coordinate on the display grid.
#[derive(Clone, Copy, Debug, PartialEq, Eq, Structural)]
pub struct Point {
    pub x: usize,
    pub y: usize,
}

impl Point {
    pub fn new(x: usize, y: usize) -> (r: Point)
        ensures
            r.x == x,
            r.y == y,
    {
        Point { x, y }
    }
}

/// Shorthand for `Point::new`.
pub fn point(x: usize, y: usize) -> (r: Point)
    ensures
        r.x == x,
        r.y == y,
{
    Point::new(x, y)
}

} // verus!
