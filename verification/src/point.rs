use vstd::prelude::*;

verus! {

/// A point whose two coordinates may be of different types.
pub struct Point<X, Y> {
    pub x: X,
    pub y: Y,
}

impl<X, Y> Point<X, Y> {
    /// The point with the first coordinate of `self` and the second of `other`.
    pub fn mixup<X2, Y2>(self, other: Point<X2, Y2>) -> (p: Point<X, Y2>)
        ensures
            p.x == self.x,
            p.y == other.y,
    {
        Point { x: self.x, y: other.y }
    }
}

} // verus!
