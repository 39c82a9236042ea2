use vstd::prelude::*;

verus! {

/// An axis-aligned rectangle with integer side lengths.
#[derive(Debug, Clone, Copy, PartialEq, Eq, Structural)]
pub struct Rectangle {
    pub width: u32,
    pub height: u32,
}

impl Rectangle {
    /// The area as a mathematical integer.
    pub open spec fn spec_area(&self) -> int {
        self.width as int * self.height as int
    }

    /// Whether `other` fits strictly inside `self` in both dimensions.
    pub open spec fn spec_can_hold(&self, other: &Rectangle) -> bool {
        self.width > other.width && self.height > other.height
    }

    /// Computes the area. The product must fit in a `u32`.
    pub fn area(&self) -> (a: u32)
        requires
            self.spec_area() <= u32::MAX,
        ensures
            a == self.spec_area(),
    {
        self.width * self.height
    }

    /// Tells whether `other` fits strictly inside `self`.
    pub fn can_hold(&self, other: &Rectangle) -> (b: bool)
        ensures
            b == self.spec_can_hold(other),
    {
        self.width > other.width && self.height > other.height
    }

    /// Builds the square with the given side length.
    pub fn square(size: u32) -> (r: Rectangle)
        ensures
            r.width == size,
            r.height == size,
    {
        Rectangle { width: size, height: size }
    }
}

} // verus!
