//! Rectangles with their associated functions.

use vstd::prelude::*;

verus! {

/// An axis-aligned rectangle with integer sides.
#[derive(Debug)]
pub struct Rectangle {
    pub width: u32,
    pub height: u32,
}

impl Rectangle {
    /// The enclosed surface.
    pub fn area(&self) -> (r: u32)
        requires
            self.width * self.height <= u32::MAX,
        ensures
            r == self.width * self.height,
    {
        self.width * self.height
    }

    /// Whether the rectangle has a non-zero width.
    pub fn width(&self) -> (r: bool)
        ensures
            r == (self.width > 0),
    {
        self.width > 0
    }

    /// Whether `other` fits strictly inside `self` on both axes.
    pub fn can_hold(&self, other: &Rectangle) -> (r: bool)
        ensures
            r == (self.width > other.width && self.height > other.height),
    {
        self.width > other.width && self.height > other.height
    }

    /// A square of the given side length.
    pub fn square(size: u32) -> (r: Self)
        ensures
            r.width == size,
            r.height == size,
    {
        Self { width: size, height: size }
    }
}

/// The enclosed surface, as a free function over a borrowed rectangle.
pub fn area(rectangle: &Rectangle) -> (r: u32)
    requires
        rectangle.width * rectangle.height <= u32::MAX,
    ensures
        r == rectangle.width * rectangle.height,
{
    rectangle.width * rectangle.height
}

} // verus!
