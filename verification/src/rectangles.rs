//! A rectangle type with methods: an area computation, a width check,
//! a containment test, and a square constructor.

use vstd::prelude::*;

verus! {

/// A rectangle described by its width and height.
#[derive(Debug, Clone, Copy, PartialEq, Eq, Structural)]
pub struct Rectangle {
    pub width: u32,
    pub height: u32,
}

impl Rectangle {
    /// The area of the rectangle, the product of width and height.
    pub fn area(&self) -> (area: u32)
        requires
            self.width * self.height <= u32::MAX,
        ensures
            area == self.width * self.height,
    {
        self.width * self.height
    }

    /// Whether the rectangle has a nonzero width.
    pub fn width(&self) -> (nonzero: bool)
        ensures
            nonzero == (self.width > 0),
    {
        return self.width > 0;
    }

    /// Whether `other` fits strictly inside `self` in both dimensions.
    pub fn can_hold(&self, other: &Rectangle) -> (holds: bool)
        ensures
            holds == (self.width > other.width && self.height > other.height),
    {
        self.width > other.width && self.height > other.height
    }

    /// A square: both dimensions equal to `size`.
    pub fn square(size: u32) -> (square: Self)
        ensures
            square == (Rectangle { width: size, height: size }),
    {
        Self { width: size, height: size }
    }
}

} // verus!
