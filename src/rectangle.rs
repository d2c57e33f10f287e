//! Rectangles with integer sides, and the area computed three ways: from two
//! numbers, from a pair, and from a `Rectangle`.

use vstd::prelude::*;

verus! {

/// A rectangle given by its width and height.
#[derive(Clone, Copy, Debug, PartialEq, Eq, Structural)]
pub struct Rectangle {
    pub width: u32,
    pub height: u32,
}

/// The area of a `width` by `height` rectangle.
pub open spec fn area_of(width: u32, height: u32) -> int {
    width as int * height as int
}

impl Rectangle {
    /// The area of this rectangle; it must fit in a `u32`.
    pub fn area(&self) -> (a: u32)
        requires
            area_of(self.width, self.height) <= u32::MAX,
        ensures
            a == area_of(self.width, self.height),
    {
        self.width * self.height
    }

    /// Sets the width and keeps the height.
    pub fn change_width(&mut self, width: u32)
        ensures
            final(self).width == width,
            final(self).height == old(self).height,
    {
        self.width = width;
    }

    /// Whether the width is nonzero.
    pub fn width(&self) -> (r: bool)
        ensures
            r == (self.width > 0),
    {
        self.width > 0
    }

    /// Whether `other` fits strictly inside this rectangle, side by side.
    pub fn can_hold(&self, other: &Rectangle) -> (r: bool)
        ensures
            r == (self.width > other.width && self.height > other.height),
    {
        self.width > other.width && self.height > other.height
    }

    /// The square with sides of length `size`.
    pub fn square(size: u32) -> (r: Self)
        ensures
            r.width == size,
            r.height == size,
    {
        Self { width: size, height: size }
    }
}

/// The area of a `width` by `height` rectangle; it must fit in a `u32`.
pub fn area1(width: u32, height: u32) -> (a: u32)
    requires
        area_of(width, height) <= u32::MAX,
    ensures
        a == area_of(width, height),
{
    width * height
}

/// The area of a rectangle given as `(width, height)`; it must fit in a `u32`.
pub fn area2(dimensions: (u32, u32)) -> (a: u32)
    requires
        area_of(dimensions.0, dimensions.1) <= u32::MAX,
    ensures
        a == area_of(dimensions.0, dimensions.1),
{
    dimensions.0 * dimensions.1
}

/// The area of `rect`; it must fit in a `u32`.
pub fn area3(rect: &Rectangle) -> (a: u32)
    requires
        area_of(rect.width, rect.height) <= u32::MAX,
    ensures
        a == area_of(rect.width, rect.height),
{
    rect.width * rect.height
}

} // verus!
