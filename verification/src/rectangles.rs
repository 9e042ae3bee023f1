//! Axis-aligned rectangles with whole-pixel dimensions.

use vstd::prelude::*;

verus! {

#[derive(Debug)]
pub struct Rectangle {
    pub width: u32,
    pub height: u32,
}

impl Rectangle {
    /// The area in square pixels.
    pub fn area(&self) -> (a: u32)
        requires
            self.width * self.height <= u32::MAX,
        ensures
            a == self.width * self.height,
    {
        self.width * self.height
    }
}

impl Rectangle {
    pub fn new(width: u32, height: u32) -> (r: Rectangle)
        ensures
            r.width == width,
            r.height == height,
    {
        Rectangle { width, height }
    }

    /// A rectangle with equal sides.
    pub fn square(size: u32) -> (r: Rectangle)
        ensures
            r.width == size,
            r.height == size,
    {
        Rectangle { width: size, height: size }
    }

    /// Whether `other` fits inside `self` without rotation.
    pub fn can_hold(&self, other: &Rectangle) -> (b: bool)
        ensures
            b == (self.width >= other.width && self.height >= other.height),
    {
        self.width >= other.width && self.height >= other.height
    }
}

} // verus!
