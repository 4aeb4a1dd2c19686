//! Sizes in pixels.

use vstd::prelude::*;

verus! {

/// The size of a surface or a two-dimensional image.
#[derive(Clone, Copy, Debug, PartialEq, Eq, Structural)]
pub struct Extent2D {
    pub width: u32,
    pub height: u32,
}

/// The size of an image.
#[derive(Clone, Copy, Debug, PartialEq, Eq, Structural)]
pub struct Extent3D {
    pub width: u32,
    pub height: u32,
    pub depth: u32,
}

/// A position in an image.
#[derive(Clone, Copy, Debug, PartialEq, Eq, Structural)]
pub struct Offset3D {
    pub x: i32,
    pub y: i32,
    pub z: i32,
}

/// A rectangle of a surface.
#[derive(Clone, Copy, Debug, PartialEq, Eq, Structural)]
pub struct Rect2D {
    pub x: i32,
    pub y: i32,
    pub extent: Extent2D,
}

impl Extent2D {
    /// The extent of a flat image of this size.
    pub fn flat(&self) -> (r: Extent3D)
        ensures
            r == (Extent3D { width: self.width, height: self.height, depth: 1 }),
    {
        Extent3D { width: self.width, height: self.height, depth: 1 }
    }
}

} // verus!
