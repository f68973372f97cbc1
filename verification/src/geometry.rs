//! Plain two-dimensional extents, offsets and rectangles, and clear
//! values, as the renderer and its targets exchange them.

use vstd::prelude::*;

verus! {

/// A width and height in pixels.
#[derive(Clone, Copy, PartialEq, Eq, Structural, Debug)]
pub struct Extent2d {
    pub width: u32,
    pub height: u32,
}

/// A signed position of a rectangle's upper-left corner.
#[derive(Clone, Copy, PartialEq, Eq, Structural, Debug)]
pub struct Offset2d {
    pub x: i32,
    pub y: i32,
}

/// An axis-aligned rectangle: an offset plus an extent.
#[derive(Clone, Copy, PartialEq, Eq, Structural, Debug)]
pub struct Rect2d {
    pub offset: Offset2d,
    pub extent: Extent2d,
}

impl Rect2d {
    /// The rectangle covering a whole frame of the given extent.
    pub open spec fn spec_full(extent: Extent2d) -> Rect2d {
        Rect2d { offset: Offset2d { x: 0, y: 0 }, extent }
    }

    /// The rectangle covering a whole frame of the given extent.
    pub fn full(extent: Extent2d) -> (r: Rect2d)
        ensures
            r == Rect2d::spec_full(extent),
    {
        Rect2d { offset: Offset2d { x: 0, y: 0 }, extent }
    }
}

/// A color clear value, one 32-bit channel pattern per component.
///
/// The driver layer decides how the patterns are read (as float bits
/// for float formats, as integers otherwise); the renderer only
/// carries them through to the recorded pass.
#[derive(Clone, Copy, PartialEq, Eq, Structural, Debug)]
pub struct ClearValue {
    pub r: u32,
    pub g: u32,
    pub b: u32,
    pub a: u32,
}

} // verus!
