//! Points, sizes and axis-aligned rectangles in viewport coordinates.
//!
//! The origin is the top-left corner of the viewport; `y` grows downwards.

use vstd::prelude::*;
use crate::units::{px, pixels};

verus! {

/// A position, in position units.
#[derive(Clone, Copy, Debug, PartialEq, Eq, Structural)]
pub struct Point {
    pub x: i64,
    pub y: i64,
}

/// The extent of a sprite or of the viewport, in whole pixels.
#[derive(Clone, Copy, Debug, PartialEq, Eq, Structural)]
pub struct Size {
    pub w: u32,
    pub h: u32,
}

/// An axis-aligned rectangle: its top-left corner and its extent, both in
/// position units. The extent is unsigned, so it is never negative.
#[derive(Clone, Copy, Debug, PartialEq, Eq, Structural)]
pub struct Rect {
    pub x: i64,
    pub y: i64,
    pub w: u64,
    pub h: u64,
}

impl Rect {
    /// The rectangle that a sprite of extent `size` covers when its top-left
    /// corner is at `pos`.
    pub open spec fn covering(pos: Point, size: Size) -> Rect {
        Rect { x: pos.x, y: pos.y, w: px(size.w) as u64, h: px(size.h) as u64 }
    }

    /// Whether the two rectangles share an area larger than zero.
    ///
    /// The comparisons are strict: rectangles that only touch along an edge
    /// or at a corner do not overlap.
    pub open spec fn overlaps_spec(self, other: Rect) -> bool {
        &&& self.x < other.x + other.w
        &&& self.x + self.w > other.x
        &&& self.y < other.y + other.h
        &&& self.y + self.h > other.y
    }

    /// The rectangle with its top-left corner at `(x, y)`, `w` wide and `h` high.
    pub fn new(x: i64, y: i64, w: u64, h: u64) -> (r: Rect)
        ensures
            r == (Rect { x, y, w, h }),
    {
        Rect { x, y, w, h }
    }

    /// The rectangle of a sprite, from its position and its extent.
    pub fn of_sprite(pos: Point, size: Size) -> (r: Rect)
        ensures
            r == Rect::covering(pos, size),
    {
        let w: i64 = pixels(size.w);
        let h: i64 = pixels(size.h);
        Rect { x: pos.x, y: pos.y, w: w as u64, h: h as u64 }
    }

    /// Tests whether `self` and `other` overlap.
    pub fn overlaps(&self, other: &Rect) -> (hit: bool)
        ensures
            hit == self.overlaps_spec(*other),
    {
        let left: i128 = self.x as i128;
        let right: i128 = self.x as i128 + self.w as i128;
        let top: i128 = self.y as i128;
        let bottom: i128 = self.y as i128 + self.h as i128;
        let other_left: i128 = other.x as i128;
        let other_right: i128 = other.x as i128 + other.w as i128;
        let other_top: i128 = other.y as i128;
        let other_bottom: i128 = other.y as i128 + other.h as i128;
        left < other_right && right > other_left && top < other_bottom && bottom > other_top
    }
}

/// The overlap test does not depend on the order of its arguments.
pub proof fn lemma_overlaps_symmetric(a: Rect, b: Rect)
    ensures
        a.overlaps_spec(b) == b.overlaps_spec(a),
{
}

/// Rectangles that share nothing but a boundary do not overlap: as soon as
/// one of them ends where the other begins, on either axis, the test is false.
pub proof fn lemma_touching_rects_do_not_overlap(a: Rect, b: Rect)
    requires
        a.x + a.w == b.x || b.x + b.w == a.x || a.y + a.h == b.y || b.y + b.h == a.y,
    ensures
        !a.overlaps_spec(b),
        !b.overlaps_spec(a),
{
}

/// A rectangle without area overlaps nothing that it merely borders, but a
/// rectangle with area overlaps itself.
pub proof fn lemma_overlaps_self(a: Rect)
    ensures
        a.overlaps_spec(a) <==> a.w > 0 && a.h > 0,
{
}

} // verus!
