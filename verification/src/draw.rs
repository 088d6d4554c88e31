//! Plain integer geometry: points, sizes, pixel rectangles, and the
//! draw transform that pairs a source rectangle with a destination.

use vstd::prelude::*;

verus! {

/// A position in pixels (top-left origin).
#[derive(Copy, Clone, Debug, PartialEq, Eq, Structural)]
pub struct Point2 {
    pub x: usize,
    pub y: usize,
}

/// A size in pixels.
#[derive(Copy, Clone, Debug, PartialEq, Eq, Structural)]
pub struct Size2 {
    pub x: usize,
    pub y: usize,
}

/// A pixel rectangle inside a source image: top-left corner plus extent.
#[derive(Copy, Clone, Debug, PartialEq, Eq, Structural)]
pub struct Rect {
    pub x: usize,
    pub y: usize,
    pub w: usize,
    pub h: usize,
}

/// One draw transform: which source rectangle to sample and where to
/// place it on screen. The batched draw list is a sequence of these.
#[derive(Copy, Clone, Debug, PartialEq, Eq, Structural)]
pub struct DrawParam {
    /// Source rectangle within the shared atlas image, in pixels.
    pub src: Rect,
    /// Destination of the top-left corner, in screen pixels.
    pub dest: Point2,
}

impl Default for DrawParam {
    /// The identity transform: full-zero source rectangle at the origin.
    fn default() -> (r: DrawParam)
        ensures
            r.src == (Rect { x: 0, y: 0, w: 0, h: 0 }),
            r.dest == (Point2 { x: 0, y: 0 }),
    {
        DrawParam { src: Rect { x: 0, y: 0, w: 0, h: 0 }, dest: Point2 { x: 0, y: 0 } }
    }
}

impl DrawParam {
    /// Returns the same transform with the source rectangle replaced.
    pub fn src(self, src: Rect) -> (r: DrawParam)
        ensures
            r.src == src,
            r.dest == self.dest,
    {
        DrawParam { src, dest: self.dest }
    }

    /// Returns the same transform with the destination replaced.
    pub fn dest(self, dest: Point2) -> (r: DrawParam)
        ensures
            r.src == self.src,
            r.dest == dest,
    {
        DrawParam { src: self.src, dest }
    }
}

} // verus!
