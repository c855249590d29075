//! Integer points and inclusive rectangles used for display and data windows.

use vstd::prelude::*;

verus! {

/// A two-dimensional integer point.
#[derive(Debug, Clone, Copy, PartialEq, Eq, Structural)]
pub struct V2i {
    pub x: i32,
    pub y: i32,
}

/// An inclusive integer rectangle given by its minimum and maximum corners.
///
/// Both corners are part of the rectangle, so a well-formed window always
/// covers at least one pixel.
#[derive(Debug, Clone, Copy, PartialEq, Eq, Structural)]
pub struct Box2i {
    pub min: V2i,
    pub max: V2i,
}

impl Box2i {
    /// Number of pixel columns covered by the window.
    pub open spec fn spec_width(self) -> int {
        self.max.x - self.min.x + 1
    }

    /// Number of pixel rows covered by the window.
    pub open spec fn spec_height(self) -> int {
        self.max.y - self.min.y + 1
    }

    /// A well-formed window has its minimum corner at or below its maximum
    /// corner on both axes, and its extent fits the unsigned 32-bit range
    /// that the rest of the library uses for dimensions.
    pub open spec fn wf(self) -> bool {
        &&& self.min.x <= self.max.x
        &&& self.min.y <= self.max.y
        &&& self.spec_width() <= u32::MAX
        &&& self.spec_height() <= u32::MAX
    }

    /// Builds the window from its corner coordinates.
    pub fn new(min_x: i32, min_y: i32, max_x: i32, max_y: i32) -> (r: Box2i)
        ensures
            r.min.x == min_x,
            r.min.y == min_y,
            r.max.x == max_x,
            r.max.y == max_y,
    {
        Box2i { min: V2i { x: min_x, y: min_y }, max: V2i { x: max_x, y: max_y } }
    }

    /// Width of the window in pixels.
    pub fn width(&self) -> (r: u32)
        requires
            self.wf(),
        ensures
            r == self.spec_width(),
    {
        ((self.max.x as i64) - (self.min.x as i64) + 1) as u32
    }

    /// Height of the window in pixels.
    pub fn height(&self) -> (r: u32)
        requires
            self.wf(),
        ensures
            r == self.spec_height(),
    {
        ((self.max.y as i64) - (self.min.y as i64) + 1) as u32
    }

    /// Whether the window is well formed, decided at run time.
    pub fn is_well_formed(&self) -> (r: bool)
        ensures
            r == self.wf(),
    {
        self.min.x <= self.max.x && self.min.y <= self.max.y
            && (self.max.x as i64) - (self.min.x as i64) + 1 <= u32::MAX as i64
            && (self.max.y as i64) - (self.min.y as i64) + 1 <= u32::MAX as i64
    }
}

} // verus!
