//! Extents of a window's drawable area.

use vstd::prelude::*;

verus! {

/// Width and height of a drawable area, in physical pixels.
#[derive(Clone, Copy, Debug, PartialEq, Eq, Structural)]
pub struct Size {
    pub width: u32,
    pub height: u32,
}

impl Size {
    /// Whether the extent holds at least one pixel. A minimised window
    /// reports an extent without area, and no surface can be configured for it.
    pub open spec fn has_area(self) -> bool {
        self.width > 0 && self.height > 0
    }

    pub fn new(width: u32, height: u32) -> (size: Size)
        ensures
            size.width == width,
            size.height == height,
    {
        Size { width, height }
    }

    pub fn is_drawable(&self) -> (drawable: bool)
        ensures
            drawable == self.has_area(),
    {
        self.width > 0 && self.height > 0
    }
}

} // verus!
