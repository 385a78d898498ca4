//! Screen rectangles and the camera render target that follows them.
use vstd::prelude::*;

verus! {

/// Sub-pixels per screen pixel in a [`Rect`].
pub const SUBPIXELS_PER_PIXEL: i64 = 256;

/// An axis-aligned screen rectangle in physical sub-pixels, origin at the top left.
#[derive(Clone, Copy, Debug, PartialEq, Eq)]
pub struct Rect {
    pub x: i64,
    pub y: i64,
    pub width: i64,
    pub height: i64,
}

/// A camera render sub-rectangle in whole physical pixels.
#[derive(Clone, Copy, Debug, PartialEq, Eq)]
pub struct Viewport {
    pub x: u32,
    pub y: u32,
    pub width: u32,
    pub height: u32,
}

/// Whole pixels of a sub-pixel coordinate: truncated toward zero, negative
/// values to zero, values past `u32::MAX` to `u32::MAX`.
pub open spec fn pixels_of(v: int) -> u32 {
    if v <= 0 {
        0
    } else if v / (SUBPIXELS_PER_PIXEL as int) > u32::MAX {
        u32::MAX
    } else {
        (v / (SUBPIXELS_PER_PIXEL as int)) as u32
    }
}

impl Rect {
    /// A rectangle with a dimension that is not positive; it is never applied.
    pub open spec fn degenerate(self) -> bool {
        self.width <= 0 || self.height <= 0
    }

    /// The render target that covers this rectangle.
    pub open spec fn target(self) -> Viewport {
        Viewport {
            x: pixels_of(self.x as int),
            y: pixels_of(self.y as int),
            width: pixels_of(self.width as int),
            height: pixels_of(self.height as int),
        }
    }

    /// A rectangle given in sub-pixels.
    pub fn new(x: i64, y: i64, width: i64, height: i64) -> (r: Rect)
        ensures
            r == (Rect { x, y, width, height }),
    {
        Rect { x, y, width, height }
    }

    /// A rectangle given in whole pixels.
    pub fn from_pixels(x: i32, y: i32, width: i32, height: i32) -> (r: Rect)
        ensures
            r.x == x * SUBPIXELS_PER_PIXEL,
            r.y == y * SUBPIXELS_PER_PIXEL,
            r.width == width * SUBPIXELS_PER_PIXEL,
            r.height == height * SUBPIXELS_PER_PIXEL,
    {
        Rect {
            x: x as i64 * SUBPIXELS_PER_PIXEL,
            y: y as i64 * SUBPIXELS_PER_PIXEL,
            width: width as i64 * SUBPIXELS_PER_PIXEL,
            height: height as i64 * SUBPIXELS_PER_PIXEL,
        }
    }

    /// Whether the rectangle has a dimension that is not positive.
    pub fn is_degenerate(&self) -> (r: bool)
        ensures
            r == self.degenerate(),
    {
        self.width <= 0 || self.height <= 0
    }

    /// The render target covering this rectangle, in whole pixels.
    pub fn to_viewport(&self) -> (r: Viewport)
        ensures
            r == self.target(),
    {
        Viewport {
            x: to_pixels(self.x),
            y: to_pixels(self.y),
            width: to_pixels(self.width),
            height: to_pixels(self.height),
        }
    }
}

/// Whole pixels of a sub-pixel coordinate, as [`pixels_of`] says.
pub fn to_pixels(v: i64) -> (r: u32)
    ensures
        r == pixels_of(v as int),
{
    if v <= 0 {
        0
    } else {
        let q: u64 = (v as u64) / (SUBPIXELS_PER_PIXEL as u64);
        if q > u32::MAX as u64 {
            u32::MAX
        } else {
            q as u32
        }
    }
}

/// The render target after a frame: the new rectangle's when it is present
/// and not degenerate, else the previous one.
pub open spec fn next_target(prev: Option<Viewport>, rect: Option<Rect>) -> Option<Viewport> {
    match rect {
        Some(r) => if r.degenerate() {
            prev
        } else {
            Some(r.target())
        },
        None => prev,
    }
}

/// Applies a frame's rectangle to the render target, as [`next_target`] says.
pub fn follow_rect(prev: Option<Viewport>, rect: Option<Rect>) -> (r: Option<Viewport>)
    ensures
        r == next_target(prev, rect),
{
    match rect {
        Some(r) => if r.is_degenerate() {
            prev
        } else {
            Some(r.to_viewport())
        },
        None => prev,
    }
}

} // verus!
