//! Where a clip is drawn and when it is active.

use vstd::prelude::*;
use crate::time::{Duration, Time};

verus! {

/// A pixel position in the destination buffer.
#[derive(Debug, Clone, Copy, PartialEq, Eq, Structural)]
pub struct Point {
    pub x: u32,
    pub y: u32,
}

/// An axis-aligned rectangle, from its top-left corner `min` up to, but not
/// including, `max`.
#[derive(Debug, Clone, Copy, PartialEq, Eq, Structural)]
pub struct Rect {
    pub min: Point,
    pub max: Point,
}

impl Rect {
    /// A rectangle has a strictly positive width and height.
    pub open spec fn wf(self) -> bool {
        self.min.x < self.max.x && self.min.y < self.max.y
    }

    /// Whether the pixel at column `px`, row `py` lies inside the rectangle.
    pub open spec fn covers(self, px: int, py: int) -> bool {
        self.min.x <= px < self.max.x && self.min.y <= py < self.max.y
    }

    /// The rectangle with top-left corner (`x`, `y`) and the given size.
    pub fn from_dimensions(x: u32, y: u32, width: u32, height: u32) -> (rect: Rect)
        requires
            width > 0,
            height > 0,
            x + width <= u32::MAX,
            y + height <= u32::MAX,
        ensures
            rect.wf(),
            rect.min == (Point { x, y }),
            rect.max == (Point { x: (x + width) as u32, y: (y + height) as u32 }),
    {
        Rect { min: Point { x: x, y: y }, max: Point { x: x + width, y: y + height } }
    }

    /// The column of the left edge.
    pub fn x(&self) -> (x: u32)
        ensures
            x == self.min.x,
    {
        self.min.x
    }

    /// The row of the top edge.
    pub fn y(&self) -> (y: u32)
        ensures
            y == self.min.y,
    {
        self.min.y
    }

    /// The width in pixels.
    pub fn width(&self) -> (width: u32)
        requires
            self.wf(),
        ensures
            width == self.max.x - self.min.x,
            width > 0,
    {
        self.max.x - self.min.x
    }

    /// The height in pixels.
    pub fn height(&self) -> (height: u32)
        requires
            self.wf(),
        ensures
            height == self.max.y - self.min.y,
            height > 0,
    {
        self.max.y - self.min.y
    }
}

/// The placement of a clip and the interval in which it is active.
#[derive(Debug, Clone, Copy, PartialEq, Eq, Structural)]
pub struct ClipTransform {
    pub duration: Duration,
    pub bounds: Rect,
}

impl ClipTransform {
    /// A transform is valid when its rectangle is.
    pub open spec fn wf(self) -> bool {
        self.bounds.wf()
    }

    /// Whether the clip is active at `time`, at `fps` frames per second.
    pub open spec fn active_at(self, time: Time, fps: u32) -> bool {
        self.duration.covers(time, fps)
    }

    /// Tests whether the clip is active at `time`, at `fps` frames per second.
    pub fn is_active(&self, fps: u32, time: Time) -> (active: bool)
        ensures
            active == self.active_at(time, fps),
    {
        self.duration.contains(time, fps)
    }

    /// The column of the left edge of the clip's rectangle.
    pub fn x(&self) -> (x: u32)
        ensures
            x == self.bounds.min.x,
    {
        self.bounds.x()
    }

    /// The row of the top edge of the clip's rectangle.
    pub fn y(&self) -> (y: u32)
        ensures
            y == self.bounds.min.y,
    {
        self.bounds.y()
    }

    /// The width of the clip's rectangle in pixels.
    pub fn width(&self) -> (width: u32)
        requires
            self.wf(),
        ensures
            width == self.bounds.max.x - self.bounds.min.x,
            width > 0,
    {
        self.bounds.width()
    }

    /// The height of the clip's rectangle in pixels.
    pub fn height(&self) -> (height: u32)
        requires
            self.wf(),
        ensures
            height == self.bounds.max.y - self.bounds.min.y,
            height > 0,
    {
        self.bounds.height()
    }
}

} // verus!
