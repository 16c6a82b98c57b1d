//! What the screen shows that does not depend on how it is drawn: the texts
//! of the panels, the rows of the tables, and where each picture goes.

pub mod helpers;
pub mod images;
pub mod tables;

use vstd::prelude::*;

verus! {

/// A rectangle of character cells: its left column, its top row, and its
/// size.
#[derive(Debug, Clone, Copy, PartialEq, Eq, Structural)]
pub struct Rect {
    pub x: u16,
    pub y: u16,
    pub width: u16,
    pub height: u16,
}

/// `n`, or the largest number of 16 bits where `n` is greater.
pub open spec fn clip(n: int) -> u16 {
    if n > u16::MAX {
        u16::MAX
    } else if n < 0 {
        0
    } else {
        n as u16
    }
}

/// `a + b`, or the largest number of 16 bits where the sum is greater.
pub fn add_clipped(a: u16, b: u16) -> (r: u16)
    ensures
        r == clip(a + b),
{
    if a > u16::MAX - b {
        u16::MAX
    } else {
        a + b
    }
}

/// `a - b`, or zero where `b` is greater.
pub fn sub_clipped(a: u16, b: u16) -> (r: u16)
    ensures
        r == clip(a - b),
{
    if a < b {
        0
    } else {
        a - b
    }
}

impl Rect {
    /// The rectangle with its left top corner at `x`, `y`, made no wider and
    /// no taller than the space to the right of and below that corner.
    pub open spec fn clamped(x: u16, y: u16, width: u16, height: u16) -> Rect {
        Rect {
            x,
            y,
            width: if x + width > u16::MAX {
                (u16::MAX - x) as u16
            } else {
                width
            },
            height: if y + height > u16::MAX {
                (u16::MAX - y) as u16
            } else {
                height
            },
        }
    }

    /// Whether `inner` lies inside the rectangle.
    pub open spec fn encloses(self, inner: Rect) -> bool {
        &&& self.x <= inner.x
        &&& inner.x + inner.width <= self.x + self.width
        &&& self.y <= inner.y
        &&& inner.y + inner.height <= self.y + self.height
    }

    /// Whether a row of `height` cells that begins at `y` ends above the
    /// last row of the rectangle.
    pub open spec fn holds_row(self, y: u16, height: u16) -> bool {
        y + height <= self.y + clip(self.height - 1)
    }

    pub fn new(x: u16, y: u16, width: u16, height: u16) -> (r: Rect)
        ensures
            r == Rect::clamped(x, y, width, height),
    {
        let width = if width > u16::MAX - x {
            u16::MAX - x
        } else {
            width
        };
        let height = if height > u16::MAX - y {
            u16::MAX - y
        } else {
            height
        };
        Rect { x, y, width, height }
    }
}

impl Rect {
    /// Whether a row of `height` cells that begins at `y` ends above the
    /// last row of the rectangle.
    pub fn has_room(&self, y: u16, height: u16) -> (r: bool)
        ensures
            r == self.holds_row(y, height),
    {
        y as u32 + height as u32 <= self.y as u32 + sub_clipped(self.height, 1) as u32
    }
}

/// A picture to draw: where, and from which address.
#[derive(Debug, Clone)]
pub struct ImageTarget {
    pub area: Rect,
    pub url: String,
}

/// What one drawing of the screen leaves for the caller: the pictures.
pub struct UiDrawResult {
    pub images: Vec<ImageTarget>,
}

} // verus!
