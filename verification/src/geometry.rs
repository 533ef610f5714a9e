//! Cell rectangles on the terminal screen.

use vstd::prelude::*;

verus! {

/// A rectangle of terminal cells: its top-left corner and its extent.
#[derive(Clone, Copy, Debug, PartialEq, Eq, Structural)]
pub struct Rect {
    pub x: u16,
    pub y: u16,
    pub width: u16,
    pub height: u16,
}

/// `extent` cut down so that `origin + extent` stays within `u16`.
pub open spec fn clamp_extent(origin: u16, extent: u16) -> u16 {
    if extent > u16::MAX - origin {
        (u16::MAX - origin) as u16
    } else {
        extent
    }
}

/// The rectangle that `Rect::new` builds from its four arguments.
pub open spec fn spec_rect(x: u16, y: u16, width: u16, height: u16) -> Rect {
    Rect { x, y, width: clamp_extent(x, width), height: clamp_extent(y, height) }
}

/// `a + b`, saturated at `u16::MAX`.
pub open spec fn saturating_add(a: u16, b: u16) -> int {
    if a + b > u16::MAX {
        u16::MAX as int
    } else {
        a + b
    }
}

impl Rect {
    /// The rectangle lies wholly inside the `u16` coordinate space.
    pub open spec fn fits(self) -> bool {
        &&& self.x + self.width <= u16::MAX
        &&& self.y + self.height <= u16::MAX
    }

    /// The first column right of the rectangle, saturated at `u16::MAX`.
    pub open spec fn right(self) -> int {
        saturating_add(self.x, self.width)
    }

    /// The first row below the rectangle, saturated at `u16::MAX`.
    pub open spec fn bottom(self) -> int {
        saturating_add(self.y, self.height)
    }

    /// The cell at column `col`, row `row` lies in the rectangle.
    pub open spec fn spec_contains(self, col: int, row: int) -> bool {
        &&& self.x <= col < self.right()
        &&& self.y <= row < self.bottom()
    }

    /// A rectangle at (`x`, `y`), its width and height clamped so that it
    /// stays within the `u16` coordinate space.
    pub fn new(x: u16, y: u16, width: u16, height: u16) -> (r: Rect)
        ensures
            r == spec_rect(x, y, width, height),
    {
        outside_rect_new(x, y, width, height)
    }

    /// Whether the cell at column `col`, row `row` lies in the rectangle.
    pub fn contains(self, col: u16, row: u16) -> (b: bool)
        ensures
            b == self.spec_contains(col as int, row as int),
    {
        outside_rect_contains(self, col, row)
    }
}

/// Calls `ratatui::layout::Rect::new`, which keeps `x` and `y` and cuts the
/// width down to `u16::MAX - x` and the height down to `u16::MAX - y` where
/// they exceed them.
#[verifier::external_body]
fn outside_rect_new(x: u16, y: u16, width: u16, height: u16) -> (r: Rect)
    ensures
        r == spec_rect(x, y, width, height),
{
    let r = ratatui::layout::Rect::new(x, y, width, height);
    Rect { x: r.x, y: r.y, width: r.width, height: r.height }
}

/// Calls `ratatui::layout::Rect::contains`, which holds when the position's
/// column is at least `x` and below the saturating `x + width`, and its row at
/// least `y` and below the saturating `y + height`.
#[verifier::external_body]
fn outside_rect_contains(rect: Rect, col: u16, row: u16) -> (b: bool)
    ensures
        b == rect.spec_contains(col as int, row as int),
{
    let r = ratatui::layout::Rect { x: rect.x, y: rect.y, width: rect.width, height: rect.height };
    r.contains(ratatui::layout::Position { x: col, y: row })
}

} // verus!
