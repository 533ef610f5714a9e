//! The dock column: which edge it sits on, how wide it is, and how it divides
//! the tab area between itself and the tab's panes.
//!
//! The dock is not a pane. It never takes part in a tab's split tree; it only
//! shrinks the rectangle that the tab's panes are laid out into.

use vstd::prelude::*;
use crate::geometry::{Rect, spec_rect};
use crate::popup_size::{PopupSize, min_u16};

verus! {

/// Which side of the tab area the dock occupies.
#[derive(Clone, Copy, Debug, PartialEq, Eq, Structural)]
pub enum DockEdge {
    Left,
    Right,
}

impl Default for DockEdge {
    /// The dock sits on the right unless configured otherwise.
    fn default() -> (r: Self)
        ensures
            r == DockEdge::Right,
    {
        DockEdge::Right
    }
}

/// The dock column, as the whole application sees it: one per application,
/// shared by every workspace and every tab.
#[derive(Clone, Copy, Debug, PartialEq, Eq, Structural)]
pub struct DockState {
    pub edge: DockEdge,
    pub width: PopupSize,
    pub collapsed: bool,
}

/// `a - b`, or 0 where that would be negative.
pub open spec fn saturating_sub(a: u16, b: u16) -> u16 {
    if a >= b {
        (a - b) as u16
    } else {
        0
    }
}

impl DockState {
    /// A collapsed dock takes nothing; otherwise the configured width, cut
    /// down so that the tab keeps at least one column.
    pub open spec fn spec_resolved_width(self, available: u16) -> u16 {
        if self.collapsed {
            0
        } else {
            min_u16(self.width.spec_resolve(available), saturating_sub(available, 1))
        }
    }

    /// Width in cells for a tab area `available` columns wide.
    ///
    /// Returns 0 when the dock cannot be shown. The tab always keeps at least
    /// one column, so a dock configured wider than the window shrinks instead
    /// of leaving the tab with nothing to draw into.
    pub fn resolved_width(self, available: u16) -> (w: u16)
        ensures
            w == self.spec_resolved_width(available),
            self.collapsed ==> w == 0,
            w == 0 || w < available,
            w <= self.width.spec_resolve(available),
            (!self.collapsed && self.width.spec_resolve(available) < available) ==> w
                == self.width.spec_resolve(available),
            (!self.collapsed && available >= 1 && self.width.spec_resolve(available) >= available)
                ==> w == available - 1,
    {
        if self.collapsed {
            return 0;
        }
        let wanted = self.width.resolve(available);
        let limit = available.saturating_sub(1);
        if wanted <= limit {
            wanted
        } else {
            limit
        }
    }
}

/// Width the dock takes out of a tab area `available` columns wide; 0 when
/// there is no dock.
pub open spec fn spec_dock_width(dock: Option<DockState>, available: u16) -> u16 {
    match dock {
        None => 0,
        Some(d) => d.spec_resolved_width(available),
    }
}

/// The corner coordinates that `dock_split` computes stay within `u16`.
pub open spec fn split_fits(area: Rect, dock: Option<DockState>) -> bool {
    let w = spec_dock_width(dock, area.width);
    w == 0 || match dock {
        None => true,
        Some(d) => match d.edge {
            DockEdge::Left => area.x + w <= u16::MAX,
            DockEdge::Right => area.x + (area.width - w) <= u16::MAX,
        },
    }
}

/// The tab's rectangle and the dock's rectangle for `area`.
pub open spec fn spec_dock_split(area: Rect, dock: Option<DockState>) -> (Rect, Option<Rect>) {
    let w = spec_dock_width(dock, area.width);
    if w == 0 {
        (area, None)
    } else {
        let tab_width = (area.width - w) as u16;
        match dock.unwrap().edge {
            DockEdge::Left => (
                spec_rect((area.x + w) as u16, area.y, tab_width, area.height),
                Some(spec_rect(area.x, area.y, w, area.height)),
            ),
            DockEdge::Right => (
                spec_rect(area.x, area.y, tab_width, area.height),
                Some(spec_rect((area.x + tab_width) as u16, area.y, w, area.height)),
            ),
        }
    }
}

/// Split `area` into the rectangle the tab's panes get and the dock's
/// rectangle.
///
/// The dock rectangle is `None` when there is no dock, when it is collapsed,
/// or when the area is too small to hold both.
pub fn dock_split(area: Rect, dock: Option<DockState>) -> (r: (Rect, Option<Rect>))
    requires
        split_fits(area, dock),
    ensures
        r == spec_dock_split(area, dock),
        r.1 is None <==> spec_dock_width(dock, area.width) == 0,
        dock is None ==> r == (area, None::<Rect>),
        (dock is Some && dock.unwrap().collapsed) ==> r == (area, None::<Rect>),
{
    let dock = match dock {
        None => {
            return (area, None);
        },
        Some(d) => d,
    };
    let width = dock.resolved_width(area.width);
    if width == 0 {
        return (area, None);
    }
    let tab_width = area.width - width;
    match dock.edge {
        DockEdge::Left => (
            Rect::new(area.x + width, area.y, tab_width, area.height),
            Some(Rect::new(area.x, area.y, width, area.height)),
        ),
        DockEdge::Right => (
            Rect::new(area.x, area.y, tab_width, area.height),
            Some(Rect::new(area.x + tab_width, area.y, width, area.height)),
        ),
    }
}


/// Width of the dock's rectangle, or 0 when there is none.
pub open spec fn dock_rect_width(r: Option<Rect>) -> int {
    match r {
        None => 0,
        Some(d) => d.width as int,
    }
}

/// An area that lies wholly inside the coordinate space can always be split:
/// no corner that `dock_split` computes leaves the space.
pub proof fn lemma_fitting_area_splits(area: Rect, dock: Option<DockState>)
    requires
        area.fits(),
    ensures
        split_fits(area, dock),
{
}

/// The tab and the dock divide the area between them. Both keep the area's
/// rows; their widths add up to the area's width; the dock lies flush against
/// its edge; and every cell lies in the area exactly when it lies in one of
/// the two, never in both.
pub proof fn lemma_split_partitions_area(area: Rect, dock: Option<DockState>, col: int, row: int)
    requires
        area.fits(),
    ensures
        ({
            let (tab, d) = spec_dock_split(area, dock);
            &&& dock_rect_width(d) == spec_dock_width(dock, area.width)
            &&& tab.y == area.y && tab.height == area.height
            &&& tab.width + dock_rect_width(d) == area.width
            &&& d is Some ==> d.unwrap().y == area.y && d.unwrap().height == area.height
            &&& (d is Some && dock.unwrap().edge == DockEdge::Left) ==> d.unwrap().x == area.x
                && tab.x == area.x + d.unwrap().width
            &&& (d is Some && dock.unwrap().edge == DockEdge::Right) ==> tab.x == area.x
                && d.unwrap().x + d.unwrap().width == area.x + area.width
            &&& area.spec_contains(col, row) <==> (tab.spec_contains(col, row) || (d is Some
                && d.unwrap().spec_contains(col, row)))
            &&& !(tab.spec_contains(col, row) && d is Some && d.unwrap().spec_contains(col, row))
        }),
{
}

/// The tab always keeps at least one column of a non-empty area.
pub proof fn lemma_tab_keeps_a_column(area: Rect, dock: Option<DockState>)
    requires
        area.fits(),
        area.width >= 1,
    ensures
        spec_dock_split(area, dock).0.width >= 1,
{
}

/// The dock takes the width it is configured with, cut down so that the tab
/// keeps a column; a collapsed dock, or none, takes nothing.
pub proof fn lemma_dock_width(dock: Option<DockState>, available: u16)
    ensures
        dock is None ==> spec_dock_width(dock, available) == 0,
        (dock is Some && dock.unwrap().collapsed) ==> spec_dock_width(dock, available) == 0,
        (dock is Some && !dock.unwrap().collapsed) ==> {
            let wanted = dock.unwrap().width.spec_resolve(available);
            &&& wanted < available ==> spec_dock_width(dock, available) == wanted
            &&& (wanted >= available && available >= 1) ==> spec_dock_width(dock, available)
                == available - 1
        },
        spec_dock_width(dock, available) == 0 || spec_dock_width(dock, available) < available,
{
}

/// An area one column wide or narrower never gets a dock.
pub proof fn lemma_narrow_area_gets_no_dock(area: Rect, dock: Option<DockState>)
    requires
        area.width <= 1,
    ensures
        spec_dock_split(area, dock) == (area, None::<Rect>),
{
}

/// The edge decides only where the dock goes, not how wide it is: moving the
/// dock to the other edge leaves the tab's width and the dock's width as they
/// were.
pub proof fn lemma_edge_does_not_change_widths(area: Rect, dock: DockState, edge: DockEdge)
    requires
        area.fits(),
    ensures
        ({
            let moved = DockState { edge, ..dock };
            let (tab1, d1) = spec_dock_split(area, Some(dock));
            let (tab2, d2) = spec_dock_split(area, Some(moved));
            &&& tab1.width == tab2.width
            &&& dock_rect_width(d1) == dock_rect_width(d2)
        }),
{
}

/// The process a workspace's dock holds.
///
/// Separate from `DockState`, which is geometry the whole application shares:
/// each workspace runs its own dock process.
#[derive(Clone, Copy, Debug, PartialEq, Eq, Structural)]
pub struct DockPaneState {
    pub pane_id: u64,
    pub terminal_id: u64,
}

/// Dock width used when the configuration does not give one.
pub const DEFAULT_DOCK_WIDTH: u16 = 32;

/// The dock section of the configuration file.
#[derive(Clone, Copy, Debug, PartialEq, Eq, Structural)]
pub struct DockConfig {
    /// Reserve a dock column along the edge of the tab area. Default: false.
    pub enabled: bool,
    /// Which edge the dock sits on. Default: right.
    pub edge: DockEdge,
    /// Dock width, in cells or as a percentage of the tab area. Default: 32.
    pub width: PopupSize,
}

impl Default for DockConfig {
    /// No dock, on the right edge, 32 cells wide.
    fn default() -> (r: Self)
        ensures
            r == (DockConfig {
                enabled: false,
                edge: DockEdge::Right,
                width: PopupSize::Cells(DEFAULT_DOCK_WIDTH),
            }),
    {
        DockConfig {
            enabled: false,
            edge: DockEdge::default(),
            width: PopupSize::Cells(DEFAULT_DOCK_WIDTH),
        }
    }
}

impl DockConfig {
    /// The dock this configuration asks for, or `None` when it is off.
    pub fn state(self) -> (r: Option<DockState>)
        ensures
            r is None <==> !self.enabled,
            self.enabled ==> r == Some(
                DockState { edge: self.edge, width: self.width, collapsed: false },
            ),
    {
        if self.enabled {
            Some(DockState { edge: self.edge, width: self.width, collapsed: false })
        } else {
            None
        }
    }
}

} // verus!
