//! The dock as the API describes it. The dock is not a pane: it never appears
//! in the pane list and no pane verb addresses it. These types are the whole
//! of its public surface.

use vstd::prelude::*;
use crate::dock::{DockEdge, DockState};
use crate::popup_size::PopupSize;

verus! {

/// Which workspace's dock a request is about. `None` means the active
/// workspace.
#[derive(Clone, Debug, PartialEq, Eq)]
pub struct DockTarget {
    pub workspace_id: Option<String>,
}

impl Default for DockTarget {
    /// The active workspace.
    fn default() -> (r: Self)
        ensures
            r.workspace_id is None,
    {
        DockTarget { workspace_id: None }
    }
}

/// The state of one workspace's dock column.
#[derive(Clone, Debug, PartialEq, Eq)]
pub struct DockInfo {
    pub workspace_id: String,
    /// The identifier of the column itself, stable while the workspace lives.
    pub dock_id: String,
    /// False when the dock is off. Every other field then describes nothing.
    pub enabled: bool,
    /// True when the column is hidden by a toggle. The process, if any, keeps
    /// running.
    pub collapsed: bool,
    /// Absent when the dock is off: there is then no edge to report.
    pub edge: Option<DockEdge>,
    /// Absent when the dock is off, for the same reason as `edge`.
    pub width: Option<PopupSize>,
    /// The title of the running process, or `None` when the column is empty.
    pub title: Option<String>,
    /// True when a process occupies the column right now. A collapsed dock
    /// can still be occupied.
    pub occupied: bool,
}

impl DockInfo {
    /// A dock that is off reports no edge, no width, and is not collapsed.
    pub open spec fn wf(self) -> bool {
        !self.enabled ==> self.edge is None && self.width is None && !self.collapsed
    }

    /// Describe the dock column of workspace `workspace_id`, where `dock` is
    /// the application's dock, or `None` when the dock is off, and `title` is
    /// the title of the process in it, if any.
    pub fn describe(
        workspace_id: String,
        dock_id: String,
        dock: Option<DockState>,
        title: Option<String>,
        occupied: bool,
    ) -> (r: DockInfo)
        ensures
            r.wf(),
            r.workspace_id == workspace_id,
            r.dock_id == dock_id,
            r.enabled == dock is Some,
            r.collapsed == (dock is Some && dock.unwrap().collapsed),
            r.edge == (match dock {
                Some(d) => Some(d.edge),
                None => None,
            }),
            r.width == (match dock {
                Some(d) => Some(d.width),
                None => None,
            }),
            r.title == title,
            r.occupied == occupied,
    {
        match dock {
            Some(d) => DockInfo {
                workspace_id,
                dock_id,
                enabled: true,
                collapsed: d.collapsed,
                edge: Some(d.edge),
                width: Some(d.width),
                title,
                occupied,
            },
            None => DockInfo {
                workspace_id,
                dock_id,
                enabled: false,
                collapsed: false,
                edge: None,
                width: None,
                title,
                occupied,
            },
        }
    }
}

} // verus!
