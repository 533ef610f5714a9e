//! The workspace dock: a column reserved along one edge of the tab area, the
//! process each workspace runs in it, and the keyboard focus that moves between
//! the dock and the panes beside it.

pub mod geometry;
pub mod popup_size;
pub mod dock;
pub mod schema;
pub mod shell;
pub mod dock_pane;
pub mod tab_surface;
pub mod cli;
