use dock::dock::{dock_split, DockConfig, DockEdge, DockState, DEFAULT_DOCK_WIDTH};
use dock::geometry::Rect;
use dock::popup_size::PopupSize;
use dock::schema::DockInfo;

fn dock(edge: DockEdge, width: PopupSize) -> Option<DockState> {
    Some(DockState {
        edge,
        width,
        collapsed: false,
    })
}

#[test]
fn no_dock_leaves_the_area_whole() {
    let area = Rect::new(0, 0, 100, 20);
    assert_eq!(dock_split(area, None), (area, None));
}

#[test]
fn right_dock_takes_the_last_columns() {
    let (tab, dock_rect) = dock_split(
        Rect::new(0, 0, 100, 20),
        dock(DockEdge::Right, PopupSize::Cells(32)),
    );
    assert_eq!(tab, Rect::new(0, 0, 68, 20));
    assert_eq!(dock_rect, Some(Rect::new(68, 0, 32, 20)));
}

#[test]
fn left_dock_takes_the_first_columns() {
    let (tab, dock_rect) = dock_split(
        Rect::new(0, 0, 100, 20),
        dock(DockEdge::Left, PopupSize::Cells(32)),
    );
    assert_eq!(tab, Rect::new(32, 0, 68, 20));
    assert_eq!(dock_rect, Some(Rect::new(0, 0, 32, 20)));
}

#[test]
fn dock_honours_the_area_offset() {
    let (tab, dock_rect) = dock_split(
        Rect::new(10, 3, 100, 20),
        dock(DockEdge::Right, PopupSize::Cells(32)),
    );
    assert_eq!(tab, Rect::new(10, 3, 68, 20));
    assert_eq!(dock_rect, Some(Rect::new(78, 3, 32, 20)));
}

#[test]
fn percent_width_resolves_against_the_area() {
    let (tab, dock_rect) = dock_split(
        Rect::new(0, 0, 100, 20),
        dock(DockEdge::Right, PopupSize::Percent(25)),
    );
    assert_eq!(tab.width, 75);
    assert_eq!(dock_rect.map(|rect| rect.width), Some(25));
}

#[test]
fn collapsed_dock_takes_nothing() {
    let area = Rect::new(0, 0, 100, 20);
    let collapsed = Some(DockState {
        edge: DockEdge::Right,
        width: PopupSize::Cells(32),
        collapsed: true,
    });
    assert_eq!(dock_split(area, collapsed), (area, None));
}

#[test]
fn the_tab_always_keeps_a_column() {
    let (tab, dock_rect) = dock_split(
        Rect::new(0, 0, 20, 5),
        dock(DockEdge::Right, PopupSize::Cells(80)),
    );
    assert_eq!(tab.width, 1);
    assert_eq!(dock_rect.map(|rect| rect.width), Some(19));
}

#[test]
fn an_area_too_small_to_share_gets_no_dock() {
    let area = Rect::new(0, 0, 1, 5);
    assert_eq!(
        dock_split(area, dock(DockEdge::Right, PopupSize::Cells(32))),
        (area, None)
    );
}

// Further cases of the same split.

#[test]
fn left_and_right_docks_take_the_same_width() {
    let area = Rect::new(4, 2, 90, 30);
    let (tab_l, dock_l) = dock_split(area, dock(DockEdge::Left, PopupSize::Percent(40)));
    let (tab_r, dock_r) = dock_split(area, dock(DockEdge::Right, PopupSize::Percent(40)));
    assert_eq!(tab_l.width, tab_r.width);
    assert_eq!(dock_l.unwrap().width, 36);
    assert_eq!(dock_r.unwrap().width, 36);
    assert_eq!(dock_l.unwrap().x, 4);
    assert_eq!(dock_r.unwrap().x + 36, 94);
}

#[test]
fn tab_and_dock_widths_add_up_to_the_area() {
    let area = Rect::new(0, 0, 57, 9);
    let (tab, dock_rect) = dock_split(area, dock(DockEdge::Left, PopupSize::Cells(20)));
    let d = dock_rect.unwrap();
    assert_eq!(tab.width + d.width, 57);
    assert_eq!(tab.x, d.x + d.width);
    assert_eq!((tab.y, tab.height, d.y, d.height), (0, 9, 0, 9));
}

#[test]
fn percent_above_one_hundred_counts_as_the_whole_area() {
    assert_eq!(PopupSize::Percent(250).resolve(40), 40);
    assert_eq!(PopupSize::Percent(33).resolve(10), 3);
    assert_eq!(PopupSize::Cells(80).resolve(10), 10);
    let (tab, dock_rect) = dock_split(
        Rect::new(0, 0, 40, 3),
        dock(DockEdge::Right, PopupSize::Percent(250)),
    );
    assert_eq!((tab.width, dock_rect.unwrap().width), (1, 39));
}

#[test]
fn an_empty_area_gets_no_dock() {
    let area = Rect::new(3, 3, 0, 0);
    assert_eq!(
        dock_split(area, dock(DockEdge::Left, PopupSize::Cells(5))),
        (area, None)
    );
}

#[test]
fn resolved_width_of_a_collapsed_dock_is_zero() {
    let state = DockState {
        edge: DockEdge::Left,
        width: PopupSize::Cells(10),
        collapsed: true,
    };
    assert_eq!(state.resolved_width(100), 0);
    let open = DockState { collapsed: false, ..state };
    assert_eq!(open.resolved_width(100), 10);
    assert_eq!(open.resolved_width(5), 4);
    assert_eq!(open.resolved_width(0), 0);
}

#[test]
fn rect_new_clamps_to_the_coordinate_space() {
    let r = Rect::new(65530, 65000, 100, 1000);
    assert_eq!((r.width, r.height), (5, 535));
    assert!(r.contains(65530, 65000));
    assert!(!r.contains(65529, 65000));
    assert!(Rect::new(2, 2, 3, 3).contains(4, 4));
    assert!(!Rect::new(2, 2, 3, 3).contains(5, 4));
}

#[test]
fn default_configuration_has_no_dock() {
    let config = DockConfig::default();
    assert!(!config.enabled);
    assert_eq!(config.edge, DockEdge::Right);
    assert_eq!(config.width, PopupSize::Cells(DEFAULT_DOCK_WIDTH));
    assert_eq!(config.state(), None);
    assert_eq!(DockEdge::default(), DockEdge::Right);
}

#[test]
fn an_enabled_configuration_asks_for_an_open_dock() {
    let config = DockConfig {
        enabled: true,
        edge: DockEdge::Left,
        width: PopupSize::Percent(30),
    };
    assert_eq!(
        config.state(),
        Some(DockState {
            edge: DockEdge::Left,
            width: PopupSize::Percent(30),
            collapsed: false,
        })
    );
}

#[test]
fn the_default_target_is_the_active_workspace() {
    assert_eq!(dock::schema::DockTarget::default().workspace_id, None);
}

#[test]
fn a_dock_that_is_off_reports_no_edge_or_width() {
    let off = DockInfo::describe("ws".to_string(), "dock-1".to_string(), None, None, false);
    assert!(!off.enabled && !off.collapsed);
    assert_eq!((off.edge, off.width), (None, None));
    let state = DockState {
        edge: DockEdge::Left,
        width: PopupSize::Percent(20),
        collapsed: true,
    };
    let on = DockInfo::describe(
        "ws".to_string(),
        "dock-1".to_string(),
        Some(state),
        Some("htop".to_string()),
        true,
    );
    assert!(on.enabled && on.collapsed && on.occupied);
    assert_eq!(on.edge, Some(DockEdge::Left));
    assert_eq!(on.width, Some(PopupSize::Percent(20)));
    assert_eq!(on.title.as_deref(), Some("htop"));
    assert_eq!(on.dock_id, "dock-1");
}
