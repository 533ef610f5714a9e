use dock::dock::{dock_split, DockEdge, DockState};
use dock::geometry::Rect;
use dock::popup_size::PopupSize;
use dock::shell::{
    offset_in, place, DockFocus, DockHit, KeyboardOwner, Method, PaneHit, ShellAction,
    ShellRequest, SurfaceHits,
};

/// The content of a bordered frame.
fn inner(rect: Rect) -> Rect {
    Rect::new(rect.x + 1, rect.y + 1, rect.width - 2, rect.height - 2)
}

/// The geometry of a 106x20 frame: one pane, and a 32-column dock on the
/// right when `with_dock`.
fn surface(with_dock: bool) -> SurfaceHits {
    let area = Rect::new(0, 0, 106, 20);
    let dock_state = if with_dock {
        Some(DockState {
            edge: DockEdge::Right,
            width: PopupSize::Cells(32),
            collapsed: false,
        })
    } else {
        None
    };
    let (tab, dock_rect) = dock_split(area, dock_state);
    SurfaceHits {
        dock: dock_rect.map(|rect| DockHit {
            terminal_id: "terminal-dock".to_string(),
            rect,
            inner_rect: inner(rect),
        }),
        panes: vec![PaneHit {
            pane_id: "pane_1".to_string(),
            inner_rect: inner(tab),
        }],
    }
}

/// A shell whose workspace shows a dock column.
fn state_with_dock() -> DockFocus {
    let mut state = DockFocus::new(Some("pane_1".to_string()));
    state.set_surface(surface(true));
    state
}

fn press(state: &DockFocus, ch: char) -> Option<ShellRequest> {
    state.key(ch)
}

fn click(state: &mut DockFocus, column: u16, row: u16) {
    state.click(column, row);
}

/// The wire places the dock's inner rect at (75, 1) and its cursor at (78, 3).
fn dock_cursor() -> Option<(u16, u16)> {
    offset_in(Rect::new(75, 1, 30, 18), 78, 3)
}

fn pane_cursor(state: &DockFocus) -> Option<(u16, u16)> {
    let pane = state.hits().panes[0].inner_rect;
    Some((pane.x + 4, pane.y))
}

fn is_pane_input(request: &Option<ShellRequest>, id: &str) -> bool {
    matches!(request, Some(ShellRequest::PaneInput { pane_id, .. }) if pane_id == id)
}

#[test]
fn a_click_in_the_dock_moves_the_keyboard_there_and_a_click_outside_gives_it_back() {
    let mut state = state_with_dock();

    // Before any click the pane still owns the keyboard, even though the dock
    // is on screen. The dock is not modal.
    let typed = press(&state, 'a');
    assert!(
        is_pane_input(&typed, "pane_1"),
        "an unfocused dock must not take the keyboard: {:?}",
        typed
    );

    let dock = state.hits().dock.clone().expect("dock hit geometry");
    click(&mut state, dock.inner_rect.x + 2, dock.inner_rect.y + 1);
    let typed = press(&state, 'b');
    assert!(
        matches!(
            &typed,
            Some(ShellRequest::DockInput { terminal_id, .. }) if terminal_id == "terminal-dock"
        ),
        "a click in the dock must send the next key to the dock terminal: {:?}",
        typed
    );

    let pane = state.hits().panes[0].clone();
    click(&mut state, pane.inner_rect.x, pane.inner_rect.y);
    let typed = press(&state, 'c');
    assert!(
        is_pane_input(&typed, "pane_1"),
        "a click on a pane must hand the keyboard back: {:?}",
        typed
    );
}

#[test]
fn a_dock_that_leaves_the_surface_hands_the_keyboard_back_without_a_click() {
    let mut state = state_with_dock();
    let dock = state.hits().dock.clone().expect("dock hit geometry");
    click(&mut state, dock.inner_rect.x + 2, dock.inner_rect.y + 1);

    // The dock collapses. No click reports that, so the keyboard has to follow
    // the geometry on its own.
    state.set_surface(surface(false));

    let typed = press(&state, 'd');
    assert!(
        is_pane_input(&typed, "pane_1"),
        "a collapsed dock must not keep the keyboard: {:?}",
        typed
    );
}

#[test]
fn the_text_cursor_follows_the_keyboard_into_the_dock_and_back() {
    let mut state = state_with_dock();
    let pane_cursor = pane_cursor(&state);
    assert!(
        state.cursor(pane_cursor, dock_cursor()).is_some(),
        "the harness must start with a cursor in the pane"
    );

    let dock = state.hits().dock.clone().expect("dock hit geometry");
    click(&mut state, dock.inner_rect.x + 2, dock.inner_rect.y + 1);
    let cursor = state
        .cursor(pane_cursor, dock_cursor())
        .expect("a focused dock must own the cursor");
    // The cursor must land three columns and two rows into the dock wherever
    // the pane surface itself begins on screen.
    assert_eq!(
        cursor,
        (dock.inner_rect.x + 3, dock.inner_rect.y + 2),
        "the cursor sits where the dock process put it"
    );

    let pane = state.hits().panes[0].clone();
    click(&mut state, pane.inner_rect.x, pane.inner_rect.y);
    assert_eq!(
        state.cursor(pane_cursor, dock_cursor()),
        pane_cursor,
        "and it returns to the pane when the pane takes the keyboard back"
    );
}

#[test]
fn a_click_beside_the_dock_still_reaches_the_pane_under_it() {
    let mut state = state_with_dock();
    let pane = state.hits().panes[0].clone();

    // The dock branch must fall through on a miss. A branch that returned
    // unconditionally would swallow this click.
    click(&mut state, pane.inner_rect.x + 1, pane.inner_rect.y);
    let recorded = state
        .last_pane_click()
        .as_ref()
        .expect("the pane layer must see the click");
    assert_eq!(recorded.pane_id, "pane_1");
    assert_eq!((recorded.viewport_row, recorded.col), (0, 1));
}

#[test]
fn the_toggle_dock_key_asks_the_server_to_collapse_the_column() {
    let state = state_with_dock();

    // Collapsing the dock is server state: every attached client has to see
    // the same column. So the shell must turn the keybind into an API call,
    // not into a local flag.
    let mut actions = Vec::new();
    state.record_toggle_dock(&mut actions);

    let [ShellAction::Endpoint { method }] = &actions[..] else {
        panic!("the dock key must reach the endpoint API, got {:?}", actions);
    };
    assert!(
        matches!(method, Method::DockToggle(target) if target.workspace_id.is_none()),
        "expected dock.toggle, got {:?}",
        method
    );
    assert_eq!(state.keyboard(), KeyboardOwner::Panes);
    assert!(state.hits().dock.is_some());
}

// Further cases of the same routing.

#[test]
fn a_click_on_the_dock_frame_takes_the_keyboard_too() {
    let mut state = state_with_dock();
    let dock = state.hits().dock.clone().unwrap();
    click(&mut state, dock.rect.x, dock.rect.y);
    assert_eq!(state.keyboard(), KeyboardOwner::Dock);
}

#[test]
fn a_click_on_nothing_changes_nothing() {
    let mut state = state_with_dock();
    // The pane's border: neither the dock nor the pane's content.
    click(&mut state, 0, 0);
    assert_eq!(state.keyboard(), KeyboardOwner::Panes);
    assert!(state.last_pane_click().is_none());
}

#[test]
fn a_shell_with_no_focused_pane_sends_keys_nowhere() {
    let mut state = DockFocus::new(None);
    state.set_surface(surface(true));
    assert_eq!(press(&state, 'x'), None);
}

#[test]
fn a_dock_cursor_outside_the_dock_is_not_shown() {
    let mut state = state_with_dock();
    let dock = state.hits().dock.clone().unwrap();
    click(&mut state, dock.inner_rect.x, dock.inner_rect.y);
    assert_eq!(state.cursor(None, Some((30, 0))), None);
    assert_eq!(state.cursor(None, Some((29, 17))), Some((104, 18)));
    assert_eq!(state.cursor(Some((1, 1)), None), None);
}

#[test]
fn offsets_and_placements_invert_each_other() {
    let inner = Rect::new(75, 1, 30, 18);
    assert_eq!(offset_in(inner, 78, 3), Some((3, 2)));
    assert_eq!(offset_in(inner, 74, 3), None);
    assert_eq!(offset_in(inner, 105, 3), None);
    assert_eq!(place(inner, 3, 2), Some((78, 3)));
    assert_eq!(place(inner, 30, 2), None);
}
