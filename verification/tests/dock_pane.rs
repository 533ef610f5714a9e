use dock::dock::DockPaneState;
use dock::dock_pane::{
    choose_dock_cwd, dock_process_size, dock_sizing_area, DockRegistry, DockSpawnError,
    SpawnError, TerminalRecord,
};
use dock::geometry::Rect;

/// A stand-in for a terminal's running process.
#[derive(Debug, PartialEq, Eq)]
struct Runtime(u64);

fn registry(workspaces: usize) -> DockRegistry<Runtime> {
    DockRegistry::new((0..workspaces as u64).map(|w| vec![1000 + w * 10, 1001 + w * 10]).collect())
}

fn argv() -> Option<Vec<String>> {
    Some(vec!["htop".to_string()])
}

/// Open a dock process for workspace `ws` as pane `n` in terminal `100 + n`.
fn open(docks: &mut DockRegistry<Runtime>, ws: usize, n: u64) -> Result<u64, SpawnError<String>> {
    docks.complete_dock_spawn(
        ws,
        n,
        100 + n,
        "/home".to_string(),
        Ok((Runtime(n), argv())),
    )
}

fn pane(n: u64) -> DockPaneState {
    DockPaneState {
        pane_id: n,
        terminal_id: 100 + n,
    }
}

#[test]
fn closing_an_empty_dock_reports_nothing_and_changes_nothing() {
    let mut docks = registry(2);
    docks.add_terminal(7, TerminalRecord { cwd: "/".to_string(), launch_argv: None }, Runtime(7));
    assert!(docks.close_dock_pane(0).is_none());
    assert!(docks.close_dock_pane(7).is_none());
    assert_eq!(docks.dock_pane(0), None);
    assert_eq!(docks.workspace_count(), 2);
    assert!(docks.terminal(7).is_some());
    assert!(docks.has_runtime(7));
}

#[test]
fn closing_a_dock_gives_back_what_was_opened_in_it() {
    let mut docks = registry(3);
    assert_eq!(open(&mut docks, 1, 5), Ok(5));
    assert_eq!(docks.dock_pane(1), Some(pane(5)));
    assert_eq!(
        docks.terminal(105),
        Some(&TerminalRecord {
            cwd: "/home".to_string(),
            launch_argv: argv()
        })
    );
    assert!(docks.has_runtime(105));
    docks.lock_resize(105);
    assert!(docks.is_resize_locked(105));

    let (closed, runtime) = docks.close_dock_pane(1).expect("the dock held a process");
    assert_eq!(closed, pane(5));
    assert_eq!(runtime, Some(Runtime(5)));
    assert_eq!(docks.dock_pane(1), None);
    assert!(docks.terminal(105).is_none());
    assert!(!docks.has_runtime(105));
    assert!(!docks.is_resize_locked(105));
    assert!(docks.close_dock_pane(1).is_none());
}

#[test]
fn one_workspaces_dock_leaves_the_others_alone() {
    let mut docks = registry(3);
    open(&mut docks, 0, 1).unwrap();
    open(&mut docks, 2, 2).unwrap();
    docks.lock_resize(102);
    docks.close_dock_pane(0);
    assert_eq!(docks.dock_pane(2), Some(pane(2)));
    assert_eq!(docks.dock_pane(1), None);
    assert!(docks.terminal(102).is_some());
    assert!(docks.has_runtime(102));
    assert!(docks.is_resize_locked(102));
}

#[test]
fn spawn_checks_come_in_order() {
    let mut docks = registry(1);
    assert_eq!(docks.check_dock_spawn(false, 5), Err(DockSpawnError::Disabled));
    assert_eq!(docks.check_dock_spawn(true, 5), Err(DockSpawnError::NoSuchWorkspace));
    assert_eq!(docks.check_dock_spawn(true, 0), Ok(()));
    open(&mut docks, 0, 1).unwrap();
    assert_eq!(docks.check_dock_spawn(true, 0), Err(DockSpawnError::AlreadyOpen));
    assert_eq!(docks.check_dock_spawn(false, 0), Err(DockSpawnError::Disabled));
}

#[test]
fn a_failed_spawn_passes_its_error_on_and_changes_nothing() {
    let mut docks = registry(1);
    let r = docks.complete_dock_spawn(0, 1, 101, "/".to_string(), Err("no such program".to_string()));
    assert_eq!(r, Err(SpawnError::Spawn("no such program".to_string())));
    assert_eq!(docks.dock_pane(0), None);
    assert!(docks.terminal(101).is_none());
    assert!(!docks.has_runtime(101));
}

#[test]
fn a_workspace_that_went_away_cannot_take_the_process() {
    let mut docks = registry(1);
    assert_eq!(
        open(&mut docks, 1, 1),
        Err(SpawnError::Dock(DockSpawnError::WorkspaceDisappeared))
    );
    assert_eq!(docks.dock_pane(0), None);
    // The terminal had already been recorded when the workspace was found gone.
    assert!(docks.terminal(101).is_some());
    assert!(docks.has_runtime(101));
}

#[test]
fn a_spawn_without_a_command_records_none() {
    let mut docks = registry(1);
    let r = docks.complete_dock_spawn(0, 3, 103, "/tmp".to_string(), Ok::<_, String>((Runtime(3), None)));
    assert_eq!(r, Ok(3));
    assert_eq!(docks.terminal(103).unwrap().launch_argv, None);
    assert_eq!(docks.terminal(103).unwrap().cwd, "/tmp");
}

#[test]
fn fresh_ids_are_those_nothing_uses_yet() {
    let mut docks = registry(2);
    assert!(docks.pane_in_some_tab(1011));
    assert!(!docks.pane_in_some_tab(5));
    assert!(docks.is_fresh_terminal(105));
    open(&mut docks, 0, 5).unwrap();
    assert!(!docks.is_fresh_terminal(105));
    assert!(!docks.pane_in_some_tab(5));
    docks.lock_resize(300);
    assert!(!docks.is_fresh_terminal(300));
}

#[test]
fn spawning_checks_first_and_then_records_what_started() {
    let mut docks = registry(2);
    let mut called = false;
    let r = docks.spawn_dock_command(false, 0, 7, 107, 18, 30, "/home".to_string(), |_, _, _, _| {
        called = true;
        Ok::<_, String>((Runtime(7), None))
    });
    assert_eq!(r, Err(SpawnError::Dock(DockSpawnError::Disabled)));
    assert!(!called);
    assert!(docks.is_fresh_terminal(107));

    let r = docks.spawn_dock_command(true, 1, 7, 107, 18, 30, "/home".to_string(), |pane, rows, cols, cwd| {
        assert_eq!((pane, rows, cols, cwd.as_str()), (7, 18, 30, "/home"));
        Ok::<_, String>((Runtime(7), argv()))
    });
    assert_eq!(r, Ok(7));
    assert_eq!(docks.dock_pane(1), Some(pane(7)));
    assert_eq!(docks.terminal(107).unwrap().launch_argv, argv());

    let r = docks.spawn_dock_command(true, 1, 8, 108, 18, 30, "/".to_string(), |_, _, _, _| {
        Ok::<_, String>((Runtime(8), None))
    });
    assert_eq!(r, Err(SpawnError::Dock(DockSpawnError::AlreadyOpen)));
    assert!(docks.terminal(108).is_none());

    let r = docks.spawn_dock_command(true, 0, 9, 109, 18, 30, "/".to_string(), |_, _, _, _| {
        Err::<(Runtime, Option<Vec<String>>), String>("exec failed".to_string())
    });
    assert_eq!(r, Err(SpawnError::Spawn("exec failed".to_string())));
    assert_eq!(docks.dock_pane(0), None);
    assert!(docks.is_fresh_terminal(109));
}

#[test]
fn spawn_errors_have_their_messages() {
    assert_eq!(DockSpawnError::Disabled.message(), "dock is disabled");
    assert_eq!(DockSpawnError::NoSuchWorkspace.message(), "no such workspace");
    assert_eq!(DockSpawnError::AlreadyOpen.message(), "dock already open");
    assert_eq!(
        DockSpawnError::WorkspaceDisappeared.message(),
        "workspace disappeared while spawning"
    );
}

#[test]
fn the_dock_cwd_falls_back_in_order() {
    assert_eq!(choose_dock_cwd(Some("a"), Some("b"), Some("c"), "/"), "a");
    assert_eq!(choose_dock_cwd(None, Some("b"), Some("c"), "/"), "b");
    assert_eq!(choose_dock_cwd(None, None, Some("c"), "/"), "c");
    assert_eq!(choose_dock_cwd::<&str>(None, None, None, "/"), "/");
}

#[test]
fn the_dock_is_sized_in_the_terminal_area_once_there_is_one() {
    let area = Rect::new(0, 0, 106, 20);
    assert_eq!(dock_sizing_area(area, 10, 40), area);
    assert_eq!(
        dock_sizing_area(Rect::new(0, 0, 3, 20), 10, 40),
        Rect::new(0, 0, 40, 10)
    );
    assert_eq!(
        dock_sizing_area(Rect::new(5, 5, 80, 3), 24, 80),
        Rect::new(0, 0, 80, 24)
    );
}

#[test]
fn a_dock_process_never_gets_a_zero_size() {
    assert_eq!(dock_process_size(None), (1, 1));
    let outer = Rect::new(74, 0, 32, 20);
    assert_eq!(
        dock_process_size(Some((outer, Rect::new(75, 1, 30, 18)))),
        (18, 30)
    );
    assert_eq!(
        dock_process_size(Some((outer, Rect::new(75, 1, 0, 0)))),
        (1, 1)
    );
}
