//! Opening and closing the process a workspace's dock holds.
//!
//! A dock belongs to one workspace rather than to the application, does not
//! take over input, and gets its size from the reserved column.

use vstd::prelude::*;
use std::collections::{HashMap, HashSet};
use crate::dock::DockPaneState;
use crate::geometry::{Rect, spec_rect};

verus! {

broadcast use vstd::std_specs::hash::group_hash_axioms;

/// Why a dock process could not be opened.
#[derive(Clone, Copy, Debug, PartialEq, Eq, Structural)]
pub enum DockSpawnError {
    /// The configuration has no dock.
    Disabled,
    /// No workspace has the index asked for.
    NoSuchWorkspace,
    /// The workspace's dock already holds a process.
    AlreadyOpen,
    /// The workspace went away while its dock process was starting.
    WorkspaceDisappeared,
}

impl DockSpawnError {
    /// The text the error is reported with.
    pub fn message(self) -> (m: &'static str)
        ensures
            m@ == (match self {
                DockSpawnError::Disabled => "dock is disabled"@,
                DockSpawnError::NoSuchWorkspace => "no such workspace"@,
                DockSpawnError::AlreadyOpen => "dock already open"@,
                DockSpawnError::WorkspaceDisappeared => "workspace disappeared while spawning"@,
            }),
    {
        match self {
            DockSpawnError::Disabled => "dock is disabled",
            DockSpawnError::NoSuchWorkspace => "no such workspace",
            DockSpawnError::AlreadyOpen => "dock already open",
            DockSpawnError::WorkspaceDisappeared => "workspace disappeared while spawning",
        }
    }
}

/// Why finishing a dock spawn failed: the dock refused it, or starting the
/// process failed with the spawner's own error.
#[derive(Clone, Debug, PartialEq, Eq)]
pub enum SpawnError<E> {
    Dock(DockSpawnError),
    Spawn(E),
}

/// What the application keeps about a terminal: the directory it started
/// in, and the command it was launched with, if one was given.
#[derive(Clone, Debug, PartialEq, Eq)]
pub struct TerminalRecord {
    pub cwd: String,
    pub launch_argv: Option<Vec<String>>,
}

/// The dock processes of every workspace, and the terminals they run in, as
/// values.
pub struct RegistryView<R> {
    /// The process in each workspace's dock, in workspace order.
    pub docks: Seq<Option<DockPaneState>>,
    /// The panes of each workspace's tabs, in workspace order.
    pub tab_panes: Seq<Seq<u64>>,
    /// The record of every terminal, by terminal id.
    pub terminals: Map<u64, TerminalRecord>,
    /// The terminals whose size a directly attached client holds.
    pub resize_locks: Set<u64>,
    /// The running process of every terminal, by terminal id.
    pub runtimes: Map<u64, R>,
}

/// The process in the dock of workspace `ws`; `None` when the workspace has
/// none or does not exist.
pub open spec fn spec_dock_at(docks: Seq<Option<DockPaneState>>, ws: int) -> Option<DockPaneState> {
    if 0 <= ws < docks.len() {
        docks[ws]
    } else {
        None
    }
}

/// The pane `pane_id` is one of the panes of some tab.
pub open spec fn in_some_tab(tab_panes: Seq<Seq<u64>>, pane_id: u64) -> bool {
    exists|w: int| 0 <= w < tab_panes.len() && #[trigger] tab_panes[w].contains(pane_id)
}

impl<R> RegistryView<R> {
    /// Closing the dock of workspace `ws`: the slot empties, and the dock
    /// terminal's record, resize lock and running process go. Nothing changes
    /// when the dock holds no process.
    pub open spec fn after_close(self, ws: int) -> RegistryView<R> {
        match spec_dock_at(self.docks, ws) {
            None => self,
            Some(d) => RegistryView {
                docks: self.docks.update(ws, None),
                terminals: self.terminals.remove(d.terminal_id),
                resize_locks: self.resize_locks.remove(d.terminal_id),
                runtimes: self.runtimes.remove(d.terminal_id),
                ..self
            },
        }
    }

    /// A started process `pane_id` in terminal `terminal_id`: its running
    /// process and its record go in under the terminal's id, and, where the
    /// workspace still exists, it takes the workspace's dock.
    pub open spec fn after_spawn(
        self,
        ws: int,
        pane_id: u64,
        terminal_id: u64,
        record: TerminalRecord,
        runtime: R,
    ) -> RegistryView<R> {
        RegistryView {
            docks: if 0 <= ws < self.docks.len() {
                self.docks.update(
                    ws,
                    Some(DockPaneState { pane_id, terminal_id }),
                )
            } else {
                self.docks
            },
            terminals: self.terminals.insert(terminal_id, record),
            runtimes: self.runtimes.insert(terminal_id, runtime),
            ..self
        }
    }

    /// Whether a dock process may be started in workspace `ws`, and if not,
    /// why.
    pub open spec fn spawn_check(self, dock_enabled: bool, ws: int) -> Result<(), DockSpawnError> {
        if !dock_enabled {
            Err(DockSpawnError::Disabled)
        } else if !(0 <= ws < self.docks.len()) {
            Err(DockSpawnError::NoSuchWorkspace)
        } else if self.docks[ws] is Some {
            Err(DockSpawnError::AlreadyOpen)
        } else {
            Ok(())
        }
    }

    /// No terminal, lock or process goes by the id `terminal_id` yet.
    pub open spec fn is_fresh_terminal(self, terminal_id: u64) -> bool {
        &&& !self.terminals.contains_key(terminal_id)
        &&& !self.resize_locks.contains(terminal_id)
        &&& !self.runtimes.contains_key(terminal_id)
    }
}

/// The dock process of every workspace, and the terminals and running
/// processes of the application.
///
/// The dock is not a pane: its process is held by its workspace's dock slot
/// and never by a tab.
pub struct DockRegistry<R> {
    docks: Vec<Option<DockPaneState>>,
    tab_panes: Vec<Vec<u64>>,
    terminals: HashMap<u64, TerminalRecord>,
    resize_locks: HashSet<u64>,
    runtimes: HashMap<u64, R>,
}

/// The panes of each workspace's tabs, as values.
pub open spec fn panes_view(tab_panes: Seq<Vec<u64>>) -> Seq<Seq<u64>> {
    tab_panes.map_values(|panes: Vec<u64>| panes@)
}

impl<R> View for DockRegistry<R> {
    type V = RegistryView<R>;

    closed spec fn view(&self) -> RegistryView<R> {
        RegistryView {
            docks: self.docks@,
            tab_panes: panes_view(self.tab_panes@),
            terminals: self.terminals@,
            resize_locks: self.resize_locks@,
            runtimes: self.runtimes@,
        }
    }
}

impl<R> DockRegistry<R> {
    /// A registry for workspaces whose tabs hold `tab_panes[i]`, with empty
    /// docks and no terminals.
    pub fn new(tab_panes: Vec<Vec<u64>>) -> (s: Self)
        ensures
            s@.docks == Seq::new(tab_panes@.len(), |i: int| None::<DockPaneState>),
            s@.tab_panes == panes_view(tab_panes@),
            s@.terminals == Map::<u64, TerminalRecord>::empty(),
            s@.resize_locks == Set::<u64>::empty(),
            s@.runtimes == Map::<u64, R>::empty(),
    {
        let n = tab_panes.len();
        let mut docks: Vec<Option<DockPaneState>> = Vec::new();
        let mut i: usize = 0;
        while i < n
            invariant
                i <= n,
                docks@ == Seq::new(i as nat, |k: int| None::<DockPaneState>),
            decreases n - i,
        {
            docks.push(None);
            i += 1;
            assert(docks@ =~= Seq::new(i as nat, |k: int| None::<DockPaneState>));
        }
        DockRegistry {
            docks,
            tab_panes,
            terminals: HashMap::new(),
            resize_locks: HashSet::new(),
            runtimes: HashMap::new(),
        }
    }

    /// Number of workspaces.
    pub fn workspace_count(&self) -> (n: usize)
        ensures
            n == self@.docks.len(),
    {
        self.docks.len()
    }

    /// The process in the dock of workspace `ws`, if any.
    pub fn dock_pane(&self, ws: usize) -> (r: Option<DockPaneState>)
        ensures
            r == spec_dock_at(self@.docks, ws as int),
    {
        if ws < self.docks.len() {
            self.docks[ws]
        } else {
            None
        }
    }

    /// The record of terminal `terminal_id`, if it has one.
    pub fn terminal(&self, terminal_id: u64) -> (r: Option<&TerminalRecord>)
        ensures
            r matches Some(t) ==> self@.terminals.contains_key(terminal_id) && *t
                == self@.terminals[terminal_id],
            r is None ==> !self@.terminals.contains_key(terminal_id),
    {
        self.terminals.get(&terminal_id)
    }

    /// Whether terminal `terminal_id` has a running process.
    pub fn has_runtime(&self, terminal_id: u64) -> (b: bool)
        ensures
            b == self@.runtimes.contains_key(terminal_id),
    {
        self.runtimes.contains_key(&terminal_id)
    }

    /// Whether a directly attached client holds the size of terminal
    /// `terminal_id`.
    pub fn is_resize_locked(&self, terminal_id: u64) -> (b: bool)
        ensures
            b == self@.resize_locks.contains(terminal_id),
    {
        self.resize_locks.contains(&terminal_id)
    }

    /// Record terminal `terminal_id` with its running process.
    pub fn add_terminal(&mut self, terminal_id: u64, record: TerminalRecord, runtime: R)
        ensures
            final(self)@ == (RegistryView {
                terminals: old(self)@.terminals.insert(terminal_id, record),
                runtimes: old(self)@.runtimes.insert(terminal_id, runtime),
                ..old(self)@
            }),
    {
        self.terminals.insert(terminal_id, record);
        self.runtimes.insert(terminal_id, runtime);
    }

    /// A directly attached client takes hold of the size of terminal
    /// `terminal_id`.
    pub fn lock_resize(&mut self, terminal_id: u64)
        ensures
            final(self)@ == (RegistryView {
                resize_locks: old(self)@.resize_locks.insert(terminal_id),
                ..old(self)@
            }),
    {
        self.resize_locks.insert(terminal_id);
    }

    /// Close the dock process of workspace `ws`: empty the slot and drop the
    /// dock terminal's resize lock, record and running process. Returns the
    /// closed process and its running process, which the caller shuts down;
    /// `None`, with nothing changed, when the dock held no process.
    pub fn close_dock_pane(&mut self, ws: usize) -> (r: Option<(DockPaneState, Option<R>)>)
        ensures
            final(self)@ == old(self)@.after_close(ws as int),
            r is None <==> spec_dock_at(old(self)@.docks, ws as int) is None,
            r matches Some((d, runtime)) ==> {
                &&& spec_dock_at(old(self)@.docks, ws as int) == Some(d)
                &&& runtime == (if old(self)@.runtimes.contains_key(d.terminal_id) {
                    Some(old(self)@.runtimes[d.terminal_id])
                } else {
                    None
                })
            },
    {
        if ws >= self.docks.len() {
            return None;
        }
        let dock = match self.docks[ws] {
            Some(dock) => dock,
            None => {
                return None;
            },
        };
        self.docks.set(ws, None);
        self.resize_locks.remove(&dock.terminal_id);
        self.terminals.remove(&dock.terminal_id);
        let runtime = self.runtimes.remove(&dock.terminal_id);
        Some((dock, runtime))
    }

    /// Whether a dock process may be started in workspace `ws`: the dock
    /// must be on, the workspace must exist, and its dock must be empty.
    pub fn check_dock_spawn(&self, dock_enabled: bool, ws: usize) -> (r: Result<(), DockSpawnError>)
        ensures
            r == self@.spawn_check(dock_enabled, ws as int),
            !dock_enabled ==> r == Err::<(), DockSpawnError>(DockSpawnError::Disabled),
            (dock_enabled && ws >= self@.docks.len()) ==> r == Err::<(), DockSpawnError>(
                DockSpawnError::NoSuchWorkspace,
            ),
            (dock_enabled && ws < self@.docks.len() && self@.docks[ws as int] is Some) ==> r
                == Err::<(), DockSpawnError>(DockSpawnError::AlreadyOpen),
            r is Ok <==> (dock_enabled && ws < self@.docks.len() && self@.docks[ws as int] is None),
    {
        if !dock_enabled {
            return Err(DockSpawnError::Disabled);
        }
        if ws >= self.docks.len() {
            return Err(DockSpawnError::NoSuchWorkspace);
        }
        if self.docks[ws].is_some() {
            return Err(DockSpawnError::AlreadyOpen);
        }
        Ok(())
    }

    /// Whether no terminal, lock or running process goes by `terminal_id`.
    pub fn is_fresh_terminal(&self, terminal_id: u64) -> (b: bool)
        ensures
            b == self@.is_fresh_terminal(terminal_id),
    {
        !self.terminals.contains_key(&terminal_id) && !self.resize_locks.contains(&terminal_id)
            && !self.runtimes.contains_key(&terminal_id)
    }

    /// Whether `pane_id` is a pane of some workspace's tabs.
    pub fn pane_in_some_tab(&self, pane_id: u64) -> (b: bool)
        ensures
            b == in_some_tab(self@.tab_panes, pane_id),
    {
        let n = self.tab_panes.len();
        let mut w: usize = 0;
        while w < n
            invariant
                n == self.tab_panes@.len(),
                self@.tab_panes == panes_view(self.tab_panes@),
                w <= n,
                forall|k: int| 0 <= k < w ==> !(#[trigger] self@.tab_panes[k]).contains(pane_id),
            decreases n - w,
        {
            let panes = &self.tab_panes[w];
            assert(panes@ == self@.tab_panes[w as int]);
            let m = panes.len();
            let mut j: usize = 0;
            while j < m
                invariant
                    m == panes@.len(),
                    panes@ == self@.tab_panes[w as int],
                    w < n,
                    n == self@.tab_panes.len(),
                    j <= m,
                    forall|i: int| 0 <= i < j ==> panes@[i] != pane_id,
                decreases m - j,
            {
                if panes[j] == pane_id {
                    assert(self@.tab_panes[w as int][j as int] == pane_id);
                    assert(self@.tab_panes[w as int].contains(pane_id));
                    return true;
                }
                j += 1;
            }
            assert(!self@.tab_panes[w as int].contains(pane_id));
            w += 1;
        }
        false
    }

    /// Finish starting a dock process for workspace `ws`, given what the
    /// spawner returned for pane `pane_id` in terminal `terminal_id` started
    /// in `cwd`. Both ids are newly allocated: no terminal goes by
    /// `terminal_id`, and no tab holds `pane_id`.
    ///
    /// A failed spawn passes its error on and changes nothing. A started
    /// process has its running process and its record (with the command it
    /// was launched with) put in under its terminal id; it then takes the
    /// workspace's dock and `pane_id` is returned, unless the workspace went
    /// away meanwhile, which is an error that leaves the terminal recorded.
    pub fn complete_dock_spawn<E>(
        &mut self,
        ws: usize,
        pane_id: u64,
        terminal_id: u64,
        cwd: String,
        spawned: Result<(R, Option<Vec<String>>), E>,
    ) -> (r: Result<u64, SpawnError<E>>)
        requires
            old(self)@.is_fresh_terminal(terminal_id),
            !in_some_tab(old(self)@.tab_panes, pane_id),
        ensures
            spawn_completed(old(self)@, ws as int, pane_id, terminal_id, cwd, spawned, final(self)@, r),
    {
        let (runtime, launch_argv) = match spawned {
            Err(e) => {
                return Err(SpawnError::Spawn(e));
            },
            Ok(started) => started,
        };
        self.runtimes.insert(terminal_id, runtime);
        self.terminals.insert(terminal_id, TerminalRecord { cwd, launch_argv });
        if ws >= self.docks.len() {
            return Err(SpawnError::Dock(DockSpawnError::WorkspaceDisappeared));
        }
        self.docks.set(ws, Some(DockPaneState { pane_id, terminal_id }));
        Ok(pane_id)
    }

    /// Start a dock process for workspace `ws` as pane `pane_id` in terminal
    /// `terminal_id`, both newly allocated: check that the dock may take one,
    /// call `spawn` with the pane id, the process size and the working
    /// directory, and record what it started.
    ///
    /// A refused check is returned and changes nothing, and `spawn` is then
    /// not called. Otherwise the outcome is that of `complete_dock_spawn` on
    /// what `spawn` returned.
    pub fn spawn_dock_command<E, F>(
        &mut self,
        dock_enabled: bool,
        ws: usize,
        pane_id: u64,
        terminal_id: u64,
        rows: u16,
        cols: u16,
        cwd: String,
        spawn: F,
    ) -> (r: Result<u64, SpawnError<E>>) where
        F: FnOnce(u64, u16, u16, String) -> Result<(R, Option<Vec<String>>), E>,

        requires
            old(self)@.is_fresh_terminal(terminal_id),
            !in_some_tab(old(self)@.tab_panes, pane_id),
            call_requires(spawn, (pane_id, rows, cols, cwd)),
        ensures
            old(self)@.spawn_check(dock_enabled, ws as int) matches Err(e) ==> r == Err::<
                u64,
                SpawnError<E>,
            >(SpawnError::Dock(e)) && final(self)@ == old(self)@,
            old(self)@.spawn_check(dock_enabled, ws as int) is Ok ==> exists|
                spawned: Result<(R, Option<Vec<String>>), E>,
            |
                #![trigger call_ensures(spawn, (pane_id, rows, cols, cwd), spawned)]
                call_ensures(spawn, (pane_id, rows, cols, cwd), spawned) && spawn_completed(
                    old(self)@,
                    ws as int,
                    pane_id,
                    terminal_id,
                    cwd,
                    spawned,
                    final(self)@,
                    r,
                ),
    {
        match self.check_dock_spawn(dock_enabled, ws) {
            Err(e) => {
                return Err(SpawnError::Dock(e));
            },
            Ok(()) => {},
        }
        let spawn_cwd = cwd.clone();
        let spawned = spawn(pane_id, rows, cols, spawn_cwd);
        self.complete_dock_spawn(ws, pane_id, terminal_id, cwd, spawned)
    }
}

/// What finishing a spawn does: `new` and `r` are the registry and the
/// result after `old` finished a spawn for workspace `ws` of pane `pane_id`
/// in terminal `terminal_id`, started in `cwd`, that returned `spawned`.
pub open spec fn spawn_completed<R, E>(
    old: RegistryView<R>,
    ws: int,
    pane_id: u64,
    terminal_id: u64,
    cwd: String,
    spawned: Result<(R, Option<Vec<String>>), E>,
    new: RegistryView<R>,
    r: Result<u64, SpawnError<E>>,
) -> bool {
    match spawned {
        Err(e) => r == Err::<u64, SpawnError<E>>(SpawnError::Spawn(e)) && new == old,
        Ok((runtime, launch_argv)) => {
            &&& new == old.after_spawn(
                ws,
                pane_id,
                terminal_id,
                TerminalRecord { cwd, launch_argv },
                runtime,
            )
            &&& r == if 0 <= ws < old.docks.len() {
                Ok::<u64, SpawnError<E>>(pane_id)
            } else {
                Err(SpawnError::Dock(DockSpawnError::WorkspaceDisappeared))
            }
            &&& !old.terminals.contains_key(terminal_id)
            &&& new.terminals.dom() == old.terminals.dom().insert(terminal_id)
            &&& new.tab_panes == old.tab_panes
            &&& !in_some_tab(new.tab_panes, pane_id)
        },
    }
}

/// Opening a dock and closing it again gives back the process that was
/// opened and leaves everything as it was: the docks, the terminal records,
/// the resize locks and the running processes. The terminal id is fresh, as
/// `complete_dock_spawn` and `spawn_dock_command` require.
pub proof fn lemma_close_undoes_spawn<R>(
    s: RegistryView<R>,
    dock_enabled: bool,
    ws: int,
    pane_id: u64,
    terminal_id: u64,
    record: TerminalRecord,
    runtime: R,
)
    requires
        s.spawn_check(dock_enabled, ws) is Ok,
        s.is_fresh_terminal(terminal_id),
    ensures
        ({
            let opened = s.after_spawn(ws, pane_id, terminal_id, record, runtime);
            &&& spec_dock_at(opened.docks, ws) == Some(DockPaneState { pane_id, terminal_id })
            &&& opened.terminals.contains_key(terminal_id)
            &&& opened.runtimes.contains_key(terminal_id)
            &&& opened.after_close(ws) == s
        }),
{
    let opened = s.after_spawn(ws, pane_id, terminal_id, record, runtime);
    assert(opened.after_close(ws).docks =~= s.docks);
    assert(opened.after_close(ws).terminals =~= s.terminals);
    assert(opened.after_close(ws).resize_locks =~= s.resize_locks);
    assert(opened.after_close(ws).runtimes =~= s.runtimes);
}

/// Closing a dock that holds a process empties the slot and leaves no record,
/// resize lock or running process under the process's terminal id.
pub proof fn lemma_close_drops_the_terminal<R>(s: RegistryView<R>, ws: int)
    requires
        spec_dock_at(s.docks, ws) is Some,
    ensures
        ({
            let t = spec_dock_at(s.docks, ws).unwrap().terminal_id;
            let closed = s.after_close(ws);
            &&& spec_dock_at(closed.docks, ws) is None
            &&& closed.docks.len() == s.docks.len()
            &&& !closed.terminals.contains_key(t)
            &&& !closed.resize_locks.contains(t)
            &&& !closed.runtimes.contains_key(t)
            &&& closed.terminals.dom() == s.terminals.dom().remove(t)
        }),
{
}

/// A started process is recorded under its terminal id with the record and
/// running process it was started with, and, where its workspace exists,
/// holds that workspace's dock; no other workspace's dock changes.
pub proof fn lemma_spawn_records_the_terminal<R>(
    s: RegistryView<R>,
    ws: int,
    other_ws: int,
    pane_id: u64,
    terminal_id: u64,
    record: TerminalRecord,
    runtime: R,
)
    requires
        other_ws != ws,
    ensures
        ({
            let opened = s.after_spawn(ws, pane_id, terminal_id, record, runtime);
            &&& opened.terminals.contains_key(terminal_id)
            &&& opened.terminals[terminal_id] == record
            &&& opened.runtimes.contains_key(terminal_id)
            &&& opened.runtimes[terminal_id] == runtime
            &&& opened.resize_locks == s.resize_locks
            &&& 0 <= ws < s.docks.len() ==> spec_dock_at(opened.docks, ws) == Some(
                DockPaneState { pane_id, terminal_id },
            )
            &&& spec_dock_at(opened.docks, other_ws) == spec_dock_at(s.docks, other_ws)
            &&& opened.docks.len() == s.docks.len()
        }),
{
}

/// A second close finds nothing and changes nothing.
pub proof fn lemma_close_twice<R>(s: RegistryView<R>, ws: int)
    ensures
        spec_dock_at(s.after_close(ws).docks, ws) is None,
        s.after_close(ws).after_close(ws) == s.after_close(ws),
{
}

/// Closing one workspace's dock drops only that dock's terminal: every other
/// workspace's dock, every other terminal's record, lock and process, and
/// every tab stay as they were.
pub proof fn lemma_close_touches_only_its_terminal<R>(s: RegistryView<R>, ws: int, other_ws: int, t: u64)
    requires
        other_ws != ws,
        spec_dock_at(s.docks, ws) is Some ==> t != spec_dock_at(s.docks, ws).unwrap().terminal_id,
    ensures
        spec_dock_at(s.after_close(ws).docks, other_ws) == spec_dock_at(s.docks, other_ws),
        s.after_close(ws).terminals.contains_key(t) == s.terminals.contains_key(t),
        s.terminals.contains_key(t) ==> s.after_close(ws).terminals[t] == s.terminals[t],
        s.after_close(ws).resize_locks.contains(t) == s.resize_locks.contains(t),
        s.after_close(ws).runtimes.contains_key(t) == s.runtimes.contains_key(t),
        s.after_close(ws).tab_panes == s.tab_panes,
{
}

/// A check that lets a spawn go ahead means the process can take its dock,
/// and once it has, the same check refuses a second one.
pub proof fn lemma_one_process_per_dock<R>(
    s: RegistryView<R>,
    dock_enabled: bool,
    ws: int,
    pane_id: u64,
    terminal_id: u64,
    record: TerminalRecord,
    runtime: R,
)
    requires
        s.spawn_check(dock_enabled, ws) is Ok,
    ensures
        0 <= ws < s.docks.len(),
        spec_dock_at(s.docks, ws) is None,
        s.after_spawn(ws, pane_id, terminal_id, record, runtime).spawn_check(dock_enabled, ws)
            == Err::<(), DockSpawnError>(DockSpawnError::AlreadyOpen),
{
}

/// The dock process is never a tab's pane: opening or closing a dock leaves
/// every tab as it was, so the newly allocated pane, in no tab as
/// `complete_dock_spawn` requires, is in none after it takes the dock.
pub proof fn lemma_dock_process_in_no_tab<R>(
    s: RegistryView<R>,
    ws: int,
    pane_id: u64,
    terminal_id: u64,
    record: TerminalRecord,
    runtime: R,
)
    requires
        !in_some_tab(s.tab_panes, pane_id),
    ensures
        s.after_spawn(ws, pane_id, terminal_id, record, runtime).tab_panes == s.tab_panes,
        !in_some_tab(s.after_spawn(ws, pane_id, terminal_id, record, runtime).tab_panes, pane_id),
        s.after_close(ws).tab_panes == s.tab_panes,
{
}

/// The working directory a dock process starts in: the one asked for, else
/// the focused pane's, else the current one, else `root`.
pub open spec fn spec_dock_cwd<P>(
    given: Option<P>,
    focused_pane_cwd: Option<P>,
    current_dir: Option<P>,
    root: P,
) -> P {
    match given {
        Some(cwd) => cwd,
        None => match focused_pane_cwd {
            Some(cwd) => cwd,
            None => match current_dir {
                Some(cwd) => cwd,
                None => root,
            },
        },
    }
}


/// The directory asked for always wins; the focused pane's comes next, then
/// the current one, and the root only when none of them is known.
pub proof fn lemma_dock_cwd_precedence<P>(
    given: Option<P>,
    focused_pane_cwd: Option<P>,
    current_dir: Option<P>,
    root: P,
)
    ensures
        given matches Some(c) ==> spec_dock_cwd(given, focused_pane_cwd, current_dir, root) == c,
        (given is None && focused_pane_cwd is Some) ==> spec_dock_cwd(
            given,
            focused_pane_cwd,
            current_dir,
            root,
        ) == focused_pane_cwd.unwrap(),
        (given is None && focused_pane_cwd is None && current_dir is Some) ==> spec_dock_cwd(
            given,
            focused_pane_cwd,
            current_dir,
            root,
        ) == current_dir.unwrap(),
        (given is None && focused_pane_cwd is None && current_dir is None) ==> spec_dock_cwd(
            given,
            focused_pane_cwd,
            current_dir,
            root,
        ) == root,
{
}

/// The working directory a dock process starts in: the one asked for, else
/// the focused pane's, else the current one, else `root`.
pub fn choose_dock_cwd<P>(
    given: Option<P>,
    focused_pane_cwd: Option<P>,
    current_dir: Option<P>,
    root: P,
) -> (r: P)
    ensures
        r == spec_dock_cwd(given, focused_pane_cwd, current_dir, root),
        given matches Some(c) ==> r == c,
        (given is None && focused_pane_cwd is Some) ==> r == focused_pane_cwd.unwrap(),
        (given is None && focused_pane_cwd is None && current_dir is Some) ==> r
            == current_dir.unwrap(),
        (given is None && focused_pane_cwd is None && current_dir is None) ==> r == root,
{
    match given {
        Some(cwd) => cwd,
        None => match focused_pane_cwd {
            Some(cwd) => cwd,
            None => match current_dir {
                Some(cwd) => cwd,
                None => root,
            },
        },
    }
}

/// The area the dock's size is worked out in: the terminal area once a frame
/// has been laid out (at least 4 by 4), else an estimate of
/// `estimated_rows` by `estimated_cols` at the origin.
pub fn dock_sizing_area(terminal_area: Rect, estimated_rows: u16, estimated_cols: u16) -> (r: Rect)
    ensures
        r == (if terminal_area.width >= 4 && terminal_area.height >= 4 {
            terminal_area
        } else {
            spec_rect(0, 0, estimated_cols, estimated_rows)
        }),
{
    if terminal_area.width >= 4 && terminal_area.height >= 4 {
        terminal_area
    } else {
        Rect::new(0, 0, estimated_cols, estimated_rows)
    }
}

/// Rows and columns the dock's process gets, given the dock's frame and
/// content rectangles, if the dock has any. Never zero: a process spawned
/// with a zero size thinks its terminal is broken.
pub fn dock_process_size(rects: Option<(Rect, Rect)>) -> (r: (u16, u16))
    ensures
        r.0 >= 1 && r.1 >= 1,
        rects is None ==> r == (1u16, 1u16),
        rects matches Some((_outer, inner)) ==> r == ((if inner.height >= 1 {
            inner.height
        } else {
            1
        }), (if inner.width >= 1 {
            inner.width
        } else {
            1
        })),
{
    match rects {
        None => (1, 1),
        Some((_outer, inner)) => {
            let rows = if inner.height >= 1 {
                inner.height
            } else {
                1
            };
            let cols = if inner.width >= 1 {
                inner.width
            } else {
                1
            };
            (rows, cols)
        },
    }
}

} // verus!
