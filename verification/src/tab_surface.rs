//! The decisions behind a tab's surface: which tab is shown, how the dock
//! column is taken out of its area, and where its links and its text cursor
//! come from.

use vstd::prelude::*;
use crate::dock::{DockState, dock_split, spec_dock_split, split_fits};
use crate::geometry::Rect;

verus! {

broadcast use vstd::seq_lib::group_seq_properties;

/// The tab a surface shows: a workspace and one of its tabs.
#[derive(Clone, Copy, Debug, PartialEq, Eq, Structural)]
pub struct TabSurfaceTarget {
    pub workspace_index: usize,
    pub tab_index: usize,
}

/// The active workspace's active tab, if a workspace is active and exists.
pub open spec fn spec_surface_target(active: Option<usize>, active_tabs: Seq<usize>) -> Option<
    TabSurfaceTarget,
> {
    match active {
        Some(w) => if w < active_tabs.len() {
            Some(TabSurfaceTarget { workspace_index: w, tab_index: active_tabs[w as int] })
        } else {
            None
        },
        None => None,
    }
}

/// The tab the surface shows: the active workspace's active tab, where
/// `active_tabs[i]` is the active tab of workspace `i`. `None` when no
/// workspace is active or the active one does not exist.
pub fn surface_target(active: Option<usize>, active_tabs: &Vec<usize>) -> (r: Option<
    TabSurfaceTarget,
>)
    ensures
        r == spec_surface_target(active, active_tabs@),
        (active is Some && active.unwrap() < active_tabs@.len()) ==> r == Some(
            TabSurfaceTarget {
                workspace_index: active.unwrap(),
                tab_index: active_tabs@[active.unwrap() as int],
            },
        ),
        r is None <==> (active is None || active.unwrap() >= active_tabs@.len()),
{
    match active {
        Some(w) => {
            if w < active_tabs.len() {
                Some(TabSurfaceTarget { workspace_index: w, tab_index: active_tabs[w] })
            } else {
                None
            }
        },
        None => None,
    }
}


/// The surface shows the active workspace's active tab whenever that
/// workspace exists, and no tab only when no workspace is active or the
/// active one does not exist.
pub proof fn lemma_active_tab_is_shown(active: Option<usize>, active_tabs: Seq<usize>)
    ensures
        (active is Some && active.unwrap() < active_tabs.len()) ==> spec_surface_target(
            active,
            active_tabs,
        ) == Some(
            TabSurfaceTarget {
                workspace_index: active.unwrap(),
                tab_index: active_tabs[active.unwrap() as int],
            },
        ),
        spec_surface_target(active, active_tabs) is None <==> (active is None || active.unwrap()
            >= active_tabs.len()),
{
}

/// Where the cursor is: at the terminal's own cursor when it reports one,
/// and, when it reports none but the cursor is revealed and the pane is not
/// scrolled back, visible at the top-left corner of the pane's content in
/// the input method's shape.
pub proof fn lemma_cursor_position<S>(
    target: Option<TabSurfaceTarget>,
    focused: Option<FocusedPaneCursor<S>>,
    policy: ImeCursorPolicy<S>,
)
    ensures
        spec_tab_surface_cursor(target, focused, policy) matches Some(c) ==> (
        focused.unwrap().runtime.unwrap().cursor matches Some(own) ==> c.x == own.x && c.y
            == own.y),
        spec_tab_surface_cursor(target, focused, policy) matches Some(c) ==> (
        focused.unwrap().runtime.unwrap().cursor is None ==> c.x == focused.unwrap().inner_rect.x
            && c.y == focused.unwrap().inner_rect.y),
        (target is Some && focused is Some && focused.unwrap().exposes_host_cursor
            && focused.unwrap().runtime is Some
            && !focused.unwrap().runtime.unwrap().synchronized_output
            && focused.unwrap().runtime.unwrap().cursor is None && spec_reveal(policy)
            && !focused.unwrap().runtime.unwrap().scrolled_back) ==> spec_tab_surface_cursor(
            target,
            focused,
            policy,
        ) == Some(
            CursorState {
                x: focused.unwrap().inner_rect.x,
                y: focused.unwrap().inner_rect.y,
                visible: true,
                shape: policy.shape,
            },
        ),
{
}

/// Adding a pane to the surface adds its links after those of the panes
/// before it; a surface with no target, or whose workspace is gone, shows
/// none.
pub proof fn lemma_links_follow_pane_order<L>(
    target: Option<TabSurfaceTarget>,
    workspace_count: usize,
    per_pane: Seq<Option<Vec<L>>>,
    next: Option<Vec<L>>,
)
    ensures
        (target is Some && target.unwrap().workspace_index < workspace_count) ==> spec_hyperlinks(
            target,
            workspace_count,
            per_pane.push(next),
        ) == spec_hyperlinks(target, workspace_count, per_pane) + pane_links(next),
        !(target is Some && target.unwrap().workspace_index < workspace_count) ==> spec_hyperlinks(
            target,
            workspace_count,
            per_pane,
        ).len() == 0,
{
    assert(links_by_pane(per_pane.push(next)) =~= links_by_pane(per_pane).push(pane_links(next)));
    links_by_pane(per_pane).lemma_flatten_push(pane_links(next));
}

/// How a tab's surface is laid out.
#[derive(Clone, Copy, Debug, PartialEq, Eq, Structural)]
pub struct TabSurfacePlan {
    /// The area the tab's panes, split borders and resizes are confined to.
    pub pane_area: Rect,
    /// The dock column taken out of the tab area, if any.
    pub dock_rect: Option<Rect>,
    /// Whether the split borders between the tab's panes are drawn.
    pub split_borders: bool,
    /// Whether the tab's panes are laid out at all.
    pub lay_out_panes: bool,
}

/// Lay out the surface of `target` in `area`, where `tab_zoomed` is whether
/// the shown tab is zoomed, or `None` when that tab does not exist.
///
/// The panes get only what the dock leaves: nothing below can lay a pane, a
/// border or a resize over the dock column. A zoomed tab, or a missing one,
/// draws no split borders; without a target no pane is laid out.
pub fn plan_tab_surface(
    area: Rect,
    dock: Option<DockState>,
    target: Option<TabSurfaceTarget>,
    tab_zoomed: Option<bool>,
) -> (p: TabSurfacePlan)
    requires
        split_fits(area, dock),
    ensures
        (p.pane_area, p.dock_rect) == spec_dock_split(area, dock),
        p.split_borders == (tab_zoomed == Some(false)),
        p.lay_out_panes == target is Some,
{
    let (pane_area, dock_rect) = dock_split(area, dock);
    let split_borders = match tab_zoomed {
        Some(zoomed) => !zoomed,
        None => false,
    };
    TabSurfacePlan { pane_area, dock_rect, split_borders, lay_out_panes: target.is_some() }
}

/// The area a tab's panes are resized to, given whether the tab exists:
/// what the dock leaves of `area`, or `None` when there is no tab to resize.
pub fn resize_area(area: Rect, dock: Option<DockState>, tab_exists: bool) -> (r: Option<Rect>)
    requires
        tab_exists ==> split_fits(area, dock),
    ensures
        r == (if tab_exists {
            Some(spec_dock_split(area, dock).0)
        } else {
            None
        }),
{
    if !tab_exists {
        return None;
    }
    let (pane_area, _dock_rect) = dock_split(area, dock);
    Some(pane_area)
}

/// The links one pane shows: none when it has no terminal.
pub open spec fn pane_links<L>(links: Option<Vec<L>>) -> Seq<L> {
    match links {
        Some(v) => v@,
        None => Seq::empty(),
    }
}

/// The links of each pane, pane by pane.
pub open spec fn links_by_pane<L>(per_pane: Seq<Option<Vec<L>>>) -> Seq<Seq<L>> {
    per_pane.map_values(|links: Option<Vec<L>>| pane_links(links))
}

/// The links every pane of the surface shows, pane after pane.
pub open spec fn spec_hyperlinks<L>(
    target: Option<TabSurfaceTarget>,
    workspace_count: usize,
    per_pane: Seq<Option<Vec<L>>>,
) -> Seq<L> {
    if target is Some && target.unwrap().workspace_index < workspace_count {
        links_by_pane(per_pane).flatten()
    } else {
        Seq::empty()
    }
}

/// The hyperlinks a tab's surface shows: those of each pane, in pane order,
/// where `per_pane[i]` holds the links of the i-th pane's terminal, or
/// `None` when it has no terminal. Nothing when the surface has no target or
/// its workspace does not exist.
pub fn tab_surface_hyperlinks<L>(
    target: Option<TabSurfaceTarget>,
    workspace_count: usize,
    per_pane: Vec<Option<Vec<L>>>,
) -> (links: Vec<L>)
    ensures
        links@ == spec_hyperlinks(target, workspace_count, per_pane@),
{
    let mut links: Vec<L> = Vec::new();
    let ws_idx = match target {
        Some(t) => t.workspace_index,
        None => {
            return links;
        },
    };
    if ws_idx >= workspace_count {
        return links;
    }
    let ghost all = per_pane@;
    let mut rest = per_pane;
    let n = rest.len();
    let mut i: usize = 0;
    while i < n
        invariant
            n == all.len(),
            rest@.len() == n,
            i <= n,
            forall|k: int| i <= k < n ==> rest@[k] == all[k],
            links@ == links_by_pane(all.take(i as int)).flatten(),
        decreases n - i,
    {
        let mut pane: Option<Vec<L>> = None;
        rest.set_and_swap(i, &mut pane);
        proof {
            assert(all.take(i + 1) =~= all.take(i as int).push(all[i as int]));
            assert(links_by_pane(all.take(i + 1)) =~= links_by_pane(all.take(i as int)).push(
                pane_links(all[i as int]),
            ));
            links_by_pane(all.take(i as int)).lemma_flatten_push(pane_links(all[i as int]));
        }
        match pane {
            Some(mut pane_links) => {
                links.append(&mut pane_links);
            },
            None => {
                assert(links@ =~= links@ + Seq::<L>::empty());
            },
        }
        i += 1;
    }
    assert(all.take(n as int) =~= all);
    links
}

/// The first focused pane, by its place in `focused`.
pub fn focused_pane_index(focused: &Vec<bool>) -> (r: Option<usize>)
    ensures
        r matches Some(i) ==> i < focused@.len() && focused@[i as int] && forall|j: int|
            0 <= j < i ==> !focused@[j],
        r is None ==> forall|j: int| 0 <= j < focused@.len() ==> !focused@[j],
{
    let n = focused.len();
    let mut i: usize = 0;
    while i < n
        invariant
            n == focused@.len(),
            i <= n,
            forall|j: int| 0 <= j < i ==> !focused@[j],
        decreases n - i,
    {
        if focused[i] {
            return Some(i);
        }
        i += 1;
    }
    None
}

/// A text cursor on screen, with its shape.
#[derive(Clone, Copy, Debug, PartialEq, Eq)]
pub struct CursorState<S> {
    pub x: u16,
    pub y: u16,
    pub visible: bool,
    pub shape: S,
}

/// What a pane's terminal says about its cursor.
#[derive(Clone, Copy, Debug, PartialEq, Eq)]
pub struct RuntimeCursor<S> {
    /// The terminal is in the middle of a synchronized update.
    pub synchronized_output: bool,
    /// The pane shows scrollback rather than its live screen.
    pub scrolled_back: bool,
    /// The terminal's own cursor, placed on screen, if it has one.
    pub cursor: Option<CursorState<S>>,
}

/// The focused pane of a surface, as the cursor sees it.
#[derive(Clone, Copy, Debug, PartialEq, Eq)]
pub struct FocusedPaneCursor<S> {
    /// Where the pane's content sits on screen.
    pub inner_rect: Rect,
    /// The pane lets the host terminal's cursor show.
    pub exposes_host_cursor: bool,
    /// The pane's terminal, if it has one.
    pub runtime: Option<RuntimeCursor<S>>,
}

/// How a cursor is revealed for an input method that needs to see it.
#[derive(Clone, Copy, Debug, PartialEq, Eq)]
pub struct ImeCursorPolicy<S> {
    /// Show the cursor even where the program hid it.
    pub reveal_hidden_cursor: bool,
    /// Reveal only for the listed agents.
    pub agent_filter_configured: bool,
    /// The agent detected in the pane is one of the listed ones.
    pub detected_agent_listed: bool,
    /// The shape a revealed cursor takes.
    pub shape: S,
}

/// The hidden cursor is revealed: asked for, and either for every program or
/// for a listed agent found in the pane.
pub open spec fn spec_reveal<S>(policy: ImeCursorPolicy<S>) -> bool {
    policy.reveal_hidden_cursor && (!policy.agent_filter_configured
        || policy.detected_agent_listed)
}

/// The cursor a tab's surface shows.
pub open spec fn spec_tab_surface_cursor<S>(
    target: Option<TabSurfaceTarget>,
    focused: Option<FocusedPaneCursor<S>>,
    policy: ImeCursorPolicy<S>,
) -> Option<CursorState<S>> {
    if target is None || focused is None {
        None
    } else {
        let f = focused.unwrap();
        if !f.exposes_host_cursor || f.runtime is None {
            None
        } else {
            let rt = f.runtime.unwrap();
            let reveal = spec_reveal(policy);
            if rt.synchronized_output {
                None
            } else {
                match rt.cursor {
                    Some(c) => {
                        let visible = if reveal {
                            !rt.scrolled_back
                        } else {
                            c.visible && !rt.scrolled_back
                        };
                        Some(
                            CursorState {
                                x: c.x,
                                y: c.y,
                                visible,
                                shape: if reveal && visible {
                                    policy.shape
                                } else {
                                    c.shape
                                },
                            },
                        )
                    },
                    None => if reveal && !rt.scrolled_back {
                        Some(
                            CursorState {
                                x: f.inner_rect.x,
                                y: f.inner_rect.y,
                                visible: true,
                                shape: policy.shape,
                            },
                        )
                    } else {
                        None
                    },
                }
            }
        }
    }
}

/// The text cursor a tab's surface shows, given its target, its focused
/// pane and the input-method policy.
///
/// There is none without a target, a focused pane that exposes the host
/// cursor and has a terminal, or while that terminal is in a synchronized
/// update. A pane showing scrollback never shows its cursor. A revealed
/// cursor shows unless the pane is scrolled back, in the policy's shape, at
/// the terminal's cursor or else at the corner of the pane's content.
pub fn tab_surface_cursor<S: Copy>(
    target: Option<TabSurfaceTarget>,
    focused: Option<FocusedPaneCursor<S>>,
    policy: ImeCursorPolicy<S>,
) -> (r: Option<CursorState<S>>)
    ensures
        r == spec_tab_surface_cursor(target, focused, policy),
        (target is None || focused is None) ==> r is None,
        r matches Some(c) ==> {
            let rt = focused.unwrap().runtime.unwrap();
            &&& focused.unwrap().exposes_host_cursor
            &&& !rt.synchronized_output
            &&& rt.scrolled_back ==> !c.visible
            &&& (spec_reveal(policy) && !rt.scrolled_back) ==> c.visible && c.shape
                == policy.shape
            &&& rt.cursor matches Some(own) ==> c.x == own.x && c.y == own.y
            &&& rt.cursor is None ==> c.x == focused.unwrap().inner_rect.x && c.y
                == focused.unwrap().inner_rect.y
        },
        (target is Some && focused is Some && focused.unwrap().exposes_host_cursor
            && focused.unwrap().runtime is Some
            && !focused.unwrap().runtime.unwrap().synchronized_output
            && focused.unwrap().runtime.unwrap().cursor is None && spec_reveal(policy)
            && !focused.unwrap().runtime.unwrap().scrolled_back) ==> r == Some(
            CursorState {
                x: focused.unwrap().inner_rect.x,
                y: focused.unwrap().inner_rect.y,
                visible: true,
                shape: policy.shape,
            },
        ),
{
    if target.is_none() {
        return None;
    }
    let f = match focused {
        Some(f) => f,
        None => {
            return None;
        },
    };
    if !f.exposes_host_cursor {
        return None;
    }
    let rt = match f.runtime {
        Some(rt) => rt,
        None => {
            return None;
        },
    };
    if rt.synchronized_output {
        return None;
    }
    let scrolled_back = rt.scrolled_back;
    let reveal = policy.reveal_hidden_cursor && (!policy.agent_filter_configured
        || policy.detected_agent_listed);
    match rt.cursor {
        Some(cursor) => {
            let visible = if reveal {
                !scrolled_back
            } else {
                cursor.visible && !scrolled_back
            };
            Some(
                CursorState {
                    x: cursor.x,
                    y: cursor.y,
                    visible,
                    shape: if reveal && visible {
                        policy.shape
                    } else {
                        cursor.shape
                    },
                },
            )
        },
        None => {
            if reveal && !scrolled_back {
                Some(
                    CursorState {
                        x: f.inner_rect.x,
                        y: f.inner_rect.y,
                        visible: true,
                        shape: policy.shape,
                    },
                )
            } else {
                None
            }
        },
    }
}

} // verus!
