//! Where the client shell sends the keyboard when a dock column is on screen.
//!
//! The dock is not modal: the panes keep the keyboard until a click lands in
//! the dock, and a click on a pane, or the dock leaving the surface, gives it
//! back. The text cursor follows the keyboard. Collapsing the dock is server
//! state, so the toggle key becomes a request to the server, never a local
//! flag.

use vstd::prelude::*;
use crate::geometry::Rect;
use crate::schema::DockTarget;

verus! {

/// Where a pane's content sits on screen.
#[derive(Clone, Debug, PartialEq, Eq)]
pub struct PaneHit {
    pub pane_id: String,
    pub inner_rect: Rect,
}

/// Where the dock column sits on screen: its frame and the content inside it.
#[derive(Clone, Debug, PartialEq, Eq)]
pub struct DockHit {
    pub terminal_id: String,
    pub rect: Rect,
    pub inner_rect: Rect,
}

/// The geometry of one composed frame.
#[derive(Clone, Debug)]
pub struct SurfaceHits {
    pub dock: Option<DockHit>,
    pub panes: Vec<PaneHit>,
}

/// Who receives the next key.
#[derive(Clone, Copy, Debug, PartialEq, Eq, Structural)]
pub enum KeyboardOwner {
    Panes,
    Dock,
}

/// A click that reached a pane, in the pane's own coordinates.
#[derive(Clone, Debug, PartialEq, Eq)]
pub struct PaneClick {
    pub pane_id: String,
    pub viewport_row: u16,
    pub col: u16,
}

/// A key on its way to the server.
#[derive(Clone, Debug, PartialEq, Eq)]
pub enum ShellRequest {
    PaneInput { pane_id: String, key: char },
    DockInput { terminal_id: String, key: char },
}

/// An API method the shell asks the server to run.
#[derive(Clone, Debug, PartialEq, Eq)]
pub enum Method {
    DockToggle(DockTarget),
}

/// What the shell does in answer to a key binding.
#[derive(Clone, Debug, PartialEq, Eq)]
pub enum ShellAction {
    Endpoint { method: Method },
}

/// The pane at `i` exists and its content holds the cell (`col`, `row`).
pub open spec fn pane_at(panes: Seq<PaneHit>, i: int, col: int, row: int) -> bool {
    0 <= i < panes.len() && panes[i].inner_rect.spec_contains(col, row)
}

/// `i` is the first pane whose content holds the cell.
pub open spec fn is_first_pane_at(panes: Seq<PaneHit>, i: int, col: int, row: int) -> bool {
    &&& pane_at(panes, i, col, row)
    &&& forall|j: int| 0 <= j < i ==> !pane_at(panes, j, col, row)
}

/// Index of the first pane whose content holds the cell, if any does.
pub open spec fn spec_pane_index_at(panes: Seq<PaneHit>, col: int, row: int) -> Option<int> {
    if exists|i: int| is_first_pane_at(panes, i, col, row) {
        Some(choose|i: int| is_first_pane_at(panes, i, col, row))
    } else {
        None
    }
}

/// Only one pane is the first to hold a cell.
pub proof fn lemma_first_pane_is_unique(panes: Seq<PaneHit>, i: int, k: int, col: int, row: int)
    requires
        is_first_pane_at(panes, i, col, row),
        is_first_pane_at(panes, k, col, row),
    ensures
        i == k,
{
    if i < k {
        assert(!pane_at(panes, i, col, row));
    } else if k < i {
        assert(!pane_at(panes, k, col, row));
    }
}

/// The screen cell `dx` columns and `dy` rows into `inner`, if it lies
/// inside `inner`.
pub open spec fn spec_place(inner: Rect, dx: u16, dy: u16) -> Option<(u16, u16)> {
    if dx < inner.width && dy < inner.height && inner.x + dx <= u16::MAX && inner.y + dy
        <= u16::MAX {
        Some(((inner.x + dx) as u16, (inner.y + dy) as u16))
    } else {
        None
    }
}

/// The offset of the cell (`col`, `row`) from the corner of `inner`, if the
/// cell lies inside it.
pub open spec fn spec_offset_in(inner: Rect, col: u16, row: u16) -> Option<(u16, u16)> {
    if inner.spec_contains(col as int, row as int) {
        Some(((col - inner.x) as u16, (row - inner.y) as u16))
    } else {
        None
    }
}

/// Placing an offset taken inside a rectangle gives back the cell it was
/// taken from, and a placed cell lies inside the rectangle.
pub proof fn lemma_offset_then_place(inner: Rect, col: u16, row: u16, dx: u16, dy: u16)
    requires
        inner.fits(),
    ensures
        spec_offset_in(inner, col, row) matches Some(off) ==> spec_place(inner, off.0, off.1)
            == Some((col, row)),
        spec_offset_in(inner, col, row) is None <==> !inner.spec_contains(col as int, row as int),
        spec_place(inner, dx, dy) matches Some(cell) ==> inner.spec_contains(
            cell.0 as int,
            cell.1 as int,
        ) && cell.0 == inner.x + dx && cell.1 == inner.y + dy,
{
}

/// The offset of the cell (`col`, `row`) from the corner of `inner`, if the
/// cell lies inside it. A dock process reports its cursor in the surface's
/// own coordinates; this turns it into a position inside the dock.
pub fn offset_in(inner: Rect, col: u16, row: u16) -> (r: Option<(u16, u16)>)
    ensures
        r == spec_offset_in(inner, col, row),
{
    if inner.contains(col, row) {
        Some((col - inner.x, row - inner.y))
    } else {
        None
    }
}

/// The screen cell `dx` columns and `dy` rows into `inner`, if it lies
/// inside `inner`.
pub fn place(inner: Rect, dx: u16, dy: u16) -> (r: Option<(u16, u16)>)
    ensures
        r == spec_place(inner, dx, dy),
{
    if dx < inner.width && dy < inner.height && inner.x <= u16::MAX - dx && inner.y <= u16::MAX
        - dy {
        Some((inner.x + dx, inner.y + dy))
    } else {
        None
    }
}

/// The shell's keyboard and cursor state, as a value.
pub struct FocusView {
    pub keyboard: KeyboardOwner,
    pub dock: Option<DockHit>,
    pub panes: Seq<PaneHit>,
    pub focused_pane: Option<String>,
    pub last_pane_click: Option<PaneClick>,
}

impl FocusView {
    /// The keyboard is in the dock only while the dock is on the surface.
    pub open spec fn wf(self) -> bool {
        self.keyboard == KeyboardOwner::Dock ==> self.dock is Some
    }

    /// The cell lies in the dock's frame.
    pub open spec fn in_dock(self, col: int, row: int) -> bool {
        self.dock is Some && self.dock.unwrap().rect.spec_contains(col, row)
    }

    /// A click in the dock takes the keyboard there. A click anywhere else
    /// falls through to the panes: the first pane whose content holds the
    /// cell takes the keyboard and records the click in its own
    /// coordinates. A click on neither changes nothing.
    pub open spec fn after_click(self, col: u16, row: u16) -> FocusView {
        if self.in_dock(col as int, row as int) {
            FocusView { keyboard: KeyboardOwner::Dock, ..self }
        } else {
            match spec_pane_index_at(self.panes, col as int, row as int) {
                Some(i) => {
                    let p = self.panes[i];
                    FocusView {
                        keyboard: KeyboardOwner::Panes,
                        focused_pane: Some(p.pane_id),
                        last_pane_click: Some(
                            PaneClick {
                                pane_id: p.pane_id,
                                viewport_row: (row - p.inner_rect.y) as u16,
                                col: (col - p.inner_rect.x) as u16,
                            },
                        ),
                        ..self
                    }
                },
                None => self,
            }
        }
    }

    /// A new frame's geometry. When the dock has left the surface the
    /// keyboard goes back to the panes, with no click to report it.
    pub open spec fn after_surface(self, dock: Option<DockHit>, panes: Seq<PaneHit>) -> FocusView {
        FocusView {
            keyboard: if dock is None {
                KeyboardOwner::Panes
            } else {
                self.keyboard
            },
            dock,
            panes,
            ..self
        }
    }

    /// Where a key goes: to the dock's terminal while the dock holds the
    /// keyboard, else to the focused pane, if there is one.
    pub open spec fn key_request(self, key: char) -> Option<ShellRequest> {
        match self.keyboard {
            KeyboardOwner::Dock => Some(
                ShellRequest::DockInput { terminal_id: self.dock.unwrap().terminal_id, key },
            ),
            KeyboardOwner::Panes => match self.focused_pane {
                Some(pane_id) => Some(ShellRequest::PaneInput { pane_id, key }),
                None => None,
            },
        }
    }

    /// The text cursor follows the keyboard: the pane's cursor while the
    /// panes hold it, the dock process's cursor, placed inside the dock,
    /// while the dock does.
    pub open spec fn cursor(
        self,
        pane_cursor: Option<(u16, u16)>,
        dock_cursor: Option<(u16, u16)>,
    ) -> Option<(u16, u16)> {
        match self.keyboard {
            KeyboardOwner::Panes => pane_cursor,
            KeyboardOwner::Dock => match dock_cursor {
                Some(offset) => spec_place(self.dock.unwrap().inner_rect, offset.0, offset.1),
                None => None,
            },
        }
    }
}


/// Every transition keeps the keyboard out of a dock that is not on the
/// surface.
pub proof fn lemma_transitions_keep_keyboard_on_surface(
    v: FocusView,
    col: u16,
    row: u16,
    dock: Option<DockHit>,
    panes: Seq<PaneHit>,
)
    requires
        v.wf(),
    ensures
        v.after_click(col, row).wf(),
        v.after_surface(dock, panes).wf(),
{
}

/// The dock is not modal: a dock that appears on the surface does not take
/// the keyboard, and keys keep going where they went.
pub proof fn lemma_dock_is_not_modal(v: FocusView, dock: Option<DockHit>, panes: Seq<PaneHit>, key: char)
    requires
        v.keyboard == KeyboardOwner::Panes,
    ensures
        v.after_surface(dock, panes).keyboard == KeyboardOwner::Panes,
        v.after_surface(dock, panes).key_request(key) == v.key_request(key),
{
}

/// A dock that leaves the surface hands the keyboard back to the focused pane
/// without a click.
pub proof fn lemma_dock_leaving_hands_keyboard_back(v: FocusView, panes: Seq<PaneHit>, key: char)
    ensures
        v.after_surface(None, panes).keyboard == KeyboardOwner::Panes,
        v.after_surface(None, panes).key_request(key) == (match v.focused_pane {
            Some(pane_id) => Some(ShellRequest::PaneInput { pane_id, key }),
            None => None,
        }),
{
}

/// A click in the dock sends the next key, and the cursor, to the dock; a
/// click on a pane outside the dock afterwards sends them back to that pane.
pub proof fn lemma_keyboard_and_cursor_round_trip(
    v: FocusView,
    dock_col: u16,
    dock_row: u16,
    pane_col: u16,
    pane_row: u16,
    key: char,
    pane_cursor: Option<(u16, u16)>,
    dock_cursor: Option<(u16, u16)>,
)
    requires
        v.wf(),
        v.in_dock(dock_col as int, dock_row as int),
        !v.in_dock(pane_col as int, pane_row as int),
        spec_pane_index_at(v.panes, pane_col as int, pane_row as int) is Some,
    ensures
        ({
            let in_dock = v.after_click(dock_col, dock_row);
            let back = in_dock.after_click(pane_col, pane_row);
            let i = spec_pane_index_at(v.panes, pane_col as int, pane_row as int).unwrap();
            &&& in_dock.key_request(key) == Some(
                ShellRequest::DockInput { terminal_id: v.dock.unwrap().terminal_id, key },
            )
            &&& in_dock.cursor(pane_cursor, dock_cursor) == (match dock_cursor {
                Some(offset) => spec_place(v.dock.unwrap().inner_rect, offset.0, offset.1),
                None => None,
            })
            &&& back.key_request(key) == Some(
                ShellRequest::PaneInput { pane_id: v.panes[i].pane_id, key },
            )
            &&& back.cursor(pane_cursor, dock_cursor) == pane_cursor
        }),
{
}

/// A click beside the dock falls through to the pane under it, which sees the
/// click in its own coordinates.
pub proof fn lemma_click_beside_dock_reaches_pane(v: FocusView, col: u16, row: u16)
    requires
        !v.in_dock(col as int, row as int),
        spec_pane_index_at(v.panes, col as int, row as int) is Some,
    ensures
        ({
            let i = spec_pane_index_at(v.panes, col as int, row as int).unwrap();
            let p = v.panes[i];
            &&& 0 <= i < v.panes.len()
            &&& p.inner_rect.spec_contains(col as int, row as int)
            &&& v.after_click(col, row).last_pane_click == Some(
                PaneClick {
                    pane_id: p.pane_id,
                    viewport_row: (row - p.inner_rect.y) as u16,
                    col: (col - p.inner_rect.x) as u16,
                },
            )
        }),
{
    let i = choose|k: int| is_first_pane_at(v.panes, k, col as int, row as int);
    assert(is_first_pane_at(v.panes, i, col as int, row as int));
}


/// A new frame that still shows the dock leaves the keyboard where it was: a
/// dock that holds the keyboard keeps it, so the next key goes to the dock's
/// terminal and the cursor stays in the dock.
pub proof fn lemma_recompose_with_dock_keeps_keyboard(
    v: FocusView,
    dock: DockHit,
    panes: Seq<PaneHit>,
    key: char,
    pane_cursor: Option<(u16, u16)>,
    dx: u16,
    dy: u16,
)
    requires
        v.wf(),
    ensures
        v.after_surface(Some(dock), panes).keyboard == v.keyboard,
        v.keyboard == KeyboardOwner::Dock ==> v.after_surface(Some(dock), panes).key_request(key)
            == Some(ShellRequest::DockInput { terminal_id: dock.terminal_id, key }),
        v.keyboard == KeyboardOwner::Dock ==> v.after_surface(Some(dock), panes).cursor(
            pane_cursor,
            Some((dx, dy)),
        ) == spec_place(dock.inner_rect, dx, dy),
        v.keyboard == KeyboardOwner::Panes ==> v.after_surface(Some(dock), panes).cursor(
            pane_cursor,
            Some((dx, dy)),
        ) == pane_cursor,
{
}

/// Where the keys go, by who holds the keyboard: the dock's terminal while
/// the dock holds it, the focused pane otherwise, and nowhere when no pane is
/// focused.
pub proof fn lemma_key_goes_to_keyboard_owner(v: FocusView, key: char)
    requires
        v.wf(),
    ensures
        v.keyboard == KeyboardOwner::Dock ==> v.key_request(key) == Some(
            ShellRequest::DockInput { terminal_id: v.dock.unwrap().terminal_id, key },
        ),
        (v.keyboard == KeyboardOwner::Panes && v.focused_pane is Some) ==> v.key_request(key)
            == Some(ShellRequest::PaneInput { pane_id: v.focused_pane.unwrap(), key }),
        (v.keyboard == KeyboardOwner::Panes && v.focused_pane is None) ==> v.key_request(key)
            is None,
{
}

/// The request that asks the server to collapse or restore the active
/// workspace's dock.
pub open spec fn spec_toggle_action() -> ShellAction {
    ShellAction::Endpoint { method: Method::DockToggle(DockTarget { workspace_id: None }) }
}

/// Keyboard and cursor routing between the panes and the dock.
pub struct DockFocus {
    keyboard: KeyboardOwner,
    hits: SurfaceHits,
    focused_pane: Option<String>,
    last_pane_click: Option<PaneClick>,
}

impl View for DockFocus {
    type V = FocusView;

    closed spec fn view(&self) -> FocusView {
        FocusView {
            keyboard: self.keyboard,
            dock: self.hits.dock,
            panes: self.hits.panes@,
            focused_pane: self.focused_pane,
            last_pane_click: self.last_pane_click,
        }
    }
}

impl DockFocus {
    #[verifier::type_invariant]
    spec fn keyboard_follows_geometry(&self) -> bool {
        self@.wf()
    }

    /// A shell whose panes hold the keyboard, with `focused_pane` focused and
    /// nothing composed yet.
    pub fn new(focused_pane: Option<String>) -> (s: Self)
        ensures
            s@ == (FocusView {
                keyboard: KeyboardOwner::Panes,
                dock: None,
                panes: Seq::empty(),
                focused_pane,
                last_pane_click: None,
            }),
    {
        DockFocus {
            keyboard: KeyboardOwner::Panes,
            hits: SurfaceHits { dock: None, panes: Vec::new() },
            focused_pane,
            last_pane_click: None,
        }
    }

    /// Who holds the keyboard.
    pub fn keyboard(&self) -> (k: KeyboardOwner)
        ensures
            k == self@.keyboard,
    {
        self.keyboard
    }

    /// The geometry of the last composed frame.
    pub fn hits(&self) -> (h: &SurfaceHits)
        ensures
            h.dock == self@.dock,
            h.panes@ == self@.panes,
    {
        &self.hits
    }

    /// The last click that reached a pane.
    pub fn last_pane_click(&self) -> (c: &Option<PaneClick>)
        ensures
            *c == self@.last_pane_click,
    {
        &self.last_pane_click
    }

    /// Take the geometry of a newly composed frame.
    pub fn set_surface(&mut self, hits: SurfaceHits)
        ensures
            final(self)@ == old(self)@.after_surface(hits.dock, hits.panes@),
            hits.dock is Some ==> final(self)@.keyboard == old(self)@.keyboard,
            hits.dock is None ==> final(self)@.keyboard == KeyboardOwner::Panes,
            final(self)@.dock == hits.dock,
            final(self)@.panes == hits.panes@,
            final(self)@.focused_pane == old(self)@.focused_pane,
    {
        proof {
            use_type_invariant(&*self);
        }
        if hits.dock.is_none() {
            self.keyboard = KeyboardOwner::Panes;
        }
        self.hits = hits;
    }

    /// Index of the first pane whose content holds the cell.
    fn pane_index_at(&self, col: u16, row: u16) -> (r: Option<usize>)
        ensures
            r matches Some(i) ==> is_first_pane_at(self@.panes, i as int, col as int, row as int),
            r is None ==> spec_pane_index_at(self@.panes, col as int, row as int) is None,
    {
        let n = self.hits.panes.len();
        let mut i: usize = 0;
        while i < n
            invariant
                n == self.hits.panes@.len(),
                self@.panes == self.hits.panes@,
                i <= n,
                forall|j: int| 0 <= j < i ==> !pane_at(self@.panes, j, col as int, row as int),
            decreases n - i,
        {
            if self.hits.panes[i].inner_rect.contains(col, row) {
                return Some(i);
            }
            i += 1;
        }
        assert forall|k: int| !is_first_pane_at(self@.panes, k, col as int, row as int) by {}
        None
    }

    /// A mouse click at (`col`, `row`).
    pub fn click(&mut self, col: u16, row: u16)
        ensures
            final(self)@ == old(self)@.after_click(col, row),
    {
        proof {
            use_type_invariant(&*self);
        }
        let in_dock = match &self.hits.dock {
            Some(dock) => dock.rect.contains(col, row),
            None => false,
        };
        if in_dock {
            self.keyboard = KeyboardOwner::Dock;
            return;
        }
        match self.pane_index_at(col, row) {
            Some(i) => {
                proof {
                    lemma_first_pane_is_unique(
                        self@.panes,
                        i as int,
                        choose|k: int| is_first_pane_at(self@.panes, k, col as int, row as int),
                        col as int,
                        row as int,
                    );
                }
                let pane = &self.hits.panes[i];
                let click = PaneClick {
                    pane_id: pane.pane_id.clone(),
                    viewport_row: row - pane.inner_rect.y,
                    col: col - pane.inner_rect.x,
                };
                let focused = pane.pane_id.clone();
                self.keyboard = KeyboardOwner::Panes;
                self.focused_pane = Some(focused);
                self.last_pane_click = Some(click);
            },
            None => {},
        }
    }

    /// Where the key `key` goes.
    pub fn key(&self, key: char) -> (r: Option<ShellRequest>)
        ensures
            r == self@.key_request(key),
    {
        proof {
            use_type_invariant(self);
        }
        match self.keyboard {
            KeyboardOwner::Dock => match &self.hits.dock {
                Some(dock) => Some(
                    ShellRequest::DockInput { terminal_id: dock.terminal_id.clone(), key },
                ),
                None => None,
            },
            KeyboardOwner::Panes => match &self.focused_pane {
                Some(pane_id) => Some(ShellRequest::PaneInput { pane_id: pane_id.clone(), key }),
                None => None,
            },
        }
    }

    /// The text cursor of the composed frame, given the focused pane's cursor
    /// on screen and the dock process's cursor as an offset into the dock.
    pub fn cursor(&self, pane_cursor: Option<(u16, u16)>, dock_cursor: Option<(u16, u16)>) -> (r:
        Option<(u16, u16)>)
        ensures
            r == self@.cursor(pane_cursor, dock_cursor),
    {
        proof {
            use_type_invariant(self);
        }
        match self.keyboard {
            KeyboardOwner::Panes => pane_cursor,
            KeyboardOwner::Dock => match (&self.hits.dock, dock_cursor) {
                (Some(dock), Some(offset)) => place(dock.inner_rect, offset.0, offset.1),
                _ => None,
            },
        }
    }

    /// The toggle-dock key binding: append the request that asks the server
    /// to collapse or restore the column. The shell itself keeps no flag for
    /// it, so its state is left as it was.
    pub fn record_toggle_dock(&self, actions: &mut Vec<ShellAction>)
        ensures
            final(actions)@ == old(actions)@.push(spec_toggle_action()),
    {
        actions.push(
            ShellAction::Endpoint { method: Method::DockToggle(DockTarget { workspace_id: None }) },
        );
    }
}

} // verus!
