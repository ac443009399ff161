//! Application state: the ordered list of workspaces with their pane
//! layouts, and which one is visible.
//!
//! Every change that the window has to show is queued, in order, as a
//! `ViewAction` in `pending`; the window layer performs and drains them.
use vstd::prelude::*;
use crate::ids::{is_v4_uuid, uuid_text, uuid_to_string};
use crate::session::{SessionData, WorkspaceSession};
use crate::split_engine::{SplitEngine, SplitNodeData};
use crate::workspace::{Workspace, default_workspace_name, workspace_page_name};

verus! {

/// Work the window has to do after a state change.
#[derive(Debug)]
pub enum ViewAction {
    /// A workspace was appended: add a sidebar row labelled `name`, create
    /// the terminal of its first pane `pane_id`, and add its root widget to
    /// the page stack under `page_name`.
    WorkspaceAdded { id: u64, name: String, page_name: String, pane_id: u64 },
    /// The workspace at `index` is now the visible one: show the stack page
    /// `page_name`, select and highlight its sidebar row, and give keyboard
    /// focus to pane `focus_pane`.
    WorkspaceShown { index: usize, page_name: String, focus_pane: u64 },
    /// The workspace that was at `index` was closed: free its terminal
    /// `surfaces` (those that exist, i.e. are not 0), and remove its sidebar
    /// row and its stack page `page_name`.
    WorkspaceRemoved { index: usize, page_name: String, surfaces: Vec<usize> },
    /// The sidebar row at `index` now reads `name`.
    WorkspaceRenamed { index: usize, name: String },
    /// The session changed; this snapshot is to be saved.
    SessionChanged(SessionData),
    /// `text` is to be typed into terminal surface `surface`.
    TypeText { surface: usize, text: String },
    /// In the workspace at `workspace_index`, pane `split_pane` (whose
    /// surface is `inherited_surface`) was split and the new pane
    /// `new_pane_id` is active: unfocus the old surface, create the new
    /// pane's terminal with settings inherited from it, and lay the widgets
    /// out again.
    PaneSplit { workspace_index: usize, split_pane: u64, inherited_surface: usize, new_pane_id: u64 },
    /// In the workspace at `workspace_index`, pane `closed_pane` (surface
    /// `closed_surface`, 0 when it has none) was closed and `surviving_pane`
    /// is active: free the surface if there is one, forget the pane's widget,
    /// lay the widgets out again and focus the surviving pane.
    PaneClosed {
        workspace_index: usize,
        closed_pane: u64,
        closed_surface: usize,
        surviving_pane: u64,
    },
    /// In the workspace at `workspace_index`, the focus moved from pane
    /// `from_pane` to pane `to_pane`.
    FocusMoved { workspace_index: usize, from_pane: u64, to_pane: u64 },
}

/// The state of all workspaces.
pub struct AppState {
    /// One layout engine per workspace, in the same order as `workspaces`.
    pub split_engines: Vec<SplitEngine>,
    /// All open workspaces, in sidebar order.
    pub workspaces: Vec<Workspace>,
    /// Index into `workspaces` of the visible workspace.
    pub active_index: usize,
    /// Next workspace id (monotonically increasing).
    pub next_id: u64,
    /// Next display number for default names ("Workspace N").
    pub next_display_number: u32,
    /// View work queued by state changes, oldest first.
    pub pending: Vec<ViewAction>,
}

/// `new` is `old` with `k` actions appended.
pub open spec fn appended(old: Seq<ViewAction>, new: Seq<ViewAction>, k: int) -> bool {
    new.len() == old.len() + k && new.subrange(0, old.len() as int) == old
}

proof fn lemma_appended_trans(a: Seq<ViewAction>, b: Seq<ViewAction>, c: Seq<ViewAction>, k1: int, k2: int)
    requires
        appended(a, b, k1),
        appended(b, c, k2),
        k1 >= 0,
        k2 >= 0,
    ensures
        appended(a, c, k1 + k2),
        forall|i: int| 0 <= i < b.len() ==> c[i] == b[i],
{
    assert forall|i: int| 0 <= i < b.len() implies c[i] == b[i] by {
        assert(c.subrange(0, b.len() as int)[i] == c[i]);
    }
    assert forall|i: int| 0 <= i < a.len() implies c[i] == a[i] by {
        assert(b.subrange(0, a.len() as int)[i] == b[i]);
    }
    assert(c.subrange(0, a.len() as int) =~= a);
}

/// Whether `s` is the saved form of workspace `w`: its UUID as text, its
/// name, no active pane, and a placeholder single-pane layout.
pub open spec fn saved_form(s: WorkspaceSession, w: Workspace) -> bool {
    &&& s.uuid@ == uuid_text(w.uuid)
    &&& s.name@ == w.name@
    &&& s.active_pane_uuid is None
    &&& s.layout matches SplitNodeData::Leaf { pane_id, surface_uuid, shell, cwd }
        && pane_id == 0 && surface_uuid == 0 && shell@.len() == 0 && cwd@.len() == 0
}

/// Where the active index goes when the workspace at `index` is closed and
/// `len_after` workspaces remain.
pub open spec fn active_after_close(active: int, index: int, len_after: int) -> int {
    if active >= len_after {
        len_after - 1
    } else if index <= active && active > 0 {
        active - 1
    } else {
        active
    }
}

impl AppState {
    /// The two lists have the same length, the active index points into them
    /// (it is 0 when they are empty), every layout is well formed, and
    /// workspace ids are unique and below `next_id`.
    pub open spec fn wf(&self) -> bool {
        &&& self.split_engines@.len() == self.workspaces@.len()
        &&& if self.workspaces@.len() == 0 {
            self.active_index == 0
        } else {
            self.active_index < self.workspaces@.len()
        }
        &&& forall|i: int|
            0 <= i < self.split_engines@.len() ==> #[trigger] self.split_engines@[i].wf()
        &&& forall|i: int|
            0 <= i < self.workspaces@.len() ==> #[trigger] self.workspaces@[i].id < self.next_id
        &&& forall|i: int, j: int|
            0 <= i < self.workspaces@.len() && 0 <= j < self.workspaces@.len() && i != j
                ==> self.workspaces@[i].id != self.workspaces@[j].id
    }

    /// Whether `other` holds the same workspaces, layouts, indices, counters
    /// and queued view work as this state.
    pub open spec fn same_as(&self, other: AppState) -> bool {
        &&& self.workspaces@ == other.workspaces@
        &&& self.split_engines@ == other.split_engines@
        &&& self.active_index == other.active_index
        &&& self.next_id == other.next_id
        &&& self.next_display_number == other.next_display_number
        &&& self.pending@ == other.pending@
    }

    /// Whether `a` shows the workspace at `index` of this state.
    pub open spec fn shows(&self, a: ViewAction, index: int) -> bool {
        a matches ViewAction::WorkspaceShown { index: i, page_name, focus_pane } && i == index
            && page_name@ == self.workspaces@[index].stack_page_name@ && focus_pane
            == self.split_engines@[index].active_pane_id
    }

    /// Whether `d` is the session snapshot of this state.
    pub open spec fn snapshot_matches(&self, d: SessionData) -> bool {
        &&& d.version == 1
        &&& d.active_index == self.active_index
        &&& d.workspaces@.len() == self.workspaces@.len()
        &&& forall|i: int|
            0 <= i < d.workspaces@.len() ==> saved_form(
                #[trigger] d.workspaces@[i],
                self.workspaces@[i],
            )
    }

    /// Whether `a` asks to save the snapshot of this state.
    pub open spec fn saves(&self, a: ViewAction) -> bool {
        a matches ViewAction::SessionChanged(d) && self.snapshot_matches(d)
    }

    /// The state with no workspace yet; the first workspace is created by a
    /// separate call to `create_workspace`.
    pub fn new() -> (s: Self)
        ensures
            s.wf(),
            s.workspaces@.len() == 0,
            s.active_index == 0,
            s.next_id == 1,
            s.next_display_number == 1,
            s.pending@.len() == 0,
    {
        AppState {
            split_engines: Vec::new(),
            workspaces: Vec::new(),
            active_index: 0,
            next_id: 1,
            next_display_number: 1,
            pending: Vec::new(),
        }
    }

    /// Makes the workspace at `index` the visible one and queues the view
    /// work for it. Does nothing if `index` is out of bounds.
    pub fn switch_to_index(&mut self, index: usize)
        requires
            old(self).wf(),
        ensures
            old(self).switch_outcome(*final(self), index),

    {
        if index >= self.workspaces.len() {
            return;
        }
        self.active_index = index;
        let page_name = self.workspaces[index].stack_page_name.clone();
        let focus_pane = self.split_engines[index].active_pane_id;
        let ghost pre = self.pending@;
        self.pending.push(ViewAction::WorkspaceShown { index, page_name, focus_pane });
        assert(self.pending@.subrange(0, pre.len() as int) =~= pre);
    }
}


impl AppState {
    /// How `switch_to_index(index)` takes `self` to `after`: nothing changes
    /// when `index` is out of bounds; otherwise `index` becomes active and
    /// its showing is queued.
    pub open spec fn switch_outcome(&self, after: AppState, index: usize) -> bool {
        &&& after.wf()
        &&& if index >= self.workspaces@.len() {
            after.same_as(*self)
        } else {
            &&& after.active_index == index
            &&& after.workspaces@ == self.workspaces@
            &&& after.split_engines@ == self.split_engines@
            &&& after.next_id == self.next_id
            &&& after.next_display_number == self.next_display_number
            &&& appended(self.pending@, after.pending@, 1)
            &&& after.shows(after.pending@.last(), index as int)
        }
    }

    /// How `switch_next` takes `self` to `after`.
    pub open spec fn next_outcome(&self, after: AppState) -> bool {
        if self.workspaces@.len() == 0 {
            after.same_as(*self)
        } else {
            self.switch_outcome(after, self.next_index() as usize)
        }
    }

    /// How `switch_prev` takes `self` to `after`.
    pub open spec fn prev_outcome(&self, after: AppState) -> bool {
        if self.workspaces@.len() == 0 {
            after.same_as(*self)
        } else {
            self.switch_outcome(after, self.prev_index() as usize)
        }
    }

    /// How `create_workspace` takes `self` to `after` and returns `id`: the
    /// new workspace is appended with id `next_id`, the next display number,
    /// its default name and page name, and a single pane `id * 1000`; it
    /// becomes active; its creation, its showing and a session save are
    /// queued.
    pub open spec fn create_outcome(&self, after: AppState, id: u64) -> bool {
        &&& after.wf()
        &&& id == self.next_id
        &&& after.next_id == self.next_id + 1
        &&& after.next_display_number == self.next_display_number + 1
        &&& after.workspaces@.len() == self.workspaces@.len() + 1
        &&& after.workspaces@.subrange(0, self.workspaces@.len() as int) == self.workspaces@
        &&& after.split_engines@.subrange(0, self.split_engines@.len() as int)
            == self.split_engines@
        &&& after.workspaces@.last().id == id
        &&& after.workspaces@.last().display_number == self.next_display_number
        &&& after.workspaces@.last().name@ == default_workspace_name(
            self.next_display_number as nat,
        )
        &&& after.workspaces@.last().stack_page_name@ == workspace_page_name(id as nat)
        &&& is_v4_uuid(after.workspaces@.last().uuid)
        &&& after.split_engines@.last().active_pane_id == id * 1000
        &&& after.split_engines@.last().root.pane_ids() == seq![(id * 1000) as u64]
        &&& after.active_index == self.workspaces@.len()
        &&& appended(self.pending@, after.pending@, 3)
        &&& after.pending@[self.pending@.len() as int] matches ViewAction::WorkspaceAdded {
            id: i,
            name,
            page_name,
            pane_id,
        } && i == id && name@ == default_workspace_name(self.next_display_number as nat)
            && page_name@ == workspace_page_name(id as nat) && pane_id == id * 1000
        &&& after.shows(after.pending@[self.pending@.len() + 1int], self.workspaces@.len() as int)
        &&& after.saves(after.pending@[self.pending@.len() + 2int])
    }

    /// How `close_workspace(index)` takes `self` to `after` and returns
    /// `closed`: nothing changes when at most one workspace is open;
    /// otherwise the workspace and its layout are removed, the active index
    /// moves as `active_after_close` says, and the removal, the showing of
    /// the active workspace and a session save are queued.
    pub open spec fn close_outcome(&self, after: AppState, index: usize, closed: bool) -> bool {
        &&& after.wf()
        &&& if self.workspaces@.len() <= 1 {
            !closed && after.same_as(*self)
        } else {
            &&& closed
            &&& after.workspaces@ == self.workspaces@.remove(index as int)
            &&& after.split_engines@ == self.split_engines@.remove(index as int)
            &&& after.active_index == active_after_close(
                self.active_index as int,
                index as int,
                self.workspaces@.len() - 1,
            )
            &&& after.next_id == self.next_id
            &&& after.next_display_number == self.next_display_number
            &&& appended(self.pending@, after.pending@, 3)
            &&& after.pending@[self.pending@.len() as int] matches ViewAction::WorkspaceRemoved {
                index: i,
                page_name,
                surfaces,
            } && i == index && page_name@ == self.workspaces@[index as int].stack_page_name@
                && surfaces@ == self.split_engines@[index as int].root.surfaces()
            &&& after.shows(after.pending@[self.pending@.len() + 1int], after.active_index as int)
            &&& after.saves(after.pending@[self.pending@.len() + 2int])
        }
    }

    /// How `rename_active(new_name)` takes `self` to `after`: nothing changes
    /// when no workspace is visible; otherwise only the name of the visible
    /// workspace changes, and the new label and a session save are queued.
    pub open spec fn rename_outcome(&self, after: AppState, new_name: String) -> bool {
        &&& after.wf()
        &&& if self.active_index >= self.workspaces@.len() {
            after.same_as(*self)
        } else {
            let a = self.active_index as int;
            &&& after.workspaces@.len() == self.workspaces@.len()
            &&& after.workspaces@[a].name == new_name
            &&& after.workspaces@[a].id == self.workspaces@[a].id
            &&& after.workspaces@[a].uuid == self.workspaces@[a].uuid
            &&& after.workspaces@[a].stack_page_name == self.workspaces@[a].stack_page_name
            &&& after.workspaces@[a].display_number == self.workspaces@[a].display_number
            &&& forall|j: int|
                0 <= j < self.workspaces@.len() && j != a ==> after.workspaces@[j]
                    == self.workspaces@[j]
            &&& after.split_engines@ == self.split_engines@
            &&& after.active_index == self.active_index
            &&& after.next_id == self.next_id
            &&& after.next_display_number == self.next_display_number
            &&& appended(self.pending@, after.pending@, 2)
            &&& after.pending@[self.pending@.len() as int] matches ViewAction::WorkspaceRenamed {
                index,
                name,
            } && index == self.active_index && name@ == new_name@
            &&& after.saves(after.pending@[self.pending@.len() + 1int])
        }
    }
}

impl AppState {
    /// The index `switch_next` moves to: the following workspace, wrapping
    /// around to the first.
    pub open spec fn next_index(&self) -> int {
        (self.active_index + 1) % (self.workspaces@.len() as int)
    }

    /// The index `switch_prev` moves to: the preceding workspace, wrapping
    /// around to the last.
    pub open spec fn prev_index(&self) -> int {
        if self.active_index == 0 {
            self.workspaces@.len() - 1
        } else {
            self.active_index - 1
        }
    }

    /// Switches to the next workspace, wrapping around. Does nothing when
    /// there is no workspace.
    pub fn switch_next(&mut self)
        requires
            old(self).wf(),
        ensures
            old(self).next_outcome(*final(self)),

    {
        if self.workspaces.len() == 0 {
            return;
        }
        let next = (self.active_index + 1) % self.workspaces.len();
        self.switch_to_index(next);
    }

    /// Switches to the previous workspace, wrapping around. Does nothing when
    /// there is no workspace.
    pub fn switch_prev(&mut self)
        requires
            old(self).wf(),
        ensures
            old(self).prev_outcome(*final(self)),

    {
        if self.workspaces.len() == 0 {
            return;
        }
        let prev = if self.active_index == 0 {
            self.workspaces.len() - 1
        } else {
            self.active_index - 1
        };
        self.switch_to_index(prev);
    }

    /// The visible workspace, if any.
    pub fn active_workspace(&self) -> (ws: Option<&Workspace>)
        ensures
            ws == if self.active_index < self.workspaces@.len() {
                Some(&self.workspaces@[self.active_index as int])
            } else {
                None
            },
    {
        if self.active_index < self.workspaces.len() {
            Some(&self.workspaces[self.active_index])
        } else {
            None
        }
    }

    /// The layout engine of the visible workspace, for changing it in place;
    /// `None` when there is no visible workspace. Whatever the caller does
    /// through the reference lands in that engine; nothing else changes.
    pub fn active_split_engine_mut(&mut self) -> (e: Option<&mut SplitEngine>)
        ensures
            (e is Some) == (old(self).active_index < old(self).split_engines@.len()),
            e matches Some(r) ==> *r == old(self).split_engines@[old(self).active_index as int]
                && final(self).split_engines@ == old(self).split_engines@.update(
                old(self).active_index as int,
                *final(r),
            ),
            e is None ==> final(self).split_engines@ == old(self).split_engines@,
            final(self).workspaces@ == old(self).workspaces@,
            final(self).active_index == old(self).active_index,
            final(self).next_id == old(self).next_id,
            final(self).next_display_number == old(self).next_display_number,
            final(self).pending@ == old(self).pending@,
    {
        let i = self.active_index;
        if i < self.split_engines.len() {
            Some(&mut self.split_engines[i])
        } else {
            None
        }
    }


    /// The layout engine of the visible workspace, if any.
    pub fn active_split_engine(&self) -> (e: Option<&SplitEngine>)
        ensures
            e == if self.active_index < self.split_engines@.len() {
                Some(&self.split_engines@[self.active_index as int])
            } else {
                None
            },
    {
        if self.active_index < self.split_engines.len() {
            Some(&self.split_engines[self.active_index])
        } else {
            None
        }
    }

    /// The session snapshot of the current state: for each workspace its
    /// UUID as text and its name, with no active pane and a placeholder
    /// layout.
    pub fn session_snapshot(&self) -> (d: SessionData)
        ensures
            self.snapshot_matches(d),
    {
        let mut list: Vec<WorkspaceSession> = Vec::new();
        let mut i: usize = 0;
        while i < self.workspaces.len()
            invariant
                i <= self.workspaces@.len(),
                list@.len() == i,
                forall|j: int| 0 <= j < i ==> saved_form(#[trigger] list@[j], self.workspaces@[j]),
            decreases self.workspaces@.len() - i,
        {
            let ws = &self.workspaces[i];
            let entry = WorkspaceSession {
                uuid: uuid_to_string(ws.uuid),
                name: ws.name.clone(),
                active_pane_uuid: None,
                layout: SplitNodeData::Leaf {
                    pane_id: 0,
                    surface_uuid: 0,
                    shell: String::new(),
                    cwd: String::new(),
                },
            };
            list.push(entry);
            i = i + 1;
        }
        SessionData { version: 1, active_index: self.active_index, workspaces: list }
    }

    /// Queues a save of the current session snapshot. Call after any
    /// workspace or pane change.
    pub fn trigger_session_save(&mut self)
        ensures
            final(self).workspaces@ == old(self).workspaces@,
            final(self).split_engines@ == old(self).split_engines@,
            final(self).active_index == old(self).active_index,
            final(self).next_id == old(self).next_id,
            final(self).next_display_number == old(self).next_display_number,
            appended(old(self).pending@, final(self).pending@, 1),
            final(self).saves(final(self).pending@.last()),
    {
        let snapshot = self.session_snapshot();
        let ghost pre = self.pending@;
        self.pending.push(ViewAction::SessionChanged(snapshot));
        assert(self.pending@.subrange(0, pre.len() as int) =~= pre);
    }
}


impl AppState {
    /// Creates a workspace: allocates its id and display number, gives it a
    /// single pane with id `id * 1000`, appends it, makes it visible and
    /// queues a session save. Returns the new workspace id.
    pub fn create_workspace(&mut self) -> (id: u64)
        requires
            old(self).wf(),
            old(self).next_id < u64::MAX / 1000,
            old(self).next_display_number < u32::MAX,
        ensures
            old(self).create_outcome(*final(self), id),

    {
        let ghost pre = *self;
        let id = self.next_id;
        self.next_id = self.next_id + 1;
        let display_number = self.next_display_number;
        self.next_display_number = self.next_display_number + 1;
        let workspace = Workspace::new(id, display_number);
        let name = workspace.name.clone();
        let page_name = workspace.stack_page_name.clone();
        let pane_id = id * 1000;
        let engine = SplitEngine::new(pane_id);
        proof {
            let u = choose|u: u128| engine.root == crate::split_engine::fresh_leaf(pane_id, u);
            assert(engine.root.pane_ids() =~= seq![pane_id]);
        }
        self.pending.push(ViewAction::WorkspaceAdded { id, name, page_name, pane_id });
        self.workspaces.push(workspace);
        self.split_engines.push(engine);
        let ghost mid = *self;
        assert(mid.workspaces@.subrange(0, pre.workspaces@.len() as int) =~= pre.workspaces@);
        assert(mid.split_engines@.subrange(0, pre.split_engines@.len() as int)
            =~= pre.split_engines@);
        assert(mid.wf()) by {
            assert forall|i: int, j: int|
                0 <= i < mid.workspaces@.len() && 0 <= j < mid.workspaces@.len() && i != j
                    implies mid.workspaces@[i].id != mid.workspaces@[j].id by {
                if i < pre.workspaces@.len() && j < pre.workspaces@.len() {
                    assert(mid.workspaces@[i] == pre.workspaces@[i]);
                    assert(mid.workspaces@[j] == pre.workspaces@[j]);
                } else if i < pre.workspaces@.len() {
                    assert(mid.workspaces@[i] == pre.workspaces@[i]);
                    assert(pre.workspaces@[i].id < pre.next_id);
                } else if j < pre.workspaces@.len() {
                    assert(mid.workspaces@[j] == pre.workspaces@[j]);
                    assert(pre.workspaces@[j].id < pre.next_id);
                }
            }
            assert forall|i: int| 0 <= i < mid.workspaces@.len() implies #[trigger] mid.workspaces@[i].id
                < mid.next_id by {
                if i < pre.workspaces@.len() {
                    assert(mid.workspaces@[i] == pre.workspaces@[i]);
                }
            }
            assert forall|i: int| 0 <= i < mid.split_engines@.len() implies #[trigger] mid.split_engines@[i].wf() by {
                if i < pre.split_engines@.len() {
                    assert(mid.split_engines@[i] == pre.split_engines@[i]);
                }
            }
        }
        let new_index = self.workspaces.len() - 1;
        self.switch_to_index(new_index);
        let ghost m2 = *self;
        self.trigger_session_save();
        proof {
            assert(mid.pending@.subrange(0, pre.pending@.len() as int) =~= pre.pending@);
            lemma_appended_trans(pre.pending@, mid.pending@, m2.pending@, 1, 1);
            lemma_appended_trans(pre.pending@, m2.pending@, self.pending@, 2, 1);
        }
        id
    }

    /// Closes the workspace at `index` and queues the view work for it:
    /// the active index keeps pointing at the same workspace when another
    /// one is closed, and otherwise moves to the preceding workspace (or
    /// stays at 0). The previously active index is then shown again and a
    /// session save is queued. Returns false, changing nothing, when there is
    /// only one workspace (or none): the last workspace cannot be closed.
    pub fn close_workspace(&mut self, index: usize) -> (closed: bool)
        requires
            old(self).wf(),
            old(self).workspaces@.len() <= 1 || index < old(self).workspaces@.len(),
        ensures
            old(self).close_outcome(*final(self), index, closed),

    {
        if self.workspaces.len() <= 1 {
            return false;
        }
        let ghost pre = *self;
        let mut surfaces: Vec<usize> = Vec::new();
        self.split_engines[index].root.collect_surfaces(&mut surfaces);
        assert(surfaces@ =~= pre.split_engines@[index as int].root.surfaces());
        self.split_engines.remove(index);
        let workspace = self.workspaces.remove(index);
        let page_name = workspace.stack_page_name;
        self.pending.push(ViewAction::WorkspaceRemoved { index, page_name, surfaces });
        let len = self.workspaces.len();
        if self.active_index >= len {
            self.active_index = len - 1;
        } else if index <= self.active_index && self.active_index > 0 {
            self.active_index = self.active_index - 1;
        }
        let ghost mid = *self;
        assert(mid.wf()) by {
            let n = pre.workspaces@.len();
            assert forall|i: int| 0 <= i < n - 1 implies mid.workspaces@[i] == pre.workspaces@[if i
                < index {
                i
            } else {
                i + 1
            }] && mid.split_engines@[i] == pre.split_engines@[if i < index {
                i
            } else {
                i + 1
            }] by {}
            assert forall|i: int| 0 <= i < mid.split_engines@.len() implies #[trigger] mid.split_engines@[i].wf() by {
                if i >= index {
                    assert(mid.split_engines@[i] == pre.split_engines@[i + 1]);
                }
            }
            assert forall|i: int| 0 <= i < mid.workspaces@.len() implies #[trigger] mid.workspaces@[i].id
                < mid.next_id by {
                if i >= index {
                    assert(mid.workspaces@[i] == pre.workspaces@[i + 1]);
                }
            }
            assert forall|i: int, j: int|
                0 <= i < mid.workspaces@.len() && 0 <= j < mid.workspaces@.len() && i != j
                    implies mid.workspaces@[i].id != mid.workspaces@[j].id by {
                let si = if i < index {
                    i
                } else {
                    i + 1
                };
                let sj = if j < index {
                    j
                } else {
                    j + 1
                };
                assert(mid.workspaces@[i] == pre.workspaces@[si]);
                assert(mid.workspaces@[j] == pre.workspaces@[sj]);
            }
        }
        let active = self.active_index;
        self.switch_to_index(active);
        let ghost m2 = *self;
        self.trigger_session_save();
        proof {
            assert(mid.pending@.subrange(0, pre.pending@.len() as int) =~= pre.pending@);
            lemma_appended_trans(pre.pending@, mid.pending@, m2.pending@, 1, 1);
            lemma_appended_trans(pre.pending@, m2.pending@, self.pending@, 2, 1);
        }
        true
    }

    /// Renames the visible workspace, queues the new sidebar label and a
    /// session save. Does nothing when there is no visible workspace.
    pub fn rename_active(&mut self, new_name: String)
        requires
            old(self).wf(),
        ensures
            old(self).rename_outcome(*final(self), new_name),

    {
        if self.active_index >= self.workspaces.len() {
            return;
        }
        let ghost pre = *self;
        let index = self.active_index;
        let label = new_name.clone();
        let mut ws = self.workspaces.remove(index);
        ws.rename(new_name);
        self.workspaces.insert(index, ws);
        self.pending.push(ViewAction::WorkspaceRenamed { index, name: label });
        let ghost mid = *self;
        assert(mid.wf()) by {
            assert forall|j: int| 0 <= j < mid.workspaces@.len() && j != index implies mid.workspaces@[j]
                == pre.workspaces@[j] by {}
            assert forall|i: int, j: int|
                0 <= i < mid.workspaces@.len() && 0 <= j < mid.workspaces@.len() && i != j
                    implies mid.workspaces@[i].id != mid.workspaces@[j].id by {
                assert(mid.workspaces@[i].id == pre.workspaces@[i].id);
                assert(mid.workspaces@[j].id == pre.workspaces@[j].id);
            }
            assert forall|i: int| 0 <= i < mid.workspaces@.len() implies #[trigger] mid.workspaces@[i].id
                < mid.next_id by {
                assert(mid.workspaces@[i].id == pre.workspaces@[i].id);
            }
        }
        self.trigger_session_save();
        proof {
            assert(mid.pending@.subrange(0, pre.pending@.len() as int) =~= pre.pending@);
            lemma_appended_trans(pre.pending@, mid.pending@, self.pending@, 1, 1);
        }
    }
}


/// `after` is `before` with the first `count` saved workspaces `saved`
/// appended, in order: each with the next id and display number and its
/// saved name; earlier workspaces and layouts unchanged, earlier view work
/// still queued first.
pub open spec fn restored_from(before: AppState, after: AppState, saved: Seq<WorkspaceSession>, count: int) -> bool {
    let n0 = before.workspaces@.len() as int;
    &&& after.workspaces@.len() == n0 + count
    &&& after.workspaces@.subrange(0, n0) == before.workspaces@
    &&& after.split_engines@.subrange(0, n0) == before.split_engines@
    &&& forall|k: int|
        0 <= k < count ==> {
            &&& (#[trigger] after.workspaces@[n0 + k]).name == saved[k].name
            &&& after.workspaces@[n0 + k].id == before.next_id + k
            &&& after.workspaces@[n0 + k].display_number == before.next_display_number + k
            &&& after.workspaces@[n0 + k].stack_page_name@ == workspace_page_name((before.next_id + k) as nat)
            &&& after.split_engines@[n0 + k].root.pane_ids() == seq![((before.next_id + k) * 1000) as u64]
        }
    &&& after.next_id == before.next_id + count
    &&& after.next_display_number == before.next_display_number + count
    &&& after.pending@.len() >= before.pending@.len()
    &&& after.pending@.subrange(0, before.pending@.len() as int) == before.pending@
}

/// How many workspaces restoring `session` creates: one per saved
/// workspace, or a single default one when there is nothing to restore.
pub open spec fn restore_count(session: Option<&SessionData>) -> int {
    match session {
        Some(s) => if s.workspaces@.len() > 0 { s.workspaces@.len() as int } else { 1 },
        None => 1,
    }
}

impl AppState {
    /// Brings back a saved session at startup: one workspace per saved
    /// workspace, named as saved, then the saved active workspace (clamped
    /// to the last one) is shown. Without a session, or with one that holds
    /// no workspace, a single default workspace is created instead.
    pub fn restore_session(&mut self, session: Option<&SessionData>)
        requires
            old(self).wf(),
            old(self).next_id + restore_count(session) < u64::MAX / 1000,
            old(self).next_display_number + restore_count(session) < u32::MAX,
        ensures
            final(self).wf(),
            match session {
                Some(s) => if s.workspaces@.len() > 0 {
                    &&& restored_from(*old(self), *final(self), s.workspaces@, s.workspaces@.len() as int)
                    &&& final(self).active_index == s.restored_index()
                    &&& final(self).pending@.len() == old(self).pending@.len() + 5 * s.workspaces@.len() + 1
                } else {
                    old(self).create_outcome(*final(self), old(self).next_id)
                },
                None => old(self).create_outcome(*final(self), old(self).next_id),
            },
    {
        let has_session = match session {
            Some(s) => s.workspaces.len() > 0,
            None => false,
        };
        if !has_session {
            self.create_workspace();
            return;
        }
        let s = session.unwrap();
        let ghost pre = *self;
        let n = s.workspaces.len();
        let mut i: usize = 0;
        proof {
            let n0 = pre.workspaces@.len() as int;
            assert(pre.workspaces@.subrange(0, n0) =~= pre.workspaces@);
            assert(pre.split_engines@.subrange(0, n0) =~= pre.split_engines@);
            assert(pre.pending@.subrange(0, pre.pending@.len() as int) =~= pre.pending@);
        }
        while i < n
            invariant
                n == s.workspaces@.len(),
                i <= n,
                self.wf(),
                pre.next_id + n < u64::MAX / 1000,
                pre.next_display_number + n < u32::MAX,
                restored_from(pre, *self, s.workspaces@, i as int),
                self.pending@.len() == pre.pending@.len() + 5 * i,
            decreases n - i,
        {
            let ghost before = *self;
            self.create_workspace();
            let ghost created = *self;
            self.rename_active(s.workspaces[i].name.clone());
            proof {
                let n0 = pre.workspaces@.len() as int;
                let a = created.active_index as int;
                assert(a == n0 + i);
                assert(created.workspaces@.subrange(0, before.workspaces@.len() as int) == before.workspaces@);
                assert forall|k: int| 0 <= k < n0 + i implies self.workspaces@[k] == before.workspaces@[k] by {
                    assert(self.workspaces@[k] == created.workspaces@[k]);
                    assert(created.workspaces@.subrange(0, before.workspaces@.len() as int)[k] == created.workspaces@[k]);
                }
                assert(self.workspaces@.subrange(0, n0) =~= pre.workspaces@) by {
                    assert forall|k: int| 0 <= k < n0 implies self.workspaces@[k] == pre.workspaces@[k] by {
                        assert(before.workspaces@.subrange(0, n0)[k] == before.workspaces@[k]);
                    }
                }
                assert(self.split_engines@.subrange(0, n0) =~= pre.split_engines@) by {
                    assert forall|k: int| 0 <= k < n0 implies self.split_engines@[k] == pre.split_engines@[k] by {
                        assert(before.split_engines@.subrange(0, n0)[k] == before.split_engines@[k]);
                        assert(created.split_engines@.subrange(0, before.split_engines@.len() as int)[k] == created.split_engines@[k]);
                    }
                }
                assert forall|k: int| 0 <= k < i + 1 implies {
                    &&& (#[trigger] self.workspaces@[n0 + k]).name == s.workspaces@[k].name
                    &&& self.workspaces@[n0 + k].id == pre.next_id + k
                    &&& self.workspaces@[n0 + k].display_number == pre.next_display_number + k
                    &&& self.workspaces@[n0 + k].stack_page_name@ == workspace_page_name((pre.next_id + k) as nat)
                    &&& self.split_engines@[n0 + k].root.pane_ids() == seq![((pre.next_id + k) * 1000) as u64]
                } by {
                    if k < i {
                        assert(self.workspaces@[n0 + k] == before.workspaces@[n0 + k]);
                        assert(created.split_engines@.subrange(0, before.split_engines@.len() as int)[n0 + k]
                            == created.split_engines@[n0 + k]);
                    }
                }
                assert(self.pending@.subrange(0, pre.pending@.len() as int) =~= pre.pending@) by {
                    assert forall|k: int| 0 <= k < pre.pending@.len() implies self.pending@[k] == pre.pending@[k] by {
                        assert(before.pending@.subrange(0, pre.pending@.len() as int)[k] == before.pending@[k]);
                        assert(created.pending@.subrange(0, before.pending@.len() as int)[k] == created.pending@[k]);
                        assert(self.pending@.subrange(0, created.pending@.len() as int)[k] == self.pending@[k]);
                    }
                }
            }
            i = i + 1;
        }
        let active = s.restored_active_index();
        self.switch_to_index(active);
        assert(self.pending@.subrange(0, pre.pending@.len() as int) =~= pre.pending@);
    }
}

/// Where the workspace at position `i` after a move from `from` to `to` was
/// before the move.
pub open spec fn position_before_move(i: int, from: int, to: int) -> int {
    if i == to {
        from
    } else {
        let j = if i < to {
            i
        } else {
            i - 1
        };
        if j < from {
            j
        } else {
            j + 1
        }
    }
}

/// Where the active index goes when the workspace at `from` moves to `to`.
pub open spec fn active_after_move(active: int, from: int, to: int) -> int {
    if from == active {
        to
    } else if from < active && to >= active {
        active - 1
    } else if from > active && to <= active {
        active + 1
    } else {
        active
    }
}

proof fn lemma_move_positions<T>(s: Seq<T>, from: int, to: int, x: T)
    requires
        0 <= from < s.len(),
        0 <= to < s.len(),
        x == s[from],
    ensures
        s.remove(from).insert(to, x).len() == s.len(),
        forall|i: int|
            0 <= i < s.len() ==> #[trigger] s.remove(from).insert(to, x)[i] == s[position_before_move(
                i,
                from,
                to,
            )],
        forall|i: int| 0 <= i < s.len() ==> 0 <= #[trigger] position_before_move(i, from, to) < s.len(),
        forall|i: int, k: int|
            0 <= i < s.len() && 0 <= k < s.len() && i != k ==> position_before_move(i, from, to)
                != position_before_move(k, from, to),
{
    s.remove_ensures(from);
    s.remove(from).insert_ensures(to, x);
}

impl AppState {
    /// How `reorder_workspace(from, position)` takes `self` to `after`: the
    /// workspace and its layout move from `from` to `position` clamped to
    /// the last index, the active index follows the workspace it pointed at,
    /// and nothing is queued.
    pub open spec fn reorder_outcome(&self, after: AppState, from: usize, position: usize) -> bool {
        let to = if position < self.workspaces@.len() - 1 {
            position as int
        } else {
            self.workspaces@.len() - 1
        };
        &&& after.wf()
        &&& after.workspaces@ == self.workspaces@.remove(from as int).insert(
            to,
            self.workspaces@[from as int],
        )
        &&& after.split_engines@ == self.split_engines@.remove(from as int).insert(
            to,
            self.split_engines@[from as int],
        )
        &&& after.active_index == active_after_move(self.active_index as int, from as int, to)
        &&& after.pending@ == self.pending@
        &&& after.next_id == self.next_id
        &&& after.next_display_number == self.next_display_number
    }

    /// Moves the workspace at `from` to `position` (clamped to the last
    /// index). The active index follows the workspace it pointed at.
    pub fn reorder_workspace(&mut self, from: usize, position: usize)
        requires
            old(self).wf(),
            from < old(self).workspaces@.len(),
        ensures
            old(self).reorder_outcome(*final(self), from, position),

    {
        let ghost pre = *self;
        let n = self.workspaces.len();
        let last = if n == 0 {
            0
        } else {
            n - 1
        };
        let to = if position < last {
            position
        } else {
            last
        };
        let ws = self.workspaces.remove(from);
        let engine = self.split_engines.remove(from);
        self.workspaces.insert(to, ws);
        self.split_engines.insert(to, engine);
        if from == self.active_index {
            self.active_index = to;
        } else if from < self.active_index && to >= self.active_index {
            self.active_index = self.active_index - 1;
        } else if from > self.active_index && to <= self.active_index {
            self.active_index = self.active_index + 1;
        }
        proof {
            lemma_move_positions(pre.workspaces@, from as int, to as int, pre.workspaces@[from as int]);
            lemma_move_positions(
                pre.split_engines@,
                from as int,
                to as int,
                pre.split_engines@[from as int],
            );
            assert forall|i: int| 0 <= i < self.split_engines@.len() implies #[trigger] self.split_engines@[i].wf() by {
                assert(self.split_engines@[i] == pre.split_engines@[position_before_move(i, from as int, to as int)]);
            }
            assert forall|i: int| 0 <= i < self.workspaces@.len() implies #[trigger] self.workspaces@[i].id
                < self.next_id by {
                assert(self.workspaces@[i] == pre.workspaces@[position_before_move(i, from as int, to as int)]);
            }
            assert forall|i: int, j: int|
                0 <= i < self.workspaces@.len() && 0 <= j < self.workspaces@.len() && i != j
                    implies self.workspaces@[i].id != self.workspaces@[j].id by {
                assert(self.workspaces@[i] == pre.workspaces@[position_before_move(i, from as int, to as int)]);
                assert(self.workspaces@[j] == pre.workspaces@[position_before_move(j, from as int, to as int)]);
            }
        }
    }
}

/// Law: moving a workspace keeps the same workspace visible: the active
/// index after the move points at the workspace it pointed at before.
pub proof fn law_reorder_keeps_active(ws: Seq<Workspace>, active: int, from: int, to: int)
    requires
        0 <= active < ws.len(),
        0 <= from < ws.len(),
        0 <= to < ws.len(),
    ensures
        ws.remove(from).insert(to, ws[from])[active_after_move(active, from, to)] == ws[active],
{
    lemma_move_positions(ws, from, to, ws[from]);
    assert(position_before_move(active_after_move(active, from, to), from, to) == active);
}

/// Law: closing a workspace other than the visible one keeps the same
/// workspace visible.
pub proof fn law_close_keeps_other_active(ws: Seq<Workspace>, active: int, index: int)
    requires
        ws.len() >= 2,
        0 <= active < ws.len(),
        0 <= index < ws.len(),
        index != active,
    ensures
        ws.remove(index)[active_after_close(active, index, ws.len() - 1)] == ws[active],
{
    ws.remove_ensures(index);
}

/// Law: closing a workspace leaves the active index pointing at a remaining
/// workspace: the one before the closed one when the visible one was
/// closed, or the first one.
pub proof fn law_close_active_moves_back(len: int, active: int)
    requires
        len >= 2,
        0 <= active < len,
    ensures
        0 <= active_after_close(active, active, len - 1) < len - 1,
        active_after_close(active, active, len - 1) == if active > 0 {
            active - 1
        } else {
            0
        },
{
}

/// Law: switching to the next workspace and then to the previous one comes
/// back to the workspace one started from, and so does the reverse.
pub proof fn law_next_prev_round_trip(s: AppState)
    requires
        s.wf(),
        s.workspaces@.len() > 0,
    ensures
        ({
            let n = s.workspaces@.len() as int;
            let nx = s.next_index();
            let pv = s.prev_index();
            &&& 0 <= nx < n
            &&& 0 <= pv < n
            &&& (if nx == 0 {
                n - 1
            } else {
                nx - 1
            }) == s.active_index
            &&& (pv + 1) % n == s.active_index
        }),
{
    let n = s.workspaces@.len() as int;
    let a = s.active_index as int;
    assert((a + 1) % n == if a + 1 < n { a + 1 } else { 0 }) by (nonlinear_arith)
        requires
            0 <= a < n,
    {
        if a + 1 == n {
            assert((a + 1) % n == 0);
        }
    }
    let pv = s.prev_index();
    assert((pv + 1) % n == if pv + 1 < n { pv + 1 } else { 0 }) by (nonlinear_arith)
        requires
            0 <= pv < n,
    {
        if pv + 1 == n {
            assert((pv + 1) % n == 0);
        }
    }
}


/// Saving then restoring brings the workspaces back: restoring the snapshot
/// of a state with workspaces into a state without any gives the same
/// number of workspaces, with the same names in the same order, and the same
/// workspace visible.
pub proof fn law_restore_reproduces_snapshot(
    saved: AppState,
    d: SessionData,
    fresh: AppState,
    restored: AppState,
)
    requires
        saved.wf(),
        saved.workspaces@.len() > 0,
        saved.snapshot_matches(d),
        fresh.workspaces@.len() == 0,
        restored_from(fresh, restored, d.workspaces@, d.workspaces@.len() as int),
        restored.active_index == d.restored_index(),
    ensures
        restored.workspaces@.len() == saved.workspaces@.len(),
        forall|i: int|
            0 <= i < saved.workspaces@.len() ==> (#[trigger] restored.workspaces@[i]).name@
                == saved.workspaces@[i].name@,
        restored.active_index == saved.active_index,
{
    assert forall|i: int| 0 <= i < saved.workspaces@.len() implies (#[trigger] restored.workspaces@[i]).name@
        == saved.workspaces@[i].name@ by {
        assert(restored.workspaces@[0 + i].name == d.workspaces@[i].name);
        assert(saved_form(d.workspaces@[i], saved.workspaces@[i]));
    }
}


/// Whether every workspace of `after` comes, together with its layout
/// engine, from one position of `before`: the workspace and the engine at
/// position `i` of `after` are the workspace and the engine at one same
/// position `j` of `before`.
pub open spec fn pairs_kept(before: AppState, after: AppState) -> bool {
    forall|i: int|
        0 <= i < after.workspaces@.len() ==> exists|j: int|
            0 <= j < before.workspaces@.len() && #[trigger] after.workspaces@[i] == before.workspaces@[j]
                && after.split_engines@[i] == before.split_engines@[j]
}

/// Law: moving a workspace moves its layout with it. After a reorder the
/// workspaces are those of before, each still with its own layout engine,
/// every one of them still present, and the same workspace is visible.
pub proof fn law_reorder_keeps_layouts(before: AppState, after: AppState, from: usize, position: usize)
    requires
        before.wf(),
        from < before.workspaces@.len(),
        before.reorder_outcome(after, from, position),
    ensures
        after.workspaces@.len() == before.workspaces@.len(),
        pairs_kept(before, after),
        forall|j: int|
            0 <= j < before.workspaces@.len() ==> exists|i: int|
                0 <= i < after.workspaces@.len() && after.workspaces@[i] == #[trigger] before.workspaces@[j]
                    && after.split_engines@[i] == before.split_engines@[j],
        after.workspaces@[after.active_index as int] == before.workspaces@[before.active_index as int],
        after.split_engines@[after.active_index as int] == before.split_engines@[before.active_index as int],
{
    let n = before.workspaces@.len() as int;
    let f = from as int;
    let to = if position < n - 1 {
        position as int
    } else {
        n - 1
    };
    lemma_move_positions(before.workspaces@, f, to, before.workspaces@[f]);
    lemma_move_positions(before.split_engines@, f, to, before.split_engines@[f]);
    assert forall|i: int| 0 <= i < after.workspaces@.len() implies exists|j: int|
        0 <= j < before.workspaces@.len() && #[trigger] after.workspaces@[i] == before.workspaces@[j]
            && after.split_engines@[i] == before.split_engines@[j] by {
        let j = position_before_move(i, f, to);
        assert(after.workspaces@[i] == before.workspaces@[j]);
        assert(after.split_engines@[i] == before.split_engines@[j]);
    }
    assert forall|j: int| 0 <= j < before.workspaces@.len() implies exists|i: int|
        0 <= i < after.workspaces@.len() && after.workspaces@[i] == #[trigger] before.workspaces@[j]
            && after.split_engines@[i] == before.split_engines@[j] by {
        let i = active_after_move(j, f, to);
        assert(0 <= i < n);
        assert(position_before_move(i, f, to) == j);
        assert(after.workspaces@[i] == before.workspaces@[j]);
    }
    let a = before.active_index as int;
    assert(position_before_move(active_after_move(a, f, to), f, to) == a);
}

/// Law: closing a workspace removes it together with its layout; every
/// remaining workspace keeps its own layout engine.
pub proof fn law_close_keeps_layouts(before: AppState, after: AppState, index: usize, closed: bool)
    requires
        before.wf(),
        before.workspaces@.len() <= 1 || index < before.workspaces@.len(),
        before.close_outcome(after, index, closed),
    ensures
        pairs_kept(before, after),
        closed ==> after.workspaces@.len() == before.workspaces@.len() - 1 && forall|i: int|
            0 <= i < after.workspaces@.len() ==> (#[trigger] after.workspaces@[i]).id
                != before.workspaces@[index as int].id,
{
    assert forall|i: int| 0 <= i < after.workspaces@.len() implies exists|j: int|
        0 <= j < before.workspaces@.len() && #[trigger] after.workspaces@[i] == before.workspaces@[j]
            && after.split_engines@[i] == before.split_engines@[j] by {
        if closed {
            let j = if i < index { i } else { i + 1 };
            assert(after.workspaces@[i] == before.workspaces@[j]);
            assert(after.split_engines@[i] == before.split_engines@[j]);
        } else {
            assert(after.workspaces@[i] == before.workspaces@[i]);
        }
    }
    if closed {
        assert forall|i: int| 0 <= i < after.workspaces@.len() implies (#[trigger] after.workspaces@[i]).id
            != before.workspaces@[index as int].id by {
            let j = if i < index { i } else { i + 1 };
            assert(after.workspaces@[i] == before.workspaces@[j]);
        }
    }
}

} // verus!
