//! Keyboard shortcut handling: what each shortcut does to the application
//! state. Looking the key up and performing the queued view work is the
//! window's business.
use vstd::prelude::*;
use crate::app_state::{AppState, ViewAction, appended};
use crate::ids::is_v4_uuid;
use crate::split_engine::{FocusDirection, Orientation};

verus! {

/// The orientation of a split: vertical (one pane above the other) when
/// `vertical`, horizontal otherwise.
pub open spec fn split_orientation(vertical: bool) -> Orientation {
    if vertical {
        Orientation::Vertical
    } else {
        Orientation::Horizontal
    }
}

/// The active pane of the visible workspace was split: `vertical` chooses a
/// split downward, otherwise to the right. When the split happens, the
/// split is queued for the view.
pub open spec fn split_pane_outcome(
    before: AppState,
    after: AppState,
    vertical: bool,
    registry: Seq<(usize, u64)>,
    r: Option<u64>,
) -> bool {
    &&& after.wf()
    &&& if before.active_index >= before.split_engines@.len() {
        r is None && after.same_as(before)
    } else {
        let i = before.active_index as int;
        let e = before.split_engines@[i];
        &&& after.split_engines@ == before.split_engines@.update(i, after.split_engines@[i])
        &&& exists|u: u128|
            is_v4_uuid(u) && e.split_outcome(after.split_engines@[i], split_orientation(vertical), u, registry, r)
        &&& after.workspaces@ == before.workspaces@
        &&& after.active_index == before.active_index
        &&& after.next_id == before.next_id
        &&& after.next_display_number == before.next_display_number
        &&& match r {
            None => after.pending@ == before.pending@,
            Some(n) => appended(before.pending@, after.pending@, 1)
                && after.pending@.last() == ViewAction::PaneSplit {
                workspace_index: i as usize,
                split_pane: e.active_pane_id,
                inherited_surface: e.surface_lookup(e.active_pane_id, registry).unwrap(),
                new_pane_id: n,
            },
        }
    }
}

/// Splits the active pane of the visible workspace: downward when
/// `vertical`, otherwise to the right. Returns the new pane id, or `None`
/// when there is no workspace or no surface for the active pane.
pub fn handle_split(state: &mut AppState, vertical: bool, registry: &Vec<(usize, u64)>) -> (r: Option<u64>)
    requires
        old(state).wf(),
        old(state).active_index < old(state).split_engines@.len() ==> old(
            state,
        ).split_engines@[old(state).active_index as int].next_pane_id < u64::MAX,
    ensures
        split_pane_outcome(*old(state), *final(state), vertical, registry@, r),
{
    if state.active_index >= state.split_engines.len() {
        return None;
    }
    let i = state.active_index;
    let ghost pre_state = *state;
    let split_pane = state.split_engines[i].active_pane_id;
    let inherited = state.split_engines[i].find_surface(split_pane, registry);
    let r = if vertical {
        state.split_engines[i].split_down(registry)
    } else {
        state.split_engines[i].split_right(registry)
    };
    proof {
        let after_engines = state.split_engines@;
        assert(after_engines =~= pre_state.split_engines@.update(i as int, after_engines[i as int]));
        assert forall|j: int| 0 <= j < after_engines.len() implies #[trigger] after_engines[j].wf() by {
            if j != i {
                assert(after_engines[j] == pre_state.split_engines@[j]);
            }
        }
    }
    if let Some(new_pane_id) = r {
        let ghost pre = state.pending@;
        state.pending.push(ViewAction::PaneSplit {
            workspace_index: i,
            split_pane,
            inherited_surface: inherited.unwrap(),
            new_pane_id,
        });
        assert(state.pending@.subrange(0, pre.len() as int) =~= pre);
    }
    proof {
        let e = pre_state.split_engines@[i as int];
        let o = split_orientation(vertical);
        assert(state.wf());
        assert(exists|u: u128| is_v4_uuid(u) && e.split_outcome(state.split_engines@[i as int], o, u, registry@, r));
        assert(inherited == e.surface_lookup(e.active_pane_id, registry@));
    }
    r
}


/// Actions that keyboard shortcuts are bound to.
#[derive(Debug, Clone, Copy, PartialEq, Eq, Structural)]
pub enum ShortcutAction {
    NewWorkspace,
    CloseWorkspace,
    NextWorkspace,
    PrevWorkspace,
    RenameWorkspace,
    ToggleSidebar,
    SplitRight,
    SplitDown,
    ClosePane,
    FocusLeft,
    FocusRight,
    FocusUp,
    FocusDown,
    Workspace1,
    Workspace2,
    Workspace3,
    Workspace4,
    Workspace5,
    Workspace6,
    Workspace7,
    Workspace8,
    Workspace9,
}

/// GDK key values the default bindings use (lower-case letters, digits,
/// brackets and braces, Tab, Shift+Tab and the arrows).
pub const KEY_B: u32 = 0x62;
pub const KEY_D: u32 = 0x64;
pub const KEY_R: u32 = 0x72;
pub const KEY_T: u32 = 0x74;
pub const KEY_W: u32 = 0x77;
pub const KEY_1: u32 = 0x31;
pub const KEY_8: u32 = 0x38;
pub const KEY_BRACKET_LEFT: u32 = 0x5b;
pub const KEY_BRACKET_RIGHT: u32 = 0x5d;
pub const KEY_BRACE_LEFT: u32 = 0x7b;
pub const KEY_BRACE_RIGHT: u32 = 0x7d;
pub const KEY_TAB: u32 = 0xff09;
pub const KEY_LEFT_TAB: u32 = 0xfe20;
pub const KEY_LEFT: u32 = 0xff51;
pub const KEY_UP: u32 = 0xff52;
pub const KEY_RIGHT: u32 = 0xff53;
pub const KEY_DOWN: u32 = 0xff54;

/// The numbered-workspace action of Ctrl+`n` (1 to 8).
pub open spec fn numbered_action(n: u32) -> ShortcutAction {
    if n == 1 {
        ShortcutAction::Workspace1
    } else if n == 2 {
        ShortcutAction::Workspace2
    } else if n == 3 {
        ShortcutAction::Workspace3
    } else if n == 4 {
        ShortcutAction::Workspace4
    } else if n == 5 {
        ShortcutAction::Workspace5
    } else if n == 6 {
        ShortcutAction::Workspace6
    } else if n == 7 {
        ShortcutAction::Workspace7
    } else {
        ShortcutAction::Workspace8
    }
}

/// The default key bindings, for a key press with the given modifiers and
/// key value (letters in lower case):
/// - Ctrl+Shift+T new workspace, Ctrl+Shift+W close workspace,
///   Ctrl+Shift+] / Ctrl+Shift+[ next / previous workspace, Ctrl+1 to Ctrl+8
///   jump to workspace 1 to 8, Ctrl+Shift+R rename workspace, Ctrl+B toggle
///   the sidebar;
/// - Ctrl+Shift+D split right, Ctrl+D split down, Ctrl+W close pane,
///   Ctrl+Tab / Ctrl+Shift+Tab next / previous pane, Ctrl+Alt+arrows move
///   the focus.
/// With Shift held, `]`, `[` and Tab may arrive as `}`, `{` and Left-Tab.
pub open spec fn default_binding(ctrl: bool, shift: bool, alt: bool, key: u32) -> Option<ShortcutAction> {
    if !ctrl {
        None
    } else if alt {
        if shift {
            None
        } else if key == KEY_LEFT {
            Some(ShortcutAction::FocusLeft)
        } else if key == KEY_RIGHT {
            Some(ShortcutAction::FocusRight)
        } else if key == KEY_UP {
            Some(ShortcutAction::FocusUp)
        } else if key == KEY_DOWN {
            Some(ShortcutAction::FocusDown)
        } else {
            None
        }
    } else if shift {
        if key == KEY_T {
            Some(ShortcutAction::NewWorkspace)
        } else if key == KEY_W {
            Some(ShortcutAction::CloseWorkspace)
        } else if key == KEY_D {
            Some(ShortcutAction::SplitRight)
        } else if key == KEY_R {
            Some(ShortcutAction::RenameWorkspace)
        } else if key == KEY_BRACKET_RIGHT || key == KEY_BRACE_RIGHT {
            Some(ShortcutAction::NextWorkspace)
        } else if key == KEY_BRACKET_LEFT || key == KEY_BRACE_LEFT {
            Some(ShortcutAction::PrevWorkspace)
        } else if key == KEY_TAB || key == KEY_LEFT_TAB {
            Some(ShortcutAction::FocusLeft)
        } else {
            None
        }
    } else if key == KEY_D {
        Some(ShortcutAction::SplitDown)
    } else if key == KEY_W {
        Some(ShortcutAction::ClosePane)
    } else if key == KEY_B {
        Some(ShortcutAction::ToggleSidebar)
    } else if key == KEY_TAB {
        Some(ShortcutAction::FocusRight)
    } else if KEY_1 <= key <= KEY_8 {
        Some(numbered_action((key - KEY_1 + 1) as u32))
    } else {
        None
    }
}

/// Looks a key press up in the default bindings (see `default_binding`).
pub fn lookup_shortcut(ctrl: bool, shift: bool, alt: bool, lower_keyval: u32) -> (r: Option<ShortcutAction>)
    ensures
        r == default_binding(ctrl, shift, alt, lower_keyval),
{
    let key = lower_keyval;
    if !ctrl {
        None
    } else if alt {
        if shift {
            None
        } else if key == KEY_LEFT {
            Some(ShortcutAction::FocusLeft)
        } else if key == KEY_RIGHT {
            Some(ShortcutAction::FocusRight)
        } else if key == KEY_UP {
            Some(ShortcutAction::FocusUp)
        } else if key == KEY_DOWN {
            Some(ShortcutAction::FocusDown)
        } else {
            None
        }
    } else if shift {
        if key == KEY_T {
            Some(ShortcutAction::NewWorkspace)
        } else if key == KEY_W {
            Some(ShortcutAction::CloseWorkspace)
        } else if key == KEY_D {
            Some(ShortcutAction::SplitRight)
        } else if key == KEY_R {
            Some(ShortcutAction::RenameWorkspace)
        } else if key == KEY_BRACKET_RIGHT || key == KEY_BRACE_RIGHT {
            Some(ShortcutAction::NextWorkspace)
        } else if key == KEY_BRACKET_LEFT || key == KEY_BRACE_LEFT {
            Some(ShortcutAction::PrevWorkspace)
        } else if key == KEY_TAB || key == KEY_LEFT_TAB {
            Some(ShortcutAction::FocusLeft)
        } else {
            None
        }
    } else if key == KEY_D {
        Some(ShortcutAction::SplitDown)
    } else if key == KEY_W {
        Some(ShortcutAction::ClosePane)
    } else if key == KEY_B {
        Some(ShortcutAction::ToggleSidebar)
    } else if key == KEY_TAB {
        Some(ShortcutAction::FocusRight)
    } else if KEY_1 <= key && key <= KEY_8 {
        let n = key - KEY_1 + 1;
        let a = if n == 1 {
            ShortcutAction::Workspace1
        } else if n == 2 {
            ShortcutAction::Workspace2
        } else if n == 3 {
            ShortcutAction::Workspace3
        } else if n == 4 {
            ShortcutAction::Workspace4
        } else if n == 5 {
            ShortcutAction::Workspace5
        } else if n == 6 {
            ShortcutAction::Workspace6
        } else if n == 7 {
            ShortcutAction::Workspace7
        } else {
            ShortcutAction::Workspace8
        };
        Some(a)
    } else {
        None
    }
}

/// What the key handler does after a key press was looked up.
#[derive(Debug, Clone, Copy, PartialEq, Eq, Structural)]
pub enum ShortcutResponse {
    /// Not a shortcut: the key goes on to the terminal.
    Proceed,
    /// Handled here; the key stops.
    Stop,
    /// Start renaming the sidebar row at `index` in place; the key stops.
    StartRename { index: usize },
    /// Toggle the sidebar's visibility and give the terminal its focus back;
    /// the key stops.
    ToggleSidebar,
}

/// The workspace index a numbered workspace shortcut jumps to (Workspace1
/// goes to index 0).
pub open spec fn numbered_index(action: ShortcutAction) -> Option<usize> {
    match action {
        ShortcutAction::Workspace1 => Some(0usize),
        ShortcutAction::Workspace2 => Some(1usize),
        ShortcutAction::Workspace3 => Some(2usize),
        ShortcutAction::Workspace4 => Some(3usize),
        ShortcutAction::Workspace5 => Some(4usize),
        ShortcutAction::Workspace6 => Some(5usize),
        ShortcutAction::Workspace7 => Some(6usize),
        ShortcutAction::Workspace8 => Some(7usize),
        ShortcutAction::Workspace9 => Some(8usize),
        _ => None,
    }
}

/// The workspace index a numbered workspace shortcut jumps to, if `action`
/// is one.
pub fn workspace_number_index(action: ShortcutAction) -> (r: Option<usize>)
    ensures
        r == numbered_index(action),
{
    match action {
        ShortcutAction::Workspace1 => Some(0),
        ShortcutAction::Workspace2 => Some(1),
        ShortcutAction::Workspace3 => Some(2),
        ShortcutAction::Workspace4 => Some(3),
        ShortcutAction::Workspace5 => Some(4),
        ShortcutAction::Workspace6 => Some(5),
        ShortcutAction::Workspace7 => Some(6),
        ShortcutAction::Workspace8 => Some(7),
        ShortcutAction::Workspace9 => Some(8),
        _ => None,
    }
}

/// The visible workspace is closed unless it is the last one.
pub open spec fn close_workspace_shortcut_outcome(before: AppState, after: AppState) -> bool {
    if before.workspaces@.len() <= 1 {
        after.same_as(before)
    } else {
        before.close_outcome(after, before.active_index, true)
    }
}

/// Closes the visible workspace, unless it is the only one.
pub fn handle_close_workspace(state: &mut AppState)
    requires
        old(state).wf(),
    ensures
        close_workspace_shortcut_outcome(*old(state), *final(state)),
{
    let active_index = state.active_index;
    let workspace_count = state.workspaces.len();
    if workspace_count <= 1 {
        return;
    }
    state.close_workspace(active_index);
}

/// Closing the active pane of the visible workspace: when the pane closes,
/// the close is queued for the view with the pane's surface (0 when it has
/// none); when it is the workspace's only pane, the whole workspace is
/// closed instead, unless it is the last one.
pub open spec fn close_pane_outcome(before: AppState, after: AppState, registry: Seq<(usize, u64)>) -> bool {
    &&& after.wf()
    &&& if before.active_index >= before.split_engines@.len() {
        after.same_as(before)
    } else {
        let i = before.active_index as int;
        let e = before.split_engines@[i];
        if e.root.is_leaf_with(e.active_pane_id) {
            close_workspace_shortcut_outcome(before, after)
        } else {
            &&& after.split_engines@ == before.split_engines@.update(i, after.split_engines@[i])
            &&& e.close_outcome(after.split_engines@[i], Some(after.split_engines@[i].active_pane_id))
            &&& after.workspaces@ == before.workspaces@
            &&& after.active_index == before.active_index
            &&& after.next_id == before.next_id
            &&& after.next_display_number == before.next_display_number
            &&& appended(before.pending@, after.pending@, 1)
            &&& after.pending@.last() == ViewAction::PaneClosed {
                workspace_index: i as usize,
                closed_pane: e.active_pane_id,
                closed_surface: match e.surface_lookup(e.active_pane_id, registry) {
                    Some(s) => s,
                    None => 0,
                },
                surviving_pane: after.split_engines@[i].active_pane_id,
            }
        }
    }
}

/// Closes the active pane of the visible workspace; when it is the
/// workspace's only pane, closes the workspace instead (unless it is the
/// last one). `registry` is consulted for the closed pane's surface when the
/// layout does not record one.
pub fn handle_close_pane(state: &mut AppState, registry: &Vec<(usize, u64)>)
    requires
        old(state).wf(),
    ensures
        close_pane_outcome(*old(state), *final(state), registry@),
{
    if state.active_index >= state.split_engines.len() {
        return;
    }
    let i = state.active_index;
    let ghost pre_state = *state;
    let closed_pane = state.split_engines[i].active_pane_id;
    let closed_surface = state.split_engines[i].find_surface(closed_pane, registry);
    let r = state.split_engines[i].close_active();
    proof {
        let after_engines = state.split_engines@;
        assert(after_engines =~= pre_state.split_engines@.update(i as int, after_engines[i as int]));
        assert forall|j: int| 0 <= j < after_engines.len() implies #[trigger] after_engines[j].wf() by {
            if j != i {
                assert(after_engines[j] == pre_state.split_engines@[j]);
            }
        }
    }
    match r {
        None => {
            proof {
                assert(state.split_engines@ =~= pre_state.split_engines@);
            }
            handle_close_workspace(state);
        },
        Some(surviving_pane) => {
            let ghost pre = state.pending@;
            state.pending.push(ViewAction::PaneClosed {
                workspace_index: i,
                closed_pane,
                closed_surface: match closed_surface {
                    Some(s) => s,
                    None => 0,
                },
                surviving_pane,
            });
            assert(state.pending@.subrange(0, pre.len() as int) =~= pre);
        },
    }
}

/// Moving the focus in the visible workspace: when it moves, the move is
/// queued for the view.
pub open spec fn focus_move_outcome(
    before: AppState,
    after: AppState,
    direction: FocusDirection,
    moved: bool,
) -> bool {
    &&& after.wf()
    &&& if before.active_index >= before.split_engines@.len() {
        !moved && after.same_as(before)
    } else {
        let i = before.active_index as int;
        let e = before.split_engines@[i];
        &&& after.split_engines@ == before.split_engines@.update(i, after.split_engines@[i])
        &&& e.focus_outcome(after.split_engines@[i], direction, moved)
        &&& after.workspaces@ == before.workspaces@
        &&& after.active_index == before.active_index
        &&& after.next_id == before.next_id
        &&& after.next_display_number == before.next_display_number
        &&& if moved {
            appended(before.pending@, after.pending@, 1) && after.pending@.last()
                == ViewAction::FocusMoved {
                workspace_index: i as usize,
                from_pane: e.active_pane_id,
                to_pane: after.split_engines@[i].active_pane_id,
            }
        } else {
            after.pending@ == before.pending@
        }
    }
}

/// Moves the focus to the pane adjacent to the active one in `direction`
/// in the visible workspace. Returns whether it moved.
pub fn handle_focus_direction(state: &mut AppState, direction: FocusDirection) -> (moved: bool)
    requires
        old(state).wf(),
    ensures
        focus_move_outcome(*old(state), *final(state), direction, moved),
{
    if state.active_index >= state.split_engines.len() {
        return false;
    }
    let i = state.active_index;
    let ghost pre_state = *state;
    let from_pane = state.split_engines[i].active_pane_id;
    let moved = state.split_engines[i].focus_next_in_direction(direction);
    proof {
        let after_engines = state.split_engines@;
        assert(after_engines =~= pre_state.split_engines@.update(i as int, after_engines[i as int]));
        assert forall|j: int| 0 <= j < after_engines.len() implies #[trigger] after_engines[j].wf() by {
            if j != i {
                assert(after_engines[j] == pre_state.split_engines@[j]);
            }
        }
    }
    if moved {
        let to_pane = state.split_engines[i].active_pane_id;
        let ghost pre = state.pending@;
        state.pending.push(ViewAction::FocusMoved { workspace_index: i, from_pane, to_pane });
        assert(state.pending@.subrange(0, pre.len() as int) =~= pre);
    }
    moved
}


/// Creates a new workspace with its first pane and makes it visible.
pub fn handle_new_workspace(state: &mut AppState) -> (id: u64)
    requires
        old(state).wf(),
        old(state).next_id < u64::MAX / 1000,
        old(state).next_display_number < u32::MAX,
    ensures
        old(state).create_outcome(*final(state), id),
{
    state.create_workspace()
}

/// What a shortcut needs of the state besides well-formedness: room for one
/// more workspace id and display number for a new workspace, and room for
/// one more pane id in the visible workspace for a split.
pub open spec fn shortcut_ready(state: AppState, action: Option<ShortcutAction>) -> bool {
    match action {
        Some(ShortcutAction::NewWorkspace) => state.next_id < u64::MAX / 1000
            && state.next_display_number < u32::MAX,
        Some(ShortcutAction::SplitRight) | Some(ShortcutAction::SplitDown) => state.active_index
            < state.split_engines@.len() ==> state.split_engines@[state.active_index as int].next_pane_id
            < u64::MAX,
        _ => true,
    }
}

/// What the shortcut `action` (`None`: the key is not a shortcut) does to
/// the state and how the key handler goes on.
pub open spec fn shortcut_outcome(
    before: AppState,
    after: AppState,
    action: Option<ShortcutAction>,
    registry: Seq<(usize, u64)>,
    response: ShortcutResponse,
) -> bool {
    match action {
        None => response == ShortcutResponse::Proceed && after.same_as(before),
        Some(a) => match a {
            ShortcutAction::NewWorkspace => response == ShortcutResponse::Stop
                && before.create_outcome(after, before.next_id),
            ShortcutAction::CloseWorkspace => response == ShortcutResponse::Stop
                && close_workspace_shortcut_outcome(before, after),
            ShortcutAction::NextWorkspace => response == ShortcutResponse::Stop
                && before.next_outcome(after),
            ShortcutAction::PrevWorkspace => response == ShortcutResponse::Stop
                && before.prev_outcome(after),
            ShortcutAction::RenameWorkspace => response == (ShortcutResponse::StartRename {
                index: before.active_index,
            }) && after.same_as(before),
            ShortcutAction::ToggleSidebar => response == ShortcutResponse::ToggleSidebar
                && after.same_as(before),
            ShortcutAction::SplitRight => response == ShortcutResponse::Stop && exists|
                r: Option<u64>,
            | split_pane_outcome(before, after, false, registry, r),
            ShortcutAction::SplitDown => response == ShortcutResponse::Stop && exists|
                r: Option<u64>,
            | split_pane_outcome(before, after, true, registry, r),
            ShortcutAction::ClosePane => response == ShortcutResponse::Stop && close_pane_outcome(
                before,
                after,
                registry,
            ),
            ShortcutAction::FocusLeft => response == ShortcutResponse::Stop && exists|moved: bool|
                focus_move_outcome(before, after, FocusDirection::Left, moved),
            ShortcutAction::FocusRight => response == ShortcutResponse::Stop && exists|moved: bool|
                focus_move_outcome(before, after, FocusDirection::Right, moved),
            ShortcutAction::FocusUp => response == ShortcutResponse::Stop && exists|moved: bool|
                focus_move_outcome(before, after, FocusDirection::Up, moved),
            ShortcutAction::FocusDown => response == ShortcutResponse::Stop && exists|moved: bool|
                focus_move_outcome(before, after, FocusDirection::Down, moved),
            _ => response == ShortcutResponse::Stop && before.switch_outcome(
                after,
                numbered_index(a).unwrap(),
            ),
        },
    }
}

/// Performs the shortcut `action` (`None` when the key press is not a
/// shortcut) and tells the key handler how to go on.
pub fn apply_shortcut(
    state: &mut AppState,
    action: Option<ShortcutAction>,
    registry: &Vec<(usize, u64)>,
) -> (response: ShortcutResponse)
    requires
        old(state).wf(),
        shortcut_ready(*old(state), action),
    ensures
        shortcut_outcome(*old(state), *final(state), action, registry@, response),
{
    let a = match action {
        None => {
            return ShortcutResponse::Proceed;
        },
        Some(a) => a,
    };
    match a {
        ShortcutAction::NewWorkspace => {
            handle_new_workspace(state);
            ShortcutResponse::Stop
        },
        ShortcutAction::CloseWorkspace => {
            handle_close_workspace(state);
            ShortcutResponse::Stop
        },
        ShortcutAction::NextWorkspace => {
            state.switch_next();
            ShortcutResponse::Stop
        },
        ShortcutAction::PrevWorkspace => {
            state.switch_prev();
            ShortcutResponse::Stop
        },
        ShortcutAction::RenameWorkspace => ShortcutResponse::StartRename {
            index: state.active_index,
        },
        ShortcutAction::ToggleSidebar => ShortcutResponse::ToggleSidebar,
        ShortcutAction::SplitRight => {
            handle_split(state, false, registry);
            ShortcutResponse::Stop
        },
        ShortcutAction::SplitDown => {
            handle_split(state, true, registry);
            ShortcutResponse::Stop
        },
        ShortcutAction::ClosePane => {
            handle_close_pane(state, registry);
            ShortcutResponse::Stop
        },
        ShortcutAction::FocusLeft => {
            handle_focus_direction(state, FocusDirection::Left);
            ShortcutResponse::Stop
        },
        ShortcutAction::FocusRight => {
            handle_focus_direction(state, FocusDirection::Right);
            ShortcutResponse::Stop
        },
        ShortcutAction::FocusUp => {
            handle_focus_direction(state, FocusDirection::Up);
            ShortcutResponse::Stop
        },
        ShortcutAction::FocusDown => {
            handle_focus_direction(state, FocusDirection::Down);
            ShortcutResponse::Stop
        },
        _ => {
            let idx = workspace_number_index(a).unwrap();
            state.switch_to_index(idx);
            ShortcutResponse::Stop
        },
    }
}


/// The direction of an arrow key.
pub open spec fn arrow_direction(key: u32) -> Option<FocusDirection> {
    if key == KEY_LEFT {
        Some(FocusDirection::Left)
    } else if key == KEY_RIGHT {
        Some(FocusDirection::Right)
    } else if key == KEY_UP {
        Some(FocusDirection::Up)
    } else if key == KEY_DOWN {
        Some(FocusDirection::Down)
    } else {
        None
    }
}

/// The direction a focus action is named for.
pub open spec fn action_direction(a: ShortcutAction) -> Option<FocusDirection> {
    match a {
        ShortcutAction::FocusLeft => Some(FocusDirection::Left),
        ShortcutAction::FocusRight => Some(FocusDirection::Right),
        ShortcutAction::FocusUp => Some(FocusDirection::Up),
        ShortcutAction::FocusDown => Some(FocusDirection::Down),
        _ => None,
    }
}

/// Law: Ctrl+Alt with an arrow key is bound to the focus action named for
/// that arrow, different arrows to different actions, and performing it
/// moves the focus in the arrow's direction.
pub proof fn law_arrow_bindings(
    key: u32,
    other: u32,
    before: AppState,
    after: AppState,
    registry: Seq<(usize, u64)>,
    response: ShortcutResponse,
)
    requires
        before.wf(),
        arrow_direction(key) is Some,
        shortcut_outcome(before, after, default_binding(true, false, true, key), registry, response),
    ensures
        default_binding(true, false, true, key) is Some,
        action_direction(default_binding(true, false, true, key).unwrap()) == arrow_direction(key),
        arrow_direction(other) is Some && other != key ==> default_binding(true, false, true, other)
            != default_binding(true, false, true, key),
        response == ShortcutResponse::Stop,
        exists|moved: bool| focus_move_outcome(before, after, arrow_direction(key).unwrap(), moved),
{
    if key == KEY_LEFT {
        assert(default_binding(true, false, true, key) == Some(ShortcutAction::FocusLeft));
        let m = choose|m: bool| focus_move_outcome(before, after, FocusDirection::Left, m);
        assert(focus_move_outcome(before, after, arrow_direction(key).unwrap(), m));
    } else if key == KEY_RIGHT {
        assert(default_binding(true, false, true, key) == Some(ShortcutAction::FocusRight));
        let m = choose|m: bool| focus_move_outcome(before, after, FocusDirection::Right, m);
        assert(focus_move_outcome(before, after, arrow_direction(key).unwrap(), m));
    } else if key == KEY_UP {
        assert(default_binding(true, false, true, key) == Some(ShortcutAction::FocusUp));
        let m = choose|m: bool| focus_move_outcome(before, after, FocusDirection::Up, m);
        assert(focus_move_outcome(before, after, arrow_direction(key).unwrap(), m));
    } else {
        assert(default_binding(true, false, true, key) == Some(ShortcutAction::FocusDown));
        let m = choose|m: bool| focus_move_outcome(before, after, FocusDirection::Down, m);
        assert(focus_move_outcome(before, after, arrow_direction(key).unwrap(), m));
    }
}

/// Law: Ctrl+Shift+D splits the active pane to the right (side by side) and
/// Ctrl+D splits it downward (one above the other).
pub proof fn law_split_bindings(
    shift: bool,
    before: AppState,
    after: AppState,
    registry: Seq<(usize, u64)>,
    response: ShortcutResponse,
)
    requires
        before.wf(),
        shortcut_outcome(before, after, default_binding(true, shift, false, KEY_D), registry, response),
    ensures
        response == ShortcutResponse::Stop,
        shift ==> exists|r: Option<u64>| split_pane_outcome(before, after, false, registry, r),
        !shift ==> exists|r: Option<u64>| split_pane_outcome(before, after, true, registry, r),
        split_orientation(false) == Orientation::Horizontal,
        split_orientation(true) == Orientation::Vertical,
{
}

/// Law: Ctrl+1 to Ctrl+8 show the workspace at positions 0 to 7.
pub proof fn law_number_bindings(
    n: u32,
    before: AppState,
    after: AppState,
    registry: Seq<(usize, u64)>,
    response: ShortcutResponse,
)
    requires
        before.wf(),
        1 <= n <= 8,
        shortcut_outcome(
            before,
            after,
            default_binding(true, false, false, (KEY_1 + n - 1) as u32),
            registry,
            response,
        ),
    ensures
        response == ShortcutResponse::Stop,
        before.switch_outcome(after, (n - 1) as usize),
{
}

} // verus!
