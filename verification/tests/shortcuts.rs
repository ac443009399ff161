use cmux_linux::app_state::{AppState, ViewAction};
use cmux_linux::shortcuts::{
    apply_shortcut, handle_close_pane, handle_split, lookup_shortcut, workspace_number_index, ShortcutAction,
    ShortcutResponse,
};
use cmux_linux::sidebar::commit_inline_rename;

fn state_with(n: usize) -> AppState {
    let mut s = AppState::new();
    for _ in 0..n {
        s.create_workspace();
    }
    s
}

#[test]
fn non_shortcut_key_proceeds() {
    let mut s = state_with(1);
    let queued = s.pending.len();
    assert_eq!(apply_shortcut(&mut s, None, &Vec::new()), ShortcutResponse::Proceed);
    assert_eq!(s.pending.len(), queued);
}

#[test]
fn numbered_shortcuts_jump() {
    assert_eq!(workspace_number_index(ShortcutAction::Workspace1), Some(0));
    assert_eq!(workspace_number_index(ShortcutAction::Workspace9), Some(8));
    assert_eq!(workspace_number_index(ShortcutAction::SplitDown), None);
    let mut s = state_with(3);
    assert_eq!(apply_shortcut(&mut s, Some(ShortcutAction::Workspace2), &Vec::new()), ShortcutResponse::Stop);
    assert_eq!(s.active_index, 1);
    assert_eq!(apply_shortcut(&mut s, Some(ShortcutAction::Workspace9), &Vec::new()), ShortcutResponse::Stop);
    assert_eq!(s.active_index, 1);
}

#[test]
fn rename_and_sidebar_shortcuts() {
    let mut s = state_with(2);
    assert_eq!(
        apply_shortcut(&mut s, Some(ShortcutAction::RenameWorkspace), &Vec::new()),
        ShortcutResponse::StartRename { index: 1 }
    );
    assert_eq!(
        apply_shortcut(&mut s, Some(ShortcutAction::ToggleSidebar), &Vec::new()),
        ShortcutResponse::ToggleSidebar
    );
}

#[test]
fn new_and_close_workspace_shortcuts() {
    let mut s = state_with(1);
    apply_shortcut(&mut s, Some(ShortcutAction::NewWorkspace), &Vec::new());
    assert_eq!(s.workspaces.len(), 2);
    apply_shortcut(&mut s, Some(ShortcutAction::CloseWorkspace), &Vec::new());
    assert_eq!(s.workspaces.len(), 1);
    apply_shortcut(&mut s, Some(ShortcutAction::CloseWorkspace), &Vec::new());
    assert_eq!(s.workspaces.len(), 1, "the last workspace stays");
}

#[test]
fn split_and_close_pane_through_state() {
    let mut s = state_with(1);
    assert_eq!(handle_split(&mut s, false, &Vec::new()), None, "no surface yet");
    let pane = s.split_engines[0].active_pane_id;
    s.split_engines[0].set_initial_surface(pane, 21);
    let queued = s.pending.len();
    let new_pane = handle_split(&mut s, true, &Vec::new()).unwrap();
    assert_eq!(s.pending.len(), queued + 1);
    match &s.pending[queued] {
        ViewAction::PaneSplit { workspace_index, split_pane, inherited_surface, new_pane_id } => {
            assert_eq!(*workspace_index, 0);
            assert_eq!(*split_pane, pane);
            assert_eq!(*inherited_surface, 21);
            assert_eq!(*new_pane_id, new_pane);
        }
        other => panic!("unexpected {:?}", other),
    }
    s.split_engines[0].update_surface(new_pane, 22);
    handle_close_pane(&mut s, &Vec::new());
    assert_eq!(s.split_engines[0].active_pane_id, pane);
    assert!(s.split_engines[0].root.is_leaf_with_id(pane));
}

#[test]
fn closing_a_pane_without_surface_keeps_the_workspace() {
    let mut s = state_with(2);
    let pane = s.split_engines[1].active_pane_id;
    s.split_engines[1].set_initial_surface(pane, 3);
    let new_pane = handle_split(&mut s, false, &Vec::new()).unwrap();
    let queued = s.pending.len();
    handle_close_pane(&mut s, &Vec::new());
    assert_eq!(s.workspaces.len(), 2);
    assert_eq!(s.split_engines[1].active_pane_id, pane);
    match &s.pending[queued] {
        ViewAction::PaneClosed { closed_pane, closed_surface, surviving_pane, .. } => {
            assert_eq!(*closed_pane, new_pane);
            assert_eq!(*closed_surface, 0);
            assert_eq!(*surviving_pane, pane);
        }
        other => panic!("unexpected {:?}", other),
    }
}

#[test]
fn closing_the_only_pane_closes_the_workspace() {
    let mut s = state_with(2);
    let pane = s.split_engines[1].active_pane_id;
    s.split_engines[1].set_initial_surface(pane, 3);
    handle_close_pane(&mut s, &Vec::new());
    assert_eq!(s.workspaces.len(), 1);
}

#[test]
fn focus_shortcuts_move_between_panes() {
    let mut s = state_with(1);
    let pane = s.split_engines[0].active_pane_id;
    s.split_engines[0].set_initial_surface(pane, 1);
    let new_pane = handle_split(&mut s, false, &Vec::new()).unwrap();
    apply_shortcut(&mut s, Some(ShortcutAction::FocusLeft), &Vec::new());
    assert_eq!(s.split_engines[0].active_pane_id, pane);
    apply_shortcut(&mut s, Some(ShortcutAction::FocusRight), &Vec::new());
    assert_eq!(s.split_engines[0].active_pane_id, new_pane);
}

#[test]
fn inline_rename_commits_trimmed_text() {
    let mut s = state_with(1);
    let label = commit_inline_rename(&mut s, "  notes \t");
    assert_eq!(label, "notes");
    assert_eq!(s.workspaces[0].name, "notes");
    let queued = s.pending.len();
    let label = commit_inline_rename(&mut s, "   ");
    assert_eq!(label, "   ");
    assert_eq!(s.workspaces[0].name, "notes");
    assert_eq!(s.pending.len(), queued);
    let label = commit_inline_rename(&mut s, "\u{3000}ünï\u{a0}");
    assert_eq!(label, "ünï");
}

#[test]
fn default_bindings_follow_the_shortcut_table() {
    let ctrl_shift = |k: u32| lookup_shortcut(true, true, false, k);
    let ctrl = |k: u32| lookup_shortcut(true, false, false, k);
    assert_eq!(ctrl_shift(0x74), Some(ShortcutAction::NewWorkspace));
    assert_eq!(ctrl_shift(0x77), Some(ShortcutAction::CloseWorkspace));
    assert_eq!(ctrl_shift(0x64), Some(ShortcutAction::SplitRight));
    assert_eq!(ctrl(0x64), Some(ShortcutAction::SplitDown));
    assert_eq!(ctrl(0x77), Some(ShortcutAction::ClosePane));
    assert_eq!(ctrl_shift(0x7d), Some(ShortcutAction::NextWorkspace));
    assert_eq!(ctrl_shift(0x5b), Some(ShortcutAction::PrevWorkspace));
    assert_eq!(ctrl(0xff09), Some(ShortcutAction::FocusRight));
    assert_eq!(ctrl_shift(0xfe20), Some(ShortcutAction::FocusLeft));
    assert_eq!(ctrl(0x31), Some(ShortcutAction::Workspace1));
    assert_eq!(ctrl(0x38), Some(ShortcutAction::Workspace8));
    assert_eq!(ctrl(0x39), None);
    assert_eq!(ctrl_shift(0x72), Some(ShortcutAction::RenameWorkspace));
    assert_eq!(ctrl(0x62), Some(ShortcutAction::ToggleSidebar));
    assert_eq!(lookup_shortcut(true, false, true, 0xff51), Some(ShortcutAction::FocusLeft));
    assert_eq!(lookup_shortcut(true, false, true, 0xff54), Some(ShortcutAction::FocusDown));
    assert_eq!(lookup_shortcut(false, true, false, 0x74), None);
    assert_eq!(ctrl(0x74), None);
}
