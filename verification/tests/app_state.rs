use cmux_linux::app_state::{AppState, ViewAction};
use cmux_linux::session::{SessionData, WorkspaceSession};
use cmux_linux::split_engine::SplitNodeData;

fn state_with(n: usize) -> AppState {
    let mut s = AppState::new();
    for _ in 0..n {
        s.create_workspace();
    }
    s
}

#[test]
fn new_state_is_empty() {
    let s = AppState::new();
    assert!(s.workspaces.is_empty());
    assert_eq!(s.next_id, 1);
    assert_eq!(s.next_display_number, 1);
    assert!(s.active_workspace().is_none());
    assert!(s.active_split_engine().is_none());
}

#[test]
fn create_appends_switches_and_queues_view_work() {
    let mut s = AppState::new();
    let id = s.create_workspace();
    assert_eq!(id, 1);
    assert_eq!(s.active_index, 0);
    assert_eq!(s.split_engines[0].active_pane_id, 1000);
    assert_eq!(s.pending.len(), 3);
    match &s.pending[0] {
        ViewAction::WorkspaceAdded { id, name, page_name, pane_id } => {
            assert_eq!(*id, 1);
            assert_eq!(name, "Workspace 1");
            assert_eq!(page_name, "workspace-1");
            assert_eq!(*pane_id, 1000);
        }
        other => panic!("unexpected {:?}", other),
    }
    assert!(matches!(&s.pending[1], ViewAction::WorkspaceShown { index: 0, focus_pane: 1000, .. }));
    assert!(matches!(&s.pending[2], ViewAction::SessionChanged(_)));
    let id2 = s.create_workspace();
    assert_eq!(id2, 2);
    assert_eq!(s.active_index, 1);
    assert_eq!(s.workspaces[1].name, "Workspace 2");
}

#[test]
fn switch_out_of_range_changes_nothing() {
    let mut s = state_with(2);
    let queued = s.pending.len();
    s.switch_to_index(5);
    assert_eq!(s.active_index, 1);
    assert_eq!(s.pending.len(), queued);
    s.switch_to_index(0);
    assert_eq!(s.active_index, 0);
    assert_eq!(s.pending.len(), queued + 1);
}

#[test]
fn next_and_prev_round_trip() {
    let mut s = state_with(4);
    s.switch_to_index(2);
    s.switch_next();
    assert_eq!(s.active_index, 3);
    s.switch_prev();
    assert_eq!(s.active_index, 2);
    s.switch_to_index(0);
    s.switch_prev();
    assert_eq!(s.active_index, 3);
    s.switch_next();
    assert_eq!(s.active_index, 0);
}

#[test]
fn close_last_workspace_is_refused() {
    let mut s = state_with(1);
    assert!(!s.close_workspace(0));
    assert_eq!(s.workspaces.len(), 1);
}

#[test]
fn close_active_moves_back_and_reports_surfaces() {
    let mut s = state_with(3);
    let pane = s.split_engines[2].active_pane_id;
    s.split_engines[2].set_initial_surface(pane, 5);
    let queued = s.pending.len();
    assert!(s.close_workspace(2));
    assert_eq!(s.workspaces.len(), 2);
    assert_eq!(s.active_index, 1);
    match &s.pending[queued] {
        ViewAction::WorkspaceRemoved { index, page_name, surfaces } => {
            assert_eq!(*index, 2);
            assert_eq!(page_name, "workspace-3");
            assert_eq!(surfaces, &vec![5usize]);
        }
        other => panic!("unexpected {:?}", other),
    }
}

#[test]
fn close_other_keeps_visible_workspace() {
    let mut s = state_with(3);
    s.switch_to_index(2);
    let visible = s.workspaces[2].id;
    assert!(s.close_workspace(0));
    assert_eq!(s.workspaces[s.active_index].id, visible);
    s.switch_to_index(0);
    let visible = s.workspaces[0].id;
    assert!(s.close_workspace(1));
    assert_eq!(s.workspaces[s.active_index].id, visible);
}

#[test]
fn rename_active_only_renames_visible() {
    let mut s = state_with(2);
    s.rename_active("editor".to_string());
    assert_eq!(s.workspaces[1].name, "editor");
    assert_eq!(s.workspaces[0].name, "Workspace 1");
    assert!(matches!(s.pending[s.pending.len() - 2], ViewAction::WorkspaceRenamed { index: 1, .. }));
    let mut empty = AppState::new();
    empty.rename_active("x".to_string());
    assert!(empty.pending.is_empty());
}

#[test]
fn reorder_keeps_visible_and_moves() {
    let mut s = state_with(4);
    s.switch_to_index(1);
    let visible = s.workspaces[1].id;
    let moved = s.workspaces[3].id;
    s.reorder_workspace(3, 0);
    assert_eq!(s.workspaces[0].id, moved);
    assert_eq!(s.workspaces[s.active_index].id, visible);
    s.reorder_workspace(0, 99);
    assert_eq!(s.workspaces[3].id, moved);
    assert_eq!(s.workspaces[s.active_index].id, visible);
}

#[test]
fn trigger_session_save_queues_snapshot() {
    let mut s = state_with(2);
    let queued = s.pending.len();
    s.trigger_session_save();
    assert_eq!(s.pending.len(), queued + 1);
    match &s.pending[queued] {
        ViewAction::SessionChanged(d) => {
            assert_eq!(d.workspaces.len(), 2);
            assert_eq!(d.active_index, 1);
            assert_eq!(d.workspaces[0].name, "Workspace 1");
        }
        other => panic!("unexpected {:?}", other),
    }
}

#[test]
fn active_split_engine_mut_changes_visible_engine() {
    let mut s = state_with(2);
    if let Some(engine) = s.active_split_engine_mut() {
        let pane = engine.active_pane_id;
        engine.set_initial_surface(pane, 9);
    }
    assert_eq!(s.split_engines[1].root.find_surface_for_pane(2000), Some(9));
    assert_eq!(s.split_engines[0].root.find_surface_for_pane(1000), Some(0));
    let mut empty = AppState::new();
    assert!(empty.active_split_engine_mut().is_none());
}

#[test]
fn restore_queues_view_work_per_workspace() {
    let saved = |name: &str| WorkspaceSession {
        uuid: String::new(),
        name: name.to_string(),
        active_pane_uuid: None,
        layout: SplitNodeData::Leaf { pane_id: 0, surface_uuid: 0, shell: String::new(), cwd: String::new() },
    };
    let d = SessionData { version: 1, active_index: 9, workspaces: vec![saved("a"), saved("b")] };
    let mut s = AppState::new();
    s.restore_session(Some(&d));
    assert_eq!(s.pending.len(), 11);
    assert_eq!(s.active_index, 1);
    assert_eq!(s.workspaces[0].stack_page_name, "workspace-1");
    assert_eq!(s.workspaces[1].display_number, 2);
    assert!(matches!(s.pending.last(), Some(ViewAction::WorkspaceShown { index: 1, .. })));
}
