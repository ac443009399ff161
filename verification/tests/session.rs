use cmux_linux::app_state::AppState;
use cmux_linux::session::{session_path, session_temp_path, SessionData, WorkspaceSession};
use cmux_linux::split_engine::SplitNodeData;

#[test]
fn test_graceful_fallback() {
    let path = session_path(Some("/tmp/no-such-dir-cmux-test"), None);
    assert!(path.contains("cmux/session.json"));
    assert_eq!(path, "/tmp/no-such-dir-cmux-test/cmux/session.json");
}

#[test]
fn session_path_falls_back_to_home() {
    assert_eq!(session_path(None, Some("/home/u")), "/home/u/.local/share/cmux/session.json");
    assert_eq!(session_path(None, None), "/.local/share/cmux/session.json");
    assert_eq!(session_temp_path("/a/session.json"), "/a/session.json.tmp");
}

fn saved(name: &str) -> WorkspaceSession {
    WorkspaceSession {
        uuid: String::new(),
        name: name.to_string(),
        active_pane_uuid: None,
        layout: SplitNodeData::Leaf { pane_id: 0, surface_uuid: 0, shell: String::new(), cwd: String::new() },
    }
}

#[test]
fn restored_index_is_clamped() {
    let d = SessionData { version: 1, active_index: 7, workspaces: vec![saved("a"), saved("b")] };
    assert_eq!(d.restored_active_index(), 1);
    let d = SessionData { version: 1, active_index: 0, workspaces: vec![saved("a"), saved("b")] };
    assert_eq!(d.restored_active_index(), 0);
    let d = SessionData { version: 1, active_index: 3, workspaces: vec![] };
    assert_eq!(d.restored_active_index(), 0);
}

#[test]
fn restore_without_session_creates_default_workspace() {
    let mut s = AppState::new();
    s.restore_session(None);
    assert_eq!(s.workspaces.len(), 1);
    assert_eq!(s.workspaces[0].name, "Workspace 1");
    let empty = SessionData { version: 1, active_index: 0, workspaces: vec![] };
    let mut s = AppState::new();
    s.restore_session(Some(&empty));
    assert_eq!(s.workspaces.len(), 1);
}

#[test]
fn save_then_restore_reproduces_names_and_active() {
    let mut s = AppState::new();
    s.create_workspace();
    s.create_workspace();
    s.create_workspace();
    s.rename_active("logs".to_string());
    s.switch_to_index(1);
    let snapshot = s.session_snapshot();
    assert_eq!(snapshot.version, 1);
    assert_eq!(snapshot.active_index, 1);
    let mut restored = AppState::new();
    restored.restore_session(Some(&snapshot));
    assert_eq!(restored.workspaces.len(), 3);
    for i in 0..3 {
        assert_eq!(restored.workspaces[i].name, s.workspaces[i].name);
    }
    assert_eq!(restored.workspaces[2].name, "logs");
    assert_eq!(restored.active_index, 1);
}

#[test]
fn snapshot_holds_uuid_text_and_placeholder_layout() {
    let mut s = AppState::new();
    s.create_workspace();
    let d = s.session_snapshot();
    assert_eq!(d.workspaces.len(), 1);
    assert_eq!(d.workspaces[0].uuid, uuid::Uuid::from_u128(s.workspaces[0].uuid).to_string());
    assert!(d.workspaces[0].active_pane_uuid.is_none());
    assert!(matches!(d.workspaces[0].layout, SplitNodeData::Leaf { pane_id: 0, surface_uuid: 0, .. }));
}
