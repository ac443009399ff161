use cmux_linux::app_state::{AppState, ViewAction};
use cmux_linux::socket::commands::{command_for_method, request_for_line, SocketCommand};
use cmux_linux::socket::handlers::{
    capability_methods, handle_request, handle_socket_command, InstanceInfo, RpcError, RpcResult,
};
use cmux_linux::socket::{focus_intent_methods, last_socket_path_marker, socket_dir, socket_path};
use cmux_linux::split_engine::SplitNodeData;

#[test]
fn test_socket_path_creation() {
    let path = socket_path(Some("/tmp/test-xdg"), 1000);
    assert_eq!(path, "/tmp/test-xdg/cmux/cmux.sock");
}

#[test]
fn test_focus_policy() {
    let focus_intent_methods = focus_intent_methods();
    assert!(!focus_intent_methods.is_empty());
    assert_eq!(
        focus_intent_methods,
        vec![
            "workspace.select",
            "pane.focus",
            "pane.last",
            "surface.focus",
            "workspace.next",
            "workspace.previous",
            "workspace.last",
        ]
    );
}

#[test]
fn socket_path_falls_back_to_run_user() {
    assert_eq!(socket_path(None, 1000), "/run/user/1000/cmux/cmux.sock");
    assert_eq!(socket_dir(None, 0), "/run/user/0/cmux");
    assert_eq!(last_socket_path_marker(None, 42), "/run/user/42/cmux/last-socket-path");
}

#[test]
fn socket_path_with_trailing_slash_and_empty_dir() {
    assert_eq!(socket_path(Some("/tmp/x/"), 1), "/tmp/x/cmux/cmux.sock");
    assert_eq!(socket_path(Some(""), 1), "cmux/cmux.sock");
    assert_eq!(last_socket_path_marker(Some("/r"), 1), "/r/cmux/last-socket-path");
}

fn info() -> InstanceInfo {
    InstanceInfo { version: "0.1.0".to_string(), socket_path: socket_path(None, 1000) }
}

fn state_with(n: usize) -> AppState {
    let mut s = AppState::new();
    for _ in 0..n {
        s.create_workspace();
    }
    s
}

fn uuid_of(state: &AppState, i: usize) -> String {
    uuid::Uuid::from_u128(state.workspaces[i].uuid).to_string()
}

#[test]
fn ping_identify_capabilities() {
    let mut s = state_with(1);
    assert!(matches!(handle_socket_command(SocketCommand::Ping, &mut s, &info()), Ok(RpcResult::Pong)));
    match handle_socket_command(SocketCommand::Identify, &mut s, &info()) {
        Ok(RpcResult::Identity { version, platform, socket_path }) => {
            assert_eq!(version, "0.1.0");
            assert_eq!(platform, "linux");
            assert_eq!(socket_path, "/run/user/1000/cmux/cmux.sock");
        }
        other => panic!("unexpected {:?}", other),
    }
    match handle_socket_command(SocketCommand::Capabilities, &mut s, &info()) {
        Ok(RpcResult::Capabilities { methods }) => {
            assert_eq!(methods, capability_methods());
            assert_eq!(methods.len(), 29);
            assert_eq!(methods[0], "system.ping");
            assert_eq!(methods[28], "debug.type");
        }
        other => panic!("unexpected {:?}", other),
    }
}

#[test]
fn workspace_list_and_current() {
    let mut s = state_with(2);
    match handle_socket_command(SocketCommand::WorkspaceList, &mut s, &info()) {
        Ok(RpcResult::Workspaces { list }) => {
            assert_eq!(list.len(), 2);
            assert_eq!(list[0].name, "Workspace 1");
            assert_eq!(list[1].name, "Workspace 2");
            assert!(!list[0].active);
            assert!(list[1].active);
            assert_eq!(list[0].uuid, uuid_of(&s, 0));
        }
        other => panic!("unexpected {:?}", other),
    }
    match handle_socket_command(SocketCommand::WorkspaceCurrent, &mut s, &info()) {
        Ok(RpcResult::CurrentWorkspace { uuid, name }) => {
            assert_eq!(uuid, uuid_of(&s, 1));
            assert_eq!(uuid.len(), 36);
            assert_eq!(name, "Workspace 2");
        }
        other => panic!("unexpected {:?}", other),
    }
}

#[test]
fn uuid_text_is_hyphenated_lower_hex() {
    let s = state_with(1);
    let text = uuid_of(&s, 0);
    let chars: Vec<char> = text.chars().collect();
    assert_eq!(chars.len(), 36);
    for (i, c) in chars.iter().enumerate() {
        if i == 8 || i == 13 || i == 18 || i == 23 {
            assert_eq!(*c, '-');
        } else {
            assert!(c.is_ascii_hexdigit() && !c.is_ascii_uppercase());
        }
    }
    assert_eq!(chars[14], '4');
}

#[test]
fn current_without_workspace_is_an_error() {
    let mut s = AppState::new();
    match handle_socket_command(SocketCommand::WorkspaceCurrent, &mut s, &info()) {
        Err(e) => {
            assert_eq!(e.code(), "no_workspace");
            assert_eq!(e.message(), "no active workspace");
        }
        other => panic!("unexpected {:?}", other),
    }
    assert!(matches!(handle_socket_command(SocketCommand::DebugLayout, &mut s, &info()), Err(RpcError::NoWorkspace)));
}

#[test]
fn create_select_rename_close_by_uuid() {
    let mut s = state_with(1);
    let created = match handle_socket_command(SocketCommand::WorkspaceCreate, &mut s, &info()) {
        Ok(RpcResult::Created { uuid }) => uuid,
        other => panic!("unexpected {:?}", other),
    };
    assert_eq!(s.workspaces.len(), 2);
    assert_eq!(created, uuid_of(&s, 1));
    assert_eq!(s.active_index, 1);

    let first = uuid_of(&s, 0);
    assert!(matches!(
        handle_socket_command(SocketCommand::WorkspaceSelect { id: first.clone() }, &mut s, &info()),
        Ok(RpcResult::Empty)
    ));
    assert_eq!(s.active_index, 0);

    assert!(matches!(
        handle_socket_command(
            SocketCommand::WorkspaceRename { id: created.clone(), name: "build".to_string() },
            &mut s,
            &info()
        ),
        Ok(RpcResult::Empty)
    ));
    assert_eq!(s.workspaces[1].name, "build");
    assert_eq!(s.active_index, 0, "rename by uuid keeps the visible workspace");

    assert!(matches!(
        handle_socket_command(SocketCommand::WorkspaceClose { id: created.clone() }, &mut s, &info()),
        Ok(RpcResult::Empty)
    ));
    assert_eq!(s.workspaces.len(), 1);
    match handle_socket_command(SocketCommand::WorkspaceClose { id: first.clone() }, &mut s, &info()) {
        Err(e) => {
            assert_eq!(e.code(), "last_workspace");
            assert_eq!(e.message(), "cannot close the last workspace");
        }
        other => panic!("unexpected {:?}", other),
    }
    assert_eq!(s.workspaces.len(), 1);
}

#[test]
fn unknown_uuid_is_not_found() {
    let mut s = state_with(2);
    let before = s.pending.len();
    match handle_socket_command(SocketCommand::WorkspaceSelect { id: "nope".to_string() }, &mut s, &info()) {
        Err(e) => {
            assert_eq!(e.code(), "not_found");
            assert_eq!(e.message(), "workspace not found");
        }
        other => panic!("unexpected {:?}", other),
    }
    assert_eq!(s.active_index, 1);
    assert_eq!(s.pending.len(), before);
}

#[test]
fn next_previous_last_wrap_around() {
    let mut s = state_with(3);
    assert_eq!(s.active_index, 2);
    handle_socket_command(SocketCommand::WorkspaceNext, &mut s, &info()).unwrap();
    assert_eq!(s.active_index, 0);
    handle_socket_command(SocketCommand::WorkspacePrev, &mut s, &info()).unwrap();
    assert_eq!(s.active_index, 2);
    handle_socket_command(SocketCommand::WorkspaceLast, &mut s, &info()).unwrap();
    assert_eq!(s.active_index, 1);
}

#[test]
fn reorder_by_uuid_keeps_visible_workspace() {
    let mut s = state_with(3);
    let moved = uuid_of(&s, 0);
    let visible = s.workspaces[2].id;
    handle_socket_command(SocketCommand::WorkspaceReorder { id: moved.clone(), position: 2 }, &mut s, &info())
        .unwrap();
    assert_eq!(uuid_of(&s, 2), moved);
    assert_eq!(s.workspaces[s.active_index].id, visible);
}

#[test]
fn windows_layout_and_planned_commands() {
    let mut s = state_with(2);
    assert!(matches!(
        handle_socket_command(SocketCommand::WindowList, &mut s, &info()),
        Ok(RpcResult::Windows { workspace_count: 2 })
    ));
    assert!(matches!(handle_socket_command(SocketCommand::WindowCurrent, &mut s, &info()), Ok(RpcResult::CurrentWindow)));
    match handle_socket_command(SocketCommand::DebugLayout, &mut s, &info()) {
        Ok(RpcResult::Layout { layout: SplitNodeData::Leaf { pane_id, .. } }) => assert_eq!(pane_id, 2000),
        other => panic!("unexpected {:?}", other),
    }
    match handle_socket_command(SocketCommand::SurfaceSplit, &mut s, &info()) {
        Err(e) => {
            assert_eq!(e.code(), "not_implemented");
            assert_eq!(e.message(), "planned for Plan 04");
        }
        other => panic!("unexpected {:?}", other),
    }
}

#[test]
fn not_implemented_names_the_method() {
    let mut s = state_with(1);
    let cmd = command_for_method("surface.frobnicate".to_string());
    match handle_socket_command(cmd, &mut s, &info()) {
        Err(e) => {
            assert_eq!(e.code(), "not_implemented");
            assert_eq!(e.message(), "surface.frobnicate is not implemented");
        }
        other => panic!("unexpected {:?}", other),
    }
}

#[test]
fn debug_type_targets_active_surface() {
    let mut s = state_with(1);
    let before = s.pending.len();
    handle_socket_command(SocketCommand::DebugType { text: "ls\n".to_string() }, &mut s, &info()).unwrap();
    assert_eq!(s.pending.len(), before, "no surface yet: nothing to type into");
    let pane = s.split_engines[0].active_pane_id;
    s.split_engines[0].set_initial_surface(pane, 77);
    handle_socket_command(SocketCommand::DebugType { text: "ls\n".to_string() }, &mut s, &info()).unwrap();
    assert_eq!(s.pending.len(), before);
    s.split_engines[0].root.update_focus_css(pane);
    handle_socket_command(SocketCommand::DebugType { text: "ls\n".to_string() }, &mut s, &info()).unwrap();
    assert_eq!(s.pending.len(), before + 1);
    match s.pending.last() {
        Some(ViewAction::TypeText { surface, text }) => {
            assert_eq!(*surface, 77);
            assert_eq!(text, "ls\n");
        }
        other => panic!("unexpected {:?}", other),
    }
}

#[test]
fn replies_carry_id_and_result_or_error() {
    let mut s = state_with(1);
    let r = handle_request(7u64, SocketCommand::Ping, &mut s, &info());
    assert_eq!(r.id, 7);
    assert!(r.ok);
    assert!(matches!(r.result, Some(RpcResult::Pong)));
    assert!(r.error.is_none());
    let r = handle_request("req-1", SocketCommand::WorkspaceSelect { id: "x".to_string() }, &mut s, &info());
    assert_eq!(r.id, "req-1");
    assert!(!r.ok);
    assert!(r.result.is_none());
    let e = r.error.unwrap();
    assert_eq!(e.code, "not_found");
    assert_eq!(e.message, "workspace not found");
}

#[test]
fn request_lines_parse_or_fail() {
    match request_for_line(r#"{"id": 3, "method": "workspace.list"}"#) {
        Ok((id, SocketCommand::NotImplemented { method })) => {
            assert_eq!(id, "3");
            assert_eq!(method, "workspace.list");
        }
        other => panic!("unexpected {:?}", other),
    }
    match request_for_line(r#"{"id": "a"}"#) {
        Ok((id, SocketCommand::NotImplemented { method })) => {
            assert_eq!(id, "\"a\"");
            assert_eq!(method, "");
        }
        other => panic!("unexpected {:?}", other),
    }
    match request_for_line(r#"{"method": 5}"#) {
        Ok((id, SocketCommand::NotImplemented { method })) => {
            assert_eq!(id, "null");
            assert_eq!(method, "");
        }
        other => panic!("unexpected {:?}", other),
    }
    match request_for_line("not json") {
        Err(e) => {
            assert_eq!(e.code(), "parse_error");
            assert_eq!(e.message(), "invalid JSON");
        }
        other => panic!("unexpected {:?}", other),
    }
}
