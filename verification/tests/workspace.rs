use cmux_linux::workspace::{ConnectionState, Workspace};

#[test]
fn test_workspace_default_name() {
    let ws = Workspace::new(1, 1);
    assert_eq!(ws.name, "Workspace 1");
    assert_eq!(ws.id, 1);
    assert_eq!(ws.display_number, 1);
}

#[test]
fn test_workspace_default_name_increments() {
    let ws1 = Workspace::new(1, 1);
    let ws2 = Workspace::new(2, 2);
    assert_eq!(ws1.name, "Workspace 1");
    assert_eq!(ws2.name, "Workspace 2");
}

#[test]
fn test_workspace_rename() {
    let mut ws = Workspace::new(1, 1);
    ws.rename("My Terminal".to_string());
    assert_eq!(ws.name, "My Terminal");
    assert_eq!(ws.id, 1);
}

#[test]
fn test_workspace_stack_page_name() {
    let ws = Workspace::new(42, 3);
    assert_eq!(ws.stack_page_name, "workspace-42");
}

#[test]
fn test_workspace_new_id_zero() {
    let ws = Workspace::new(0, 1);
    assert_eq!(ws.id, 0);
}

#[test]
fn workspace_name_uses_display_number_not_id() {
    let ws = Workspace::new(7, 12);
    assert_eq!(ws.name, "Workspace 12");
    assert_eq!(ws.stack_page_name, "workspace-7");
}

#[test]
fn workspace_large_numbers_render_in_decimal() {
    let ws = Workspace::new(u64::MAX, u32::MAX);
    assert_eq!(ws.name, "Workspace 4294967295");
    assert_eq!(ws.stack_page_name, "workspace-18446744073709551615");
}

#[test]
fn workspace_uuid_is_version_4() {
    let ws = Workspace::new(1, 1);
    assert_eq!((ws.uuid >> 76) & 0xf, 4);
    assert_eq!((ws.uuid >> 62) & 0x3, 2);
}

#[test]
fn workspace_rename_keeps_identity() {
    let mut ws = Workspace::new(5, 2);
    let uuid = ws.uuid;
    ws.rename(String::new());
    assert_eq!(ws.name, "");
    assert_eq!(ws.uuid, uuid);
    assert_eq!(ws.display_number, 2);
    assert_eq!(ws.stack_page_name, "workspace-5");
}

#[test]
fn connection_state_compares_attempts() {
    assert_eq!(ConnectionState::Reconnecting(3), ConnectionState::Reconnecting(3));
    assert_ne!(ConnectionState::Reconnecting(3), ConnectionState::Reconnecting(4));
    assert_ne!(ConnectionState::Connected, ConnectionState::Disconnected);
}
