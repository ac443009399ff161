use cmux_linux::cli::{command_to_rpc, rpc_request, Commands, ParamValue, RpcRequest};

fn text(p: &ParamValue) -> Option<&str> {
    match p {
        ParamValue::Text(s) => Some(s.as_str()),
        _ => None,
    }
}

#[test]
fn simple_commands_map_to_methods_without_params() {
    let cases = [
        (Commands::Ping, "system.ping"),
        (Commands::Identify, "system.identify"),
        (Commands::Capabilities, "system.capabilities"),
        (Commands::ListWorkspaces, "workspace.list"),
        (Commands::CurrentWorkspace, "workspace.current"),
        (Commands::NewWorkspace, "workspace.create"),
        (Commands::PrevWorkspace, "workspace.previous"),
        (Commands::LastPane, "pane.last"),
        (Commands::Layout, "debug.layout"),
        (Commands::ListNotifications, "notification.list"),
        (Commands::BrowserStreamEnable, "browser.stream.enable"),
        (Commands::BrowserScreenshot, "browser.screenshot"),
    ];
    for (cmd, method) in cases {
        let (m, params) = command_to_rpc(&cmd);
        assert_eq!(m, method);
        assert!(params.is_empty());
    }
}

#[test]
fn commands_with_params() {
    let (m, p) = command_to_rpc(&Commands::RenameWorkspace { id: "u1".into(), name: "n".into() });
    assert_eq!(m, "workspace.rename");
    assert_eq!(p.len(), 2);
    assert_eq!(p[0].0, "id");
    assert_eq!(text(&p[0].1), Some("u1"));
    assert_eq!(p[1].0, "name");
    assert_eq!(text(&p[1].1), Some("n"));

    let (m, p) = command_to_rpc(&Commands::ReorderWorkspace { id: "u".into(), position: 3 });
    assert_eq!(m, "workspace.reorder");
    assert!(matches!(p[1], ("position", ParamValue::Position(3))));

    let (m, p) = command_to_rpc(&Commands::Split { direction: "vertical".into(), id: None });
    assert_eq!(m, "surface.split");
    assert_eq!(p[0].0, "direction");
    assert!(matches!(p[1], ("id", ParamValue::OptionalText(None))));

    let (m, p) = command_to_rpc(&Commands::SendKey { key: "ctrl+c".into(), id: Some("s".into()) });
    assert_eq!(m, "surface.send_key");
    assert!(matches!(&p[1].1, ParamValue::OptionalText(Some(s)) if s == "s"));
}

#[test]
fn raw_passes_method_and_params_through() {
    match rpc_request(&Commands::Raw { method: "workspace.list".into(), params: "{}".into() }) {
        RpcRequest::Raw { name, params_json } => {
            assert_eq!(name, "workspace.list");
            assert_eq!(params_json, "{}");
        }
        other => panic!("unexpected {:?}", other),
    }
    match rpc_request(&Commands::Type { text: "hi".into() }) {
        RpcRequest::Call { method, params } => {
            assert_eq!(method, "debug.type");
            assert_eq!(text(&params[0].1), Some("hi"));
        }
        other => panic!("unexpected {:?}", other),
    }
}
