//! Commands that arrive over the control socket.
use vstd::prelude::*;
use crate::socket::handlers::RpcError;

verus! {

/// A command from a socket client, dispatched to the application state.
/// The request id and the channel for the reply travel beside it.
#[derive(Debug)]
pub enum SocketCommand {
    Ping,
    Identify,
    Capabilities,
    WorkspaceList,
    WorkspaceCurrent,
    WorkspaceCreate,
    WorkspaceSelect { id: String },
    WorkspaceClose { id: String },
    WorkspaceRename { id: String, name: String },
    WorkspaceNext,
    WorkspacePrev,
    WorkspaceLast,
    WorkspaceReorder { id: String, position: usize },
    WindowList,
    WindowCurrent,
    DebugLayout,
    DebugType { text: String },
    SurfaceList,
    SurfaceSplit,
    SurfaceFocus,
    SurfaceClose,
    SurfaceSendText,
    SurfaceSendKey,
    SurfaceReadText,
    SurfaceHealth,
    SurfaceRefresh,
    PaneList,
    PaneFocus,
    PaneLast,
    /// A method that is not handled; the reply says so.
    NotImplemented { method: String },
}

/// The command a request line with method `method` is dispatched as: every
/// method is answered as not implemented for now.
pub fn command_for_method(method: String) -> (cmd: SocketCommand)
    ensures
        cmd == (SocketCommand::NotImplemented { method }),
{
    SocketCommand::NotImplemented { method }
}


/// The request id and method of a JSON-RPC request line as
/// `serde_json::from_str` reads them: `None` when the line is not valid JSON;
/// otherwise the JSON text of the `id` member (`null` when there is none)
/// and the `method` member when it is a string (empty otherwise).
pub uninterp spec fn request_fields(line: Seq<char>) -> Option<(Seq<char>, Seq<char>)>;

/// Parses a request line with `serde_json::from_str` into a JSON value and
/// reads its `id` member (rendered back to JSON text with `to_string`, or
/// `null` when absent) and its `method` member (when it is a string, else
/// empty). What comes out is named by `request_fields`.
#[verifier::external_body]
pub fn parse_request_line(line: &str) -> (r: Option<(String, String)>)
    ensures
        r is None <==> request_fields(line@) is None,
        r matches Some((i, m)) ==> request_fields(line@) == Some((i@, m@)),
{
    let v: serde_json::Value = match serde_json::from_str(line) {
        Ok(v) => v,
        Err(_) => return None,
    };
    let id = match v.get("id") {
        Some(i) => i.to_string(),
        None => "null".to_string(),
    };
    let method = match v.get("method").and_then(|m| m.as_str()) {
        Some(m) => m.to_string(),
        None => String::new(),
    };
    Some((id, method))
}

/// The request a socket line carries: a parse error when the line is not
/// valid JSON; otherwise its id (as JSON text) and the command its method is
/// dispatched as.
pub fn request_for_line(line: &str) -> (r: Result<(String, SocketCommand), RpcError>)
    ensures
        match request_fields(line@) {
            None => r matches Err(RpcError::ParseError),
            Some((i, m)) => r matches Ok((id, SocketCommand::NotImplemented { method })) && id@ == i
                && method@ == m,
        },
{
    match parse_request_line(line) {
        None => Err(RpcError::ParseError),
        Some((id, method)) => Ok((id, command_for_method(method))),
    }
}


/// The JSON-RPC method under which the server answers each command.
pub open spec fn socket_method(cmd: SocketCommand) -> Seq<char> {
    match cmd {
        SocketCommand::Ping => "system.ping"@,
        SocketCommand::Identify => "system.identify"@,
        SocketCommand::Capabilities => "system.capabilities"@,
        SocketCommand::WorkspaceList => "workspace.list"@,
        SocketCommand::WorkspaceCurrent => "workspace.current"@,
        SocketCommand::WorkspaceCreate => "workspace.create"@,
        SocketCommand::WorkspaceSelect { .. } => "workspace.select"@,
        SocketCommand::WorkspaceClose { .. } => "workspace.close"@,
        SocketCommand::WorkspaceRename { .. } => "workspace.rename"@,
        SocketCommand::WorkspaceNext => "workspace.next"@,
        SocketCommand::WorkspacePrev => "workspace.previous"@,
        SocketCommand::WorkspaceLast => "workspace.last"@,
        SocketCommand::WorkspaceReorder { .. } => "workspace.reorder"@,
        SocketCommand::WindowList => "window.list"@,
        SocketCommand::WindowCurrent => "window.current"@,
        SocketCommand::DebugLayout => "debug.layout"@,
        SocketCommand::DebugType { .. } => "debug.type"@,
        SocketCommand::SurfaceList => "surface.list"@,
        SocketCommand::SurfaceSplit => "surface.split"@,
        SocketCommand::SurfaceFocus => "surface.focus"@,
        SocketCommand::SurfaceClose => "surface.close"@,
        SocketCommand::SurfaceSendText => "surface.send_text"@,
        SocketCommand::SurfaceSendKey => "surface.send_key"@,
        SocketCommand::SurfaceReadText => "surface.read_text"@,
        SocketCommand::SurfaceHealth => "surface.health"@,
        SocketCommand::SurfaceRefresh => "surface.refresh"@,
        SocketCommand::PaneList => "pane.list"@,
        SocketCommand::PaneFocus => "pane.focus"@,
        SocketCommand::PaneLast => "pane.last"@,
        SocketCommand::NotImplemented { method } => method@,
    }
}

} // verus!
