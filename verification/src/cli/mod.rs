//! The command-line client: its arguments and commands, and the JSON-RPC
//! request each command is sent as. Parsing the arguments, finding the
//! socket and talking to it are the client program's part.
use vstd::prelude::*;
use crate::socket::commands::{socket_method, SocketCommand};
use crate::socket::handlers::capability_list;

verus! {

/// The client's arguments.
#[derive(Debug)]
pub struct Cli {
    /// Path to the cmux socket (overrides discovery).
    pub socket: Option<String>,
    /// Output raw JSON responses.
    pub json: bool,
    /// Verbose output (connection info to stderr).
    pub verbose: bool,
    /// Color mode: always, never, auto.
    pub color: String,
    pub command: Commands,
}

/// The client's commands.
#[derive(Debug)]
pub enum Commands {
    /// Ping the running cmux instance.
    Ping,
    /// Show cmux instance identity (version, platform, pid).
    Identify,
    /// List supported socket commands.
    Capabilities,
    /// List all workspaces.
    ListWorkspaces,
    /// Show the current workspace.
    CurrentWorkspace,
    /// Send an arbitrary JSON-RPC method: the method name and its params as JSON text.
    Raw { method: String, params: String },
    /// Create a new workspace.
    NewWorkspace,
    /// Select a workspace by UUID.
    SelectWorkspace { id: String },
    /// Close a workspace by UUID.
    CloseWorkspace { id: String },
    /// Rename a workspace.
    RenameWorkspace { id: String, name: String },
    /// Switch to next workspace.
    NextWorkspace,
    /// Switch to previous workspace.
    PrevWorkspace,
    /// Switch to last active workspace.
    LastWorkspace,
    /// Move a workspace to a position (0-indexed).
    ReorderWorkspace { id: String, position: usize },
    /// List all surfaces.
    ListSurfaces,
    /// Split a surface: direction horizontal or vertical, target surface (default: focused).
    Split { direction: String, id: Option<String> },
    /// Focus a surface by UUID.
    FocusSurface { id: String },
    /// Close a surface by UUID.
    CloseSurface { id: String },
    /// Send text to a surface (default: focused).
    SendText { text: String, id: Option<String> },
    /// Send a key event to a surface (default: focused).
    SendKey { key: String, id: Option<String> },
    /// Read text from a surface (default: focused).
    ReadText { id: Option<String> },
    /// Check surface health (default: focused).
    Health { id: Option<String> },
    /// Refresh a surface (default: focused).
    Refresh { id: Option<String> },
    /// List all panes.
    ListPanes,
    /// Focus a pane (default: next).
    FocusPane { id: Option<String> },
    /// Switch to last focused pane.
    LastPane,
    /// List all windows.
    ListWindows,
    /// Show current window info.
    CurrentWindow,
    /// Show layout tree.
    Layout,
    /// Type text into the focused terminal.
    Type { text: String },
    /// List notifications.
    ListNotifications,
    /// Clear a notification.
    ClearNotification { id: String },
    /// Open a URL in the browser pane.
    BrowserOpen { url: String },
    /// Close the browser pane.
    BrowserClose,
    /// Enable browser streaming.
    BrowserStreamEnable,
    /// Disable browser streaming.
    BrowserStreamDisable,
    /// Take a browser snapshot.
    BrowserSnapshot,
    /// Take a browser screenshot.
    BrowserScreenshot,
}

/// A parameter value of a request.
#[derive(Debug)]
pub enum ParamValue {
    /// A string.
    Text(String),
    /// A string, or `null` when absent.
    OptionalText(Option<String>),
    /// A non-negative integer.
    Position(usize),
}

/// The JSON-RPC method a command is sent as (`Raw` names its own).
pub open spec fn rpc_method(cmd: Commands) -> Seq<char> {
    match cmd {
        Commands::Ping => "system.ping"@,
        Commands::Identify => "system.identify"@,
        Commands::Capabilities => "system.capabilities"@,
        Commands::ListWorkspaces => "workspace.list"@,
        Commands::CurrentWorkspace => "workspace.current"@,
        Commands::Raw { .. } => Seq::<char>::empty(),
        Commands::NewWorkspace => "workspace.create"@,
        Commands::SelectWorkspace { .. } => "workspace.select"@,
        Commands::CloseWorkspace { .. } => "workspace.close"@,
        Commands::RenameWorkspace { .. } => "workspace.rename"@,
        Commands::NextWorkspace => "workspace.next"@,
        Commands::PrevWorkspace => "workspace.previous"@,
        Commands::LastWorkspace => "workspace.last"@,
        Commands::ReorderWorkspace { .. } => "workspace.reorder"@,
        Commands::ListSurfaces => "surface.list"@,
        Commands::Split { .. } => "surface.split"@,
        Commands::FocusSurface { .. } => "surface.focus"@,
        Commands::CloseSurface { .. } => "surface.close"@,
        Commands::SendText { .. } => "surface.send_text"@,
        Commands::SendKey { .. } => "surface.send_key"@,
        Commands::ReadText { .. } => "surface.read_text"@,
        Commands::Health { .. } => "surface.health"@,
        Commands::Refresh { .. } => "surface.refresh"@,
        Commands::ListPanes => "pane.list"@,
        Commands::FocusPane { .. } => "pane.focus"@,
        Commands::LastPane => "pane.last"@,
        Commands::ListWindows => "window.list"@,
        Commands::CurrentWindow => "window.current"@,
        Commands::Layout => "debug.layout"@,
        Commands::Type { .. } => "debug.type"@,
        Commands::ListNotifications => "notification.list"@,
        Commands::ClearNotification { .. } => "notification.clear"@,
        Commands::BrowserOpen { .. } => "browser.open"@,
        Commands::BrowserClose => "browser.close"@,
        Commands::BrowserStreamEnable => "browser.stream.enable"@,
        Commands::BrowserStreamDisable => "browser.stream.disable"@,
        Commands::BrowserSnapshot => "browser.snapshot"@,
        Commands::BrowserScreenshot => "browser.screenshot"@,
    }
}

/// The parameters a command is sent with, as (name, value) pairs.
pub open spec fn rpc_params(cmd: Commands) -> Seq<(Seq<char>, ParamValue)> {
    match cmd {
        Commands::Ping => Seq::empty(),
        Commands::Identify => Seq::empty(),
        Commands::Capabilities => Seq::empty(),
        Commands::ListWorkspaces => Seq::empty(),
        Commands::CurrentWorkspace => Seq::empty(),
        Commands::Raw { .. } => Seq::empty(),
        Commands::NewWorkspace => Seq::empty(),
        Commands::SelectWorkspace { id } => seq![("id"@, ParamValue::Text(id))],
        Commands::CloseWorkspace { id } => seq![("id"@, ParamValue::Text(id))],
        Commands::RenameWorkspace { id, name } => seq![("id"@, ParamValue::Text(id)), ("name"@, ParamValue::Text(name))],
        Commands::NextWorkspace => Seq::empty(),
        Commands::PrevWorkspace => Seq::empty(),
        Commands::LastWorkspace => Seq::empty(),
        Commands::ReorderWorkspace { id, position } => seq![("id"@, ParamValue::Text(id)), ("position"@, ParamValue::Position(position))],
        Commands::ListSurfaces => Seq::empty(),
        Commands::Split { direction, id } => seq![("direction"@, ParamValue::Text(direction)), ("id"@, ParamValue::OptionalText(id))],
        Commands::FocusSurface { id } => seq![("id"@, ParamValue::Text(id))],
        Commands::CloseSurface { id } => seq![("id"@, ParamValue::Text(id))],
        Commands::SendText { text, id } => seq![("text"@, ParamValue::Text(text)), ("id"@, ParamValue::OptionalText(id))],
        Commands::SendKey { key, id } => seq![("key"@, ParamValue::Text(key)), ("id"@, ParamValue::OptionalText(id))],
        Commands::ReadText { id } => seq![("id"@, ParamValue::OptionalText(id))],
        Commands::Health { id } => seq![("id"@, ParamValue::OptionalText(id))],
        Commands::Refresh { id } => seq![("id"@, ParamValue::OptionalText(id))],
        Commands::ListPanes => Seq::empty(),
        Commands::FocusPane { id } => seq![("id"@, ParamValue::OptionalText(id))],
        Commands::LastPane => Seq::empty(),
        Commands::ListWindows => Seq::empty(),
        Commands::CurrentWindow => Seq::empty(),
        Commands::Layout => Seq::empty(),
        Commands::Type { text } => seq![("text"@, ParamValue::Text(text))],
        Commands::ListNotifications => Seq::empty(),
        Commands::ClearNotification { id } => seq![("id"@, ParamValue::Text(id))],
        Commands::BrowserOpen { url } => seq![("url"@, ParamValue::Text(url))],
        Commands::BrowserClose => Seq::empty(),
        Commands::BrowserStreamEnable => Seq::empty(),
        Commands::BrowserStreamDisable => Seq::empty(),
        Commands::BrowserSnapshot => Seq::empty(),
        Commands::BrowserScreenshot => Seq::empty(),
    }
}

/// The (name, value) pairs of a parameter list, names taken as text.
pub open spec fn params_view(params: Seq<(&'static str, ParamValue)>) -> Seq<(Seq<char>, ParamValue)> {
    params.map_values(|p: (&'static str, ParamValue)| (p.0@, p.1))
}

fn clone_optional(s: &Option<String>) -> (c: Option<String>)
    ensures
        c == *s,
{
    match s {
        Some(v) => Some(v.clone()),
        None => None,
    }
}

/// The JSON-RPC method and parameters of a command other than `Raw` (whose
/// method and parameters are given by the user).
pub fn command_to_rpc(cmd: &Commands) -> (r: (&'static str, Vec<(&'static str, ParamValue)>))
    requires
        !(cmd is Raw),
    ensures
        r.0@ == rpc_method(*cmd),
        params_view(r.1@) == rpc_params(*cmd),
{
    let r = match cmd {
        Commands::Ping => ("system.ping", Vec::new()),
        Commands::Identify => ("system.identify", Vec::new()),
        Commands::Capabilities => ("system.capabilities", Vec::new()),
        Commands::ListWorkspaces => ("workspace.list", Vec::new()),
        Commands::CurrentWorkspace => ("workspace.current", Vec::new()),
        Commands::NewWorkspace => ("workspace.create", Vec::new()),
        Commands::SelectWorkspace { id } => ("workspace.select", vec![("id", ParamValue::Text(id.clone()))]),
        Commands::CloseWorkspace { id } => ("workspace.close", vec![("id", ParamValue::Text(id.clone()))]),
        Commands::RenameWorkspace { id, name } => ("workspace.rename", vec![("id", ParamValue::Text(id.clone())), ("name", ParamValue::Text(name.clone()))]),
        Commands::NextWorkspace => ("workspace.next", Vec::new()),
        Commands::PrevWorkspace => ("workspace.previous", Vec::new()),
        Commands::LastWorkspace => ("workspace.last", Vec::new()),
        Commands::ReorderWorkspace { id, position } => ("workspace.reorder", vec![("id", ParamValue::Text(id.clone())), ("position", ParamValue::Position(*position))]),
        Commands::ListSurfaces => ("surface.list", Vec::new()),
        Commands::Split { direction, id } => ("surface.split", vec![("direction", ParamValue::Text(direction.clone())), ("id", ParamValue::OptionalText(clone_optional(id)))]),
        Commands::FocusSurface { id } => ("surface.focus", vec![("id", ParamValue::Text(id.clone()))]),
        Commands::CloseSurface { id } => ("surface.close", vec![("id", ParamValue::Text(id.clone()))]),
        Commands::SendText { text, id } => ("surface.send_text", vec![("text", ParamValue::Text(text.clone())), ("id", ParamValue::OptionalText(clone_optional(id)))]),
        Commands::SendKey { key, id } => ("surface.send_key", vec![("key", ParamValue::Text(key.clone())), ("id", ParamValue::OptionalText(clone_optional(id)))]),
        Commands::ReadText { id } => ("surface.read_text", vec![("id", ParamValue::OptionalText(clone_optional(id)))]),
        Commands::Health { id } => ("surface.health", vec![("id", ParamValue::OptionalText(clone_optional(id)))]),
        Commands::Refresh { id } => ("surface.refresh", vec![("id", ParamValue::OptionalText(clone_optional(id)))]),
        Commands::ListPanes => ("pane.list", Vec::new()),
        Commands::FocusPane { id } => ("pane.focus", vec![("id", ParamValue::OptionalText(clone_optional(id)))]),
        Commands::LastPane => ("pane.last", Vec::new()),
        Commands::ListWindows => ("window.list", Vec::new()),
        Commands::CurrentWindow => ("window.current", Vec::new()),
        Commands::Layout => ("debug.layout", Vec::new()),
        Commands::Type { text } => ("debug.type", vec![("text", ParamValue::Text(text.clone()))]),
        Commands::ListNotifications => ("notification.list", Vec::new()),
        Commands::ClearNotification { id } => ("notification.clear", vec![("id", ParamValue::Text(id.clone()))]),
        Commands::BrowserOpen { url } => ("browser.open", vec![("url", ParamValue::Text(url.clone()))]),
        Commands::BrowserClose => ("browser.close", Vec::new()),
        Commands::BrowserStreamEnable => ("browser.stream.enable", Vec::new()),
        Commands::BrowserStreamDisable => ("browser.stream.disable", Vec::new()),
        Commands::BrowserSnapshot => ("browser.snapshot", Vec::new()),
        Commands::BrowserScreenshot => ("browser.screenshot", Vec::new()),
        Commands::Raw { .. } => ("", Vec::new()),
    };
    proof {
        assert(params_view(r.1@) =~= rpc_params(*cmd));
    }
    r
}

/// The request the client sends for a command.
#[derive(Debug)]
pub enum RpcRequest {
    /// A method of the protocol with its parameters.
    Call { method: &'static str, params: Vec<(&'static str, ParamValue)> },
    /// A method and parameters given verbatim by the user: the parameters are
    /// JSON text, parsed before sending.
    Raw { name: String, params_json: String },
}

/// The request for a command: `Raw` passes its method and JSON text through,
/// every other command is sent as `command_to_rpc` gives it.
pub fn rpc_request(cmd: &Commands) -> (r: RpcRequest)
    ensures
        match *cmd {
            Commands::Raw { method, params } => r == (RpcRequest::Raw { name: method, params_json: params }),
            _ => r matches RpcRequest::Call { method: m, params: p } && m@ == rpc_method(*cmd)
                && params_view(p@) == rpc_params(*cmd),
        },
{
    match cmd {
        Commands::Raw { method, params } => RpcRequest::Raw { name: method.clone(), params_json: params.clone() },
        _ => {
            let (method, params) = command_to_rpc(cmd);
            RpcRequest::Call { method, params }
        },
    }
}


/// The command the server handles for a client command, when it has one:
/// the workspace, window, debug, system, surface and pane commands, with
/// their workspace id, name, position or text carried over.
pub open spec fn served_as(cmd: Commands) -> Option<SocketCommand> {
    match cmd {
        Commands::Ping => Some(SocketCommand::Ping),
        Commands::Identify => Some(SocketCommand::Identify),
        Commands::Capabilities => Some(SocketCommand::Capabilities),
        Commands::ListWorkspaces => Some(SocketCommand::WorkspaceList),
        Commands::CurrentWorkspace => Some(SocketCommand::WorkspaceCurrent),
        Commands::NewWorkspace => Some(SocketCommand::WorkspaceCreate),
        Commands::SelectWorkspace { id } => Some(SocketCommand::WorkspaceSelect { id }),
        Commands::CloseWorkspace { id } => Some(SocketCommand::WorkspaceClose { id }),
        Commands::RenameWorkspace { id, name } => Some(SocketCommand::WorkspaceRename { id, name }),
        Commands::NextWorkspace => Some(SocketCommand::WorkspaceNext),
        Commands::PrevWorkspace => Some(SocketCommand::WorkspacePrev),
        Commands::LastWorkspace => Some(SocketCommand::WorkspaceLast),
        Commands::ReorderWorkspace { id, position } => Some(SocketCommand::WorkspaceReorder { id, position }),
        Commands::ListSurfaces => Some(SocketCommand::SurfaceList),
        Commands::Split { .. } => Some(SocketCommand::SurfaceSplit),
        Commands::FocusSurface { .. } => Some(SocketCommand::SurfaceFocus),
        Commands::CloseSurface { .. } => Some(SocketCommand::SurfaceClose),
        Commands::SendText { .. } => Some(SocketCommand::SurfaceSendText),
        Commands::SendKey { .. } => Some(SocketCommand::SurfaceSendKey),
        Commands::ReadText { .. } => Some(SocketCommand::SurfaceReadText),
        Commands::Health { .. } => Some(SocketCommand::SurfaceHealth),
        Commands::Refresh { .. } => Some(SocketCommand::SurfaceRefresh),
        Commands::ListPanes => Some(SocketCommand::PaneList),
        Commands::FocusPane { .. } => Some(SocketCommand::PaneFocus),
        Commands::LastPane => Some(SocketCommand::PaneLast),
        Commands::ListWindows => Some(SocketCommand::WindowList),
        Commands::CurrentWindow => Some(SocketCommand::WindowCurrent),
        Commands::Layout => Some(SocketCommand::DebugLayout),
        Commands::Type { text } => Some(SocketCommand::DebugType { text }),
        _ => None,
    }
}

/// The value of the first parameter named `key`.
pub open spec fn param_value(params: Seq<(Seq<char>, ParamValue)>, key: Seq<char>) -> Option<ParamValue>
    decreases params.len(),
{
    if params.len() == 0 {
        None
    } else if params[0].0 == key {
        Some(params[0].1)
    } else {
        param_value(params.drop_first(), key)
    }
}

/// Whether `params` carry what the server command `sc` needs: its
/// workspace id, new name, target position or text, under the names the
/// server reads them by.
pub open spec fn params_carry(params: Seq<(Seq<char>, ParamValue)>, sc: SocketCommand) -> bool {
    match sc {
        SocketCommand::WorkspaceSelect { id } => param_value(params, "id"@) == Some(ParamValue::Text(id)),
        SocketCommand::WorkspaceClose { id } => param_value(params, "id"@) == Some(ParamValue::Text(id)),
        SocketCommand::WorkspaceRename { id, name } => param_value(params, "id"@) == Some(ParamValue::Text(id))
            && param_value(params, "name"@) == Some(ParamValue::Text(name)),
        SocketCommand::WorkspaceReorder { id, position } => param_value(params, "id"@) == Some(
            ParamValue::Text(id),
        ) && param_value(params, "position"@) == Some(ParamValue::Position(position)),
        SocketCommand::DebugType { text } => param_value(params, "text"@) == Some(ParamValue::Text(text)),
        _ => true,
    }
}

/// Law: each client command is sent as the method under which the server
/// answers the command it is named for, with that command's arguments as
/// its parameters, and that method is one the server announces.
pub proof fn law_cli_requests_match_server(cmd: Commands)
    ensures
        served_as(cmd) is Some ==> rpc_method(cmd) == socket_method(served_as(cmd)->0),
        served_as(cmd) is Some ==> params_carry(rpc_params(cmd), served_as(cmd)->0),
        served_as(cmd) is Some ==> capability_list().contains(socket_method(served_as(cmd)->0)),
{
    reveal_strlit("id");
    reveal_strlit("name");
    reveal_strlit("position");
    reveal_strlit("text");
    reveal_with_fuel(param_value, 3);
    assert("id"@ != "name"@) by {
        assert("id"@[0] != "name"@[0]);
    }
    assert("id"@ != "position"@) by {
        assert("id"@[0] != "position"@[0]);
    }
    if served_as(cmd) is Some {
        let m = socket_method(served_as(cmd)->0);
        let caps = capability_list();
        if m == "system.ping"@ {
            assert(caps[0] == m);
        } else if m == "system.identify"@ {
            assert(caps[1] == m);
        } else if m == "system.capabilities"@ {
            assert(caps[2] == m);
        } else if m == "workspace.list"@ {
            assert(caps[3] == m);
        } else if m == "workspace.current"@ {
            assert(caps[4] == m);
        } else if m == "workspace.create"@ {
            assert(caps[5] == m);
        } else if m == "workspace.select"@ {
            assert(caps[6] == m);
        } else if m == "workspace.close"@ {
            assert(caps[7] == m);
        } else if m == "workspace.rename"@ {
            assert(caps[8] == m);
        } else if m == "workspace.next"@ {
            assert(caps[9] == m);
        } else if m == "workspace.previous"@ {
            assert(caps[10] == m);
        } else if m == "workspace.last"@ {
            assert(caps[11] == m);
        } else if m == "workspace.reorder"@ {
            assert(caps[12] == m);
        } else if m == "surface.list"@ {
            assert(caps[13] == m);
        } else if m == "surface.split"@ {
            assert(caps[14] == m);
        } else if m == "surface.focus"@ {
            assert(caps[15] == m);
        } else if m == "surface.close"@ {
            assert(caps[16] == m);
        } else if m == "surface.send_text"@ {
            assert(caps[17] == m);
        } else if m == "surface.send_key"@ {
            assert(caps[18] == m);
        } else if m == "surface.read_text"@ {
            assert(caps[19] == m);
        } else if m == "surface.health"@ {
            assert(caps[20] == m);
        } else if m == "surface.refresh"@ {
            assert(caps[21] == m);
        } else if m == "pane.list"@ {
            assert(caps[22] == m);
        } else if m == "pane.focus"@ {
            assert(caps[23] == m);
        } else if m == "pane.last"@ {
            assert(caps[24] == m);
        } else if m == "window.list"@ {
            assert(caps[25] == m);
        } else if m == "window.current"@ {
            assert(caps[26] == m);
        } else if m == "debug.layout"@ {
            assert(caps[27] == m);
        } else if m == "debug.type"@ {
            assert(caps[28] == m);
        }
    }
}

} // verus!
