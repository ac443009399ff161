//! Answers to socket commands. Of the commands that leave the workspace
//! list in place, only the focus-intent ones (workspace.select,
//! workspace.next/previous/last) change which workspace is visible; a
//! rename by UUID shows the previously visible workspace again, and
//! workspace.create shows the workspace it creates.
use vstd::prelude::*;
use crate::app_state::{AppState, ViewAction, appended};
use crate::ids::{uuid_text, uuid_to_string};
use crate::socket::commands::SocketCommand;
use crate::split_engine::SplitNodeData;
use crate::workspace::Workspace;

verus! {

/// A failed command: each variant has an error code and a message.
#[derive(Debug)]
pub enum RpcError {
    /// The request line is not valid JSON.
    ParseError,
    NoWorkspace,
    NotFound,
    LastWorkspace,
    /// A surface or pane command, not handled yet.
    PlannedLater,
    /// A method without a handler.
    MethodNotImplemented { method: String },
}

/// A workspace as listed to clients.
#[derive(Debug)]
pub struct WorkspaceEntry {
    pub uuid: String,
    pub name: String,
    pub active: bool,
}

/// What the running instance tells about itself: its version and the path
/// of its socket.
#[derive(Debug)]
pub struct InstanceInfo {
    pub version: String,
    pub socket_path: String,
}

/// The result of a successful command.
#[derive(Debug)]
pub enum RpcResult {
    /// `{"pong": true}`.
    Pong,
    /// The instance's identity: its version, platform and socket path.
    Identity { version: String, platform: &'static str, socket_path: String },
    /// The methods the socket supports.
    Capabilities { methods: Vec<&'static str> },
    Workspaces { list: Vec<WorkspaceEntry> },
    CurrentWorkspace { uuid: String, name: String },
    Created { uuid: String },
    /// `{}`.
    Empty,
    /// A single window holding `workspace_count` workspaces.
    Windows { workspace_count: usize },
    /// The single window.
    CurrentWindow,
    Layout { layout: SplitNodeData },
}

/// The error code of an error, as sent to the client.
pub open spec fn error_code(e: RpcError) -> Seq<char> {
    match e {
        RpcError::ParseError => "parse_error"@,
        RpcError::NoWorkspace => "no_workspace"@,
        RpcError::NotFound => "not_found"@,
        RpcError::LastWorkspace => "last_workspace"@,
        RpcError::PlannedLater => "not_implemented"@,
        RpcError::MethodNotImplemented { .. } => "not_implemented"@,
    }
}

/// The message of an error, as sent to the client.
pub open spec fn error_message(e: RpcError) -> Seq<char> {
    match e {
        RpcError::ParseError => "invalid JSON"@,
        RpcError::NoWorkspace => "no active workspace"@,
        RpcError::NotFound => "workspace not found"@,
        RpcError::LastWorkspace => "cannot close the last workspace"@,
        RpcError::PlannedLater => "planned for Plan 04"@,
        RpcError::MethodNotImplemented { method } => method@ + " is not implemented"@,
    }
}

impl RpcError {
    /// The error code sent to the client.
    pub fn code(&self) -> (c: &'static str)
        ensures
            c@ == error_code(*self),
    {
        match self {
            RpcError::ParseError => "parse_error",
            RpcError::NoWorkspace => "no_workspace",
            RpcError::NotFound => "not_found",
            RpcError::LastWorkspace => "last_workspace",
            RpcError::PlannedLater => "not_implemented",
            RpcError::MethodNotImplemented { .. } => "not_implemented",
        }
    }

    /// The message sent to the client.
    pub fn message(&self) -> (m: String)
        ensures
            m@ == error_message(*self),
    {
        match self {
            RpcError::ParseError => String::from_str("invalid JSON"),
            RpcError::NoWorkspace => String::from_str("no active workspace"),
            RpcError::NotFound => String::from_str("workspace not found"),
            RpcError::LastWorkspace => String::from_str("cannot close the last workspace"),
            RpcError::PlannedLater => String::from_str("planned for Plan 04"),
            RpcError::MethodNotImplemented { method } => {
                let mut m = method.clone();
                m.append(" is not implemented");
                m
            },
        }
    }
}

/// The methods the socket supports, in the order they are announced.
pub open spec fn capability_list() -> Seq<Seq<char>> {
    seq![
        "system.ping"@, "system.identify"@, "system.capabilities"@,
        "workspace.list"@, "workspace.current"@, "workspace.create"@,
        "workspace.select"@, "workspace.close"@, "workspace.rename"@,
        "workspace.next"@, "workspace.previous"@, "workspace.last"@, "workspace.reorder"@,
        "surface.list"@, "surface.split"@, "surface.focus"@, "surface.close"@,
        "surface.send_text"@, "surface.send_key"@, "surface.read_text"@,
        "surface.health"@, "surface.refresh"@,
        "pane.list"@, "pane.focus"@, "pane.last"@,
        "window.list"@, "window.current"@,
        "debug.layout"@, "debug.type"@,
    ]
}

/// The methods the socket supports.
pub fn capability_methods() -> (methods: Vec<&'static str>)
    ensures
        methods@.map_values(|m: &'static str| m@) == capability_list(),
{
    let methods = vec![
        "system.ping", "system.identify", "system.capabilities",
        "workspace.list", "workspace.current", "workspace.create",
        "workspace.select", "workspace.close", "workspace.rename",
        "workspace.next", "workspace.previous", "workspace.last", "workspace.reorder",
        "surface.list", "surface.split", "surface.focus", "surface.close",
        "surface.send_text", "surface.send_key", "surface.read_text",
        "surface.health", "surface.refresh",
        "pane.list", "pane.focus", "pane.last",
        "window.list", "window.current",
        "debug.layout", "debug.type",
    ];
    assert(methods@.map_values(|m: &'static str| m@) =~= capability_list());
    methods
}

/// The position of the first workspace whose UUID text is `id`, or -1.
pub open spec fn uuid_position(ws: Seq<Workspace>, id: Seq<char>) -> int
    decreases ws.len(),
{
    if ws.len() == 0 {
        -1
    } else if uuid_text(ws[0].uuid) == id {
        0
    } else {
        let p = uuid_position(ws.drop_first(), id);
        if p < 0 {
            -1
        } else {
            p + 1
        }
    }
}

proof fn lemma_uuid_position_scan(ws: Seq<Workspace>, id: Seq<char>, p: int)
    requires
        0 <= p <= ws.len(),
        forall|j: int| 0 <= j < p ==> uuid_text(#[trigger] ws[j].uuid) != id,
        p < ws.len() ==> uuid_text(ws[p].uuid) == id,
    ensures
        uuid_position(ws, id) == if p < ws.len() {
            p
        } else {
            -1
        },
    decreases ws.len(),
{
    if ws.len() > 0 && p > 0 {
        assert forall|j: int| 0 <= j < p - 1 implies uuid_text(#[trigger] ws.drop_first()[j].uuid)
            != id by {
            assert(ws.drop_first()[j] == ws[j + 1]);
        }
        lemma_uuid_position_scan(ws.drop_first(), id, p - 1);
    }
}

/// Finds the first workspace whose UUID, as text, equals `id`.
fn find_workspace_by_uuid(state: &AppState, id: &String) -> (r: Option<usize>)
    ensures
        match r {
            Some(i) => i == uuid_position(state.workspaces@, id@),
            None => uuid_position(state.workspaces@, id@) == -1,
        },
        r matches Some(i) ==> i < state.workspaces@.len(),
{
    let mut i: usize = 0;
    while i < state.workspaces.len()
        invariant
            i <= state.workspaces@.len(),
            forall|j: int| 0 <= j < i ==> uuid_text(#[trigger] state.workspaces@[j].uuid) != id@,
        decreases state.workspaces@.len() - i,
    {
        let text = uuid_to_string(state.workspaces[i].uuid);
        if text == *id {
            proof {
                lemma_uuid_position_scan(state.workspaces@, id@, i as int);
            }
            return Some(i);
        }
        i = i + 1;
    }
    proof {
        lemma_uuid_position_scan(state.workspaces@, id@, i as int);
    }
    None
}

/// Whether `list` lists the workspaces `ws` with their UUID text, name, and
/// whether each is the one at `active`.
pub open spec fn lists_workspaces(list: Seq<WorkspaceEntry>, ws: Seq<Workspace>, active: int) -> bool {
    &&& list.len() == ws.len()
    &&& forall|i: int|
        0 <= i < list.len() ==> (#[trigger] list[i]).uuid@ == uuid_text(ws[i].uuid)
            && list[i].name@ == ws[i].name@ && list[i].active == (i == active)
}

fn list_workspaces(state: &AppState) -> (list: Vec<WorkspaceEntry>)
    ensures
        lists_workspaces(list@, state.workspaces@, state.active_index as int),
{
    let mut list: Vec<WorkspaceEntry> = Vec::new();
    let mut i: usize = 0;
    while i < state.workspaces.len()
        invariant
            i <= state.workspaces@.len(),
            list@.len() == i,
            forall|j: int|
                0 <= j < i ==> (#[trigger] list@[j]).uuid@ == uuid_text(state.workspaces@[j].uuid)
                    && list@[j].name@ == state.workspaces@[j].name@ && list@[j].active == (j
                    == state.active_index),
        decreases state.workspaces@.len() - i,
    {
        let ws = &state.workspaces[i];
        list.push(
            WorkspaceEntry {
                uuid: uuid_to_string(ws.uuid),
                name: ws.name.clone(),
                active: i == state.active_index,
            },
        );
        i = i + 1;
    }
    list
}


/// The surface `debug.type` types into: that of the marked (active) pane
/// of the visible workspace, when it exists.
pub open spec fn typing_target(state: AppState) -> Option<usize> {
    if state.active_index < state.split_engines@.len() {
        let root = state.split_engines@[state.active_index as int].root;
        match root.marked_pane() {
            Some(p) => match root.surface_of_pane(p) {
                Some(s) => if s != 0 {
                    Some(s)
                } else {
                    None
                },
                None => None,
            },
            None => None,
        }
    } else {
        None
    }
}

/// A workspace command that names a workspace by UUID: not found (state
/// unchanged) or found at position `p`, where `found` says what happens.
pub open spec fn by_uuid(
    before: AppState,
    after: AppState,
    id: Seq<char>,
    reply: Result<RpcResult, RpcError>,
    found: spec_fn(int) -> bool,
) -> bool {
    let p = uuid_position(before.workspaces@, id);
    if p < 0 {
        reply matches Err(RpcError::NotFound) && after.same_as(before)
    } else {
        found(p)
    }
}

/// What handling `cmd` does to the state and how it is answered.
pub open spec fn command_outcome(
    before: AppState,
    after: AppState,
    cmd: SocketCommand,
    info: InstanceInfo,
    reply: Result<RpcResult, RpcError>,
) -> bool {
    match cmd {
        SocketCommand::Ping => (reply matches Ok(RpcResult::Pong)) && after.same_as(before),
        SocketCommand::Identify => after.same_as(before) && (reply matches Ok(
            RpcResult::Identity { version, platform, socket_path },
        ) && version@ == info.version@ && platform@ == "linux"@ && socket_path@ == info.socket_path@),
        SocketCommand::Capabilities => after.same_as(before) && (reply matches Ok(
            RpcResult::Capabilities { methods },
        ) && methods@.map_values(|m: &'static str| m@) == capability_list()),
        SocketCommand::WorkspaceList => after.same_as(before) && (reply matches Ok(
            RpcResult::Workspaces { list },
        ) && lists_workspaces(list@, before.workspaces@, before.active_index as int)),
        SocketCommand::WorkspaceCurrent => after.same_as(before) && if before.active_index
            < before.workspaces@.len() {
            reply matches Ok(RpcResult::CurrentWorkspace { uuid, name }) && uuid@ == uuid_text(
                before.workspaces@[before.active_index as int].uuid,
            ) && name@ == before.workspaces@[before.active_index as int].name@
        } else {
            reply matches Err(RpcError::NoWorkspace)
        },
        SocketCommand::WorkspaceCreate => before.create_outcome(after, before.next_id) && (reply matches Ok(
            RpcResult::Created { uuid },
        ) && uuid@ == uuid_text(after.workspaces@.last().uuid)),
        SocketCommand::WorkspaceSelect { id } => by_uuid(
            before,
            after,
            id@,
            reply,
            |p: int| (reply matches Ok(RpcResult::Empty)) && before.switch_outcome(after, p as usize),
        ),
        SocketCommand::WorkspaceClose { id } => by_uuid(
            before,
            after,
            id@,
            reply,
            |p: int|
                (before.close_outcome(after, p as usize, true) && (reply matches Ok(
                    RpcResult::Empty,
                ))) || (before.close_outcome(after, p as usize, false) && (reply matches Err(
                    RpcError::LastWorkspace,
                ))),
        ),
        SocketCommand::WorkspaceRename { id, name } => by_uuid(
            before,
            after,
            id@,
            reply,
            |p: int|
                (reply matches Ok(RpcResult::Empty)) && exists|s1: AppState, s2: AppState|
                    before.switch_outcome(s1, p as usize) && s1.rename_outcome(s2, name)
                        && s2.switch_outcome(after, before.active_index),
        ),
        SocketCommand::WorkspaceNext => (reply matches Ok(RpcResult::Empty)) && before.next_outcome(
            after,
        ),
        SocketCommand::WorkspacePrev => (reply matches Ok(RpcResult::Empty)) && before.prev_outcome(
            after,
        ),
        SocketCommand::WorkspaceLast => (reply matches Ok(RpcResult::Empty)) && before.prev_outcome(
            after,
        ),
        SocketCommand::WorkspaceReorder { id, position } => by_uuid(
            before,
            after,
            id@,
            reply,
            |p: int|
                (reply matches Ok(RpcResult::Empty)) && before.reorder_outcome(
                    after,
                    p as usize,
                    position,
                ),
        ),
        SocketCommand::WindowList => after.same_as(before) && (reply matches Ok(
            RpcResult::Windows { workspace_count },
        ) && workspace_count == before.workspaces@.len()),
        SocketCommand::WindowCurrent => (reply matches Ok(RpcResult::CurrentWindow)) && after.same_as(
            before,
        ),
        SocketCommand::DebugLayout => after.same_as(before) && if before.active_index
            < before.split_engines@.len() {
            reply matches Ok(RpcResult::Layout { layout }) && before.split_engines@[before.active_index as int].root.snapshot_is(
                layout,
            )
        } else {
            reply matches Err(RpcError::NoWorkspace)
        },
        SocketCommand::DebugType { text } => (reply matches Ok(RpcResult::Empty)) && match typing_target(
            before,
        ) {
            Some(s) => after.workspaces@ == before.workspaces@ && after.split_engines@
                == before.split_engines@ && after.active_index == before.active_index
                && after.next_id == before.next_id && after.next_display_number
                == before.next_display_number && appended(before.pending@, after.pending@, 1)
                && after.pending@.last() == (ViewAction::TypeText { surface: s, text }),
            None => after.same_as(before),
        },
        SocketCommand::NotImplemented { method } => after.same_as(before) && (reply matches Err(
            RpcError::MethodNotImplemented { method: m },
        ) && m@ == method@),
        _ => (reply matches Err(RpcError::PlannedLater)) && after.same_as(before),
    }
}

/// What a command needs of the state besides well-formedness: room for one
/// more workspace when it creates one.
pub open spec fn command_ready(state: AppState, cmd: SocketCommand) -> bool {
    cmd matches SocketCommand::WorkspaceCreate ==> state.next_id < u64::MAX / 1000
        && state.next_display_number < u32::MAX
}

/// Handles a socket command on the application state and returns the reply
/// (the request id is attached by the socket layer).
pub fn handle_socket_command(cmd: SocketCommand, state: &mut AppState, info: &InstanceInfo) -> (reply: Result<
    RpcResult,
    RpcError,
>)
    requires
        old(state).wf(),
        command_ready(*old(state), cmd),
    ensures
        final(state).wf(),
        command_outcome(*old(state), *final(state), cmd, *info, reply),
{
    let ghost cmd0 = cmd;
    match cmd {
        SocketCommand::Ping => Ok(RpcResult::Pong),
        SocketCommand::Identify => {
            proof {
                reveal_strlit("linux");
            }
            Ok(
                RpcResult::Identity {
                    version: info.version.clone(),
                    platform: "linux",
                    socket_path: info.socket_path.clone(),
                },
            )
        },
        SocketCommand::Capabilities => Ok(RpcResult::Capabilities { methods: capability_methods() }),
        SocketCommand::WorkspaceList => Ok(RpcResult::Workspaces { list: list_workspaces(state) }),
        SocketCommand::WorkspaceCurrent => {
            match state.active_workspace() {
                Some(ws) => Ok(
                    RpcResult::CurrentWorkspace { uuid: uuid_to_string(ws.uuid), name: ws.name.clone() },
                ),
                None => Err(RpcError::NoWorkspace),
            }
        },
        SocketCommand::WorkspaceCreate => {
            state.create_workspace();
            let last = state.workspaces.len() - 1;
            let uuid = uuid_to_string(state.workspaces[last].uuid);
            Ok(RpcResult::Created { uuid })
        },
        SocketCommand::WorkspaceSelect { id } => {
            match find_workspace_by_uuid(state, &id) {
                Some(i) => {
                    state.switch_to_index(i);
                    Ok(RpcResult::Empty)
                },
                None => Err(RpcError::NotFound),
            }
        },
        SocketCommand::WorkspaceClose { id } => {
            match find_workspace_by_uuid(state, &id) {
                Some(i) => {
                    let closed = state.close_workspace(i);
                    if closed {
                        Ok(RpcResult::Empty)
                    } else {
                        Err(RpcError::LastWorkspace)
                    }
                },
                None => Err(RpcError::NotFound),
            }
        },
        SocketCommand::WorkspaceRename { id, name } => {
            match find_workspace_by_uuid(state, &id) {
                Some(i) => {
                    let prev_active = state.active_index;
                    state.switch_to_index(i);
                    let ghost s1 = *state;
                    state.rename_active(name);
                    let ghost s2 = *state;
                    state.switch_to_index(prev_active);
                    Ok(RpcResult::Empty)
                },
                None => Err(RpcError::NotFound),
            }
        },
        SocketCommand::WorkspaceNext => {
            state.switch_next();
            Ok(RpcResult::Empty)
        },
        SocketCommand::WorkspacePrev => {
            state.switch_prev();
            Ok(RpcResult::Empty)
        },
        SocketCommand::WorkspaceLast => {
            state.switch_prev();
            Ok(RpcResult::Empty)
        },
        SocketCommand::WorkspaceReorder { id, position } => {
            match find_workspace_by_uuid(state, &id) {
                Some(from) => {
                    state.reorder_workspace(from, position);
                    Ok(RpcResult::Empty)
                },
                None => Err(RpcError::NotFound),
            }
        },
        SocketCommand::WindowList => Ok(RpcResult::Windows { workspace_count: state.workspaces.len() }),
        SocketCommand::WindowCurrent => Ok(RpcResult::CurrentWindow),
        SocketCommand::DebugLayout => {
            match state.active_split_engine() {
                Some(engine) => Ok(RpcResult::Layout { layout: engine.root.to_data() }),
                None => Err(RpcError::NoWorkspace),
            }
        },
        SocketCommand::DebugType { text } => {
            let mut target: Option<usize> = None;
            if let Some(engine) = state.active_split_engine() {
                if let Some(pane_id) = engine.root.find_active_pane_id() {
                    if let Some(surface) = engine.root.find_surface_for_pane(pane_id) {
                        if surface != 0 {
                            target = Some(surface);
                        }
                    }
                }
            }
            if let Some(surface) = target {
                let ghost pre = state.pending@;
                state.pending.push(ViewAction::TypeText { surface, text });
                assert(state.pending@.subrange(0, pre.len() as int) =~= pre);
            }
            Ok(RpcResult::Empty)
        },
        SocketCommand::NotImplemented { method } => Err(RpcError::MethodNotImplemented { method }),
        _ => Err(RpcError::PlannedLater),
    }
}


/// Whether `cmd` is a focus-intent command or one that adds, removes or
/// moves a workspace.
pub open spec fn may_change_visible(cmd: SocketCommand) -> bool {
    ||| cmd is WorkspaceSelect
    ||| cmd is WorkspaceNext
    ||| cmd is WorkspacePrev
    ||| cmd is WorkspaceLast
    ||| cmd is WorkspaceCreate
    ||| cmd is WorkspaceClose
    ||| cmd is WorkspaceReorder
}

/// The focus policy: every other command leaves the same workspaces, in
/// the same order, with the same one visible.
pub proof fn law_other_commands_keep_visible(
    before: AppState,
    after: AppState,
    cmd: SocketCommand,
    info: InstanceInfo,
    reply: Result<RpcResult, RpcError>,
)
    requires
        before.wf(),
        !may_change_visible(cmd),
        command_outcome(before, after, cmd, info, reply),
    ensures
        after.active_index == before.active_index,
        after.workspaces@.len() == before.workspaces@.len(),
        forall|i: int| 0 <= i < before.workspaces@.len() ==> (#[trigger] after.workspaces@[i]).id
            == before.workspaces@[i].id,
{
    if let SocketCommand::WorkspaceRename { id, name } = cmd {
        let p = uuid_position(before.workspaces@, id@);
        if p >= 0 {
            let (s1, s2) = choose|s1: AppState, s2: AppState|
                before.switch_outcome(s1, p as usize) && s1.rename_outcome(s2, name)
                    && s2.switch_outcome(after, before.active_index);
            assert forall|i: int| 0 <= i < before.workspaces@.len() implies (#[trigger] after.workspaces@[i]).id
                == before.workspaces@[i].id by {
                if s1.active_index < s1.workspaces@.len() && i != s1.active_index {
                    assert(s2.workspaces@[i] == s1.workspaces@[i]);
                }
            }
        }
    }
}


/// The error part of a failed reply: the error's code and message.
#[derive(Debug)]
pub struct ErrorBody {
    pub code: &'static str,
    pub message: String,
}

/// The reply to a request as it goes back to the client: the request's id,
/// whether it succeeded, and either the result or the error.
#[derive(Debug)]
pub struct RpcReply<Id> {
    pub id: Id,
    pub ok: bool,
    pub result: Option<RpcResult>,
    pub error: Option<ErrorBody>,
}

/// Whether `reply` is the reply to the request with id `id` whose answer is
/// `answer`: it carries the id; it is `ok` exactly when the answer is a
/// result; it holds that result when `ok`, and otherwise the error's code
/// and message.
pub open spec fn replies<Id>(reply: RpcReply<Id>, id: Id, answer: Result<RpcResult, RpcError>) -> bool {
    &&& reply.id == id
    &&& reply.ok == (answer is Ok)
    &&& match answer {
        Ok(r) => reply.result == Some(r) && reply.error is None,
        Err(e) => {
            &&& reply.result is None
            &&& reply.error is Some
            &&& reply.error->0.code@ == error_code(e)
            &&& reply.error->0.message@ == error_message(e)
        },
    }
}

/// Wraps the answer to the request with id `id` into its reply.
pub fn reply_to<Id>(id: Id, answer: Result<RpcResult, RpcError>) -> (reply: RpcReply<Id>)
    ensures
        replies(reply, id, answer),
{
    match answer {
        Ok(r) => RpcReply { id, ok: true, result: Some(r), error: None },
        Err(e) => {
            let body = ErrorBody { code: e.code(), message: e.message() };
            RpcReply { id, ok: false, result: None, error: Some(body) }
        },
    }
}

/// Handles the request with id `id` carrying `cmd`: answers the command on
/// the state and wraps the answer into the reply.
pub fn handle_request<Id>(id: Id, cmd: SocketCommand, state: &mut AppState, info: &InstanceInfo) -> (reply: RpcReply<Id>)
    requires
        old(state).wf(),
        command_ready(*old(state), cmd),
    ensures
        final(state).wf(),
        exists|answer: Result<RpcResult, RpcError>|
            command_outcome(*old(state), *final(state), cmd, *info, answer) && replies(reply, id, answer),
{
    let answer = handle_socket_command(cmd, state, info);
    let ghost a = answer;
    let reply = reply_to(id, answer);
    assert(command_outcome(*old(state), *state, cmd, *info, a) && replies(reply, id, a));
    reply
}

/// Every reply carries its request's id, and holds a result exactly when it
/// is `ok` and an error exactly when it is not.
pub proof fn law_reply_envelope<Id>(reply: RpcReply<Id>, id: Id, answer: Result<RpcResult, RpcError>)
    requires
        replies(reply, id, answer),
    ensures
        reply.id == id,
        reply.result is Some <==> reply.ok,
        reply.error is Some <==> !reply.ok,
{
}

} // verus!
