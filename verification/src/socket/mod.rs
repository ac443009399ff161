//! The control socket: where it lives, the commands it carries, and how they
//! are answered.
use vstd::prelude::*;
use crate::text::{decimal, join_path, path_join, push_decimal};

pub mod commands;
pub mod handlers;

verus! {

/// The directory the socket directory lives in: `$XDG_RUNTIME_DIR`, or
/// `/run/user/<uid>` when it is unset.
pub open spec fn runtime_base(xdg_runtime_dir: Option<Seq<char>>, uid: u32) -> Seq<char> {
    match xdg_runtime_dir {
        Some(d) => d,
        None => "/run/user/"@ + decimal(uid as nat),
    }
}

/// The socket directory: `<runtime base>/cmux`.
pub open spec fn socket_dir_path(xdg_runtime_dir: Option<Seq<char>>, uid: u32) -> Seq<char> {
    join_path(runtime_base(xdg_runtime_dir, uid), "cmux"@)
}

/// The socket file: `<socket directory>/cmux.sock`.
pub open spec fn socket_file_path(xdg_runtime_dir: Option<Seq<char>>, uid: u32) -> Seq<char> {
    join_path(socket_dir_path(xdg_runtime_dir, uid), "cmux.sock"@)
}

/// The marker file through which clients discover the socket:
/// `<socket directory>/last-socket-path`.
pub open spec fn marker_file_path(xdg_runtime_dir: Option<Seq<char>>, uid: u32) -> Seq<char> {
    join_path(socket_dir_path(xdg_runtime_dir, uid), "last-socket-path"@)
}

/// The view of an optional string argument.
pub open spec fn opt_view(s: Option<&str>) -> Option<Seq<char>> {
    match s {
        Some(v) => Some(v@),
        None => None,
    }
}

fn runtime_base_string(xdg_runtime_dir: Option<&str>, uid: u32) -> (base: String)
    ensures
        base@ == runtime_base(opt_view(xdg_runtime_dir), uid),
{
    match xdg_runtime_dir {
        Some(d) => String::from_str(d),
        None => {
            let mut b = String::from_str("/run/user/");
            push_decimal(&mut b, uid as u64);
            b
        },
    }
}

/// The Unix socket path: `$XDG_RUNTIME_DIR/cmux/cmux.sock`, falling back to
/// `/run/user/<uid>/cmux/cmux.sock`, given the variable's value (`None`
/// when unset) and the user id.
pub fn socket_path(xdg_runtime_dir: Option<&str>, uid: u32) -> (path: String)
    ensures
        path@ == socket_file_path(opt_view(xdg_runtime_dir), uid),
{
    let dir = socket_dir(xdg_runtime_dir, uid);
    path_join(dir.as_str(), "cmux.sock")
}

/// The directory that contains the socket file.
pub fn socket_dir(xdg_runtime_dir: Option<&str>, uid: u32) -> (dir: String)
    ensures
        dir@ == socket_dir_path(opt_view(xdg_runtime_dir), uid),
{
    let base = runtime_base_string(xdg_runtime_dir, uid);
    path_join(base.as_str(), "cmux")
}

/// The last-socket-path marker file, next to the socket.
pub fn last_socket_path_marker(xdg_runtime_dir: Option<&str>, uid: u32) -> (path: String)
    ensures
        path@ == marker_file_path(opt_view(xdg_runtime_dir), uid),
{
    let dir = socket_dir(xdg_runtime_dir, uid);
    path_join(dir.as_str(), "last-socket-path")
}

/// The focus-intent methods: the only commands allowed to move keyboard
/// focus to a pane or surface.
pub open spec fn focus_intent_list() -> Seq<Seq<char>> {
    seq![
        "workspace.select"@,
        "pane.focus"@,
        "pane.last"@,
        "surface.focus"@,
        "workspace.next"@,
        "workspace.previous"@,
        "workspace.last"@,
    ]
}

/// The focus-intent methods, in the order the policy lists them.
pub fn focus_intent_methods() -> (methods: Vec<&'static str>)
    ensures
        methods@.map_values(|m: &'static str| m@) == focus_intent_list(),
{
    let methods = vec![
        "workspace.select",
        "pane.focus",
        "pane.last",
        "surface.focus",
        "workspace.next",
        "workspace.previous",
        "workspace.last",
    ];
    assert(methods@.map_values(|m: &'static str| m@) =~= focus_intent_list());
    methods
}

} // verus!
