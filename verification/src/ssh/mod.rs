//! Workspaces attached to a remote host over SSH: what the connection task
//! reports to the window, and its reconnection lifecycle.
use vstd::prelude::*;
use crate::workspace::ConnectionState;

pub mod tunnel;

verus! {

/// Message from an SSH connection task to the window.
#[derive(Debug, Clone, Copy, PartialEq, Eq, Structural)]
pub enum SshEvent {
    /// The connection state of a workspace changed.
    StateChanged { workspace_id: u64, state: ConnectionState },
}

} // verus!
