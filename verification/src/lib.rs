//! cmux for Linux, the verified core of a terminal multiplexer: workspaces
//! and their pane layouts, keyboard shortcuts, the control socket's
//! commands and replies, session snapshots, the SSH reconnection lifecycle,
//! the browser daemon's bookkeeping, the command-line client's requests and
//! the mapping of keyboard input to the terminal engine.
//!
//! Every function here states what it does in its contract and is proved
//! to meet it. The window, processes, sockets and files live in the program
//! around the library, which performs the view work the state queues.
use vstd::prelude::*;

pub mod app_state;
pub mod browser;
pub mod cli;
pub mod ghostty;
pub mod ids;
pub mod text;
pub mod session;
pub mod shortcuts;
pub mod sidebar;
pub mod socket;
pub mod split_engine;
pub mod ssh;
pub mod workspace;

verus! {
} // verus!
