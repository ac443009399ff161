//! A workspace: one named page of panes in the sidebar.
use vstd::prelude::*;
use crate::ids::{is_v4_uuid, new_random_uuid};
use crate::text::{decimal, push_decimal};

verus! {

/// Connection state of a workspace attached to a remote host over SSH.
#[derive(Clone, Copy, Debug, PartialEq, Eq, Structural)]
pub enum ConnectionState {
    /// Trying to (re)connect; the number of the attempt, starting at 0.
    Reconnecting(u32),
    Connected,
    Disconnected,
}

/// One workspace. `name` is what the sidebar shows, `display_number` the N
/// of its default name "Workspace N", and `stack_page_name` the name of its
/// page in the window's page stack.
#[derive(Debug)]
pub struct Workspace {
    pub id: u64,
    pub name: String,
    pub display_number: u32,
    pub stack_page_name: String,
    /// Stable identity used by the socket protocol and session files.
    pub uuid: u128,
}

/// The default name of the workspace with display number `n`: "Workspace n".
pub open spec fn default_workspace_name(n: nat) -> Seq<char> {
    "Workspace "@ + decimal(n)
}

/// The stack page name of the workspace with id `id`: "workspace-id".
pub open spec fn workspace_page_name(id: nat) -> Seq<char> {
    "workspace-"@ + decimal(id)
}

impl Workspace {
    /// A new workspace named "Workspace {display_number}" whose stack page is
    /// "workspace-{id}", with a fresh random UUID.
    pub fn new(id: u64, display_number: u32) -> (ws: Self)
        ensures
            ws.id == id,
            ws.display_number == display_number,
            ws.name@ == default_workspace_name(display_number as nat),
            ws.stack_page_name@ == workspace_page_name(id as nat),
            is_v4_uuid(ws.uuid),
    {
        let mut name = String::from_str("Workspace ");
        push_decimal(&mut name, display_number as u64);
        let mut page = String::from_str("workspace-");
        push_decimal(&mut page, id);
        Workspace { id, name, display_number, stack_page_name: page, uuid: new_random_uuid() }
    }

    /// Replaces the workspace's name; nothing else changes.
    pub fn rename(&mut self, name: String)
        ensures
            final(self).name == name,
            final(self).id == old(self).id,
            final(self).display_number == old(self).display_number,
            final(self).stack_page_name == old(self).stack_page_name,
            final(self).uuid == old(self).uuid,
    {
        self.name = name;
    }
}

} // verus!
