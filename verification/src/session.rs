//! Session persistence: the snapshot of workspaces that is written to disk,
//! where it is written, and how a saved snapshot is brought back.
use vstd::prelude::*;
use crate::split_engine::SplitNodeData;
use crate::text::{join_path, path_join};

verus! {

/// A saved workspace.
#[derive(Debug)]
pub struct WorkspaceSession {
    pub uuid: String,
    pub name: String,
    pub active_pane_uuid: Option<String>,
    pub layout: SplitNodeData,
}

/// Serializable workspace/pane layout snapshot.
#[derive(Debug)]
pub struct SessionData {
    pub version: u32,
    pub active_index: usize,
    pub workspaces: Vec<WorkspaceSession>,
}

/// The value of `$HOME`, empty when unset.
pub open spec fn home_or_empty(home: Option<Seq<char>>) -> Seq<char> {
    match home {
        Some(h) => h,
        None => Seq::<char>::empty(),
    }
}

/// The directory under which session data lives: `$XDG_DATA_HOME`, or
/// `$HOME/.local/share` (with `$HOME` empty when unset).
pub open spec fn data_home(xdg_data_home: Option<Seq<char>>, home: Option<Seq<char>>) -> Seq<char> {
    match xdg_data_home {
        Some(d) => d,
        None => home_or_empty(home) + "/.local/share"@,
    }
}

/// The session file: `<data home>/cmux/session.json`.
pub open spec fn session_file(xdg_data_home: Option<Seq<char>>, home: Option<Seq<char>>) -> Seq<
    char,
> {
    join_path(join_path(data_home(xdg_data_home, home), "cmux"@), "session.json"@)
}

/// Returns the session file path, `$XDG_DATA_HOME/cmux/session.json` or
/// `~/.local/share/cmux/session.json`, given the values of the two
/// environment variables (`None` when unset).
pub fn session_path(xdg_data_home: Option<&str>, home: Option<&str>) -> (path: String)
    ensures
        path@ == session_file(
            match xdg_data_home {
                Some(d) => Some(d@),
                None => None,
            },
            match home {
                Some(h) => Some(h@),
                None => None,
            },
        ),
{
    let base = match xdg_data_home {
        Some(d) => String::from_str(d),
        None => {
            let mut b = match home {
                Some(h) => String::from_str(h),
                None => String::new(),
            };
            b.append("/.local/share");
            b
        },
    };
    let dir = path_join(base.as_str(), "cmux");
    path_join(dir.as_str(), "session.json")
}

/// The temporary file an atomic save writes before renaming it over the
/// session file: the session path with ".tmp" appended.
pub fn session_temp_path(path: &str) -> (tmp: String)
    ensures
        tmp@ == path@ + ".tmp"@,
{
    let mut t = String::from_str(path);
    t.append(".tmp");
    t
}

impl SessionData {
    /// The workspace index to activate when this session is restored: the
    /// saved active index, clamped to the last workspace (0 when there is
    /// none).
    pub open spec fn restored_index(&self) -> int {
        if self.workspaces@.len() == 0 {
            0
        } else if self.active_index < self.workspaces@.len() {
            self.active_index as int
        } else {
            self.workspaces@.len() - 1
        }
    }

    /// The workspace index to activate when this session is restored.
    pub fn restored_active_index(&self) -> (i: usize)
        ensures
            i == self.restored_index(),
    {
        let n = self.workspaces.len();
        let last = if n == 0 {
            0
        } else {
            n - 1
        };
        if self.active_index < last {
            self.active_index
        } else {
            last
        }
    }
}

} // verus!
