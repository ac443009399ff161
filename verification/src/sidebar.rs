//! The sidebar's inline rename of the visible workspace: what committing
//! the entry does. Building the row widgets is the window's part.
use vstd::prelude::*;
use crate::app_state::AppState;
use crate::text::{trim, trimmed};

verus! {

/// Commits an inline rename whose entry holds `entry_text` (on Enter or
/// when the entry loses focus): the text without surrounding white space
/// becomes the visible workspace's name, unless it is empty, in which case
/// nothing is renamed. Returns the label the row shows afterwards: the
/// trimmed text, or the entry text as typed when that trims to nothing.
pub fn commit_inline_rename(state: &mut AppState, entry_text: &str) -> (label: String)
    requires
        old(state).wf(),
    ensures
        trimmed(entry_text@).len() > 0 ==> old(state).rename_outcome(*final(state), label)
            && label@ == trimmed(entry_text@),
        trimmed(entry_text@).len() == 0 ==> final(state).same_as(*old(state)) && label@ == entry_text@,
{
    let t = trim(entry_text);
    if t.unicode_len() > 0 {
        let label = t.clone();
        state.rename_active(t);
        label
    } else {
        String::from_str(entry_text)
    }
}

} // verus!
