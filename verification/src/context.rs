//! The host-supplied view of an open worktree.

use vstd::prelude::*;

verus! {

/// A snapshot of what the host knows about the open worktree at the moment a
/// language-server session starts.
///
/// The host owns the worktree; the resolver only reads this snapshot and never
/// mutates it.  `shell_env` is the worktree's shell environment, in the order
/// the host reports it.  `binary_lookup` is the outcome of searching the
/// worktree's effective `PATH` for the configured server program name:
/// `Some(path)` with the absolute path if the binary was found, `None` if not.
pub struct WorktreeContext {
    pub shell_env: Vec<(String, String)>,
    pub binary_lookup: Option<String>,
}

/// The mathematical value of a [`WorktreeContext`]: the environment as a
/// sequence of key/value character sequences, and the lookup outcome.
#[verifier::ext_equal]
pub ghost struct WorktreeContextView {
    pub shell_env: Seq<(Seq<char>, Seq<char>)>,
    pub binary_lookup: Option<Seq<char>>,
}

impl View for WorktreeContext {
    type V = WorktreeContextView;

    open spec fn view(&self) -> WorktreeContextView {
        WorktreeContextView {
            shell_env: self.shell_env.deep_view(),
            binary_lookup: self.binary_lookup.deep_view(),
        }
    }
}

} // verus!
