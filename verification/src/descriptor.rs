//! The launch descriptor handed back to the host.

use vstd::prelude::*;

verus! {

/// Everything the host needs to spawn the language-server process: the
/// executable path, the ordered argument list, and the environment to apply
/// to the spawned process.
///
/// The resolver fills `env` verbatim from the worktree's shell environment;
/// it performs no filtering, merging, or mutation.
#[derive(Clone, Debug, PartialEq, Eq)]
pub struct LaunchDescriptor {
    pub path: String,
    pub args: Vec<String>,
    pub env: Vec<(String, String)>,
}

/// The mathematical value of a [`LaunchDescriptor`].
#[verifier::ext_equal]
pub ghost struct LaunchDescriptorView {
    pub path: Seq<char>,
    pub args: Seq<Seq<char>>,
    pub env: Seq<(Seq<char>, Seq<char>)>,
}

impl View for LaunchDescriptor {
    type V = LaunchDescriptorView;

    open spec fn view(&self) -> LaunchDescriptorView {
        LaunchDescriptorView {
            path: self.path@,
            args: self.args.deep_view(),
            env: self.env.deep_view(),
        }
    }
}

} // verus!
