//! Launch resolution for the `path-intellisense-lsp` language server.
//!
//! A code-editor host loads this library's logic as an extension and asks it
//! one question: how do I start the language server for the currently open
//! worktree?  The answer is a [`LaunchDescriptor`]: an executable
//! path, an argument list, and the environment to spawn the process with.
//!
//! The host supplies a [`WorktreeContext`] snapshot (the worktree's
//! shell environment, and the outcome of looking the server binary up on the
//! worktree's `PATH`).  The resolver turns that snapshot into a descriptor,
//! either from a fixed, preconfigured path or by PATH discovery; see
//! [`ServerLaunchResolver`].

mod context;
mod descriptor;
mod resolver;

pub use context::WorktreeContext;
pub use context::WorktreeContextView;
pub use descriptor::LaunchDescriptor;
pub use descriptor::LaunchDescriptorView;
pub use resolver::ExtensionCapability;
pub use resolver::ResolutionStrategy;
pub use resolver::ResolveError;
pub use resolver::ResolveErrorView;
pub use resolver::ServerLaunchResolver;
pub use resolver::fixed_server_path;
pub use resolver::fixed_server_path_spec;
pub use resolver::lsp_program_name;
pub use resolver::lsp_program_name_spec;
pub use resolver::not_found_message_spec;
pub use resolver::spec_resolve;
pub use resolver::resolution_view;
pub use resolver::lemma_fixed_path_resolution;
pub use resolver::lemma_discovery_found;
pub use resolver::lemma_discovery_not_found;
pub use resolver::lemma_resolution_idempotent;
