//! The server launch resolver: from a worktree snapshot to a launch
//! descriptor, or an error naming the binary that could not be found.

use vstd::prelude::*;
use vstd::string::StringExecFns;

use crate::context::WorktreeContext;
use crate::context::WorktreeContextView;
use crate::descriptor::LaunchDescriptor;
use crate::descriptor::LaunchDescriptorView;

verus! {

/// The program name the discovery strategy searches the worktree's `PATH` for.
pub open spec fn lsp_program_name_spec() -> Seq<char> {
    "path-intellisense-lsp"@
}

/// The preconfigured executable location the fixed-path strategy returns.
pub open spec fn fixed_server_path_spec() -> Seq<char> {
    "/Users/menglinmaker/Documents/software-projects/open-source/path-intellisense-lsp/lsp/out/path-intellisense-lsp"@
}

/// The user-facing message raised when `name` was not found on `PATH`.
pub open spec fn not_found_message_spec(name: Seq<char>) -> Seq<char> {
    "Could not find "@ + name + " binary"@
}

/// Exec counterpart of [`lsp_program_name_spec`].
pub fn lsp_program_name() -> (r: String)
    ensures
        r@ == lsp_program_name_spec(),
{
    String::from_str("path-intellisense-lsp")
}

/// Exec counterpart of [`fixed_server_path_spec`].
pub fn fixed_server_path() -> (r: String)
    ensures
        r@ == fixed_server_path_spec(),
{
    String::from_str(
        "/Users/menglinmaker/Documents/software-projects/open-source/path-intellisense-lsp/lsp/out/path-intellisense-lsp",
    )
}

/// How the resolver decides which executable path the descriptor carries.
///
/// The two strategies are mutually exclusive; the choice is an explicit
/// configuration switch held by the resolver.
#[derive(Clone, Copy, Debug, PartialEq, Eq, Structural)]
pub enum ResolutionStrategy {
    /// Return the preconfigured [`fixed_server_path_spec`] location as-is.
    FixedPath,
    /// Search the worktree's `PATH` for [`lsp_program_name_spec`].
    Discovery,
}

/// The only failure resolution can report: the discovery strategy did not
/// find the server binary on the worktree's `PATH`.
#[derive(Clone, Debug, PartialEq, Eq)]
pub enum ResolveError {
    BinaryNotFound { searched_name: String },
}

/// The mathematical value of a [`ResolveError`].
#[verifier::ext_equal]
pub ghost enum ResolveErrorView {
    BinaryNotFound { searched_name: Seq<char> },
}

impl View for ResolveError {
    type V = ResolveErrorView;

    open spec fn view(&self) -> ResolveErrorView {
        match self {
            ResolveError::BinaryNotFound { searched_name } => ResolveErrorView::BinaryNotFound {
                searched_name: searched_name@,
            },
        }
    }
}

impl ResolveErrorView {
    /// The message the host shows the user for this error.
    pub open spec fn message(self) -> Seq<char> {
        match self {
            ResolveErrorView::BinaryNotFound { searched_name } => not_found_message_spec(
                searched_name,
            ),
        }
    }
}

impl ResolveError {
    /// Renders the error as the user-facing message the host surfaces.
    pub fn message(&self) -> (r: String)
        ensures
            r@ == self@.message(),
    {
        match self {
            ResolveError::BinaryNotFound { searched_name } => {
                let mut m = String::from_str("Could not find ");
                m.append(searched_name.as_str());
                m.append(" binary");
                m
            },
        }
    }
}

/// What resolution returns, at the level of views: the whole result is a
/// function of the strategy and the context snapshot alone.
pub open spec fn spec_resolve(strategy: ResolutionStrategy, context: WorktreeContextView) -> Result<
    LaunchDescriptorView,
    ResolveErrorView,
> {
    match strategy {
        ResolutionStrategy::FixedPath => Ok(
            LaunchDescriptorView {
                path: fixed_server_path_spec(),
                args: Seq::empty(),
                env: context.shell_env,
            },
        ),
        ResolutionStrategy::Discovery => match context.binary_lookup {
            Some(path) => Ok(
                LaunchDescriptorView { path, args: Seq::empty(), env: context.shell_env },
            ),
            None => Err(
                ResolveErrorView::BinaryNotFound { searched_name: lsp_program_name_spec() },
            ),
        },
    }
}

/// Lifts an executable resolution result to the level of views.
pub open spec fn resolution_view(r: Result<LaunchDescriptor, ResolveError>) -> Result<
    LaunchDescriptorView,
    ResolveErrorView,
> {
    match r {
        Ok(descriptor) => Ok(descriptor@),
        Err(error) => Err(error@),
    }
}

/// The capability the host's extension mechanism expects: a parameterless
/// constructor, and one resolution operation per session start.
pub trait ExtensionCapability: Sized {
    /// The strategy this capability resolves with.
    spec fn configured_strategy(&self) -> ResolutionStrategy;

    /// The host-shaped constructor; it configures the fixed-path strategy.
    fn construct() -> (r: Self)
        ensures
            r.configured_strategy() == ResolutionStrategy::FixedPath,
    ;

    /// Translates the worktree snapshot into a launch descriptor, or fails
    /// with the one defined error.
    fn resolve_launch(&self, context: WorktreeContext) -> (r: Result<
        LaunchDescriptor,
        ResolveError,
    >)
        ensures
            resolution_view(r) == spec_resolve(self.configured_strategy(), context@),
    ;
}

/// The one resolver this library ships.  It holds nothing but its
/// configuration switch, so it may be invoked repeatedly and concurrently
/// with no state shared between calls.
pub struct ServerLaunchResolver {
    pub strategy: ResolutionStrategy,
}

impl ServerLaunchResolver {
    /// Builds a resolver with an explicitly chosen strategy.
    pub fn new(strategy: ResolutionStrategy) -> (r: Self)
        ensures
            r.strategy == strategy,
    {
        ServerLaunchResolver { strategy }
    }
}

impl ExtensionCapability for ServerLaunchResolver {
    open spec fn configured_strategy(&self) -> ResolutionStrategy {
        self.strategy
    }

    fn construct() -> (r: Self) {
        ServerLaunchResolver::new(ResolutionStrategy::FixedPath)
    }

    fn resolve_launch(&self, context: WorktreeContext) -> (r: Result<
        LaunchDescriptor,
        ResolveError,
    >) {
        match self.strategy {
            ResolutionStrategy::FixedPath => {
                let descriptor = LaunchDescriptor {
                    path: fixed_server_path(),
                    args: Vec::new(),
                    env: context.shell_env,
                };
                proof {
                    assert(descriptor@.args =~= Seq::<Seq<char>>::empty());
                }
                Ok(descriptor)
            },
            ResolutionStrategy::Discovery => match context.binary_lookup {
                Some(path) => {
                    let descriptor = LaunchDescriptor {
                        path,
                        args: Vec::new(),
                        env: context.shell_env,
                    };
                    proof {
                        assert(descriptor@.args =~= Seq::<Seq<char>>::empty());
                    }
                    Ok(descriptor)
                },
                None => Err(ResolveError::BinaryNotFound { searched_name: lsp_program_name() }),
            },
        }
    }
}

/// Under the fixed-path strategy, resolution always succeeds, the descriptor's
/// executable path equals the configured constant, its argument list is empty,
/// and its environment equals the context's shell environment exactly.
pub proof fn lemma_fixed_path_resolution(context: WorktreeContextView)
    ensures
        ({
            let r = spec_resolve(ResolutionStrategy::FixedPath, context);
            &&& r matches Ok(descriptor)
            &&& descriptor.path == fixed_server_path_spec()
            &&& descriptor.args == Seq::<Seq<char>>::empty()
            &&& descriptor.env == context.shell_env
        }),
{
}

/// Under the discovery strategy, when the binary lookup found `path`,
/// resolution succeeds with exactly that path, an empty argument list, and
/// the context's shell environment.
pub proof fn lemma_discovery_found(context: WorktreeContextView, path: Seq<char>)
    requires
        context.binary_lookup == Some(path),
    ensures
        ({
            let r = spec_resolve(ResolutionStrategy::Discovery, context);
            &&& r matches Ok(descriptor)
            &&& descriptor.path == path
            &&& descriptor.args == Seq::<Seq<char>>::empty()
            &&& descriptor.env == context.shell_env
        }),
{
}

/// Under the discovery strategy, when the binary lookup found nothing,
/// resolution fails with `BinaryNotFound` carrying exactly the configured
/// program name, whose message names that binary.
pub proof fn lemma_discovery_not_found(context: WorktreeContextView)
    requires
        context.binary_lookup is None,
    ensures
        ({
            let r = spec_resolve(ResolutionStrategy::Discovery, context);
            &&& r matches Err(error)
            &&& error == (ResolveErrorView::BinaryNotFound {
                searched_name: lsp_program_name_spec(),
            })
            &&& error.message() == not_found_message_spec(lsp_program_name_spec())
        }),
{
}

/// Idempotence: two resolution calls under the same strategy and the same
/// context snapshot return results that are equal field for field.
pub proof fn lemma_resolution_idempotent(
    strategy: ResolutionStrategy,
    context: WorktreeContextView,
    r1: Result<LaunchDescriptor, ResolveError>,
    r2: Result<LaunchDescriptor, ResolveError>,
)
    requires
        resolution_view(r1) == spec_resolve(strategy, context),
        resolution_view(r2) == spec_resolve(strategy, context),
    ensures
        resolution_view(r1) == resolution_view(r2),
{
}

} // verus!
