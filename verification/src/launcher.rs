//! Starting the tunnel program.
use crate::effects::{Action, ActionView};
use crate::errors::{FipsError, FipsErrorView};
use crate::paths::{TunnelPaths, TunnelPathsView};
use crate::platform::Platform;
use vstd::prelude::*;

verus! {

/// One invocation of the tunnel program.
#[derive(Clone, Copy, Debug, PartialEq, Eq, Structural)]
pub enum LaunchStep {
    /// Starting the tunnel as a child process.
    Spawn,
    /// Installing the tunnel as a service.
    Install,
    /// Starting the installed service.
    Start,
    /// Having the running service read its configuration again.
    Reload,
}

impl LaunchStep {
    /// The invocation that a launch begins with.
    pub open spec fn spec_first(platform: Platform) -> LaunchStep {
        match platform {
            Platform::Windows => LaunchStep::Install,
            Platform::Posix => LaunchStep::Spawn,
        }
    }

    /// The invocation that follows this one, if any.
    pub open spec fn spec_next(self) -> Option<LaunchStep> {
        match self {
            LaunchStep::Spawn => None,
            LaunchStep::Install => Some(LaunchStep::Start),
            LaunchStep::Start => Some(LaunchStep::Reload),
            LaunchStep::Reload => None,
        }
    }

    /// What follows the path of the tunnel program on the command line,
    /// where it is fixed.
    pub open spec fn spec_arguments(self) -> Seq<char> {
        match self {
            LaunchStep::Spawn => Seq::empty(),
            LaunchStep::Install => "-install -quiet"@,
            LaunchStep::Start => "-start -quiet"@,
            LaunchStep::Reload => "-reload -quiet"@,
        }
    }

    /// The invocation that a launch begins with: the child process
    /// elsewhere, the installation of the service on Windows.
    pub fn first(platform: Platform) -> (step: LaunchStep)
        ensures
            step == LaunchStep::spec_first(platform),
    {
        match platform {
            Platform::Windows => LaunchStep::Install,
            Platform::Posix => LaunchStep::Spawn,
        }
    }

    /// The invocation that follows this one, if any. A service is
    /// installed, then started, then reloaded; a child process is started
    /// and that is all.
    pub fn next(self) -> (next: Option<LaunchStep>)
        ensures
            next == self.spec_next(),
    {
        match self {
            LaunchStep::Spawn => None,
            LaunchStep::Install => Some(LaunchStep::Start),
            LaunchStep::Start => Some(LaunchStep::Reload),
            LaunchStep::Reload => None,
        }
    }
}

/// The command line of an invocation: the tunnel program, a space, and
/// either the configuration file or the service arguments.
pub open spec fn spec_command(paths: TunnelPathsView, step: LaunchStep) -> Seq<char> {
    match step {
        LaunchStep::Spawn => paths.binary + " "@ + paths.config_file,
        _ => paths.binary + " "@ + step.spec_arguments(),
    }
}

/// What an invocation asks for.
pub open spec fn spec_start_stunnel(paths: TunnelPathsView, step: LaunchStep) -> ActionView {
    match step {
        LaunchStep::Spawn => ActionView::Spawn { command: spec_command(paths, step) },
        _ => ActionView::Run { command: spec_command(paths, step) },
    }
}

/// The error that ends an activation when `step` was not carried out.
pub open spec fn spec_launch_failure(
    paths: TunnelPathsView,
    step: LaunchStep,
    cause: Option<Seq<char>>,
) -> FipsErrorView {
    FipsErrorView::ProcessLaunchError { command: spec_command(paths, step), cause }
}

/// The command line of an invocation: the tunnel program, a space, and
/// then the configuration file for a child process, or `-install -quiet`,
/// `-start -quiet` or `-reload -quiet` for the service.
pub fn command(paths: &TunnelPaths, step: LaunchStep) -> (line: String)
    ensures
        line@ == spec_command(paths@, step),
{
    let line = paths.binary.clone().concat(" ");
    match step {
        LaunchStep::Spawn => line.concat(paths.config_file.as_str()),
        LaunchStep::Install => line.concat("-install -quiet"),
        LaunchStep::Start => line.concat("-start -quiet"),
        LaunchStep::Reload => line.concat("-reload -quiet"),
    }
}

/// What `step` of starting the tunnel asks for.
///
/// A child process is spawned and not waited for. Each invocation for the
/// service is run to its end.
pub fn start_stunnel(paths: &TunnelPaths, step: LaunchStep) -> (action: Action)
    ensures
        action@ == spec_start_stunnel(paths@, step),
{
    match step {
        LaunchStep::Spawn => Action::Spawn { command: command(paths, step) },
        _ => Action::Run { command: command(paths, step) },
    }
}

/// Hands a spawned child over to the caller's collection: `handle` is
/// appended, and the handles that were there stay as they are, in place.
pub fn register_child<H>(child_processes: &mut Vec<H>, handle: H)
    ensures
        final(child_processes)@ == old(child_processes)@.push(handle),
{
    child_processes.push(handle);
}

/// The error that ends an activation when `step` was not carried out: it
/// names the command line that was attempted and the reported cause.
pub fn launch_failure(paths: &TunnelPaths, step: LaunchStep, cause: Option<String>) -> (error:
    FipsError)
    ensures
        error@ == spec_launch_failure(paths@, step, cause.deep_view()),
{
    FipsError::ProcessLaunchError { command: command(paths, step), cause }
}

} // verus!
