//! The activation gate: whether FIPS mode is on, and what to do next.
use crate::certificate::{
    certificate_failure, spec_certificate_failure, spec_write_stunnel_cert_file,
    write_stunnel_cert_file, CertStep,
};
use crate::config::{RuntimeConfig, RuntimeConfigView};
use crate::effects::{Action, ActionView, Event, EventView};
use crate::errors::{FipsError, FipsErrorView};
use crate::launcher::{
    launch_failure, register_child, spec_launch_failure, spec_start_stunnel, start_stunnel,
    LaunchStep,
};
use crate::materializer::{
    config_failure, generate_stunnel_config, spec_config_failure, spec_generate_stunnel_config,
    ConfigStep,
};
use crate::paths::{TunnelPaths, TunnelPathsView};
use crate::platform::Platform;
use vstd::prelude::*;

verus! {

/// Where an activation stands: the effect that the caller has been asked
/// for and has not reported on yet.
#[derive(Clone, Copy, Debug, PartialEq, Eq, Structural)]
pub enum Stage {
    /// Nothing has been asked for yet.
    NotStarted,
    /// The caller is looking for the tunnel program.
    ProbingBinary,
    /// The caller is putting the tunnel's configuration in place.
    Materializing(ConfigStep),
    /// The caller is putting the server's certificate in place.
    Certifying(CertStep),
    /// The caller is starting the tunnel.
    Launching(LaunchStep),
}

/// A point that an activation passes on its way, in this order.
#[derive(Clone, Copy, Debug, PartialEq, Eq, Structural)]
pub enum Milestone {
    /// The configuration file is not written yet.
    NotStarted,
    /// The configuration file is written, the certificate is not.
    ConfigWritten,
    /// The certificate is written, the tunnel is not started.
    CertWritten,
    /// The tunnel is started.
    Launched,
}

impl Milestone {
    /// How many milestones come before this one.
    pub open spec fn spec_rank(self) -> nat {
        match self {
            Milestone::NotStarted => 0,
            Milestone::ConfigWritten => 1,
            Milestone::CertWritten => 2,
            Milestone::Launched => 3,
        }
    }
}

impl Stage {
    /// The last milestone that an activation at this stage has passed.
    pub open spec fn spec_milestone(self) -> Milestone {
        match self {
            Stage::NotStarted | Stage::ProbingBinary | Stage::Materializing(_) => {
                Milestone::NotStarted
            },
            Stage::Certifying(_) => Milestone::ConfigWritten,
            Stage::Launching(_) => Milestone::CertWritten,
        }
    }

    /// Whether an activation on `platform` can come to this stage: a child
    /// process is spawned everywhere but on Windows, and a service is
    /// handled on Windows only.
    pub open spec fn spec_fits(self, platform: Platform) -> bool {
        match self {
            Stage::Launching(LaunchStep::Spawn) => platform is Posix,
            Stage::Launching(_) => platform is Windows,
            _ => true,
        }
    }

    /// How many stages come before this one in an activation.
    pub open spec fn spec_position(self) -> nat {
        match self {
            Stage::NotStarted => 0,
            Stage::ProbingBinary => 1,
            Stage::Materializing(ConfigStep::ConfigDir) => 2,
            Stage::Materializing(ConfigStep::LogDir) => 3,
            Stage::Materializing(ConfigStep::ConfigFile) => 4,
            Stage::Certifying(CertStep::Fetch) => 5,
            Stage::Certifying(CertStep::Store) => 6,
            Stage::Launching(LaunchStep::Spawn) => 7,
            Stage::Launching(LaunchStep::Install) => 7,
            Stage::Launching(LaunchStep::Start) => 8,
            Stage::Launching(LaunchStep::Reload) => 9,
        }
    }

    /// The stage that follows once the effect of this one is confirmed, or
    /// `None` where the activation is complete with it.
    pub open spec fn spec_successor(self, platform: Platform) -> Option<Stage> {
        match self {
            Stage::NotStarted => Some(Stage::ProbingBinary),
            Stage::ProbingBinary => Some(Stage::Materializing(ConfigStep::ConfigDir)),
            Stage::Materializing(step) => match step.spec_next() {
                Some(next) => Some(Stage::Materializing(next)),
                None => Some(Stage::Certifying(CertStep::Fetch)),
            },
            Stage::Certifying(CertStep::Fetch) => Some(Stage::Certifying(CertStep::Store)),
            Stage::Certifying(CertStep::Store) => Some(
                Stage::Launching(LaunchStep::spec_first(platform)),
            ),
            Stage::Launching(step) => match step.spec_next() {
                Some(next) => Some(Stage::Launching(next)),
                None => None,
            },
        }
    }

    /// Whether `event` reports that the effect of this stage took place.
    pub open spec fn spec_confirmed_by<H>(self, event: EventView<H>) -> bool {
        match self {
            Stage::NotStarted => true,
            Stage::ProbingBinary => event == (EventView::<H>::Probed { present: true }),
            Stage::Materializing(_) => event is Succeeded,
            Stage::Certifying(CertStep::Fetch) => event is Certificate,
            Stage::Certifying(CertStep::Store) => event is Succeeded,
            Stage::Launching(LaunchStep::Spawn) => event is Spawned,
            Stage::Launching(_) => event is Succeeded,
        }
    }

    /// The error that ends an activation whose effect at this stage was not
    /// confirmed. `cause` is the reason that the caller gave, if any.
    pub open spec fn spec_failure(
        self,
        paths: TunnelPathsView,
        cause: Option<Seq<char>>,
    ) -> FipsErrorView {
        match self {
            Stage::NotStarted | Stage::ProbingBinary => FipsErrorView::UnsupportedPlatform,
            Stage::Materializing(step) => spec_config_failure(paths, step, cause),
            Stage::Certifying(step) => spec_certificate_failure(paths, step, cause),
            Stage::Launching(step) => spec_launch_failure(paths, step, cause),
        }
    }

    /// What is asked of the caller on entering this stage. `fetched` is the
    /// certificate that the last event carried, if it carried one. The
    /// stages that work for a server fail where the configuration lacks the
    /// server or the FIPS git port.
    pub open spec fn spec_request(
        self,
        config: RuntimeConfigView,
        platform: Platform,
        paths: TunnelPathsView,
        fetched: Option<Seq<char>>,
    ) -> Result<ActionView, FipsErrorView> {
        match self {
            Stage::NotStarted | Stage::ProbingBinary => Ok(
                ActionView::ProbeBinary { path: paths.binary },
            ),
            Stage::Materializing(step) => match config.missing_field() {
                Some(field) => Err(FipsErrorView::MissingRequiredField { field }),
                None => Ok(
                    spec_generate_stunnel_config(
                        config.server->0,
                        config.fips_git_port->0,
                        platform,
                        paths,
                        step,
                    ),
                ),
            },
            Stage::Certifying(step) => match config.missing_field() {
                Some(field) => Err(FipsErrorView::MissingRequiredField { field }),
                None => Ok(
                    spec_write_stunnel_cert_file(
                        config.server->0,
                        config.certificate_port(),
                        paths,
                        match step {
                            CertStep::Fetch => None,
                            CertStep::Store => fetched,
                        },
                    ),
                ),
            },
            Stage::Launching(step) => Ok(spec_start_stunnel(paths, step)),
        }
    }
}

/// How an activation goes on after a report of the caller.
#[derive(Clone, Debug, PartialEq, Eq)]
pub enum Progress {
    /// The activation is over and nothing is left to do: FIPS mode is not
    /// requested, or the tunnel is started.
    Complete,
    /// The caller is to carry out `action` and to report on it at `stage`.
    Pending { stage: Stage, action: Action },
}

/// The mathematical content of a [`Progress`].
pub enum ProgressView {
    Complete,
    Pending { stage: Stage, action: ActionView },
}

impl View for Progress {
    type V = ProgressView;

    open spec fn view(&self) -> ProgressView {
        match *self {
            Progress::Complete => ProgressView::Complete,
            Progress::Pending { stage, action } => ProgressView::Pending { stage, action: action@ },
        }
    }
}

/// The mathematical content of the result of one step of an activation.
pub open spec fn outcome_view(outcome: Result<Progress, FipsError>) -> Result<
    ProgressView,
    FipsErrorView,
> {
    match outcome {
        Ok(progress) => Ok(progress@),
        Err(error) => Err(error@),
    }
}

/// One step of an activation.
///
/// Before anything is asked for, the step decides whether FIPS mode is
/// requested at all; the event plays no part in that. At every later stage
/// the event is first held against the effect that is pending. Anything but
/// its confirmation ends the activation with the error of that stage. After
/// a confirmation the activation is complete, or the next stage is entered
/// with its request.
pub open spec fn spec_setup_and_start_stunnel_if_fips_mode<H>(
    config: RuntimeConfigView,
    platform: Platform,
    paths: TunnelPathsView,
    stage: Stage,
    event: EventView<H>,
) -> Result<ProgressView, FipsErrorView> {
    if stage is NotStarted && !config.fips_requested() {
        Ok(ProgressView::Complete)
    } else if !stage.spec_confirmed_by(event) {
        Err(stage.spec_failure(paths, event.cause()))
    } else {
        match stage.spec_successor(platform) {
            None => Ok(ProgressView::Complete),
            Some(next) => match next.spec_request(config, platform, paths, event.certificate()) {
                Ok(action) => Ok(ProgressView::Pending { stage: next, action }),
                Err(error) => Err(error),
            },
        }
    }
}

/// What the steps of an activation return, one after the other, when it
/// stands at `stage` and the caller reports `events` in this order. The
/// first result that asks for nothing more is the last one.
pub open spec fn spec_run<H>(
    config: RuntimeConfigView,
    platform: Platform,
    paths: TunnelPathsView,
    stage: Stage,
    events: Seq<EventView<H>>,
) -> Seq<Result<ProgressView, FipsErrorView>>
    decreases events.len(),
{
    if events.len() == 0 {
        Seq::empty()
    } else {
        let outcome = spec_setup_and_start_stunnel_if_fips_mode(
            config,
            platform,
            paths,
            stage,
            events.first(),
        );
        match outcome {
            Ok(ProgressView::Pending { stage: next, action }) => seq![outcome] + spec_run(
                config,
                platform,
                paths,
                next,
                events.drop_first(),
            ),
            _ => seq![outcome],
        }
    }
}

/// The last milestone that an activation has passed after the step at
/// `stage` gave `outcome`. The tunnel is started once the last invocation
/// of the tunnel program is confirmed. A failure leaves the activation
/// where it was.
pub open spec fn spec_milestone_after(
    stage: Stage,
    outcome: Result<ProgressView, FipsErrorView>,
) -> Milestone {
    match outcome {
        Ok(ProgressView::Pending { stage: next, .. }) => next.spec_milestone(),
        Ok(ProgressView::Complete) => if stage is Launching {
            Milestone::Launched
        } else {
            stage.spec_milestone()
        },
        Err(_) => stage.spec_milestone(),
    }
}

/// The stage at which a result that asks for an effect expects the report.
pub open spec fn pending_stage(outcome: Result<ProgressView, FipsErrorView>) -> Stage {
    outcome->Ok_0->stage
}

/// The result asks for an effect that changes the file system.
pub open spec fn asks_to_write(outcome: Result<ProgressView, FipsErrorView>) -> bool {
    outcome matches Ok(ProgressView::Pending { action, .. }) && action.writes()
}

/// The result asks for the tunnel program to be started.
pub open spec fn asks_to_launch(outcome: Result<ProgressView, FipsErrorView>) -> bool {
    outcome matches Ok(ProgressView::Pending { action, .. }) && action.launches()
}

/// The caller's collection of child processes after one step: the handle of
/// a child whose start is confirmed is appended, and nothing else changes.
pub open spec fn spec_registered<H>(before: Seq<H>, stage: Stage, event: EventView<H>) -> Seq<H> {
    match (stage, event) {
        (Stage::Launching(LaunchStep::Spawn), EventView::Spawned { handle }) => before.push(handle),
        _ => before,
    }
}

impl Stage {
    /// The last milestone that an activation at this stage has passed: the
    /// configuration is written once the certificate is being put in place,
    /// and the certificate is written once the tunnel is being started.
    pub fn milestone(self) -> (passed: Milestone)
        ensures
            passed == self.spec_milestone(),
    {
        match self {
            Stage::NotStarted | Stage::ProbingBinary | Stage::Materializing(_) => {
                Milestone::NotStarted
            },
            Stage::Certifying(_) => Milestone::ConfigWritten,
            Stage::Launching(_) => Milestone::CertWritten,
        }
    }

    /// The stage that follows once the effect of this one is confirmed, or
    /// `None` where the activation is complete with it.
    pub fn successor(self, platform: Platform) -> (next: Option<Stage>)
        ensures
            next == self.spec_successor(platform),
    {
        match self {
            Stage::NotStarted => Some(Stage::ProbingBinary),
            Stage::ProbingBinary => Some(Stage::Materializing(ConfigStep::ConfigDir)),
            Stage::Materializing(step) => match step.next() {
                Some(next) => Some(Stage::Materializing(next)),
                None => Some(Stage::Certifying(CertStep::Fetch)),
            },
            Stage::Certifying(CertStep::Fetch) => Some(Stage::Certifying(CertStep::Store)),
            Stage::Certifying(CertStep::Store) => Some(
                Stage::Launching(LaunchStep::first(platform)),
            ),
            Stage::Launching(step) => match step.next() {
                Some(next) => Some(Stage::Launching(next)),
                None => None,
            },
        }
    }

    /// The error that ends an activation whose effect at this stage was not
    /// confirmed. `cause` is the reason that the caller gave, if any.
    pub fn failure(self, paths: &TunnelPaths, cause: Option<String>) -> (error: FipsError)
        ensures
            error@ == self.spec_failure(paths@, cause.deep_view()),
    {
        match self {
            Stage::NotStarted | Stage::ProbingBinary => FipsError::UnsupportedPlatform,
            Stage::Materializing(step) => config_failure(paths, step, cause),
            Stage::Certifying(step) => certificate_failure(paths, step, cause),
            Stage::Launching(step) => launch_failure(paths, step, cause),
        }
    }
}

/// The server and the FIPS git port of `config`, or the error that names
/// the first of the two that is missing.
fn required_fields(config: &RuntimeConfig) -> (res: Result<(String, String), FipsError>)
    ensures
        match config@.missing_field() {
            Some(field) => res matches Err(error) && error@ == (
            FipsErrorView::MissingRequiredField { field }),
            None => res matches Ok(found) && found.0@ == config@.server->0 && found.1@
                == config@.fips_git_port->0,
        },
{
    let server = match config.server() {
        Ok(server) => server,
        Err(error) => {
            return Err(error);
        },
    };
    let fips_git_port = match config.fips_git_port() {
        Ok(port) => port,
        Err(error) => {
            return Err(error);
        },
    };
    Ok((server, fips_git_port))
}

/// Enters `stage`: asks for its effect, or fails where the configuration
/// lacks what the effect needs.
fn enter(
    config: &RuntimeConfig,
    platform: Platform,
    paths: &TunnelPaths,
    stage: Stage,
    fetched: Option<String>,
) -> (res: Result<Progress, FipsError>)
    ensures
        outcome_view(res) == match stage.spec_request(
            config@,
            platform,
            paths@,
            fetched.deep_view(),
        ) {
            Ok(action) => Ok(ProgressView::Pending { stage, action }),
            Err(error) => Err(error),
        },
{
    let action = match stage {
        Stage::NotStarted | Stage::ProbingBinary => Action::ProbeBinary {
            path: paths.binary.clone(),
        },
        Stage::Materializing(step) => match required_fields(config) {
            Ok((server, fips_git_port)) => generate_stunnel_config(
                server.as_str(),
                fips_git_port.as_str(),
                platform,
                paths,
                step,
            ),
            Err(error) => {
                return Err(error);
            },
        },
        Stage::Certifying(step) => match required_fields(config) {
            Ok((server, _)) => {
                let api_port = config.certificate_port();
                let fetched = match step {
                    CertStep::Fetch => None,
                    CertStep::Store => fetched,
                };
                write_stunnel_cert_file(server.as_str(), api_port.as_str(), paths, fetched)
            },
            Err(error) => {
                return Err(error);
            },
        },
        Stage::Launching(step) => start_stunnel(paths, step),
    };
    Ok(Progress::Pending { stage, action })
}

/// Goes on after the effect of `stage` was confirmed.
fn proceed(
    config: &RuntimeConfig,
    platform: Platform,
    paths: &TunnelPaths,
    stage: Stage,
    fetched: Option<String>,
) -> (res: Result<Progress, FipsError>)
    ensures
        outcome_view(res) == match stage.spec_successor(platform) {
            None => Ok(ProgressView::Complete),
            Some(next) => match next.spec_request(
                config@,
                platform,
                paths@,
                fetched.deep_view(),
            ) {
                Ok(action) => Ok(ProgressView::Pending { stage: next, action }),
                Err(error) => Err(error),
            },
        },
{
    match stage.successor(platform) {
        None => Ok(Progress::Complete),
        Some(next) => enter(config, platform, paths, next, fetched),
    }
}

/// One step of setting up and starting the tunnel, if FIPS mode is on.
///
/// The caller begins with the stage [`Stage::NotStarted`] and any event,
/// carries out the action that comes back, and calls again with the stage
/// that came with the action and the event that reports on it, until the
/// result is [`Progress::Complete`] or an error.
///
/// Where FIPS mode is not requested, the activation is complete at once and
/// nothing is asked for. Otherwise the effects are asked for one by one:
/// the probe for the tunnel program, the two directories, the configuration
/// file, the certificate and its file, and the start of the tunnel. A
/// missing tunnel program ends the activation as unsupported. Then a
/// missing server or FIPS git port ends it, the server named first. An
/// effect that is not confirmed ends it with the error of its stage. No
/// stage is left out, none is repeated, and nothing is undone after a
/// failure.
///
/// A child process whose start is confirmed is appended to
/// `child_processes`; nothing else touches that collection.
pub fn setup_and_start_stunnel_if_fips_mode<H>(
    config: &RuntimeConfig,
    platform: Platform,
    paths: &TunnelPaths,
    stage: Stage,
    event: Event<H>,
    child_processes: &mut Vec<H>,
) -> (res: Result<Progress, FipsError>)
    ensures
        outcome_view(res) == spec_setup_and_start_stunnel_if_fips_mode(
            config@,
            platform,
            paths@,
            stage,
            event@,
        ),
        final(child_processes)@ == spec_registered(old(child_processes)@, stage, event@),
{
    match stage {
        Stage::NotStarted => {
            if config.fips_requested() {
                proceed(config, platform, paths, stage, None)
            } else {
                Ok(Progress::Complete)
            }
        },
        Stage::ProbingBinary => match event {
            Event::Probed { present: true } => proceed(config, platform, paths, stage, None),
            other => Err(stage.failure(paths, other.cause())),
        },
        Stage::Certifying(CertStep::Fetch) => match event {
            Event::Certificate { pem } => proceed(config, platform, paths, stage, Some(pem)),
            other => Err(stage.failure(paths, other.cause())),
        },
        Stage::Launching(LaunchStep::Spawn) => match event {
            Event::Spawned { handle } => {
                register_child(child_processes, handle);
                proceed(config, platform, paths, stage, None)
            },
            other => Err(stage.failure(paths, other.cause())),
        },
        _ => match event {
            Event::Succeeded => proceed(config, platform, paths, stage, None),
            other => Err(stage.failure(paths, other.cause())),
        },
    }
}

} // verus!
