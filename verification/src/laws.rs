//! What holds of the library as a whole.
use crate::activation::{
    asks_to_launch, asks_to_write, pending_stage, spec_milestone_after, spec_registered,
    spec_run, spec_setup_and_start_stunnel_if_fips_mode, Milestone, ProgressView, Stage,
};
use crate::certificate::CertStep;
use crate::config::RuntimeConfigView;
use crate::effects::{ActionView, EventView};
use crate::errors::{FipsErrorView, RequiredField};
use crate::launcher::{spec_start_stunnel, LaunchStep};
use crate::materializer::{
    lemma_render_push, spec_directives, spec_render, spec_stunnel_config, ConfigStep,
};
use crate::paths::TunnelPathsView;
use crate::platform::Platform;
use vstd::prelude::*;

verus! {

/// Joining texts end to end does not depend on the grouping.
proof fn lemma_concat_assoc(a: Seq<char>, b: Seq<char>, c: Seq<char>)
    ensures
        a + (b + c) == a + b + c,
{
    assert(a + (b + c) =~= a + b + c);
}

/// Rendering the first `done + 1` lines appends line `done` and a line
/// ending to the rendering of the first `done` lines.
proof fn lemma_render_take(lines: Seq<Seq<char>>, done: int, newline: Seq<char>)
    requires
        0 <= done < lines.len(),
    ensures
        spec_render(lines.take(done + 1), newline) == spec_render(lines.take(done), newline)
            + lines[done] + newline,
{
    lemma_render_push(lines.take(done), lines[done], newline);
    assert(lines.take(done).push(lines[done]) =~= lines.take(done + 1));
}

/// The content of the configuration file is the fixed sequence of
/// directives with the server, the port and the two paths put in, each
/// directive ended by the platform's line ending. `foreground = quiet` is
/// there on every platform but Windows.
pub proof fn lemma_config_is_canonical(
    platform: Platform,
    server: Seq<char>,
    fips_git_port: Seq<char>,
    paths: TunnelPathsView,
)
    ensures
        spec_stunnel_config(platform, server, fips_git_port, paths) == {
            let end = platform.spec_newline();
            "fips = yes"@ + end + "client = yes"@ + end + "output = "@ + paths.log_file + end + (
            match platform {
                Platform::Windows => Seq::<char>::empty(),
                Platform::Posix => "foreground = quiet"@ + end,
            }) + "[git]"@ + end + "accept = "@ + fips_git_port + end + "connect = "@ + server
                + ":8989"@ + end + "checkHost = "@ + server + end + "verifyChain = yes"@ + end
                + "verify = 3"@ + end + "CAfile = "@ + paths.cert_file + end
        },
{
    let end = platform.spec_newline();
    let lines = spec_directives(platform, server, fips_git_port, paths.log_file, paths.cert_file);
    let r0 = spec_render(lines.take(0), end);
    assert(r0 =~= Seq::<char>::empty());
    lemma_render_take(lines, 0, end);
    let r1 = "fips = yes"@ + end;
    assert(spec_render(lines.take(1), end) == r1) by {
        assert(r0 + "fips = yes"@ =~= "fips = yes"@);
    }
    lemma_render_take(lines, 1, end);
    let r2 = r1 + "client = yes"@ + end;
    assert(spec_render(lines.take(2), end) == r2);
    lemma_render_take(lines, 2, end);
    let r3 = r2 + "output = "@ + paths.log_file + end;
    assert(spec_render(lines.take(3), end) == r3) by {
        lemma_concat_assoc(r2, "output = "@, paths.log_file);
    }
    let shift: int = match platform {
        Platform::Windows => 0,
        Platform::Posix => 1,
    };
    let r4 = r3 + (match platform {
        Platform::Windows => Seq::<char>::empty(),
        Platform::Posix => "foreground = quiet"@ + end,
    });
    assert(spec_render(lines.take(3 + shift), end) == r4) by {
        match platform {
            Platform::Windows => {
                assert(r3 + Seq::<char>::empty() =~= r3);
            },
            Platform::Posix => {
                lemma_render_take(lines, 3, end);
                lemma_concat_assoc(r3, "foreground = quiet"@, end);
            },
        }
    }
    lemma_render_take(lines, 3 + shift, end);
    let r5 = r4 + "[git]"@ + end;
    assert(spec_render(lines.take(4 + shift), end) == r5);
    lemma_render_take(lines, 4 + shift, end);
    let r6 = r5 + "accept = "@ + fips_git_port + end;
    assert(spec_render(lines.take(5 + shift), end) == r6) by {
        lemma_concat_assoc(r5, "accept = "@, fips_git_port);
    }
    lemma_render_take(lines, 5 + shift, end);
    let r7 = r6 + "connect = "@ + server + ":8989"@ + end;
    assert(spec_render(lines.take(6 + shift), end) == r7) by {
        lemma_concat_assoc(r6, "connect = "@ + server, ":8989"@);
        lemma_concat_assoc(r6, "connect = "@, server);
    }
    lemma_render_take(lines, 6 + shift, end);
    let r8 = r7 + "checkHost = "@ + server + end;
    assert(spec_render(lines.take(7 + shift), end) == r8) by {
        lemma_concat_assoc(r7, "checkHost = "@, server);
    }
    lemma_render_take(lines, 7 + shift, end);
    let r9 = r8 + "verifyChain = yes"@ + end;
    assert(spec_render(lines.take(8 + shift), end) == r9);
    lemma_render_take(lines, 8 + shift, end);
    let r10 = r9 + "verify = 3"@ + end;
    assert(spec_render(lines.take(9 + shift), end) == r10);
    lemma_render_take(lines, 9 + shift, end);
    let r11 = r10 + "CAfile = "@ + paths.cert_file + end;
    assert(spec_render(lines.take(10 + shift), end) == r11) by {
        lemma_concat_assoc(r10, "CAfile = "@, paths.cert_file);
    }
    assert(lines.take(10 + shift) =~= lines);
}

/// Writing the configuration again gives the same file: the request to
/// write it depends on the server, the FIPS git port, the platform and the
/// paths, and on nothing else that a configuration holds.
pub proof fn lemma_materialization_is_idempotent<H>(
    first: RuntimeConfigView,
    second: RuntimeConfigView,
    platform: Platform,
    paths: TunnelPathsView,
)
    requires
        first.missing_field() is None,
        first.server == second.server,
        first.fips_git_port == second.fips_git_port,
    ensures
        spec_setup_and_start_stunnel_if_fips_mode(
            first,
            platform,
            paths,
            Stage::Materializing(ConfigStep::LogDir),
            EventView::<H>::Succeeded,
        ) == spec_setup_and_start_stunnel_if_fips_mode(
            second,
            platform,
            paths,
            Stage::Materializing(ConfigStep::LogDir),
            EventView::<H>::Succeeded,
        ),
        spec_setup_and_start_stunnel_if_fips_mode(
            first,
            platform,
            paths,
            Stage::Materializing(ConfigStep::LogDir),
            EventView::<H>::Succeeded,
        ) == Ok::<ProgressView, FipsErrorView>(
            ProgressView::Pending {
                stage: Stage::Materializing(ConfigStep::ConfigFile),
                action: ActionView::WriteFile {
                    path: paths.config_file,
                    content: spec_stunnel_config(
                        platform,
                        first.server->0,
                        first.fips_git_port->0,
                        paths,
                    ),
                },
            },
        ),
{
}

/// Each result of a run is the step from the stage that the result before
/// it named, or from the stage at which the run began, on the event of the
/// same index. Every result but the last asks for an effect.
pub proof fn lemma_run_unfolds<H>(
    config: RuntimeConfigView,
    platform: Platform,
    paths: TunnelPathsView,
    stage: Stage,
    events: Seq<EventView<H>>,
    index: int,
)
    requires
        0 <= index < spec_run(config, platform, paths, stage, events).len(),
    ensures
        index < events.len(),
        index > 0 ==> spec_run(config, platform, paths, stage, events)[index - 1] matches Ok(
            ProgressView::Pending { .. },
        ),
        spec_run(config, platform, paths, stage, events)[index]
            == spec_setup_and_start_stunnel_if_fips_mode(
            config,
            platform,
            paths,
            if index == 0 {
                stage
            } else {
                pending_stage(spec_run(config, platform, paths, stage, events)[index - 1])
            },
            events[index],
        ),
    decreases index,
{
    let outcome = spec_setup_and_start_stunnel_if_fips_mode(
        config,
        platform,
        paths,
        stage,
        events.first(),
    );
    if index > 0 {
        let next = pending_stage(outcome);
        let rest = events.drop_first();
        assert(spec_run(config, platform, paths, stage, events) == seq![outcome] + spec_run(
            config,
            platform,
            paths,
            next,
            rest,
        ));
        lemma_run_unfolds(config, platform, paths, next, rest, index - 1);
    }
}

/// A run takes the stages in their order: no stage is left out and none is
/// taken twice. The stages are those of the platform.
pub proof fn lemma_run_takes_stages_in_order<H>(
    config: RuntimeConfigView,
    platform: Platform,
    paths: TunnelPathsView,
    stage: Stage,
    events: Seq<EventView<H>>,
    index: int,
)
    requires
        stage.spec_fits(platform),
        0 <= index < spec_run(config, platform, paths, stage, events).len(),
        spec_run(config, platform, paths, stage, events)[index] is Ok,
        spec_run(config, platform, paths, stage, events)[index]->Ok_0 is Pending,
    ensures
        pending_stage(spec_run(config, platform, paths, stage, events)[index]).spec_position()
            == stage.spec_position() + index + 1,
        pending_stage(spec_run(config, platform, paths, stage, events)[index]).spec_fits(platform),
    decreases index,
{
    lemma_run_unfolds(config, platform, paths, stage, events, index);
    if index > 0 {
        lemma_run_takes_stages_in_order(config, platform, paths, stage, events, index - 1);
    }
}

/// Where FIPS mode is not requested, an activation is complete at its
/// first step: nothing is asked for, and the caller's child processes stay
/// as they are.
pub proof fn lemma_inactive_is_no_op<H>(
    config: RuntimeConfigView,
    platform: Platform,
    paths: TunnelPathsView,
    events: Seq<EventView<H>>,
    children: Seq<H>,
)
    requires
        !config.fips_requested(),
        events.len() > 0,
    ensures
        spec_run(config, platform, paths, Stage::NotStarted, events) == seq![
            Ok::<ProgressView, FipsErrorView>(ProgressView::Complete),
        ],
        spec_registered(children, Stage::NotStarted, events.first()) == children,
{
}

/// Where the tunnel program is not reported present, an activation fails
/// as unsupported. All that it ever asked for is the probe: no directory is
/// created and no file is written.
pub proof fn lemma_missing_binary_is_unsupported<H>(
    config: RuntimeConfigView,
    platform: Platform,
    paths: TunnelPathsView,
    events: Seq<EventView<H>>,
)
    requires
        config.fips_requested(),
        events.len() >= 2,
        events[1] != (EventView::<H>::Probed { present: true }),
    ensures
        spec_run(config, platform, paths, Stage::NotStarted, events) == seq![
            Ok::<ProgressView, FipsErrorView>(
                ProgressView::Pending {
                    stage: Stage::ProbingBinary,
                    action: ActionView::ProbeBinary { path: paths.binary },
                },
            ),
            Err::<ProgressView, FipsErrorView>(FipsErrorView::UnsupportedPlatform),
        ],
        forall|index: int|
            0 <= index < spec_run(config, platform, paths, Stage::NotStarted, events).len()
                ==> !asks_to_write(
                #[trigger] spec_run(config, platform, paths, Stage::NotStarted, events)[index],
            ),
{
    let rest = events.drop_first();
    assert(rest.first() == events[1]);
    assert(spec_run(config, platform, paths, Stage::ProbingBinary, rest) =~= seq![
        Err::<ProgressView, FipsErrorView>(FipsErrorView::UnsupportedPlatform),
    ]);
    assert(spec_run(config, platform, paths, Stage::NotStarted, events) =~= seq![
        Ok::<ProgressView, FipsErrorView>(
            ProgressView::Pending {
                stage: Stage::ProbingBinary,
                action: ActionView::ProbeBinary { path: paths.binary },
            },
        ),
        Err::<ProgressView, FipsErrorView>(FipsErrorView::UnsupportedPlatform),
    ]);
}

/// Where the tunnel program is present and the server or the FIPS git port
/// is not configured, an activation fails and names the missing setting,
/// the server before the port. All that it ever asked for is the probe: no
/// directory is created and no file is written.
pub proof fn lemma_missing_field_is_reported<H>(
    config: RuntimeConfigView,
    platform: Platform,
    paths: TunnelPathsView,
    events: Seq<EventView<H>>,
)
    requires
        config.fips_requested(),
        config.server is None || config.fips_git_port is None,
        events.len() >= 2,
        events[1] == (EventView::<H>::Probed { present: true }),
    ensures
        spec_run(config, platform, paths, Stage::NotStarted, events) == seq![
            Ok::<ProgressView, FipsErrorView>(
                ProgressView::Pending {
                    stage: Stage::ProbingBinary,
                    action: ActionView::ProbeBinary { path: paths.binary },
                },
            ),
            Err::<ProgressView, FipsErrorView>(
                FipsErrorView::MissingRequiredField {
                    field: if config.server is None {
                        RequiredField::Server
                    } else {
                        RequiredField::FipsGitPort
                    },
                },
            ),
        ],
        forall|index: int|
            0 <= index < spec_run(config, platform, paths, Stage::NotStarted, events).len()
                ==> !asks_to_write(
                #[trigger] spec_run(config, platform, paths, Stage::NotStarted, events)[index],
            ),
{
    let rest = events.drop_first();
    assert(rest.first() == events[1]);
    let field = if config.server is None {
        RequiredField::Server
    } else {
        RequiredField::FipsGitPort
    };
    assert(spec_run(config, platform, paths, Stage::ProbingBinary, rest) =~= seq![
        Err::<ProgressView, FipsErrorView>(FipsErrorView::MissingRequiredField { field }),
    ]);
    assert(spec_run(config, platform, paths, Stage::NotStarted, events) =~= seq![
        Ok::<ProgressView, FipsErrorView>(
            ProgressView::Pending {
                stage: Stage::ProbingBinary,
                action: ActionView::ProbeBinary { path: paths.binary },
            },
        ),
        Err::<ProgressView, FipsErrorView>(FipsErrorView::MissingRequiredField { field }),
    ]);
}

/// Merging never replaces a FIPS flag that is present, always fills one
/// that is absent, and always replaces the FIPS git port. The server and
/// the API port stay as they are.
pub proof fn lemma_merge_fills_flag_and_replaces_port(
    config: RuntimeConfigView,
    fips: bool,
    fips_git_port: Seq<char>,
)
    ensures
        config.fips is Some ==> config.merged(fips, fips_git_port).fips == config.fips,
        config.fips is None ==> config.merged(fips, fips_git_port).fips == Some(fips),
        config.merged(fips, fips_git_port).fips_git_port == Some(fips_git_port),
        config.merged(fips, fips_git_port).server == config.server,
        config.merged(fips, fips_git_port).api_port == config.api_port,
{
}

/// A second merge leaves the flag that the first one settled and puts its
/// own git port in place of the first one's.
pub proof fn lemma_merge_twice(
    config: RuntimeConfigView,
    first_fips: bool,
    first_port: Seq<char>,
    second_fips: bool,
    second_port: Seq<char>,
)
    ensures
        config.merged(first_fips, first_port).merged(second_fips, second_port) == config.merged(
            first_fips,
            second_port,
        ),
{
}

/// The caller's child processes are only ever added to: after a step they
/// are the ones from before, in place, with at most one more at the end.
/// One is added exactly when the start of a child process is confirmed.
pub proof fn lemma_children_are_only_appended<H>(
    children: Seq<H>,
    stage: Stage,
    event: EventView<H>,
)
    ensures
        children.is_prefix_of(spec_registered(children, stage, event)),
        spec_registered(children, stage, event).len() <= children.len() + 1,
        spec_registered(children, stage, event) != children <==> stage == Stage::Launching(
            LaunchStep::Spawn,
        ) && event is Spawned,
        stage.spec_fits(Platform::Windows) ==> spec_registered(children, stage, event) == children,
{
    if stage == Stage::Launching(LaunchStep::Spawn) && event is Spawned {
        assert(spec_registered(children, stage, event).len() == children.len() + 1);
    }
}

/// The milestones lie in the order of the stages: the configuration is
/// written once the first five stages are behind, the certificate once the
/// first seven are.
pub proof fn lemma_milestones_follow_stages(stage: Stage)
    ensures
        stage.spec_milestone() == if stage.spec_position() <= 4 {
            Milestone::NotStarted
        } else if stage.spec_position() <= 6 {
            Milestone::ConfigWritten
        } else {
            Milestone::CertWritten
        },
{
}

/// No milestone is skipped and none is lost: a step leaves the activation
/// at the milestone where it was or takes it to the very next one. It
/// takes it on exactly when the configuration file, the certificate file
/// or the last invocation of the tunnel program is confirmed. A step that
/// fails leaves the activation where it was.
pub proof fn lemma_milestones_advance_one_at_a_time<H>(
    config: RuntimeConfigView,
    platform: Platform,
    paths: TunnelPathsView,
    stage: Stage,
    event: EventView<H>,
)
    ensures
        ({
            let outcome = spec_setup_and_start_stunnel_if_fips_mode(
                config,
                platform,
                paths,
                stage,
                event,
            );
            let before = stage.spec_milestone().spec_rank();
            let after = spec_milestone_after(stage, outcome).spec_rank();
            &&& before <= after <= before + 1
            &&& outcome is Err ==> after == before
            &&& after == before + 1 <==> outcome is Ok && (stage == Stage::Materializing(
                ConfigStep::ConfigFile,
            ) || stage == Stage::Certifying(CertStep::Store) || (stage is Launching
                && stage.spec_successor(platform) is None))
        }),
{
}

/// The tunnel is started only after its files are in place. Where a run
/// from the beginning asks for the tunnel program to be started, it has
/// asked before for the configuration file to be written, with the
/// configuration text, and for the certificate file to be written, with
/// the very text that the caller reported as retrieved.
pub proof fn lemma_launch_follows_files<H>(
    config: RuntimeConfigView,
    platform: Platform,
    paths: TunnelPathsView,
    events: Seq<EventView<H>>,
    index: int,
)
    requires
        0 <= index < spec_run(config, platform, paths, Stage::NotStarted, events).len(),
        asks_to_launch(spec_run(config, platform, paths, Stage::NotStarted, events)[index]),
    ensures
        index >= 6,
        config.missing_field() is None,
        spec_run(config, platform, paths, Stage::NotStarted, events)[3] == Ok::<
            ProgressView,
            FipsErrorView,
        >(
            ProgressView::Pending {
                stage: Stage::Materializing(ConfigStep::ConfigFile),
                action: ActionView::WriteFile {
                    path: paths.config_file,
                    content: spec_stunnel_config(
                        platform,
                        config.server->0,
                        config.fips_git_port->0,
                        paths,
                    ),
                },
            },
        ),
        events[5] is Certificate,
        spec_run(config, platform, paths, Stage::NotStarted, events)[5] == Ok::<
            ProgressView,
            FipsErrorView,
        >(
            ProgressView::Pending {
                stage: Stage::Certifying(CertStep::Store),
                action: ActionView::WriteFile { path: paths.cert_file, content: events[5]->pem },
            },
        ),
{
    let run = spec_run(config, platform, paths, Stage::NotStarted, events);
    lemma_run_takes_stages_in_order(config, platform, paths, Stage::NotStarted, events, index);
    lemma_run_unfolds(config, platform, paths, Stage::NotStarted, events, index);
    assert(index >= 6);
    lemma_run_unfolds(config, platform, paths, Stage::NotStarted, events, 6);
    lemma_run_unfolds(config, platform, paths, Stage::NotStarted, events, 5);
    lemma_run_unfolds(config, platform, paths, Stage::NotStarted, events, 4);
    lemma_run_unfolds(config, platform, paths, Stage::NotStarted, events, 3);
    lemma_run_takes_stages_in_order(config, platform, paths, Stage::NotStarted, events, 5);
    lemma_run_takes_stages_in_order(config, platform, paths, Stage::NotStarted, events, 4);
    lemma_run_takes_stages_in_order(config, platform, paths, Stage::NotStarted, events, 3);
    lemma_run_takes_stages_in_order(config, platform, paths, Stage::NotStarted, events, 2);
}

/// The result that asks for `action` and expects the report at `stage`.
pub open spec fn asking(stage: Stage, action: ActionView) -> Result<ProgressView, FipsErrorView> {
    Ok(ProgressView::Pending { stage, action })
}

/// The reports of a caller for whom everything up to the start of the
/// tunnel works, and who retrieves the certificate `pem`.
pub open spec fn reports_until_launch<H>(pem: Seq<char>) -> Seq<EventView<H>> {
    seq![
        EventView::Requested,
        EventView::Probed { present: true },
        EventView::Succeeded,
        EventView::Succeeded,
        EventView::Succeeded,
        EventView::Certificate { pem },
        EventView::Succeeded,
    ]
}

/// What an activation asks for, in order, up to the start of the tunnel:
/// the probe, the two directories, the configuration file, the certificate
/// and the certificate file.
pub open spec fn requests_until_launch(
    config: RuntimeConfigView,
    platform: Platform,
    paths: TunnelPathsView,
    pem: Seq<char>,
) -> Seq<Result<ProgressView, FipsErrorView>> {
    seq![
        asking(Stage::ProbingBinary, ActionView::ProbeBinary { path: paths.binary }),
        asking(
            Stage::Materializing(ConfigStep::ConfigDir),
            ActionView::CreateDirectory { path: paths.config_dir },
        ),
        asking(
            Stage::Materializing(ConfigStep::LogDir),
            ActionView::CreateDirectory { path: paths.log_dir },
        ),
        asking(
            Stage::Materializing(ConfigStep::ConfigFile),
            ActionView::WriteFile {
                path: paths.config_file,
                content: spec_stunnel_config(
                    platform,
                    config.server->0,
                    config.fips_git_port->0,
                    paths,
                ),
            },
        ),
        asking(
            Stage::Certifying(CertStep::Fetch),
            ActionView::FetchCertificate {
                server: config.server->0,
                port: config.certificate_port(),
            },
        ),
        asking(
            Stage::Certifying(CertStep::Store),
            ActionView::WriteFile { path: paths.cert_file, content: pem },
        ),
    ]
}

/// A run splits where the caller's reports split: the results for the
/// first reports, as long as each of them asks for an effect, are followed
/// by the results of a run on the other reports from the stage that the
/// last of them named.
pub proof fn lemma_run_continues<H>(
    config: RuntimeConfigView,
    platform: Platform,
    paths: TunnelPathsView,
    stage: Stage,
    first: Seq<EventView<H>>,
    second: Seq<EventView<H>>,
)
    requires
        first.len() > 0,
        spec_run(config, platform, paths, stage, first).len() == first.len(),
        spec_run(config, platform, paths, stage, first).last() matches Ok(
            ProgressView::Pending { .. },
        ),
    ensures
        spec_run(config, platform, paths, stage, first + second) == spec_run(
            config,
            platform,
            paths,
            stage,
            first,
        ) + spec_run(
            config,
            platform,
            paths,
            pending_stage(spec_run(config, platform, paths, stage, first).last()),
            second,
        ),
    decreases first.len(),
{
    let outcome = spec_setup_and_start_stunnel_if_fips_mode(
        config,
        platform,
        paths,
        stage,
        first.first(),
    );
    let next = pending_stage(outcome);
    assert((first + second).first() == first.first());
    assert((first + second).drop_first() =~= first.drop_first() + second);
    if first.len() == 1 {
        assert(first.drop_first() + second =~= second);
        assert(spec_run(config, platform, paths, next, first.drop_first()) =~= Seq::empty());
    } else {
        let rest = spec_run(config, platform, paths, next, first.drop_first());
        assert(spec_run(config, platform, paths, stage, first) == seq![outcome] + rest);
        assert(rest.last() == spec_run(config, platform, paths, stage, first).last());
        lemma_run_continues(config, platform, paths, next, first.drop_first(), second);
        assert(seq![outcome] + (rest + spec_run(
            config,
            platform,
            paths,
            pending_stage(rest.last()),
            second,
        )) =~= seq![outcome] + rest + spec_run(
            config,
            platform,
            paths,
            pending_stage(rest.last()),
            second,
        ));
    }
}

/// Up to the start of the tunnel an activation goes the same way on every
/// platform. Where FIPS mode is requested, the server and the FIPS git
/// port are configured and everything works, the tunnel program is probed,
/// the directory of the configuration and that of the log are created, the
/// configuration file is written, the certificate is retrieved from the
/// configured port, or from 443 where none is configured, and it is stored
/// as it came. The next report is then expected on the first invocation of
/// the tunnel program.
pub proof fn lemma_activation_until_launch<H>(
    config: RuntimeConfigView,
    platform: Platform,
    paths: TunnelPathsView,
    pem: Seq<char>,
)
    requires
        config.fips_requested(),
        config.missing_field() is None,
    ensures
        spec_run(config, platform, paths, Stage::NotStarted, reports_until_launch::<H>(pem))
            == requests_until_launch(config, platform, paths, pem).push(
            asking(
                Stage::Launching(LaunchStep::spec_first(platform)),
                spec_start_stunnel(paths, LaunchStep::spec_first(platform)),
            ),
        ),
{
    let events = reports_until_launch::<H>(pem);
    let expected = requests_until_launch(config, platform, paths, pem).push(
        asking(
            Stage::Launching(LaunchStep::spec_first(platform)),
            spec_start_stunnel(paths, LaunchStep::spec_first(platform)),
        ),
    );
    assert(events.skip(7) =~= Seq::empty());
    assert(spec_run(config, platform, paths, pending_stage(expected[6]), events.skip(7))
        =~= expected.skip(7));
    lemma_run_skips(
        config,
        platform,
        paths,
        Stage::Certifying(CertStep::Store),
        events,
        expected,
        6,
    );
    lemma_run_skips(
        config,
        platform,
        paths,
        Stage::Certifying(CertStep::Fetch),
        events,
        expected,
        5,
    );
    lemma_run_skips(
        config,
        platform,
        paths,
        Stage::Materializing(ConfigStep::ConfigFile),
        events,
        expected,
        4,
    );
    lemma_run_skips(
        config,
        platform,
        paths,
        Stage::Materializing(ConfigStep::LogDir),
        events,
        expected,
        3,
    );
    lemma_run_skips(
        config,
        platform,
        paths,
        Stage::Materializing(ConfigStep::ConfigDir),
        events,
        expected,
        2,
    );
    lemma_run_skips(config, platform, paths, Stage::ProbingBinary, events, expected, 1);
    lemma_run_skips(config, platform, paths, Stage::NotStarted, events, expected, 0);
    assert(events.skip(0) =~= events);
    assert(expected.skip(0) =~= expected);
}

/// One step backwards in a run: where the step at `stage` on report `at`
/// gives the expected result `at`, and the run from the stage that this
/// result names gives the expected results after `at`, the run from
/// `stage` gives the expected results from `at` on.
proof fn lemma_run_skips<H>(
    config: RuntimeConfigView,
    platform: Platform,
    paths: TunnelPathsView,
    stage: Stage,
    events: Seq<EventView<H>>,
    expected: Seq<Result<ProgressView, FipsErrorView>>,
    at: int,
)
    requires
        0 <= at < events.len(),
        at < expected.len(),
        spec_setup_and_start_stunnel_if_fips_mode(config, platform, paths, stage, events[at])
            == expected[at],
        expected[at] matches Ok(ProgressView::Pending { .. }) ==> spec_run(
            config,
            platform,
            paths,
            pending_stage(expected[at]),
            events.skip(at + 1),
        ) == expected.skip(at + 1),
        !(expected[at] matches Ok(ProgressView::Pending { .. })) ==> expected.len() == at + 1,
    ensures
        spec_run(config, platform, paths, stage, events.skip(at)) == expected.skip(at),
{
    assert(events.skip(at).first() == events[at]);
    assert(events.skip(at).drop_first() =~= events.skip(at + 1));
    assert(seq![expected[at]] + expected.skip(at + 1) =~= expected.skip(at));
}

/// Elsewhere than on Windows the tunnel is started as a child process: the
/// tunnel program is spawned with the configuration file as its argument.
/// Once the caller reports the child, it is added to the caller's child
/// processes and the activation is complete.
pub proof fn lemma_posix_launch<H>(
    config: RuntimeConfigView,
    paths: TunnelPathsView,
    pem: Seq<char>,
    handle: H,
    children: Seq<H>,
)
    requires
        config.fips_requested(),
        config.missing_field() is None,
    ensures
        spec_run(
            config,
            Platform::Posix,
            paths,
            Stage::NotStarted,
            reports_until_launch::<H>(pem).push(EventView::Spawned { handle }),
        ) == requests_until_launch(config, Platform::Posix, paths, pem) + seq![
            asking(
                Stage::Launching(LaunchStep::Spawn),
                ActionView::Spawn { command: paths.binary + " "@ + paths.config_file },
            ),
            Ok(ProgressView::Complete),
        ],
        spec_registered(
            children,
            Stage::Launching(LaunchStep::Spawn),
            EventView::Spawned { handle },
        ) == children.push(handle),
{
    let first = reports_until_launch::<H>(pem);
    let second = seq![EventView::Spawned { handle }];
    lemma_activation_until_launch::<H>(config, Platform::Posix, paths, pem);
    lemma_run_continues(config, Platform::Posix, paths, Stage::NotStarted, first, second);
    assert(first + second =~= first.push(EventView::Spawned { handle }));
    assert(second.drop_first() =~= Seq::empty());
    assert(spec_run(config, Platform::Posix, paths, Stage::Launching(LaunchStep::Spawn), second)
        =~= seq![Ok::<ProgressView, FipsErrorView>(ProgressView::Complete)]);
    assert(spec_run(
        config,
        Platform::Posix,
        paths,
        Stage::NotStarted,
        first,
    ) + seq![Ok::<ProgressView, FipsErrorView>(ProgressView::Complete)] =~= requests_until_launch(
        config,
        Platform::Posix,
        paths,
        pem,
    ) + seq![
        asking(
            Stage::Launching(LaunchStep::Spawn),
            ActionView::Spawn { command: paths.binary + " "@ + paths.config_file },
        ),
        Ok(ProgressView::Complete),
    ]);
}

/// On Windows the tunnel is started as a service: the tunnel program is
/// run three times, to install the service, to start it and to reload it,
/// each time after the run before it has worked. Then the activation is
/// complete. No child process is asked for, and none is added to the
/// caller's child processes.
pub proof fn lemma_windows_launch<H>(
    config: RuntimeConfigView,
    paths: TunnelPathsView,
    pem: Seq<char>,
)
    requires
        config.fips_requested(),
        config.missing_field() is None,
    ensures
        spec_run(
            config,
            Platform::Windows,
            paths,
            Stage::NotStarted,
            reports_until_launch::<H>(pem) + seq![
                EventView::Succeeded,
                EventView::Succeeded,
                EventView::Succeeded,
            ],
        ) == requests_until_launch(config, Platform::Windows, paths, pem) + seq![
            asking(
                Stage::Launching(LaunchStep::Install),
                ActionView::Run { command: paths.binary + " "@ + "-install -quiet"@ },
            ),
            asking(
                Stage::Launching(LaunchStep::Start),
                ActionView::Run { command: paths.binary + " "@ + "-start -quiet"@ },
            ),
            asking(
                Stage::Launching(LaunchStep::Reload),
                ActionView::Run { command: paths.binary + " "@ + "-reload -quiet"@ },
            ),
            Ok(ProgressView::Complete),
        ],
{
    let first = reports_until_launch::<H>(pem);
    let second = seq![
        EventView::<H>::Succeeded,
        EventView::<H>::Succeeded,
        EventView::<H>::Succeeded,
    ];
    let tail = seq![
        asking(
            Stage::Launching(LaunchStep::Start),
            ActionView::Run { command: paths.binary + " "@ + "-start -quiet"@ },
        ),
        asking(
            Stage::Launching(LaunchStep::Reload),
            ActionView::Run { command: paths.binary + " "@ + "-reload -quiet"@ },
        ),
        Ok(ProgressView::Complete),
    ];
    lemma_activation_until_launch::<H>(config, Platform::Windows, paths, pem);
    lemma_run_continues(config, Platform::Windows, paths, Stage::NotStarted, first, second);
    assert(second.skip(3) =~= Seq::empty());
    lemma_run_skips(
        config,
        Platform::Windows,
        paths,
        Stage::Launching(LaunchStep::Reload),
        second,
        tail,
        2,
    );
    lemma_run_skips(
        config,
        Platform::Windows,
        paths,
        Stage::Launching(LaunchStep::Start),
        second,
        tail,
        1,
    );
    lemma_run_skips(
        config,
        Platform::Windows,
        paths,
        Stage::Launching(LaunchStep::Install),
        second,
        tail,
        0,
    );
    assert(second.skip(0) =~= second);
    assert(tail.skip(0) =~= tail);
    assert(spec_run(config, Platform::Windows, paths, Stage::NotStarted, first) + tail
        =~= requests_until_launch(config, Platform::Windows, paths, pem) + seq![
        asking(
            Stage::Launching(LaunchStep::Install),
            ActionView::Run { command: paths.binary + " "@ + "-install -quiet"@ },
        ),
        asking(
            Stage::Launching(LaunchStep::Start),
            ActionView::Run { command: paths.binary + " "@ + "-start -quiet"@ },
        ),
        asking(
            Stage::Launching(LaunchStep::Reload),
            ActionView::Run { command: paths.binary + " "@ + "-reload -quiet"@ },
        ),
        Ok(ProgressView::Complete),
    ]);
}

} // verus!
