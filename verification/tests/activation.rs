use fips_tunnel::activation::{setup_and_start_stunnel_if_fips_mode, Progress, Stage};
use fips_tunnel::certificate::{certificate_failure, write_stunnel_cert_file, CertStep};
use fips_tunnel::config::RuntimeConfig;
use fips_tunnel::effects::{Action, Event};
use fips_tunnel::errors::{FipsError, IoOperation, RequiredField};
use fips_tunnel::launcher::{command, launch_failure, register_child, start_stunnel, LaunchStep};
use fips_tunnel::materializer::{stunnel_config, ConfigStep};
use fips_tunnel::paths::TunnelPaths;
use fips_tunnel::platform::Platform;

const PEM: &str = "-----BEGIN CERTIFICATE-----\nMIIB\n-----END CERTIFICATE-----\n";

fn config() -> RuntimeConfig {
    RuntimeConfig {
        fips: Some(true),
        server: Some("automate.test".to_string()),
        fips_git_port: Some("36534".to_string()),
        api_port: None,
    }
}

fn posix_paths() -> TunnelPaths {
    TunnelPaths::resolve(Platform::Posix, "/opt/chefdk/embedded/bin/stunnel", "/home/tester")
}

fn windows_paths() -> TunnelPaths {
    TunnelPaths::resolve(
        Platform::Windows,
        "C:\\opscode\\chefdk\\embedded\\bin\\stunnel.exe",
        "C:\\Users\\tester",
    )
}

fn failed(cause: &str) -> Event<u32> {
    Event::Failed { cause: cause.to_string() }
}

fn good_reports() -> Vec<Event<u32>> {
    vec![
        Event::Requested,
        Event::Probed { present: true },
        Event::Succeeded,
        Event::Succeeded,
        Event::Succeeded,
        Event::Certificate { pem: PEM.to_string() },
        Event::Succeeded,
    ]
}

fn good_reports_then(last: Vec<Event<u32>>) -> Vec<Event<u32>> {
    let mut reports = good_reports();
    reports.extend(last);
    reports
}

fn good_reports_but(at: usize, event: Event<u32>) -> Vec<Event<u32>> {
    let mut reports = good_reports_then(vec![Event::Spawned { handle: 1 }]);
    reports[at] = event;
    reports
}

/// Runs an activation on the given reports: the actions asked for, and how
/// the activation ended, if it did.
fn run(
    config: &RuntimeConfig,
    platform: Platform,
    paths: &TunnelPaths,
    reports: Vec<Event<u32>>,
    children: &mut Vec<u32>,
) -> (Vec<Action>, Option<Result<(), FipsError>>) {
    let mut stage = Stage::NotStarted;
    let mut actions = Vec::new();
    for report in reports {
        match setup_and_start_stunnel_if_fips_mode(config, platform, paths, stage, report, children)
        {
            Ok(Progress::Complete) => return (actions, Some(Ok(()))),
            Ok(Progress::Pending { stage: next, action }) => {
                stage = next;
                actions.push(action);
            }
            Err(error) => return (actions, Some(Err(error))),
        }
    }
    (actions, None)
}

fn posix_actions_until_launch() -> Vec<Action> {
    let paths = posix_paths();
    vec![
        Action::ProbeBinary { path: "/opt/chefdk/embedded/bin/stunnel".to_string() },
        Action::CreateDirectory { path: "/home/tester/.chefdk/etc/".to_string() },
        Action::CreateDirectory { path: "/home/tester/.chefdk/log/".to_string() },
        Action::WriteFile {
            path: "/home/tester/.chefdk/etc/stunnel.conf".to_string(),
            content: stunnel_config(Platform::Posix, "automate.test", "36534", &paths),
        },
        Action::FetchCertificate { server: "automate.test".to_string(), port: "443".to_string() },
        Action::WriteFile {
            path: "/home/tester/.chefdk/etc/automate-nginx-cert.pem".to_string(),
            content: PEM.to_string(),
        },
    ]
}

#[test]
fn nothing_happens_without_fips() {
    for fips in [None, Some(false)] {
        let mut config = config();
        config.fips = fips;
        let mut children = vec![5];
        let (actions, end) =
            run(&config, Platform::Posix, &posix_paths(), good_reports(), &mut children);
        assert_eq!(actions, vec![]);
        assert_eq!(end, Some(Ok(())));
        assert_eq!(children, vec![5]);
    }
}

#[test]
fn nothing_happens_without_fips_even_if_settings_are_missing() {
    let mut children: Vec<u32> = Vec::new();
    let (actions, end) = run(
        &RuntimeConfig::new(),
        Platform::Windows,
        &windows_paths(),
        vec![Event::Requested],
        &mut children,
    );
    assert_eq!(actions, vec![]);
    assert_eq!(end, Some(Ok(())));
}

#[test]
fn posix_activation_spawns_the_tunnel_and_keeps_the_child() {
    let mut children = vec![5];
    let (actions, end) = run(
        &config(),
        Platform::Posix,
        &posix_paths(),
        good_reports_then(vec![Event::Spawned { handle: 77 }]),
        &mut children,
    );
    let mut expected = posix_actions_until_launch();
    expected.push(Action::Spawn {
        command: "/opt/chefdk/embedded/bin/stunnel /home/tester/.chefdk/etc/stunnel.conf"
            .to_string(),
    });
    assert_eq!(actions, expected);
    assert_eq!(end, Some(Ok(())));
    assert_eq!(children, vec![5, 77]);
}

#[test]
fn end_to_end_config_file_for_automate_test() {
    let mut children = Vec::new();
    let (actions, _) =
        run(&config(), Platform::Posix, &posix_paths(), good_reports(), &mut children);
    assert_eq!(
        actions[3],
        Action::WriteFile {
            path: "/home/tester/.chefdk/etc/stunnel.conf".to_string(),
            content: "fips = yes\nclient = yes\noutput = /home/tester/.chefdk/log/stunnel.log\nforeground = quiet\n[git]\naccept = 36534\nconnect = automate.test:8989\ncheckHost = automate.test\nverifyChain = yes\nverify = 3\nCAfile = /home/tester/.chefdk/etc/automate-nginx-cert.pem\n".to_string(),
        }
    );
}

#[test]
fn windows_activation_installs_starts_and_reloads_the_service() {
    let mut children = vec![5];
    let (actions, end) = run(
        &config(),
        Platform::Windows,
        &windows_paths(),
        good_reports_then(vec![Event::Succeeded, Event::Succeeded, Event::Succeeded]),
        &mut children,
    );
    let paths = windows_paths();
    assert_eq!(
        actions,
        vec![
            Action::ProbeBinary { path: "C:\\opscode\\chefdk\\embedded\\bin\\stunnel.exe".to_string() },
            Action::CreateDirectory { path: "C:\\opscode\\chefdk\\embedded".to_string() },
            Action::CreateDirectory { path: "C:\\Users\\tester\\.chefdk/log/".to_string() },
            Action::WriteFile {
                path: "C:\\opscode\\chefdk\\embedded\\stunnel.conf".to_string(),
                content: stunnel_config(Platform::Windows, "automate.test", "36534", &paths),
            },
            Action::FetchCertificate {
                server: "automate.test".to_string(),
                port: "443".to_string(),
            },
            Action::WriteFile {
                path: "C:\\Users\\tester\\.chefdk/etc/automate-nginx-cert.pem".to_string(),
                content: PEM.to_string(),
            },
            Action::Run {
                command: "C:\\opscode\\chefdk\\embedded\\bin\\stunnel.exe -install -quiet"
                    .to_string(),
            },
            Action::Run {
                command: "C:\\opscode\\chefdk\\embedded\\bin\\stunnel.exe -start -quiet"
                    .to_string(),
            },
            Action::Run {
                command: "C:\\opscode\\chefdk\\embedded\\bin\\stunnel.exe -reload -quiet"
                    .to_string(),
            },
        ]
    );
    assert_eq!(end, Some(Ok(())));
    assert_eq!(children, vec![5]);
}

#[test]
fn activation_is_not_over_before_the_last_report() {
    let mut children = Vec::new();
    let (actions, end) =
        run(&config(), Platform::Posix, &posix_paths(), good_reports(), &mut children);
    assert_eq!(actions.len(), 7);
    assert_eq!(end, None);
    let (actions, end) = run(
        &config(),
        Platform::Windows,
        &windows_paths(),
        good_reports_then(vec![Event::Succeeded, Event::Succeeded]),
        &mut children,
    );
    assert_eq!(actions.len(), 9);
    assert_eq!(end, None);
}

#[test]
fn missing_binary_is_unsupported_and_nothing_is_written() {
    for report in [Event::Probed { present: false }, failed("no access"), Event::Succeeded] {
        let mut children = Vec::new();
        let (actions, end) = run(
            &config(),
            Platform::Posix,
            &posix_paths(),
            good_reports_but(1, report),
            &mut children,
        );
        assert_eq!(
            actions,
            vec![Action::ProbeBinary { path: "/opt/chefdk/embedded/bin/stunnel".to_string() }]
        );
        assert_eq!(end, Some(Err(FipsError::UnsupportedPlatform)));
        assert_eq!(children, vec![]);
    }
}

#[test]
fn missing_server_is_named_and_nothing_is_written() {
    let mut config = config();
    config.server = None;
    let mut children = Vec::new();
    let (actions, end) = run(
        &config,
        Platform::Posix,
        &posix_paths(),
        good_reports_then(vec![Event::Spawned { handle: 1 }]),
        &mut children,
    );
    assert_eq!(actions.len(), 1);
    assert!(matches!(actions[0], Action::ProbeBinary { .. }));
    assert_eq!(end, Some(Err(FipsError::MissingRequiredField { field: RequiredField::Server })));
    assert_eq!(children, vec![]);
}

#[test]
fn missing_git_port_is_named_and_nothing_is_written() {
    let mut config = config();
    config.fips_git_port = None;
    let mut children = Vec::new();
    let (actions, end) = run(
        &config,
        Platform::Windows,
        &windows_paths(),
        good_reports_then(vec![Event::Succeeded]),
        &mut children,
    );
    assert_eq!(actions.len(), 1);
    assert!(matches!(actions[0], Action::ProbeBinary { .. }));
    assert_eq!(
        end,
        Some(Err(FipsError::MissingRequiredField { field: RequiredField::FipsGitPort }))
    );
}

#[test]
fn server_is_named_first_when_both_settings_are_missing() {
    let mut config = RuntimeConfig::new();
    config.fips = Some(true);
    let mut children = Vec::new();
    let (_, end) = run(&config, Platform::Posix, &posix_paths(), good_reports(), &mut children);
    assert_eq!(end, Some(Err(FipsError::MissingRequiredField { field: RequiredField::Server })));
}

#[test]
fn missing_binary_is_reported_before_missing_settings() {
    let mut config = RuntimeConfig::new();
    config.fips = Some(true);
    let mut children = Vec::new();
    let (_, end) = run(
        &config,
        Platform::Posix,
        &posix_paths(),
        good_reports_but(1, Event::Probed { present: false }),
        &mut children,
    );
    assert_eq!(end, Some(Err(FipsError::UnsupportedPlatform)));
}

#[test]
fn certificate_is_fetched_from_443_by_default() {
    let mut children = Vec::new();
    let (actions, _) =
        run(&config(), Platform::Posix, &posix_paths(), good_reports(), &mut children);
    assert_eq!(
        actions[4],
        Action::FetchCertificate { server: "automate.test".to_string(), port: "443".to_string() }
    );
}

#[test]
fn certificate_is_fetched_from_the_configured_api_port() {
    let mut config = config();
    config.api_port = Some("8443".to_string());
    let mut children = Vec::new();
    let (actions, _) = run(&config, Platform::Posix, &posix_paths(), good_reports(), &mut children);
    assert_eq!(
        actions[4],
        Action::FetchCertificate { server: "automate.test".to_string(), port: "8443".to_string() }
    );
}

#[test]
fn certificate_is_stored_as_it_came() {
    for pem in ["", "no newline at the end", "two\n\n", "\r\nodd \u{e9}\n"] {
        let mut children = Vec::new();
        let (actions, _) = run(
            &config(),
            Platform::Posix,
            &posix_paths(),
            good_reports_but(5, Event::Certificate { pem: pem.to_string() }),
            &mut children,
        );
        assert_eq!(
            actions[5],
            Action::WriteFile {
                path: "/home/tester/.chefdk/etc/automate-nginx-cert.pem".to_string(),
                content: pem.to_string(),
            }
        );
    }
}

#[test]
fn directory_failures_are_io_errors() {
    let mut children = Vec::new();
    let (actions, end) = run(
        &config(),
        Platform::Posix,
        &posix_paths(),
        good_reports_but(2, failed("permission denied")),
        &mut children,
    );
    assert_eq!(actions, posix_actions_until_launch()[..2].to_vec());
    assert_eq!(
        end,
        Some(Err(FipsError::IOError {
            operation: IoOperation::CreateDirectory,
            path: "/home/tester/.chefdk/etc/".to_string(),
            cause: Some("permission denied".to_string()),
        }))
    );
    let (actions, end) = run(
        &config(),
        Platform::Posix,
        &posix_paths(),
        good_reports_but(3, failed("read-only")),
        &mut children,
    );
    assert_eq!(actions, posix_actions_until_launch()[..3].to_vec());
    assert_eq!(
        end,
        Some(Err(FipsError::IOError {
            operation: IoOperation::CreateDirectory,
            path: "/home/tester/.chefdk/log/".to_string(),
            cause: Some("read-only".to_string()),
        }))
    );
}

#[test]
fn config_write_failure_is_an_io_error_and_stops_before_the_certificate() {
    let mut children = Vec::new();
    let (actions, end) = run(
        &config(),
        Platform::Posix,
        &posix_paths(),
        good_reports_but(4, failed("disk full")),
        &mut children,
    );
    assert_eq!(actions, posix_actions_until_launch()[..4].to_vec());
    assert_eq!(
        end,
        Some(Err(FipsError::IOError {
            operation: IoOperation::WriteFile,
            path: "/home/tester/.chefdk/etc/stunnel.conf".to_string(),
            cause: Some("disk full".to_string()),
        }))
    );
}

#[test]
fn fetch_failure_is_handed_on_unchanged() {
    let mut children = Vec::new();
    let (actions, end) = run(
        &config(),
        Platform::Posix,
        &posix_paths(),
        good_reports_but(5, failed("handshake failed: automate.test:443")),
        &mut children,
    );
    assert_eq!(actions, posix_actions_until_launch()[..5].to_vec());
    assert_eq!(
        end,
        Some(Err(FipsError::CertificateFetchError {
            cause: Some("handshake failed: automate.test:443".to_string()),
        }))
    );
}

#[test]
fn certificate_write_failure_is_an_io_error_and_stops_before_the_launch() {
    let mut children = Vec::new();
    let (actions, end) = run(
        &config(),
        Platform::Posix,
        &posix_paths(),
        good_reports_but(6, failed("disk full")),
        &mut children,
    );
    assert_eq!(actions, posix_actions_until_launch());
    assert_eq!(
        end,
        Some(Err(FipsError::IOError {
            operation: IoOperation::WriteFile,
            path: "/home/tester/.chefdk/etc/automate-nginx-cert.pem".to_string(),
            cause: Some("disk full".to_string()),
        }))
    );
}

#[test]
fn spawn_failure_names_the_command_and_registers_nothing() {
    let mut children = vec![5];
    let (actions, end) = run(
        &config(),
        Platform::Posix,
        &posix_paths(),
        good_reports_but(7, failed("not executable")),
        &mut children,
    );
    assert_eq!(actions.len(), 7);
    assert_eq!(
        end,
        Some(Err(FipsError::ProcessLaunchError {
            command: "/opt/chefdk/embedded/bin/stunnel /home/tester/.chefdk/etc/stunnel.conf"
                .to_string(),
            cause: Some("not executable".to_string()),
        }))
    );
    assert_eq!(children, vec![5]);
}

#[test]
fn service_steps_stop_at_the_first_failure() {
    let binary = "C:\\opscode\\chefdk\\embedded\\bin\\stunnel.exe";
    let arguments = ["-install -quiet", "-start -quiet", "-reload -quiet"];
    for failing in 0..3 {
        let mut last: Vec<Event<u32>> = Vec::new();
        for _ in 0..failing {
            last.push(Event::Succeeded);
        }
        last.push(failed("exit status 1"));
        last.push(Event::Succeeded);
        last.push(Event::Succeeded);
        let mut children = Vec::new();
        let (actions, end) = run(
            &config(),
            Platform::Windows,
            &windows_paths(),
            good_reports_then(last),
            &mut children,
        );
        assert_eq!(actions.len(), 7 + failing);
        assert_eq!(
            end,
            Some(Err(FipsError::ProcessLaunchError {
                command: format!("{} {}", binary, arguments[failing]),
                cause: Some("exit status 1".to_string()),
            }))
        );
        assert_eq!(children, vec![]);
    }
}

#[test]
fn a_report_that_answers_something_else_ends_the_activation_without_a_cause() {
    let mut children = vec![5];
    let (_, end) = run(
        &config(),
        Platform::Posix,
        &posix_paths(),
        good_reports_but(4, Event::Spawned { handle: 9 }),
        &mut children,
    );
    assert_eq!(
        end,
        Some(Err(FipsError::IOError {
            operation: IoOperation::WriteFile,
            path: "/home/tester/.chefdk/etc/stunnel.conf".to_string(),
            cause: None,
        }))
    );
    assert_eq!(children, vec![5]);
    let (_, end) = run(
        &config(),
        Platform::Posix,
        &posix_paths(),
        good_reports_but(5, Event::Succeeded),
        &mut children,
    );
    assert_eq!(end, Some(Err(FipsError::CertificateFetchError { cause: None })));
    let (_, end) = run(
        &config(),
        Platform::Posix,
        &posix_paths(),
        good_reports_but(7, Event::Succeeded),
        &mut children,
    );
    assert!(matches!(end, Some(Err(FipsError::ProcessLaunchError { cause: None, .. }))));
    assert_eq!(children, vec![5]);
}

#[test]
fn each_step_alone_follows_the_table() {
    let config = config();
    let paths = posix_paths();
    let mut children: Vec<u32> = Vec::new();
    let step = setup_and_start_stunnel_if_fips_mode(
        &config,
        Platform::Posix,
        &paths,
        Stage::Materializing(ConfigStep::ConfigFile),
        Event::Succeeded,
        &mut children,
    );
    assert_eq!(
        step,
        Ok(Progress::Pending {
            stage: Stage::Certifying(CertStep::Fetch),
            action: Action::FetchCertificate {
                server: "automate.test".to_string(),
                port: "443".to_string(),
            },
        })
    );
    let step = setup_and_start_stunnel_if_fips_mode(
        &config,
        Platform::Windows,
        &paths,
        Stage::Certifying(CertStep::Store),
        Event::Succeeded,
        &mut children,
    );
    assert_eq!(
        step,
        Ok(Progress::Pending {
            stage: Stage::Launching(LaunchStep::Install),
            action: Action::Run {
                command: "/opt/chefdk/embedded/bin/stunnel -install -quiet".to_string(),
            },
        })
    );
    let step = setup_and_start_stunnel_if_fips_mode(
        &config,
        Platform::Posix,
        &paths,
        Stage::Launching(LaunchStep::Reload),
        Event::Succeeded,
        &mut children,
    );
    assert_eq!(step, Ok(Progress::Complete));
    assert_eq!(children, vec![]);
}

#[test]
fn stages_follow_each_other() {
    let posix = [
        Stage::NotStarted,
        Stage::ProbingBinary,
        Stage::Materializing(ConfigStep::ConfigDir),
        Stage::Materializing(ConfigStep::LogDir),
        Stage::Materializing(ConfigStep::ConfigFile),
        Stage::Certifying(CertStep::Fetch),
        Stage::Certifying(CertStep::Store),
        Stage::Launching(LaunchStep::Spawn),
    ];
    for pair in posix.windows(2) {
        assert_eq!(pair[0].successor(Platform::Posix), Some(pair[1]));
    }
    assert_eq!(Stage::Launching(LaunchStep::Spawn).successor(Platform::Posix), None);
    assert_eq!(
        Stage::Certifying(CertStep::Store).successor(Platform::Windows),
        Some(Stage::Launching(LaunchStep::Install))
    );
    assert_eq!(
        Stage::Launching(LaunchStep::Install).successor(Platform::Windows),
        Some(Stage::Launching(LaunchStep::Start))
    );
    assert_eq!(
        Stage::Launching(LaunchStep::Start).successor(Platform::Windows),
        Some(Stage::Launching(LaunchStep::Reload))
    );
    assert_eq!(Stage::Launching(LaunchStep::Reload).successor(Platform::Windows), None);
    assert_eq!(
        Stage::ProbingBinary.failure(&posix_paths(), Some("x".to_string())),
        FipsError::UnsupportedPlatform
    );
}

#[test]
fn launch_commands() {
    let paths = posix_paths();
    assert_eq!(LaunchStep::first(Platform::Posix), LaunchStep::Spawn);
    assert_eq!(LaunchStep::first(Platform::Windows), LaunchStep::Install);
    assert_eq!(
        command(&paths, LaunchStep::Spawn),
        "/opt/chefdk/embedded/bin/stunnel /home/tester/.chefdk/etc/stunnel.conf"
    );
    assert_eq!(
        command(&paths, LaunchStep::Install),
        "/opt/chefdk/embedded/bin/stunnel -install -quiet"
    );
    assert_eq!(command(&paths, LaunchStep::Start), "/opt/chefdk/embedded/bin/stunnel -start -quiet");
    assert_eq!(
        command(&paths, LaunchStep::Reload),
        "/opt/chefdk/embedded/bin/stunnel -reload -quiet"
    );
    assert!(matches!(start_stunnel(&paths, LaunchStep::Spawn), Action::Spawn { .. }));
    assert!(matches!(start_stunnel(&paths, LaunchStep::Install), Action::Run { .. }));
    assert!(matches!(start_stunnel(&paths, LaunchStep::Start), Action::Run { .. }));
    assert!(matches!(start_stunnel(&paths, LaunchStep::Reload), Action::Run { .. }));
    assert_eq!(
        launch_failure(&paths, LaunchStep::Start, None),
        FipsError::ProcessLaunchError {
            command: "/opt/chefdk/embedded/bin/stunnel -start -quiet".to_string(),
            cause: None,
        }
    );
}

#[test]
fn children_are_appended_in_order() {
    let mut children = vec!["first".to_string()];
    register_child(&mut children, "second".to_string());
    register_child(&mut children, "third".to_string());
    assert_eq!(children, vec!["first", "second", "third"]);
}

#[test]
fn certificate_requests() {
    let paths = posix_paths();
    assert_eq!(
        write_stunnel_cert_file("automate.test", "443", &paths, None),
        Action::FetchCertificate { server: "automate.test".to_string(), port: "443".to_string() }
    );
    assert_eq!(
        write_stunnel_cert_file("automate.test", "443", &paths, Some(PEM.to_string())),
        Action::WriteFile {
            path: "/home/tester/.chefdk/etc/automate-nginx-cert.pem".to_string(),
            content: PEM.to_string(),
        }
    );
    assert_eq!(
        certificate_failure(&paths, CertStep::Fetch, Some("refused".to_string())),
        FipsError::CertificateFetchError { cause: Some("refused".to_string()) }
    );
    assert_eq!(
        certificate_failure(&paths, CertStep::Store, Some("refused".to_string())),
        FipsError::IOError {
            operation: IoOperation::WriteFile,
            path: "/home/tester/.chefdk/etc/automate-nginx-cert.pem".to_string(),
            cause: Some("refused".to_string()),
        }
    );
}

#[test]
fn events_tell_their_cause() {
    assert_eq!(failed("why").cause(), Some("why".to_string()));
    assert_eq!(Event::<u32>::Succeeded.cause(), None);
    assert_eq!(Event::Spawned { handle: 3u32 }.cause(), None);
}
