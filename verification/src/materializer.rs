//! The text of the tunnel's configuration file.
use crate::effects::{Action, ActionView};
use crate::errors::{FipsError, FipsErrorView, IoOperation};
use crate::paths::{TunnelPaths, TunnelPathsView};
use crate::platform::Platform;
use vstd::prelude::*;

verus! {

/// The directives of the tunnel's configuration, in the order in which they
/// are written, without line endings.
///
/// `foreground = quiet` is left out on Windows, where the service manager
/// sees to it. The tunnel connects to the git proxy of the server, whose
/// port is always 8989.
pub open spec fn spec_directives(
    platform: Platform,
    server: Seq<char>,
    fips_git_port: Seq<char>,
    log_file: Seq<char>,
    cert_file: Seq<char>,
) -> Seq<Seq<char>> {
    let global = seq!["fips = yes"@, "client = yes"@, "output = "@ + log_file];
    let foreground = match platform {
        Platform::Windows => Seq::<Seq<char>>::empty(),
        Platform::Posix => seq!["foreground = quiet"@],
    };
    let git = seq![
        "[git]"@,
        "accept = "@ + fips_git_port,
        "connect = "@ + server + ":8989"@,
        "checkHost = "@ + server,
        "verifyChain = yes"@,
        "verify = 3"@,
        "CAfile = "@ + cert_file,
    ];
    global + foreground + git
}

/// The text made of `lines`, each followed by `newline`.
pub open spec fn spec_render(lines: Seq<Seq<char>>, newline: Seq<char>) -> Seq<char>
    decreases lines.len(),
{
    if lines.len() == 0 {
        Seq::empty()
    } else {
        spec_render(lines.drop_last(), newline) + lines.last() + newline
    }
}

/// The whole content of the tunnel's configuration file: every directive on
/// a line of its own, ended as the platform ends lines.
pub open spec fn spec_stunnel_config(
    platform: Platform,
    server: Seq<char>,
    fips_git_port: Seq<char>,
    paths: TunnelPathsView,
) -> Seq<char> {
    spec_render(
        spec_directives(platform, server, fips_git_port, paths.log_file, paths.cert_file),
        platform.spec_newline(),
    )
}

/// Rendering one more line appends that line and a line ending.
pub proof fn lemma_render_push(lines: Seq<Seq<char>>, line: Seq<char>, newline: Seq<char>)
    ensures
        spec_render(lines.push(line), newline) == spec_render(lines, newline) + line + newline,
{
    assert(lines.push(line).drop_last() =~= lines);
}

/// The directives of the tunnel's configuration, in the order in which they
/// are written, without line endings.
pub fn stunnel_directives(
    platform: Platform,
    server: &str,
    fips_git_port: &str,
    log_file: &str,
    cert_file: &str,
) -> (lines: Vec<String>)
    ensures
        lines.deep_view() == spec_directives(
            platform,
            server@,
            fips_git_port@,
            log_file@,
            cert_file@,
        ),
{
    let mut lines: Vec<String> = Vec::new();
    lines.push(String::from_str("fips = yes"));
    lines.push(String::from_str("client = yes"));
    lines.push(String::from_str("output = ").concat(log_file));
    match platform {
        Platform::Windows => {},
        Platform::Posix => {
            lines.push(String::from_str("foreground = quiet"));
        },
    }
    lines.push(String::from_str("[git]"));
    lines.push(String::from_str("accept = ").concat(fips_git_port));
    lines.push(String::from_str("connect = ").concat(server).concat(":8989"));
    lines.push(String::from_str("checkHost = ").concat(server));
    lines.push(String::from_str("verifyChain = yes"));
    lines.push(String::from_str("verify = 3"));
    lines.push(String::from_str("CAfile = ").concat(cert_file));
    assert(lines.deep_view() =~= spec_directives(
        platform,
        server@,
        fips_git_port@,
        log_file@,
        cert_file@,
    ));
    lines
}

/// The text made of `lines`, each followed by `newline`.
pub fn render_directives(lines: &Vec<String>, newline: &str) -> (text: String)
    ensures
        text@ == spec_render(lines.deep_view(), newline@),
{
    let ghost all = lines.deep_view();
    let mut text = String::new();
    let mut done: usize = 0;
    while done < lines.len()
        invariant
            done <= lines.len(),
            all == lines.deep_view(),
            text@ == spec_render(all.take(done as int), newline@),
        decreases lines.len() - done,
    {
        proof {
            lemma_render_push(all.take(done as int), all[done as int], newline@);
            assert(all.take(done as int).push(all[done as int]) =~= all.take(done + 1));
        }
        text.append(lines[done].as_str());
        text.append(newline);
        done = done + 1;
    }
    assert(all.take(done as int) =~= all);
    text
}

/// The whole content of the tunnel's configuration file for `server` and
/// `fips_git_port`: every directive on a line of its own, in the fixed
/// order, ended as the platform ends lines.
///
/// The log and the certificate are named by their paths in `paths`. The
/// text depends on nothing but the arguments.
pub fn stunnel_config(
    platform: Platform,
    server: &str,
    fips_git_port: &str,
    paths: &TunnelPaths,
) -> (text: String)
    ensures
        text@ == spec_stunnel_config(platform, server@, fips_git_port@, paths@),
{
    let lines = stunnel_directives(
        platform,
        server,
        fips_git_port,
        paths.log_file.as_str(),
        paths.cert_file.as_str(),
    );
    render_directives(&lines, platform.newline())
}

/// One effect of putting the tunnel's configuration in place.
#[derive(Clone, Copy, Debug, PartialEq, Eq, Structural)]
pub enum ConfigStep {
    /// Creating the directory of the configuration file.
    ConfigDir,
    /// Creating the directory of the log file.
    LogDir,
    /// Writing the configuration file.
    ConfigFile,
}

impl ConfigStep {
    /// The step that follows this one, if any.
    pub open spec fn spec_next(self) -> Option<ConfigStep> {
        match self {
            ConfigStep::ConfigDir => Some(ConfigStep::LogDir),
            ConfigStep::LogDir => Some(ConfigStep::ConfigFile),
            ConfigStep::ConfigFile => None,
        }
    }

    /// The step that follows this one, if any: first the two directories,
    /// then the file.
    pub fn next(self) -> (next: Option<ConfigStep>)
        ensures
            next == self.spec_next(),
    {
        match self {
            ConfigStep::ConfigDir => Some(ConfigStep::LogDir),
            ConfigStep::LogDir => Some(ConfigStep::ConfigFile),
            ConfigStep::ConfigFile => None,
        }
    }
}

/// What a step of putting the configuration in place asks for.
pub open spec fn spec_generate_stunnel_config(
    server: Seq<char>,
    fips_git_port: Seq<char>,
    platform: Platform,
    paths: TunnelPathsView,
    step: ConfigStep,
) -> ActionView {
    match step {
        ConfigStep::ConfigDir => ActionView::CreateDirectory { path: paths.config_dir },
        ConfigStep::LogDir => ActionView::CreateDirectory { path: paths.log_dir },
        ConfigStep::ConfigFile => ActionView::WriteFile {
            path: paths.config_file,
            content: spec_stunnel_config(platform, server, fips_git_port, paths),
        },
    }
}

/// The error that ends an activation when `step` was not carried out.
pub open spec fn spec_config_failure(
    paths: TunnelPathsView,
    step: ConfigStep,
    cause: Option<Seq<char>>,
) -> FipsErrorView {
    match step {
        ConfigStep::ConfigDir => FipsErrorView::IOError {
            operation: IoOperation::CreateDirectory,
            path: paths.config_dir,
            cause,
        },
        ConfigStep::LogDir => FipsErrorView::IOError {
            operation: IoOperation::CreateDirectory,
            path: paths.log_dir,
            cause,
        },
        ConfigStep::ConfigFile => FipsErrorView::IOError {
            operation: IoOperation::WriteFile,
            path: paths.config_file,
            cause,
        },
    }
}

/// What `step` of putting the tunnel's configuration in place asks for.
///
/// The directory of the configuration file is created first, then the
/// directory of the log file. The last step writes the configuration file
/// as a whole: its content is the text of [`stunnel_config`] for `server`
/// and `fips_git_port`.
pub fn generate_stunnel_config(
    server: &str,
    fips_git_port: &str,
    platform: Platform,
    paths: &TunnelPaths,
    step: ConfigStep,
) -> (action: Action)
    ensures
        action@ == spec_generate_stunnel_config(server@, fips_git_port@, platform, paths@, step),
{
    match step {
        ConfigStep::ConfigDir => Action::CreateDirectory { path: paths.config_dir.clone() },
        ConfigStep::LogDir => Action::CreateDirectory { path: paths.log_dir.clone() },
        ConfigStep::ConfigFile => Action::WriteFile {
            path: paths.config_file.clone(),
            content: stunnel_config(platform, server, fips_git_port, paths),
        },
    }
}

/// The error that ends an activation when `step` was not carried out: an
/// I/O error that names the operation, the path and the reported cause.
pub fn config_failure(paths: &TunnelPaths, step: ConfigStep, cause: Option<String>) -> (error:
    FipsError)
    ensures
        error@ == spec_config_failure(paths@, step, cause.deep_view()),
{
    match step {
        ConfigStep::ConfigDir => FipsError::IOError {
            operation: IoOperation::CreateDirectory,
            path: paths.config_dir.clone(),
            cause,
        },
        ConfigStep::LogDir => FipsError::IOError {
            operation: IoOperation::CreateDirectory,
            path: paths.log_dir.clone(),
            cause,
        },
        ConfigStep::ConfigFile => FipsError::IOError {
            operation: IoOperation::WriteFile,
            path: paths.config_file.clone(),
            cause,
        },
    }
}

} // verus!
