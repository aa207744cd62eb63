//! Where the tunnel's files live.
use crate::platform::Platform;
use vstd::prelude::*;

verus! {

/// The tunnel's configuration file on Windows, a fixed system path.
pub open spec fn spec_windows_config_file() -> Seq<char> {
    "C:\\opscode\\chefdk\\embedded\\stunnel.conf"@
}

/// The directory of the tunnel's configuration file on Windows.
pub open spec fn spec_windows_config_dir() -> Seq<char> {
    "C:\\opscode\\chefdk\\embedded"@
}

/// The directory of the configuration and the certificate, below the home
/// directory.
pub open spec fn spec_etc_dir() -> Seq<char> {
    ".chefdk/etc/"@
}

/// The directory of the tunnel's log, below the home directory.
pub open spec fn spec_log_dir() -> Seq<char> {
    ".chefdk/log/"@
}

/// The tunnel's configuration file, below the home directory.
pub open spec fn spec_home_config_file() -> Seq<char> {
    ".chefdk/etc/stunnel.conf"@
}

/// The tunnel's log file, below the home directory.
pub open spec fn spec_log_file() -> Seq<char> {
    ".chefdk/log/stunnel.log"@
}

/// The stored certificate of the server, below the home directory.
pub open spec fn spec_cert_file() -> Seq<char> {
    ".chefdk/etc/automate-nginx-cert.pem"@
}

/// The path `relative` below the directory `home`.
///
/// The platform's separator is put between the two, unless `home` is empty
/// or already ends with a separator.
pub open spec fn spec_home_path(
    platform: Platform,
    home: Seq<char>,
    relative: Seq<char>,
) -> Seq<char> {
    if home.len() == 0 || platform.spec_is_separator(home.last()) {
        home + relative
    } else {
        home.push(platform.spec_separator()) + relative
    }
}

/// Where the tunnel's configuration file lives: the fixed system path on
/// Windows, a path below the home directory elsewhere.
pub open spec fn spec_stunnel_config_path(platform: Platform, home: Seq<char>) -> Seq<char> {
    match platform {
        Platform::Windows => spec_windows_config_file(),
        Platform::Posix => spec_home_path(platform, home, spec_home_config_file()),
    }
}

/// The path `relative` below the directory `home`, with the platform's
/// separator between the two unless `home` is empty or already ends with one.
pub fn home_path(platform: Platform, home: &str, relative: &str) -> (path: String)
    ensures
        path@ == spec_home_path(platform, home@, relative@),
{
    let length: usize = home.unicode_len();
    let mut path = String::from_str(home);
    if length > 0 && !platform.is_separator(home.get_char(length - 1)) {
        path.append(platform.separator());
        assert(path@ == home@.push(platform.spec_separator()));
    }
    path.append(relative);
    path
}

/// Where the tunnel's configuration file lives, given the user's home
/// directory: the fixed system path on Windows, whatever `home` is, and
/// `.chefdk/etc/stunnel.conf` below `home` elsewhere.
pub fn stunnel_config_path(platform: Platform, home: &str) -> (path: String)
    ensures
        path@ == spec_stunnel_config_path(platform, home@),
{
    match platform {
        Platform::Windows => String::from_str("C:\\opscode\\chefdk\\embedded\\stunnel.conf"),
        Platform::Posix => home_path(platform, home, ".chefdk/etc/stunnel.conf"),
    }
}

/// The locations that an activation reads and writes.
#[derive(Clone, Debug, PartialEq, Eq)]
pub struct TunnelPaths {
    /// The tunnel program.
    pub binary: String,
    /// The directory that holds the configuration file.
    pub config_dir: String,
    /// The tunnel's configuration file.
    pub config_file: String,
    /// The directory that holds the log file.
    pub log_dir: String,
    /// The file to which the tunnel writes its log.
    pub log_file: String,
    /// The file that holds the server's certificate.
    pub cert_file: String,
}

/// The mathematical content of a [`TunnelPaths`].
pub struct TunnelPathsView {
    pub binary: Seq<char>,
    pub config_dir: Seq<char>,
    pub config_file: Seq<char>,
    pub log_dir: Seq<char>,
    pub log_file: Seq<char>,
    pub cert_file: Seq<char>,
}

impl View for TunnelPaths {
    type V = TunnelPathsView;

    open spec fn view(&self) -> TunnelPathsView {
        TunnelPathsView {
            binary: self.binary@,
            config_dir: self.config_dir@,
            config_file: self.config_file@,
            log_dir: self.log_dir@,
            log_file: self.log_file@,
            cert_file: self.cert_file@,
        }
    }
}

/// The usual locations for a tunnel program at `binary` and a user whose
/// home directory is `home`.
pub open spec fn spec_resolve(
    platform: Platform,
    binary: Seq<char>,
    home: Seq<char>,
) -> TunnelPathsView {
    TunnelPathsView {
        binary,
        config_dir: match platform {
            Platform::Windows => spec_windows_config_dir(),
            Platform::Posix => spec_home_path(platform, home, spec_etc_dir()),
        },
        config_file: spec_stunnel_config_path(platform, home),
        log_dir: spec_home_path(platform, home, spec_log_dir()),
        log_file: spec_home_path(platform, home, spec_log_file()),
        cert_file: spec_home_path(platform, home, spec_cert_file()),
    }
}

impl TunnelPaths {
    /// The usual locations for a tunnel program at `binary` and a user whose
    /// home directory is `home`.
    ///
    /// The log and the certificate live below `home` on every platform. The
    /// configuration file does so too, except on Windows, where it has a
    /// fixed system path. Each directory is the one that holds the file it
    /// is named after.
    pub fn resolve(platform: Platform, binary: &str, home: &str) -> (paths: TunnelPaths)
        ensures
            paths@ == spec_resolve(platform, binary@, home@),
    {
        let config_dir = match platform {
            Platform::Windows => String::from_str("C:\\opscode\\chefdk\\embedded"),
            Platform::Posix => home_path(platform, home, ".chefdk/etc/"),
        };
        TunnelPaths {
            binary: String::from_str(binary),
            config_dir,
            config_file: stunnel_config_path(platform, home),
            log_dir: home_path(platform, home, ".chefdk/log/"),
            log_file: home_path(platform, home, ".chefdk/log/stunnel.log"),
            cert_file: home_path(platform, home, ".chefdk/etc/automate-nginx-cert.pem"),
        }
    }
}

} // verus!
