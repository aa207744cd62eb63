//! The ways in which an activation can fail.
use vstd::prelude::*;

verus! {

/// A setting that must be present once FIPS mode is requested.
#[derive(Clone, Copy, Debug, PartialEq, Eq, Structural)]
pub enum RequiredField {
    /// The address of the remote server.
    Server,
    /// The local port on which the tunnel accepts git traffic.
    FipsGitPort,
}

impl RequiredField {
    /// The name of the setting, as it is written in a configuration.
    pub open spec fn spec_name(self) -> Seq<char> {
        match self {
            RequiredField::Server => "server"@,
            RequiredField::FipsGitPort => "fips_git_port"@,
        }
    }

    /// The name of the setting, as it is written in a configuration.
    pub fn name(self) -> (text: &'static str)
        ensures
            text@ == self.spec_name(),
    {
        match self {
            RequiredField::Server => "server",
            RequiredField::FipsGitPort => "fips_git_port",
        }
    }
}

/// What was being done to the file system when it failed.
#[derive(Clone, Copy, Debug, PartialEq, Eq, Structural)]
pub enum IoOperation {
    /// Creating a directory together with its missing parents.
    CreateDirectory,
    /// Creating a file, or emptying it, and writing its whole content.
    WriteFile,
}

/// Why an activation stopped.
///
/// A `cause` is the text with which the caller reported the failure. It is
/// `None` where the caller's report was no answer to what had been asked.
#[derive(Clone, Debug, PartialEq, Eq)]
pub enum FipsError {
    /// The tunnel program is missing, so FIPS mode cannot be honoured here.
    UnsupportedPlatform,
    /// FIPS mode was requested and a setting it needs is absent.
    MissingRequiredField { field: RequiredField },
    /// Creating a directory or writing a file failed.
    IOError { operation: IoOperation, path: String, cause: Option<String> },
    /// The server's certificate could not be retrieved.
    CertificateFetchError { cause: Option<String> },
    /// The tunnel program could not be started.
    ProcessLaunchError { command: String, cause: Option<String> },
}

/// The mathematical content of a [`FipsError`].
pub enum FipsErrorView {
    UnsupportedPlatform,
    MissingRequiredField { field: RequiredField },
    IOError { operation: IoOperation, path: Seq<char>, cause: Option<Seq<char>> },
    CertificateFetchError { cause: Option<Seq<char>> },
    ProcessLaunchError { command: Seq<char>, cause: Option<Seq<char>> },
}

impl View for FipsError {
    type V = FipsErrorView;

    open spec fn view(&self) -> FipsErrorView {
        match *self {
            FipsError::UnsupportedPlatform => FipsErrorView::UnsupportedPlatform,
            FipsError::MissingRequiredField { field } => FipsErrorView::MissingRequiredField {
                field,
            },
            FipsError::IOError { operation, path, cause } => FipsErrorView::IOError {
                operation,
                path: path@,
                cause: cause.deep_view(),
            },
            FipsError::CertificateFetchError { cause } => FipsErrorView::CertificateFetchError {
                cause: cause.deep_view(),
            },
            FipsError::ProcessLaunchError { command, cause } => FipsErrorView::ProcessLaunchError {
                command: command@,
                cause: cause.deep_view(),
            },
        }
    }
}

} // verus!
