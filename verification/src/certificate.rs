//! Retrieving the server's certificate and storing it.
use crate::effects::{Action, ActionView};
use crate::errors::{FipsError, FipsErrorView, IoOperation};
use crate::paths::{TunnelPaths, TunnelPathsView};
use vstd::prelude::*;

verus! {

/// One effect of putting the server's certificate in place.
#[derive(Clone, Copy, Debug, PartialEq, Eq, Structural)]
pub enum CertStep {
    /// Retrieving the certificate from the server.
    Fetch,
    /// Writing the certificate file.
    Store,
}

/// What putting the certificate in place asks for next, given what has been
/// retrieved so far.
pub open spec fn spec_write_stunnel_cert_file(
    server: Seq<char>,
    api_port: Seq<char>,
    paths: TunnelPathsView,
    fetched: Option<Seq<char>>,
) -> ActionView {
    match fetched {
        None => ActionView::FetchCertificate { server, port: api_port },
        Some(pem) => ActionView::WriteFile { path: paths.cert_file, content: pem },
    }
}

/// The error that ends an activation when `step` was not carried out.
pub open spec fn spec_certificate_failure(
    paths: TunnelPathsView,
    step: CertStep,
    cause: Option<Seq<char>>,
) -> FipsErrorView {
    match step {
        CertStep::Fetch => FipsErrorView::CertificateFetchError { cause },
        CertStep::Store => FipsErrorView::IOError {
            operation: IoOperation::WriteFile,
            path: paths.cert_file,
            cause,
        },
    }
}

/// What putting the server's certificate in place asks for next.
///
/// While nothing has been retrieved (`fetched` is `None`), the certificate
/// of `server` is to be retrieved from `api_port`. Once its text is there,
/// the certificate file is to be written with exactly that text, in place
/// of whatever it held.
pub fn write_stunnel_cert_file(
    server: &str,
    api_port: &str,
    paths: &TunnelPaths,
    fetched: Option<String>,
) -> (action: Action)
    ensures
        action@ == spec_write_stunnel_cert_file(server@, api_port@, paths@, fetched.deep_view()),
{
    match fetched {
        None => Action::FetchCertificate {
            server: String::from_str(server),
            port: String::from_str(api_port),
        },
        Some(pem) => Action::WriteFile { path: paths.cert_file.clone(), content: pem },
    }
}

/// The error that ends an activation when `step` was not carried out: the
/// reported cause of a failed retrieval, handed on as it is, or an I/O error
/// for the certificate file.
pub fn certificate_failure(paths: &TunnelPaths, step: CertStep, cause: Option<String>) -> (error:
    FipsError)
    ensures
        error@ == spec_certificate_failure(paths@, step, cause.deep_view()),
{
    match step {
        CertStep::Fetch => FipsError::CertificateFetchError { cause },
        CertStep::Store => FipsError::IOError {
            operation: IoOperation::WriteFile,
            path: paths.cert_file.clone(),
            cause,
        },
    }
}

} // verus!
