//! The runtime configuration, as far as FIPS mode reads and fills it.
use crate::errors::{FipsError, FipsErrorView, RequiredField};
use vstd::prelude::*;

verus! {

/// The settings that FIPS mode looks at. Each may be absent.
#[derive(Clone, Debug, PartialEq, Eq)]
pub struct RuntimeConfig {
    /// Whether FIPS mode is requested.
    pub fips: Option<bool>,
    /// The address of the remote server.
    pub server: Option<String>,
    /// The local port on which the tunnel accepts git traffic.
    pub fips_git_port: Option<String>,
    /// The port of the server's API, from which its certificate is read.
    pub api_port: Option<String>,
}

/// The mathematical content of a [`RuntimeConfig`].
pub struct RuntimeConfigView {
    pub fips: Option<bool>,
    pub server: Option<Seq<char>>,
    pub fips_git_port: Option<Seq<char>>,
    pub api_port: Option<Seq<char>>,
}

impl View for RuntimeConfig {
    type V = RuntimeConfigView;

    open spec fn view(&self) -> RuntimeConfigView {
        RuntimeConfigView {
            fips: self.fips,
            server: self.server.deep_view(),
            fips_git_port: self.fips_git_port.deep_view(),
            api_port: self.api_port.deep_view(),
        }
    }
}

impl RuntimeConfigView {
    /// FIPS mode is requested: the flag is present and set.
    pub open spec fn fips_requested(self) -> bool {
        self.fips == Some(true)
    }

    /// The first required setting that is absent, the server before the port.
    pub open spec fn missing_field(self) -> Option<RequiredField> {
        if self.server is None {
            Some(RequiredField::Server)
        } else if self.fips_git_port is None {
            Some(RequiredField::FipsGitPort)
        } else {
            None
        }
    }

    /// The port from which the certificate is read: the API port, or 443
    /// where none is configured.
    pub open spec fn certificate_port(self) -> Seq<char> {
        match self.api_port {
            Some(port) => port,
            None => "443"@,
        }
    }

    /// What merging an outside FIPS flag and git port into this
    /// configuration gives: a flag that is present stays, an absent one is
    /// filled, and the git port is replaced.
    pub open spec fn merged(self, fips: bool, fips_git_port: Seq<char>) -> RuntimeConfigView {
        RuntimeConfigView {
            fips: if self.fips is Some {
                self.fips
            } else {
                Some(fips)
            },
            server: self.server,
            fips_git_port: Some(fips_git_port),
            api_port: self.api_port,
        }
    }
}

impl RuntimeConfig {
    /// A configuration in which nothing is set.
    pub fn new() -> (config: RuntimeConfig)
        ensures
            config@ == (RuntimeConfigView {
                fips: None,
                server: None,
                fips_git_port: None,
                api_port: None,
            }),
    {
        RuntimeConfig { fips: None, server: None, fips_git_port: None, api_port: None }
    }

    /// Replaces the FIPS git port and leaves every other setting as it is.
    pub fn set_fips_git_port(self, fips_git_port: &str) -> (config: RuntimeConfig)
        ensures
            config@ == (RuntimeConfigView { fips_git_port: Some(fips_git_port@), ..self@ }),
    {
        RuntimeConfig {
            fips: self.fips,
            server: self.server,
            fips_git_port: Some(String::from_str(fips_git_port)),
            api_port: self.api_port,
        }
    }

    /// Whether FIPS mode is requested: the flag is present and set.
    pub fn fips_requested(&self) -> (yes: bool)
        ensures
            yes == self@.fips_requested(),
    {
        match self.fips {
            Some(fips) => fips,
            None => false,
        }
    }

    /// The server address, or the error that names it as missing.
    pub fn server(&self) -> (res: Result<String, FipsError>)
        ensures
            match self@.server {
                Some(server) => res matches Ok(found) && found@ == server,
                None => res matches Err(e) && e@ == (FipsErrorView::MissingRequiredField {
                    field: RequiredField::Server,
                }),
            },
    {
        match &self.server {
            Some(server) => Ok(server.clone()),
            None => Err(FipsError::MissingRequiredField { field: RequiredField::Server }),
        }
    }

    /// The FIPS git port, or the error that names it as missing.
    pub fn fips_git_port(&self) -> (res: Result<String, FipsError>)
        ensures
            match self@.fips_git_port {
                Some(port) => res matches Ok(found) && found@ == port,
                None => res matches Err(e) && e@ == (FipsErrorView::MissingRequiredField {
                    field: RequiredField::FipsGitPort,
                }),
            },
    {
        match &self.fips_git_port {
            Some(port) => Ok(port.clone()),
            None => Err(FipsError::MissingRequiredField { field: RequiredField::FipsGitPort }),
        }
    }

    /// The port from which the server's certificate is read: the API port,
    /// or 443 where none is configured.
    pub fn certificate_port(&self) -> (port: String)
        ensures
            port@ == self@.certificate_port(),
    {
        match &self.api_port {
            Some(port) => port.clone(),
            None => String::from_str("443"),
        }
    }
}

/// Merges a FIPS flag and a FIPS git port that came from outside into a
/// configuration.
///
/// A flag that the configuration already holds wins over `fips`; an absent
/// one is set to `fips`. The git port is always replaced by `fips_git_port`.
/// The server and the API port are untouched. The merge never fails.
pub fn merge_fips_options_and_config(
    fips: bool,
    fips_git_port: &str,
    config: RuntimeConfig,
) -> (res: Result<RuntimeConfig, FipsError>)
    ensures
        res matches Ok(merged) && merged@ == config@.merged(fips, fips_git_port@),
{
    let mut config = config;
    if config.fips.is_none() {
        config.fips = Some(fips);
    }
    let new_config = config.set_fips_git_port(fips_git_port);
    Ok(new_config)
}

} // verus!
