//! Bootstrap of an encrypted tunnel for FIPS mode.
//!
//! When FIPS mode is on, a client reaches the remote git proxy through an
//! external TLS tunnel program. This library decides what has to happen for
//! that: it states the tunnel's configuration file, the certificate to store
//! and the commands that start the tunnel, and it sequences those effects. It
//! performs none of them itself. The caller carries out each requested
//! [`effects::Action`] and reports back with an [`effects::Event`]; see
//! [`activation::setup_and_start_stunnel_if_fips_mode`].
//!
//! Every function is verified against its contract. What holds of the
//! library as a whole is stated and proved in [`laws`].
pub mod activation;
pub mod certificate;
pub mod config;
pub mod effects;
pub mod errors;
pub mod launcher;
pub mod laws;
pub mod materializer;
pub mod paths;
pub mod platform;

pub use activation::{setup_and_start_stunnel_if_fips_mode, Progress, Stage};
pub use config::{merge_fips_options_and_config, RuntimeConfig};
pub use effects::{Action, Event};
pub use errors::FipsError;
pub use paths::{stunnel_config_path, TunnelPaths};
pub use platform::Platform;
