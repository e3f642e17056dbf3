//! Startup configuration decisions.
//!
//! The surrounding process reads the environment and the command line; the
//! decisions about what those values mean are made here.

use vstd::prelude::*;

verus! {

/// Why the invocation cannot start.
#[derive(Clone, Copy, PartialEq, Eq, Structural, Debug)]
pub enum ConfigError {
    /// No service credential was supplied; fatal before any network
    /// activity.
    MissingApiKey,
}

/// Demand the service credential at startup: the supplied key is accepted
/// as-is, and its absence is fatal before any network call is attempted.
pub fn require_api_key(key: Option<String>) -> (r: Result<String, ConfigError>)
    ensures
        key matches Some(k) ==> r == Ok::<String, ConfigError>(k),
        key is None ==> r == Err::<String, ConfigError>(ConfigError::MissingApiKey),
{
    match key {
        Some(k) => Ok(k),
        None => Err(ConfigError::MissingApiKey),
    }
}

/// The active model identifier: a value supplied through the environment
/// overrides the command-line value.
pub fn choose_model(env_model: Option<String>, cli_model: String) -> (r: String)
    ensures
        env_model matches Some(m) ==> r == m,
        env_model is None ==> r == cli_model,
{
    match env_model {
        Some(m) => m,
        None => cli_model,
    }
}

} // verus!
