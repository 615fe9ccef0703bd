//! Configuration validation: the first step of bootstrap.
//!
//! The configuration source itself (a file, the environment) is outside this
//! library; the raw values it hands over are checked here, and a bootstrap
//! aborts with `ConfigError` exactly when a required field is missing.

use crate::InitError;
use vstd::prelude::*;

verus! {

/// Configuration as the configuration source hands it over: a field is `None`
/// when the source is missing or does not define it.
pub struct RawConfig {
    /// Database connection parameters (required).
    pub database_url: Option<String>,
    /// Base URL of the backend the network client talks to (required).
    pub backend_base_url: Option<String>,
}

/// A validated configuration: every required field is present.
#[derive(Clone, Debug, PartialEq, Eq)]
pub struct Config {
    pub database_url: String,
    pub backend_base_url: String,
}

/// Whether every required field of the raw configuration is present.
pub open spec fn config_complete(raw: RawConfig) -> bool {
    raw.database_url is Some && raw.backend_base_url is Some
}

/// Checks the raw configuration, yielding `ConfigError` exactly when a
/// required field is missing; on success the validated configuration carries
/// the raw values unchanged.
pub fn validate_configuration(raw: &RawConfig) -> (r: Result<Config, InitError>)
    ensures
        r is Ok <==> config_complete(*raw),
        r is Ok ==> r->Ok_0.database_url == raw.database_url->0
            && r->Ok_0.backend_base_url == raw.backend_base_url->0,
        r is Err ==> r->Err_0 == InitError::ConfigError,
{
    match (&raw.database_url, &raw.backend_base_url) {
        (Some(db), Some(base)) => Ok(
            Config { database_url: db.clone(), backend_base_url: base.clone() },
        ),
        _ => Err(InitError::ConfigError),
    }
}

} // verus!
