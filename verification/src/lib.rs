//! Runtime state core of a messaging client: the process-wide session
//! (credentials, user identity, network-client handle, ephemeral cache),
//! the one-shot bootstrap that creates it, the credential-change listener
//! that mutates it, and the idempotent backfill trigger.

pub mod backfill;
pub mod cache;
pub mod config;
pub mod listener;
pub mod session;

use vstd::prelude::*;

verus! {

/// The fatal bootstrap failures; any of them leaves the session permanently
/// unpublished for this process run.
#[derive(Clone, Copy, Debug, PartialEq, Eq, Structural)]
pub enum InitError {
    /// The configuration source is missing or malformed.
    ConfigError,
    /// The database is unreachable.
    ConnectionError,
    /// The network client could not be constructed.
    ClientError,
}

} // verus!
