//! Connection settings and their defaults.

use vstd::prelude::*;

verus! {

/// Upper bound on concurrent store connections when none is configured.
pub const DEFAULT_MAX_CONNECTIONS: u32 = 5;

/// Longest wait for a pooled connection, in milliseconds, when none is configured.
pub const DEFAULT_ACQUIRE_TIMEOUT_MS: u64 = 3_000;

/// Longest duration of one statement, in milliseconds, when none is configured.
pub const DEFAULT_STATEMENT_TIMEOUT_MS: u64 = 5_000;

/// Everything the process is configured with.
#[derive(Debug)]
pub struct Config {
    pub database: DatabaseConfig,
}

/// How to reach the store and how long to wait for it.
#[derive(Debug)]
pub struct DatabaseConfig {
    /// Store connection endpoint.
    pub url: String,
    /// Upper bound on concurrent store connections.
    pub max_connections: u32,
    /// Longest wait for a pooled connection, in milliseconds.
    pub acquire_timeout_ms: u64,
    /// Longest duration of one statement, in milliseconds.
    pub statement_timeout_ms: u64,
}

pub fn default_max_connections() -> (n: u32)
    ensures
        n == DEFAULT_MAX_CONNECTIONS,
        n == 5,
{
    DEFAULT_MAX_CONNECTIONS
}

pub fn default_acquire_timeout_ms() -> (ms: u64)
    ensures
        ms == DEFAULT_ACQUIRE_TIMEOUT_MS,
        ms == 3_000,
{
    DEFAULT_ACQUIRE_TIMEOUT_MS
}

pub fn default_statement_timeout_ms() -> (ms: u64)
    ensures
        ms == DEFAULT_STATEMENT_TIMEOUT_MS,
        ms == 5_000,
{
    DEFAULT_STATEMENT_TIMEOUT_MS
}

impl DatabaseConfig {
    /// The settings that result from an endpoint and the options that were
    /// given for it: an option that is absent takes its default.
    pub open spec fn resolved(
        url: String,
        max_connections: Option<u32>,
        acquire_timeout_ms: Option<u64>,
        statement_timeout_ms: Option<u64>,
    ) -> DatabaseConfig {
        DatabaseConfig {
            url,
            max_connections: match max_connections {
                Some(n) => n,
                None => DEFAULT_MAX_CONNECTIONS,
            },
            acquire_timeout_ms: match acquire_timeout_ms {
                Some(ms) => ms,
                None => DEFAULT_ACQUIRE_TIMEOUT_MS,
            },
            statement_timeout_ms: match statement_timeout_ms {
                Some(ms) => ms,
                None => DEFAULT_STATEMENT_TIMEOUT_MS,
            },
        }
    }

    /// Builds the settings from the one required option and the optional ones.
    pub fn with_defaults(
        url: String,
        max_connections: Option<u32>,
        acquire_timeout_ms: Option<u64>,
        statement_timeout_ms: Option<u64>,
    ) -> (cfg: DatabaseConfig)
        ensures
            cfg == Self::resolved(url, max_connections, acquire_timeout_ms, statement_timeout_ms),
    {
        DatabaseConfig {
            url,
            max_connections: match max_connections {
                Some(n) => n,
                None => default_max_connections(),
            },
            acquire_timeout_ms: match acquire_timeout_ms {
                Some(ms) => ms,
                None => default_acquire_timeout_ms(),
            },
            statement_timeout_ms: match statement_timeout_ms {
                Some(ms) => ms,
                None => default_statement_timeout_ms(),
            },
        }
    }
}

} // verus!
