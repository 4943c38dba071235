//! Startup configuration: the two required environment values, validated
//! eagerly so the process can fail fast before it opens any socket.
use vstd::prelude::*;

verus! {

/// Why the service refused to start.
#[derive(Debug, PartialEq, Eq, Structural)]
pub enum ConfigError {
    /// The connection string for the relational store was not provided.
    MissingDatabaseUrl,
    /// The TCP port to bind on was not provided.
    MissingPort,
}

/// The configuration the service runs with, populated once at startup.
pub struct Config {
    pub database_url: String,
    pub port: String,
}

/// Validates the two required configuration values. Each is `None` when the
/// corresponding environment variable is absent. The connection string is
/// checked first, so its absence wins when both are missing.
pub fn build_config(database_url: Option<String>, port: Option<String>) -> (r: Result<
    Config,
    ConfigError,
>)
    ensures
        database_url is None ==> r == Err::<Config, ConfigError>(ConfigError::MissingDatabaseUrl),
        database_url is Some && port is None ==> r == Err::<Config, ConfigError>(
            ConfigError::MissingPort,
        ),
        database_url is Some && port is Some ==> {
            &&& r is Ok
            &&& r->Ok_0.database_url == database_url->0
            &&& r->Ok_0.port == port->0
        },
{
    match (database_url, port) {
        (None, _) => Err(ConfigError::MissingDatabaseUrl),
        (Some(_), None) => Err(ConfigError::MissingPort),
        (Some(u), Some(p)) => Ok(Config { database_url: u, port: p }),
    }
}

/// The address the listener binds: every interface, at the configured port.
pub fn bind_address(port: &str) -> (r: String)
    ensures
        r@ == "0.0.0.0:"@ + port@,
{
    let mut r = "0.0.0.0:".to_owned();
    r.append(port);
    r
}

} // verus!
