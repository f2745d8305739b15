//! The server's configuration and its defaults.

use vstd::prelude::*;
use crate::decimal::{decimal, u64_to_decimal};

verus! {

/// The whole configuration.
#[derive(Debug, Clone)]
pub struct Config {
    pub server: ServerConfig,
    pub database: DatabaseConfig,
    pub logging: LoggingConfig,
}

/// Where the server listens.
#[derive(Debug, Clone)]
pub struct ServerConfig {
    pub host: String,
    pub port: u16,
}

/// Where the database lives.
#[derive(Debug, Clone)]
pub struct DatabaseConfig {
    pub path: String,
}

/// Which log lines are written.
#[derive(Debug, Clone)]
pub struct LoggingConfig {
    pub filter: String,
}

impl Default for Config {
    fn default() -> (c: Self)
        ensures
            c.server.host@ == "0.0.0.0"@,
            c.server.port == 8082,
            c.database.path@ == "./data/nerd.db"@,
            c.logging.filter@ == "info,sqlx::query=warn"@,
    {
        Config {
            server: ServerConfig { host: "0.0.0.0".to_owned(), port: 8082 },
            database: DatabaseConfig { path: "./data/nerd.db".to_owned() },
            logging: LoggingConfig { filter: "info,sqlx::query=warn".to_owned() },
        }
    }
}

impl Config {
    /// The address to bind: host and port, separated by a colon.
    pub fn bind_addr(&self) -> (r: String)
        ensures
            r@ == self.server.host@ + ":"@ + decimal(self.server.port as nat),
    {
        let mut r = self.server.host.clone();
        r.append(":");
        let port = u64_to_decimal(self.server.port as u64);
        r.append(port.as_str());
        r
    }
}

} // verus!
