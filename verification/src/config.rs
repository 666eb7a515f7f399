//! Server and database configuration, its defaults and its validation.
//! Reading environment variables is the caller's business; the values land
//! here as plain data.

use vstd::prelude::*;
use vstd::string::{StringExecFns, StrSliceExecFns};
use crate::error::Error;
use crate::text::str_eq;

verus! {

/// How the document store is reached.
#[derive(Clone, Copy, Debug, PartialEq, Eq, Structural)]
pub enum DatabaseMode {
    /// In-memory database (development only, data lost on restart).
    Memory,
    /// Embedded file-based database.
    Embedded,
    /// Remote database server.
    Remote,
}

/// Database connection settings.
#[derive(Clone, Debug)]
pub struct DatabaseConfig {
    /// Database connection mode.
    pub mode: DatabaseMode,
    /// Database URL for remote mode (e.g., `127.0.0.1:8000`).
    pub url: Option<String>,
    /// File path for embedded mode (e.g., `./data/loaa.db`).
    pub path: Option<String>,
}

/// Web server settings.
#[derive(Clone, Debug)]
pub struct ServerConfig {
    /// Web server host (e.g., `127.0.0.1`).
    pub host: String,
    /// Web server port (e.g., 3000).
    pub port: u16,
    /// Whether to run the tool-calling server in the same process.
    pub include_mcp: bool,
}

/// The whole configuration.
#[derive(Clone, Debug)]
pub struct Config {
    pub database: DatabaseConfig,
    pub server: ServerConfig,
}

impl Default for Config {
    /// An in-memory database behind a local development server.
    fn default() -> (r: Config)
        ensures
            r.database.mode == DatabaseMode::Memory,
            r.database.url matches Some(u) && u@ == "127.0.0.1:8000"@,
            r.database.path is None,
            r.server.host@ == "127.0.0.1"@,
            r.server.port == 3000,
            !r.server.include_mcp,
    {
        Config {
            database: DatabaseConfig {
                mode: DatabaseMode::Memory,
                url: Some(String::from_str("127.0.0.1:8000")),
                path: None,
            },
            server: ServerConfig {
                host: String::from_str("127.0.0.1"),
                port: 3000,
                include_mcp: false,
            },
        }
    }
}

impl Config {
    /// Check that the selected database mode has the settings it needs:
    /// embedded mode needs a path, remote mode needs a URL, memory mode
    /// needs nothing.
    pub fn validate(&self) -> (r: Result<(), String>)
        ensures
            match self.database.mode {
                DatabaseMode::Memory => r is Ok,
                DatabaseMode::Embedded => match self.database.path {
                    Some(_) => r is Ok,
                    None => r matches Err(m) && m@
                        == "Embedded database mode requires LOAA_DB_PATH to be set"@,
                },
                DatabaseMode::Remote => match self.database.url {
                    Some(_) => r is Ok,
                    None => r matches Err(m) && m@
                        == "Remote database mode requires LOAA_DB_URL to be set"@,
                },
            },
    {
        match self.database.mode {
            DatabaseMode::Memory => Ok(()),
            DatabaseMode::Embedded => {
                if self.database.path.is_none() {
                    Err(String::from_str("Embedded database mode requires LOAA_DB_PATH to be set"))
                } else {
                    Ok(())
                }
            },
            DatabaseMode::Remote => {
                if self.database.url.is_none() {
                    Err(String::from_str("Remote database mode requires LOAA_DB_URL to be set"))
                } else {
                    Ok(())
                }
            },
        }
    }
}

/// The database mode a configuration value names, compared after the caller
/// lowercases it; anything unknown is refused.
pub fn parse_database_mode(value: &str) -> (r: Option<DatabaseMode>)
    ensures
        r == (if value@ == "memory"@ {
            Some(DatabaseMode::Memory)
        } else if value@ == "embedded"@ {
            Some(DatabaseMode::Embedded)
        } else if value@ == "remote"@ {
            Some(DatabaseMode::Remote)
        } else {
            None::<DatabaseMode>
        }),
{
    if str_eq(value, "memory") {
        Some(DatabaseMode::Memory)
    } else if str_eq(value, "embedded") {
        Some(DatabaseMode::Embedded)
    } else if str_eq(value, "remote") {
        Some(DatabaseMode::Remote)
    } else {
        None
    }
}

/// Whether a configuration value switches a feature on: `true` (compared
/// after the caller lowercases it) or `1`.
pub fn parse_bool_flag(value: &str) -> (r: bool)
    ensures
        r == (value@ == "true"@ || value@ == "1"@),
{
    str_eq(value, "true") || str_eq(value, "1")
}

/// Whether `s` begins with `prefix`.
pub open spec fn has_prefix(s: Seq<char>, prefix: Seq<char>) -> bool {
    s.len() >= prefix.len() && s.subrange(0, prefix.len() as int) == prefix
}

/// Decide whether `s` begins with `prefix`.
pub fn starts_with(s: &str, prefix: &str) -> (r: bool)
    ensures
        r == has_prefix(s@, prefix@),
{
    let n = s.unicode_len();
    let p = prefix.unicode_len();
    if n < p {
        return false;
    }
    str_eq(s.substring_char(0, p), prefix)
}

/// The connection string the document store driver is opened with: `memory`
/// for the in-memory mode, the path behind a `rocksdb://` scheme for the
/// embedded mode, and the URL — given a `ws://` scheme unless it already
/// carries `ws://` or `wss://` — for the remote mode.  Fails when the mode's
/// setting is missing.
pub fn connection_string(config: &DatabaseConfig) -> (r: Result<String, Error>)
    ensures
        match config.mode {
            DatabaseMode::Memory => r matches Ok(s) && s@ == "memory"@,
            DatabaseMode::Embedded => match config.path {
                Some(p) => r matches Ok(s) && s@ == "rocksdb://"@ + p@,
                None => r matches Err(e) && e matches Error::Database(m) && m@
                    == "Embedded mode requires database path"@,
            },
            DatabaseMode::Remote => match config.url {
                Some(u) => r matches Ok(s) && s@ == if has_prefix(u@, "ws://"@) || has_prefix(
                    u@,
                    "wss://"@,
                ) {
                    u@
                } else {
                    "ws://"@ + u@
                },
                None => r matches Err(e) && e matches Error::Database(m) && m@
                    == "Remote mode requires database URL"@,
            },
        },
{
    match config.mode {
        DatabaseMode::Memory => Ok(String::from_str("memory")),
        DatabaseMode::Embedded => {
            match &config.path {
                Some(p) => {
                    let mut s = String::from_str("rocksdb://");
                    s.append(p.as_str());
                    Ok(s)
                },
                None => Err(Error::Database(String::from_str("Embedded mode requires database path"))),
            }
        },
        DatabaseMode::Remote => {
            match &config.url {
                Some(u) => {
                    if starts_with(u.as_str(), "ws://") || starts_with(u.as_str(), "wss://") {
                        Ok(u.clone())
                    } else {
                        let mut s = String::from_str("ws://");
                        s.append(u.as_str());
                        Ok(s)
                    }
                },
                None => Err(Error::Database(String::from_str("Remote mode requires database URL"))),
            }
        },
    }
}

} // verus!
