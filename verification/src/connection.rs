//! The options of the connection pool.
use vstd::prelude::*;

verus! {

/// How much the database driver logs.
#[derive(Clone, Copy, Debug, PartialEq, Eq, Structural)]
pub enum LogLevel {
    Off,
    Error,
    Warn,
    Info,
    Debug,
    Trace,
}

/// The options of the connection pool.
#[derive(Clone, Debug)]
pub struct DbOptions {
    pub url: String,
    pub max_connections: u32,
    pub min_connections: u32,
    pub connect_timeout_secs: u64,
    pub acquire_timeout_secs: u64,
    pub idle_timeout_secs: u64,
    pub max_lifetime_secs: u64,
    pub sqlx_logging: bool,
    pub sqlx_logging_level: LogLevel,
    pub schema_search_path: String,
}

/// Why the options could not be set up.
#[derive(Clone, Debug)]
pub struct ConfigError {
    pub message: String,
}

/// Whether `o` holds the options for the database at `url`: at most 100 and
/// at least 5 connections, every timeout and the longest lifetime 8 seconds,
/// driver logging off (at level Info when on), and the schema `studynotes`.
pub open spec fn options_for(o: DbOptions, url: Seq<char>) -> bool {
    &&& o.url@ == url
    &&& o.max_connections == 100
    &&& o.min_connections == 5
    &&& o.connect_timeout_secs == 8
    &&& o.acquire_timeout_secs == 8
    &&& o.idle_timeout_secs == 8
    &&& o.max_lifetime_secs == 8
    &&& !o.sqlx_logging
    &&& o.sqlx_logging_level == LogLevel::Info
    &&& o.schema_search_path@ == "studynotes"@
}

/// Set up database connection options from the value of `DATABASE_URL`,
/// which must be set.
pub fn set_db_options(database_url: Option<String>) -> (r: Result<DbOptions, ConfigError>)
    ensures
        match database_url {
            Some(url) => r matches Ok(o) && options_for(o, url@),
            None => r matches Err(e) && e.message@ == "DATABASE_URL must be set in .env file"@,
        },
{
    match database_url {
        None => Err(ConfigError { message: String::from_str("DATABASE_URL must be set in .env file") }),
        Some(url) => Ok(DbOptions {
            url,
            max_connections: 100,
            min_connections: 5,
            connect_timeout_secs: 8,
            acquire_timeout_secs: 8,
            idle_timeout_secs: 8,
            max_lifetime_secs: 8,
            sqlx_logging: false,
            sqlx_logging_level: LogLevel::Info,
            schema_search_path: String::from_str("studynotes"),
        }),
    }
}

} // verus!
