//! The server's configuration: where the notes are stored, how much is
//! logged, and what the service is called.

use crate::error_def::BppConfigError;
use vstd::prelude::*;
use vstd::string::*;

verus! {

/// How the storage is reached.
#[derive(Debug)]
pub struct DatabaseConfig {
    pub connection_str: String,
    pub password_str: String,
}

impl Default for DatabaseConfig {
    fn default() -> (r: DatabaseConfig)
        ensures
            r.connection_str@ == "user@url.ca:8080"@,
            r.password_str@ == "123olivera4"@,
    {
        DatabaseConfig {
            connection_str: String::from_str("user@url.ca:8080"),
            password_str: String::from_str("123olivera4"),
        }
    }
}

/// How much is logged.
#[derive(Debug)]
pub struct LoggingConfig {
    pub level: String,
}

impl Default for LoggingConfig {
    fn default() -> (r: LoggingConfig)
        ensures
            r.level@ == "INFO"@,
    {
        LoggingConfig { level: String::from_str("INFO") }
    }
}

/// What the service is called.
#[derive(Debug)]
pub struct ServiceConfig {
    pub name: String,
}

impl Default for ServiceConfig {
    fn default() -> (r: ServiceConfig)
        ensures
            r.name@ == "NoteService"@,
    {
        ServiceConfig { name: String::from_str("NoteService") }
    }
}

/// All options of the server.
#[derive(Debug)]
pub struct Config {
    pub database: DatabaseConfig,
    pub logging: LoggingConfig,
    pub service: ServiceConfig,
}

impl Default for Config {
    fn default() -> (r: Config)
        ensures
            r.database.connection_str@ == "user@url.ca:8080"@,
            r.database.password_str@ == "123olivera4"@,
            r.logging.level@ == "INFO"@,
            r.service.name@ == "NoteService"@,
    {
        Config {
            database: DatabaseConfig::default(),
            logging: LoggingConfig::default(),
            service: ServiceConfig::default(),
        }
    }
}

impl Config {
    /// The file that the options are read from: the one that was chosen, or
    /// the file in the home directory where none was.
    pub fn config_file(chosen: Option<String>) -> (path: String)
        ensures
            path@ == match chosen {
                Some(p) => p@,
                None => "~/bpp_server.config"@,
            },
    {
        match chosen {
            Some(p) => p,
            None => String::from_str("~/bpp_server.config"),
        }
    }

    /// The outcome of loading: the options that were read, or the failure
    /// where nothing could be read.
    pub fn load(read: Option<Config>) -> (r: Result<Config, BppConfigError>)
        ensures
            match r {
                Ok(config) => read == Some(config),
                Err(e) => read is None && e.detail() == "Config could not be loaded"@,
            },
    {
        match read {
            Some(config) => Ok(config),
            None => Err(
                BppConfigError::FailedToLoadConfigOptions(
                    String::from_str("Config could not be loaded"),
                ),
            ),
        }
    }
}

/// Building a value from the server's options.
pub trait FromConfig: Sized {
    fn from_config(config: &Config) -> Result<Self, BppConfigError>;
}

} // verus!
