use vstd::prelude::*;

verus! {

/// What can go wrong with the configuration file.
#[derive(Debug, Clone)]
pub enum ConfigError {
    FileNotFound,
    ParseError(String),
    WriteError(String),
    ReadError(String),
}

/// The ranking server used unless the build names another.
pub const SERVER_URL: &'static str = "https://atlas-index-server-production.up.railway.app";

/// The name of the configuration file.
pub const CONFIG_FILE: &'static str = "config.toml";

/// The name of the configuration file used by tests against a server.
pub const TEST_CONFIG_FILE: &'static str = "test_config.toml";

/// The settings of the observer.
#[derive(Debug, Clone)]
pub struct Config {
    pub server_url: String,
    pub token: String,
}

/// What the configuration file holds.
#[derive(Debug, Clone)]
pub struct ConfigFile {
    pub token: String,
}

impl Config {
    /// The settings before any token is known, for the default server.
    pub fn new() -> (r: Self)
        ensures
            r.server_url@ == SERVER_URL@,
            r.token@.len() == 0,
    {
        Self::for_server(SERVER_URL)
    }

    /// The settings before any token is known, for a server (such as one named when the
    /// observer was built).
    pub fn for_server(server_url: &str) -> (r: Self)
        ensures
            r.server_url@ == server_url@,
            r.token@.len() == 0,
    {
        Config { server_url: String::from_str(server_url), token: String::new() }
    }

    /// The settings a configuration file gives, for a server.
    pub fn from_file_contents(file: ConfigFile, server_url: &str) -> (r: Self)
        ensures
            r.server_url@ == server_url@,
            r.token@ == file.token@,
    {
        Config { server_url: String::from_str(server_url), token: file.token }
    }

    /// Whether a token must be asked for because the configuration has none.
    pub fn needs_token(&self) -> (r: bool)
        ensures
            r == (self.token@.len() == 0),
    {
        self.token.as_str().is_empty()
    }

    /// What is written to the configuration file: the token (the server is not saved).
    pub fn file_contents(&self) -> (r: ConfigFile)
        ensures
            r.token@ == self.token@,
    {
        ConfigFile { token: self.token.clone() }
    }
}

/// What loading does when the configuration file cannot be used: a missing file is created
/// with default settings; otherwise the player is told what went wrong.
#[derive(Debug)]
pub enum LoadFailure {
    CreateDefault,
    Report(String),
}

/// Decides what follows a failed load of the configuration.
pub fn load_failure(err: &ConfigError) -> (r: LoadFailure)
    ensures
        match *err {
            ConfigError::FileNotFound => r is CreateDefault,
            ConfigError::ParseError(field) => r matches LoadFailure::Report(m) && m@ == "'"@
                + field@ + "' field in config.toml has incorrect formatting or is invalid."@,
            _ => r matches LoadFailure::Report(m) && m@
                == "Failed to load config, try giving this app reading/writting permission"@,
        },
{
    match err {
        ConfigError::FileNotFound => LoadFailure::CreateDefault,
        ConfigError::ParseError(field) => {
            let mut msg = String::from_str("'");
            msg.append(field.as_str());
            msg.append("' field in config.toml has incorrect formatting or is invalid.");
            LoadFailure::Report(msg)
        },
        _ => LoadFailure::Report(
            String::from_str("Failed to load config, try giving this app reading/writting permission"),
        ),
    }
}

} // verus!
