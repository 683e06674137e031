//! The server's settings.

use vstd::prelude::*;

verus! {

#[derive(Debug)]
pub struct Config {
    pub host: String,
    pub port: u16,
    pub database_url: String,
    pub jwt_secret: String,
    pub github: GitHubConfig,
    pub security: SecurityConfig,
}

#[derive(Debug)]
pub struct GitHubConfig {
    pub client_id: String,
    pub client_secret: String,
    pub redirect_uri: String,
    pub api_base_url: String,
}

#[derive(Debug)]
pub struct SecurityConfig {
    pub rate_limit_requests_per_minute: u32,
    pub session_timeout_hours: u64,
    pub max_token_age_days: u64,
    pub audit_log_enabled: bool,
}

/// Why the settings could not be read.
#[derive(Debug)]
pub enum ConfigError {
    /// A required variable is not set; its name.
    MissingEnvVar(String),
    /// A variable does not parse; what was wrong.
    ParseError(String),
}

impl ConfigError {
    /// The text of the error.
    pub fn message(&self) -> (r: String)
        ensures
            r@ == match self {
                ConfigError::MissingEnvVar(v) => "Environment variable not found: "@ + v@,
                ConfigError::ParseError(e) => "Configuration parsing error: "@ + e@,
            },
    {
        match self {
            ConfigError::MissingEnvVar(v) => {
                let mut m = String::from_str("Environment variable not found: ");
                m.append(v.as_str());
                m
            },
            ConfigError::ParseError(e) => {
                let mut m = String::from_str("Configuration parsing error: ");
                m.append(e.as_str());
                m
            },
        }
    }
}

} // verus!
