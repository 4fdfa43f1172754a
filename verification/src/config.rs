//! Credentials for the advice service.

use vstd::prelude::*;
use vstd::string::*;

verus! {

/// Name of the environment variable that holds the advice service's key.
pub const API_KEY_VAR: &'static str = "DEEPSEEK_API_KEY";

/// What is needed to ask the advice service for a text.
#[derive(Debug, PartialEq, Eq)]
pub struct Config {
    pub api_key: String,
}

/// Why no `Config` could be made.
#[derive(Debug, Clone, Copy, PartialEq, Eq, Structural)]
pub enum ConfigError {
    /// The environment holds no key for the advice service.
    MissingApiKey,
}

impl ConfigError {
    /// The sentence shown to the user.
    pub fn message(&self) -> (text: String)
        ensures
            text@ == "Please set DEEPSEEK_API_KEY in .env file"@,
    {
        String::from_str("Please set DEEPSEEK_API_KEY in .env file")
    }
}

impl Config {
    /// Builds the configuration from what the environment holds under
    /// `API_KEY_VAR`: the value as it is when there is one, an error when
    /// there is none. An empty value is a value.
    pub fn from_env(value: Option<String>) -> (result: Result<Config, ConfigError>)
        ensures
            value is Some ==> result == Ok::<Config, ConfigError>(
                (Config { api_key: value->Some_0 }),
            ),
            value is None ==> result == Err::<Config, ConfigError>(ConfigError::MissingApiKey),
    {
        match value {
            Some(api_key) => Ok(Config { api_key }),
            None => Err(ConfigError::MissingApiKey),
        }
    }
}

} // verus!
