//! The settings that the service is started with, and what is reported when
//! the environment does not give them.

use vstd::prelude::*;
use vstd::string::*;

verus! {

/// The settings read from the environment. The store does not look into
/// them: they are handed on to whatever opens the storage backend.
#[derive(Debug, Clone, PartialEq, Eq)]
pub struct Config {
    pub api_key: String,
    pub database_url: String,
}

/// Why the settings could not be read from the environment.
#[derive(Debug, Clone, PartialEq, Eq)]
pub enum EnvError {
    /// The variable for this field is not set.
    MissingValue(String),
    /// Any other fault, in the reader's own words.
    Custom(String),
}

/// Why no [`Config`] could be made.
#[derive(Debug, Clone, PartialEq, Eq)]
pub enum ConfigError {
    /// The variable for this field is missing.
    MissingVar(String),
    /// The environment could not be read for another reason.
    Envy(EnvError),
}

/// What is reported of `e`.
pub open spec fn env_error_message(e: EnvError) -> Seq<char> {
    match e {
        EnvError::MissingValue(field) => "missing value for field "@ + field@,
        EnvError::Custom(message) => message@,
    }
}

/// What is reported of `e`: a missing variable by its field, any other fault
/// in the words of the fault itself.
pub open spec fn config_error_message(e: ConfigError) -> Seq<char> {
    match e {
        ConfigError::MissingVar(field) => "Missing or invalid environment variable: "@ + field@,
        ConfigError::Envy(inner) => env_error_message(inner),
    }
}

/// The settings, or the reason why there are none, for each outcome of
/// reading the environment.
pub open spec fn spec_from_env(loaded: Result<Config, EnvError>) -> Result<Config, ConfigError> {
    match loaded {
        Ok(config) => Ok(config),
        Err(EnvError::MissingValue(field)) => Err(ConfigError::MissingVar(field)),
        Err(EnvError::Custom(message)) => Err(ConfigError::Envy(EnvError::Custom(message))),
    }
}

impl EnvError {
    /// What is reported of this fault.
    pub fn message(&self) -> (text: String)
        ensures
            text@ == env_error_message(*self),
    {
        match self {
            EnvError::MissingValue(field) => String::from_str("missing value for field ").concat(
                field.as_str(),
            ),
            EnvError::Custom(message) => message.clone(),
        }
    }
}

impl ConfigError {
    /// What is reported of this error.
    pub fn message(&self) -> (text: String)
        ensures
            text@ == config_error_message(*self),
    {
        match self {
            ConfigError::MissingVar(field) => String::from_str(
                "Missing or invalid environment variable: ",
            ).concat(field.as_str()),
            ConfigError::Envy(inner) => inner.message(),
        }
    }
}

impl Config {
    /// Takes what reading the environment gave. Settings that were read are
    /// passed on unchanged; a variable that is not set is reported by its
    /// field; any other fault is passed on as it is.
    pub fn from_env(loaded: Result<Config, EnvError>) -> (res: Result<Config, ConfigError>)
        ensures
            res == spec_from_env(loaded),
    {
        match loaded {
            Ok(config) => Ok(config),
            Err(EnvError::MissingValue(field)) => Err(ConfigError::MissingVar(field)),
            Err(other) => Err(ConfigError::Envy(other)),
        }
    }
}

} // verus!
