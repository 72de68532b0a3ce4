//! The settings the client needs before any network activity.

use vstd::prelude::*;

verus! {

#[derive(Debug, Clone, Copy, PartialEq, Eq, Structural)]
pub enum ConfigKey {
    Api,
    Region,
    ClientId,
}

#[derive(Debug, Clone, Copy, PartialEq, Eq, Structural)]
pub enum ConfigError {
    Missing(ConfigKey),
}

impl ConfigKey {
    /// The name of the environment variable that holds the setting.
    pub fn variable(&self) -> (r: String)
        ensures
            *self == ConfigKey::Api ==> r@ == "CLI_API"@,
            *self == ConfigKey::Region ==> r@ == "AWS_REGION"@,
            *self == ConfigKey::ClientId ==> r@ == "COGNITO_CLIENT_ID"@,
    {
        match self {
            ConfigKey::Api => "CLI_API".to_owned(),
            ConfigKey::Region => "AWS_REGION".to_owned(),
            ConfigKey::ClientId => "COGNITO_CLIENT_ID".to_owned(),
        }
    }
}

/// The portal's base URL and the identity provider's region and client.
#[derive(Debug, PartialEq, Eq)]
pub struct Config {
    pub api: String,
    pub region: String,
    pub client_id: String,
}

impl Config {
    /// A configuration from the values found, or the first one missing.
    pub fn from_values(api: Option<String>, region: Option<String>, client_id: Option<String>) -> (r:
        Result<Config, ConfigError>)
        ensures
            api is None ==> r == Err::<Config, ConfigError>(ConfigError::Missing(ConfigKey::Api)),
            api is Some && region is None ==> r == Err::<Config, ConfigError>(
                ConfigError::Missing(ConfigKey::Region),
            ),
            api is Some && region is Some && client_id is None ==> r == Err::<Config, ConfigError>(
                ConfigError::Missing(ConfigKey::ClientId),
            ),
            api is Some && region is Some && client_id is Some ==> r == Ok::<Config, ConfigError>(
                Config { api: api->0, region: region->0, client_id: client_id->0 },
            ),
    {
        match (api, region, client_id) {
            (None, _, _) => Err(ConfigError::Missing(ConfigKey::Api)),
            (Some(_), None, _) => Err(ConfigError::Missing(ConfigKey::Region)),
            (Some(_), Some(_), None) => Err(ConfigError::Missing(ConfigKey::ClientId)),
            (Some(api), Some(region), Some(client_id)) => Ok(Config { api, region, client_id }),
        }
    }
}

} // verus!
