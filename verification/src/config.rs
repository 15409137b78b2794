//! The settings of the service, resolved once from the process environment.

use vstd::prelude::*;
use vstd::string::*;

verus! {

/// One setting that the service reads from its environment.
#[derive(Clone, Copy, Debug, PartialEq, Eq, Structural)]
pub enum Setting {
    DiscordClientId,
    DiscordClientSecret,
    DiscordRedirectUri,
    MainApiUrl,
    LogLevel,
}

impl Setting {
    /// The name of the environment variable that holds the setting.
    pub open spec fn key_spec(self) -> Seq<char> {
        match self {
            Setting::DiscordClientId => "DISCORD_CLIENT_ID"@,
            Setting::DiscordClientSecret => "DISCORD_CLIENT_SECRET"@,
            Setting::DiscordRedirectUri => "DISCORD_REDIRECT_URI"@,
            Setting::MainApiUrl => "MAIN_API_URL"@,
            Setting::LogLevel => "RUST_LOG"@,
        }
    }

    /// The name of the environment variable that holds the setting.
    pub fn key(self) -> (name: &'static str)
        ensures
            name@ == self.key_spec(),
    {
        match self {
            Setting::DiscordClientId => "DISCORD_CLIENT_ID",
            Setting::DiscordClientSecret => "DISCORD_CLIENT_SECRET",
            Setting::DiscordRedirectUri => "DISCORD_REDIRECT_URI",
            Setting::MainApiUrl => "MAIN_API_URL",
            Setting::LogLevel => "RUST_LOG",
        }
    }
}

/// The values found in the environment, one per setting; `None` where the
/// variable is not set.
#[derive(Clone, Debug, PartialEq, Eq)]
pub struct Environment {
    pub discord_client_id: Option<String>,
    pub discord_client_secret: Option<String>,
    pub discord_redirect_uri: Option<String>,
    pub main_api_url: Option<String>,
    pub log_level: Option<String>,
}

impl Environment {
    /// The first required setting, in the order of declaration, that has no
    /// value.
    pub open spec fn first_missing(self) -> Option<Setting> {
        if self.discord_client_id is None {
            Some(Setting::DiscordClientId)
        } else if self.discord_client_secret is None {
            Some(Setting::DiscordClientSecret)
        } else if self.discord_redirect_uri is None {
            Some(Setting::DiscordRedirectUri)
        } else if self.main_api_url is None {
            Some(Setting::MainApiUrl)
        } else {
            None
        }
    }

    /// The configuration that the values amount to, where none is missing.
    pub open spec fn resolved(self) -> ConfigView
        recommends
            self.first_missing() is None,
    {
        ConfigView {
            discord_client_id: self.discord_client_id->0@,
            discord_client_secret: self.discord_client_secret->0@,
            discord_redirect_uri: self.discord_redirect_uri->0@,
            main_api_url: self.main_api_url->0@,
            log_level: match self.log_level {
                Some(level) => level@,
                None => "info"@,
            },
        }
    }
}

/// Why no configuration could be made.
#[derive(Clone, Copy, Debug, PartialEq, Eq, Structural)]
pub enum ConfigError {
    /// A required setting has no value.
    Missing(Setting),
}

/// App configuration
#[derive(Clone, Debug, PartialEq, Eq)]
pub struct Config {
    pub discord_client_id: String,
    pub discord_client_secret: String,
    pub discord_redirect_uri: String,
    pub main_api_url: String,
    pub log_level: String,
}

pub struct ConfigView {
    pub discord_client_id: Seq<char>,
    pub discord_client_secret: Seq<char>,
    pub discord_redirect_uri: Seq<char>,
    pub main_api_url: Seq<char>,
    pub log_level: Seq<char>,
}

impl View for Config {
    type V = ConfigView;

    open spec fn view(&self) -> ConfigView {
        ConfigView {
            discord_client_id: self.discord_client_id@,
            discord_client_secret: self.discord_client_secret@,
            discord_redirect_uri: self.discord_redirect_uri@,
            main_api_url: self.main_api_url@,
            log_level: self.log_level@,
        }
    }
}

impl Config {
    /// Builds the configuration from the values found in the environment.
    ///
    /// Fails on the first required setting without a value; the log level
    /// falls back to `info`.
    pub fn from_env(env: Environment) -> (r: Result<Config, ConfigError>)
        ensures
            match r {
                Ok(config) => env.first_missing() is None && config@ == env.resolved(),
                Err(ConfigError::Missing(setting)) => env.first_missing() == Some(setting),
            },
    {
        let discord_client_id = match env.discord_client_id {
            Some(value) => value,
            None => return Err(ConfigError::Missing(Setting::DiscordClientId)),
        };
        let discord_client_secret = match env.discord_client_secret {
            Some(value) => value,
            None => return Err(ConfigError::Missing(Setting::DiscordClientSecret)),
        };
        let discord_redirect_uri = match env.discord_redirect_uri {
            Some(value) => value,
            None => return Err(ConfigError::Missing(Setting::DiscordRedirectUri)),
        };
        let main_api_url = match env.main_api_url {
            Some(value) => value,
            None => return Err(ConfigError::Missing(Setting::MainApiUrl)),
        };
        let log_level = match env.log_level {
            Some(value) => value,
            None => String::from_str("info"),
        };
        Ok(Config {
            discord_client_id,
            discord_client_secret,
            discord_redirect_uri,
            main_api_url,
            log_level,
        })
    }
}

} // verus!
