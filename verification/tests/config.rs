use discord_link::config::Config;
use discord_link::config::ConfigError;
use discord_link::config::Environment;
use discord_link::config::Setting;

fn full() -> Environment {
    Environment {
        discord_client_id: Some("123".to_string()),
        discord_client_secret: Some("client-secret-value".to_string()),
        discord_redirect_uri: Some("http://localhost:8080/discord/callback".to_string()),
        main_api_url: Some("http://api.internal".to_string()),
        log_level: Some("debug".to_string()),
    }
}

#[test]
fn from_env_takes_every_value() {
    let config = Config::from_env(full()).unwrap();
    assert_eq!(config.discord_client_id, "123");
    assert_eq!(config.discord_client_secret, "client-secret-value");
    assert_eq!(config.discord_redirect_uri, "http://localhost:8080/discord/callback");
    assert_eq!(config.main_api_url, "http://api.internal");
    assert_eq!(config.log_level, "debug");
}

#[test]
fn from_env_defaults_the_log_level_to_info() {
    let mut env = full();
    env.log_level = None;
    let config = Config::from_env(env).unwrap();
    assert_eq!(config.log_level, "info");
    assert_eq!(config.discord_client_id, "123");
}

#[test]
fn from_env_keeps_empty_values() {
    let mut env = full();
    env.discord_client_id = Some(String::new());
    let config = Config::from_env(env).unwrap();
    assert_eq!(config.discord_client_id, "");
}

#[test]
fn from_env_reports_the_missing_client_id() {
    let mut env = full();
    env.discord_client_id = None;
    assert_eq!(Config::from_env(env), Err(ConfigError::Missing(Setting::DiscordClientId)));
}

#[test]
fn from_env_reports_the_missing_client_secret() {
    let mut env = full();
    env.discord_client_secret = None;
    assert_eq!(Config::from_env(env), Err(ConfigError::Missing(Setting::DiscordClientSecret)));
}

#[test]
fn from_env_reports_the_missing_redirect_uri() {
    let mut env = full();
    env.discord_redirect_uri = None;
    assert_eq!(Config::from_env(env), Err(ConfigError::Missing(Setting::DiscordRedirectUri)));
}

#[test]
fn from_env_reports_the_missing_main_api_url() {
    let mut env = full();
    env.main_api_url = None;
    assert_eq!(Config::from_env(env), Err(ConfigError::Missing(Setting::MainApiUrl)));
}

#[test]
fn from_env_reports_the_first_of_several_missing() {
    let env = Environment {
        discord_client_id: Some("123".to_string()),
        discord_client_secret: None,
        discord_redirect_uri: None,
        main_api_url: None,
        log_level: None,
    };
    assert_eq!(Config::from_env(env), Err(ConfigError::Missing(Setting::DiscordClientSecret)));
    let nothing = Environment {
        discord_client_id: None,
        discord_client_secret: None,
        discord_redirect_uri: None,
        main_api_url: None,
        log_level: None,
    };
    assert_eq!(Config::from_env(nothing), Err(ConfigError::Missing(Setting::DiscordClientId)));
}

#[test]
fn settings_name_their_variables() {
    assert_eq!(Setting::DiscordClientId.key(), "DISCORD_CLIENT_ID");
    assert_eq!(Setting::DiscordClientSecret.key(), "DISCORD_CLIENT_SECRET");
    assert_eq!(Setting::DiscordRedirectUri.key(), "DISCORD_REDIRECT_URI");
    assert_eq!(Setting::MainApiUrl.key(), "MAIN_API_URL");
    assert_eq!(Setting::LogLevel.key(), "RUST_LOG");
}
