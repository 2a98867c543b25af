use core_auth::config::{
    get_log_level, AuthenticationMethod, DatabaseConfiguration, Environment,
    EnviromentConfiguration, LoggingConfiguration,
};
use core_auth::errors::{AuthenticationClientError, AuthenticationServiceError};

fn env_with(vars: Vec<(&str, &str)>) -> EnviromentConfiguration {
    EnviromentConfiguration {
        env_mode: Environment::Development,
        vars: vars.iter().map(|(k, v)| (k.to_string(), v.to_string())).collect(),
    }
}

#[test]
fn get_var_returns_first_match() {
    let env = env_with(vec![("A", "1"), ("B", "2"), ("A", "3")]);
    assert_eq!(env.get_var("A"), Some("1".to_string()));
    assert_eq!(env.get_var("B"), Some("2".to_string()));
    assert_eq!(env.get_var("C"), None);
}

#[test]
fn database_config_from_full_env() {
    let env = env_with(vec![
        ("DB_HOST", "localhost"),
        ("DB_PORT", "8000"),
        ("DB_NAMESPACE", "core"),
        ("DB_DATABASE", "main"),
        ("DB_USERNAME", "root"),
        ("DB_PASSWORD", "SECRET-REDACTED"),
        ("DB_AUTH_METHOD", "Root"),
    ]);
    let cfg = DatabaseConfiguration::try_from_env(&env).unwrap();
    assert_eq!(cfg.host, "localhost");
    assert_eq!(cfg.port, 8000);
    assert_eq!(cfg.namespace, "core");
    assert_eq!(cfg.database, "main");
    assert_eq!(cfg.username, "root");
    assert!(matches!(cfg.authentication_method, AuthenticationMethod::Root));
    assert_eq!(cfg.get_connection_string(), "localhost:8000");
}

#[test]
fn database_config_rejects_missing_or_bad_entries() {
    let missing = env_with(vec![("DB_HOST", "localhost")]);
    assert!(DatabaseConfiguration::try_from_env(&missing).is_none());

    let bad_port = env_with(vec![
        ("DB_HOST", "h"),
        ("DB_PORT", "eighty"),
        ("DB_NAMESPACE", "n"),
        ("DB_DATABASE", "d"),
        ("DB_USERNAME", "u"),
        ("DB_PASSWORD", "p"),
        ("DB_AUTH_METHOD", "Root"),
    ]);
    assert!(DatabaseConfiguration::try_from_env(&bad_port).is_none());

    let port_out_of_range = env_with(vec![
        ("DB_HOST", "h"),
        ("DB_PORT", "70000"),
        ("DB_NAMESPACE", "n"),
        ("DB_DATABASE", "d"),
        ("DB_USERNAME", "u"),
        ("DB_PASSWORD", "p"),
        ("DB_AUTH_METHOD", "Root"),
    ]);
    assert!(DatabaseConfiguration::try_from_env(&port_out_of_range).is_none());

    let bad_method = env_with(vec![
        ("DB_HOST", "h"),
        ("DB_PORT", "80"),
        ("DB_NAMESPACE", "n"),
        ("DB_DATABASE", "d"),
        ("DB_USERNAME", "u"),
        ("DB_PASSWORD", "p"),
        ("DB_AUTH_METHOD", "Other"),
    ]);
    assert!(DatabaseConfiguration::try_from_env(&bad_method).is_none());
}

#[test]
fn log_level_defaults_to_info() {
    let empty = env_with(vec![]);
    assert_eq!(get_log_level(&empty), "INFO");
    let set = env_with(vec![("log_level", "DEBUG")]);
    assert_eq!(get_log_level(&set), "DEBUG");
}

#[test]
fn logging_configuration_default_is_all_on() {
    let cfg = LoggingConfiguration::default();
    assert!(cfg.with_colors);
    assert!(cfg.with_file);
    assert!(cfg.with_line_number);
    assert!(cfg.with_thread_ids);
    assert!(cfg.with_thread_names);
    assert!(cfg.with_target);
    assert!(cfg.with_level);
}

#[test]
fn client_error_classification() {
    type C = AuthenticationClientError;
    assert!(C::InvalidCredentials.is_authentication_error());
    assert!(C::InvalidAccessToken.is_authentication_error());
    assert!(C::ExpiredAccessToken.is_authentication_error());
    assert!(C::AuthenticationRequired.is_authentication_error());
    assert!(!C::SessionNotFound.is_authentication_error());

    assert!(C::InvalidRefreshToken.is_refresh_token_error());
    assert!(C::ExpiredRefreshToken.is_refresh_token_error());
    assert!(!C::InvalidCredentials.is_refresh_token_error());

    assert!(C::AccountLocked.is_account_error());
    assert!(C::AccountNotFound.is_account_error());
    assert!(!C::AccountAlreadyExists.is_account_error());

    assert!(C::SessionNotFound.is_session_error());
    assert!(!C::AccountNotFound.is_session_error());
}

#[test]
fn service_error_tiers() {
    let server = AuthenticationServiceError::from_error("backend unreachable".to_string());
    assert!(server.is_server_error());
    assert!(!server.is_client_error());
    assert_eq!(server.client_error(), None);

    let client = AuthenticationServiceError::client(AuthenticationClientError::SessionNotFound);
    assert!(client.is_client_error());
    assert!(!client.is_server_error());
    assert_eq!(client.client_error(), Some(AuthenticationClientError::SessionNotFound));
}
