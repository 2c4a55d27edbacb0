use todo_service::config::app::AppConfiguration;
use todo_service::config::database::DatabaseConfiguration;
use todo_service::config::error::ConfigError;
use todo_service::config::read::{read_optional, read_required, EnvSnapshot, RawValue};
use todo_service::config::root::Configuration;
use todo_service::config::variables::{Application, Database, EnvVariable};

fn env(
    service_name: RawValue,
    service_port: RawValue,
    database_url: RawValue,
    database_max_connections: RawValue,
) -> EnvSnapshot {
    EnvSnapshot { service_name, service_port, database_url, database_max_connections }
}

fn text(s: &str) -> RawValue {
    RawValue::Text(s.to_string())
}

#[test]
fn service_name_maps_to_env_var() {
    assert_eq!(Application::ServiceName.as_str(), "APP_SERVICE_NAME");
}

#[test]
fn service_port_maps_to_env_var() {
    assert_eq!(Application::ServicePort.as_str(), "APP_SERVICE_PORT");
}

#[test]
fn enum_is_copy() {
    let a = Application::ServiceName;
    let b = a;
    assert_eq!(a.as_str(), b.as_str());
}

#[test]
fn database_url_maps_to_env_var() {
    assert_eq!(Database::Url.as_str(), "APP_DATABASE_URL");
}

#[test]
fn database_max_connections_maps_to_env_var() {
    assert_eq!(Database::MaxConnections.as_str(), "APP_DATABASE_MAX_CONNECTIONS");
}

#[test]
fn database_enum_is_copy() {
    let a = Database::Url;
    let b = a;
    assert_eq!(a.as_str(), b.as_str());
}

#[test]
fn display_missing_error() {
    let err = ConfigError::Missing("APP_SERVICE_PORT");
    assert_eq!(err.display_string(), "Missing configuration key: APP_SERVICE_PORT");
}

#[test]
fn display_invalid_error() {
    let err = ConfigError::Invalid {
        key: "APP_SERVICE_PORT",
        value: "abc".to_string(),
    };
    assert_eq!(
        err.display_string(),
        "Invalid configuration key: APP_SERVICE_PORT, value: abc"
    );
}

#[test]
fn debug_missing_error() {
    let err = ConfigError::Missing("KEY");
    let debug = format!("{:?}", err);
    assert!(debug.contains("Missing"));
    assert!(debug.contains("KEY"));
}

#[test]
fn debug_invalid_error() {
    let err = ConfigError::Invalid {
        key: "KEY",
        value: "bad".to_string(),
    };
    let debug = format!("{:?}", err);
    assert!(debug.contains("Invalid"));
    assert!(debug.contains("KEY"));
    assert!(debug.contains("bad"));
}

#[test]
fn read_required_parses_valid_u16() {
    let result: Result<u16, _> = read_required(Application::ServicePort, &text("8080"));
    assert_eq!(result.unwrap(), 8080);
}

#[test]
fn read_required_parses_valid_string() {
    let result: Result<String, _> = read_required(Application::ServiceName, &text("my-app"));
    assert_eq!(result.unwrap(), "my-app");
}

#[test]
fn read_required_returns_missing_when_unset() {
    let result: Result<u16, _> = read_required(Application::ServicePort, &RawValue::Absent);
    assert!(matches!(result, Err(ConfigError::Missing("APP_SERVICE_PORT"))));
}

#[test]
fn read_required_returns_invalid_for_unparseable_value() {
    let result: Result<u16, _> = read_required(Application::ServicePort, &text("not_a_number"));
    match result {
        Err(ConfigError::Invalid { key, value }) => {
            assert_eq!(key, "APP_SERVICE_PORT");
            assert_eq!(value, "not_a_number");
        }
        other => panic!("expected Invalid error, got {:?}", other),
    }
}

#[test]
fn read_optional_returns_value_when_set() {
    let result: Result<String, _> =
        read_optional(Application::ServiceName, &text("custom"), "default".to_string());
    assert_eq!(result.unwrap(), "custom");
}

#[test]
fn read_optional_returns_fallback_when_unset() {
    let result: Result<String, _> =
        read_optional(Application::ServiceName, &RawValue::Absent, "fallback".to_string());
    assert_eq!(result.unwrap(), "fallback");
}

#[test]
fn read_optional_returns_invalid_for_unparseable_value() {
    let result: Result<u16, _> = read_optional(Application::ServicePort, &text("bad"), 3000);
    match result {
        Err(ConfigError::Invalid { key, value }) => {
            assert_eq!(key, "APP_SERVICE_PORT");
            assert_eq!(value, "bad");
        }
        other => panic!("expected Invalid error, got {:?}", other),
    }
}

#[test]
fn read_required_port_zero() {
    let result: Result<u16, _> = read_required(Application::ServicePort, &text("0"));
    assert_eq!(result.unwrap(), 0);
}

#[test]
fn read_required_port_max() {
    let result: Result<u16, _> = read_required(Application::ServicePort, &text("65535"));
    assert_eq!(result.unwrap(), 65535);
}

#[test]
fn read_required_port_overflow() {
    let result: Result<u16, _> = read_required(Application::ServicePort, &text("65536"));
    assert!(matches!(result, Err(ConfigError::Invalid { .. })));
}

#[test]
fn read_required_accepts_leading_plus_sign() {
    let result: Result<u16, _> = read_required(Application::ServicePort, &text("+8080"));
    assert_eq!(result.unwrap(), 8080);
}

#[test]
fn read_required_rejects_plus_sign_alone() {
    let result: Result<u16, _> = read_required(Application::ServicePort, &text("+"));
    assert!(matches!(result, Err(ConfigError::Invalid { .. })));
}

#[test]
fn read_required_rejects_not_unicode_value() {
    let result: Result<String, _> =
        read_required(Application::ServiceName, &RawValue::NotText("g\u{FFFD}rbled".to_string()));
    match result {
        Err(ConfigError::Invalid { key, value }) => {
            assert_eq!(key, "APP_SERVICE_NAME");
            assert_eq!(value, "g\u{FFFD}rbled");
        }
        other => panic!("expected Invalid error, got {:?}", other),
    }
}

#[test]
fn app_configuration_from_env_with_all_vars_set() {
    let e = env(text("my-service"), text("3000"), RawValue::Absent, RawValue::Absent);
    let config = AppConfiguration::from_env(&e).unwrap();
    assert_eq!(config.service_name(), "my-service");
    assert_eq!(config.service_port(), 3000);
}

#[test]
fn from_env_uses_default_service_name() {
    let e = env(RawValue::Absent, text("5000"), RawValue::Absent, RawValue::Absent);
    let config = AppConfiguration::from_env(&e).unwrap();
    assert_eq!(config.service_name(), "todo");
    assert_eq!(config.service_port(), 5000);
}

#[test]
fn from_env_fails_when_port_missing() {
    let e = env(RawValue::Absent, RawValue::Absent, RawValue::Absent, RawValue::Absent);
    let result = AppConfiguration::from_env(&e);
    assert!(result.is_err());
}

#[test]
fn from_env_fails_when_port_invalid() {
    let e = env(RawValue::Absent, text("xyz"), RawValue::Absent, RawValue::Absent);
    let result = AppConfiguration::from_env(&e);
    assert!(result.is_err());
}

#[test]
fn app_configuration_clone_preserves_values() {
    let e = env(text("clone-test"), text("9090"), RawValue::Absent, RawValue::Absent);
    let config = AppConfiguration::from_env(&e).unwrap();
    let cloned = config.clone();
    assert_eq!(cloned.service_name(), "clone-test");
    assert_eq!(cloned.service_port(), 9090);
}

#[test]
fn database_configuration_from_env_with_all_vars_set() {
    let e = env(RawValue::Absent, RawValue::Absent, text("sqlite:todo.db"), text("10"));
    let config = DatabaseConfiguration::from_env(&e).unwrap();
    assert_eq!(config.url(), "sqlite:todo.db");
    assert_eq!(config.max_connections(), 10);
}

#[test]
fn from_env_uses_default_max_connections() {
    let e = env(RawValue::Absent, RawValue::Absent, text("sqlite:todo.db"), RawValue::Absent);
    let config = DatabaseConfiguration::from_env(&e).unwrap();
    assert_eq!(config.url(), "sqlite:todo.db");
    assert_eq!(config.max_connections(), 5);
}

#[test]
fn from_env_fails_when_url_missing() {
    let e = env(RawValue::Absent, RawValue::Absent, RawValue::Absent, RawValue::Absent);
    let result = DatabaseConfiguration::from_env(&e);
    assert!(result.is_err());
}

#[test]
fn from_env_fails_when_max_connections_invalid() {
    let e = env(RawValue::Absent, RawValue::Absent, text("sqlite:todo.db"), text("xyz"));
    let result = DatabaseConfiguration::from_env(&e);
    assert!(result.is_err());
}

#[test]
fn database_configuration_clone_preserves_values() {
    let e = env(RawValue::Absent, RawValue::Absent, text("sqlite:clone.db"), text("3"));
    let config = DatabaseConfiguration::from_env(&e).unwrap();
    let cloned = config.clone();
    assert_eq!(cloned.url(), "sqlite:clone.db");
    assert_eq!(cloned.max_connections(), 3);
}

#[test]
fn from_env_builds_full_config() {
    let e = env(text("integration"), text("4000"), text("sqlite:test.db"), RawValue::Absent);
    let config = Configuration::from_env(&e).unwrap();
    assert_eq!(config.app.service_name(), "integration");
    assert_eq!(config.app.service_port(), 4000);
    assert_eq!(config.database.url(), "sqlite:test.db");
    assert_eq!(config.database.max_connections(), 5);
}

#[test]
fn from_env_propagates_error() {
    let e = env(RawValue::Absent, RawValue::Absent, RawValue::Absent, RawValue::Absent);
    let result = Configuration::from_env(&e);
    assert!(result.is_err());
}

#[test]
fn missing_port_error_names_the_key() {
    let e = env(text("todo"), RawValue::Absent, text("sqlite:todo.db"), RawValue::Absent);
    let err = Configuration::from_env(&e).unwrap_err();
    assert!(matches!(err, ConfigError::Missing("APP_SERVICE_PORT")));
    assert!(err.display_string().contains("APP_SERVICE_PORT"));
}
