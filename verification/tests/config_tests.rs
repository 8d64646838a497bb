use api_skeleton::Config;
use api_skeleton::ConfigError;
use api_skeleton::EnvValues;
use api_skeleton::Environment;

fn empty_env() -> EnvValues {
    EnvValues {
        host: None,
        port: None,
        environment: None,
        database_url: None,
        db_max_connections: None,
        db_min_connections: None,
        db_connect_timeout: None,
        log_level: None,
        log_dir: None,
        log_file: None,
        jwt_secret: None,
        jwt_expiration: None,
    }
}

fn full_env() -> EnvValues {
    let mut env = empty_env();
    env.database_url = Some("postgres://localhost/app".to_string());
    env.jwt_secret = Some("SECRET-REDACTED".to_string());
    env
}

#[test]
fn missing_database_url_fails_distinctly() {
    let mut env = empty_env();
    env.jwt_secret = Some("SECRET-REDACTED".to_string());
    let r = Config::from_env(&env);
    assert!(matches!(r, Err(ConfigError::MissingDatabaseUrl)));
}

#[test]
fn missing_jwt_secret_fails_distinctly() {
    let mut env = empty_env();
    env.database_url = Some("postgres://localhost/app".to_string());
    let r = Config::from_env(&env);
    assert!(matches!(r, Err(ConfigError::MissingJwtSecret)));
}

#[test]
fn missing_both_reports_database_url_first() {
    let r = Config::from_env(&empty_env());
    assert!(matches!(r, Err(ConfigError::MissingDatabaseUrl)));
}

#[test]
fn invalid_port_fails_before_required_variables() {
    let mut env = empty_env();
    env.port = Some("eighty".to_string());
    let r = Config::from_env(&env);
    assert!(matches!(r, Err(ConfigError::InvalidPort)));
}

#[test]
fn port_out_of_range_is_invalid() {
    let mut env = full_env();
    env.port = Some("65536".to_string());
    assert!(matches!(Config::from_env(&env), Err(ConfigError::InvalidPort)));
    env.port = Some("65535".to_string());
    assert_eq!(Config::from_env(&env).unwrap().server.port, 65535);
}

#[test]
fn defaults_apply_when_variables_are_unset() {
    let c = Config::from_env(&full_env()).unwrap();
    assert_eq!(c.server.host, "127.0.0.1");
    assert_eq!(c.server.port, 3000);
    assert_eq!(c.server.environment, Environment::Development);
    assert_eq!(c.database.max_connections, 10);
    assert_eq!(c.database.min_connections, 2);
    assert_eq!(c.database.connect_timeout, 30);
    assert_eq!(c.logging.level, "info");
    assert_eq!(c.logging.directory, "logs");
    assert_eq!(c.logging.file_name, "server.log");
    assert_eq!(c.jwt.expiration, 86400);
    assert_eq!(c.database.url, "postgres://localhost/app");
}

#[test]
fn malformed_pool_sizes_fall_back_silently_while_port_hard_fails() {
    let mut env = full_env();
    env.db_max_connections = Some("many".to_string());
    env.db_min_connections = Some("-3".to_string());
    env.db_connect_timeout = Some("1e9".to_string());
    env.jwt_expiration = Some("tomorrow".to_string());
    let c = Config::from_env(&env).unwrap();
    assert_eq!(c.database.max_connections, 10);
    assert_eq!(c.database.min_connections, 2);
    assert_eq!(c.database.connect_timeout, 30);
    assert_eq!(c.jwt.expiration, 86400);

    let mut env2 = full_env();
    env2.port = Some("many".to_string());
    assert!(matches!(Config::from_env(&env2), Err(ConfigError::InvalidPort)));
}

#[test]
fn explicit_values_are_taken() {
    let mut env = full_env();
    env.host = Some("0.0.0.0".to_string());
    env.port = Some("+8080".to_string());
    env.environment = Some("Production".to_string());
    env.db_max_connections = Some("50".to_string());
    env.jwt_expiration = Some("-1".to_string());
    let c = Config::from_env(&env).unwrap();
    assert_eq!(c.server.host, "0.0.0.0");
    assert_eq!(c.server.port, 8080);
    assert_eq!(c.server.environment, Environment::Production);
    assert_eq!(c.database.max_connections, 50);
    assert_eq!(c.jwt.expiration, -1);
}

#[test]
fn unknown_environment_falls_back_to_development() {
    let mut env = full_env();
    env.environment = Some("qa".to_string());
    let c = Config::from_env(&env).unwrap();
    assert_eq!(c.server.environment, Environment::Development);
}

#[test]
fn environment_labels_parse_case_insensitively() {
    assert_eq!(Environment::from_str("development"), Some(Environment::Development));
    assert_eq!(Environment::from_str("DEV"), Some(Environment::Development));
    assert_eq!(Environment::from_str("Production"), Some(Environment::Production));
    assert_eq!(Environment::from_str("prod"), Some(Environment::Production));
    assert_eq!(Environment::from_str("STAGING"), Some(Environment::Staging));
    assert_eq!(Environment::from_str("stage"), Some(Environment::Staging));
    assert_eq!(Environment::from_str("qa"), None);
    assert_eq!(Environment::from_str(""), None);
}

#[test]
fn server_address_joins_host_and_port() {
    let mut env = full_env();
    env.host = Some("10.0.0.7".to_string());
    env.port = Some("8081".to_string());
    let c = Config::from_env(&env).unwrap();
    assert_eq!(c.server_address(), "10.0.0.7:8081");
    let d = Config::from_env(&full_env()).unwrap();
    assert_eq!(d.server_address(), "127.0.0.1:3000");
}

#[test]
fn environment_predicates() {
    let mut env = full_env();
    env.environment = Some("prod".to_string());
    let c = Config::from_env(&env).unwrap();
    assert!(c.is_production());
    assert!(!c.is_development());
    let d = Config::from_env(&full_env()).unwrap();
    assert!(d.is_development());
    assert!(!d.is_production());
}

#[test]
fn pool_options_resolve_configured_and_fixed_bounds() {
    let mut env = full_env();
    env.db_max_connections = Some("50".to_string());
    env.db_min_connections = Some("5".to_string());
    env.db_connect_timeout = Some("12".to_string());
    let c = Config::from_env(&env).unwrap();
    let pool = api_skeleton::pool_options(&c.database);
    assert_eq!(pool.url, "postgres://localhost/app");
    assert_eq!(pool.max_connections, 50);
    assert_eq!(pool.min_connections, 5);
    assert_eq!(pool.connect_timeout_secs, 12);
    assert_eq!(pool.acquire_timeout_secs, 30);
    assert_eq!(pool.idle_timeout_secs, 8);
    assert_eq!(pool.max_lifetime_secs, 8);
}

#[test]
fn config_error_messages() {
    assert_eq!(ConfigError::InvalidPort.message(), "Invalid port number");
    assert_eq!(
        ConfigError::MissingDatabaseUrl.message(),
        "DATABASE_URL environment variable is required"
    );
    assert_eq!(
        ConfigError::MissingJwtSecret.message(),
        "JWT_SECRET environment variable is required"
    );
}
