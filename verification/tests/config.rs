use rusty::config::{db_config, token, ConfigError};
use rusty::structs::DbConfig;

fn some(s: &str) -> Option<String> {
    Some(String::from(s))
}

#[test]
fn complete_settings_are_read() {
    assert_eq!(
        db_config(some("localhost"), some("5432"), some("bot"), some("hunter2")),
        Ok(DbConfig {
            host: String::from("localhost"),
            port: 5432,
            username: String::from("bot"),
            password: String::from("hunter2"),
        })
    );
}

#[test]
fn a_missing_host_is_reported() {
    assert_eq!(
        db_config(None, some("5432"), some("bot"), some("hunter2")),
        Err(ConfigError::MissingHost)
    );
}

#[test]
fn a_missing_port_is_reported() {
    assert_eq!(
        db_config(some("localhost"), None, some("bot"), some("hunter2")),
        Err(ConfigError::MissingPort)
    );
}

#[test]
fn a_malformed_port_is_reported() {
    for port in ["", "http", "65536", "-1", "54 32", "5432 "].iter() {
        assert_eq!(
            db_config(some("localhost"), some(port), some("bot"), some("hunter2")),
            Err(ConfigError::InvalidPort)
        );
    }
}

#[test]
fn a_missing_user_is_reported() {
    assert_eq!(
        db_config(some("localhost"), some("5432"), None, some("hunter2")),
        Err(ConfigError::MissingUser)
    );
}

#[test]
fn a_missing_password_is_reported() {
    assert_eq!(
        db_config(some("localhost"), some("5432"), some("bot"), None),
        Err(ConfigError::MissingPass)
    );
}

#[test]
fn the_first_fault_is_reported() {
    assert_eq!(db_config(None, None, None, None), Err(ConfigError::MissingHost));
    assert_eq!(db_config(some("h"), None, None, None), Err(ConfigError::MissingPort));
    assert_eq!(db_config(some("h"), some("x"), None, None), Err(ConfigError::InvalidPort));
    assert_eq!(db_config(some("h"), some("1"), None, None), Err(ConfigError::MissingUser));
}

#[test]
fn the_token_is_required() {
    assert_eq!(token(some("abc.def")), Ok(String::from("abc.def")));
    assert_eq!(token(None), Err(ConfigError::MissingToken));
}

#[test]
fn each_fault_has_its_words() {
    assert_eq!(ConfigError::MissingHost.message(), "missing DATABASE_HOST env");
    assert_eq!(ConfigError::MissingPort.message(), "missing DATABASE_PORT env");
    assert_eq!(ConfigError::InvalidPort.message(), "DATABASE_PORT env is not of type u16");
    assert_eq!(ConfigError::MissingUser.message(), "missing DATABASE_USER env");
    assert_eq!(ConfigError::MissingPass.message(), "missing DATABASE_PASS env");
    assert_eq!(ConfigError::MissingToken.message(), "missing TOKEN");
}
