//! What the bot needs to know before it starts.

use crate::structs::{DbConfig, DbConfigView};
use crate::text::{parse_decimal, parse_u16};
use vstd::prelude::*;
use vstd::string::*;

verus! {

/// Why the bot cannot start.
#[derive(Clone, Copy, Debug, PartialEq, Eq, Structural)]
pub enum ConfigError {
    MissingHost,
    MissingPort,
    InvalidPort,
    MissingUser,
    MissingPass,
    MissingToken,
}

impl ConfigError {
    /// The words with which the bot gives up.
    pub open spec fn spec_message(self) -> Seq<char> {
        match self {
            ConfigError::MissingHost => "missing DATABASE_HOST env"@,
            ConfigError::MissingPort => "missing DATABASE_PORT env"@,
            ConfigError::InvalidPort => "DATABASE_PORT env is not of type u16"@,
            ConfigError::MissingUser => "missing DATABASE_USER env"@,
            ConfigError::MissingPass => "missing DATABASE_PASS env"@,
            ConfigError::MissingToken => "missing TOKEN"@,
        }
    }

    /// The words with which the bot gives up.
    pub fn message(self) -> (r: &'static str)
        ensures
            r@ == self.spec_message(),
    {
        match self {
            ConfigError::MissingHost => "missing DATABASE_HOST env",
            ConfigError::MissingPort => "missing DATABASE_PORT env",
            ConfigError::InvalidPort => "DATABASE_PORT env is not of type u16",
            ConfigError::MissingUser => "missing DATABASE_USER env",
            ConfigError::MissingPass => "missing DATABASE_PASS env",
            ConfigError::MissingToken => "missing TOKEN",
        }
    }
}

/// The database settings that four values of the environment give, or the
/// first thing that is wrong with them: the host, the port, the user and the
/// password are looked at in this order.
pub open spec fn spec_db_config(
    host: Option<Seq<char>>,
    port: Option<Seq<char>>,
    username: Option<Seq<char>>,
    password: Option<Seq<char>>,
) -> Result<DbConfigView, ConfigError> {
    if host is None {
        Err(ConfigError::MissingHost)
    } else if port is None {
        Err(ConfigError::MissingPort)
    } else if parse_decimal(port->0, u16::MAX as nat) is None {
        Err(ConfigError::InvalidPort)
    } else if username is None {
        Err(ConfigError::MissingUser)
    } else if password is None {
        Err(ConfigError::MissingPass)
    } else {
        Ok(
            DbConfigView {
                host: host->0,
                port: parse_decimal(port->0, u16::MAX as nat)->0 as u16,
                username: username->0,
                password: password->0,
            },
        )
    }
}

/// What database settings say.
pub open spec fn spec_db_config_view(config: Result<DbConfig, ConfigError>) -> Result<
    DbConfigView,
    ConfigError,
> {
    match config {
        Ok(c) => Ok(c@),
        Err(e) => Err(e),
    }
}

/// Reads the database settings from the values of `DATABASE_HOST`,
/// `DATABASE_PORT`, `DATABASE_USER` and `DATABASE_PASS`, each `None` where the
/// environment does not hold it. The port is a decimal numeral that fits
/// sixteen bits.
pub fn db_config(
    host: Option<String>,
    port: Option<String>,
    username: Option<String>,
    password: Option<String>,
) -> (r: Result<DbConfig, ConfigError>)
    ensures
        spec_db_config_view(r) == spec_db_config(
            host.deep_view(),
            port.deep_view(),
            username.deep_view(),
            password.deep_view(),
        ),
{
    let host = match host {
        Some(h) => h,
        None => return Err(ConfigError::MissingHost),
    };
    let port = match port {
        Some(p) => p,
        None => return Err(ConfigError::MissingPort),
    };
    let port = match parse_u16(port.as_str()) {
        Some(p) => p,
        None => return Err(ConfigError::InvalidPort),
    };
    let username = match username {
        Some(u) => u,
        None => return Err(ConfigError::MissingUser),
    };
    let password = match password {
        Some(p) => p,
        None => return Err(ConfigError::MissingPass),
    };
    Ok(DbConfig { host, port, username, password })
}

/// Reads the bot's token from the value of `TOKEN`.
pub fn token(value: Option<String>) -> (r: Result<String, ConfigError>)
    ensures
        match value {
            Some(t) => r == Ok::<String, ConfigError>(t),
            None => r == Err::<String, ConfigError>(ConfigError::MissingToken),
        },
{
    match value {
        Some(t) => Ok(t),
        None => Err(ConfigError::MissingToken),
    }
}

} // verus!
