//! Server settings.
use vstd::prelude::*;

use crate::text::{parse_u16, parse_unsigned};

verus! {

/// The server's settings.
#[derive(Debug, Clone, PartialEq, Eq)]
pub struct Config {
    pub port: u16,
    pub redis_url: String,
    // UK
    pub dvla_api_key: Option<String>,
    pub dvsa_client_id: Option<String>,
    pub dvsa_client_secret: Option<String>,
    // NL
    pub rdw_app_token: Option<String>,
}

/// A setting that cannot be used.
#[derive(Debug, Clone, Copy, PartialEq, Eq, Structural)]
pub enum ConfigError {
    /// `PORT` is not a port number.
    InvalidPort,
}

impl ConfigError {
    /// The text of the error.
    pub fn message(&self) -> (r: &'static str)
        ensures
            r@ == "Invalid PORT"@,
    {
        "Invalid PORT"
    }
}

/// The port text used when `PORT` is not set.
pub open spec fn port_text(port: Option<String>) -> Seq<char> {
    match port {
        Some(p) => p@,
        None => "8080"@,
    }
}

impl Config {
    /// The settings given by the values of `PORT`, `REDIS_URL`, `DVLA_API_KEY`,
    /// `DVSA_CLIENT_ID`, `DVSA_CLIENT_SECRET` and `RDW_APP_TOKEN` (`None` for
    /// one that is not set): the port defaults to 8080 and must be a `u16`; the
    /// Redis URL defaults to `redis://127.0.0.1:6379`.
    pub fn from_settings(
        port: Option<String>,
        redis_url: Option<String>,
        dvla_api_key: Option<String>,
        dvsa_client_id: Option<String>,
        dvsa_client_secret: Option<String>,
        rdw_app_token: Option<String>,
    ) -> (r: Result<Config, ConfigError>)
        ensures
            parse_unsigned(port_text(port), u16::MAX as nat) is None ==> r == Err::<
                Config,
                ConfigError,
            >(ConfigError::InvalidPort),
            parse_unsigned(port_text(port), u16::MAX as nat) matches Some(p) ==> (r matches Ok(c)
                && {
                &&& c.port == p
                &&& c.redis_url@ == match redis_url {
                    Some(u) => u@,
                    None => "redis://127.0.0.1:6379"@,
                }
                &&& c.dvla_api_key == dvla_api_key
                &&& c.dvsa_client_id == dvsa_client_id
                &&& c.dvsa_client_secret == dvsa_client_secret
                &&& c.rdw_app_token == rdw_app_token
            }),
    {
        let port_value = match &port {
            Some(p) => parse_u16(p.as_str()),
            None => parse_u16("8080"),
        };
        let port = match port_value {
            Some(p) => p,
            None => {
                return Err(ConfigError::InvalidPort);
            },
        };
        let redis_url = match redis_url {
            Some(u) => u,
            None => String::from_str("redis://127.0.0.1:6379"),
        };
        Ok(
            Config {
                port,
                redis_url,
                dvla_api_key,
                dvsa_client_id,
                dvsa_client_secret,
                rdw_app_token,
            },
        )
    }
}

} // verus!
