//! Configuration of the service.

use vstd::prelude::*;
use vstd::string::StringExecFns;
use crate::text::{concat3, decimal, u64_to_string};

verus! {

#[derive(Debug, Clone, PartialEq, Eq)]
pub struct AppConfig {
    pub database_url: String,
    pub jwt_secret: String,
    pub jwt_access_expiry_secs: i64,
    pub jwt_refresh_expiry_secs: i64,
    pub stripe_secret_key: String,
    pub stripe_webhook_secret: String,
    pub server_host: String,
    pub server_port: u16,
    pub base_url: String,
}

/// Lifetime of an access token unless configured: 15 minutes.
pub const DEFAULT_ACCESS_EXPIRY_SECS: i64 = 900;

/// Lifetime of a refresh token unless configured: 7 days.
pub const DEFAULT_REFRESH_EXPIRY_SECS: i64 = 604_800;

pub const DEFAULT_SERVER_PORT: u16 = 3000;

/// What the environment holds, with every number already read. `None` is a
/// setting that is absent.
#[derive(Debug, Clone, PartialEq, Eq)]
pub struct Settings {
    pub database_url: Option<String>,
    pub jwt_secret: Option<String>,
    pub jwt_access_expiry_secs: Option<i64>,
    pub jwt_refresh_expiry_secs: Option<i64>,
    pub stripe_secret_key: Option<String>,
    pub stripe_webhook_secret: Option<String>,
    pub server_host: Option<String>,
    pub server_port: Option<u16>,
    pub base_url: Option<String>,
}

impl Settings {
    /// The complaint about the first required setting that is absent, in the
    /// order database URL, token secret, payment key, webhook secret.
    pub open spec fn missing(self) -> Option<Seq<char>> {
        if self.database_url is None {
            Some("DATABASE_URL must be set"@)
        } else if self.jwt_secret is None {
            Some("JWT_SECRET must be set"@)
        } else if self.stripe_secret_key is None {
            Some("STRIPE_SECRET_KEY must be set"@)
        } else if self.stripe_webhook_secret is None {
            Some("STRIPE_WEBHOOK_SECRET must be set"@)
        } else {
            None
        }
    }
}

/// A text setting, or its default where it is absent.
pub open spec fn text_or(setting: Option<String>, default: Seq<char>) -> Seq<char> {
    match setting {
        Some(value) => value@,
        None => default,
    }
}

impl AppConfig {
    /// The configuration is the one that the settings give, with defaults
    /// for what they leave open.
    pub open spec fn reflects(self, settings: Settings) -> bool {
        &&& settings.database_url matches Some(v) && self.database_url@ == v@
        &&& settings.jwt_secret matches Some(v) && self.jwt_secret@ == v@
        &&& settings.stripe_secret_key matches Some(v) && self.stripe_secret_key@ == v@
        &&& settings.stripe_webhook_secret matches Some(v) && self.stripe_webhook_secret@ == v@
        &&& self.jwt_access_expiry_secs == match settings.jwt_access_expiry_secs {
            Some(secs) => secs,
            None => 900,
        }
        &&& self.jwt_refresh_expiry_secs == match settings.jwt_refresh_expiry_secs {
            Some(secs) => secs,
            None => 604_800,
        }
        &&& self.server_port == match settings.server_port {
            Some(port) => port,
            None => 3000,
        }
        &&& self.server_host@ == text_or(settings.server_host, "0.0.0.0"@)
        &&& self.base_url@ == text_or(settings.base_url, "http://localhost:3000"@)
    }

    /// Builds the configuration from the settings. Database URL, token
    /// secret, payment key and webhook secret are required; where one is
    /// absent, the complaint about the first such is returned.
    pub fn from_settings(settings: Settings) -> (r: Result<AppConfig, String>)
        ensures
            match r {
                Ok(config) => settings.missing() is None && config.reflects(settings),
                Err(complaint) => settings.missing() == Some(complaint@),
            },
    {
        let database_url = match settings.database_url {
            Some(v) => v,
            None => {
                return Err(String::from_str("DATABASE_URL must be set"));
            },
        };
        let jwt_secret = match settings.jwt_secret {
            Some(v) => v,
            None => {
                return Err(String::from_str("JWT_SECRET must be set"));
            },
        };
        let stripe_secret_key = match settings.stripe_secret_key {
            Some(v) => v,
            None => {
                return Err(String::from_str("STRIPE_SECRET_KEY must be set"));
            },
        };
        let stripe_webhook_secret = match settings.stripe_webhook_secret {
            Some(v) => v,
            None => {
                return Err(String::from_str("STRIPE_WEBHOOK_SECRET must be set"));
            },
        };
        let server_host = match settings.server_host {
            Some(v) => v,
            None => String::from_str("0.0.0.0"),
        };
        let base_url = match settings.base_url {
            Some(v) => v,
            None => String::from_str("http://localhost:3000"),
        };
        Ok(
            AppConfig {
                database_url,
                jwt_secret,
                jwt_access_expiry_secs: match settings.jwt_access_expiry_secs {
                    Some(secs) => secs,
                    None => DEFAULT_ACCESS_EXPIRY_SECS,
                },
                jwt_refresh_expiry_secs: match settings.jwt_refresh_expiry_secs {
                    Some(secs) => secs,
                    None => DEFAULT_REFRESH_EXPIRY_SECS,
                },
                stripe_secret_key,
                stripe_webhook_secret,
                server_host,
                server_port: match settings.server_port {
                    Some(port) => port,
                    None => DEFAULT_SERVER_PORT,
                },
                base_url,
            },
        )
    }

    /// The address to listen on: host, colon, port.
    pub fn bind_address(&self) -> (address: String)
        ensures
            address@ == self.server_host@ + ":"@ + decimal(self.server_port as nat),
    {
        concat3(self.server_host.as_str(), ":", u64_to_string(self.server_port as u64).as_str())
    }
}

} // verus!
