//! The settings of the application, made from the values that its
//! environment gives.

use vstd::prelude::*;
use crate::text::{decimal_i64, parse_i64, split, split_on, string_texts, trim, trimmed};

verus! {

/// The settings of the application.
#[derive(Clone, Debug)]
pub struct AppConfig {
    pub database_url: String,
    pub server_addr: String,
    pub jwt_secret: String,
    pub jwt_expiration: i64,
    pub allowed_origins: Vec<String>,
}

/// Why settings cannot be made from the values given.
#[derive(Clone, Copy, Debug, PartialEq, Eq, Structural)]
pub enum ConfigError {
    /// The address of the database is not set.
    MissingDatabaseUrl,
    /// The secret for tokens is not set.
    MissingJwtSecret,
    /// The lifetime of tokens is set to something that is no number.
    InvalidJwtExpiration,
}

/// The list of origins that a setting stands for: its pieces between
/// commas, each without the white space around it.
pub open spec fn origin_list(raw: Seq<char>) -> Seq<Seq<char>> {
    split_on(raw, ',').map_values(|piece: Seq<char>| trimmed(piece))
}

/// The text of an optional value, or that of a default.
pub open spec fn text_or(value: Option<String>, default: Seq<char>) -> Seq<char> {
    match value {
        Some(text) => text@,
        None => default,
    }
}

/// Why the given values make no settings, if they make none: the first of
/// the three reasons that holds.
pub open spec fn config_rejection(
    database_url: Option<String>,
    jwt_secret: Option<String>,
    jwt_expiration: Option<String>,
) -> Option<ConfigError> {
    if database_url is None {
        Some(ConfigError::MissingDatabaseUrl)
    } else if jwt_secret is None {
        Some(ConfigError::MissingJwtSecret)
    } else if decimal_i64(text_or(jwt_expiration, "86400"@)) is None {
        Some(ConfigError::InvalidJwtExpiration)
    } else {
        None
    }
}

/// Reads the list of origins out of a setting.
pub fn parse_origins(raw: &str) -> (origins: Vec<String>)
    ensures
        string_texts(origins@) == origin_list(raw@),
{
    let pieces = split(raw, ',');
    let ghost texts = split_on(raw@, ',');
    let mut origins: Vec<String> = Vec::new();
    let mut i: usize = 0;
    while i < pieces.len()
        invariant
            i <= pieces.len(),
            crate::text::slice_texts(pieces@) == texts,
            origins.len() == i,
            forall|j: int| 0 <= j < i ==> (#[trigger] origins@[j])@ == trimmed(texts[j]),
        decreases pieces.len() - i,
    {
        assert(crate::text::slice_texts(pieces@)[i as int] == pieces@[i as int]@);
        origins.push(trim(pieces[i]).to_owned());
        i += 1;
    }
    assert(string_texts(origins@) =~= origin_list(raw@));
    origins
}

impl AppConfig {
    /// Makes the settings from the values of the environment.
    ///
    /// The address of the database and the secret have to be there. The
    /// server listens on `0.0.0.0:8080`, tokens live for 86400 seconds and
    /// the one allowed origin is `http://localhost:3000`, unless other
    /// values are given.
    pub fn from_values(
        database_url: Option<String>,
        server_addr: Option<String>,
        jwt_secret: Option<String>,
        jwt_expiration: Option<String>,
        allowed_origins: Option<String>,
    ) -> (r: Result<AppConfig, ConfigError>)
        ensures
            match r {
                Ok(config) => {
                    &&& config_rejection(database_url, jwt_secret, jwt_expiration) is None
                    &&& Some(config.database_url) == database_url
                    &&& config.server_addr@ == text_or(server_addr, "0.0.0.0:8080"@)
                    &&& Some(config.jwt_secret) == jwt_secret
                    &&& Some(config.jwt_expiration) == decimal_i64(
                        text_or(jwt_expiration, "86400"@),
                    )
                    &&& string_texts(config.allowed_origins@) == origin_list(
                        text_or(allowed_origins, "http://localhost:3000"@),
                    )
                },
                Err(e) => config_rejection(database_url, jwt_secret, jwt_expiration) == Some(e),
            },
    {
        let database_url = match database_url {
            Some(url) => url,
            None => {
                return Err(ConfigError::MissingDatabaseUrl);
            },
        };
        let jwt_secret = match jwt_secret {
            Some(secret) => secret,
            None => {
                return Err(ConfigError::MissingJwtSecret);
            },
        };
        let parsed = match &jwt_expiration {
            Some(text) => parse_i64(text.as_str()),
            None => parse_i64("86400"),
        };
        let jwt_expiration = match parsed {
            Ok(seconds) => seconds,
            Err(_) => {
                return Err(ConfigError::InvalidJwtExpiration);
            },
        };
        let server_addr = match server_addr {
            Some(addr) => addr,
            None => "0.0.0.0:8080".to_owned(),
        };
        let allowed_origins = match &allowed_origins {
            Some(raw) => parse_origins(raw.as_str()),
            None => parse_origins("http://localhost:3000"),
        };
        Ok(AppConfig { database_url, server_addr, jwt_secret, jwt_expiration, allowed_origins })
    }
}

} // verus!
