//! Start-up settings.

use vstd::prelude::*;

verus! {

/// Why an environment variable could not be had (`std::env::VarError`).
#[derive(Clone, Debug, PartialEq, Eq)]
pub enum EnvVarError {
    /// The variable is not set.
    NotPresent,
    /// The variable is set, but not to Unicode text; its value, as the
    /// platform encodes it.
    NotUnicode(Vec<u8>),
}

/// The settings that the server reads from its environment.
#[derive(Clone, Debug)]
pub struct Config {
    pub db_url: String,
    pub jwt_secret: String,
}

impl Config {
    /// Builds the settings from the lookups of `DATABASE_URL` and
    /// `JWT_SECRET`, in that order: the first lookup that failed is the
    /// error, passed on unchanged (a non-Unicode value with it).
    pub fn init(
        db_url: Result<String, EnvVarError>,
        jwt_secret: Result<String, EnvVarError>,
    ) -> (r: Result<Config, EnvVarError>)
        ensures
            match (db_url, jwt_secret) {
                (Ok(d), Ok(j)) => r matches Ok(c) && c.db_url == d && c.jwt_secret == j,
                (Err(e), _) => r == Err::<Config, EnvVarError>(e),
                (Ok(_), Err(e)) => r == Err::<Config, EnvVarError>(e),
            },
    {
        let db_url = match db_url {
            Ok(v) => v,
            Err(e) => return Err(e),
        };
        let jwt_secret = match jwt_secret {
            Ok(v) => v,
            Err(e) => return Err(e),
        };
        Ok(Config { db_url, jwt_secret })
    }
}

} // verus!
