//! The settings that the service is started with.

use vstd::prelude::*;

verus! {

/// Where the database is, and the secret that tokens are signed with.
#[derive(Debug, Clone, PartialEq, Eq)]
pub struct Config {
    pub database_url: String,
    pub jwt_secret: String,
}

impl Config {
    /// The settings with the given values.
    pub fn new(database_url: String, jwt_secret: String) -> (r: Config)
        ensures
            r.database_url == database_url,
            r.jwt_secret == jwt_secret,
    {
        Config { database_url, jwt_secret }
    }
}

} // verus!
