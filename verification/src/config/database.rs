//! Store-level configuration: connection string (required) and maximum
//! pool size (optional, default 5).

use vstd::prelude::*;

use crate::config::error::{ConfigError, ConfigErrorView};
use crate::config::read::{read_optional, read_required, spec_read_optional_u32,
    spec_read_required_string, EnvSnapshot, EnvSnapshotView};
use crate::config::variables::{Database, EnvVariable};

verus! {

/// Ghost image of the store settings.
#[verifier::ext_equal]
pub ghost struct DatabaseConfigurationView {
    pub url: Seq<char>,
    pub max_connections: u32,
}

/// The store settings.
#[derive(Debug, Clone)]
pub struct DatabaseConfiguration {
    url: String,
    max_connections: u32,
}

impl View for DatabaseConfiguration {
    type V = DatabaseConfigurationView;

    closed spec fn view(&self) -> DatabaseConfigurationView {
        DatabaseConfigurationView { url: self.url@, max_connections: self.max_connections }
    }
}

/// What loading the store settings owes for given environment readings:
/// url first, then pool size, first failure wins.
pub open spec fn database_config_result(env: EnvSnapshotView) -> Result<
    DatabaseConfigurationView,
    ConfigErrorView,
> {
    match spec_read_required_string("APP_DATABASE_URL"@, env.database_url) {
        Err(e) => Err(e),
        Ok(url) => match spec_read_optional_u32(
            "APP_DATABASE_MAX_CONNECTIONS"@,
            env.database_max_connections,
            5,
        ) {
            Err(e) => Err(e),
            Ok(mc) => Ok(DatabaseConfigurationView { url, max_connections: mc }),
        },
    }
}

impl DatabaseConfiguration {
    /// Load the store settings from captured environment readings.
    pub fn from_env(env: &EnvSnapshot) -> (r: Result<DatabaseConfiguration, ConfigError>)
        ensures
            r matches Ok(c) ==> database_config_result(env@) == Ok::<
                DatabaseConfigurationView,
                ConfigErrorView,
            >(c@),
            r matches Err(e) ==> database_config_result(env@) == Err::<
                DatabaseConfigurationView,
                ConfigErrorView,
            >(e@),
    {
        let url = match read_required::<Database, String>(Database::Url, &env.database_url) {
            Ok(v) => v,
            Err(e) => return Err(e),
        };
        let max_connections = match read_optional::<Database, u32>(
            Database::MaxConnections,
            &env.database_max_connections,
            5,
        ) {
            Ok(v) => v,
            Err(e) => return Err(e),
        };
        Ok(DatabaseConfiguration { url, max_connections })
    }

    /// The configured connection string.
    pub fn url(&self) -> (r: &str)
        ensures
            r@ == self@.url,
    {
        self.url.as_str()
    }

    /// The configured maximum pool size.
    pub fn max_connections(&self) -> (r: u32)
        ensures
            r == self@.max_connections,
    {
        self.max_connections
    }
}

} // verus!
