//! The full configuration: service settings then store settings, first
//! failure wins.

use vstd::prelude::*;

use crate::config::app::{app_config_result, AppConfiguration, AppConfigurationView};
use crate::config::database::{database_config_result, DatabaseConfiguration,
    DatabaseConfigurationView};
use crate::config::error::{ConfigError, ConfigErrorView};
use crate::config::read::EnvSnapshot;

verus! {

/// The full configuration of the process.
#[derive(Debug, Clone)]
pub struct Configuration {
    pub app: AppConfiguration,
    pub database: DatabaseConfiguration,
}

impl Configuration {
    /// Load the full configuration from captured environment readings:
    /// the service settings are read first, so their errors win.
    pub fn from_env(env: &EnvSnapshot) -> (r: Result<Configuration, ConfigError>)
        ensures
            r matches Ok(c) ==> app_config_result(env@) == Ok::<
                AppConfigurationView,
                ConfigErrorView,
            >(c.app@) && database_config_result(env@) == Ok::<
                DatabaseConfigurationView,
                ConfigErrorView,
            >(c.database@),
            r matches Err(e) ==> app_config_result(env@) == Err::<
                AppConfigurationView,
                ConfigErrorView,
            >(e@) || (app_config_result(env@) is Ok && database_config_result(env@) == Err::<
                DatabaseConfigurationView,
                ConfigErrorView,
            >(e@)),
    {
        let app = match AppConfiguration::from_env(env) {
            Ok(v) => v,
            Err(e) => return Err(e),
        };
        let database = match DatabaseConfiguration::from_env(env) {
            Ok(v) => v,
            Err(e) => return Err(e),
        };
        Ok(Configuration { app, database })
    }
}

} // verus!
