//! Service-level configuration: display name (optional, default "todo")
//! and listening port (required).

use vstd::prelude::*;

use crate::config::error::{ConfigError, ConfigErrorView};
use crate::config::read::{read_optional, read_required, spec_read_optional_string,
    spec_read_required_u16, EnvSnapshot, EnvSnapshotView};
use crate::config::variables::{Application, EnvVariable};

verus! {

/// Ghost image of the service settings.
#[verifier::ext_equal]
pub ghost struct AppConfigurationView {
    pub service_name: Seq<char>,
    pub service_port: u16,
}

/// The service settings.
#[derive(Debug, Clone)]
pub struct AppConfiguration {
    service_name: String,
    service_port: u16,
}

impl View for AppConfiguration {
    type V = AppConfigurationView;

    closed spec fn view(&self) -> AppConfigurationView {
        AppConfigurationView {
            service_name: self.service_name@,
            service_port: self.service_port,
        }
    }
}

/// What loading the service settings owes for given environment
/// readings: name first, then port, first failure wins.
pub open spec fn app_config_result(env: EnvSnapshotView) -> Result<
    AppConfigurationView,
    ConfigErrorView,
> {
    match spec_read_optional_string("APP_SERVICE_NAME"@, env.service_name, "todo"@) {
        Err(e) => Err(e),
        Ok(name) => match spec_read_required_u16("APP_SERVICE_PORT"@, env.service_port) {
            Err(e) => Err(e),
            Ok(port) => Ok(AppConfigurationView { service_name: name, service_port: port }),
        },
    }
}

impl AppConfiguration {
    /// Load the service settings from captured environment readings.
    pub fn from_env(env: &EnvSnapshot) -> (r: Result<AppConfiguration, ConfigError>)
        ensures
            r matches Ok(c) ==> app_config_result(env@) == Ok::<
                AppConfigurationView,
                ConfigErrorView,
            >(c@),
            r matches Err(e) ==> app_config_result(env@) == Err::<
                AppConfigurationView,
                ConfigErrorView,
            >(e@),
    {
        let service_name = match read_optional::<Application, String>(
            Application::ServiceName,
            &env.service_name,
            String::from_str("todo"),
        ) {
            Ok(v) => v,
            Err(e) => return Err(e),
        };
        let service_port = match read_required::<Application, u16>(
            Application::ServicePort,
            &env.service_port,
        ) {
            Ok(v) => v,
            Err(e) => return Err(e),
        };
        Ok(AppConfiguration { service_name, service_port })
    }

    /// The configured display name.
    pub fn service_name(&self) -> (r: &str)
        ensures
            r@ == self@.service_name,
    {
        self.service_name.as_str()
    }

    /// The configured listening port.
    pub fn service_port(&self) -> (r: u16)
        ensures
            r == self@.service_port,
    {
        self.service_port
    }
}

} // verus!
