//! The closed set of environment variables the service recognises, with
//! their key strings.

use vstd::prelude::*;

verus! {

/// A named environment variable with its key string.
pub trait EnvVariable: Copy {
    /// The key under which the variable is looked up.
    spec fn key(self) -> Seq<char>;

    /// The key as a string slice.
    fn as_str(self) -> (r: &'static str)
        ensures
            r@ == self.key(),
    ;
}

/// The service-level settings.
#[derive(Debug, Clone, Copy)]
pub enum Application {
    ServiceName,
    ServicePort,
}

impl EnvVariable for Application {
    open spec fn key(self) -> Seq<char> {
        match self {
            Application::ServiceName => "APP_SERVICE_NAME"@,
            Application::ServicePort => "APP_SERVICE_PORT"@,
        }
    }

    fn as_str(self) -> (r: &'static str) {
        match self {
            Application::ServiceName => "APP_SERVICE_NAME",
            Application::ServicePort => "APP_SERVICE_PORT",
        }
    }
}

/// The store-level settings.
#[derive(Debug, Clone, Copy)]
pub enum Database {
    Url,
    MaxConnections,
}

impl EnvVariable for Database {
    open spec fn key(self) -> Seq<char> {
        match self {
            Database::Url => "APP_DATABASE_URL"@,
            Database::MaxConnections => "APP_DATABASE_MAX_CONNECTIONS"@,
        }
    }

    fn as_str(self) -> (r: &'static str) {
        match self {
            Database::Url => "APP_DATABASE_URL",
            Database::MaxConnections => "APP_DATABASE_MAX_CONNECTIONS",
        }
    }
}

} // verus!
