//! Configuration errors: a required variable was absent, or a variable
//! held text that does not parse into the declared type.

use vstd::prelude::*;

verus! {

/// Ghost image of a configuration error.
#[verifier::ext_equal]
pub ghost enum ConfigErrorView {
    Missing(Seq<char>),
    Invalid { key: Seq<char>, value: Seq<char> },
}

/// A configuration error, keyed by the environment variable it concerns.
#[derive(Debug)]
pub enum ConfigError {
    Missing(&'static str),
    Invalid { key: &'static str, value: String },
}

impl View for ConfigError {
    type V = ConfigErrorView;

    open spec fn view(&self) -> ConfigErrorView {
        match self {
            ConfigError::Missing(k) => ConfigErrorView::Missing(k@),
            ConfigError::Invalid { key, value } => ConfigErrorView::Invalid {
                key: key@,
                value: value@,
            },
        }
    }
}

/// The human-readable rendering of a configuration error.
pub open spec fn config_error_text(e: ConfigErrorView) -> Seq<char> {
    match e {
        ConfigErrorView::Missing(k) => "Missing configuration key: "@ + k,
        ConfigErrorView::Invalid { key, value } => "Invalid configuration key: "@ + key
            + ", value: "@ + value,
    }
}

impl ConfigError {
    /// The message printed on the error stream when start-up fails.
    pub fn display_string(&self) -> (r: String)
        ensures
            r@ == config_error_text(self@),
    {
        match self {
            ConfigError::Missing(k) => {
                let mut s = String::from_str("Missing configuration key: ");
                s.append(k);
                s
            },
            ConfigError::Invalid { key, value } => {
                let mut s = String::from_str("Invalid configuration key: ");
                s.append(key);
                s.append(", value: ");
                s.append(value.as_str());
                s
            },
        }
    }
}

} // verus!
